use loopback_shell::address::{
    dev_url, is_unprivileged, loopback_url, navigation_script, redirect_script, window_script,
    window_url, DEV_SERVER_PORT, FIRST_UNPRIVILEGED_PORT, LOOPBACK_PORT,
};
use loopback_shell::decimal::{decimal_string, push_decimal};

#[test]
fn fixed_port_is_unprivileged() {
    assert_eq!(LOOPBACK_PORT, 14831);
    assert!(LOOPBACK_PORT >= 1024);
    assert!(is_unprivileged(LOOPBACK_PORT));
}

#[test]
fn unprivileged_ports_start_at_1024() {
    assert_eq!(FIRST_UNPRIVILEGED_PORT, 1024);
    assert!(!is_unprivileged(0));
    assert!(!is_unprivileged(80));
    assert!(!is_unprivileged(1023));
    assert!(is_unprivileged(1024));
    assert!(is_unprivileged(u16::MAX));
}

#[test]
fn decimal_string_of_single_digits() {
    let expected = ["0", "1", "2", "3", "4", "5", "6", "7", "8", "9"];
    for (n, text) in expected.iter().enumerate() {
        assert_eq!(decimal_string(n as u16), *text);
    }
}

#[test]
fn decimal_string_at_the_digit_boundaries() {
    assert_eq!(decimal_string(10), "10");
    assert_eq!(decimal_string(99), "99");
    assert_eq!(decimal_string(100), "100");
    assert_eq!(decimal_string(1000), "1000");
    assert_eq!(decimal_string(9999), "9999");
    assert_eq!(decimal_string(10000), "10000");
    assert_eq!(decimal_string(u16::MAX), "65535");
}

#[test]
fn decimal_string_keeps_inner_zeros() {
    assert_eq!(decimal_string(1005), "1005");
    assert_eq!(decimal_string(20400), "20400");
}

#[test]
fn decimal_string_agrees_with_std_on_every_port() {
    for n in 0..=u16::MAX {
        assert_eq!(decimal_string(n), n.to_string());
    }
}

#[test]
fn decimal_string_reads_back_as_the_number() {
    for n in [0u16, 7, 42, 5173, 14831, 65535] {
        assert_eq!(decimal_string(n).parse::<u16>().unwrap(), n);
    }
}

#[test]
fn push_decimal_appends_and_keeps_what_was_there() {
    let mut text = String::from("port ");
    push_decimal(&mut text, 8080);
    assert_eq!(text, "port 8080");
    push_decimal(&mut text, 0);
    assert_eq!(text, "port 80800");
}

#[test]
fn loopback_url_of_the_fixed_port() {
    assert_eq!(loopback_url(LOOPBACK_PORT), "http://localhost:14831");
}

#[test]
fn loopback_url_of_the_extreme_ports() {
    assert_eq!(loopback_url(0), "http://localhost:0");
    assert_eq!(loopback_url(1), "http://localhost:1");
    assert_eq!(loopback_url(u16::MAX), "http://localhost:65535");
}

#[test]
fn loopback_url_is_always_localhost_and_the_port() {
    for port in [80u16, 1024, 15000, 24999, 49152] {
        assert_eq!(loopback_url(port), format!("http://localhost:{}", port));
    }
}

#[test]
fn loopback_urls_of_different_ports_differ() {
    assert_ne!(loopback_url(1483), loopback_url(14831));
    assert_ne!(loopback_url(15000), loopback_url(15001));
}

#[test]
fn dev_url_is_the_development_server() {
    assert_eq!(dev_url(), "http://localhost:5173");
    assert_eq!(DEV_SERVER_PORT, 5173);
    assert_eq!(dev_url(), loopback_url(DEV_SERVER_PORT));
}

#[test]
fn window_url_in_a_debug_build_is_the_dev_url() {
    assert_eq!(window_url(LOOPBACK_PORT, true), "http://localhost:5173");
    assert_eq!(window_url(0, true), "http://localhost:5173");
}

#[test]
fn window_url_in_a_release_build_is_the_loopback_url() {
    assert_eq!(window_url(LOOPBACK_PORT, false), "http://localhost:14831");
    assert_eq!(window_url(20123, false), "http://localhost:20123");
}

#[test]
fn redirect_script_replaces_the_location() {
    assert_eq!(
        redirect_script(14831),
        "window.location.replace('http://localhost:14831')"
    );
    assert_eq!(redirect_script(0), "window.location.replace('http://localhost:0')");
}

#[test]
fn redirect_script_agrees_with_std_formatting() {
    for port in [1u16, 99, 15000, 24999, 65535] {
        assert_eq!(
            redirect_script(port),
            format!("window.location.replace('http://localhost:{}')", port)
        );
    }
}

#[test]
fn redirect_script_holds_the_loopback_url() {
    let script = redirect_script(18080);
    let url = loopback_url(18080);
    assert_eq!(&script[25..25 + url.len()], url);
    assert_eq!(script.len(), url.len() + 27);
}

#[test]
fn navigation_script_wraps_the_address() {
    assert_eq!(
        navigation_script("http://localhost:5173"),
        "window.location.replace('http://localhost:5173')"
    );
    assert_eq!(navigation_script(""), "window.location.replace('')");
}

#[test]
fn redirect_script_is_the_navigation_to_the_loopback_url() {
    for port in [0u16, 5173, 14831, 65535] {
        assert_eq!(redirect_script(port), navigation_script(&loopback_url(port)));
    }
}

#[test]
fn window_script_in_a_debug_build_names_the_dev_url() {
    assert_eq!(
        window_script(LOOPBACK_PORT, true),
        "window.location.replace('http://localhost:5173')"
    );
    assert_ne!(window_script(LOOPBACK_PORT, true), redirect_script(LOOPBACK_PORT));
}

#[test]
fn window_script_in_a_release_build_names_the_loopback_url() {
    assert_eq!(
        window_script(LOOPBACK_PORT, false),
        "window.location.replace('http://localhost:14831')"
    );
    assert_eq!(window_script(20123, false), redirect_script(20123));
}

#[test]
fn decimal_string_has_no_leading_zero() {
    for n in 1..=u16::MAX {
        assert!(!decimal_string(n).starts_with('0'));
    }
    assert_eq!(decimal_string(0), "0");
}
