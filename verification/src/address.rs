//! The addresses that the shell's window is pointed at, and the script that
//! sends a window to the loopback server.

use vstd::prelude::*;
use vstd::string::StringExecFns;

use crate::decimal::{decimal, lemma_decimal_injective, push_decimal};

verus! {

/// The loopback port of a shell that serves its frontend on a fixed port.
pub const LOOPBACK_PORT: u16 = 14831;

/// The port on which the frontend's development server listens.
pub const DEV_SERVER_PORT: u16 = 5173;

/// The lowest port that a process may bind without special rights.
pub const FIRST_UNPRIVILEGED_PORT: u16 = 1024;

/// Whether a process without special rights may bind `port`.
pub open spec fn unprivileged(port: u16) -> bool {
    port >= FIRST_UNPRIVILEGED_PORT
}

/// The address of the loopback server on `port`: the scheme, the host name
/// `localhost`, a colon and the port in decimal.
pub open spec fn loopback_url_spec(port: u16) -> Seq<char> {
    "http://localhost:"@ + decimal(port as nat)
}

/// The address of the frontend's development server.
pub open spec fn dev_url_spec() -> Seq<char> {
    "http://localhost:5173"@
}

/// The address that a window opens on: the development server in a debug
/// build, the loopback server on `port` in any other.
pub open spec fn window_url_spec(port: u16, debug_build: bool) -> Seq<char> {
    if debug_build {
        dev_url_spec()
    } else {
        loopback_url_spec(port)
    }
}

/// The script that replaces a window's location by the address `url`: the
/// call's name and opening, the address between single quotes, the closing
/// bracket.
pub open spec fn navigation_script_spec(url: Seq<char>) -> Seq<char> {
    "window.location.replace('"@ + url + "')"@
}

/// The script that replaces a window's location by the loopback server's
/// address on `port`.
pub open spec fn redirect_script_spec(port: u16) -> Seq<char> {
    navigation_script_spec(loopback_url_spec(port))
}

/// The script that points a window at the address of its build: the
/// development server in a debug build, the loopback server on `port` in any
/// other.
pub open spec fn window_script_spec(port: u16, debug_build: bool) -> Seq<char> {
    navigation_script_spec(window_url_spec(port, debug_build))
}

/// Tells whether a process without special rights may bind `port`.
pub fn is_unprivileged(port: u16) -> (free: bool)
    ensures
        free == unprivileged(port),
{
    port >= FIRST_UNPRIVILEGED_PORT
}

/// Builds the address of the loopback server on `port`.
pub fn loopback_url(port: u16) -> (url: String)
    ensures
        url@ == loopback_url_spec(port),
{
    let mut url = String::from_str("http://localhost:");
    push_decimal(&mut url, port);
    url
}

/// Gives the address of the frontend's development server.
pub fn dev_url() -> (url: String)
    ensures
        url@ == dev_url_spec(),
{
    String::from_str("http://localhost:5173")
}

/// Chooses the address that a window opens on.
pub fn window_url(port: u16, debug_build: bool) -> (url: String)
    ensures
        url@ == window_url_spec(port, debug_build),
{
    if debug_build {
        dev_url()
    } else {
        loopback_url(port)
    }
}

/// Builds the script that replaces a window's location by the address
/// `url`.
pub fn navigation_script(url: &str) -> (script: String)
    ensures
        script@ == navigation_script_spec(url@),
{
    let mut script = String::from_str("window.location.replace('");
    script.append(url);
    script.append("')");
    script
}

/// Builds the script that sends a window to the loopback server on `port`.
pub fn redirect_script(port: u16) -> (script: String)
    ensures
        script@ == redirect_script_spec(port),
{
    let url = loopback_url(port);
    navigation_script(url.as_str())
}

/// Builds the script that points a window at the address of its build.
pub fn window_script(port: u16, debug_build: bool) -> (script: String)
    ensures
        script@ == window_script_spec(port, debug_build),
{
    let url = window_url(port, debug_build);
    navigation_script(url.as_str())
}

/// The fixed loopback port can be bound without special rights.
pub proof fn lemma_loopback_port_unprivileged()
    ensures
        unprivileged(LOOPBACK_PORT),
{
}

/// The development server's address is the loopback address on the
/// development server's port.
pub proof fn lemma_dev_url_is_loopback()
    ensures
        dev_url_spec() == loopback_url_spec(DEV_SERVER_PORT),
{
    reveal_strlit("http://localhost:5173");
    reveal_strlit("http://localhost:");
    reveal_with_fuel(decimal, 5);
    assert(decimal(5173) =~= seq!['5', '1', '7', '3']);
    assert(dev_url_spec() =~= loopback_url_spec(DEV_SERVER_PORT));
}

/// Two ports with the same loopback address are the same port.
pub proof fn lemma_loopback_url_injective(a: u16, b: u16)
    requires
        loopback_url_spec(a) == loopback_url_spec(b),
    ensures
        a == b,
{
    let prefix = "http://localhost:"@;
    let ua = loopback_url_spec(a);
    let ub = loopback_url_spec(b);
    assert(ua.subrange(prefix.len() as int, ua.len() as int) =~= decimal(a as nat));
    assert(ub.subrange(prefix.len() as int, ub.len() as int) =~= decimal(b as nat));
    lemma_decimal_injective(a as nat, b as nat);
}

/// Two addresses with the same navigation script are the same address.
pub proof fn lemma_navigation_script_injective(a: Seq<char>, b: Seq<char>)
    requires
        navigation_script_spec(a) == navigation_script_spec(b),
    ensures
        a == b,
{
    let head = "window.location.replace('"@;
    let tail = "')"@;
    let sa = navigation_script_spec(a);
    let sb = navigation_script_spec(b);
    assert(sa.len() == head.len() + a.len() + tail.len());
    assert(sb.len() == head.len() + b.len() + tail.len());
    assert(sa.subrange(head.len() as int, (head.len() + a.len()) as int) =~= a);
    assert(sb.subrange(head.len() as int, (head.len() + b.len()) as int) =~= b);
}

/// Two ports with the same redirect script are the same port.
pub proof fn lemma_redirect_script_injective(a: u16, b: u16)
    requires
        redirect_script_spec(a) == redirect_script_spec(b),
    ensures
        a == b,
{
    lemma_navigation_script_injective(loopback_url_spec(a), loopback_url_spec(b));
    lemma_loopback_url_injective(a, b);
}

/// A window opens on the development server's address exactly in a debug
/// build, and its script names that address exactly then, on every port but
/// the development server's own, where the two addresses are one.
pub proof fn lemma_dev_url_iff_debug_build(port: u16, debug_build: bool)
    requires
        port != DEV_SERVER_PORT,
    ensures
        window_url_spec(port, debug_build) == dev_url_spec() <==> debug_build,
        window_script_spec(port, debug_build) == navigation_script_spec(dev_url_spec())
            <==> debug_build,
        window_script_spec(port, debug_build) == redirect_script_spec(port) <==> !debug_build,
{
    lemma_dev_url_is_loopback();
    if loopback_url_spec(port) == dev_url_spec() {
        lemma_loopback_url_injective(port, DEV_SERVER_PORT);
    }
    if navigation_script_spec(loopback_url_spec(port)) == navigation_script_spec(dev_url_spec()) {
        lemma_navigation_script_injective(loopback_url_spec(port), dev_url_spec());
    }
}

} // verus!
