//! What the shell does when it starts: the port it serves on, whether it
//! logs, the address its main window is pointed at, and the script that
//! points it there.

use vstd::prelude::*;
use vstd::string::StringExecFns;

use crate::address::{
    navigation_script, window_script_spec, window_url, window_url_spec,
};

verus! {

/// How much a logger lets through, from nothing to everything.
#[derive(Clone, Copy, Debug, PartialEq, Eq, Structural)]
pub enum LogLevel {
    Off,
    Error,
    Warn,
    Info,
    Debug,
    Trace,
}

/// Why the shell could not start.
#[derive(Clone, Copy, Debug, PartialEq, Eq, Structural)]
pub enum StartupError {
    /// No port was found that is free to serve the frontend on.
    NoUnusedPort,
}

/// What the shell sets up before its event loop runs: the loopback server
/// on `port`, the logger if there is one, and the window labelled `window`
/// pointed at `url` by evaluating `script` in it.
#[derive(Debug, PartialEq, Eq)]
pub struct StartupPlan {
    /// The loopback port that serves the frontend.
    pub port: u16,
    /// The level of the logger to register, `None` for no logger.
    pub logger: Option<LogLevel>,
    /// The label of the window that is pointed at `url`.
    pub window: String,
    /// The address the window is pointed at: the development server in a
    /// debug build, the loopback server on `port` in any other.
    pub url: String,
    /// The script that replaces the window's location by `url`.
    pub script: String,
}

/// The label of the shell's main window.
pub open spec fn main_window_spec() -> Seq<char> {
    "main"@
}

/// The logger of a build: one at level `Info` in a debug build, none in any
/// other.
pub open spec fn logger_spec(debug_build: bool) -> Option<LogLevel> {
    if debug_build {
        Some(LogLevel::Info)
    } else {
        None
    }
}

impl StartupError {
    /// The diagnostic that the shell ends with on this error.
    pub open spec fn message_spec(self) -> Seq<char> {
        match self {
            StartupError::NoUnusedPort => "failed to get unused port"@,
        }
    }

    /// Gives the diagnostic that the shell ends with on this error.
    pub fn message(&self) -> (text: String)
        ensures
            text@ == self.message_spec(),
    {
        match self {
            StartupError::NoUnusedPort => String::from_str("failed to get unused port"),
        }
    }
}

impl StartupPlan {
    /// Whether this is the plan of a shell that serves on `port`, built as
    /// `debug_build` says.
    pub open spec fn is_for(self, port: u16, debug_build: bool) -> bool {
        &&& self.port == port
        &&& self.logger == logger_spec(debug_build)
        &&& self.window@ == main_window_spec()
        &&& self.url@ == window_url_spec(port, debug_build)
        &&& self.script@ == window_script_spec(port, debug_build)
    }
}

/// Gives the label of the shell's main window.
pub fn main_window() -> (label: String)
    ensures
        label@ == main_window_spec(),
{
    String::from_str("main")
}

/// Chooses the logger of a build.
pub fn logger_for(debug_build: bool) -> (logger: Option<LogLevel>)
    ensures
        logger == logger_spec(debug_build),
{
    if debug_build {
        Some(LogLevel::Info)
    } else {
        None
    }
}

/// Plans the start of a shell that serves on `port`.
pub fn plan_startup(port: u16, debug_build: bool) -> (plan: StartupPlan)
    ensures
        plan.is_for(port, debug_build),
{
    let url = window_url(port, debug_build);
    let script = navigation_script(url.as_str());
    StartupPlan { port, logger: logger_for(debug_build), window: main_window(), url, script }
}

/// Plans the start of a shell from the outcome of a search for a free port:
/// a plan for the port that was found, an error where none was.
pub fn plan_from_pick(picked: Option<u16>, debug_build: bool) -> (outcome: Result<
    StartupPlan,
    StartupError,
>)
    ensures
        match picked {
            Some(port) => outcome is Ok && outcome->Ok_0.is_for(port, debug_build),
            None => outcome == Err::<StartupPlan, StartupError>(StartupError::NoUnusedPort),
        },
{
    match picked {
        Some(port) => Ok(plan_startup(port, debug_build)),
        None => Err(StartupError::NoUnusedPort),
    }
}

/// Calls `portpicker::pick_unused_port`. It tries ten ports drawn at random
/// from 15000 up to 25000, then ten ports that the system offers, and gives
/// the first that it could bind for both TCP and UDP, or `None` when every
/// try failed. The outcome depends on chance and on what else is bound on
/// the machine, so nothing is claimed of it.
#[verifier::external_body]
fn pick_unused_port() -> (picked: Option<u16>) {
    portpicker::pick_unused_port()
}

/// Searches for a free port and plans the start of a shell that serves on
/// it. Whatever the search gives, the plan is the one for the port it names,
/// and the only error is that no port was found.
pub fn start(debug_build: bool) -> (outcome: Result<StartupPlan, StartupError>)
    ensures
        match outcome {
            Ok(plan) => plan.is_for(plan.port, debug_build),
            Err(error) => error == StartupError::NoUnusedPort,
        },
{
    plan_from_pick(pick_unused_port(), debug_build)
}

} // verus!
