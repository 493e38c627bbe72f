//! The window and application side: the print command's result, the
//! relay of native menu events, and what is installed at startup.

use vstd::prelude::*;
use crate::fetch::prefixed;
use crate::method::same_text;

verus! {

/// Identifier of the native "About" menu item.
pub const ABOUT_MENU_ID: &'static str = "about";

/// Name of the front-end notification fired by the "About" menu item.
pub const SHOW_ABOUT_EVENT: &'static str = "show-about";

pub open spec fn print_message(cause: Seq<char>) -> Seq<char> {
    "Print failed: "@ + cause
}

/// Whatever the print facility reported, a failed print's message starts
/// with "Print failed:".
pub proof fn lemma_print_failure_prefixed(cause: Seq<char>)
    ensures
        print_message(cause).subrange(0, "Print failed:"@.len() as int) == "Print failed:"@,
{
    reveal_strlit("Print failed: ");
    reveal_strlit("Print failed:");
    assert(print_message(cause).subrange(0, "Print failed:"@.len() as int) =~= "Print failed:"@);
}

/// The print command's result, given what the window's print facility
/// reported: nothing on success, else the description of the failure.
pub fn print_outcome(printed: Result<(), String>) -> (r: Result<(), String>)
    ensures
        match printed {
            Ok(()) => r is Ok,
            Err(cause) => r is Err && r->Err_0@ == print_message(cause@),
        },
{
    match printed {
        Ok(()) => Ok(()),
        Err(cause) => Err(prefixed("Print failed: ", cause.as_str())),
    }
}

/// The notification to emit, with no payload, for a native menu event with
/// identifier `id`: "show-about" for the "About" item, none for any other.
pub fn menu_notification(id: &str) -> (r: Option<&'static str>)
    ensures
        id@ == ABOUT_MENU_ID@ ==> r == Some(SHOW_ABOUT_EVENT),
        id@ != ABOUT_MENU_ID@ ==> r is None,
{
    if same_text(id, ABOUT_MENU_ID) {
        Some(SHOW_ABOUT_EVENT)
    } else {
        None
    }
}

/// A capability plugin registered with the application framework.
#[derive(Clone, Copy, Debug, PartialEq, Eq, Structural)]
pub enum Plugin {
    Fs,
    Dialog,
    Http,
    Opener,
    Shell,
}

/// Verbosity of the logging plugin.
#[derive(Clone, Copy, Debug, PartialEq, Eq, Structural)]
pub enum LogLevel {
    Error,
    Warn,
    Info,
    Debug,
    Trace,
}

/// What the application installs before it enters its event loop.
#[derive(Debug)]
pub struct StartupPlan {
    /// The capability plugins, in the order they are registered.
    pub plugins: Vec<Plugin>,
    /// The logging plugin's verbosity, when it is installed at all.
    pub logging: Option<LogLevel>,
    /// Whether the native menu's events are relayed to the front-end.
    pub menu_relay: bool,
}

/// The startup plan for a build: the five capability plugins always, the
/// logging plugin at informational verbosity in a debug build only, and the
/// menu relay on a platform with a native application menu.
pub fn startup_plan(debug_build: bool, has_app_menu: bool) -> (r: StartupPlan)
    ensures
        r.plugins@ == seq![Plugin::Fs, Plugin::Dialog, Plugin::Http, Plugin::Opener, Plugin::Shell],
        r.logging == (if debug_build { Some(LogLevel::Info) } else { None::<LogLevel> }),
        r.menu_relay == has_app_menu,
{
    let plugins = vec![Plugin::Fs, Plugin::Dialog, Plugin::Http, Plugin::Opener, Plugin::Shell];
    let logging = if debug_build {
        Some(LogLevel::Info)
    } else {
        None
    };
    StartupPlan { plugins, logging, menu_relay: has_app_menu }
}

} // verus!
