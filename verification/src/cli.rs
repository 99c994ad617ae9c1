//! What the command line asks for, and which timeline source a run uses.
use vstd::prelude::*;
use crate::extension::expected_origin;
use crate::text::{concat3, str_eq};

verus! {

/// A request made on the command line.
#[derive(Debug)]
pub enum Command {
    /// Serve the browser extension as its native-messaging host.
    NativeHost,
    Help,
    Version,
    /// Sign in through OAuth; the client id when one was given.
    Login { client_id: Option<String> },
    Logout,
    /// Manage the browser extension.
    Extension { action: Option<String>, browser: Option<String> },
    /// One of the retired isolated-browser commands.
    RemovedBrowserMode,
    /// Start the reader; `word` is the first argument when there is one.
    Run { word: Option<String> },
}

pub open spec fn arg(args: Seq<String>, i: int) -> Option<String> {
    if 0 <= i < args.len() {
        Some(args[i])
    } else {
        None
    }
}

/// The request the arguments (after the program name) make.
pub open spec fn command_of(args: Seq<String>) -> Command {
    let first = arg(args, 0);
    match first {
        Some(w) => if w@ == expected_origin() || w@ == "native-host"@ {
            Command::NativeHost
        } else if w@ == "--help"@ || w@ == "-h"@ || w@ == "help"@ {
            Command::Help
        } else if w@ == "--version"@ || w@ == "-V"@ || w@ == "version"@ {
            Command::Version
        } else if w@ == "login"@ {
            Command::Login { client_id: arg(args, 1) }
        } else if w@ == "logout"@ {
            Command::Logout
        } else if w@ == "extension"@ {
            Command::Extension { action: arg(args, 1), browser: arg(args, 2) }
        } else if w@ == "browser"@ || w@ == "browser-login"@ || w@ == "browser-check"@ {
            Command::RemovedBrowserMode
        } else {
            Command::Run { word: Some(w) }
        },
        None => Command::Run { word: None },
    }
}

fn arg_at(args: &Vec<String>, i: usize) -> (r: Option<String>)
    ensures
        r == arg(args@, i as int),
{
    if i < args.len() {
        Some(args[i].clone())
    } else {
        None
    }
}

/// Read the command line (the arguments after the program name).
pub fn parse_command(args: &Vec<String>) -> (r: Command)
    ensures
        r == command_of(args@),
{
    if args.len() == 0 {
        return Command::Run { word: None };
    }
    let w = args[0].as_str();
    let origin = concat3("chrome-extension://", crate::extension::EXTENSION_ID, "/");
    if str_eq(w, origin.as_str()) || str_eq(w, "native-host") {
        Command::NativeHost
    } else if str_eq(w, "--help") || str_eq(w, "-h") || str_eq(w, "help") {
        Command::Help
    } else if str_eq(w, "--version") || str_eq(w, "-V") || str_eq(w, "version") {
        Command::Version
    } else if str_eq(w, "login") {
        Command::Login { client_id: arg_at(args, 1) }
    } else if str_eq(w, "logout") {
        Command::Logout
    } else if str_eq(w, "extension") {
        Command::Extension { action: arg_at(args, 1), browser: arg_at(args, 2) }
    } else if str_eq(w, "browser") || str_eq(w, "browser-login") || str_eq(w, "browser-check") {
        Command::RemovedBrowserMode
    } else {
        Command::Run { word: Some(args[0].clone()) }
    }
}

/// Where a run reads its timelines from.
#[derive(Clone, Copy, Debug, PartialEq, Eq, Structural)]
pub enum Source {
    Extension,
    Demo,
    Api,
}

/// The source of a run: the extension when asked for with `live` or
/// configured; otherwise the samples when asked for with `demo` or when no
/// access token is saved; otherwise the X API.
pub open spec fn source_for(word: Option<Seq<char>>, use_extension: bool, has_token: bool) -> Source {
    let extension = word == Some("live"@) || use_extension;
    if extension {
        Source::Extension
    } else if word == Some("demo"@) || !has_token {
        Source::Demo
    } else {
        Source::Api
    }
}

/// Which source a run uses.
pub fn choose_source(word: Option<&str>, use_extension: bool, has_token: bool) -> (r: Source)
    ensures
        r == source_for(
            match word {
                Some(w) => Some(w@),
                None => None,
            },
            use_extension,
            has_token,
        ),
{
    let live = match word {
        Some(w) => str_eq(w, "live"),
        None => false,
    };
    let demo = match word {
        Some(w) => str_eq(w, "demo"),
        None => false,
    };
    if live || use_extension {
        Source::Extension
    } else if demo || !has_token {
        Source::Demo
    } else {
        Source::Api
    }
}

/// What `xtui extension` is asked to do.
#[derive(Clone, Copy, Debug, PartialEq, Eq, Structural)]
pub enum ExtensionAction {
    /// Write the extension's files and print where (`prepare` or `path`).
    Prepare,
    Install,
    Status,
    Check,
}

impl ExtensionAction {
    /// The action named (`status` when none is).
    pub fn parse(action: Option<&str>) -> (r: Result<ExtensionAction, String>)
        ensures
            ({
                let w = match action {
                    Some(a) => a@,
                    None => "status"@,
                };
                if w == "prepare"@ || w == "path"@ {
                    r == Ok::<ExtensionAction, String>(ExtensionAction::Prepare)
                } else if w == "install"@ {
                    r == Ok::<ExtensionAction, String>(ExtensionAction::Install)
                } else if w == "status"@ {
                    r == Ok::<ExtensionAction, String>(ExtensionAction::Status)
                } else if w == "check"@ {
                    r == Ok::<ExtensionAction, String>(ExtensionAction::Check)
                } else {
                    r matches Err(e) && e@ == "unknown extension action `"@ + w
                        + "`; use install, prepare, path, status, or check"@
                }
            }),
    {
        let w = match action {
            Some(a) => a,
            None => "status",
        };
        if str_eq(w, "prepare") || str_eq(w, "path") {
            Ok(ExtensionAction::Prepare)
        } else if str_eq(w, "install") {
            Ok(ExtensionAction::Install)
        } else if str_eq(w, "status") {
            Ok(ExtensionAction::Status)
        } else if str_eq(w, "check") {
            Ok(ExtensionAction::Check)
        } else {
            Err(concat3("unknown extension action `", w, "`; use install, prepare, path, status, or check"))
        }
    }
}

/// The `--version` line.
pub fn version_line() -> (r: String)
    ensures
        r@ == "xtui "@ + crate::extension::PACKAGE_VERSION@,
{
    crate::text::concat2("xtui ", crate::extension::PACKAGE_VERSION)
}

} // verus!
