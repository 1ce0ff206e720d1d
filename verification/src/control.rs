//! Decisions of the operator's side: what a pressed key asks for, and which
//! log level a configured name stands for.
use vstd::prelude::*;
use vstd::string::*;

verus! {

/// What a key press asks of the server.
#[derive(Clone, Copy, Debug, PartialEq, Eq, Structural)]
pub enum Keys {
    /// Nothing: the key is swallowed.
    Ignore,
    /// Print the help text.
    Help,
    /// Shut the server down.
    Quit,
}

impl Keys {
    /// The command bound to a character: `x` quits, `?` asks for help.
    pub open spec fn spec_from_char(c: char) -> Keys {
        if c == 'x' {
            Keys::Quit
        } else if c == '?' {
            Keys::Help
        } else {
            Keys::Ignore
        }
    }

    /// The command bound to a character.
    pub fn from_char(c: char) -> (k: Keys)
        ensures
            k == Keys::spec_from_char(c),
    {
        if c == 'x' {
            Keys::Quit
        } else if c == '?' {
            Keys::Help
        } else {
            Keys::Ignore
        }
    }

    /// Whether the shutdown signal is to be sent.
    pub fn requests_shutdown(&self) -> (b: bool)
        ensures
            b == (*self == Keys::Quit),
    {
        match self {
            Keys::Quit => true,
            _ => false,
        }
    }
}

/// How much the terminal log shows.
#[derive(Clone, Copy, Debug, PartialEq, Eq, Structural)]
pub enum LogLevel {
    Trace,
    Debug,
    Info,
    Warn,
    Error,
}

/// The level that a configured name stands for. A missing or unknown name
/// stands for `Info`.
pub open spec fn spec_log_level(name: Option<Seq<char>>) -> LogLevel {
    match name {
        Some(text) => if text == "trace"@ {
            LogLevel::Trace
        } else if text == "debug"@ {
            LogLevel::Debug
        } else if text == "info"@ {
            LogLevel::Info
        } else if text == "warn"@ {
            LogLevel::Warn
        } else if text == "error"@ {
            LogLevel::Error
        } else {
            LogLevel::Info
        },
        None => LogLevel::Info,
    }
}

fn is_name(text: &str, name: &str) -> (b: bool)
    ensures
        b == (text@ == name@),
{
    text.to_owned() == name.to_owned()
}

/// The level that the configured name stands for; `None` where nothing is
/// configured.
pub fn get_log_level(name: Option<&str>) -> (level: LogLevel)
    ensures
        level == spec_log_level(
            match name {
                Some(text) => Some(text@),
                None => None,
            },
        ),
{
    match name {
        Some(text) => {
            if is_name(text, "trace") {
                LogLevel::Trace
            } else if is_name(text, "debug") {
                LogLevel::Debug
            } else if is_name(text, "info") {
                LogLevel::Info
            } else if is_name(text, "warn") {
                LogLevel::Warn
            } else if is_name(text, "error") {
                LogLevel::Error
            } else {
                LogLevel::Info
            }
        },
        None => LogLevel::Info,
    }
}

} // verus!
