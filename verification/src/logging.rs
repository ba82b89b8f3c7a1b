//! Routing of log events to the interactive prompt.
//!
//! The log subscriber plumbing belongs to the composing application; what
//! is verified here is the routing table: which prompt channel an event of
//! each severity reaches, with which colour styling, and that debug and
//! trace events never reach the prompt at all.

use vstd::prelude::*;

verus! {

/// Severity of a log event.
#[derive(Clone, Copy, Debug, PartialEq, Eq, Structural)]
pub enum LogLevel {
    /// An error.
    Error,
    /// A warning.
    Warn,
    /// Information.
    Info,
    /// Debug detail.
    Debug,
    /// Trace detail.
    Trace,
}

/// The prompt channel a log event is routed to.
#[derive(Clone, Copy, Debug, PartialEq, Eq, Structural)]
pub enum LogTarget {
    /// The prompt's error channel.
    Error,
    /// The prompt's warning channel.
    Warning,
    /// The prompt's info channel.
    Info,
}

/// Routes log events to the interactive prompt.
pub struct CliclackLayer;

/// `message` wrapped in the ANSI colour sequence for `code`.
pub open spec fn ansi_wrapped(code: Seq<char>, message: Seq<char>) -> Seq<char> {
    "\u{1b}["@ + code + "m"@ + message + "\u{1b}[0m"@
}

/// Wraps a message in one ANSI colour sequence.
fn wrap_ansi(code: &str, message: &str) -> (r: String)
    ensures
        r@ == ansi_wrapped(code@, message@),
{
    let mut out = "\u{1b}[".to_owned();
    out.append(code);
    out.append("m");
    out.append(message);
    out.append("\u{1b}[0m");
    out
}

impl CliclackLayer {
    /// Decides where one log event goes: errors in red to the error
    /// channel, warnings in yellow to the warning channel, information in
    /// cyan to the info channel; debug and trace events are swallowed.
    pub fn route(&self, level: LogLevel, message: &str) -> (r: Option<(LogTarget, String)>)
        ensures
            level is Error ==> (r matches Some((t, m)) && t == LogTarget::Error && m@
                == ansi_wrapped("31"@, message@)),
            level is Warn ==> (r matches Some((t, m)) && t == LogTarget::Warning && m@
                == ansi_wrapped("33"@, message@)),
            level is Info ==> (r matches Some((t, m)) && t == LogTarget::Info && m@
                == ansi_wrapped("36"@, message@)),
            level is Debug || level is Trace ==> r is None,
    {
        match level {
            LogLevel::Error => Some((LogTarget::Error, wrap_ansi("31", message))),
            LogLevel::Warn => Some((LogTarget::Warning, wrap_ansi("33", message))),
            LogLevel::Info => Some((LogTarget::Info, wrap_ansi("36", message))),
            LogLevel::Debug => None,
            LogLevel::Trace => None,
        }
    }
}

} // verus!
