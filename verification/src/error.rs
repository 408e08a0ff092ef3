//! The errors of the library and the messages they read as.

use vstd::prelude::*;
use vstd::string::StringExecFns;

use crate::text::{debug_plain_char, debug_quoted, debug_repr};

verus! {

/// Why listing or activating a window failed.
#[derive(Debug)]
pub enum WasError {
    /// No window matched the query.
    NoWindowsMatched { query: String },
    /// A window id that the GNOME backend cannot parse as a number.
    InvalidWindowId { id: String },
    /// A D-Bus call returned an error; `detail` is that error's text.
    CallFailed { context: String, detail: String, hint: Option<String> },
    /// A D-Bus peer did not answer in time.
    NotResponding { server: String },
    /// The thread making a D-Bus call died before answering.
    WorkerPanicked { server: String },
    /// Any other failure of a backend, by its message.
    Backend { message: String },
}

/// The text of a call failure: the context, the error and, when given, the
/// hint in parentheses.
pub open spec fn call_failed_text(context: Seq<char>, detail: Seq<char>, hint: Option<Seq<char>>) -> Seq<char> {
    match hint {
        Some(h) => context + ": "@ + detail + " ("@ + h + ")"@,
        None => context + ": "@ + detail,
    }
}

impl WasError {
    /// The message that this error reads as.
    pub open spec fn message_view(&self) -> Seq<char> {
        match self {
            WasError::NoWindowsMatched { query } => "no windows matched \""@ + query@ + "\""@,
            WasError::InvalidWindowId { id } => "invalid GNOME window id: "@ + debug_repr(id@),
            WasError::CallFailed { context, detail, hint } => call_failed_text(
                context@,
                detail@,
                match hint {
                    Some(h) => Some(h@),
                    None => None,
                },
            ),
            WasError::NotResponding { server } => server@ + " is not responding"@,
            WasError::WorkerPanicked { server } => server@
                + " worker thread panicked or exited unexpectedly"@,
            WasError::Backend { message } => message@,
        }
    }

    /// The message that this error reads as.
    pub fn message(&self) -> (m: String)
        ensures
            m@ == self.message_view(),
            self matches WasError::NoWindowsMatched { query } ==> m@ == "no windows matched \""@
                + query@ + "\""@,
            self matches WasError::InvalidWindowId { id } ==> m@ == "invalid GNOME window id: "@
                + debug_repr(id@),
            self matches WasError::CallFailed { context, detail, hint } ==> (match hint {
                Some(h) => m@ == context@ + ": "@ + detail@ + " ("@ + h@ + ")"@,
                None => m@ == context@ + ": "@ + detail@,
            }),
            self matches WasError::NotResponding { server } ==> m@ == server@ + " is not responding"@,
            self matches WasError::WorkerPanicked { server } ==> m@ == server@
                + " worker thread panicked or exited unexpectedly"@,
            self matches WasError::Backend { message } ==> m@ == message@,
            self matches WasError::InvalidWindowId { id } ==> ((forall|i: int|
                0 <= i < id@.len() ==> debug_plain_char(#[trigger] id@[i])) ==> m@
                == "invalid GNOME window id: "@ + seq!['"'] + id@ + seq!['"']),
    {
        match self {
            WasError::NoWindowsMatched { query } => {
                let mut m = String::from_str("no windows matched \"");
                m.append(query.as_str());
                m.append("\"");
                m
            },
            WasError::InvalidWindowId { id } => {
                let mut m = String::from_str("invalid GNOME window id: ");
                let quoted = debug_quoted(id.as_str());
                m.append(quoted.as_str());
                m
            },
            WasError::CallFailed { context, detail, hint } => {
                let mut m = context.clone();
                m.append(": ");
                m.append(detail.as_str());
                match hint {
                    Some(h) => {
                        m.append(" (");
                        m.append(h.as_str());
                        m.append(")");
                    },
                    None => {},
                }
                m
            },
            WasError::NotResponding { server } => {
                let mut m = server.clone();
                m.append(" is not responding");
                m
            },
            WasError::WorkerPanicked { server } => {
                let mut m = server.clone();
                m.append(" worker thread panicked or exited unexpectedly");
                m
            },
            WasError::Backend { message } => message.clone(),
        }
    }
}

} // verus!
