//! Why a startup did not publish a sheet.

use crate::config::{key_name, SettingKey};
use vstd::prelude::*;

verus! {

/// A failure of startup. Each one ends the startup: no sheet is published and
/// the host must not begin to serve.
#[derive(Debug, PartialEq, Eq)]
pub enum StartupError {
    /// A setting is present in the configuration but has the wrong shape.
    ConfigShape { key: SettingKey, detail: String },
    /// The sheet's path does not exist or cannot be reached. `path` is the
    /// path as it was asked for, `reason` what the file system said.
    NotFound { path: String, reason: String },
    /// The compiler rejected the sheet. `diagnostic` is its report, untouched.
    Compile { diagnostic: String },
}

/// A `StartupError` as plain values.
pub enum StartupErrorView {
    ConfigShape { key: SettingKey, detail: Seq<char> },
    NotFound { path: Seq<char>, reason: Seq<char> },
    Compile { diagnostic: Seq<char> },
}

impl View for StartupError {
    type V = StartupErrorView;

    open spec fn view(&self) -> StartupErrorView {
        match *self {
            StartupError::ConfigShape { key, detail } => StartupErrorView::ConfigShape {
                key,
                detail: detail@,
            },
            StartupError::NotFound { path, reason } => StartupErrorView::NotFound {
                path: path@,
                reason: reason@,
            },
            StartupError::Compile { diagnostic } => StartupErrorView::Compile {
                diagnostic: diagnostic@,
            },
        }
    }
}

/// What precedes the path in the message of a `NotFound`.
pub open spec fn not_found_lead() -> Seq<char> {
    "Invalid sass sheet file '"@
}

/// What precedes the compiler's report in the message of a `Compile`.
pub open spec fn compile_lead() -> Seq<char> {
    "Couldn't compile sass: "@
}

/// What precedes the key in the message of a `ConfigShape`.
pub open spec fn config_lead() -> Seq<char> {
    "Invalid setting '"@
}

/// The line that reports `error` to an operator.
pub open spec fn message_of(error: StartupErrorView) -> Seq<char> {
    match error {
        StartupErrorView::ConfigShape { key, detail } => config_lead() + key_name(key) + "': "@
            + detail + "."@,
        StartupErrorView::NotFound { path, reason } => not_found_lead() + path + "': "@ + reason
            + "."@,
        StartupErrorView::Compile { diagnostic } => compile_lead() + diagnostic,
    }
}

impl Clone for StartupError {
    fn clone(&self) -> (copy: Self)
        ensures
            copy == *self,
    {
        match self {
            StartupError::ConfigShape { key, detail } => StartupError::ConfigShape {
                key: *key,
                detail: detail.clone(),
            },
            StartupError::NotFound { path, reason } => StartupError::NotFound {
                path: path.clone(),
                reason: reason.clone(),
            },
            StartupError::Compile { diagnostic } => StartupError::Compile {
                diagnostic: diagnostic.clone(),
            },
        }
    }
}

impl StartupError {
    /// The line that reports this error to an operator. It names the setting,
    /// the path or the compiler's report that the error is about.
    pub fn message(&self) -> (line: String)
        ensures
            line@ == message_of(self@),
    {
        match self {
            StartupError::ConfigShape { key, detail } => {
                let mut line = String::from_str("Invalid setting '");
                line.append(key.name());
                line.append("': ");
                line.append(detail.as_str());
                line.append(".");
                line
            },
            StartupError::NotFound { path, reason } => {
                let mut line = String::from_str("Invalid sass sheet file '");
                line.append(path.as_str());
                line.append("': ");
                line.append(reason.as_str());
                line.append(".");
                line
            },
            StartupError::Compile { diagnostic } => {
                let mut line = String::from_str("Couldn't compile sass: ");
                line.append(diagnostic.as_str());
                line
            },
        }
    }
}

/// Whether `text` stands in `line`, whole and unchanged, from place `at` on.
pub open spec fn holds_at(line: Seq<char>, at: int, text: Seq<char>) -> bool {
    &&& 0 <= at
    &&& at + text.len() <= line.len()
    &&& line.subrange(at, at + text.len()) == text
}

/// The message of a missing path holds that path, whole and unchanged, right
/// after the lead.
pub proof fn not_found_message_names_path(path: Seq<char>, reason: Seq<char>)
    ensures
        holds_at(
            message_of(StartupErrorView::NotFound { path, reason }),
            not_found_lead().len() as int,
            path,
        ),
{
    let line = message_of(StartupErrorView::NotFound { path, reason });
    let at = not_found_lead().len() as int;
    assert(line.subrange(at, at + path.len()) =~= path);
}

/// The message of a compile failure is the lead and then the compiler's
/// report, whole and unchanged, to the end.
pub proof fn compile_message_ends_in_diagnostic(diagnostic: Seq<char>)
    ensures
        ({
            let line = message_of(StartupErrorView::Compile { diagnostic });
            &&& line.len() == compile_lead().len() + diagnostic.len()
            &&& holds_at(line, compile_lead().len() as int, diagnostic)
        }),
{
    let line = message_of(StartupErrorView::Compile { diagnostic });
    let at = compile_lead().len() as int;
    assert(line.subrange(at, at + diagnostic.len()) =~= diagnostic);
}

} // verus!
