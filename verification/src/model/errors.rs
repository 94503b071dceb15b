//! The error type carried across layers: `<source>.<kind>.<detail>` codes
//! with a category, a user-facing message and an optional detail.
use vstd::prelude::*;

verus! {

/// Unified error type for all cross-layer propagation.
#[derive(Debug, Clone)]
pub struct AppError {
    pub error_code: String,
    pub category: ErrorCategory,
    pub source: ErrorSource,
    pub user_message: String,
    pub detail: Option<String>,
    pub retryable: bool,
}

#[derive(Debug, Clone, Copy, PartialEq, Eq, Structural)]
pub enum ErrorCategory {
    Fatal,
    Recoverable,
    Informational,
}

#[derive(Debug, Clone, Copy, PartialEq, Eq, Structural)]
pub enum ErrorSource {
    Thread,
    Tool,
    Git,
    Terminal,
    Index,
    Settings,
    Workspace,
    Database,
    System,
}

impl ErrorSource {
    /// The lower-case name of the error source, the first part of its codes.
    pub open spec fn name(self) -> Seq<char> {
        match self {
            ErrorSource::Thread => "thread"@,
            ErrorSource::Tool => "tool"@,
            ErrorSource::Git => "git"@,
            ErrorSource::Terminal => "terminal"@,
            ErrorSource::Index => "index"@,
            ErrorSource::Settings => "settings"@,
            ErrorSource::Workspace => "workspace"@,
            ErrorSource::Database => "database"@,
            ErrorSource::System => "system"@,
        }
    }

    /// The stored name.
    pub fn as_str(&self) -> (r: &'static str)
        ensures
            r@ == self.name(),
    {
        match self {
            ErrorSource::Thread => "thread",
            ErrorSource::Tool => "tool",
            ErrorSource::Git => "git",
            ErrorSource::Terminal => "terminal",
            ErrorSource::Index => "index",
            ErrorSource::Settings => "settings",
            ErrorSource::Workspace => "workspace",
            ErrorSource::Database => "database",
            ErrorSource::System => "system",
        }
    }
}

impl AppError {
    /// A fatal, non-retryable internal error; the message is both shown and
    /// kept as detail, and the code is `<source>._internal`.
    pub fn internal(source: ErrorSource, message: &str) -> (e: AppError)
        ensures
            e.error_code@ == source.name() + "._internal"@,
            e.category == ErrorCategory::Fatal,
            e.source == source,
            e.user_message@ == message@,
            e.detail matches Some(d) && d@ == message@,
            !e.retryable,
    {
        let mut code = String::from_str(source.as_str());
        code.append("._internal");
        AppError {
            error_code: code,
            category: ErrorCategory::Fatal,
            source,
            user_message: String::from_str(message),
            detail: Some(String::from_str(message)),
            retryable: false,
        }
    }

    /// A recoverable, retryable error with the given code and message.
    pub fn recoverable(source: ErrorSource, code: &str, message: &str) -> (e: AppError)
        ensures
            e.error_code@ == code@,
            e.category == ErrorCategory::Recoverable,
            e.source == source,
            e.user_message@ == message@,
            e.detail is None,
            e.retryable,
    {
        AppError {
            error_code: String::from_str(code),
            category: ErrorCategory::Recoverable,
            source,
            user_message: String::from_str(message),
            detail: None,
            retryable: true,
        }
    }

    /// A recoverable, non-retryable "`what` not found" error with code
    /// `<source>.not_found`.
    pub fn not_found(source: ErrorSource, what: &str) -> (e: AppError)
        ensures
            e.error_code@ == source.name() + ".not_found"@,
            e.category == ErrorCategory::Recoverable,
            e.source == source,
            e.user_message@ == what@ + " not found"@,
            e.detail is None,
            !e.retryable,
    {
        let mut code = String::from_str(source.as_str());
        code.append(".not_found");
        let mut msg = String::from_str(what);
        msg.append(" not found");
        AppError {
            error_code: code,
            category: ErrorCategory::Recoverable,
            source,
            user_message: msg,
            detail: None,
            retryable: false,
        }
    }

    /// The display form `[<code>] <message>`.
    pub fn to_string(&self) -> (r: String)
        ensures
            r@ == "["@ + self.error_code@ + "] "@ + self.user_message@,
    {
        let mut s = String::from_str("[");
        s.append(self.error_code.as_str());
        s.append("] ");
        s.append(self.user_message.as_str());
        s
    }
}

} // verus!
