//! The closed set of failures that the services report.

use crate::text::{decimal, decimal_string};
use vstd::prelude::*;

verus! {

/// A failure, with its kind and the fields that describe it.
#[derive(Debug, PartialEq, Eq)]
pub enum AppError {
    /// The secret store refused or failed.
    Keyring(String),
    /// Reading, writing or encoding stored data failed.
    Io(String),
    /// The database failed.
    Database(String),
    /// No server of this name is configured.
    ConfigNotFound { name: String },
    /// No process is tracked for this server.
    NotRunning { name: String },
    /// One launch attempt failed; `message` is what the system said.
    SpawnFailure { message: String },
    /// Every permitted launch attempt failed.
    RetryExhausted { name: String, attempts: u32, last_error: String },
    /// The time allowed for retries ran out before the attempts did.
    RetryTimeout { name: String },
    /// The process could not be terminated.
    KillFailure { name: String, message: String },
}

/// What an `AppError` says, with its texts as sequences of characters.
pub enum AppErrorView {
    Keyring(Seq<char>),
    Io(Seq<char>),
    Database(Seq<char>),
    ConfigNotFound { name: Seq<char> },
    NotRunning { name: Seq<char> },
    SpawnFailure { message: Seq<char> },
    RetryExhausted { name: Seq<char>, attempts: u32, last_error: Seq<char> },
    RetryTimeout { name: Seq<char> },
    KillFailure { name: Seq<char>, message: Seq<char> },
}

impl AppErrorView {
    /// The line shown to a person: the kind's prefix, then the details.
    pub open spec fn message(self) -> Seq<char> {
        match self {
            AppErrorView::Keyring(m) => "Keyring error: "@ + m,
            AppErrorView::Io(m) => "IO error: "@ + m,
            AppErrorView::Database(m) => "Database error: "@ + m,
            AppErrorView::ConfigNotFound { name } => "Not found: MCP server '"@ + name
                + "' not found"@,
            AppErrorView::NotRunning { name } => "Not found: MCP server '"@ + name
                + "' is not running"@,
            AppErrorView::SpawnFailure { message } => "Process error: Failed to spawn process: "@
                + message,
            AppErrorView::RetryExhausted { name, attempts, last_error } =>
                "Process error: Failed to start MCP server '"@ + name + "' after "@ + decimal(
                    attempts as nat,
                ) + " attempts: "@ + last_error,
            AppErrorView::RetryTimeout { name } =>
                "Process error: Backoff timeout starting MCP server '"@ + name + "'"@,
            AppErrorView::KillFailure { name, message } => "Process error: Failed to kill process: "@
                + message,
        }
    }
}

impl View for AppError {
    type V = AppErrorView;

    open spec fn view(&self) -> AppErrorView {
        match self {
            AppError::Keyring(m) => AppErrorView::Keyring(m@),
            AppError::Io(m) => AppErrorView::Io(m@),
            AppError::Database(m) => AppErrorView::Database(m@),
            AppError::ConfigNotFound { name } => AppErrorView::ConfigNotFound { name: name@ },
            AppError::NotRunning { name } => AppErrorView::NotRunning { name: name@ },
            AppError::SpawnFailure { message } => AppErrorView::SpawnFailure { message: message@ },
            AppError::RetryExhausted { name, attempts, last_error } => AppErrorView::RetryExhausted {
                name: name@,
                attempts: *attempts,
                last_error: last_error@,
            },
            AppError::RetryTimeout { name } => AppErrorView::RetryTimeout { name: name@ },
            AppError::KillFailure { name, message } => AppErrorView::KillFailure {
                name: name@,
                message: message@,
            },
        }
    }
}

impl Clone for AppError {
    fn clone(&self) -> (r: Self)
        ensures
            r@ == self@,
    {
        match self {
            AppError::Keyring(m) => AppError::Keyring(m.clone()),
            AppError::Io(m) => AppError::Io(m.clone()),
            AppError::Database(m) => AppError::Database(m.clone()),
            AppError::ConfigNotFound { name } => AppError::ConfigNotFound { name: name.clone() },
            AppError::NotRunning { name } => AppError::NotRunning { name: name.clone() },
            AppError::SpawnFailure { message } => AppError::SpawnFailure {
                message: message.clone(),
            },
            AppError::RetryExhausted { name, attempts, last_error } => AppError::RetryExhausted {
                name: name.clone(),
                attempts: *attempts,
                last_error: last_error.clone(),
            },
            AppError::RetryTimeout { name } => AppError::RetryTimeout { name: name.clone() },
            AppError::KillFailure { name, message } => AppError::KillFailure {
                name: name.clone(),
                message: message.clone(),
            },
        }
    }
}

/// `prefix`, then `detail`.
fn joined(prefix: &str, detail: &str) -> (s: String)
    ensures
        s@ == prefix@ + detail@,
{
    let mut s = String::from_str(prefix);
    s.append(detail);
    s
}

impl AppError {
    /// The line shown to a person.
    pub fn to_string(&self) -> (s: String)
        ensures
            s@ == self@.message(),
    {
        match self {
            AppError::Keyring(m) => joined("Keyring error: ", m.as_str()),
            AppError::Io(m) => joined("IO error: ", m.as_str()),
            AppError::Database(m) => joined("Database error: ", m.as_str()),
            AppError::ConfigNotFound { name } => {
                let mut s = joined("Not found: MCP server '", name.as_str());
                s.append("' not found");
                s
            },
            AppError::NotRunning { name } => {
                let mut s = joined("Not found: MCP server '", name.as_str());
                s.append("' is not running");
                s
            },
            AppError::SpawnFailure { message } => joined(
                "Process error: Failed to spawn process: ",
                message.as_str(),
            ),
            AppError::RetryExhausted { name, attempts, last_error } => {
                let mut s = joined("Process error: Failed to start MCP server '", name.as_str());
                s.append("' after ");
                let count = decimal_string(*attempts);
                s.append(count.as_str());
                s.append(" attempts: ");
                s.append(last_error.as_str());
                s
            },
            AppError::RetryTimeout { name } => {
                let mut s = joined(
                    "Process error: Backoff timeout starting MCP server '",
                    name.as_str(),
                );
                s.append("'");
                s
            },
            AppError::KillFailure { name, message } => joined(
                "Process error: Failed to kill process: ",
                message.as_str(),
            ),
        }
    }
}

} // verus!
