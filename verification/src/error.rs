//! The failures of the port and process services, by kind, with their messages.

use crate::text::{decimal, push_decimal};
use vstd::prelude::*;

verus! {

/// The kinds of failure that a service can report.
#[derive(Debug, Clone, Copy, PartialEq, Eq, Structural)]
pub enum ErrorKind {
    /// The system's table of TCP connections could not be read.
    Query,
    /// No handle to the process could be opened.
    Handle,
    /// A handle was open, but the name of the process could not be had.
    Lookup,
    /// A handle was open, but the system refused to end the process.
    Terminate,
}

/// A failure of the port or process service.
///
/// A `code` is the number that the system returned from the failed call; a
/// `reason` is the system's own description of the failure.
#[derive(Debug, PartialEq, Eq)]
pub enum ServiceError {
    /// Asking for the size of the connection table gave `code` instead of the
    /// expected notice that the buffer is too small.
    TableSize { code: u32 },
    /// Fetching the connection table into the buffer failed with `code`.
    TableFill { code: u32 },
    /// The connection table announces `entries` records, which do not fit in
    /// its `length` bytes.
    TableMalformed { entries: u32, length: u64 },
    /// The process `pid` could not be opened to ask for its name.
    OpenProcess { pid: u32, reason: String },
    /// The process `pid` could not be opened to end it.
    OpenForTermination { pid: u32, reason: String },
    /// The system did not give the path of the program that the process runs.
    ImageName { reason: String },
    /// The path of the program ends in a separator, so the name is empty.
    EmptyName,
    /// The system refused to end the process `pid`.
    Terminate { pid: u32, reason: String },
}

/// The mathematical value of a [`ServiceError`]: texts are sequences of characters.
pub enum ServiceErrorView {
    TableSize { code: u32 },
    TableFill { code: u32 },
    TableMalformed { entries: u32, length: u64 },
    OpenProcess { pid: u32, reason: Seq<char> },
    OpenForTermination { pid: u32, reason: Seq<char> },
    ImageName { reason: Seq<char> },
    EmptyName,
    Terminate { pid: u32, reason: Seq<char> },
}

impl ServiceErrorView {
    /// The kind of the failure.
    pub open spec fn kind(self) -> ErrorKind {
        match self {
            ServiceErrorView::TableSize { .. } => ErrorKind::Query,
            ServiceErrorView::TableFill { .. } => ErrorKind::Query,
            ServiceErrorView::TableMalformed { .. } => ErrorKind::Query,
            ServiceErrorView::OpenProcess { .. } => ErrorKind::Handle,
            ServiceErrorView::OpenForTermination { .. } => ErrorKind::Handle,
            ServiceErrorView::ImageName { .. } => ErrorKind::Lookup,
            ServiceErrorView::EmptyName => ErrorKind::Lookup,
            ServiceErrorView::Terminate { .. } => ErrorKind::Terminate,
        }
    }

    /// The message of the failure, with the system's code or reason in it.
    pub open spec fn message(self) -> Seq<char> {
        match self {
            ServiceErrorView::TableSize { code } => "Failed to query TCP table size: error code "@
                + decimal(code as nat),
            ServiceErrorView::TableFill { code } => "Failed to get TCP table: error code "@
                + decimal(code as nat),
            ServiceErrorView::TableMalformed { entries, length } => "Malformed TCP table: "@
                + decimal(entries as nat) + " entries do not fit in "@ + decimal(length as nat)
                + " bytes"@,
            ServiceErrorView::OpenProcess { pid, reason } => "Failed to open process "@ + decimal(
                pid as nat,
            ) + ": "@ + reason,
            ServiceErrorView::OpenForTermination { pid, reason } => "Failed to open process "@
                + decimal(pid as nat) + " for termination: "@ + reason,
            ServiceErrorView::ImageName { reason } => "Failed to query process name: "@ + reason,
            ServiceErrorView::EmptyName => "Process name is empty"@,
            ServiceErrorView::Terminate { pid, reason } => "Failed to terminate process "@
                + decimal(pid as nat) + ": "@ + reason,
        }
    }
}

impl View for ServiceError {
    type V = ServiceErrorView;

    open spec fn view(&self) -> ServiceErrorView {
        match *self {
            ServiceError::TableSize { code } => ServiceErrorView::TableSize { code },
            ServiceError::TableFill { code } => ServiceErrorView::TableFill { code },
            ServiceError::TableMalformed { entries, length } => ServiceErrorView::TableMalformed {
                entries,
                length,
            },
            ServiceError::OpenProcess { pid, reason } => ServiceErrorView::OpenProcess {
                pid,
                reason: reason@,
            },
            ServiceError::OpenForTermination { pid, reason } => {
                ServiceErrorView::OpenForTermination { pid, reason: reason@ }
            },
            ServiceError::ImageName { reason } => ServiceErrorView::ImageName { reason: reason@ },
            ServiceError::EmptyName => ServiceErrorView::EmptyName,
            ServiceError::Terminate { pid, reason } => ServiceErrorView::Terminate {
                pid,
                reason: reason@,
            },
        }
    }
}

/// The mathematical value of a service's answer: the failure by its view.
pub open spec fn result_view<T>(r: Result<T, ServiceError>) -> Result<T, ServiceErrorView> {
    match r {
        Ok(value) => Ok(value),
        Err(error) => Err(error@),
    }
}

impl ServiceError {
    /// The kind of the failure.
    pub fn kind(&self) -> (kind: ErrorKind)
        ensures
            kind == self@.kind(),
    {
        match self {
            ServiceError::TableSize { .. } => ErrorKind::Query,
            ServiceError::TableFill { .. } => ErrorKind::Query,
            ServiceError::TableMalformed { .. } => ErrorKind::Query,
            ServiceError::OpenProcess { .. } => ErrorKind::Handle,
            ServiceError::OpenForTermination { .. } => ErrorKind::Handle,
            ServiceError::ImageName { .. } => ErrorKind::Lookup,
            ServiceError::EmptyName => ErrorKind::Lookup,
            ServiceError::Terminate { .. } => ErrorKind::Terminate,
        }
    }

    /// The message of the failure, with the system's code or reason in it.
    pub fn message(&self) -> (message: String)
        ensures
            message@ == self@.message(),
    {
        match self {
            ServiceError::TableSize { code } => {
                let mut message = String::from_str("Failed to query TCP table size: error code ");
                push_decimal(&mut message, *code as u64);
                message
            },
            ServiceError::TableFill { code } => {
                let mut message = String::from_str("Failed to get TCP table: error code ");
                push_decimal(&mut message, *code as u64);
                message
            },
            ServiceError::TableMalformed { entries, length } => {
                let mut message = String::from_str("Malformed TCP table: ");
                push_decimal(&mut message, *entries as u64);
                message.append(" entries do not fit in ");
                push_decimal(&mut message, *length);
                message.append(" bytes");
                message
            },
            ServiceError::OpenProcess { pid, reason } => {
                let mut message = String::from_str("Failed to open process ");
                push_decimal(&mut message, *pid as u64);
                message.append(": ");
                message.append(reason.as_str());
                message
            },
            ServiceError::OpenForTermination { pid, reason } => {
                let mut message = String::from_str("Failed to open process ");
                push_decimal(&mut message, *pid as u64);
                message.append(" for termination: ");
                message.append(reason.as_str());
                message
            },
            ServiceError::ImageName { reason } => {
                let mut message = String::from_str("Failed to query process name: ");
                message.append(reason.as_str());
                message
            },
            ServiceError::EmptyName => String::from_str("Process name is empty"),
            ServiceError::Terminate { pid, reason } => {
                let mut message = String::from_str("Failed to terminate process ");
                push_decimal(&mut message, *pid as u64);
                message.append(": ");
                message.append(reason.as_str());
                message
            },
        }
    }
}

} // verus!
