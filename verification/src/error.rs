//! The ways in which an operation on the interface can fail.
use vstd::prelude::*;
use crate::command::{texts, CommandModel};

verus! {

/// `EPERM`: the operation is not permitted.
pub const EPERM: i32 = 1;

/// `EACCES`: permission denied.
pub const EACCES: i32 = 13;

/// `EEXIST`: the object exists already.
pub const EEXIST: i32 = 17;

/// `ENODEV`: no such device.
pub const ENODEV: i32 = 19;

/// Why an operation failed.
#[derive(Debug, Clone, PartialEq, Eq)]
pub enum WgError {
    /// An external program could not be run to a successful end.
    CommandFailed {
        /// The program that was run.
        program: String,
        /// The arguments it was given.
        args: Vec<String>,
        /// Its exit code, where it had one.
        exit: Option<i32>,
    },
    /// The kernel answered a request with this error code (a negated errno).
    KernelRejected { code: i32 },
    /// The link to create exists already.
    LinkExists,
    /// No link has the interface's name.
    LinkNotFound,
    /// The kernel refused to create the link for want of privilege.
    PermissionDenied,
    /// An answer could not be read, or none came in time.
    MalformedResponse,
    /// The address is not of the form `ip/prefix`.
    InvalidAddress,
}

/// A `WgError` as plain values.
pub enum ErrorModel {
    CommandFailed { program: Seq<char>, args: Seq<Seq<char>>, exit: Option<i32> },
    KernelRejected { code: i32 },
    LinkExists,
    LinkNotFound,
    PermissionDenied,
    MalformedResponse,
    InvalidAddress,
}

impl View for WgError {
    type V = ErrorModel;

    open spec fn view(&self) -> ErrorModel {
        match self {
            WgError::CommandFailed { program, args, exit } => ErrorModel::CommandFailed {
                program: program@,
                args: texts(args@),
                exit: *exit,
            },
            WgError::KernelRejected { code } => ErrorModel::KernelRejected { code: *code },
            WgError::LinkExists => ErrorModel::LinkExists,
            WgError::LinkNotFound => ErrorModel::LinkNotFound,
            WgError::PermissionDenied => ErrorModel::PermissionDenied,
            WgError::MalformedResponse => ErrorModel::MalformedResponse,
            WgError::InvalidAddress => ErrorModel::InvalidAddress,
        }
    }
}

impl CommandModel {
    /// The failure of this command with the given exit code.
    pub open spec fn failure(self, exit: Option<i32>) -> ErrorModel {
        ErrorModel::CommandFailed { program: self.program, args: self.args, exit }
    }
}

} // verus!
