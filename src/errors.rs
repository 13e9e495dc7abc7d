use vstd::prelude::*;

verus! {

/// `EPERM` on Linux: operation not permitted.
pub const EPERM: i32 = 1;

/// `ENOENT` on Linux: no such file or directory.
pub const ENOENT: i32 = 2;

/// `EACCES` on Linux: permission denied.
pub const EACCES: i32 = 13;

/// `EEXIST` on Linux: file exists.
pub const EEXIST: i32 = 17;

/// `ENODEV` on Linux: no such device.
pub const ENODEV: i32 = 19;

/// `EINVAL` on Linux: invalid argument.
pub const EINVAL: i32 = 22;

/// Why creating or opening a registered namespace failed.
#[derive(Debug, Clone, Copy, PartialEq, Eq, Structural)]
pub enum RegistryError {
    /// The name is not a single path component.
    InvalidName,
    AlreadyExists,
    NotFound,
    PermissionDenied,
    Other { errno: i32 },
}

/// Why the loopback device could not be brought up.
#[derive(Debug, Clone, Copy, PartialEq, Eq, Structural)]
pub enum InterfaceError {
    /// No device named `lo` exists in the namespace.
    InterfaceNotFound,
    /// The kernel networking control channel failed.
    ControlChannelError,
}

/// A fatal failure of the namespace setup, in the child or in the parent.
#[derive(Debug, Clone, Copy, PartialEq, Eq, Structural)]
pub enum SetupError {
    Registry(RegistryError),
    /// The switch of network namespace membership failed.
    Transition,
    /// The mount namespace could not be unshared.
    Isolation,
    /// `/sys` could not be swapped for the namespace's own view.
    Remount,
    Interface(InterfaceError),
    /// The helper process could not be created.
    Fork,
    /// The parent could not reap the helper process.
    Wait,
    /// The helper exited normally with a non-zero code.
    ChildFailed { code: i32 },
    /// The helper was terminated by a signal.
    ChildSignaled { signal: i32 },
    /// The helper stopped in some other way.
    ChildStatusUnknown,
    /// An event arrived that does not answer the pending action.
    Protocol,
}

/// The registry error that an operating-system error number stands for.
pub open spec fn registry_error_of(errno: i32) -> RegistryError {
    if errno == EEXIST {
        RegistryError::AlreadyExists
    } else if errno == ENOENT {
        RegistryError::NotFound
    } else if errno == EACCES || errno == EPERM {
        RegistryError::PermissionDenied
    } else {
        RegistryError::Other { errno }
    }
}

/// Classifies the error number of a failed create or open of a registered namespace.
pub fn classify_registry_errno(errno: i32) -> (r: RegistryError)
    ensures
        r == registry_error_of(errno),
{
    if errno == EEXIST {
        RegistryError::AlreadyExists
    } else if errno == ENOENT {
        RegistryError::NotFound
    } else if errno == EACCES || errno == EPERM {
        RegistryError::PermissionDenied
    } else {
        RegistryError::Other { errno }
    }
}

} // verus!
