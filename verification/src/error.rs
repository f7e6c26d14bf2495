//! The errors that the framework surfaces. None is retried inside the
//! library: every one is handed to the caller as it arose.

use vstd::prelude::*;

verus! {

/// Error number for an interrupted blocking call.
pub const EINTR: i32 = 4;

/// Error number for exhausted memory.
pub const ENOMEM: i32 = 12;

/// Error number for a byte region that could not be read or written.
pub const EFAULT: i32 = 14;

/// Error number for an invalid argument.
pub const EINVAL: i32 = 22;

/// What can go wrong in the framework.
#[derive(Clone, Copy, Debug, PartialEq, Eq, Structural)]
pub enum Error {
    /// A registration that is already registered was registered again.
    AlreadyRegistered,
    /// The host declined the registration; the payload is the host's own
    /// code, unchanged.
    RegistryRejected(i32),
    /// The byte region could not supply or accept the bytes asked for.
    Fault,
    /// A blocking wait was cut short from outside.
    Interrupted,
    /// An unknown command, or a malformed parameter.
    InvalidArgument,
    /// An allocation failed.
    OutOfMemory,
}

impl Error {
    /// The negative error number under which the host knows this error.
    pub open spec fn spec_to_kernel_errno(self) -> int {
        match self {
            Error::AlreadyRegistered => -(EINVAL as int),
            Error::RegistryRejected(code) => code as int,
            Error::Fault => -(EFAULT as int),
            Error::Interrupted => -(EINTR as int),
            Error::InvalidArgument => -(EINVAL as int),
            Error::OutOfMemory => -(ENOMEM as int),
        }
    }

    /// The error that stands for a code which the host returned.
    pub open spec fn spec_from_kernel_errno(errno: i32) -> Error {
        Error::RegistryRejected(errno)
    }

    /// Returns the negative error number under which the host knows this
    /// error. A host's own code comes back as it was given.
    pub fn to_kernel_errno(&self) -> (errno: i32)
        ensures
            errno == self.spec_to_kernel_errno(),
    {
        match self {
            Error::AlreadyRegistered => -EINVAL,
            Error::RegistryRejected(code) => *code,
            Error::Fault => -EFAULT,
            Error::Interrupted => -EINTR,
            Error::InvalidArgument => -EINVAL,
            Error::OutOfMemory => -ENOMEM,
        }
    }

    /// Wraps a code that the host returned, keeping it unchanged.
    pub fn from_kernel_errno(errno: i32) -> (e: Error)
        ensures
            e == Error::spec_from_kernel_errno(errno),
            e.spec_to_kernel_errno() == errno,
    {
        Error::RegistryRejected(errno)
    }
}

} // verus!
