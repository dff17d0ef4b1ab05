//! Error type for the KVM VMI bindings.

use vstd::prelude::*;

verus! {

#[verifier::external_type_specification]
#[verifier::external_body]
pub struct ExIoError(std::io::Error);

/// An error from a KVM VMI operation.
#[derive(Debug)]
pub enum KvmError {
    /// An OS-level failure from an ioctl, mmap, or syscall.
    Io(std::io::Error),

    /// A failure that does not map to an OS error.
    Other(&'static str),
}

/// Reads the calling thread's last OS error (`errno`) through
/// `std::io::Error::last_os_error`. Nothing is claimed of the value: it depends
/// on what the last failed call left behind.
#[verifier::external_body]
fn os_last_error() -> std::io::Error {
    std::io::Error::last_os_error()
}

impl KvmError {
    /// Returns the last OS error, for use after a failed libc call.
    pub fn last_os_error() -> (e: Self)
        ensures
            e is Io,
    {
        KvmError::Io(os_last_error())
    }
}

} // verus!
