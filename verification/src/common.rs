//! Small shared types and the ioctl return-value check.

use vstd::prelude::*;
use crate::error::KvmError;

verus! {

/// Identifier of an alternate memory view. View 0 is the default view.
#[derive(Debug, Clone, Copy, PartialEq, Eq, Structural, Hash)]
pub struct ViewId(pub u32);

/// Maps the raw return value of an ioctl to a result: a negative value is a
/// failure reported by the OS (the last OS error), anything else is handed
/// back unchanged.
pub fn ioctl_result(ret: i32) -> (r: Result<i32, KvmError>)
    ensures
        ret >= 0 ==> r == Ok::<i32, KvmError>(ret),
        ret < 0 ==> (r matches Err(KvmError::Io(_))),
{
    if ret < 0 {
        return Err(KvmError::last_os_error());
    }
    Ok(ret)
}

} // verus!
