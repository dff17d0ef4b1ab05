//! Verified model of the KVM VMI (virtual machine introspection) bindings:
//! event decoding, response composition, ring cursor logic, register
//! flattening and the arch-specific request encodings.

pub mod uapi;
pub mod access;
pub mod common;
pub mod error;
pub mod event;
pub mod arch;
pub mod ring;
pub mod attach;
pub mod memory;

use vstd::prelude::*;

pub use self::access::MemAccess;
pub use self::common::ViewId;
pub use self::error::KvmError;
pub use self::event::{
    KvmEventReason, KvmMemAccessEvent, KvmResponseAction, KvmSinglestepEvent, KvmVmiEvent,
    KvmVmiRegs, KvmVmiResponse,
};
pub use self::memory::KvmGuestMemory;
pub use self::ring::KvmVmiRing;

verus! {

/// GFN sentinel that reverts a view's GFN remap to its host mapping
/// (`KVM_VMI_INVALID_GFN`, all ones).
pub const INVALID_GFN: u64 = 0xffff_ffff_ffff_ffff;

} // verus!
