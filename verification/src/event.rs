//! Native, decoded VMI event types (arch-neutral envelope) and the response
//! flag word.

use vstd::prelude::*;
use crate::access::MemAccess;
use crate::arch::x86::{KvmEventReasonX86, KvmVmiRegsX86};
use crate::arch::arm64::{KvmEventReasonArm64, KvmVmiRegsArm64};
use crate::uapi::{
    KVM_VMI_RESPONSE_CONTINUE, KVM_VMI_RESPONSE_DENY, KVM_VMI_RESPONSE_EMULATE,
    KVM_VMI_RESPONSE_REINJECT, KVM_VMI_RESPONSE_SET_REGS, KVM_VMI_RESPONSE_SINGLESTEP,
    KVM_VMI_RESPONSE_SINGLESTEP_FAST, KVM_VMI_RESPONSE_SWITCH_VIEW,
};

verus! {

/// In-event register snapshot, split by architecture.
#[derive(Debug, Clone, Copy)]
pub enum KvmVmiRegs {
    /// x86 register snapshot.
    X86(KvmVmiRegsX86),

    /// arm64 register snapshot.
    Arm64(KvmVmiRegsArm64),
}

/// Arch-neutral memory-access event payload.
#[derive(Debug, Clone, Copy)]
pub struct KvmMemAccessEvent {
    /// Faulting guest-physical address.
    pub gpa: u64,

    /// Access that was attempted.
    pub access: MemAccess,
}

/// Arch-neutral single-step event payload.
#[derive(Debug, Clone, Copy)]
pub struct KvmSinglestepEvent {
    /// Guest-physical address of the stepped instruction.
    pub gpa: u64,
}

/// Reason an event was delivered. Arch-neutral reasons are direct variants and
/// arch-specific ones nest under `Arch` (x86) or `ArchArm64` (arm64).
#[derive(Debug, Clone, Copy)]
pub enum KvmEventReason {
    /// EPT/access-permission violation.
    MemAccess(KvmMemAccessEvent),

    /// Single-step trap.
    Singlestep(KvmSinglestepEvent),

    /// Guest hypercall (VMCALL).
    Hypercall,

    /// x86-specific reason.
    Arch(KvmEventReasonX86),

    /// arm64-specific reason.
    ArchArm64(KvmEventReasonArm64),
}

/// One decoded VMI event read off a ring slot.
#[derive(Debug, Clone, Copy)]
pub struct KvmVmiEvent {
    /// vCPU that produced the event.
    pub vcpu_id: u32,

    /// View the vCPU was in.
    pub view_id: u32,

    /// Faulting-instruction length, when the event carries one.
    pub insn_len: u8,

    /// Register snapshot embedded in the event.
    pub regs: KvmVmiRegs,

    /// Why the event fired.
    pub reason: KvmEventReason,
}

/// What the agent tells the kernel to do when the vCPU resumes.
#[derive(Debug, Clone, Copy, PartialEq, Eq, Structural)]
pub enum KvmResponseAction {
    /// Resume normally.
    Continue,

    /// Suppress the faulting operation.
    Deny,

    /// Emulate the faulting instruction.
    Emulate,

    /// Reinject the interrupt/exception that caused the event.
    Reinject,

    /// Single-step one instruction.
    Singlestep,

    /// Single-step then switch view atomically.
    FastSinglestep,
}

/// The agent's response to one event, written back into the slot on respond.
#[derive(Debug, Clone, Copy)]
pub struct KvmVmiResponse {
    /// Action to apply on resume.
    pub action: KvmResponseAction,

    /// Replacement register values, when registers were modified.
    pub regs: Option<KvmVmiRegs>,

    /// View to switch to on resume, when a switch was requested.
    pub view_id: Option<u32>,
}

/// The `KVM_VMI_RESPONSE_*` flag that carries an action (none for `Continue`).
pub open spec fn action_flag(action: KvmResponseAction) -> u32 {
    match action {
        KvmResponseAction::Continue => 0,
        KvmResponseAction::Deny => KVM_VMI_RESPONSE_DENY,
        KvmResponseAction::Emulate => KVM_VMI_RESPONSE_EMULATE,
        KvmResponseAction::Reinject => KVM_VMI_RESPONSE_REINJECT,
        KvmResponseAction::Singlestep => KVM_VMI_RESPONSE_SINGLESTEP,
        KvmResponseAction::FastSinglestep => KVM_VMI_RESPONSE_SINGLESTEP_FAST,
    }
}

/// The flag word of a response: the action's flag, plus `SET_REGS` when
/// registers are replaced and `SWITCH_VIEW` when a view switch is requested.
pub open spec fn response_flags(resp: KvmVmiResponse) -> u32 {
    let base = KVM_VMI_RESPONSE_CONTINUE | action_flag(resp.action);
    let with_regs = if resp.regs is Some { base | KVM_VMI_RESPONSE_SET_REGS } else { base };
    if resp.view_id is Some { with_regs | KVM_VMI_RESPONSE_SWITCH_VIEW } else { with_regs }
}

impl KvmVmiResponse {
    /// Composes the raw `KVM_VMI_RESPONSE_*` flag word for this response.
    pub fn flags(&self) -> (f: u32)
        ensures
            f == response_flags(*self),
    {
        let mut flags = KVM_VMI_RESPONSE_CONTINUE;
        match self.action {
            KvmResponseAction::Continue => {},
            KvmResponseAction::Deny => flags |= KVM_VMI_RESPONSE_DENY,
            KvmResponseAction::Emulate => flags |= KVM_VMI_RESPONSE_EMULATE,
            KvmResponseAction::Reinject => flags |= KVM_VMI_RESPONSE_REINJECT,
            KvmResponseAction::Singlestep => flags |= KVM_VMI_RESPONSE_SINGLESTEP,
            KvmResponseAction::FastSinglestep => flags |= KVM_VMI_RESPONSE_SINGLESTEP_FAST,
        }
        proof {
            let c = KVM_VMI_RESPONSE_CONTINUE;
            assert(c | 0u32 == c) by (bit_vector);
        }
        if self.regs.is_some() {
            flags |= KVM_VMI_RESPONSE_SET_REGS;
        }
        if self.view_id.is_some() {
            flags |= KVM_VMI_RESPONSE_SWITCH_VIEW;
        }
        flags
    }
}

} // verus!

verus! {

/// The bits of a response flag word that carry the action.
pub const RESPONSE_ACTION_MASK: u32 = 0x1f;

/// Distinct actions have distinct flags.
pub proof fn lemma_action_flag_injective(a: KvmResponseAction, b: KvmResponseAction)
    requires
        action_flag(a) == action_flag(b),
    ensures
        a == b,
{
}

/// A response's flag word says everything about its shape: the action bits
/// are the action's flag (so the action can be read back), `SET_REGS` is set
/// exactly when registers are replaced, and `SWITCH_VIEW` exactly when a view
/// switch is requested.
pub proof fn lemma_response_flags_decode(resp: KvmVmiResponse)
    ensures
        response_flags(resp) & RESPONSE_ACTION_MASK == action_flag(resp.action),
        (response_flags(resp) & KVM_VMI_RESPONSE_SET_REGS != 0) == (resp.regs is Some),
        (response_flags(resp) & KVM_VMI_RESPONSE_SWITCH_VIEW != 0) == (resp.view_id is Some),
{
    let a = action_flag(resp.action);
    let has_regs = resp.regs is Some;
    let has_view = resp.view_id is Some;
    assert(a < 0x20);
    assert({
        let base = 0u32 | a;
        let with_regs = if has_regs { base | 0x20u32 } else { base };
        let f = if has_view { with_regs | 0x40u32 } else { with_regs };
        &&& f & 0x1f == a
        &&& (f & 0x20 != 0) == has_regs
        &&& (f & 0x40 != 0) == has_view
    }) by (bit_vector)
        requires
            a < 0x20,
    ;
}

} // verus!

verus! {

/// The action bits of a response's flag word are the response flag named
/// after its action (none for `Continue`), whatever registers or view the
/// response carries.
pub proof fn lemma_flags_name_the_action(resp: KvmVmiResponse)
    ensures
        resp.action == KvmResponseAction::Continue ==> response_flags(resp) & RESPONSE_ACTION_MASK
            == 0,
        resp.action == KvmResponseAction::Deny ==> response_flags(resp) & RESPONSE_ACTION_MASK
            == KVM_VMI_RESPONSE_DENY,
        resp.action == KvmResponseAction::Emulate ==> response_flags(resp) & RESPONSE_ACTION_MASK
            == KVM_VMI_RESPONSE_EMULATE,
        resp.action == KvmResponseAction::Reinject ==> response_flags(resp) & RESPONSE_ACTION_MASK
            == KVM_VMI_RESPONSE_REINJECT,
        resp.action == KvmResponseAction::Singlestep ==> response_flags(resp)
            & RESPONSE_ACTION_MASK == KVM_VMI_RESPONSE_SINGLESTEP,
        resp.action == KvmResponseAction::FastSinglestep ==> response_flags(resp)
            & RESPONSE_ACTION_MASK == KVM_VMI_RESPONSE_SINGLESTEP_FAST,
        resp.regs is None && resp.view_id is None ==> (resp.action == KvmResponseAction::Deny
            ==> response_flags(resp) == KVM_VMI_RESPONSE_DENY) && (resp.action
            == KvmResponseAction::Reinject ==> response_flags(resp) == KVM_VMI_RESPONSE_REINJECT)
            && (resp.action == KvmResponseAction::Singlestep ==> response_flags(resp)
            == KVM_VMI_RESPONSE_SINGLESTEP),
{
    lemma_response_flags_decode(resp);
    assert(0u32 | 0u32 == 0u32 && 0u32 | 1u32 == 1u32 && 0u32 | 4u32 == 4u32 && 0u32 | 8u32
        == 8u32) by (bit_vector);
}

} // verus!
