//! arm64 in-event register and event types, plus the ring-slot decode.

use vstd::prelude::*;
use crate::access::MemAccess;
use crate::error::KvmError;
use crate::event::{KvmEventReason, KvmMemAccessEvent, KvmSinglestepEvent, KvmVmiEvent, KvmVmiRegs};
use crate::uapi::{
    KVM_VMI_EVENT_BREAKPOINT, KVM_VMI_EVENT_HYPERCALL, KVM_VMI_EVENT_MEM_ACCESS,
    KVM_VMI_EVENT_SINGLESTEP, KVM_VMI_EVENT_SYSREG,
};
use super::sys::{kvm_vmi_regs, kvm_vmi_ring_event};

verus! {

/// In-event register snapshot for arm64. Field names match the uAPI record so
/// the conversions are direct copies.
#[derive(Debug, Default, Clone, Copy)]
pub struct KvmVmiRegsArm64 {
    /// General-purpose registers x0-x30.
    pub regs: [u64; 31],
    /// Stack pointer at EL0.
    pub sp_el0: u64,
    /// Stack pointer at EL1.
    pub sp_el1: u64,
    /// Program counter.
    pub pc: u64,
    /// Processor state.
    pub pstate: u64,
    /// Translation table base register 0 at EL1.
    pub ttbr0_el1: u64,
    /// Translation table base register 1 at EL1.
    pub ttbr1_el1: u64,
    /// Translation control register at EL1.
    pub tcr_el1: u64,
    /// System control register at EL1.
    pub sctlr_el1: u64,
    /// Memory attribute indirection register at EL1.
    pub mair_el1: u64,
    /// Vector base address register at EL1.
    pub vbar_el1: u64,
    /// Context ID register at EL1.
    pub contextidr_el1: u64,
    /// Exception link register at EL1.
    pub elr_el1: u64,
    /// Saved program status register at EL1.
    pub spsr_el1: u64,
    /// Exception syndrome register at EL1.
    pub esr_el1: u64,
    /// Fault address register at EL1.
    pub far_el1: u64,
    /// Thread ID register (EL0 read/write).
    pub tpidr_el0: u64,
    /// Thread ID register at EL1.
    pub tpidr_el1: u64,
    /// Thread ID register (EL0 read-only).
    pub tpidrro_el0: u64,
}

/// The native copy of an in-event register snapshot: every field copied.
pub open spec fn regs_from_sys(v: kvm_vmi_regs) -> KvmVmiRegsArm64 {
    KvmVmiRegsArm64 {
        regs: v.regs,
        sp_el0: v.sp_el0,
        sp_el1: v.sp_el1,
        pc: v.pc,
        pstate: v.pstate,
        ttbr0_el1: v.ttbr0_el1,
        ttbr1_el1: v.ttbr1_el1,
        tcr_el1: v.tcr_el1,
        sctlr_el1: v.sctlr_el1,
        mair_el1: v.mair_el1,
        vbar_el1: v.vbar_el1,
        contextidr_el1: v.contextidr_el1,
        elr_el1: v.elr_el1,
        spsr_el1: v.spsr_el1,
        esr_el1: v.esr_el1,
        far_el1: v.far_el1,
        tpidr_el0: v.tpidr_el0,
        tpidr_el1: v.tpidr_el1,
        tpidrro_el0: v.tpidrro_el0,
    }
}

/// The uAPI copy of a native register snapshot: every field copied.
pub open spec fn regs_to_sys(v: KvmVmiRegsArm64) -> kvm_vmi_regs {
    kvm_vmi_regs {
        regs: v.regs,
        sp_el0: v.sp_el0,
        sp_el1: v.sp_el1,
        pc: v.pc,
        pstate: v.pstate,
        ttbr0_el1: v.ttbr0_el1,
        ttbr1_el1: v.ttbr1_el1,
        tcr_el1: v.tcr_el1,
        sctlr_el1: v.sctlr_el1,
        mair_el1: v.mair_el1,
        vbar_el1: v.vbar_el1,
        contextidr_el1: v.contextidr_el1,
        elr_el1: v.elr_el1,
        spsr_el1: v.spsr_el1,
        esr_el1: v.esr_el1,
        far_el1: v.far_el1,
        tpidr_el0: v.tpidr_el0,
        tpidr_el1: v.tpidr_el1,
        tpidrro_el0: v.tpidrro_el0,
    }
}

impl<'a> From<&'a kvm_vmi_regs> for KvmVmiRegsArm64 {
    fn from(value: &'a kvm_vmi_regs) -> (r: Self) {
        KvmVmiRegsArm64 {
            regs: value.regs,
            sp_el0: value.sp_el0,
            sp_el1: value.sp_el1,
            pc: value.pc,
            pstate: value.pstate,
            ttbr0_el1: value.ttbr0_el1,
            ttbr1_el1: value.ttbr1_el1,
            tcr_el1: value.tcr_el1,
            sctlr_el1: value.sctlr_el1,
            mair_el1: value.mair_el1,
            vbar_el1: value.vbar_el1,
            contextidr_el1: value.contextidr_el1,
            elr_el1: value.elr_el1,
            spsr_el1: value.spsr_el1,
            esr_el1: value.esr_el1,
            far_el1: value.far_el1,
            tpidr_el0: value.tpidr_el0,
            tpidr_el1: value.tpidr_el1,
            tpidrro_el0: value.tpidrro_el0,
        }
    }
}

impl<'a> vstd::std_specs::convert::FromSpecImpl<&'a kvm_vmi_regs> for KvmVmiRegsArm64 {
    open spec fn obeys_from_spec() -> bool {
        true
    }

    open spec fn from_spec(v: &'a kvm_vmi_regs) -> Self {
        regs_from_sys(*v)
    }
}

impl<'a> From<&'a KvmVmiRegsArm64> for kvm_vmi_regs {
    fn from(value: &'a KvmVmiRegsArm64) -> (r: Self) {
        kvm_vmi_regs {
            regs: value.regs,
            sp_el0: value.sp_el0,
            sp_el1: value.sp_el1,
            pc: value.pc,
            pstate: value.pstate,
            ttbr0_el1: value.ttbr0_el1,
            ttbr1_el1: value.ttbr1_el1,
            tcr_el1: value.tcr_el1,
            sctlr_el1: value.sctlr_el1,
            mair_el1: value.mair_el1,
            vbar_el1: value.vbar_el1,
            contextidr_el1: value.contextidr_el1,
            elr_el1: value.elr_el1,
            spsr_el1: value.spsr_el1,
            esr_el1: value.esr_el1,
            far_el1: value.far_el1,
            tpidr_el0: value.tpidr_el0,
            tpidr_el1: value.tpidr_el1,
            tpidrro_el0: value.tpidrro_el0,
        }
    }
}

impl<'a> vstd::std_specs::convert::FromSpecImpl<&'a KvmVmiRegsArm64> for kvm_vmi_regs {
    open spec fn obeys_from_spec() -> bool {
        true
    }

    open spec fn from_spec(v: &'a KvmVmiRegsArm64) -> Self {
        regs_to_sys(*v)
    }
}

/// Payload of a sysreg-write event.
#[derive(Debug, Clone, Copy)]
pub struct KvmSysregEvent {
    /// Encoded system register id (`KVM_VMI_SYSREG_*`).
    pub reg: u64,

    /// Register value before the (deferred) write.
    pub old_value: u64,

    /// Value the guest is writing (observe-only).
    pub new_value: u64,
}

/// Payload of a software breakpoint event.
#[derive(Debug, Clone, Copy)]
pub struct KvmBreakpointEvent {
    /// Guest-physical address of the breakpoint.
    pub gpa: u64,
}

/// arm64-specific event reasons, nested under `KvmEventReason::ArchArm64`.
#[derive(Debug, Clone, Copy)]
pub enum KvmEventReasonArm64 {
    /// System-register access.
    Sysreg(KvmSysregEvent),

    /// Software breakpoint.
    Breakpoint(KvmBreakpointEvent),
}

/// True when `type_` is an event id that the arm64 decoder knows.
pub open spec fn known_event_type(type_: u32) -> bool {
    ||| type_ == KVM_VMI_EVENT_MEM_ACCESS
    ||| type_ == KVM_VMI_EVENT_SINGLESTEP
    ||| type_ == KVM_VMI_EVENT_HYPERCALL
    ||| type_ == KVM_VMI_EVENT_BREAKPOINT
    ||| type_ == KVM_VMI_EVENT_SYSREG
}

/// The reason that a slot's payload gives, read from the arm its `type_`
/// selects; `None` when the type is unknown.
pub open spec fn slot_reason(slot: kvm_vmi_ring_event) -> Option<KvmEventReason> {
    let kind = slot.type_;
    let d = slot.data;
    if kind == KVM_VMI_EVENT_MEM_ACCESS {
        Some(KvmEventReason::MemAccess(KvmMemAccessEvent {
            gpa: d.mem_access.gpa,
            access: MemAccess::from_bits_spec(d.mem_access.access as u8),
        }))
    } else if kind == KVM_VMI_EVENT_SINGLESTEP {
        Some(KvmEventReason::Singlestep(KvmSinglestepEvent { gpa: d.singlestep.gpa }))
    } else if kind == KVM_VMI_EVENT_HYPERCALL {
        Some(KvmEventReason::Hypercall)
    } else if kind == KVM_VMI_EVENT_BREAKPOINT {
        Some(KvmEventReason::ArchArm64(KvmEventReasonArm64::Breakpoint(KvmBreakpointEvent {
            gpa: d.arch.breakpoint.ipa,
        })))
    } else if kind == KVM_VMI_EVENT_SYSREG {
        Some(KvmEventReason::ArchArm64(KvmEventReasonArm64::Sysreg(KvmSysregEvent {
            reg: d.arch.sysreg.reg as u64,
            old_value: d.arch.sysreg.old_value,
            new_value: d.arch.sysreg.new_value,
        })))
    } else {
        None
    }
}

/// The event that a slot decodes to, when its reason is known.
pub open spec fn slot_event(slot: kvm_vmi_ring_event, reason: KvmEventReason) -> KvmVmiEvent {
    KvmVmiEvent {
        vcpu_id: slot.vcpu_id,
        view_id: slot.view_id,
        insn_len: slot.insn_len,
        regs: KvmVmiRegs::Arm64(regs_from_sys(slot.regs)),
        reason,
    }
}

/// Decodes one ring-slot record into a native event. The payload arm read is
/// the one that `type_` selects.
pub fn decode_event(slot: &kvm_vmi_ring_event) -> (r: Result<KvmVmiEvent, KvmError>)
    ensures
        slot_reason(*slot) matches Some(reason) ==> r == Ok::<KvmVmiEvent, KvmError>(
            slot_event(*slot, reason),
        ),
        slot_reason(*slot) is None ==> (r matches Err(KvmError::Other(m)) && m@
            == "unknown event type"@),
{
    let regs = KvmVmiRegs::Arm64(KvmVmiRegsArm64::from(&slot.regs));
    let kind = slot.type_;
    let insn_len = slot.insn_len;
    let d = &slot.data;

    let reason = if kind == KVM_VMI_EVENT_MEM_ACCESS {
        let m = d.mem_access;
        KvmEventReason::MemAccess(KvmMemAccessEvent {
            gpa: m.gpa,
            access: MemAccess::from_bits_truncate(m.access as u8),
        })
    } else if kind == KVM_VMI_EVENT_SINGLESTEP {
        KvmEventReason::Singlestep(KvmSinglestepEvent { gpa: d.singlestep.gpa })
    } else if kind == KVM_VMI_EVENT_HYPERCALL {
        KvmEventReason::Hypercall
    } else if kind == KVM_VMI_EVENT_BREAKPOINT {
        KvmEventReason::ArchArm64(KvmEventReasonArm64::Breakpoint(KvmBreakpointEvent {
            gpa: d.arch.breakpoint.ipa,
        }))
    } else if kind == KVM_VMI_EVENT_SYSREG {
        let sr = d.arch.sysreg;
        KvmEventReason::ArchArm64(KvmEventReasonArm64::Sysreg(KvmSysregEvent {
            reg: sr.reg as u64,
            old_value: sr.old_value,
            new_value: sr.new_value,
        }))
    } else {
        return Err(KvmError::Other("unknown event type"));
    };

    Ok(KvmVmiEvent { vcpu_id: slot.vcpu_id, view_id: slot.view_id, insn_len, regs, reason })
}

} // verus!

verus! {

/// Copying an in-event register snapshot into the native type and back gives
/// the snapshot unchanged, and copying a native snapshot out and back in gives
/// it unchanged: the two conversions are inverse.
pub proof fn lemma_regs_round_trip(sys: kvm_vmi_regs, native: KvmVmiRegsArm64)
    ensures
        regs_to_sys(regs_from_sys(sys)) == sys,
        regs_from_sys(regs_to_sys(native)) == native,
{
}

/// Every event that an arm64 control enables is one the arm64 decoder reads.
pub proof fn lemma_controlled_events_decode(
    c: super::control::KvmControl,
    slot: kvm_vmi_ring_event,
)
    requires
        slot.type_ == super::control::control_event_id(c),
    ensures
        slot_reason(slot) is Some,
{
}

} // verus!

verus! {

/// True when two slots have the same type and agree on the payload arm that
/// the type selects (the other arms may differ).
pub open spec fn same_selected_arm(a: kvm_vmi_ring_event, b: kvm_vmi_ring_event) -> bool {
    let k = a.type_;
    &&& a.type_ == b.type_
    &&& k == KVM_VMI_EVENT_MEM_ACCESS ==> a.data.mem_access == b.data.mem_access
    &&& k == KVM_VMI_EVENT_SINGLESTEP ==> a.data.singlestep == b.data.singlestep
    &&& k == KVM_VMI_EVENT_BREAKPOINT ==> a.data.arch.breakpoint == b.data.arch.breakpoint
    &&& k == KVM_VMI_EVENT_SYSREG ==> a.data.arch.sysreg == b.data.arch.sysreg
}

/// Decoding reads only the payload arm that the slot's type selects: slots
/// that agree on their type and that arm give the same reason, whatever the
/// other arms hold.
pub proof fn lemma_decode_reads_selected_arm(a: kvm_vmi_ring_event, b: kvm_vmi_ring_event)
    requires
        same_selected_arm(a, b),
    ensures
        slot_reason(a) == slot_reason(b),
{
}

} // verus!

verus! {

/// Converting an in-event snapshot copies every register into the native
/// field of the same name, and converting back copies every native field into
/// the uAPI field of the same name.
pub proof fn lemma_regs_copied_by_name(v: kvm_vmi_regs, n: KvmVmiRegsArm64)
    ensures
        regs_from_sys(v).regs == v.regs,
        regs_from_sys(v).sp_el0 == v.sp_el0,
        regs_from_sys(v).sp_el1 == v.sp_el1,
        regs_from_sys(v).pc == v.pc,
        regs_from_sys(v).pstate == v.pstate,
        regs_from_sys(v).ttbr0_el1 == v.ttbr0_el1,
        regs_from_sys(v).ttbr1_el1 == v.ttbr1_el1,
        regs_from_sys(v).tcr_el1 == v.tcr_el1,
        regs_from_sys(v).sctlr_el1 == v.sctlr_el1,
        regs_from_sys(v).mair_el1 == v.mair_el1,
        regs_from_sys(v).vbar_el1 == v.vbar_el1,
        regs_from_sys(v).contextidr_el1 == v.contextidr_el1,
        regs_from_sys(v).elr_el1 == v.elr_el1,
        regs_from_sys(v).spsr_el1 == v.spsr_el1,
        regs_from_sys(v).esr_el1 == v.esr_el1,
        regs_from_sys(v).far_el1 == v.far_el1,
        regs_from_sys(v).tpidr_el0 == v.tpidr_el0,
        regs_from_sys(v).tpidr_el1 == v.tpidr_el1,
        regs_from_sys(v).tpidrro_el0 == v.tpidrro_el0,
        regs_to_sys(n).regs == n.regs,
        regs_to_sys(n).sp_el0 == n.sp_el0,
        regs_to_sys(n).sp_el1 == n.sp_el1,
        regs_to_sys(n).pc == n.pc,
        regs_to_sys(n).pstate == n.pstate,
        regs_to_sys(n).ttbr0_el1 == n.ttbr0_el1,
        regs_to_sys(n).ttbr1_el1 == n.ttbr1_el1,
        regs_to_sys(n).tcr_el1 == n.tcr_el1,
        regs_to_sys(n).sctlr_el1 == n.sctlr_el1,
        regs_to_sys(n).mair_el1 == n.mair_el1,
        regs_to_sys(n).vbar_el1 == n.vbar_el1,
        regs_to_sys(n).contextidr_el1 == n.contextidr_el1,
        regs_to_sys(n).elr_el1 == n.elr_el1,
        regs_to_sys(n).spsr_el1 == n.spsr_el1,
        regs_to_sys(n).esr_el1 == n.esr_el1,
        regs_to_sys(n).far_el1 == n.far_el1,
        regs_to_sys(n).tpidr_el0 == n.tpidr_el0,
        regs_to_sys(n).tpidr_el1 == n.tpidr_el1,
        regs_to_sys(n).tpidrro_el0 == n.tpidrro_el0,
{
}

/// A decoded event carries the slot's vCPU, view and instruction length, the
/// slot's registers and the given reason.
pub proof fn lemma_event_header_copied(slot: kvm_vmi_ring_event, reason: KvmEventReason)
    ensures
        slot_event(slot, reason).vcpu_id == slot.vcpu_id,
        slot_event(slot, reason).view_id == slot.view_id,
        slot_event(slot, reason).insn_len == slot.insn_len,
        slot_event(slot, reason).reason == reason,
        slot_event(slot, reason).regs matches KvmVmiRegs::Arm64(r) && r == regs_from_sys(slot.regs),
{
}

/// Decoding a slot gives the reason named by its type, with the selected
/// payload arm copied: a memory access carries the address and the known
/// access bits, a single-step the address, a breakpoint the faulting address
/// (`ipa`), and a system-register write the register index, old value and new
/// value.
pub proof fn lemma_decode_copies_payload(slot: kvm_vmi_ring_event)
    ensures
        slot.type_ == KVM_VMI_EVENT_MEM_ACCESS ==> (slot_reason(slot) matches Some(
            KvmEventReason::MemAccess(m),
        ) && m.gpa == slot.data.mem_access.gpa && m.access@ == (slot.data.mem_access.access as u8)
            & 0xf),
        slot.type_ == KVM_VMI_EVENT_SINGLESTEP ==> (slot_reason(slot) matches Some(
            KvmEventReason::Singlestep(s),
        ) && s.gpa == slot.data.singlestep.gpa),
        slot.type_ == KVM_VMI_EVENT_HYPERCALL ==> (slot_reason(slot) matches Some(
            KvmEventReason::Hypercall,
        )),
        slot.type_ == KVM_VMI_EVENT_BREAKPOINT ==> (slot_reason(slot) matches Some(
            KvmEventReason::ArchArm64(KvmEventReasonArm64::Breakpoint(b)),
        ) && b.gpa == slot.data.arch.breakpoint.ipa),
        slot.type_ == KVM_VMI_EVENT_SYSREG ==> (slot_reason(slot) matches Some(
            KvmEventReason::ArchArm64(KvmEventReasonArm64::Sysreg(r)),
        ) && r.reg == slot.data.arch.sysreg.reg as u64 && r.old_value
            == slot.data.arch.sysreg.old_value && r.new_value == slot.data.arch.sysreg.new_value),
{
    MemAccess::lemma_from_bits_spec_view(slot.data.mem_access.access as u8);
}

} // verus!
