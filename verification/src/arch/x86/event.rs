//! x86 in-event register and event types, plus the ring-slot decode.

use vstd::prelude::*;
use crate::access::MemAccess;
use crate::error::KvmError;
use crate::event::{KvmEventReason, KvmMemAccessEvent, KvmSinglestepEvent, KvmVmiEvent, KvmVmiRegs};
use crate::uapi::{
    KVM_VMI_CR0, KVM_VMI_CR3, KVM_VMI_CR4, KVM_VMI_XCR0, KVM_VMI_EVENT_BREAKPOINT,
    KVM_VMI_EVENT_CPUID, KVM_VMI_EVENT_CR, KVM_VMI_EVENT_DEBUG, KVM_VMI_EVENT_HYPERCALL,
    KVM_VMI_EVENT_IO, KVM_VMI_EVENT_MEM_ACCESS, KVM_VMI_EVENT_MSR, KVM_VMI_EVENT_SINGLESTEP,
};
use super::sys::{kvm_vmi_regs, kvm_vmi_ring_event, kvm_vmi_segment};

verus! {

/// One x86 segment in the packed in-event layout (base, limit, selector, VMX
/// access-rights word).
#[derive(Debug, Default, Clone, Copy, PartialEq, Eq, Structural)]
pub struct KvmSegmentX86 {
    /// Segment base.
    pub base: u64,

    /// Segment limit.
    pub limit: u32,

    /// Segment selector.
    pub selector: u16,

    /// VMX access-rights word.
    pub ar: u16,
}

/// In-event register snapshot. Field names match the uAPI record so the
/// conversions are direct copies.
#[derive(Debug, Default, Clone, Copy, PartialEq, Eq, Structural)]
pub struct KvmVmiRegsX86 {
    /// RAX.
    pub rax: u64,
    /// RBX.
    pub rbx: u64,
    /// RCX.
    pub rcx: u64,
    /// RDX.
    pub rdx: u64,
    /// RSI.
    pub rsi: u64,
    /// RDI.
    pub rdi: u64,
    /// RBP.
    pub rbp: u64,
    /// RSP.
    pub rsp: u64,
    /// R8.
    pub r8: u64,
    /// R9.
    pub r9: u64,
    /// R10.
    pub r10: u64,
    /// R11.
    pub r11: u64,
    /// R12.
    pub r12: u64,
    /// R13.
    pub r13: u64,
    /// R14.
    pub r14: u64,
    /// R15.
    pub r15: u64,
    /// Instruction pointer.
    pub rip: u64,
    /// RFLAGS.
    pub rflags: u64,
    /// CR0.
    pub cr0: u64,
    /// CR3.
    pub cr3: u64,
    /// CR4.
    pub cr4: u64,
    /// XCR0.
    pub xcr0: u64,
    /// CS segment.
    pub cs: KvmSegmentX86,
    /// SS segment.
    pub ss: KvmSegmentX86,
    /// DS segment.
    pub ds: KvmSegmentX86,
    /// ES segment.
    pub es: KvmSegmentX86,
    /// FS segment.
    pub fs: KvmSegmentX86,
    /// GS segment.
    pub gs: KvmSegmentX86,
    /// `IA32_SYSENTER_CS`.
    pub sysenter_cs: u64,
    /// `IA32_SYSENTER_ESP`.
    pub sysenter_esp: u64,
    /// `IA32_SYSENTER_EIP`.
    pub sysenter_eip: u64,
    /// `IA32_EFER`.
    pub msr_efer: u64,
    /// `IA32_STAR`.
    pub msr_star: u64,
    /// `IA32_LSTAR`.
    pub msr_lstar: u64,
    /// `IA32_CSTAR`.
    pub msr_cstar: u64,
    /// `IA32_FMASK` (syscall flag mask).
    pub msr_syscall_mask: u64,
    /// `IA32_KERNEL_GS_BASE` (the swapped-out GS base).
    pub msr_kernel_gs_base: u64,
    /// `IA32_TSC_AUX`.
    pub msr_tsc_aux: u64,
}

/// The native copy of one packed in-event segment.
pub open spec fn segment_from_sys(s: kvm_vmi_segment) -> KvmSegmentX86 {
    KvmSegmentX86 { base: s.base, limit: s.limit, selector: s.selector, ar: s.ar }
}

/// The packed in-event copy of one native segment.
pub open spec fn segment_to_sys(s: KvmSegmentX86) -> kvm_vmi_segment {
    kvm_vmi_segment { base: s.base, limit: s.limit, selector: s.selector, ar: s.ar }
}

/// The native copy of an in-event register snapshot: every field copied.
pub open spec fn regs_from_sys(v: kvm_vmi_regs) -> KvmVmiRegsX86 {
    KvmVmiRegsX86 {
        rax: v.rax, rbx: v.rbx, rcx: v.rcx, rdx: v.rdx, rsi: v.rsi, rdi: v.rdi,
        rbp: v.rbp, rsp: v.rsp, r8: v.r8, r9: v.r9, r10: v.r10, r11: v.r11,
        r12: v.r12, r13: v.r13, r14: v.r14, r15: v.r15, rip: v.rip, rflags: v.rflags,
        cr0: v.cr0, cr3: v.cr3, cr4: v.cr4, xcr0: v.xcr0,
        cs: segment_from_sys(v.cs), ss: segment_from_sys(v.ss), ds: segment_from_sys(v.ds),
        es: segment_from_sys(v.es), fs: segment_from_sys(v.fs), gs: segment_from_sys(v.gs),
        sysenter_cs: v.sysenter_cs, sysenter_esp: v.sysenter_esp,
        sysenter_eip: v.sysenter_eip, msr_efer: v.msr_efer, msr_star: v.msr_star,
        msr_lstar: v.msr_lstar, msr_cstar: v.msr_cstar,
        msr_syscall_mask: v.msr_syscall_mask, msr_kernel_gs_base: v.msr_kernel_gs_base,
        msr_tsc_aux: v.msr_tsc_aux,
    }
}

/// The uAPI copy of a native register snapshot: every field copied.
pub open spec fn regs_to_sys(v: KvmVmiRegsX86) -> kvm_vmi_regs {
    kvm_vmi_regs {
        rax: v.rax, rbx: v.rbx, rcx: v.rcx, rdx: v.rdx, rsi: v.rsi, rdi: v.rdi,
        rbp: v.rbp, rsp: v.rsp, r8: v.r8, r9: v.r9, r10: v.r10, r11: v.r11,
        r12: v.r12, r13: v.r13, r14: v.r14, r15: v.r15, rip: v.rip, rflags: v.rflags,
        cr0: v.cr0, cr3: v.cr3, cr4: v.cr4, xcr0: v.xcr0,
        cs: segment_to_sys(v.cs), ss: segment_to_sys(v.ss), ds: segment_to_sys(v.ds),
        es: segment_to_sys(v.es), fs: segment_to_sys(v.fs), gs: segment_to_sys(v.gs),
        sysenter_cs: v.sysenter_cs, sysenter_esp: v.sysenter_esp,
        sysenter_eip: v.sysenter_eip, msr_efer: v.msr_efer, msr_star: v.msr_star,
        msr_lstar: v.msr_lstar, msr_cstar: v.msr_cstar,
        msr_syscall_mask: v.msr_syscall_mask, msr_kernel_gs_base: v.msr_kernel_gs_base,
        msr_tsc_aux: v.msr_tsc_aux,
    }
}

/// Copies one packed in-event segment into `KvmSegmentX86`.
fn seg(s: &kvm_vmi_segment) -> (r: KvmSegmentX86)
    ensures
        r == segment_from_sys(*s),
{
    KvmSegmentX86 { base: s.base, limit: s.limit, selector: s.selector, ar: s.ar }
}

/// Packs one `KvmSegmentX86` back into the in-event segment layout.
fn unseg(s: &KvmSegmentX86) -> (r: kvm_vmi_segment)
    ensures
        r == segment_to_sys(*s),
{
    kvm_vmi_segment { base: s.base, limit: s.limit, selector: s.selector, ar: s.ar }
}

impl<'a> From<&'a kvm_vmi_regs> for KvmVmiRegsX86 {
    fn from(value: &'a kvm_vmi_regs) -> (r: Self) {
        KvmVmiRegsX86 {
            rax: value.rax,
            rbx: value.rbx,
            rcx: value.rcx,
            rdx: value.rdx,
            rsi: value.rsi,
            rdi: value.rdi,
            rbp: value.rbp,
            rsp: value.rsp,
            r8: value.r8,
            r9: value.r9,
            r10: value.r10,
            r11: value.r11,
            r12: value.r12,
            r13: value.r13,
            r14: value.r14,
            r15: value.r15,
            rip: value.rip,
            rflags: value.rflags,
            cr0: value.cr0,
            cr3: value.cr3,
            cr4: value.cr4,
            xcr0: value.xcr0,
            cs: seg(&value.cs),
            ss: seg(&value.ss),
            ds: seg(&value.ds),
            es: seg(&value.es),
            fs: seg(&value.fs),
            gs: seg(&value.gs),
            sysenter_cs: value.sysenter_cs,
            sysenter_esp: value.sysenter_esp,
            sysenter_eip: value.sysenter_eip,
            msr_efer: value.msr_efer,
            msr_star: value.msr_star,
            msr_lstar: value.msr_lstar,
            msr_cstar: value.msr_cstar,
            msr_syscall_mask: value.msr_syscall_mask,
            msr_kernel_gs_base: value.msr_kernel_gs_base,
            msr_tsc_aux: value.msr_tsc_aux,
        }
    }
}

impl<'a> vstd::std_specs::convert::FromSpecImpl<&'a kvm_vmi_regs> for KvmVmiRegsX86 {
    open spec fn obeys_from_spec() -> bool {
        true
    }

    open spec fn from_spec(v: &'a kvm_vmi_regs) -> Self {
        regs_from_sys(*v)
    }
}

impl<'a> From<&'a KvmVmiRegsX86> for kvm_vmi_regs {
    fn from(value: &'a KvmVmiRegsX86) -> (r: Self) {
        kvm_vmi_regs {
            rax: value.rax,
            rbx: value.rbx,
            rcx: value.rcx,
            rdx: value.rdx,
            rsi: value.rsi,
            rdi: value.rdi,
            rbp: value.rbp,
            rsp: value.rsp,
            r8: value.r8,
            r9: value.r9,
            r10: value.r10,
            r11: value.r11,
            r12: value.r12,
            r13: value.r13,
            r14: value.r14,
            r15: value.r15,
            rip: value.rip,
            rflags: value.rflags,
            cr0: value.cr0,
            cr3: value.cr3,
            cr4: value.cr4,
            xcr0: value.xcr0,
            cs: unseg(&value.cs),
            ss: unseg(&value.ss),
            ds: unseg(&value.ds),
            es: unseg(&value.es),
            fs: unseg(&value.fs),
            gs: unseg(&value.gs),
            sysenter_cs: value.sysenter_cs,
            sysenter_esp: value.sysenter_esp,
            sysenter_eip: value.sysenter_eip,
            msr_efer: value.msr_efer,
            msr_star: value.msr_star,
            msr_lstar: value.msr_lstar,
            msr_cstar: value.msr_cstar,
            msr_syscall_mask: value.msr_syscall_mask,
            msr_kernel_gs_base: value.msr_kernel_gs_base,
            msr_tsc_aux: value.msr_tsc_aux,
        }
    }
}

impl<'a> vstd::std_specs::convert::FromSpecImpl<&'a KvmVmiRegsX86> for kvm_vmi_regs {
    open spec fn obeys_from_spec() -> bool {
        true
    }

    open spec fn from_spec(v: &'a KvmVmiRegsX86) -> Self {
        regs_to_sys(*v)
    }
}

/// Which control register a CR write event targeted.
#[derive(Debug, Clone, Copy, PartialEq, Eq, Structural)]
pub enum KvmCr {
    /// CR0.
    Cr0,

    /// CR3.
    Cr3,

    /// CR4.
    Cr4,

    /// XCR0.
    Xcr0,
}

/// Payload of a CR write event.
#[derive(Debug, Clone, Copy)]
pub struct KvmCrEvent {
    /// Control register written.
    pub index: KvmCr,

    /// Value before the write.
    pub old: u64,

    /// Value the guest attempted to write.
    pub new: u64,
}

/// Payload of an MSR write event.
#[derive(Debug, Clone, Copy)]
pub struct KvmMsrEvent {
    /// MSR index written.
    pub index: u32,

    /// Value before the write.
    pub old: u64,

    /// Value the guest attempted to write.
    pub new: u64,
}

/// Payload of a CPUID event.
#[derive(Debug, Clone, Copy)]
pub struct KvmCpuidEvent {
    /// Leaf (EAX) requested.
    pub leaf: u32,

    /// Subleaf (ECX) requested.
    pub subleaf: u32,
}

/// Payload of a software breakpoint event.
#[derive(Debug, Clone, Copy)]
pub struct KvmBreakpointEvent {
    /// Guest-physical address of the breakpoint.
    pub gpa: u64,
}

/// Payload of a debug-exception event.
#[derive(Debug, Clone, Copy)]
pub struct KvmDebugEvent {
    /// Guest-physical address of the faulting instruction.
    pub gpa: u64,

    /// Pending debug-exception bits.
    pub pending_dbg: u64,
}

/// Payload of an I/O-instruction event.
#[derive(Debug, Clone, Copy)]
pub struct KvmIoEvent {
    /// I/O port accessed.
    pub port: u16,

    /// Access width in bytes.
    pub bytes: u8,

    /// True for IN, false for OUT.
    pub in_: bool,

    /// True for a string (REP) I/O instruction.
    pub string: bool,
}

/// x86-specific event reasons, nested under `KvmEventReason::Arch`.
#[derive(Debug, Clone, Copy)]
pub enum KvmEventReasonX86 {
    /// MOV to CR0/CR3/CR4 or XSETBV to XCR0.
    WriteCr(KvmCrEvent),

    /// WRMSR to a monitored MSR.
    WriteMsr(KvmMsrEvent),

    /// CPUID execution.
    CpuId(KvmCpuidEvent),

    /// Software breakpoint (INT3).
    Breakpoint(KvmBreakpointEvent),

    /// Debug exception.
    Debug(KvmDebugEvent),

    /// I/O instruction (IN/OUT).
    Io(KvmIoEvent),
}

/// The control register that a `KVM_VMI_CR*` index names, if any.
pub open spec fn cr_of_index(index: u32) -> Option<KvmCr> {
    if index == KVM_VMI_CR0 {
        Some(KvmCr::Cr0)
    } else if index == KVM_VMI_CR3 {
        Some(KvmCr::Cr3)
    } else if index == KVM_VMI_CR4 {
        Some(KvmCr::Cr4)
    } else if index == KVM_VMI_XCR0 {
        Some(KvmCr::Xcr0)
    } else {
        None
    }
}

/// Maps the KVM CR index constant to `KvmCr`.
pub fn cr_from_index(index: u32) -> (r: Option<KvmCr>)
    ensures
        r == cr_of_index(index),
{
    if index == KVM_VMI_CR0 {
        Some(KvmCr::Cr0)
    } else if index == KVM_VMI_CR3 {
        Some(KvmCr::Cr3)
    } else if index == KVM_VMI_CR4 {
        Some(KvmCr::Cr4)
    } else if index == KVM_VMI_XCR0 {
        Some(KvmCr::Xcr0)
    } else {
        None
    }
}

/// True when `type_` is an event id that the x86 decoder knows.
pub open spec fn known_event_type(type_: u32) -> bool {
    ||| type_ == KVM_VMI_EVENT_MEM_ACCESS
    ||| type_ == KVM_VMI_EVENT_SINGLESTEP
    ||| type_ == KVM_VMI_EVENT_HYPERCALL
    ||| type_ == KVM_VMI_EVENT_CR
    ||| type_ == KVM_VMI_EVENT_MSR
    ||| type_ == KVM_VMI_EVENT_CPUID
    ||| type_ == KVM_VMI_EVENT_BREAKPOINT
    ||| type_ == KVM_VMI_EVENT_DEBUG
    ||| type_ == KVM_VMI_EVENT_IO
}

/// The reason that a slot's payload gives, read from the arm its `type_`
/// selects; `None` when the type is unknown or a CR event names an unknown
/// register.
pub open spec fn slot_reason(slot: kvm_vmi_ring_event) -> Option<KvmEventReason> {
    let kind = slot.type_;
    let d = slot.data;
    if kind == KVM_VMI_EVENT_MEM_ACCESS {
        Some(KvmEventReason::MemAccess(KvmMemAccessEvent {
            gpa: d.mem_access.gpa,
            access: MemAccess::from_bits_spec(d.mem_access.access as u8),
        }))
    } else if kind == KVM_VMI_EVENT_SINGLESTEP {
        Some(KvmEventReason::Singlestep(KvmSinglestepEvent { gpa: d.singlestep.gpa }))
    } else if kind == KVM_VMI_EVENT_HYPERCALL {
        Some(KvmEventReason::Hypercall)
    } else if kind == KVM_VMI_EVENT_CR {
        match cr_of_index(d.arch.cr.index) {
            Some(index) => Some(KvmEventReason::Arch(KvmEventReasonX86::WriteCr(KvmCrEvent {
                index,
                old: d.arch.cr.old_value,
                new: d.arch.cr.new_value,
            }))),
            None => None,
        }
    } else if kind == KVM_VMI_EVENT_MSR {
        Some(KvmEventReason::Arch(KvmEventReasonX86::WriteMsr(KvmMsrEvent {
            index: d.arch.msr.index,
            old: d.arch.msr.old_value,
            new: d.arch.msr.new_value,
        })))
    } else if kind == KVM_VMI_EVENT_CPUID {
        Some(KvmEventReason::Arch(KvmEventReasonX86::CpuId(KvmCpuidEvent {
            leaf: d.arch.cpuid.leaf,
            subleaf: d.arch.cpuid.subleaf,
        })))
    } else if kind == KVM_VMI_EVENT_BREAKPOINT {
        Some(KvmEventReason::Arch(KvmEventReasonX86::Breakpoint(KvmBreakpointEvent {
            gpa: d.arch.breakpoint.gpa,
        })))
    } else if kind == KVM_VMI_EVENT_DEBUG {
        Some(KvmEventReason::Arch(KvmEventReasonX86::Debug(KvmDebugEvent {
            gpa: d.arch.debug.gpa,
            pending_dbg: d.arch.debug.pending_dbg,
        })))
    } else if kind == KVM_VMI_EVENT_IO {
        Some(KvmEventReason::Arch(KvmEventReasonX86::Io(KvmIoEvent {
            port: d.arch.io.port,
            bytes: d.arch.io.bytes,
            in_: d.arch.io.in_ != 0,
            string: d.arch.io.string != 0,
        })))
    } else {
        None
    }
}

/// The event that a slot decodes to, when its reason is known: the slot's
/// header fields, its register snapshot and its reason.
pub open spec fn slot_event(slot: kvm_vmi_ring_event, reason: KvmEventReason) -> KvmVmiEvent {
    KvmVmiEvent {
        vcpu_id: slot.vcpu_id,
        view_id: slot.view_id,
        insn_len: slot.insn_len,
        regs: KvmVmiRegs::X86(regs_from_sys(slot.regs)),
        reason,
    }
}

/// Decodes one ring-slot record into a native event. The payload arm read is
/// the one that `type_` selects.
pub fn decode_event(slot: &kvm_vmi_ring_event) -> (r: Result<KvmVmiEvent, KvmError>)
    ensures
        slot_reason(*slot) matches Some(reason) ==> r == Ok::<KvmVmiEvent, KvmError>(
            slot_event(*slot, reason),
        ),
        slot_reason(*slot) is None ==> r is Err,
        !known_event_type(slot.type_) ==> (r matches Err(KvmError::Other(m))
            && m@ == "unknown event type"@),
        slot.type_ == KVM_VMI_EVENT_CR && cr_of_index(slot.data.arch.cr.index) is None ==> (
        r matches Err(KvmError::Other(m)) && m@ == "unknown CR index in event"@),
{
    let regs = KvmVmiRegs::X86(KvmVmiRegsX86::from(&slot.regs));
    let kind = slot.type_;
    let insn_len = slot.insn_len;
    let d = &slot.data;

    let reason = if kind == KVM_VMI_EVENT_MEM_ACCESS {
        let m = d.mem_access;
        KvmEventReason::MemAccess(KvmMemAccessEvent {
            gpa: m.gpa,
            access: MemAccess::from_bits_truncate(m.access as u8),
        })
    } else if kind == KVM_VMI_EVENT_SINGLESTEP {
        KvmEventReason::Singlestep(KvmSinglestepEvent { gpa: d.singlestep.gpa })
    } else if kind == KVM_VMI_EVENT_HYPERCALL {
        KvmEventReason::Hypercall
    } else if kind == KVM_VMI_EVENT_CR {
        let cr = d.arch.cr;
        let index = match cr_from_index(cr.index) {
            Some(index) => index,
            None => return Err(KvmError::Other("unknown CR index in event")),
        };
        KvmEventReason::Arch(KvmEventReasonX86::WriteCr(KvmCrEvent {
            index,
            old: cr.old_value,
            new: cr.new_value,
        }))
    } else if kind == KVM_VMI_EVENT_MSR {
        let msr = d.arch.msr;
        KvmEventReason::Arch(KvmEventReasonX86::WriteMsr(KvmMsrEvent {
            index: msr.index,
            old: msr.old_value,
            new: msr.new_value,
        }))
    } else if kind == KVM_VMI_EVENT_CPUID {
        let c = d.arch.cpuid;
        KvmEventReason::Arch(KvmEventReasonX86::CpuId(KvmCpuidEvent {
            leaf: c.leaf,
            subleaf: c.subleaf,
        }))
    } else if kind == KVM_VMI_EVENT_BREAKPOINT {
        KvmEventReason::Arch(KvmEventReasonX86::Breakpoint(KvmBreakpointEvent {
            gpa: d.arch.breakpoint.gpa,
        }))
    } else if kind == KVM_VMI_EVENT_DEBUG {
        let dbg = d.arch.debug;
        KvmEventReason::Arch(KvmEventReasonX86::Debug(KvmDebugEvent {
            gpa: dbg.gpa,
            pending_dbg: dbg.pending_dbg,
        }))
    } else if kind == KVM_VMI_EVENT_IO {
        let io = d.arch.io;
        KvmEventReason::Arch(KvmEventReasonX86::Io(KvmIoEvent {
            port: io.port,
            bytes: io.bytes,
            in_: io.in_ != 0,
            string: io.string != 0,
        }))
    } else {
        return Err(KvmError::Other("unknown event type"));
    };

    Ok(KvmVmiEvent { vcpu_id: slot.vcpu_id, view_id: slot.view_id, insn_len, regs, reason })
}

} // verus!

verus! {

/// Copying an in-event register snapshot into the native type and back gives
/// the snapshot unchanged, and copying a native snapshot out and back in gives
/// it unchanged: the two conversions are inverse.
pub proof fn lemma_regs_round_trip(sys: kvm_vmi_regs, native: KvmVmiRegsX86)
    ensures
        regs_to_sys(regs_from_sys(sys)) == sys,
        regs_from_sys(regs_to_sys(native)) == native,
{
}

/// A slot of known type decodes, and a slot of unknown type does not; a CR
/// write decodes exactly when its index names CR0, CR3, CR4 or XCR0.
pub proof fn lemma_decode_defined(slot: kvm_vmi_ring_event)
    ensures
        slot_reason(slot) is Some <==> (known_event_type(slot.type_) && (slot.type_
            == KVM_VMI_EVENT_CR ==> cr_of_index(slot.data.arch.cr.index) is Some)),
{
}

} // verus!

verus! {

/// True when two slots have the same type and agree on the payload arm that
/// the type selects (the other arms may differ).
pub open spec fn same_selected_arm(a: kvm_vmi_ring_event, b: kvm_vmi_ring_event) -> bool {
    let k = a.type_;
    &&& a.type_ == b.type_
    &&& k == KVM_VMI_EVENT_MEM_ACCESS ==> a.data.mem_access == b.data.mem_access
    &&& k == KVM_VMI_EVENT_SINGLESTEP ==> a.data.singlestep == b.data.singlestep
    &&& k == KVM_VMI_EVENT_CR ==> a.data.arch.cr == b.data.arch.cr
    &&& k == KVM_VMI_EVENT_MSR ==> a.data.arch.msr == b.data.arch.msr
    &&& k == KVM_VMI_EVENT_CPUID ==> a.data.arch.cpuid == b.data.arch.cpuid
    &&& k == KVM_VMI_EVENT_BREAKPOINT ==> a.data.arch.breakpoint == b.data.arch.breakpoint
    &&& k == KVM_VMI_EVENT_DEBUG ==> a.data.arch.debug == b.data.arch.debug
    &&& k == KVM_VMI_EVENT_IO ==> a.data.arch.io == b.data.arch.io
}

/// Decoding reads only the payload arm that the slot's type selects: slots
/// that agree on their type and that arm give the same reason, whatever the
/// other arms hold.
pub proof fn lemma_decode_reads_selected_arm(a: kvm_vmi_ring_event, b: kvm_vmi_ring_event)
    requires
        same_selected_arm(a, b),
    ensures
        slot_reason(a) == slot_reason(b),
{
}

} // verus!

verus! {

/// Converting an in-event snapshot copies every register into the native
/// field of the same name, and converting back copies every native field into
/// the uAPI field of the same name.
pub proof fn lemma_regs_copied_by_name(v: kvm_vmi_regs, n: KvmVmiRegsX86)
    ensures
        regs_from_sys(v).rax == v.rax,
        regs_from_sys(v).rbx == v.rbx,
        regs_from_sys(v).rcx == v.rcx,
        regs_from_sys(v).rdx == v.rdx,
        regs_from_sys(v).rsi == v.rsi,
        regs_from_sys(v).rdi == v.rdi,
        regs_from_sys(v).rbp == v.rbp,
        regs_from_sys(v).rsp == v.rsp,
        regs_from_sys(v).r8 == v.r8,
        regs_from_sys(v).r9 == v.r9,
        regs_from_sys(v).r10 == v.r10,
        regs_from_sys(v).r11 == v.r11,
        regs_from_sys(v).r12 == v.r12,
        regs_from_sys(v).r13 == v.r13,
        regs_from_sys(v).r14 == v.r14,
        regs_from_sys(v).r15 == v.r15,
        regs_from_sys(v).rip == v.rip,
        regs_from_sys(v).rflags == v.rflags,
        regs_from_sys(v).cr0 == v.cr0,
        regs_from_sys(v).cr3 == v.cr3,
        regs_from_sys(v).cr4 == v.cr4,
        regs_from_sys(v).xcr0 == v.xcr0,
        regs_from_sys(v).sysenter_cs == v.sysenter_cs,
        regs_from_sys(v).sysenter_esp == v.sysenter_esp,
        regs_from_sys(v).sysenter_eip == v.sysenter_eip,
        regs_from_sys(v).msr_efer == v.msr_efer,
        regs_from_sys(v).msr_star == v.msr_star,
        regs_from_sys(v).msr_lstar == v.msr_lstar,
        regs_from_sys(v).msr_cstar == v.msr_cstar,
        regs_from_sys(v).msr_syscall_mask == v.msr_syscall_mask,
        regs_from_sys(v).msr_kernel_gs_base == v.msr_kernel_gs_base,
        regs_from_sys(v).msr_tsc_aux == v.msr_tsc_aux,
        regs_from_sys(v).cs.base == v.cs.base,
        regs_from_sys(v).cs.limit == v.cs.limit,
        regs_from_sys(v).cs.selector == v.cs.selector,
        regs_from_sys(v).cs.ar == v.cs.ar,
        regs_from_sys(v).ss.base == v.ss.base,
        regs_from_sys(v).ss.limit == v.ss.limit,
        regs_from_sys(v).ss.selector == v.ss.selector,
        regs_from_sys(v).ss.ar == v.ss.ar,
        regs_from_sys(v).ds.base == v.ds.base,
        regs_from_sys(v).ds.limit == v.ds.limit,
        regs_from_sys(v).ds.selector == v.ds.selector,
        regs_from_sys(v).ds.ar == v.ds.ar,
        regs_from_sys(v).es.base == v.es.base,
        regs_from_sys(v).es.limit == v.es.limit,
        regs_from_sys(v).es.selector == v.es.selector,
        regs_from_sys(v).es.ar == v.es.ar,
        regs_from_sys(v).fs.base == v.fs.base,
        regs_from_sys(v).fs.limit == v.fs.limit,
        regs_from_sys(v).fs.selector == v.fs.selector,
        regs_from_sys(v).fs.ar == v.fs.ar,
        regs_from_sys(v).gs.base == v.gs.base,
        regs_from_sys(v).gs.limit == v.gs.limit,
        regs_from_sys(v).gs.selector == v.gs.selector,
        regs_from_sys(v).gs.ar == v.gs.ar,
        regs_to_sys(n).rax == n.rax,
        regs_to_sys(n).rbx == n.rbx,
        regs_to_sys(n).rcx == n.rcx,
        regs_to_sys(n).rdx == n.rdx,
        regs_to_sys(n).rsi == n.rsi,
        regs_to_sys(n).rdi == n.rdi,
        regs_to_sys(n).rbp == n.rbp,
        regs_to_sys(n).rsp == n.rsp,
        regs_to_sys(n).r8 == n.r8,
        regs_to_sys(n).r9 == n.r9,
        regs_to_sys(n).r10 == n.r10,
        regs_to_sys(n).r11 == n.r11,
        regs_to_sys(n).r12 == n.r12,
        regs_to_sys(n).r13 == n.r13,
        regs_to_sys(n).r14 == n.r14,
        regs_to_sys(n).r15 == n.r15,
        regs_to_sys(n).rip == n.rip,
        regs_to_sys(n).rflags == n.rflags,
        regs_to_sys(n).cr0 == n.cr0,
        regs_to_sys(n).cr3 == n.cr3,
        regs_to_sys(n).cr4 == n.cr4,
        regs_to_sys(n).xcr0 == n.xcr0,
        regs_to_sys(n).sysenter_cs == n.sysenter_cs,
        regs_to_sys(n).sysenter_esp == n.sysenter_esp,
        regs_to_sys(n).sysenter_eip == n.sysenter_eip,
        regs_to_sys(n).msr_efer == n.msr_efer,
        regs_to_sys(n).msr_star == n.msr_star,
        regs_to_sys(n).msr_lstar == n.msr_lstar,
        regs_to_sys(n).msr_cstar == n.msr_cstar,
        regs_to_sys(n).msr_syscall_mask == n.msr_syscall_mask,
        regs_to_sys(n).msr_kernel_gs_base == n.msr_kernel_gs_base,
        regs_to_sys(n).msr_tsc_aux == n.msr_tsc_aux,
        regs_to_sys(n).cs.base == n.cs.base,
        regs_to_sys(n).cs.limit == n.cs.limit,
        regs_to_sys(n).cs.selector == n.cs.selector,
        regs_to_sys(n).cs.ar == n.cs.ar,
        regs_to_sys(n).ss.base == n.ss.base,
        regs_to_sys(n).ss.limit == n.ss.limit,
        regs_to_sys(n).ss.selector == n.ss.selector,
        regs_to_sys(n).ss.ar == n.ss.ar,
        regs_to_sys(n).ds.base == n.ds.base,
        regs_to_sys(n).ds.limit == n.ds.limit,
        regs_to_sys(n).ds.selector == n.ds.selector,
        regs_to_sys(n).ds.ar == n.ds.ar,
        regs_to_sys(n).es.base == n.es.base,
        regs_to_sys(n).es.limit == n.es.limit,
        regs_to_sys(n).es.selector == n.es.selector,
        regs_to_sys(n).es.ar == n.es.ar,
        regs_to_sys(n).fs.base == n.fs.base,
        regs_to_sys(n).fs.limit == n.fs.limit,
        regs_to_sys(n).fs.selector == n.fs.selector,
        regs_to_sys(n).fs.ar == n.fs.ar,
        regs_to_sys(n).gs.base == n.gs.base,
        regs_to_sys(n).gs.limit == n.gs.limit,
        regs_to_sys(n).gs.selector == n.gs.selector,
        regs_to_sys(n).gs.ar == n.gs.ar,
{
}

/// A decoded event carries the slot's vCPU, view and instruction length, the
/// slot's registers (each under its own name) and the given reason.
pub proof fn lemma_event_header_copied(slot: kvm_vmi_ring_event, reason: KvmEventReason)
    ensures
        slot_event(slot, reason).vcpu_id == slot.vcpu_id,
        slot_event(slot, reason).view_id == slot.view_id,
        slot_event(slot, reason).insn_len == slot.insn_len,
        slot_event(slot, reason).reason == reason,
        slot_event(slot, reason).regs matches KvmVmiRegs::X86(r) && r == regs_from_sys(slot.regs),
{
}

/// Decoding a slot gives the reason named by its type, with every field of
/// the selected payload arm copied into the event field of the same name: a
/// memory access carries the address and the known access bits, a CR write
/// the register its index names (CR0, CR3, CR4 or XCR0; any other index
/// decodes to nothing) with the old and new values, an MSR write the index
/// and old and new values, a CPUID the leaf and subleaf, a breakpoint the
/// address, a debug exception the address and pending bits, and an I/O
/// instruction the port, width, and whether it is an IN and a string
/// instruction (nonzero bytes).
pub proof fn lemma_decode_copies_payload(slot: kvm_vmi_ring_event)
    ensures
        slot.type_ == KVM_VMI_EVENT_MEM_ACCESS ==> (slot_reason(slot) matches Some(
            KvmEventReason::MemAccess(m),
        ) && m.gpa == slot.data.mem_access.gpa && m.access@ == (slot.data.mem_access.access as u8)
            & 0xf),
        slot.type_ == KVM_VMI_EVENT_SINGLESTEP ==> (slot_reason(slot) matches Some(
            KvmEventReason::Singlestep(s),
        ) && s.gpa == slot.data.singlestep.gpa),
        slot.type_ == KVM_VMI_EVENT_HYPERCALL ==> (slot_reason(slot) matches Some(
            KvmEventReason::Hypercall,
        )),
        slot.type_ == KVM_VMI_EVENT_CR && slot.data.arch.cr.index == KVM_VMI_CR0 ==> (slot_reason(
            slot,
        ) matches Some(KvmEventReason::Arch(KvmEventReasonX86::WriteCr(c))) && c.index
            == KvmCr::Cr0 && c.old == slot.data.arch.cr.old_value && c.new
            == slot.data.arch.cr.new_value),
        slot.type_ == KVM_VMI_EVENT_CR && slot.data.arch.cr.index == KVM_VMI_CR3 ==> (slot_reason(
            slot,
        ) matches Some(KvmEventReason::Arch(KvmEventReasonX86::WriteCr(c))) && c.index
            == KvmCr::Cr3 && c.old == slot.data.arch.cr.old_value && c.new
            == slot.data.arch.cr.new_value),
        slot.type_ == KVM_VMI_EVENT_CR && slot.data.arch.cr.index == KVM_VMI_CR4 ==> (slot_reason(
            slot,
        ) matches Some(KvmEventReason::Arch(KvmEventReasonX86::WriteCr(c))) && c.index
            == KvmCr::Cr4 && c.old == slot.data.arch.cr.old_value && c.new
            == slot.data.arch.cr.new_value),
        slot.type_ == KVM_VMI_EVENT_CR && slot.data.arch.cr.index == KVM_VMI_XCR0 ==> (slot_reason(
            slot,
        ) matches Some(KvmEventReason::Arch(KvmEventReasonX86::WriteCr(c))) && c.index
            == KvmCr::Xcr0 && c.old == slot.data.arch.cr.old_value && c.new
            == slot.data.arch.cr.new_value),
        slot.type_ == KVM_VMI_EVENT_CR && slot.data.arch.cr.index != KVM_VMI_CR0
            && slot.data.arch.cr.index != KVM_VMI_CR3 && slot.data.arch.cr.index != KVM_VMI_CR4
            && slot.data.arch.cr.index != KVM_VMI_XCR0 ==> slot_reason(slot) is None,
        slot.type_ == KVM_VMI_EVENT_MSR ==> (slot_reason(slot) matches Some(
            KvmEventReason::Arch(KvmEventReasonX86::WriteMsr(m)),
        ) && m.index == slot.data.arch.msr.index && m.old == slot.data.arch.msr.old_value
            && m.new == slot.data.arch.msr.new_value),
        slot.type_ == KVM_VMI_EVENT_CPUID ==> (slot_reason(slot) matches Some(
            KvmEventReason::Arch(KvmEventReasonX86::CpuId(c)),
        ) && c.leaf == slot.data.arch.cpuid.leaf && c.subleaf == slot.data.arch.cpuid.subleaf),
        slot.type_ == KVM_VMI_EVENT_BREAKPOINT ==> (slot_reason(slot) matches Some(
            KvmEventReason::Arch(KvmEventReasonX86::Breakpoint(b)),
        ) && b.gpa == slot.data.arch.breakpoint.gpa),
        slot.type_ == KVM_VMI_EVENT_DEBUG ==> (slot_reason(slot) matches Some(
            KvmEventReason::Arch(KvmEventReasonX86::Debug(d)),
        ) && d.gpa == slot.data.arch.debug.gpa && d.pending_dbg
            == slot.data.arch.debug.pending_dbg),
        slot.type_ == KVM_VMI_EVENT_IO ==> (slot_reason(slot) matches Some(
            KvmEventReason::Arch(KvmEventReasonX86::Io(io)),
        ) && io.port == slot.data.arch.io.port && io.bytes == slot.data.arch.io.bytes && io.in_
            == (slot.data.arch.io.in_ != 0) && io.string == (slot.data.arch.io.string != 0)),
{
    MemAccess::lemma_from_bits_spec_view(slot.data.mem_access.access as u8);
}

} // verus!
