//! The kvm_vmi uAPI as the library sees it: the constants and the records
//! shared by every architecture.

use vstd::prelude::*;

verus! {

/// Access bit: read.
pub const KVM_VMI_ACCESS_R: u32 = 0x1;

/// Access bit: write.
pub const KVM_VMI_ACCESS_W: u32 = 0x2;

/// Access bit: execute.
pub const KVM_VMI_ACCESS_X: u32 = 0x4;

/// Access bit: page-walk writes trapped.
pub const KVM_VMI_ACCESS_PW: u32 = 0x8;

/// GFN sentinel that reverts a remap to the host mapping.
pub const KVM_VMI_INVALID_GFN: u64 = 0xffff_ffff_ffff_ffff;

/// Event id: control-register write (x86).
pub const KVM_VMI_EVENT_CR: u32 = 0;

/// Event id: MSR write (x86).
pub const KVM_VMI_EVENT_MSR: u32 = 1;

/// Event id: CPUID (x86).
pub const KVM_VMI_EVENT_CPUID: u32 = 2;

/// Event id: I/O instruction (x86).
pub const KVM_VMI_EVENT_IO: u32 = 3;

/// Event id: software breakpoint.
pub const KVM_VMI_EVENT_BREAKPOINT: u32 = 4;

/// Event id: debug exception (x86).
pub const KVM_VMI_EVENT_DEBUG: u32 = 5;

/// Event id: single-step trap.
pub const KVM_VMI_EVENT_SINGLESTEP: u32 = 6;

/// Event id: guest hypercall.
pub const KVM_VMI_EVENT_HYPERCALL: u32 = 7;

/// Event id: memory-access violation.
pub const KVM_VMI_EVENT_MEM_ACCESS: u32 = 8;

/// Event id: system-register write (arm64).
pub const KVM_VMI_EVENT_SYSREG: u32 = 9;

/// Response flag word with no flag set: resume normally.
pub const KVM_VMI_RESPONSE_CONTINUE: u32 = 0;

/// Response flag: suppress the faulting operation.
pub const KVM_VMI_RESPONSE_DENY: u32 = 0x1;

/// Response flag: emulate the faulting instruction.
pub const KVM_VMI_RESPONSE_EMULATE: u32 = 0x2;

/// Response flag: reinject the interrupt or exception that caused the event.
pub const KVM_VMI_RESPONSE_REINJECT: u32 = 0x4;

/// Response flag: single-step one instruction.
pub const KVM_VMI_RESPONSE_SINGLESTEP: u32 = 0x8;

/// Response flag: single-step, then switch view atomically.
pub const KVM_VMI_RESPONSE_SINGLESTEP_FAST: u32 = 0x10;

/// Response flag: load the registers written back into the slot.
pub const KVM_VMI_RESPONSE_SET_REGS: u32 = 0x20;

/// Response flag: switch to the view written back into the slot.
pub const KVM_VMI_RESPONSE_SWITCH_VIEW: u32 = 0x40;

/// Control-register index: CR0.
pub const KVM_VMI_CR0: u32 = 0;

/// Control-register index: CR3.
pub const KVM_VMI_CR3: u32 = 3;

/// Control-register index: CR4.
pub const KVM_VMI_CR4: u32 = 4;

/// Control-register index: XCR0.
pub const KVM_VMI_XCR0: u32 = 8;

/// VMCS interruption type: external interrupt.
pub const KVM_VMI_EVENT_TYPE_EXT_INT: u32 = 0;

/// VMCS interruption type: non-maskable interrupt.
pub const KVM_VMI_EVENT_TYPE_NMI: u32 = 2;

/// VMCS interruption type: hardware exception.
pub const KVM_VMI_EVENT_TYPE_HW_EXCEPT: u32 = 3;

/// VMCS interruption type: software interrupt.
pub const KVM_VMI_EVENT_TYPE_SW_INT: u32 = 4;

/// VMCS interruption type: privileged software exception.
pub const KVM_VMI_EVENT_TYPE_PRIV_SW_INT: u32 = 5;

/// VMCS interruption type: software exception.
pub const KVM_VMI_EVENT_TYPE_SW_EXCEPT: u32 = 6;

/// arm64 injection type: SError interrupt.
pub const KVM_VMI_INJECT_SERROR: u32 = 0;

/// arm64 injection type: synchronous abort.
pub const KVM_VMI_INJECT_ABORT: u32 = 1;

/// arm64 system-register index: `TTBR0_EL1`.
pub const KVM_VMI_SYSREG_TTBR0_EL1: u32 = 0;

/// arm64 system-register index: `TTBR1_EL1`.
pub const KVM_VMI_SYSREG_TTBR1_EL1: u32 = 1;

/// arm64 system-register index: `SCTLR_EL1`.
pub const KVM_VMI_SYSREG_SCTLR_EL1: u32 = 2;

/// Header at offset 0 of a vCPU's event ring page.
#[allow(non_camel_case_types)]
#[derive(Debug, Default, Clone, Copy, PartialEq, Eq, Structural)]
pub struct kvm_vmi_ring_header {
    /// Producer cursor, advanced by the kernel when it queues an event.
    pub req_prod: u32,

    /// Consumer cursor, advanced by the kernel when an event is acked.
    pub req_cons: u32,

    /// Number of event slots following the header.
    pub num_slots: u32,

    /// Padding.
    pub pad: u32,
}

/// Memory-access arm of a ring slot's payload.
#[allow(non_camel_case_types)]
#[derive(Debug, Default, Clone, Copy, PartialEq, Eq, Structural)]
pub struct kvm_vmi_event_mem_access {
    /// Faulting guest-physical address.
    pub gpa: u64,

    /// Attempted access, as `KVM_VMI_ACCESS_*` bits.
    pub access: u32,

    /// Padding.
    pub pad: u32,
}

/// Single-step arm of a ring slot's payload.
#[allow(non_camel_case_types)]
#[derive(Debug, Default, Clone, Copy, PartialEq, Eq, Structural)]
pub struct kvm_vmi_event_singlestep {
    /// Guest-physical address of the stepped instruction.
    pub gpa: u64,
}

} // verus!
