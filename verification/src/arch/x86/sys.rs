//! The x86 records of the kvm_vmi uAPI and of the standard KVM register
//! ioctls, as plain values.

use vstd::prelude::*;
use crate::uapi::{kvm_vmi_event_mem_access, kvm_vmi_event_singlestep};

verus! {

/// One segment in the packed in-event register layout.
#[allow(non_camel_case_types)]
#[derive(Debug, Default, Clone, Copy, PartialEq, Eq, Structural)]
pub struct kvm_vmi_segment {
    /// Segment base.
    pub base: u64,

    /// Segment limit.
    pub limit: u32,

    /// Segment selector.
    pub selector: u16,

    /// VMX access-rights word.
    pub ar: u16,
}

/// Register snapshot embedded in a ring slot.
#[allow(non_camel_case_types)]
#[derive(Debug, Default, Clone, Copy, PartialEq, Eq, Structural)]
pub struct kvm_vmi_regs {
    pub rax: u64,
    pub rbx: u64,
    pub rcx: u64,
    pub rdx: u64,
    pub rsi: u64,
    pub rdi: u64,
    pub rbp: u64,
    pub rsp: u64,
    pub r8: u64,
    pub r9: u64,
    pub r10: u64,
    pub r11: u64,
    pub r12: u64,
    pub r13: u64,
    pub r14: u64,
    pub r15: u64,
    pub rip: u64,
    pub rflags: u64,
    pub cr0: u64,
    pub cr3: u64,
    pub cr4: u64,
    pub xcr0: u64,
    pub cs: kvm_vmi_segment,
    pub ss: kvm_vmi_segment,
    pub ds: kvm_vmi_segment,
    pub es: kvm_vmi_segment,
    pub fs: kvm_vmi_segment,
    pub gs: kvm_vmi_segment,
    pub sysenter_cs: u64,
    pub sysenter_esp: u64,
    pub sysenter_eip: u64,
    pub msr_efer: u64,
    pub msr_star: u64,
    pub msr_lstar: u64,
    pub msr_cstar: u64,
    pub msr_syscall_mask: u64,
    pub msr_kernel_gs_base: u64,
    pub msr_tsc_aux: u64,
}

/// Control-register write arm of a slot's payload.
#[allow(non_camel_case_types)]
#[derive(Debug, Default, Clone, Copy, PartialEq, Eq, Structural)]
pub struct kvm_vmi_event_cr {
    /// `KVM_VMI_CR*` index of the register written.
    pub index: u32,

    /// Padding.
    pub pad: u32,

    /// Value before the write.
    pub old_value: u64,

    /// Value the guest attempted to write.
    pub new_value: u64,
}

/// MSR write arm of a slot's payload.
#[allow(non_camel_case_types)]
#[derive(Debug, Default, Clone, Copy, PartialEq, Eq, Structural)]
pub struct kvm_vmi_event_msr {
    /// MSR index written.
    pub index: u32,

    /// Padding.
    pub pad: u32,

    /// Value before the write.
    pub old_value: u64,

    /// Value the guest attempted to write.
    pub new_value: u64,
}

/// CPUID arm of a slot's payload.
#[allow(non_camel_case_types)]
#[derive(Debug, Default, Clone, Copy, PartialEq, Eq, Structural)]
pub struct kvm_vmi_event_cpuid {
    /// Leaf (EAX) requested.
    pub leaf: u32,

    /// Subleaf (ECX) requested.
    pub subleaf: u32,
}

/// Software-breakpoint arm of a slot's payload.
#[allow(non_camel_case_types)]
#[derive(Debug, Default, Clone, Copy, PartialEq, Eq, Structural)]
pub struct kvm_vmi_event_breakpoint {
    /// Guest-physical address of the breakpoint.
    pub gpa: u64,
}

/// Debug-exception arm of a slot's payload.
#[allow(non_camel_case_types)]
#[derive(Debug, Default, Clone, Copy, PartialEq, Eq, Structural)]
pub struct kvm_vmi_event_debug {
    /// Guest-physical address of the faulting instruction.
    pub gpa: u64,

    /// Pending debug-exception bits.
    pub pending_dbg: u64,
}

/// I/O-instruction arm of a slot's payload.
#[allow(non_camel_case_types)]
#[derive(Debug, Default, Clone, Copy, PartialEq, Eq, Structural)]
pub struct kvm_vmi_event_io {
    /// I/O port accessed.
    pub port: u16,

    /// Access width in bytes.
    pub bytes: u8,

    /// Nonzero for IN, zero for OUT.
    pub in_: u8,

    /// Nonzero for a string (REP) instruction.
    pub string: u8,
}

/// The x86-specific arms of a slot's payload. The slot's `type_` says which
/// arm the kernel filled; only that arm is read.
#[allow(non_camel_case_types)]
#[derive(Debug, Default, Clone, Copy, PartialEq, Eq, Structural)]
pub struct kvm_vmi_arch_event {
    pub cr: kvm_vmi_event_cr,
    pub msr: kvm_vmi_event_msr,
    pub cpuid: kvm_vmi_event_cpuid,
    pub breakpoint: kvm_vmi_event_breakpoint,
    pub debug: kvm_vmi_event_debug,
    pub io: kvm_vmi_event_io,
}

/// A slot's payload: the arch-neutral arms and the x86 arms. The slot's
/// `type_` says which arm the kernel filled; only that arm is read.
#[allow(non_camel_case_types)]
#[derive(Debug, Default, Clone, Copy, PartialEq, Eq, Structural)]
pub struct kvm_vmi_event_data {
    pub mem_access: kvm_vmi_event_mem_access,
    pub singlestep: kvm_vmi_event_singlestep,
    pub arch: kvm_vmi_arch_event,
}

/// One slot of a vCPU's event ring.
#[allow(non_camel_case_types)]
#[derive(Debug, Default, Clone, Copy, PartialEq, Eq, Structural)]
pub struct kvm_vmi_ring_event {
    /// `KVM_VMI_EVENT_*` id selecting the payload arm.
    pub type_: u32,

    /// vCPU that produced the event.
    pub vcpu_id: u32,

    /// View the vCPU was in; on response, the view to switch to.
    pub view_id: u32,

    /// Faulting-instruction length.
    pub insn_len: u8,

    /// `KVM_VMI_RESPONSE_*` flag word written back by the agent.
    pub response: u32,

    /// Register snapshot; on response, the registers to load.
    pub regs: kvm_vmi_regs,

    /// Event payload.
    pub data: kvm_vmi_event_data,
}

/// Control-register arm of the x86 control data.
#[allow(non_camel_case_types)]
#[derive(Debug, Default, Clone, Copy, PartialEq, Eq, Structural)]
pub struct kvm_vmi_control_cr {
    /// `KVM_VMI_CR*` index, narrowed to a byte.
    pub index: u8,

    /// 1 to report only value-changing writes.
    pub onchangeonly: u8,
}

/// MSR arm of the x86 control data.
#[allow(non_camel_case_types)]
#[derive(Debug, Default, Clone, Copy, PartialEq, Eq, Structural)]
pub struct kvm_vmi_control_msr {
    /// MSR index to monitor.
    pub msr: u32,
}

/// x86 arch-specific parameters of a monitor-control request. Only the arm
/// that the event id selects is meaningful; the others stay zero. In the C
/// layout the arms overlap (the CR index byte aliases the low byte of the MSR
/// index), so only the selected arm is handed to the kernel; here each arm
/// keeps its own value.
#[allow(non_camel_case_types)]
#[derive(Debug, Default, Clone, Copy, PartialEq, Eq, Structural)]
pub struct kvm_vmi_arch_control_data {
    pub cr: kvm_vmi_control_cr,
    pub msr: kvm_vmi_control_msr,
}

/// Argument of the monitor-control ioctl.
#[allow(non_camel_case_types)]
#[derive(Debug, Default, Clone, Copy, PartialEq, Eq, Structural)]
pub struct kvm_vmi_control_event {
    /// `KVM_VMI_EVENT_*` id to enable or disable.
    pub event: u32,

    /// 1 to enable, 0 to disable.
    pub enable: u32,

    /// Arch-specific parameters.
    pub arch: kvm_vmi_arch_control_data,
}

/// Argument of the event-injection ioctl.
#[allow(non_camel_case_types)]
#[derive(Debug, Default, Clone, Copy, PartialEq, Eq, Structural)]
pub struct kvm_vmi_inject_event {
    pub vcpu_id: u32,
    pub vector: u8,
    pub type_: u8,
    pub insn_len: u8,
    pub pad: u8,
    pub error_code: u32,
    pub has_error: u32,
    pub cr2: u64,
}

/// General-purpose registers (`struct kvm_regs`).
#[allow(non_camel_case_types)]
#[derive(Debug, Default, Clone, Copy, PartialEq, Eq, Structural)]
pub struct kvm_regs {
    pub rax: u64,
    pub rbx: u64,
    pub rcx: u64,
    pub rdx: u64,
    pub rsi: u64,
    pub rdi: u64,
    pub rsp: u64,
    pub rbp: u64,
    pub r8: u64,
    pub r9: u64,
    pub r10: u64,
    pub r11: u64,
    pub r12: u64,
    pub r13: u64,
    pub r14: u64,
    pub r15: u64,
    pub rip: u64,
    pub rflags: u64,
}

/// One segment (`struct kvm_segment`).
#[allow(non_camel_case_types)]
#[derive(Debug, Default, Clone, Copy, PartialEq, Eq, Structural)]
pub struct kvm_segment {
    pub base: u64,
    pub limit: u32,
    pub selector: u16,
    pub type_: u8,
    pub present: u8,
    pub dpl: u8,
    pub db: u8,
    pub s: u8,
    pub l: u8,
    pub g: u8,
    pub avl: u8,
    pub unusable: u8,
    pub padding: u8,
}

/// One descriptor-table register (`struct kvm_dtable`).
#[allow(non_camel_case_types)]
#[derive(Debug, Default, Clone, Copy, PartialEq, Eq, Structural)]
pub struct kvm_dtable {
    pub base: u64,
    pub limit: u16,
}

/// Special registers (`struct kvm_sregs`), without the interrupt bitmap.
#[allow(non_camel_case_types)]
#[derive(Debug, Default, Clone, Copy, PartialEq, Eq, Structural)]
pub struct kvm_sregs {
    pub cs: kvm_segment,
    pub ds: kvm_segment,
    pub es: kvm_segment,
    pub fs: kvm_segment,
    pub gs: kvm_segment,
    pub ss: kvm_segment,
    pub tr: kvm_segment,
    pub ldt: kvm_segment,
    pub gdt: kvm_dtable,
    pub idt: kvm_dtable,
    pub cr0: u64,
    pub cr2: u64,
    pub cr3: u64,
    pub cr4: u64,
    pub cr8: u64,
    pub efer: u64,
    pub apic_base: u64,
}

/// Debug registers (`struct kvm_debugregs`).
#[allow(non_camel_case_types)]
#[derive(Debug, Default, Clone, Copy, PartialEq, Eq)]
pub struct kvm_debugregs {
    pub db: [u64; 4],
    pub dr6: u64,
    pub dr7: u64,
    pub flags: u64,
}

/// One MSR index/value pair (`struct kvm_msr_entry`).
#[allow(non_camel_case_types)]
#[derive(Debug, Default, Clone, Copy, PartialEq, Eq, Structural)]
pub struct kvm_msr_entry {
    pub index: u32,
    pub reserved: u32,
    pub data: u64,
}

} // verus!
