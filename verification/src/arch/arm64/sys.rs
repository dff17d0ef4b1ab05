//! The arm64 records of the kvm_vmi uAPI, as plain values.

use vstd::prelude::*;
use crate::uapi::{kvm_vmi_event_mem_access, kvm_vmi_event_singlestep};

verus! {

/// Register snapshot embedded in a ring slot.
#[allow(non_camel_case_types)]
#[derive(Debug, Default, Clone, Copy, PartialEq, Eq)]
pub struct kvm_vmi_regs {
    pub regs: [u64; 31],
    pub sp_el0: u64,
    pub sp_el1: u64,
    pub pc: u64,
    pub pstate: u64,
    pub ttbr0_el1: u64,
    pub ttbr1_el1: u64,
    pub tcr_el1: u64,
    pub sctlr_el1: u64,
    pub mair_el1: u64,
    pub vbar_el1: u64,
    pub contextidr_el1: u64,
    pub elr_el1: u64,
    pub spsr_el1: u64,
    pub esr_el1: u64,
    pub far_el1: u64,
    pub tpidr_el0: u64,
    pub tpidr_el1: u64,
    pub tpidrro_el0: u64,
}

/// Software-breakpoint (`BRK`) arm of a slot's payload.
#[allow(non_camel_case_types)]
#[derive(Debug, Default, Clone, Copy, PartialEq, Eq, Structural)]
pub struct kvm_vmi_event_breakpoint {
    /// Faulting guest-physical (intermediate physical) address.
    pub ipa: u64,

    /// `BRK` immediate.
    pub imm: u32,

    /// Padding.
    pub pad: u32,
}

/// System-register write arm of a slot's payload.
#[allow(non_camel_case_types)]
#[derive(Debug, Default, Clone, Copy, PartialEq, Eq, Structural)]
pub struct kvm_vmi_event_sysreg {
    /// `KVM_VMI_SYSREG_*` register index.
    pub reg: u32,

    /// Padding.
    pub pad: u32,

    /// Register value before the (deferred) write.
    pub old_value: u64,

    /// Value the guest is writing.
    pub new_value: u64,
}

/// The arm64-specific arms of a slot's payload.
#[allow(non_camel_case_types)]
#[derive(Debug, Default, Clone, Copy, PartialEq, Eq, Structural)]
pub struct kvm_vmi_arch_event {
    pub breakpoint: kvm_vmi_event_breakpoint,
    pub sysreg: kvm_vmi_event_sysreg,
}

/// A slot's payload: the arch-neutral arms and the arm64 arms. The slot's
/// `type_` says which arm the kernel filled; only that arm is read.
#[allow(non_camel_case_types)]
#[derive(Debug, Default, Clone, Copy, PartialEq, Eq, Structural)]
pub struct kvm_vmi_event_data {
    pub mem_access: kvm_vmi_event_mem_access,
    pub singlestep: kvm_vmi_event_singlestep,
    pub arch: kvm_vmi_arch_event,
}

/// One slot of a vCPU's event ring.
#[allow(non_camel_case_types)]
#[derive(Debug, Default, Clone, Copy, PartialEq, Eq)]
pub struct kvm_vmi_ring_event {
    /// `KVM_VMI_EVENT_*` id selecting the payload arm.
    pub type_: u32,

    /// vCPU that produced the event.
    pub vcpu_id: u32,

    /// View the vCPU was in; on response, the view to switch to.
    pub view_id: u32,

    /// Faulting-instruction length.
    pub insn_len: u8,

    /// `KVM_VMI_RESPONSE_*` flag word written back by the agent.
    pub response: u32,

    /// Register snapshot; on response, the registers to load.
    pub regs: kvm_vmi_regs,

    /// Event payload.
    pub data: kvm_vmi_event_data,
}

/// System-register arm of the arm64 control data.
#[allow(non_camel_case_types)]
#[derive(Debug, Default, Clone, Copy, PartialEq, Eq)]
pub struct kvm_vmi_control_sysreg {
    /// `KVM_VMI_SYSREG_*` index, narrowed to a byte.
    pub reg: u8,

    /// 1 to deliver only value-changing writes.
    pub onchangeonly: u8,

    /// Padding.
    pub pad: [u8; 6],

    /// Fire only when `((old ^ new) & bitmask) != 0`; 0 fires on any change.
    pub bitmask: u64,
}

/// arm64 arch-specific parameters of a monitor-control request.
#[allow(non_camel_case_types)]
#[derive(Debug, Default, Clone, Copy, PartialEq, Eq)]
pub struct kvm_vmi_arch_control_data {
    pub sysreg: kvm_vmi_control_sysreg,
}

/// Argument of the monitor-control ioctl.
#[allow(non_camel_case_types)]
#[derive(Debug, Default, Clone, Copy, PartialEq, Eq)]
pub struct kvm_vmi_control_event {
    /// `KVM_VMI_EVENT_*` id to enable or disable.
    pub event: u32,

    /// 1 to enable, 0 to disable.
    pub enable: u32,

    /// Arch-specific parameters.
    pub arch: kvm_vmi_arch_control_data,
}

/// Argument of the event-injection ioctl.
#[allow(non_camel_case_types)]
#[derive(Debug, Default, Clone, Copy, PartialEq, Eq)]
pub struct kvm_vmi_inject_event {
    pub vcpu_id: u32,
    pub type_: u32,
    pub addr: u64,
    pub esr: u64,
    pub iabt: u8,
    pub has_esr: u8,
    pub fsc: u8,
    pub write: u8,
    pub pad: [u8; 4],
}

} // verus!
