//! arm64 native monitor-control and event-injection parameters.

use vstd::prelude::*;
use crate::uapi::{
    KVM_VMI_EVENT_BREAKPOINT, KVM_VMI_EVENT_HYPERCALL, KVM_VMI_EVENT_MEM_ACCESS,
    KVM_VMI_EVENT_SINGLESTEP, KVM_VMI_EVENT_SYSREG, KVM_VMI_INJECT_ABORT, KVM_VMI_INJECT_SERROR,
};
use super::sys::{
    kvm_vmi_arch_control_data, kvm_vmi_control_event, kvm_vmi_control_sysreg,
    kvm_vmi_inject_event,
};

verus! {

/// A monitor-control request for arm64: which event to enable/disable.
///
/// Only `Sysreg` carries arch-specific data; the others use the zeroed
/// control data.
#[derive(Debug, Clone, Copy)]
pub enum KvmControl {
    /// Single-step trap interception.
    Singlestep,

    /// Guest hypercall interception.
    Hypercall,

    /// Memory-access (stage-2 fault) interception.
    MemAccess,

    /// Software-breakpoint (`BRK`) interception.
    Breakpoint,

    /// System-register write interception (e.g. `TTBR0_EL1`).
    Sysreg {
        /// `KVM_VMI_SYSREG_*` register index.
        reg: u32,

        /// Deliver only when the value changes.
        onchangeonly: bool,

        /// Fire only when `((old ^ new) & bitmask) != 0`. A `0` mask fires on
        /// any change.
        bitmask: u64,
    },
}

/// The `KVM_VMI_EVENT_*` id that a control targets.
pub open spec fn control_event_id(c: KvmControl) -> u32 {
    match c {
        KvmControl::Singlestep => KVM_VMI_EVENT_SINGLESTEP,
        KvmControl::Hypercall => KVM_VMI_EVENT_HYPERCALL,
        KvmControl::MemAccess => KVM_VMI_EVENT_MEM_ACCESS,
        KvmControl::Breakpoint => KVM_VMI_EVENT_BREAKPOINT,
        KvmControl::Sysreg { .. } => KVM_VMI_EVENT_SYSREG,
    }
}

/// Control data with every byte zero.
pub open spec fn zero_control_data() -> kvm_vmi_arch_control_data {
    kvm_vmi_arch_control_data {
        sysreg: kvm_vmi_control_sysreg { reg: 0, onchangeonly: 0, pad: [0u8, 0, 0, 0, 0, 0], bitmask: 0 },
    }
}

/// The arch control data of a control: for `Sysreg`, the register index
/// narrowed to a byte, the on-change flag as 0 or 1, zero padding and the
/// bitmask; zero for every other control.
pub open spec fn control_data(c: KvmControl) -> kvm_vmi_arch_control_data {
    match c {
        KvmControl::Sysreg { reg, onchangeonly, bitmask } => kvm_vmi_arch_control_data {
            sysreg: kvm_vmi_control_sysreg {
                reg: reg as u8,
                onchangeonly: if onchangeonly { 1 } else { 0 },
                pad: [0u8, 0, 0, 0, 0, 0],
                bitmask,
            },
        },
        _ => zero_control_data(),
    }
}

impl KvmControl {
    /// Returns the `KVM_VMI_EVENT_*` id this control targets.
    pub fn event_id(&self) -> (r: u32)
        ensures
            r == control_event_id(*self),
    {
        match self {
            KvmControl::Singlestep => KVM_VMI_EVENT_SINGLESTEP,
            KvmControl::Hypercall => KVM_VMI_EVENT_HYPERCALL,
            KvmControl::MemAccess => KVM_VMI_EVENT_MEM_ACCESS,
            KvmControl::Breakpoint => KVM_VMI_EVENT_BREAKPOINT,
            KvmControl::Sysreg { .. } => KVM_VMI_EVENT_SYSREG,
        }
    }

    /// Returns the arch control data for this control. Only `Sysreg` carries
    /// arch-specific data, so every other control returns zeroed data.
    pub fn arch_data(&self) -> (r: kvm_vmi_arch_control_data)
        ensures
            r == control_data(*self),
    {
        match self {
            KvmControl::Sysreg { reg, onchangeonly, bitmask } => kvm_vmi_arch_control_data {
                sysreg: kvm_vmi_control_sysreg {
                    reg: *reg as u8,
                    onchangeonly: if *onchangeonly { 1 } else { 0 },
                    pad: [0u8, 0, 0, 0, 0, 0],
                    bitmask: *bitmask,
                },
            },
            _ => kvm_vmi_arch_control_data {
                sysreg: kvm_vmi_control_sysreg {
                    reg: 0,
                    onchangeonly: 0,
                    pad: [0u8, 0, 0, 0, 0, 0],
                    bitmask: 0,
                },
            },
        }
    }

    /// Builds the argument of the monitor-control ioctl that enables
    /// (`enable`) or disables this control.
    pub fn to_sys(&self, enable: bool) -> (r: kvm_vmi_control_event)
        ensures
            r.event == control_event_id(*self),
            r.enable == (if enable { 1u32 } else { 0u32 }),
            r.arch == control_data(*self),
    {
        kvm_vmi_control_event {
            event: self.event_id(),
            enable: if enable { 1 } else { 0 },
            arch: self.arch_data(),
        }
    }
}

/// arm64 inject-event type: SError or synchronous abort.
#[derive(Debug, Clone, Copy)]
pub enum KvmInjectType {
    /// SError interrupt (`KVM_VMI_INJECT_SERROR`).
    Serror,

    /// Synchronous abort (`KVM_VMI_INJECT_ABORT`).
    Abort,
}

/// The `KVM_VMI_INJECT_*` constant of an injection type.
pub open spec fn inject_type_code(t: KvmInjectType) -> u32 {
    match t {
        KvmInjectType::Serror => KVM_VMI_INJECT_SERROR,
        KvmInjectType::Abort => KVM_VMI_INJECT_ABORT,
    }
}

impl KvmInjectType {
    /// Returns the `KVM_VMI_INJECT_*` encoding for this type.
    pub fn encode(self) -> (r: u32)
        ensures
            r == inject_type_code(self),
    {
        match self {
            KvmInjectType::Serror => KVM_VMI_INJECT_SERROR,
            KvmInjectType::Abort => KVM_VMI_INJECT_ABORT,
        }
    }
}

/// An event to inject into a vCPU (SError or synchronous abort).
#[derive(Debug, Clone, Copy)]
pub struct KvmInjectEvent {
    /// Target vCPU.
    pub vcpu_id: u32,

    /// Injection type.
    pub type_: KvmInjectType,

    /// Fault address for synchronous aborts.
    pub addr: u64,

    /// Exception syndrome register value.
    pub esr: u64,

    /// True for instruction aborts.
    pub iabt: bool,

    /// True when `esr` is valid.
    pub has_esr: bool,

    /// Fault status code.
    pub fsc: u8,

    /// True for write faults.
    pub write: bool,
}

/// A flag as the byte 0 or 1.
pub open spec fn flag_byte(b: bool) -> u8 {
    if b { 1 } else { 0 }
}

/// The uAPI inject-event record of an injection request: every flag as 0 or 1
/// and zero padding.
pub open spec fn inject_to_sys(e: KvmInjectEvent) -> kvm_vmi_inject_event {
    kvm_vmi_inject_event {
        vcpu_id: e.vcpu_id,
        type_: inject_type_code(e.type_),
        addr: e.addr,
        esr: e.esr,
        iabt: flag_byte(e.iabt),
        has_esr: flag_byte(e.has_esr),
        fsc: e.fsc,
        write: flag_byte(e.write),
        pad: [0u8, 0, 0, 0],
    }
}

impl KvmInjectEvent {
    /// Lowers to the uAPI inject-event record.
    pub fn to_sys(self) -> (r: kvm_vmi_inject_event)
        ensures
            r == inject_to_sys(self),
    {
        kvm_vmi_inject_event {
            vcpu_id: self.vcpu_id,
            type_: self.type_.encode(),
            addr: self.addr,
            esr: self.esr,
            iabt: if self.iabt { 1 } else { 0 },
            has_esr: if self.has_esr { 1 } else { 0 },
            fsc: self.fsc,
            write: if self.write { 1 } else { 0 },
            pad: [0u8, 0, 0, 0],
        }
    }
}

} // verus!

verus! {

/// A slot of the type an arm64 control enables decodes to the reason of the
/// control's own kind.
pub proof fn lemma_control_event_matches_kind(c: KvmControl, slot: super::sys::kvm_vmi_ring_event)
    requires
        slot.type_ == control_event_id(c),
    ensures
        c is Singlestep ==> (super::event::slot_reason(slot) matches Some(
            crate::event::KvmEventReason::Singlestep(_),
        )),
        c is Hypercall ==> (super::event::slot_reason(slot) matches Some(
            crate::event::KvmEventReason::Hypercall,
        )),
        c is MemAccess ==> (super::event::slot_reason(slot) matches Some(
            crate::event::KvmEventReason::MemAccess(_),
        )),
        c is Breakpoint ==> (super::event::slot_reason(slot) matches Some(
            crate::event::KvmEventReason::ArchArm64(super::event::KvmEventReasonArm64::Breakpoint(_)),
        )),
        c is Sysreg ==> (super::event::slot_reason(slot) matches Some(
            crate::event::KvmEventReason::ArchArm64(super::event::KvmEventReasonArm64::Sysreg(_)),
        )),
{
}

/// A system-register control carries the register index (its low byte), the
/// on-change flag as 1 exactly when set (else 0), zero padding and the
/// bitmask; every other control carries zero data.
pub proof fn lemma_control_data_fields(c: KvmControl)
    ensures
        c matches KvmControl::Sysreg { reg, onchangeonly, bitmask } ==> ({
            let s = control_data(c).sysreg;
            &&& s.reg == reg as u8
            &&& (s.onchangeonly == 1) == onchangeonly
            &&& s.onchangeonly <= 1
            &&& s.pad == [0u8, 0, 0, 0, 0, 0]
            &&& s.bitmask == bitmask
        }),
        !(c is Sysreg) ==> control_data(c).sysreg == (kvm_vmi_control_sysreg {
            reg: 0,
            onchangeonly: 0,
            pad: [0u8, 0, 0, 0, 0, 0],
            bitmask: 0,
        }),
{
}

/// An injection request carries the vCPU, address, syndrome and fault status
/// code as given, the type named after its kind, each flag as the byte 1
/// exactly when it is set (else 0), and zero padding.
pub proof fn lemma_inject_fields(e: KvmInjectEvent)
    ensures
        inject_to_sys(e).vcpu_id == e.vcpu_id,
        inject_to_sys(e).addr == e.addr,
        inject_to_sys(e).esr == e.esr,
        inject_to_sys(e).fsc == e.fsc,
        (inject_to_sys(e).iabt == 1) == e.iabt,
        inject_to_sys(e).iabt <= 1,
        (inject_to_sys(e).has_esr == 1) == e.has_esr,
        inject_to_sys(e).has_esr <= 1,
        (inject_to_sys(e).write == 1) == e.write,
        inject_to_sys(e).write <= 1,
        inject_to_sys(e).pad == [0u8, 0, 0, 0],
        e.type_ is Serror ==> inject_to_sys(e).type_ == KVM_VMI_INJECT_SERROR,
        e.type_ is Abort ==> inject_to_sys(e).type_ == KVM_VMI_INJECT_ABORT,
{
}

} // verus!
