//! x86 native monitor-control and event-injection parameters.

use vstd::prelude::*;
use crate::uapi::{
    KVM_VMI_CR0, KVM_VMI_CR3, KVM_VMI_CR4, KVM_VMI_XCR0, KVM_VMI_EVENT_BREAKPOINT,
    KVM_VMI_EVENT_CPUID, KVM_VMI_EVENT_CR, KVM_VMI_EVENT_DEBUG, KVM_VMI_EVENT_HYPERCALL,
    KVM_VMI_EVENT_IO, KVM_VMI_EVENT_MSR, KVM_VMI_EVENT_SINGLESTEP, KVM_VMI_EVENT_TYPE_EXT_INT,
    KVM_VMI_EVENT_TYPE_HW_EXCEPT, KVM_VMI_EVENT_TYPE_NMI, KVM_VMI_EVENT_TYPE_PRIV_SW_INT,
    KVM_VMI_EVENT_TYPE_SW_EXCEPT, KVM_VMI_EVENT_TYPE_SW_INT,
};
use super::event::{KvmCr, cr_of_index};
use super::sys::{
    kvm_vmi_arch_control_data, kvm_vmi_control_cr, kvm_vmi_control_event, kvm_vmi_control_msr,
    kvm_vmi_inject_event,
};

verus! {

/// The `KVM_VMI_CR*`/`XCR0` index constant of a control register.
pub open spec fn cr_index(reg: KvmCr) -> u32 {
    match reg {
        KvmCr::Cr0 => KVM_VMI_CR0,
        KvmCr::Cr3 => KVM_VMI_CR3,
        KvmCr::Cr4 => KVM_VMI_CR4,
        KvmCr::Xcr0 => KVM_VMI_XCR0,
    }
}

impl KvmCr {
    /// Returns the `KVM_VMI_CR*`/`XCR0` index constant for this register.
    pub fn index(self) -> (r: u32)
        ensures
            r == cr_index(self),
    {
        match self {
            KvmCr::Cr0 => KVM_VMI_CR0,
            KvmCr::Cr3 => KVM_VMI_CR3,
            KvmCr::Cr4 => KVM_VMI_CR4,
            KvmCr::Xcr0 => KVM_VMI_XCR0,
        }
    }
}

/// A monitor-control request: which event to enable/disable plus its params.
#[derive(Debug, Clone, Copy)]
pub enum KvmControl {
    /// Control-register write monitoring.
    Cr {
        /// Which control register.
        reg: KvmCr,

        /// Only report writes that change the value.
        on_change_only: bool,
    },

    /// MSR write monitoring for one MSR index.
    Msr(u32),

    /// CPUID interception.
    CpuId,

    /// I/O instruction interception.
    Io,

    /// Software breakpoint (INT3) interception.
    Breakpoint,

    /// Debug exception interception.
    Debug,

    /// Single-step trap interception.
    Singlestep,

    /// Guest hypercall interception.
    Hypercall,
}

/// The `KVM_VMI_EVENT_*` id that a control targets.
pub open spec fn control_event_id(c: KvmControl) -> u32 {
    match c {
        KvmControl::Cr { .. } => KVM_VMI_EVENT_CR,
        KvmControl::Msr(_) => KVM_VMI_EVENT_MSR,
        KvmControl::CpuId => KVM_VMI_EVENT_CPUID,
        KvmControl::Io => KVM_VMI_EVENT_IO,
        KvmControl::Breakpoint => KVM_VMI_EVENT_BREAKPOINT,
        KvmControl::Debug => KVM_VMI_EVENT_DEBUG,
        KvmControl::Singlestep => KVM_VMI_EVENT_SINGLESTEP,
        KvmControl::Hypercall => KVM_VMI_EVENT_HYPERCALL,
    }
}

/// Control data with every arm zero.
pub open spec fn zero_control_data() -> kvm_vmi_arch_control_data {
    kvm_vmi_arch_control_data {
        cr: kvm_vmi_control_cr { index: 0, onchangeonly: 0 },
        msr: kvm_vmi_control_msr { msr: 0 },
    }
}

/// The arch control data of a control: the CR arm carries the register index
/// (narrowed to a byte) and the on-change flag as 0 or 1, the MSR arm carries
/// the MSR index, and every other arm stays zero.
pub open spec fn control_data(c: KvmControl) -> kvm_vmi_arch_control_data {
    match c {
        KvmControl::Cr { reg, on_change_only } => kvm_vmi_arch_control_data {
            cr: kvm_vmi_control_cr {
                index: cr_index(reg) as u8,
                onchangeonly: if on_change_only { 1 } else { 0 },
            },
            ..zero_control_data()
        },
        KvmControl::Msr(msr) => kvm_vmi_arch_control_data {
            msr: kvm_vmi_control_msr { msr },
            ..zero_control_data()
        },
        _ => zero_control_data(),
    }
}

impl KvmControl {
    /// Returns the `KVM_VMI_EVENT_*` id this control targets.
    pub fn event_id(&self) -> (r: u32)
        ensures
            r == control_event_id(*self),
    {
        match self {
            KvmControl::Cr { .. } => KVM_VMI_EVENT_CR,
            KvmControl::Msr(_) => KVM_VMI_EVENT_MSR,
            KvmControl::CpuId => KVM_VMI_EVENT_CPUID,
            KvmControl::Io => KVM_VMI_EVENT_IO,
            KvmControl::Breakpoint => KVM_VMI_EVENT_BREAKPOINT,
            KvmControl::Debug => KVM_VMI_EVENT_DEBUG,
            KvmControl::Singlestep => KVM_VMI_EVENT_SINGLESTEP,
            KvmControl::Hypercall => KVM_VMI_EVENT_HYPERCALL,
        }
    }

    /// Returns the arch control data for this control.
    pub fn arch_data(&self) -> (r: kvm_vmi_arch_control_data)
        ensures
            r == control_data(*self),
    {
        let mut arch = kvm_vmi_arch_control_data {
            cr: kvm_vmi_control_cr { index: 0, onchangeonly: 0 },
            msr: kvm_vmi_control_msr { msr: 0 },
        };
        match self {
            KvmControl::Cr { reg, on_change_only } => {
                arch.cr.index = reg.index() as u8;
                arch.cr.onchangeonly = if *on_change_only { 1 } else { 0 };
            },
            KvmControl::Msr(msr) => {
                arch.msr.msr = *msr;
            },
            KvmControl::CpuId
            | KvmControl::Io
            | KvmControl::Breakpoint
            | KvmControl::Debug
            | KvmControl::Singlestep
            | KvmControl::Hypercall => {},
        }
        arch
    }

    /// Builds the argument of the monitor-control ioctl that enables
    /// (`enable`) or disables this control.
    pub fn to_sys(&self, enable: bool) -> (r: kvm_vmi_control_event)
        ensures
            r.event == control_event_id(*self),
            r.enable == (if enable { 1u32 } else { 0u32 }),
            r.arch == control_data(*self),
    {
        kvm_vmi_control_event {
            event: self.event_id(),
            enable: if enable { 1 } else { 0 },
            arch: self.arch_data(),
        }
    }
}

/// VMCS interruption-type encoding for event injection.
#[derive(Debug, Clone, Copy)]
pub enum KvmInjectType {
    /// External interrupt.
    ExtInt,

    /// Non-maskable interrupt.
    Nmi,

    /// Hardware exception.
    HwExcept,

    /// Software interrupt.
    SwInt,

    /// Privileged software exception (ICEBP).
    PrivSwInt,

    /// Software exception (INT3/INTO).
    SwExcept,
}

/// The VMCS interruption-type constant of an injection type.
pub open spec fn inject_type_code(t: KvmInjectType) -> u32 {
    match t {
        KvmInjectType::ExtInt => KVM_VMI_EVENT_TYPE_EXT_INT,
        KvmInjectType::Nmi => KVM_VMI_EVENT_TYPE_NMI,
        KvmInjectType::HwExcept => KVM_VMI_EVENT_TYPE_HW_EXCEPT,
        KvmInjectType::SwInt => KVM_VMI_EVENT_TYPE_SW_INT,
        KvmInjectType::PrivSwInt => KVM_VMI_EVENT_TYPE_PRIV_SW_INT,
        KvmInjectType::SwExcept => KVM_VMI_EVENT_TYPE_SW_EXCEPT,
    }
}

impl KvmInjectType {
    /// Returns the VMCS interruption-type encoding for this type, narrowed to
    /// a byte.
    pub fn encode(self) -> (r: u8)
        ensures
            r == inject_type_code(self) as u8,
    {
        let value = match self {
            KvmInjectType::ExtInt => KVM_VMI_EVENT_TYPE_EXT_INT,
            KvmInjectType::Nmi => KVM_VMI_EVENT_TYPE_NMI,
            KvmInjectType::HwExcept => KVM_VMI_EVENT_TYPE_HW_EXCEPT,
            KvmInjectType::SwInt => KVM_VMI_EVENT_TYPE_SW_INT,
            KvmInjectType::PrivSwInt => KVM_VMI_EVENT_TYPE_PRIV_SW_INT,
            KvmInjectType::SwExcept => KVM_VMI_EVENT_TYPE_SW_EXCEPT,
        };
        value as u8
    }
}

/// An event to inject into a vCPU (exception/interrupt/NMI).
#[derive(Debug, Clone, Copy)]
pub struct KvmInjectEvent {
    /// Target vCPU.
    pub vcpu_id: u32,

    /// Interrupt/exception vector.
    pub vector: u8,

    /// VMCS event-type encoding.
    pub type_: KvmInjectType,

    /// Faulting-instruction length (for software events).
    pub insn_len: u8,

    /// Error code, when the vector pushes one.
    pub error_code: Option<u32>,

    /// CR2 value for page-fault injection.
    pub cr2: u64,
}

/// The uAPI inject-event record of an injection request: an absent error code
/// is sent as 0 with `has_error` 0, a present one with `has_error` 1.
pub open spec fn inject_to_sys(e: KvmInjectEvent) -> kvm_vmi_inject_event {
    kvm_vmi_inject_event {
        vcpu_id: e.vcpu_id,
        vector: e.vector,
        type_: inject_type_code(e.type_) as u8,
        insn_len: e.insn_len,
        pad: 0,
        error_code: match e.error_code {
            Some(code) => code,
            None => 0,
        },
        has_error: if e.error_code is Some { 1 } else { 0 },
        cr2: e.cr2,
    }
}

impl KvmInjectEvent {
    /// Lowers to the uAPI inject-event record.
    pub fn to_sys(self) -> (r: kvm_vmi_inject_event)
        ensures
            r == inject_to_sys(self),
    {
        kvm_vmi_inject_event {
            vcpu_id: self.vcpu_id,
            vector: self.vector,
            type_: self.type_.encode(),
            insn_len: self.insn_len,
            pad: 0,
            error_code: match self.error_code {
                Some(code) => code,
                None => 0,
            },
            has_error: if self.error_code.is_some() { 1 } else { 0 },
            cr2: self.cr2,
        }
    }
}

} // verus!

verus! {

/// A control register's index constant maps back to that register, and an
/// index that maps to a register is that register's constant.
pub proof fn lemma_cr_index_round_trip(reg: KvmCr, index: u32)
    ensures
        cr_of_index(cr_index(reg)) == Some(reg),
        cr_of_index(index) == Some(reg) ==> cr_index(reg) == index,
{
}

/// Every event that an x86 control enables is one the x86 decoder reads: a
/// slot whose type is the control's event id decodes (for a CR control, when
/// the slot names a known control register), and a CR slot that names the
/// monitored register decodes to a write of that register.
pub proof fn lemma_controlled_events_decode(c: KvmControl, slot: super::sys::kvm_vmi_ring_event)
    requires
        slot.type_ == control_event_id(c),
        slot.type_ == KVM_VMI_EVENT_CR ==> cr_of_index(slot.data.arch.cr.index) is Some,
    ensures
        super::event::slot_reason(slot) is Some,
        c matches KvmControl::Cr { reg, .. } ==> (slot.data.arch.cr.index == cr_index(reg)
            ==> super::event::slot_reason(slot) == Some(crate::event::KvmEventReason::Arch(
            super::event::KvmEventReasonX86::WriteCr(super::event::KvmCrEvent {
                index: reg,
                old: slot.data.arch.cr.old_value,
                new: slot.data.arch.cr.new_value,
            }),
        ))),
{
}

} // verus!

verus! {

/// The arm of the x86 control data that a monitor-control request fills.
#[derive(Debug, Clone, Copy, PartialEq, Eq, Structural)]
pub enum ControlDataArm {
    /// No arm: the control data is all zero.
    Zero,

    /// The control-register arm.
    Cr,

    /// The MSR arm.
    Msr,
}

/// The arm that an event id selects.
pub open spec fn control_arm_of(event: u32) -> ControlDataArm {
    if event == KVM_VMI_EVENT_CR {
        ControlDataArm::Cr
    } else if event == KVM_VMI_EVENT_MSR {
        ControlDataArm::Msr
    } else {
        ControlDataArm::Zero
    }
}

impl kvm_vmi_control_event {
    /// Returns the control-data arm this request's event id selects: the only
    /// arm to hand to the kernel, where the arms share their bytes.
    pub fn selected_arm(&self) -> (r: ControlDataArm)
        ensures
            r == control_arm_of(self.event),
    {
        if self.event == KVM_VMI_EVENT_CR {
            ControlDataArm::Cr
        } else if self.event == KVM_VMI_EVENT_MSR {
            ControlDataArm::Msr
        } else {
            ControlDataArm::Zero
        }
    }
}

/// A control's data is zero outside the arm its event id selects, so handing
/// the kernel only that arm loses nothing.
pub proof fn lemma_control_data_in_selected_arm(c: KvmControl)
    ensures
        control_arm_of(control_event_id(c)) != ControlDataArm::Cr ==> control_data(c).cr
            == zero_control_data().cr,
        control_arm_of(control_event_id(c)) != ControlDataArm::Msr ==> control_data(c).msr
            == zero_control_data().msr,
{
}

} // verus!

verus! {

/// A slot of the type a control enables decodes to the reason of the
/// control's own kind: a CR control to a write of the monitored register (when
/// the slot names it), an MSR control to an MSR write, CPUID to CPUID, I/O to
/// I/O, breakpoint to breakpoint, debug to debug, single-step to single-step,
/// and hypercall to hypercall.
pub proof fn lemma_control_event_matches_kind(c: KvmControl, slot: super::sys::kvm_vmi_ring_event)
    requires
        slot.type_ == control_event_id(c),
    ensures
        c is CpuId ==> (super::event::slot_reason(slot) matches Some(
            crate::event::KvmEventReason::Arch(super::event::KvmEventReasonX86::CpuId(_)),
        )),
        c is Io ==> (super::event::slot_reason(slot) matches Some(
            crate::event::KvmEventReason::Arch(super::event::KvmEventReasonX86::Io(_)),
        )),
        c is Breakpoint ==> (super::event::slot_reason(slot) matches Some(
            crate::event::KvmEventReason::Arch(super::event::KvmEventReasonX86::Breakpoint(_)),
        )),
        c is Debug ==> (super::event::slot_reason(slot) matches Some(
            crate::event::KvmEventReason::Arch(super::event::KvmEventReasonX86::Debug(_)),
        )),
        c is Singlestep ==> (super::event::slot_reason(slot) matches Some(
            crate::event::KvmEventReason::Singlestep(_),
        )),
        c is Hypercall ==> (super::event::slot_reason(slot) matches Some(
            crate::event::KvmEventReason::Hypercall,
        )),
        c is Msr ==> (super::event::slot_reason(slot) matches Some(
            crate::event::KvmEventReason::Arch(super::event::KvmEventReasonX86::WriteMsr(_)),
        )),
        c matches KvmControl::Cr { reg, .. } ==> (slot.data.arch.cr.index == cr_index(reg) ==> (
        super::event::slot_reason(slot) matches Some(
            crate::event::KvmEventReason::Arch(super::event::KvmEventReasonX86::WriteCr(e)),
        ) && e.index == reg)),
{
}

/// A control register's index is the `KVM_VMI_CR*` constant named after it.
pub proof fn lemma_cr_index_names_register(reg: KvmCr)
    ensures
        reg == KvmCr::Cr0 ==> cr_index(reg) == KVM_VMI_CR0,
        reg == KvmCr::Cr3 ==> cr_index(reg) == KVM_VMI_CR3,
        reg == KvmCr::Cr4 ==> cr_index(reg) == KVM_VMI_CR4,
        reg == KvmCr::Xcr0 ==> cr_index(reg) == KVM_VMI_XCR0,
{
}

/// A CR control carries the register's index and its on-change flag as 1
/// exactly when set (else 0); an MSR control carries the MSR index; the arm a
/// control does not use stays zero.
pub proof fn lemma_control_data_fields(c: KvmControl)
    ensures
        c matches KvmControl::Cr { reg, on_change_only } ==> ({
            let d = control_data(c);
            &&& d.cr.index == cr_index(reg) as u8
            &&& (d.cr.onchangeonly == 1) == on_change_only
            &&& d.cr.onchangeonly <= 1
            &&& d.msr.msr == 0
        }),
        c matches KvmControl::Msr(m) ==> ({
            let d = control_data(c);
            &&& d.msr.msr == m
            &&& d.cr.index == 0
            &&& d.cr.onchangeonly == 0
        }),
        !(c is Cr) && !(c is Msr) ==> control_data(c) == (kvm_vmi_arch_control_data {
            cr: kvm_vmi_control_cr { index: 0, onchangeonly: 0 },
            msr: kvm_vmi_control_msr { msr: 0 },
        }),
{
}

/// An injection request carries the vCPU, vector, instruction length and CR2
/// as given, the interruption type named after its kind, `has_error` 1 with
/// the error code when one is given and `has_error` 0 with code 0 when none is.
pub proof fn lemma_inject_fields(e: KvmInjectEvent)
    ensures
        inject_to_sys(e).vcpu_id == e.vcpu_id,
        inject_to_sys(e).vector == e.vector,
        inject_to_sys(e).insn_len == e.insn_len,
        inject_to_sys(e).cr2 == e.cr2,
        inject_to_sys(e).pad == 0,
        (inject_to_sys(e).has_error == 1) == (e.error_code is Some),
        inject_to_sys(e).has_error <= 1,
        e.error_code matches Some(code) ==> inject_to_sys(e).error_code == code,
        e.error_code is None ==> inject_to_sys(e).error_code == 0,
        e.type_ is ExtInt ==> inject_to_sys(e).type_ as u32 == KVM_VMI_EVENT_TYPE_EXT_INT,
        e.type_ is Nmi ==> inject_to_sys(e).type_ as u32 == KVM_VMI_EVENT_TYPE_NMI,
        e.type_ is HwExcept ==> inject_to_sys(e).type_ as u32 == KVM_VMI_EVENT_TYPE_HW_EXCEPT,
        e.type_ is SwInt ==> inject_to_sys(e).type_ as u32 == KVM_VMI_EVENT_TYPE_SW_INT,
        e.type_ is PrivSwInt ==> inject_to_sys(e).type_ as u32 == KVM_VMI_EVENT_TYPE_PRIV_SW_INT,
        e.type_ is SwExcept ==> inject_to_sys(e).type_ as u32 == KVM_VMI_EVENT_TYPE_SW_EXCEPT,
{
}

} // verus!
