use kvm::access::MemAccess;
use kvm::arch::x86::sys::{
    kvm_debugregs, kvm_segment, kvm_vmi_event_cr, kvm_vmi_event_io, kvm_vmi_event_msr,
    kvm_vmi_regs, kvm_vmi_ring_event, kvm_vmi_segment,
};
use kvm::arch::x86::{
    cr_from_index, decode_event, ControlDataArm, KvmControl, KvmCr, KvmEventReasonX86, KvmInjectEvent,
    KvmInjectType, KvmSegment, KvmVmiRegsX86, Msrs, Registers,
};
use kvm::arch::x86::regs::{MSR_EFER, MSR_TSC_AUX};
use kvm::event::{KvmEventReason, KvmVmiRegs};
use kvm::error::KvmError;
use kvm::uapi::{
    kvm_vmi_event_mem_access, KVM_VMI_ACCESS_R, KVM_VMI_ACCESS_X, KVM_VMI_CR0, KVM_VMI_CR3,
    KVM_VMI_CR4, KVM_VMI_EVENT_CR, KVM_VMI_EVENT_IO, KVM_VMI_EVENT_MEM_ACCESS, KVM_VMI_EVENT_MSR,
    KVM_VMI_EVENT_TYPE_HW_EXCEPT, KVM_VMI_EVENT_TYPE_SW_EXCEPT, KVM_VMI_XCR0,
};

fn empty_slot() -> kvm_vmi_ring_event {
    kvm_vmi_ring_event::default()
}

#[test]
fn cr_control_sets_index_and_onchange() {
    for (reg, expected) in [
        (KvmCr::Cr0, KVM_VMI_CR0),
        (KvmCr::Cr3, KVM_VMI_CR3),
        (KvmCr::Cr4, KVM_VMI_CR4),
        (KvmCr::Xcr0, KVM_VMI_XCR0),
    ] {
        let c = KvmControl::Cr { reg, on_change_only: true };
        assert_eq!(c.event_id(), KVM_VMI_EVENT_CR);
        let arch = c.arch_data();
        assert_eq!(arch.cr.index as u32, expected);
        assert_eq!(arch.cr.onchangeonly, 1);
    }
}

#[test]
fn msr_control_sets_msr_arm_only() {
    let c = KvmControl::Msr(0xc000_0082);
    let sys = c.to_sys(true);
    assert_eq!(sys.event, KVM_VMI_EVENT_MSR);
    assert_eq!(sys.enable, 1);
    assert_eq!(sys.arch.msr.msr, 0xc000_0082);
    // The model keeps each arm apart; in the C union the CR bytes alias the
    // MSR index, and only the MSR arm is handed to the kernel.
    assert_eq!(sys.arch.cr.index, 0);
    assert_eq!(sys.arch.cr.onchangeonly, 0);
    let off = KvmControl::Io.to_sys(false);
    assert_eq!(off.event, KVM_VMI_EVENT_IO);
    assert_eq!(off.enable, 0);
    assert_eq!(off.arch.msr.msr, 0);
}

#[test]
fn cr_index_round_trips() {
    for reg in [KvmCr::Cr0, KvmCr::Cr3, KvmCr::Cr4, KvmCr::Xcr0] {
        assert_eq!(cr_from_index(reg.index()), Some(reg));
    }
    assert_eq!(cr_from_index(1), None);
}

#[test]
fn inject_without_error_code_clears_has_error() {
    let e = KvmInjectEvent {
        vcpu_id: 1,
        vector: 3,
        type_: KvmInjectType::SwExcept,
        insn_len: 1,
        error_code: None,
        cr2: 0,
    };
    let sys = e.to_sys();
    assert_eq!(sys.has_error, 0);
    assert_eq!(sys.error_code, 0);
    assert_eq!(sys.type_ as u32, KVM_VMI_EVENT_TYPE_SW_EXCEPT);
}

#[test]
fn inject_with_error_code_sets_has_error() {
    let e = KvmInjectEvent {
        vcpu_id: 0,
        vector: 14,
        type_: KvmInjectType::HwExcept,
        insn_len: 0,
        error_code: Some(6),
        cr2: 0xdead_0000,
    };
    let sys = e.to_sys();
    assert_eq!(sys.has_error, 1);
    assert_eq!(sys.error_code, 6);
    assert_eq!(sys.cr2, 0xdead_0000);
    assert_eq!(sys.vector, 14);
    assert_eq!(sys.type_ as u32, KVM_VMI_EVENT_TYPE_HW_EXCEPT);
}

#[test]
fn inject_types_use_vmcs_encoding() {
    assert_eq!(KvmInjectType::ExtInt.encode(), 0);
    assert_eq!(KvmInjectType::Nmi.encode(), 2);
    assert_eq!(KvmInjectType::HwExcept.encode(), 3);
    assert_eq!(KvmInjectType::SwInt.encode(), 4);
    assert_eq!(KvmInjectType::PrivSwInt.encode(), 5);
    assert_eq!(KvmInjectType::SwExcept.encode(), 6);
}

#[test]
fn decodes_cr_write() {
    let mut slot = empty_slot();
    slot.type_ = KVM_VMI_EVENT_CR;
    slot.vcpu_id = 2;
    slot.data.arch.cr = kvm_vmi_event_cr {
        index: KVM_VMI_CR3,
        pad: 0,
        old_value: 0x1000,
        new_value: 0x2000,
    };
    let ev = decode_event(&slot).unwrap();
    assert_eq!(ev.vcpu_id, 2);
    assert!(matches!(ev.regs, KvmVmiRegs::X86(_)));
    match ev.reason {
        KvmEventReason::Arch(KvmEventReasonX86::WriteCr(cr)) => {
            assert_eq!(cr.index, KvmCr::Cr3);
            assert_eq!(cr.old, 0x1000);
            assert_eq!(cr.new, 0x2000);
        }
        other => panic!("wrong reason: {other:?}"),
    }
}

#[test]
fn unknown_cr_index_errors() {
    let mut slot = empty_slot();
    slot.type_ = KVM_VMI_EVENT_CR;
    slot.data.arch.cr.index = 7;
    match decode_event(&slot) {
        Err(KvmError::Other(m)) => assert_eq!(m, "unknown CR index in event"),
        other => panic!("wrong result: {other:?}"),
    }
}

#[test]
fn event_decodes_mem_access() {
    let mut slot = empty_slot();
    slot.type_ = KVM_VMI_EVENT_MEM_ACCESS;
    slot.data.mem_access = kvm_vmi_event_mem_access {
        gpa: 0xdead000,
        access: KVM_VMI_ACCESS_R | KVM_VMI_ACCESS_X,
        pad: 0,
    };
    match decode_event(&slot).unwrap().reason {
        KvmEventReason::MemAccess(m) => {
            assert_eq!(m.gpa, 0xdead000);
            assert!(m.access.contains(MemAccess::read().union(MemAccess::execute())));
        }
        other => panic!("wrong reason: {other:?}"),
    }
}

#[test]
fn decodes_msr_and_io() {
    let mut slot = empty_slot();
    slot.type_ = KVM_VMI_EVENT_MSR;
    slot.data.arch.msr = kvm_vmi_event_msr {
        index: 0xc000_0080,
        pad: 0,
        old_value: 1,
        new_value: 0x501,
    };
    match decode_event(&slot).unwrap().reason {
        KvmEventReason::Arch(KvmEventReasonX86::WriteMsr(m)) => {
            assert_eq!(m.index, 0xc000_0080);
            assert_eq!(m.old, 1);
            assert_eq!(m.new, 0x501);
        }
        other => panic!("wrong reason: {other:?}"),
    }
    let mut slot = empty_slot();
    slot.type_ = KVM_VMI_EVENT_IO;
    slot.data.arch.io = kvm_vmi_event_io { port: 0x3f8, bytes: 1, in_: 0, string: 2 };
    match decode_event(&slot).unwrap().reason {
        KvmEventReason::Arch(KvmEventReasonX86::Io(io)) => {
            assert_eq!(io.port, 0x3f8);
            assert_eq!(io.bytes, 1);
            assert!(!io.in_);
            assert!(io.string);
        }
        other => panic!("wrong reason: {other:?}"),
    }
}

#[test]
fn event_unknown_type_errors() {
    let mut slot = empty_slot();
    slot.type_ = 0xffff_ffff;
    assert!(decode_event(&slot).is_err());
}

#[test]
fn event_regs_round_trip() {
    let sys = kvm_vmi_regs {
        rax: 0x1122_3344,
        rip: 0xdead_beef,
        cr3: 0x5000,
        xcr0: 0x7,
        msr_lstar: 0xffff_8000_0000_0000,
        cs: kvm_vmi_segment { base: 0, limit: 0xfffff, selector: 0x10, ar: 0xa09b },
        ..Default::default()
    };
    let native = KvmVmiRegsX86::from(&sys);
    assert_eq!(native.rax, 0x1122_3344);
    assert_eq!(native.rip, 0xdead_beef);
    assert_eq!(native.cr3, 0x5000);
    assert_eq!(native.xcr0, 0x7);
    assert_eq!(native.msr_lstar, 0xffff_8000_0000_0000);
    assert_eq!(native.cs.ar, 0xa09b);
    let back = kvm_vmi_regs::from(&native);
    assert_eq!(back.rax, sys.rax);
    assert_eq!(back.rip, sys.rip);
    assert_eq!(back.cr3, sys.cr3);
    assert_eq!(back.xcr0, sys.xcr0);
    assert_eq!(back.msr_lstar, sys.msr_lstar);
    assert_eq!(back.cs.limit, sys.cs.limit);
    assert_eq!(back.cs.selector, sys.cs.selector);
    assert_eq!(back.cs.ar, sys.cs.ar);
    assert_eq!(back, sys);
}

#[test]
fn registers_default_is_zeroed() {
    let r = Registers::default();
    assert_eq!(r.rip, 0);
    assert_eq!(r.cs.base, 0);
}

#[test]
fn segment_maps_to_kvm_segment() {
    let s = KvmSegment {
        base: 0xffff,
        limit: 0xabcd,
        selector: 0x10,
        type_: 0xb,
        present: 1,
        dpl: 0,
        db: 0,
        s: 1,
        l: 1,
        g: 1,
        avl: 0,
    };
    let r = Registers { cs: s, ..Default::default() };
    let k: kvm_segment = r.to_kvm_sregs().cs;
    assert_eq!(k.base, s.base);
    assert_eq!(k.l, s.l);
    assert_eq!(k.type_, s.type_);
    assert_eq!(k.unusable, 0);
}

#[test]
fn set_then_get_keeps_written_fields() {
    let mut r = Registers::default();
    r.rax = 1;
    r.rip = 0x1000;
    r.cr3 = 0x3000;
    r.efer = 0x501;
    r.gdt.base = 0xfffe_0000;
    r.ds.selector = 0x18;
    r.db = [1, 2, 3, 4];
    r.lstar = 0x7777;
    let dregs = kvm_debugregs { db: [9, 9, 9, 9], dr6: 6, dr7: 7, flags: 0 };
    let msrs = Msrs { efer: 0xd01, lstar: 0x8888, ..Default::default() };
    let back = Registers::from_kvm(&r.to_kvm_regs(), &r.to_kvm_sregs(), &dregs, &msrs);
    assert_eq!(back.rax, 1);
    assert_eq!(back.rip, 0x1000);
    assert_eq!(back.cr3, 0x3000);
    assert_eq!(back.gdt.base, 0xfffe_0000);
    assert_eq!(back.ds.selector, 0x18);
    assert_eq!(back.db, [9, 9, 9, 9]);
    assert_eq!(back.dr6, 6);
    assert_eq!(back.efer, 0xd01);
    assert_eq!(back.lstar, 0x8888);
    assert_eq!(r.to_kvm_sregs().efer, 0x501);
}

#[test]
fn msr_request_lists_tracked_msrs() {
    let entries = Msrs::request_entries();
    assert_eq!(entries.len(), 10);
    assert_eq!(entries[0].index, MSR_EFER);
    assert_eq!(entries[9].index, MSR_TSC_AUX);
    for e in entries.iter() {
        assert_eq!(e.data, 0);
    }
    let mut filled = entries.clone();
    filled[0].data = 0x501;
    filled[2].data = 0xffff_8000_0000_1000;
    filled[9].data = 3;
    let m = Msrs::from_entries(&filled);
    assert_eq!(m.efer, 0x501);
    assert_eq!(m.lstar, 0xffff_8000_0000_1000);
    assert_eq!(m.tsc_aux, 3);
    assert_eq!(m.star, 0);
}

#[test]
fn control_request_selects_its_arm() {
    let cr = KvmControl::Cr { reg: KvmCr::Cr0, on_change_only: false }.to_sys(true);
    assert_eq!(cr.selected_arm(), ControlDataArm::Cr);
    let msr = KvmControl::Msr(0x10).to_sys(true);
    assert_eq!(msr.selected_arm(), ControlDataArm::Msr);
    let bp = KvmControl::Breakpoint.to_sys(true);
    assert_eq!(bp.selected_arm(), ControlDataArm::Zero);
    assert_eq!(bp.arch.cr.index, 0);
    assert_eq!(bp.arch.msr.msr, 0);
}
