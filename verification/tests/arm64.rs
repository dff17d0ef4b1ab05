use kvm::arch::arm64::sys::{
    kvm_vmi_event_breakpoint, kvm_vmi_event_sysreg, kvm_vmi_inject_event, kvm_vmi_regs,
    kvm_vmi_ring_event,
};
use kvm::arch::arm64::{
    decode_event, core_reg_id, register_ids, sysreg_id, CoreReg, KvmControl, KvmEventReasonArm64,
    KvmInjectEvent, KvmInjectType, KvmVmiRegsArm64, Registers, CONTEXTIDR_EL1, ESR_EL1, FAR_EL1,
    MAIR_EL1, SCTLR_EL1, TCR_EL1, TPIDRRO_EL0, TPIDR_EL0, TPIDR_EL1, TTBR0_EL1, TTBR1_EL1,
    VBAR_EL1,
};
use kvm::event::{KvmEventReason, KvmVmiRegs};
use kvm::uapi::{
    kvm_vmi_event_mem_access, kvm_vmi_event_singlestep, KVM_VMI_ACCESS_R, KVM_VMI_ACCESS_X,
    KVM_VMI_EVENT_BREAKPOINT, KVM_VMI_EVENT_HYPERCALL, KVM_VMI_EVENT_MEM_ACCESS,
    KVM_VMI_EVENT_SINGLESTEP, KVM_VMI_EVENT_SYSREG, KVM_VMI_INJECT_ABORT, KVM_VMI_INJECT_SERROR,
    KVM_VMI_SYSREG_TTBR0_EL1,
};
use kvm::access::MemAccess;

fn empty_slot() -> kvm_vmi_ring_event {
    kvm_vmi_ring_event::default()
}

#[test]
fn kvm_vmi_regs_layout() {
    let r = kvm_vmi_regs::default();
    assert_eq!(r.regs.len(), 31);
    assert_eq!(std::mem::size_of::<kvm_vmi_regs>(), 392);
}

#[test]
fn kvm_vmi_inject_event_present() {
    let e = kvm_vmi_inject_event::default();
    assert_eq!(e.type_, 0);
}

#[test]
fn breakpoint_control_targets_breakpoint_event() {
    assert_eq!(KvmControl::Breakpoint.event_id(), KVM_VMI_EVENT_BREAKPOINT);
}

#[test]
fn sysreg_control_targets_sysreg_event() {
    let c = KvmControl::Sysreg {
        reg: KVM_VMI_SYSREG_TTBR0_EL1,
        onchangeonly: true,
        bitmask: 0,
    };
    assert_eq!(c.event_id(), KVM_VMI_EVENT_SYSREG);
    let s = c.arch_data().sysreg;
    assert_eq!(u32::from(s.reg), KVM_VMI_SYSREG_TTBR0_EL1);
    assert_eq!(s.onchangeonly, 1);
}

#[test]
fn sysreg_control_carries_bitmask_and_zero_padding() {
    let c = KvmControl::Sysreg { reg: 2, onchangeonly: false, bitmask: 0xff00 };
    let sys = c.to_sys(true);
    assert_eq!(sys.event, KVM_VMI_EVENT_SYSREG);
    assert_eq!(sys.enable, 1);
    assert_eq!(sys.arch.sysreg.reg, 2);
    assert_eq!(sys.arch.sysreg.onchangeonly, 0);
    assert_eq!(sys.arch.sysreg.pad, [0u8; 6]);
    assert_eq!(sys.arch.sysreg.bitmask, 0xff00);
}

#[test]
fn other_controls_have_zero_data() {
    for (c, id) in [
        (KvmControl::Singlestep, KVM_VMI_EVENT_SINGLESTEP),
        (KvmControl::Hypercall, KVM_VMI_EVENT_HYPERCALL),
        (KvmControl::MemAccess, KVM_VMI_EVENT_MEM_ACCESS),
        (KvmControl::Breakpoint, KVM_VMI_EVENT_BREAKPOINT),
    ] {
        let sys = c.to_sys(false);
        assert_eq!(sys.event, id);
        assert_eq!(sys.enable, 0);
        assert_eq!(sys.arch.sysreg.reg, 0);
        assert_eq!(sys.arch.sysreg.onchangeonly, 0);
        assert_eq!(sys.arch.sysreg.bitmask, 0);
    }
}

#[test]
fn inject_serror_encodes_type() {
    let e = KvmInjectEvent {
        vcpu_id: 0,
        type_: KvmInjectType::Serror,
        addr: 0,
        esr: 0,
        iabt: false,
        has_esr: false,
        fsc: 0,
        write: false,
    };
    let sys = e.to_sys();
    assert_eq!(sys.type_, KVM_VMI_INJECT_SERROR);
    assert_eq!(sys.has_esr, 0);
}

#[test]
fn inject_abort_with_esr() {
    let e = KvmInjectEvent {
        vcpu_id: 1,
        type_: KvmInjectType::Abort,
        addr: 0xdead_0000,
        esr: 0x9200_0007,
        iabt: false,
        has_esr: true,
        fsc: 7,
        write: true,
    };
    let sys = e.to_sys();
    assert_eq!(sys.type_, KVM_VMI_INJECT_ABORT);
    assert_eq!(sys.addr, 0xdead_0000);
    assert_eq!(sys.esr, 0x9200_0007);
    assert_eq!(sys.has_esr, 1);
    assert_eq!(sys.fsc, 7);
    assert_eq!(sys.write, 1);
}

#[test]
fn event_decodes_mem_access_arm64() {
    let mut slot = empty_slot();
    slot.type_ = KVM_VMI_EVENT_MEM_ACCESS;
    slot.data.mem_access = kvm_vmi_event_mem_access {
        gpa: 0xdead000,
        access: KVM_VMI_ACCESS_R | KVM_VMI_ACCESS_X,
        pad: 0,
    };
    match decode_event(&slot).unwrap().reason {
        KvmEventReason::MemAccess(m) => {
            assert_eq!(m.gpa, 0xdead000);
            assert!(m.access.contains(MemAccess::read().union(MemAccess::execute())));
        }
        other => panic!("wrong reason: {other:?}"),
    }
}

#[test]
fn decodes_breakpoint() {
    let mut slot = empty_slot();
    slot.type_ = KVM_VMI_EVENT_BREAKPOINT;
    slot.data.arch.breakpoint = kvm_vmi_event_breakpoint { ipa: 0xcafe000, imm: 0, pad: 0 };
    match decode_event(&slot).unwrap().reason {
        KvmEventReason::ArchArm64(KvmEventReasonArm64::Breakpoint(bp)) => {
            assert_eq!(bp.gpa, 0xcafe000);
        }
        other => panic!("wrong reason: {other:?}"),
    }
}

#[test]
fn decodes_sysreg() {
    let mut slot = empty_slot();
    slot.type_ = KVM_VMI_EVENT_SYSREG;
    slot.data.arch.sysreg = kvm_vmi_event_sysreg {
        reg: KVM_VMI_SYSREG_TTBR0_EL1,
        pad: 0,
        old_value: 0x1000,
        new_value: 0x2000,
    };
    match decode_event(&slot).unwrap().reason {
        KvmEventReason::ArchArm64(KvmEventReasonArm64::Sysreg(sr)) => {
            assert_eq!(sr.reg, u64::from(KVM_VMI_SYSREG_TTBR0_EL1));
            assert_eq!(sr.old_value, 0x1000);
            assert_eq!(sr.new_value, 0x2000);
        }
        other => panic!("wrong reason: {other:?}"),
    }
}

#[test]
fn event_unknown_type_errors_arm64() {
    let mut slot = empty_slot();
    slot.type_ = 0xffff_ffff;
    assert!(decode_event(&slot).is_err());
}

#[test]
fn event_regs_round_trip_arm64() {
    let mut sys = kvm_vmi_regs::default();
    sys.regs[0] = 0x1122_3344;
    sys.pc = 0xdead_beef;
    sys.ttbr0_el1 = 0x5000;
    let native = KvmVmiRegsArm64::from(&sys);
    assert_eq!(native.regs[0], 0x1122_3344);
    assert_eq!(native.pc, 0xdead_beef);
    assert_eq!(native.ttbr0_el1, 0x5000);
    let back = kvm_vmi_regs::from(&native);
    assert_eq!(back.regs[0], sys.regs[0]);
    assert_eq!(back.pc, sys.pc);
    assert_eq!(back.ttbr0_el1, sys.ttbr0_el1);
    assert_eq!(back, sys);
}

#[test]
fn decodes_singlestep() {
    let mut slot = empty_slot();
    slot.type_ = KVM_VMI_EVENT_SINGLESTEP;
    slot.data.singlestep = kvm_vmi_event_singlestep { gpa: 0xc000 };
    let ev = decode_event(&slot).unwrap();
    assert!(matches!(ev.regs, KvmVmiRegs::Arm64(_)));
    match ev.reason {
        KvmEventReason::Singlestep(ss) => assert_eq!(ss.gpa, 0xc000),
        other => panic!("wrong reason: {other:?}"),
    }
}

#[test]
fn decodes_hypercall_with_header_fields() {
    let mut slot = empty_slot();
    slot.type_ = KVM_VMI_EVENT_HYPERCALL;
    slot.vcpu_id = 3;
    slot.view_id = 2;
    slot.insn_len = 4;
    let ev = decode_event(&slot).unwrap();
    assert_eq!(ev.vcpu_id, 3);
    assert_eq!(ev.view_id, 2);
    assert_eq!(ev.insn_len, 4);
    assert!(matches!(ev.reason, KvmEventReason::Hypercall));
}

#[test]
fn core_reg_ids() {
    assert_eq!(core_reg_id(CoreReg::X(0)), 0x6030000000100000);
    assert_eq!(core_reg_id(CoreReg::X(30)), 0x603000000010003c);
    assert_eq!(core_reg_id(CoreReg::Sp), 0x603000000010003e);
    assert_eq!(core_reg_id(CoreReg::Pc), 0x6030000000100040);
    assert_eq!(core_reg_id(CoreReg::Pstate), 0x6030000000100042);
    assert_eq!(core_reg_id(CoreReg::SpEl1), 0x6030000000100044);
    assert_eq!(core_reg_id(CoreReg::ElrEl1), 0x6030000000100046);
    assert_eq!(core_reg_id(CoreReg::SpsrEl1), 0x6030000000100048);
}

#[test]
fn sysreg_ids() {
    assert_eq!(sysreg_id(3, 0, 2, 0, 0), 0x603000000013c100); // TTBR0_EL1
    assert_eq!(sysreg_id(3, 0, 12, 0, 0), 0x603000000013c600); // VBAR_EL1
    assert_eq!(sysreg_id(3, 3, 13, 0, 2), 0x603000000013de82); // TPIDR_EL0
}

#[test]
fn sysreg_constants_match_encodings() {
    assert_eq!(TTBR0_EL1, sysreg_id(3, 0, 2, 0, 0));
    assert_eq!(TTBR1_EL1, sysreg_id(3, 0, 2, 0, 1));
    assert_eq!(TCR_EL1, sysreg_id(3, 0, 2, 0, 2));
    assert_eq!(SCTLR_EL1, sysreg_id(3, 0, 1, 0, 0));
    assert_eq!(VBAR_EL1, sysreg_id(3, 0, 12, 0, 0));
    assert_eq!(MAIR_EL1, sysreg_id(3, 0, 10, 2, 0));
    assert_eq!(CONTEXTIDR_EL1, sysreg_id(3, 0, 13, 0, 1));
    assert_eq!(ESR_EL1, sysreg_id(3, 0, 5, 2, 0));
    assert_eq!(FAR_EL1, sysreg_id(3, 0, 6, 0, 0));
    assert_eq!(TPIDR_EL0, sysreg_id(3, 3, 13, 0, 2));
    assert_eq!(TPIDR_EL1, sysreg_id(3, 0, 13, 0, 4));
    assert_eq!(TPIDRRO_EL0, sysreg_id(3, 3, 13, 0, 3));
}

#[test]
fn sysreg_fields_are_cut_to_width() {
    // op0 keeps 2 bits, op2 keeps 3 bits.
    assert_eq!(sysreg_id(7, 0, 2, 0, 0), sysreg_id(3, 0, 2, 0, 0));
    assert_eq!(sysreg_id(3, 0, 2, 0, 9), sysreg_id(3, 0, 2, 0, 1));
}

#[test]
fn register_ids_cover_context_in_order() {
    let ids = register_ids();
    assert_eq!(ids.len(), 49);
    assert_eq!(ids[0], core_reg_id(CoreReg::X(0)));
    assert_eq!(ids[30], core_reg_id(CoreReg::X(30)));
    assert_eq!(ids[31], core_reg_id(CoreReg::Sp));
    assert_eq!(ids[32], core_reg_id(CoreReg::SpEl1));
    assert_eq!(ids[33], core_reg_id(CoreReg::Pc));
    assert_eq!(ids[34], core_reg_id(CoreReg::Pstate));
    assert_eq!(ids[35], TTBR0_EL1);
    assert_eq!(ids[41], CONTEXTIDR_EL1);
    assert_eq!(ids[42], core_reg_id(CoreReg::ElrEl1));
    assert_eq!(ids[43], core_reg_id(CoreReg::SpsrEl1));
    assert_eq!(ids[48], TPIDRRO_EL0);
    for i in 0..ids.len() {
        for j in 0..i {
            assert_ne!(ids[i], ids[j]);
        }
    }
}

#[test]
fn registers_values_round_trip() {
    let mut r = Registers::default();
    for n in 0..31 {
        r.regs[n] = 100 + n as u64;
    }
    r.sp_el0 = 1;
    r.pc = 2;
    r.ttbr0_el1 = 3;
    r.tpidrro_el0 = 4;
    let values = r.values();
    assert_eq!(values.len(), 49);
    assert_eq!(values[5], 105);
    assert_eq!(values[31], 1);
    assert_eq!(values[33], 2);
    assert_eq!(values[35], 3);
    assert_eq!(values[48], 4);
    assert_eq!(Registers::from_values(&values), r);
}
