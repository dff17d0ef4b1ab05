use kvm::access::MemAccess;
use kvm::arch::arm64::sys::kvm_vmi_ring_event as Arm64Slot;
use kvm::arch::arm64::{decode_event as decode_arm64, KvmControl as Arm64Control};
use kvm::arch::x86::sys::{kvm_debugregs, kvm_vmi_ring_event};
use kvm::arch::x86::{decode_event, KvmControl, KvmCr, Msrs, Registers};
use kvm::attach::{sort_by_fd_number, FdKind};
use kvm::event::{KvmResponseAction, KvmVmiRegs, KvmVmiResponse, RESPONSE_ACTION_MASK};
use kvm::arch::x86::KvmVmiRegsX86;
use kvm::ring::{wait_poll_result, wait_read_result};
use kvm::error::KvmError;
use kvm::uapi::{KVM_VMI_CR4, KVM_VMI_RESPONSE_SET_REGS, KVM_VMI_RESPONSE_SWITCH_VIEW};

#[test]
fn every_x86_control_event_decodes() {
    let controls = [
        KvmControl::Cr { reg: KvmCr::Cr4, on_change_only: false },
        KvmControl::Msr(0x174),
        KvmControl::CpuId,
        KvmControl::Io,
        KvmControl::Breakpoint,
        KvmControl::Debug,
        KvmControl::Singlestep,
        KvmControl::Hypercall,
    ];
    for c in controls {
        let mut slot = kvm_vmi_ring_event::default();
        slot.type_ = c.event_id();
        slot.data.arch.cr.index = KVM_VMI_CR4;
        assert!(decode_event(&slot).is_ok());
    }
}

#[test]
fn every_arm64_control_event_decodes() {
    let controls = [
        Arm64Control::Singlestep,
        Arm64Control::Hypercall,
        Arm64Control::MemAccess,
        Arm64Control::Breakpoint,
        Arm64Control::Sysreg { reg: 1, onchangeonly: true, bitmask: 0 },
    ];
    for c in controls {
        let mut slot = Arm64Slot::default();
        slot.type_ = c.event_id();
        assert!(decode_arm64(&slot).is_ok());
    }
}

#[test]
fn response_flags_determine_the_response() {
    let actions = [
        KvmResponseAction::Continue,
        KvmResponseAction::Deny,
        KvmResponseAction::Emulate,
        KvmResponseAction::Reinject,
        KvmResponseAction::Singlestep,
        KvmResponseAction::FastSinglestep,
    ];
    let mut seen: Vec<u32> = Vec::new();
    for action in actions {
        let plain = KvmVmiResponse { action, regs: None, view_id: None }.flags();
        assert!(!seen.contains(&(plain & RESPONSE_ACTION_MASK)));
        seen.push(plain & RESPONSE_ACTION_MASK);
        let full = KvmVmiResponse {
            action,
            regs: Some(KvmVmiRegs::X86(KvmVmiRegsX86::default())),
            view_id: Some(4),
        }
        .flags();
        assert_eq!(full & RESPONSE_ACTION_MASK, plain & RESPONSE_ACTION_MASK);
        assert_ne!(full & KVM_VMI_RESPONSE_SET_REGS, 0);
        assert_ne!(full & KVM_VMI_RESPONSE_SWITCH_VIEW, 0);
        assert_eq!(plain & KVM_VMI_RESPONSE_SET_REGS, 0);
        assert_eq!(plain & KVM_VMI_RESPONSE_SWITCH_VIEW, 0);
    }
}

#[test]
fn debug_registers_and_msrs_are_not_written_back() {
    let r = Registers { rax: 5, cr0: 0x8000_0011, efer: 0x500, ..Default::default() };
    let mut r2 = r;
    r2.db = [1, 2, 3, 4];
    r2.dr7 = 0x400;
    r2.lstar = 0xffff_ffff_8100_0000;
    r2.tsc_aux = 9;
    assert_eq!(r2.to_kvm_regs(), r.to_kvm_regs());
    assert_eq!(r2.to_kvm_sregs(), r.to_kvm_sregs());
    let mut r3 = r;
    r3.efer = 0xd01;
    assert_ne!(r3.to_kvm_sregs(), r.to_kvm_sregs());
}

#[test]
fn set_then_get_round_trips_written_fields() {
    let r = Registers { rbx: 7, cr4: 0x20, efer: 0x500, ..Default::default() };
    let dregs = kvm_debugregs::default();
    let msrs = Msrs { efer: 0x500, ..Default::default() };
    let back = Registers::from_kvm(&r.to_kvm_regs(), &r.to_kvm_sregs(), &dregs, &msrs);
    assert_eq!(back, r);
}

#[test]
fn sort_keeps_order_of_equal_fd_numbers() {
    let found = vec![(5, FdKind::Vcpu), (2, FdKind::Vm), (5, FdKind::Vm), (1, FdKind::Vcpu)];
    let sorted = sort_by_fd_number(found);
    assert_eq!(
        sorted,
        vec![(1, FdKind::Vcpu), (2, FdKind::Vm), (5, FdKind::Vcpu), (5, FdKind::Vm)]
    );
}

#[test]
fn wait_results() {
    assert!(matches!(wait_poll_result(0), Ok(false)));
    assert!(matches!(wait_poll_result(1), Ok(true)));
    assert!(matches!(wait_poll_result(-1), Err(KvmError::Io(_))));
    assert!(wait_read_result(8).is_ok());
    assert!(matches!(wait_read_result(4), Err(KvmError::Io(_))));
    assert!(matches!(wait_read_result(-1), Err(KvmError::Io(_))));
}

#[test]
fn decode_ignores_unselected_arms() {
    let mut a = kvm_vmi_ring_event::default();
    a.type_ = kvm::uapi::KVM_VMI_EVENT_BREAKPOINT;
    a.data.arch.breakpoint.gpa = 0x7000;
    let mut b = a;
    b.data.arch.cr.index = 0xdead;
    b.data.mem_access.gpa = 0x1234;
    b.data.arch.io.port = 0x60;
    let ra = format!("{:?}", decode_event(&a).unwrap().reason);
    let rb = format!("{:?}", decode_event(&b).unwrap().reason);
    assert_eq!(ra, rb);
}

#[test]
fn mask_bits_truncate_back_to_the_mask() {
    let masks = [
        MemAccess::empty(),
        MemAccess::read(),
        MemAccess::read().union(MemAccess::page_walk()),
        MemAccess::from_bits_truncate(0xfe),
    ];
    for m in masks {
        assert!(m.bits() <= 0xf);
        assert_eq!(MemAccess::from_bits_truncate(m.bits()), m);
    }
}
