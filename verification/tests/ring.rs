use kvm::arch::x86::sys::{kvm_vmi_event_breakpoint, kvm_vmi_ring_event};
use kvm::arch::x86::{KvmEventReasonX86, KvmVmiRegsX86};
use kvm::event::{KvmEventReason, KvmResponseAction, KvmVmiRegs, KvmVmiResponse};
use kvm::ring::{response_writes, slot_index, KvmVmiRing};
use kvm::uapi::{
    kvm_vmi_ring_header, KVM_VMI_EVENT_BREAKPOINT, KVM_VMI_EVENT_HYPERCALL,
    KVM_VMI_RESPONSE_DENY, KVM_VMI_RESPONSE_EMULATE, KVM_VMI_RESPONSE_SET_REGS,
    KVM_VMI_RESPONSE_SINGLESTEP_FAST, KVM_VMI_RESPONSE_SWITCH_VIEW,
};

#[test]
fn slot_index_wraps() {
    assert_eq!(slot_index(0, 4), 0);
    assert_eq!(slot_index(5, 4), 1);
    assert_eq!(slot_index(8, 4), 0);
}

#[test]
fn reads_decodes_and_responds() {
    let header = kvm_vmi_ring_header { num_slots: 1, req_prod: 1, ..Default::default() };
    let mut slot0 = kvm_vmi_ring_event::default();
    slot0.type_ = KVM_VMI_EVENT_BREAKPOINT;
    slot0.vcpu_id = 0;
    slot0.data.arch.breakpoint = kvm_vmi_event_breakpoint { gpa: 0x4000 };
    let mut ring = KvmVmiRing::from_page(0, header, vec![slot0]);
    let ev = ring.next_event().expect("event queued");
    match ev.reason {
        KvmEventReason::Arch(KvmEventReasonX86::Breakpoint(bp)) => assert_eq!(bp.gpa, 0x4000),
        other => panic!("wrong reason: {other:?}"),
    }
    ring.respond(KvmVmiResponse {
        action: KvmResponseAction::Deny,
        regs: None,
        view_id: Some(7),
    });
    assert_eq!(ring.slot(0).view_id, 7);
    assert_ne!(ring.slot(0).response & KVM_VMI_RESPONSE_DENY, 0);
}

#[test]
fn empty_ring_has_nothing_and_ignores_response() {
    let header = kvm_vmi_ring_header { num_slots: 2, req_prod: 0, ..Default::default() };
    let slots = vec![kvm_vmi_ring_event::default(), kvm_vmi_ring_event::default()];
    let mut ring = KvmVmiRing::from_page(5, header, slots);
    assert_eq!(ring.vcpu_id(), 5);
    assert!(!ring.has_pending());
    assert!(ring.next_event().is_none());
    ring.respond(KvmVmiResponse {
        action: KvmResponseAction::Deny,
        regs: None,
        view_id: Some(7),
    });
    assert_eq!(ring.slot(0), kvm_vmi_ring_event::default());
    assert_eq!(ring.slot(1), kvm_vmi_ring_event::default());
}

#[test]
fn zero_slot_header_is_accepted() {
    let mut bp = kvm_vmi_ring_event::default();
    bp.type_ = KVM_VMI_EVENT_BREAKPOINT;
    bp.data.arch.breakpoint.gpa = 0x5000;
    let header = kvm_vmi_ring_header { num_slots: 0, req_prod: 1, ..Default::default() };
    let mut ring = KvmVmiRing::from_page(2, header, vec![bp, kvm_vmi_ring_event::default()]);
    assert_eq!(ring.vcpu_id(), 2);
    assert!(ring.has_pending());
    assert!(ring.current_index().is_none());
    assert!(ring.next_event().is_none());
    ring.respond(KvmVmiResponse { action: KvmResponseAction::Deny, regs: None, view_id: Some(7) });
    assert_eq!(ring.slot(0), bp);
    // The kernel fills the header later: the ring picks it up.
    ring.set_header(kvm_vmi_ring_header { num_slots: 2, req_prod: 1, ..Default::default() });
    assert_eq!(ring.current_index(), Some(0));
    match ring.next_event().unwrap().reason {
        KvmEventReason::Arch(KvmEventReasonX86::Breakpoint(b)) => assert_eq!(b.gpa, 0x5000),
        other => panic!("wrong reason: {other:?}"),
    }
}

#[test]
fn index_past_slot_area_yields_nothing() {
    let header = kvm_vmi_ring_header { num_slots: 8, req_prod: 6, ..Default::default() };
    let mut ring = KvmVmiRing::from_page(0, header, vec![kvm_vmi_ring_event::default(); 2]);
    assert_eq!(ring.slot_capacity(), 2);
    for _ in 0..5 {
        ring.advance();
    }
    assert!(ring.has_pending());
    assert!(ring.current_index().is_none());
    assert!(ring.next_event().is_none());
}

#[test]
fn response_writes_follow_the_response() {
    let regs = KvmVmiRegsX86 { rbx: 3, ..Default::default() };
    let w = response_writes(&KvmVmiResponse {
        action: KvmResponseAction::Deny,
        regs: Some(KvmVmiRegs::X86(regs)),
        view_id: Some(9),
    });
    assert_eq!(w.response, KVM_VMI_RESPONSE_DENY | KVM_VMI_RESPONSE_SET_REGS | KVM_VMI_RESPONSE_SWITCH_VIEW);
    assert_eq!(w.view_id, Some(9));
    assert_eq!(w.regs.unwrap().rbx, 3);
    let w = response_writes(&KvmVmiResponse { action: KvmResponseAction::Continue, regs: None, view_id: None });
    assert_eq!(w.response, 0);
    assert!(w.view_id.is_none());
    assert!(w.regs.is_none());
}

#[test]
fn advance_moves_to_next_slot_and_wraps() {
    let mut hypercall = kvm_vmi_ring_event::default();
    hypercall.type_ = KVM_VMI_EVENT_HYPERCALL;
    let mut bp = kvm_vmi_ring_event::default();
    bp.type_ = KVM_VMI_EVENT_BREAKPOINT;
    bp.data.arch.breakpoint.gpa = 0x9000;
    let header = kvm_vmi_ring_header { num_slots: 2, req_prod: 3, ..Default::default() };
    let mut ring = KvmVmiRing::from_page(0, header, vec![hypercall, bp]);
    assert!(matches!(ring.next_event().unwrap().reason, KvmEventReason::Hypercall));
    ring.advance();
    match ring.next_event().unwrap().reason {
        KvmEventReason::Arch(KvmEventReasonX86::Breakpoint(b)) => assert_eq!(b.gpa, 0x9000),
        other => panic!("wrong reason: {other:?}"),
    }
    ring.advance();
    assert!(matches!(ring.next_event().unwrap().reason, KvmEventReason::Hypercall));
    ring.advance();
    assert!(!ring.has_pending());
    ring.set_header(kvm_vmi_ring_header { req_prod: 4, ..ring.header() });
    assert!(ring.has_pending());
    assert_eq!(ring.header().req_prod, 4);
}

#[test]
fn respond_writes_flags_view_and_regs() {
    let mut slot = kvm_vmi_ring_event::default();
    slot.type_ = KVM_VMI_EVENT_HYPERCALL;
    slot.view_id = 1;
    let header = kvm_vmi_ring_header { num_slots: 1, req_prod: 1, ..Default::default() };
    let mut ring = KvmVmiRing::from_page(0, header, vec![slot]);
    let regs = KvmVmiRegsX86 { rip: 0x1234, rax: 9, ..Default::default() };
    ring.respond(KvmVmiResponse {
        action: KvmResponseAction::Emulate,
        regs: Some(KvmVmiRegs::X86(regs)),
        view_id: None,
    });
    let s = ring.slot(0);
    assert_eq!(s.response, KVM_VMI_RESPONSE_EMULATE | KVM_VMI_RESPONSE_SET_REGS);
    assert_eq!(s.view_id, 1);
    assert_eq!(s.regs.rip, 0x1234);
    assert_eq!(s.regs.rax, 9);
    assert_eq!(s.type_, KVM_VMI_EVENT_HYPERCALL);
}

#[test]
fn response_flags_compose() {
    let r = KvmVmiResponse { action: KvmResponseAction::Continue, regs: None, view_id: None };
    assert_eq!(r.flags(), 0);
    let r = KvmVmiResponse {
        action: KvmResponseAction::FastSinglestep,
        regs: None,
        view_id: Some(2),
    };
    assert_eq!(r.flags(), KVM_VMI_RESPONSE_SINGLESTEP_FAST | KVM_VMI_RESPONSE_SWITCH_VIEW);
}

#[test]
fn slot_index_at_cursor_wrap() {
    assert_eq!(slot_index(u32::MAX, 4), 3);
    assert_eq!(slot_index(u32::MAX.wrapping_add(1), 4), 0);
    assert_eq!(slot_index(u32::MAX, 3), 0);
    assert_eq!(slot_index(u32::MAX.wrapping_add(1), 3), 0);
}
