use kvm::access::MemAccess;
use kvm::uapi::{KVM_VMI_ACCESS_PW, KVM_VMI_ACCESS_R, KVM_VMI_ACCESS_W, KVM_VMI_ACCESS_X};

#[test]
fn display_renders_rwx() {
    assert_eq!(MemAccess::empty().to_string(), "---");
    assert_eq!(MemAccess::read().to_string(), "r--");
    assert_eq!(MemAccess::read().union(MemAccess::execute()).to_string(), "r-x");
    assert_eq!(
        MemAccess::read()
            .union(MemAccess::write())
            .union(MemAccess::execute())
            .to_string(),
        "rwx"
    );
}

#[test]
fn bits_match_uapi() {
    assert_eq!(MemAccess::read().bits(), KVM_VMI_ACCESS_R as u8);
    assert_eq!(MemAccess::page_walk().bits(), KVM_VMI_ACCESS_PW as u8);
}

#[test]
fn write_and_execute_bits_match_uapi() {
    assert_eq!(MemAccess::write().bits(), KVM_VMI_ACCESS_W as u8);
    assert_eq!(MemAccess::execute().bits(), KVM_VMI_ACCESS_X as u8);
}

#[test]
fn render_ignores_page_walk_bit() {
    assert_eq!(MemAccess::page_walk().to_string(), "---");
    assert_eq!(MemAccess::write().union(MemAccess::page_walk()).to_string(), "-w-");
    assert_eq!(MemAccess::from_bits_truncate(0x6).to_string(), "-wx");
}

#[test]
fn truncate_drops_unknown_bits() {
    assert_eq!(MemAccess::from_bits_truncate(0xff).bits(), 0x0f);
    assert_eq!(MemAccess::from_bits_truncate(0x15).bits(), 0x05);
    assert_eq!(MemAccess::from_bits_truncate(0x15), MemAccess::read().union(MemAccess::execute()));
}

#[test]
fn contains_requires_every_flag() {
    let rx = MemAccess::read().union(MemAccess::execute());
    assert!(rx.contains(MemAccess::read()));
    assert!(rx.contains(MemAccess::execute()));
    assert!(rx.contains(rx));
    assert!(!rx.contains(MemAccess::write()));
    assert!(!rx.contains(MemAccess::read().union(MemAccess::write())));
    assert!(rx.contains(MemAccess::empty()));
}
