use kvm::attach::{sort_by_fd_number, split_fds, FdKind};
use kvm::common::{ioctl_result, ViewId};
use kvm::error::KvmError;
use kvm::memory::{KvmGuestMemory, PAGE_SIZE};
use kvm::INVALID_GFN;

#[test]
fn classifies_links() {
    assert_eq!(FdKind::classify("anon_inode:[kvm-vm]"), Some(FdKind::Vm));
    assert_eq!(FdKind::classify("anon_inode:kvm-vm"), Some(FdKind::Vm));
    assert_eq!(FdKind::classify("anon_inode:[kvm-vcpu:3]"), Some(FdKind::Vcpu));
    assert_eq!(FdKind::classify("anon_inode:kvm-vcpu"), Some(FdKind::Vcpu));
    assert_eq!(FdKind::classify("/dev/null"), None);
}

#[test]
fn sorts_found_fds_ascending() {
    let found = vec![(12, FdKind::Vcpu), (3, FdKind::Vm), (11, FdKind::Vcpu), (10, FdKind::Vcpu)];
    let sorted = sort_by_fd_number(found);
    assert_eq!(
        sorted,
        vec![(3, FdKind::Vm), (10, FdKind::Vcpu), (11, FdKind::Vcpu), (12, FdKind::Vcpu)]
    );
    assert_eq!(sort_by_fd_number(Vec::new()), Vec::new());
}

#[test]
fn split_picks_last_vm_and_vcpus_in_order() {
    let entries = vec![
        (FdKind::Vm, 100),
        (FdKind::Vcpu, 101),
        (FdKind::Vm, 102),
        (FdKind::Vcpu, 103),
    ];
    let (vm, vcpus) = split_fds(entries).unwrap();
    assert_eq!(vm, 102);
    assert_eq!(vcpus, vec![101, 103]);
}

#[test]
fn split_reports_missing_fds() {
    match split_fds(vec![(FdKind::Vcpu, 1)]) {
        Err(KvmError::Other(m)) => assert_eq!(m, "no kvm-vm fd found in target process"),
        other => panic!("wrong result: {other:?}"),
    }
    match split_fds(vec![(FdKind::Vm, 1)]) {
        Err(KvmError::Other(m)) => assert_eq!(m, "no kvm-vcpu fds found in target process"),
        other => panic!("wrong result: {other:?}"),
    }
    match split_fds::<i32>(Vec::new()) {
        Err(KvmError::Other(m)) => assert_eq!(m, "no kvm-vm fd found in target process"),
        other => panic!("wrong result: {other:?}"),
    }
}

#[test]
fn ioctl_result_maps_negative_to_os_error() {
    assert!(matches!(ioctl_result(5), Ok(5)));
    assert!(matches!(ioctl_result(0), Ok(0)));
    assert!(matches!(ioctl_result(-1), Err(KvmError::Io(_))));
}

#[test]
fn page_offset_shifts_by_host_page() {
    assert_eq!(KvmGuestMemory::page_offset(3, 4096), 3 * 4096);
    assert_eq!(KvmGuestMemory::page_offset(3, 16384), 3 * 16384);
    assert_eq!(KvmGuestMemory::page_offset(1, 1), 1);
    assert_eq!(KvmGuestMemory::page_offset(u64::MAX, 4096), u64::MAX << 12);
    assert_eq!(PAGE_SIZE, 4096);
}

#[test]
fn page_protection_follows_write() {
    let ro = KvmGuestMemory::page_protection(false);
    assert!(ro.read && !ro.write);
    let rw = KvmGuestMemory::page_protection(true);
    assert!(rw.read && rw.write);
}

#[test]
fn classify_edge_cases() {
    assert_eq!(FdKind::classify(""), None);
    assert_eq!(FdKind::classify("kvm-v"), None);
    assert_eq!(FdKind::classify("kvm-vm"), Some(FdKind::Vm));
    assert_eq!(FdKind::classify("xkvm-vcpukvm-vm"), Some(FdKind::Vm));
    assert_eq!(FdKind::classify("anon_inode:[kvm-vcpu:12]é"), Some(FdKind::Vcpu));
}

#[test]
fn constants_and_view_ids() {
    assert_eq!(INVALID_GFN, u64::MAX);
    assert_eq!(ViewId(3), ViewId(3));
    assert_ne!(ViewId(0), ViewId(1));
}
