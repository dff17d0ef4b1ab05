//! Guest-memory mapping over the `vmi_fd`: the mmap offset of a host frame.

use vstd::prelude::*;

verus! {

/// Page size used for fixed-size vmi_fd mappings (the per-vCPU event ring).
pub const PAGE_SIZE: usize = 4096;

/// The protection a guest page is mapped with.
#[derive(Debug, Clone, Copy, PartialEq, Eq, Structural)]
pub struct PageProtection {
    /// The page may be read.
    pub read: bool,

    /// The page may be written.
    pub write: bool,
}

/// Maps host pages on demand via `mmap` on the vmi_fd, placing a host frame at
/// the host-page-aligned offset the kernel fault handler expects.
pub struct KvmGuestMemory;

impl KvmGuestMemory {
    /// The protection of a mapping: always readable, and writable exactly
    /// when `write` asks for it.
    pub fn page_protection(write: bool) -> (p: PageProtection)
        ensures
            p.read,
            p.write == write,
    {
        PageProtection { read: true, write }
    }

    /// The mmap offset of host frame `hfn`: the frame number shifted left by
    /// the host page shift (the number of trailing zero bits of the host page
    /// size), so that the fault handler reads `offset >> host_page_shift` as
    /// the frame. Bits shifted past bit 63 are lost.
    pub fn page_offset(hfn: u64, host_page: usize) -> (r: u64)
        requires
            host_page > 0,
        ensures
            r == hfn << (host_page as u64).trailing_zeros(),
            forall|k: u64| k < 64 && host_page as u64 == 1u64 << k ==> r == hfn << k,
    {
        let page = host_page as u64;
        let host_shift = page.trailing_zeros();
        proof {
            broadcast use vstd::std_specs::bits::axiom_u64_trailing_zeros;
            let t = host_shift as u64;
            assert forall|k: u64| k < 64 && page == 1u64 << k implies t == k by {
                assert(forall|j: u64, k: u64| j < 64 && k < 64 ==> #[trigger] (((1u64 << k) >> j)
                    & 1u64) == (if j == k { 1u64 } else { 0u64 })) by (bit_vector);
                if t < k {
                    assert((page >> t) & 1u64 == 0u64);
                } else if t > k {
                    assert((page >> k) & 1u64 == 0u64);
                }
            }
        }
        hfn << host_shift
    }
}

} // verus!
