//! Native, arch-neutral memory-access permission flags.

use vstd::prelude::*;
use crate::uapi::{KVM_VMI_ACCESS_PW, KVM_VMI_ACCESS_R, KVM_VMI_ACCESS_W, KVM_VMI_ACCESS_X};

verus! {

/// Per-GFN access permission bits, mirroring the KVM VMI access mask.
#[derive(Debug, Default, Clone, Copy, PartialEq, Eq, Structural)]
pub struct MemAccess {
    bits: u8,
}

/// The bits that name a known flag.
pub const MEM_ACCESS_ALL_BITS: u8 = 0xf;

impl View for MemAccess {
    type V = u8;

    closed spec fn view(&self) -> u8 {
        self.bits
    }
}

/// The `rwx` rendering of an access mask: `r`, `w` and `x` where the flag is
/// present, `-` where it is absent.
pub open spec fn rwx_text(bits: u8) -> Seq<char> {
    seq![
        if bits & 1 == 1 { 'r' } else { '-' },
        if bits & 2 == 2 { 'w' } else { '-' },
        if bits & 4 == 4 { 'x' } else { '-' },
    ]
}

impl MemAccess {
    /// Only bits that name a known flag are ever set.
    #[verifier::type_invariant]
    spec fn known_bits_only(&self) -> bool {
        self.bits <= MEM_ACCESS_ALL_BITS
    }

    /// The mask that keeps the known flags of `bits`.
    pub closed spec fn from_bits_spec(bits: u8) -> MemAccess {
        MemAccess { bits: bits & MEM_ACCESS_ALL_BITS }
    }

    /// The view of a truncated mask is the bits it kept.
    pub broadcast proof fn lemma_from_bits_spec_view(bits: u8)
        ensures
            #[trigger] MemAccess::from_bits_spec(bits)@ == bits & MEM_ACCESS_ALL_BITS,
    {
    }

    /// Read permitted.
    pub fn read() -> (r: Self)
        ensures
            r@ == 0x1,
            r@ == KVM_VMI_ACCESS_R as u8,
    {
        MemAccess { bits: 0x1 }
    }

    /// Write permitted.
    pub fn write() -> (r: Self)
        ensures
            r@ == 0x2,
            r@ == KVM_VMI_ACCESS_W as u8,
    {
        MemAccess { bits: 0x2 }
    }

    /// Execute permitted.
    pub fn execute() -> (r: Self)
        ensures
            r@ == 0x4,
            r@ == KVM_VMI_ACCESS_X as u8,
    {
        MemAccess { bits: 0x4 }
    }

    /// Page-walk writes trapped while leaving R/W/X as set.
    pub fn page_walk() -> (r: Self)
        ensures
            r@ == 0x8,
            r@ == KVM_VMI_ACCESS_PW as u8,
    {
        MemAccess { bits: 0x8 }
    }

    /// The empty set of flags.
    pub fn empty() -> (r: Self)
        ensures
            r@ == 0,
    {
        MemAccess { bits: 0 }
    }

    /// The raw bits.
    pub fn bits(&self) -> (b: u8)
        ensures
            b == self@,
            b <= MEM_ACCESS_ALL_BITS,
            MemAccess::from_bits_spec(b) == *self,
    {
        proof {
            use_type_invariant(self);
            let b = self.bits;
            assert(b & 0xf == b) by (bit_vector)
                requires
                    b <= 0xf,
            ;
        }
        self.bits
    }

    /// Keeps the bits that name a known flag and drops the others.
    pub fn from_bits_truncate(bits: u8) -> (r: Self)
        ensures
            r == MemAccess::from_bits_spec(bits),
            r@ == bits & MEM_ACCESS_ALL_BITS,
    {
        assert(bits & 0xf <= 0xf) by (bit_vector);
        MemAccess { bits: bits & MEM_ACCESS_ALL_BITS }
    }

    /// True when every flag of `other` is set in `self`.
    pub fn contains(&self, other: MemAccess) -> (b: bool)
        ensures
            b == (self@ & other@ == other@),
    {
        self.bits & other.bits == other.bits
    }

    /// The flags set in either operand.
    pub fn union(self, other: MemAccess) -> (r: Self)
        ensures
            r@ == self@ | other@,
    {
        proof {
            use_type_invariant(&self);
            use_type_invariant(&other);
            let (a, b) = (self.bits, other.bits);
            assert(a | b <= 0xf) by (bit_vector)
                requires
                    a <= 0xf,
                    b <= 0xf,
            ;
        }
        MemAccess { bits: self.bits | other.bits }
    }

    /// Renders the read, write and execute flags as `rwx`, with `-` for each
    /// absent flag.
    pub fn to_string(&self) -> (s: String)
        ensures
            s@ == rwx_text(self@),
    {
        let r = self.contains(MemAccess::read());
        let w = self.contains(MemAccess::write());
        let x = self.contains(MemAccess::execute());
        let text: &str = if r {
            if w {
                if x { "rwx" } else { "rw-" }
            } else {
                if x { "r-x" } else { "r--" }
            }
        } else {
            if w {
                if x { "-wx" } else { "-w-" }
            } else {
                if x { "--x" } else { "---" }
            }
        };
        proof {
            reveal_strlit("rwx");
            reveal_strlit("rw-");
            reveal_strlit("r-x");
            reveal_strlit("r--");
            reveal_strlit("-wx");
            reveal_strlit("-w-");
            reveal_strlit("--x");
            reveal_strlit("---");
        }
        text.to_owned()
    }
}

} // verus!
