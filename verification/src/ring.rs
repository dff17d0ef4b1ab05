//! Per-vCPU event ring: the consumer cursor, the slot arithmetic, and the
//! read/respond/advance steps over the ring page's header and slots.

use vstd::prelude::*;
use crate::arch::x86::decode_event;
use crate::arch::x86::event::{regs_to_sys, slot_event, slot_reason};
use crate::arch::x86::sys::{kvm_vmi_regs, kvm_vmi_ring_event};
use crate::event::{KvmVmiEvent, KvmVmiRegs, KvmVmiResponse, response_flags};
use crate::error::KvmError;
use crate::uapi::kvm_vmi_ring_header;

verus! {

/// Computes the slot index for a producer/consumer cursor.
pub fn slot_index(cursor: u32, num_slots: u32) -> (r: u32)
    requires
        num_slots > 0,
    ensures
        r == cursor % num_slots,
        r < num_slots,
{
    cursor % num_slots
}

/// Interprets the return of the poll on a ring's event fd: a negative value is
/// the OS error, 0 is a timeout with no event, a positive value means an event
/// is signaled and its counter is to be read.
pub fn wait_poll_result(ret: i32) -> (r: Result<bool, KvmError>)
    ensures
        ret < 0 ==> (r matches Err(KvmError::Io(_))),
        ret == 0 ==> r == Ok::<bool, KvmError>(false),
        ret > 0 ==> r == Ok::<bool, KvmError>(true),
{
    if ret < 0 {
        return Err(KvmError::last_os_error());
    }
    Ok(ret != 0)
}

/// Interprets the length returned by the read that drains a ring's eventfd
/// counter: anything but the counter's 8 bytes is the OS error.
pub fn wait_read_result(n: isize) -> (r: Result<(), KvmError>)
    ensures
        n == 8 ==> r is Ok,
        n != 8 ==> (r matches Err(KvmError::Io(_))),
{
    if n != 8 {
        return Err(KvmError::last_os_error());
    }
    Ok(())
}

/// The event that a slot holds, when it decodes.
pub open spec fn slot_decoded(slot: kvm_vmi_ring_event) -> Option<KvmVmiEvent> {
    match slot_reason(slot) {
        Some(reason) => Some(slot_event(slot, reason)),
        None => None,
    }
}

/// What the agent writes back into the current slot for a response: the flag
/// word always, the view to switch to when one is requested, and the x86
/// registers when replacement x86 registers are given.
#[derive(Debug, Clone, Copy)]
pub struct ResponseWrites {
    /// The `KVM_VMI_RESPONSE_*` flag word.
    pub response: u32,

    /// The view id to write, if any.
    pub view_id: Option<u32>,

    /// The register record to write, if any.
    pub regs: Option<kvm_vmi_regs>,
}

/// The writes a response asks for.
pub open spec fn response_writes_spec(resp: KvmVmiResponse) -> ResponseWrites {
    ResponseWrites {
        response: response_flags(resp),
        view_id: resp.view_id,
        regs: match resp.regs {
            Some(KvmVmiRegs::X86(r)) => Some(regs_to_sys(r)),
            _ => None,
        },
    }
}

/// Decides what to write back into the current slot for `resp`.
pub fn response_writes(resp: &KvmVmiResponse) -> (w: ResponseWrites)
    ensures
        w == response_writes_spec(*resp),
{
    let regs = match resp.regs {
        Some(KvmVmiRegs::X86(r)) => Some(kvm_vmi_regs::from(&r)),
        _ => None,
    };
    ResponseWrites { response: resp.flags(), view_id: resp.view_id, regs }
}

/// A slot after the writes are applied: the flag word, the view when one is
/// given and the registers when they are given; every other field as it was.
pub open spec fn written_slot(slot: kvm_vmi_ring_event, w: ResponseWrites) -> kvm_vmi_ring_event {
    kvm_vmi_ring_event {
        response: w.response,
        view_id: match w.view_id {
            Some(v) => v,
            None => slot.view_id,
        },
        regs: match w.regs {
            Some(r) => r,
            None => slot.regs,
        },
        ..slot
    }
}

/// A slot after the agent's response is written into it.
pub open spec fn responded_slot(slot: kvm_vmi_ring_event, resp: KvmVmiResponse) -> kvm_vmi_ring_event {
    written_slot(slot, response_writes_spec(resp))
}

/// One vCPU's event ring, held as the values of its page: the header the
/// kernel publishes, the slot area that follows it, and the agent's private
/// consumer cursor. The slot area holds the slots the page has room for; the
/// header's slot count says how many of them the ring uses.
pub struct KvmVmiRing {
    /// The vCPU this ring belongs to.
    vcpu_id: u32,

    /// The ring header (producer cursor and slot count).
    header: kvm_vmi_ring_header,

    /// The slot area of the page.
    slots: Vec<kvm_vmi_ring_event>,

    /// The agent's private consumer cursor.
    local_cons: u32,
}

impl KvmVmiRing {
    /// The vCPU the ring belongs to.
    pub closed spec fn vcpu(&self) -> u32 {
        self.vcpu_id
    }

    /// The ring header as last published.
    pub closed spec fn head(&self) -> kvm_vmi_ring_header {
        self.header
    }

    /// The slot area.
    pub closed spec fn slot_seq(&self) -> Seq<kvm_vmi_ring_event> {
        self.slots@
    }

    /// The agent's consumer cursor.
    pub closed spec fn cons(&self) -> u32 {
        self.local_cons
    }

    /// The index of the slot the consumer cursor points at (the cursor modulo
    /// the header's slot count), or `None` when no unconsumed event is queued
    /// (the producer cursor equals the consumer cursor), when the header
    /// reports no slots, or when the index lies past the page's slot area.
    pub open spec fn current_slot(&self) -> Option<int> {
        if self.head().req_prod == self.cons() || self.head().num_slots == 0 {
            None
        } else if self.cons() % self.head().num_slots < self.slot_seq().len() {
            Some((self.cons() % self.head().num_slots) as int)
        } else {
            None
        }
    }

    /// Wraps a ring page given as its header and its slot area, with the
    /// consumer cursor at 0. Any header is accepted; it is read again before
    /// each step.
    pub fn from_page(
        vcpu_id: u32,
        header: kvm_vmi_ring_header,
        slots: Vec<kvm_vmi_ring_event>,
    ) -> (r: Self)
        ensures
            r.vcpu() == vcpu_id,
            r.head() == header,
            r.slot_seq() == slots@,
            r.cons() == 0,
    {
        KvmVmiRing { vcpu_id, header, slots, local_cons: 0 }
    }

    /// Returns the vCPU id this ring belongs to.
    pub fn vcpu_id(&self) -> (r: u32)
        ensures
            r == self.vcpu(),
    {
        self.vcpu_id
    }

    /// Returns the ring header as last published.
    pub fn header(&self) -> (r: kvm_vmi_ring_header)
        ensures
            r == self.head(),
    {
        self.header
    }

    /// Returns the number of slots the page's slot area holds.
    pub fn slot_capacity(&self) -> (r: usize)
        ensures
            r == self.slot_seq().len(),
    {
        self.slots.len()
    }

    /// Returns slot `idx` of the slot area.
    pub fn slot(&self, idx: usize) -> (r: kvm_vmi_ring_event)
        requires
            idx < self.slot_seq().len(),
        ensures
            r == self.slot_seq()[idx as int],
    {
        self.slots[idx]
    }

    /// Records the header as the kernel has published it.
    pub fn set_header(&mut self, header: kvm_vmi_ring_header)
        ensures
            final(self).head() == header,
            final(self).slot_seq() == old(self).slot_seq(),
            final(self).cons() == old(self).cons(),
            final(self).vcpu() == old(self).vcpu(),
    {
        self.header = header;
    }

    /// Records the contents of slot `idx` as the kernel has written them.
    pub fn set_slot(&mut self, idx: usize, slot: kvm_vmi_ring_event)
        requires
            idx < old(self).slot_seq().len(),
        ensures
            final(self).slot_seq() == old(self).slot_seq().update(idx as int, slot),
            final(self).head() == old(self).head(),
            final(self).cons() == old(self).cons(),
            final(self).vcpu() == old(self).vcpu(),
    {
        self.slots.set(idx, slot);
    }

    /// Returns true if an unconsumed event is queued.
    pub fn has_pending(&self) -> (r: bool)
        ensures
            r == (self.head().req_prod != self.cons()),
    {
        self.header.req_prod != self.local_cons
    }

    /// Returns the current consumer slot index, or `None` when the ring is
    /// empty, reports no slots, or points past its slot area.
    pub fn current_index(&self) -> (r: Option<usize>)
        ensures
            r matches Some(i) ==> self.current_slot() == Some(i as int) && i
                < self.slot_seq().len(),
            r is None ==> self.current_slot() is None,
    {
        if self.header.req_prod == self.local_cons || self.header.num_slots == 0 {
            return None;
        }
        let idx = slot_index(self.local_cons, self.header.num_slots) as usize;
        if idx < self.slots.len() {
            Some(idx)
        } else {
            None
        }
    }

    /// Peeks the current consumer slot, decoding it into a native event, or
    /// returns `None` when there is no current slot or the slot does not
    /// decode. Does not advance the cursor.
    pub fn next_event(&self) -> (r: Option<KvmVmiEvent>)
        ensures
            r == (match self.current_slot() {
                Some(i) => slot_decoded(self.slot_seq()[i]),
                None => None,
            }),
    {
        let idx = match self.current_index() {
            Some(idx) => idx,
            None => return None,
        };
        match decode_event(&self.slots[idx]) {
            Ok(ev) => Some(ev),
            Err(_) => None,
        }
    }

    /// Writes `resp` back into the current consumer slot, to be consumed by
    /// the kernel on ack. Does nothing when there is no current slot.
    pub fn respond(&mut self, resp: KvmVmiResponse)
        ensures
            final(self).head() == old(self).head(),
            final(self).cons() == old(self).cons(),
            final(self).vcpu() == old(self).vcpu(),
            final(self).slot_seq() == (match old(self).current_slot() {
                Some(i) => old(self).slot_seq().update(i, responded_slot(old(self).slot_seq()[i], resp)),
                None => old(self).slot_seq(),
            }),
    {
        let idx = match self.current_index() {
            Some(idx) => idx,
            None => return,
        };
        let w = response_writes(&resp);
        let mut slot = self.slots[idx];
        slot.response = w.response;
        if let Some(view_id) = w.view_id {
            slot.view_id = view_id;
        }
        if let Some(regs) = w.regs {
            slot.regs = regs;
        }
        self.slots.set(idx, slot);
    }

    /// Advances the agent cursor after a slot has been handled and the kernel
    /// has been acked. The cursor wraps at `u32::MAX`.
    pub fn advance(&mut self)
        ensures
            final(self).cons() == (if old(self).cons() == u32::MAX { 0 } else { (old(self).cons() + 1) as u32 }),
            final(self).head() == old(self).head(),
            final(self).slot_seq() == old(self).slot_seq(),
            final(self).vcpu() == old(self).vcpu(),
    {
        self.local_cons = self.local_cons.wrapping_add(1);
    }
}

} // verus!

verus! {

/// When the slot count divides 2^32 (a power of two up to 2^31), advancing the
/// consumer cursor by one moves its slot index to the next slot, wrapping from
/// the last slot to the first; this holds also where the cursor itself wraps
/// at `u32::MAX`.
pub proof fn lemma_advance_moves_to_next_slot(cursor: u32, num_slots: u32)
    requires
        num_slots > 0,
        0x1_0000_0000int % (num_slots as int) == 0,
    ensures
        ({
            let next: u32 = if cursor == u32::MAX { 0 } else { (cursor + 1) as u32 };
            next % num_slots == (cursor % num_slots + 1) % (num_slots as int)
        }),
{
    let n = num_slots as int;
    vstd::arithmetic::div_mod::lemma_add_mod_noop(cursor as int, 1, n);
    if n == 1 {
        vstd::arithmetic::div_mod::lemma_mod_bound((cursor % num_slots + 1) as int, 1);
        vstd::arithmetic::div_mod::lemma_mod_bound(
            (if cursor == u32::MAX { 0 } else { (cursor + 1) as u32 }) as int,
            1,
        );
    } else {
        vstd::arithmetic::div_mod::lemma_small_mod(1, n as nat);
        if cursor == u32::MAX {
            assert((cursor as int + 1) % n == 0);
            vstd::arithmetic::div_mod::lemma_small_mod(0, n as nat);
        }
    }
}


/// Responding writes the response into the slot and leaves the event as it
/// was: the slot's flag word becomes the response's flags, its view becomes
/// the requested view (or stays), its registers become the replacement x86
/// registers (or stay when none are given), and the vCPU, type, instruction
/// length and payload are untouched, so the slot still holds the same event.
pub proof fn lemma_respond_keeps_event(slot: kvm_vmi_ring_event, resp: KvmVmiResponse)
    ensures
        ({
            let out = responded_slot(slot, resp);
            &&& out.response == response_flags(resp)
            &&& resp.view_id matches Some(v) ==> out.view_id == v
            &&& resp.view_id is None ==> out.view_id == slot.view_id
            &&& resp.regs matches Some(KvmVmiRegs::X86(r)) ==> out.regs == regs_to_sys(r)
            &&& !(resp.regs matches Some(KvmVmiRegs::X86(_))) ==> out.regs == slot.regs
            &&& out.vcpu_id == slot.vcpu_id
            &&& out.type_ == slot.type_
            &&& out.insn_len == slot.insn_len
            &&& out.data == slot.data
            &&& slot_reason(out) == slot_reason(slot)
        }),
{
}
} // verus!
