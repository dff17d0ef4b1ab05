//! The pure part of attaching to a QEMU process: classifying `/proc/<pid>/fd`
//! links, ordering the found fds, and splitting the duplicated fds into the
//! VM fd and the vCPU fds.

use vstd::prelude::*;
use crate::error::KvmError;
use vstd::string::StrSliceExecFns;

verus! {

/// Kind of KVM anon-inode behind a `/proc/<pid>/fd` entry.
#[derive(Debug, Clone, Copy, PartialEq, Eq, Structural)]
pub enum FdKind {
    /// A `kvm-vm` anon-inode.
    Vm,

    /// A `kvm-vcpu` anon-inode.
    Vcpu,
}

/// True when `needle` occurs in `hay` as a run of consecutive characters.
pub open spec fn contains_run(hay: Seq<char>, needle: Seq<char>) -> bool {
    exists|i: int|
        0 <= i && i + needle.len() <= hay.len() && #[trigger] hay.subrange(i, i + needle.len())
            == needle
}

/// True when `needle` occurs in `hay` as a run of consecutive characters (the
/// behaviour of `str::contains` with a `&str` pattern).
fn str_contains(hay: &str, needle: &str) -> (r: bool)
    ensures
        r == contains_run(hay@, needle@),
{
    let n = hay.unicode_len();
    let m = needle.unicode_len();
    if m > n {
        return false;
    }
    let mut i: usize = 0;
    while i <= n - m
        invariant
            n == hay@.len(),
            m == needle@.len(),
            m <= n,
            i <= n - m + 1,
            forall|k: int| 0 <= k < i ==> #[trigger] hay@.subrange(k, k + m) != needle@,
        decreases n - m + 1 - i,
    {
        let mut j: usize = 0;
        let mut same = true;
        while j < m
            invariant
                n == hay@.len(),
                m == needle@.len(),
                i + m <= n,
                j <= m,
                same == (forall|t: int| 0 <= t < j ==> hay@[i + t] == needle@[t]),
            decreases m - j,
        {
            if hay.get_char(i + j) != needle.get_char(j) {
                same = false;
            }
            j += 1;
        }
        if same {
            assert(hay@.subrange(i as int, i + m) =~= needle@);
            return true;
        }
        assert(hay@.subrange(i as int, i + m) != needle@) by {
            let t = choose|t: int| 0 <= t < m && hay@[i + t] != needle@[t];
            assert(hay@.subrange(i as int, i + m)[t] == hay@[i + t]);
        }
        i += 1;
    }
    proof {
        assert forall|k: int| 0 <= k && k + needle@.len() <= hay@.len() implies
            #[trigger] hay@.subrange(k, k + needle@.len()) != needle@ by {}
    }
    false
}

/// The kind of fd a resolved link target names: `kvm-vm` anywhere in it marks
/// a VM fd, otherwise `kvm-vcpu` anywhere marks a vCPU fd.
pub open spec fn classify_spec(target: Seq<char>) -> Option<FdKind> {
    if contains_run(target, "kvm-vm"@) {
        Some(FdKind::Vm)
    } else if contains_run(target, "kvm-vcpu"@) {
        Some(FdKind::Vcpu)
    } else {
        None
    }
}

impl FdKind {
    /// Classifies a resolved `/proc/<pid>/fd/<n>` symlink target.
    pub fn classify(target: &str) -> (r: Option<FdKind>)
        ensures
            r == classify_spec(target@),
    {
        if str_contains(target, "kvm-vm") {
            return Some(FdKind::Vm);
        }
        if str_contains(target, "kvm-vcpu") {
            return Some(FdKind::Vcpu);
        }
        None
    }
}

/// True when the entries are in ascending fd-number order.
pub open spec fn sorted_by_fd(s: Seq<(i32, FdKind)>) -> bool {
    forall|a: int, b: int| 0 <= a < b < s.len() ==> (#[trigger] s[a]).0 <= (#[trigger] s[b]).0
}

/// The predicate "has fd number `k`".
pub open spec fn fd_is(k: i32) -> spec_fn((i32, FdKind)) -> bool {
    |e: (i32, FdKind)| e.0 == k
}

/// The entries with fd number `k`, in their order.
pub open spec fn with_fd(s: Seq<(i32, FdKind)>, k: i32) -> Seq<(i32, FdKind)> {
    s.filter(fd_is(k))
}

/// A sequence none of whose entries has fd number `k` has no entry with it.
proof fn lemma_with_fd_none(s: Seq<(i32, FdKind)>, k: i32)
    requires
        forall|i: int| 0 <= i < s.len() ==> (#[trigger] s[i]).0 != k,
    ensures
        with_fd(s, k) == Seq::<(i32, FdKind)>::empty(),
    decreases s.len(),
{
    reveal(Seq::filter);
    if s.len() > 0 {
        lemma_with_fd_none(s.drop_last(), k);
        assert(s.last() == s[s.len() - 1]);
    }
}

/// Appending an entry appends it to the entries of its fd number.
proof fn lemma_with_fd_push(s: Seq<(i32, FdKind)>, item: (i32, FdKind), k: i32)
    ensures
        with_fd(s.push(item), k) == (if item.0 == k { with_fd(s, k).push(item) } else { with_fd(s, k) }),
{
    reveal(Seq::filter);
    assert(s.push(item).drop_last() == s);
    assert(s.push(item).last() == item);
}

/// Inserting an entry in front of entries with larger fd numbers only (and
/// behind the others) adds it to the end of the entries of its fd number.
proof fn lemma_with_fd_insert(before: Seq<(i32, FdKind)>, j: int, item: (i32, FdKind), k: i32)
    requires
        0 <= j <= before.len(),
        forall|m: int| j <= m < before.len() ==> (#[trigger] before[m]).0 > item.0,
    ensures
        with_fd(before.insert(j, item), k) == (if item.0 == k {
            with_fd(before, k).push(item)
        } else {
            with_fd(before, k)
        }),
{
    let head = before.take(j);
    let tail = before.skip(j);
    assert(before.insert(j, item) == head.push(item) + tail);
    assert(before == head + tail);
    Seq::filter_distributes_over_add(head.push(item), tail, fd_is(k));
    Seq::filter_distributes_over_add(head, tail, fd_is(k));
    lemma_with_fd_push(head, item, k);
    if item.0 == k {
        assert forall|i: int| 0 <= i < tail.len() implies (#[trigger] tail[i]).0 != k by {
            assert(tail[i] == before[j + i]);
        }
        lemma_with_fd_none(tail, k);
        assert(with_fd(head, k).push(item) + Seq::<(i32, FdKind)>::empty() == with_fd(head, k).push(item));
        assert(with_fd(head, k) + Seq::<(i32, FdKind)>::empty() == with_fd(head, k));
    }
}

/// Orders the found `(fd number, kind)` entries by ascending fd number. Entries
/// with equal numbers keep their relative order: for every fd number, the
/// entries with that number come out as they came in.
pub fn sort_by_fd_number(found: Vec<(i32, FdKind)>) -> (sorted: Vec<(i32, FdKind)>)
    ensures
        sorted_by_fd(sorted@),
        forall|k: i32| #[trigger] with_fd(sorted@, k) == with_fd(found@, k),
        sorted@.to_multiset() == found@.to_multiset(),
{
    let mut out: Vec<(i32, FdKind)> = Vec::new();
    let n = found.len();
    proof {
        assert(found@.take(0) =~= out@);
    }
    for i in 0..n
        invariant
            n == found@.len(),
            sorted_by_fd(out@),
            out@.to_multiset() == found@.take(i as int).to_multiset(),
            forall|k: i32| #[trigger] with_fd(out@, k) == with_fd(found@.take(i as int), k),
    {
        let item = found[i];
        let mut j = out.len();
        while j > 0 && out[j - 1].0 > item.0
            invariant
                j <= out@.len(),
                sorted_by_fd(out@),
                forall|k: int| j <= k < out@.len() ==> (#[trigger] out@[k]).0 > item.0,
            decreases j,
        {
            j -= 1;
        }
        proof {
            assert(j > 0 ==> out@[j - 1].0 <= item.0);
            assert forall|k: int| 0 <= k < j implies (#[trigger] out@[k]).0 <= item.0 by {
                if k < j - 1 {
                    assert(out@[k].0 <= out@[j - 1].0);
                }
            }
            assert(found@.take(i + 1) == found@.take(i as int).push(item));
        }
        let ghost before = out@;
        out.insert(j, item);
        proof {
            assert(out@ == before.insert(j as int, item));
            vstd::seq_lib::to_multiset_insert(before, j as int, item);
            vstd::seq_lib::to_multiset_build(found@.take(i as int), item);
            assert(found@.take(i + 1) == found@.take(i as int).push(found@[i as int]));
            assert forall|k: i32| #[trigger] with_fd(out@, k) == with_fd(found@.take(i + 1), k) by {
                lemma_with_fd_insert(before, j as int, item, k);
                lemma_with_fd_push(found@.take(i as int), item, k);
            }
            assert forall|a: int, b: int| 0 <= a < b < out@.len() implies (#[trigger] out@[a]).0
                <= (#[trigger] out@[b]).0 by {
                if b < j {
                    assert(out@[a] == before[a] && out@[b] == before[b]);
                } else if b == j {
                    assert(out@[a] == before[a]);
                } else if a == j {
                    assert(out@[b] == before[b - 1]);
                } else if a < j {
                    assert(out@[a] == before[a] && out@[b] == before[b - 1]);
                } else {
                    assert(out@[a] == before[a - 1] && out@[b] == before[b - 1]);
                }
            }
        }
    }
    proof {
        assert(found@.take(n as int) == found@);
    }
    out
}

/// The fds of the vCPU entries, in order.
pub open spec fn vcpu_fds<T>(s: Seq<(FdKind, T)>) -> Seq<T>
    decreases s.len(),
{
    if s.len() == 0 {
        Seq::empty()
    } else {
        let rest = vcpu_fds(s.drop_last());
        if s.last().0 == FdKind::Vcpu {
            rest.push(s.last().1)
        } else {
            rest
        }
    }
}

/// The fd of the last VM entry, if any.
pub open spec fn last_vm_fd<T>(s: Seq<(FdKind, T)>) -> Option<T>
    decreases s.len(),
{
    if s.len() == 0 {
        None
    } else if s.last().0 == FdKind::Vm {
        Some(s.last().1)
    } else {
        last_vm_fd(s.drop_last())
    }
}

/// Splits the duplicated fds, in ascending source-fd order, into the VM fd
/// (the last `kvm-vm` one) and the vCPU fds (every `kvm-vcpu` one, in order).
/// Fails when there is no VM fd, or else when there is no vCPU fd.
pub fn split_fds<T>(entries: Vec<(FdKind, T)>) -> (r: Result<(T, Vec<T>), KvmError>)
    ensures
        last_vm_fd(entries@) is None ==> (r matches Err(KvmError::Other(m)) && m@
            == "no kvm-vm fd found in target process"@),
        last_vm_fd(entries@) is Some && vcpu_fds(entries@).len() == 0 ==> (r matches Err(
            KvmError::Other(m),
        ) && m@ == "no kvm-vcpu fds found in target process"@),
        last_vm_fd(entries@) is Some && vcpu_fds(entries@).len() > 0 ==> (r matches Ok(
            (v, vcpus),
        ) && last_vm_fd(entries@) == Some(v) && vcpus@ == vcpu_fds(entries@)),
{
    let ghost orig = entries@;
    let mut entries = entries;
    let mut vm: Option<T> = None;
    let mut vcpus: Vec<T> = Vec::new();
    let n = entries.len();
    let mut k: usize = 0;
    while k < n
        invariant
            k <= n,
            n == orig.len(),
            entries@ == orig.skip(k as int),
            vm == last_vm_fd(orig.take(k as int)),
            vcpus@ == vcpu_fds(orig.take(k as int)),
        decreases n - k,
    {
        let (kind, fd) = entries.remove(0);
        proof {
            assert(orig.take(k + 1).drop_last() == orig.take(k as int));
            assert(orig.take(k + 1).last() == orig[k as int]);
            assert(orig.skip(k as int)[0] == orig[k as int]);
            assert(orig.skip(k as int).remove(0) == orig.skip(k + 1));
        }
        match kind {
            FdKind::Vm => vm = Some(fd),
            FdKind::Vcpu => vcpus.push(fd),
        }
        k += 1;
    }
    proof {
        assert(orig.take(n as int) == orig);
    }
    let vm = match vm {
        Some(vm) => vm,
        None => return Err(KvmError::Other("no kvm-vm fd found in target process")),
    };
    if vcpus.len() == 0 {
        return Err(KvmError::Other("no kvm-vcpu fds found in target process"));
    }
    Ok((vm, vcpus))
}

} // verus!
