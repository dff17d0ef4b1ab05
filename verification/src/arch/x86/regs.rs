//! x86 full-context register types read via the standard KVM ioctls, and the
//! flattening between them and the KVM register records.

use vstd::prelude::*;
use super::sys::{kvm_debugregs, kvm_dtable, kvm_msr_entry, kvm_regs, kvm_segment, kvm_sregs};

verus! {

/// `IA32_SYSENTER_CS`.
pub const MSR_IA32_SYSENTER_CS: u32 = 0x0000_0174;

/// `IA32_SYSENTER_ESP`.
pub const MSR_IA32_SYSENTER_ESP: u32 = 0x0000_0175;

/// `IA32_SYSENTER_EIP`.
pub const MSR_IA32_SYSENTER_EIP: u32 = 0x0000_0176;

/// `IA32_EFER`.
pub const MSR_EFER: u32 = 0xc000_0080;

/// `IA32_STAR`.
pub const MSR_STAR: u32 = 0xc000_0081;

/// `IA32_LSTAR`.
pub const MSR_LSTAR: u32 = 0xc000_0082;

/// `IA32_CSTAR`.
pub const MSR_CSTAR: u32 = 0xc000_0083;

/// `IA32_FMASK` (syscall flag mask).
pub const MSR_FMASK: u32 = 0xc000_0084;

/// `IA32_KERNEL_GS_BASE` (the swapped-out GS base).
pub const MSR_KERNEL_GS_BASE: u32 = 0xc000_0102;

/// `IA32_TSC_AUX`.
pub const MSR_TSC_AUX: u32 = 0xc000_0103;

/// Number of MSRs read alongside the general-purpose and special registers.
pub const NUM_TRACKED_MSRS: usize = 10;

/// One x86 segment in the standard KVM bitfield layout (mirrors `kvm_segment`).
#[derive(Debug, Default, Clone, Copy, PartialEq, Eq, Structural)]
pub struct KvmSegment {
    /// Segment base address.
    pub base: u64,

    /// Segment limit.
    pub limit: u32,

    /// Segment selector.
    pub selector: u16,

    /// Segment type bits.
    pub type_: u8,

    /// Present bit.
    pub present: u8,

    /// Descriptor privilege level.
    pub dpl: u8,

    /// Default/big bit.
    pub db: u8,

    /// Descriptor type bit (1 = code/data, 0 = system).
    pub s: u8,

    /// 64-bit code segment bit.
    pub l: u8,

    /// Granularity bit.
    pub g: u8,

    /// Available-for-software bit.
    pub avl: u8,
}

/// One x86 descriptor-table register (mirrors `kvm_dtable`).
#[derive(Debug, Default, Clone, Copy, PartialEq, Eq, Structural)]
pub struct KvmDtable {
    /// Descriptor-table base address.
    pub base: u64,

    /// Descriptor-table limit.
    pub limit: u16,
}

/// Full vCPU register context read via the standard KVM ioctls: a flat native
/// bundle of the general-purpose, special and debug registers and the tracked
/// MSRs.
#[derive(Debug, Default, Clone, Copy, PartialEq, Eq)]
pub struct Registers {
    /// RAX.
    pub rax: u64,
    /// RBX.
    pub rbx: u64,
    /// RCX.
    pub rcx: u64,
    /// RDX.
    pub rdx: u64,
    /// RSI.
    pub rsi: u64,
    /// RDI.
    pub rdi: u64,
    /// RSP.
    pub rsp: u64,
    /// RBP.
    pub rbp: u64,
    /// R8.
    pub r8: u64,
    /// R9.
    pub r9: u64,
    /// R10.
    pub r10: u64,
    /// R11.
    pub r11: u64,
    /// R12.
    pub r12: u64,
    /// R13.
    pub r13: u64,
    /// R14.
    pub r14: u64,
    /// R15.
    pub r15: u64,
    /// Instruction pointer.
    pub rip: u64,
    /// RFLAGS.
    pub rflags: u64,
    /// CR0.
    pub cr0: u64,
    /// CR2.
    pub cr2: u64,
    /// CR3.
    pub cr3: u64,
    /// CR4.
    pub cr4: u64,
    /// CS segment.
    pub cs: KvmSegment,
    /// DS segment.
    pub ds: KvmSegment,
    /// ES segment.
    pub es: KvmSegment,
    /// FS segment.
    pub fs: KvmSegment,
    /// GS segment.
    pub gs: KvmSegment,
    /// SS segment.
    pub ss: KvmSegment,
    /// Task register.
    pub tr: KvmSegment,
    /// Local descriptor table register.
    pub ldt: KvmSegment,
    /// Global descriptor table register.
    pub gdt: KvmDtable,
    /// Interrupt descriptor table register.
    pub idt: KvmDtable,
    /// Debug address registers DR0-DR3.
    pub db: [u64; 4],
    /// Debug status register DR6.
    pub dr6: u64,
    /// Debug control register DR7.
    pub dr7: u64,
    /// `IA32_EFER`.
    pub efer: u64,
    /// `IA32_STAR`.
    pub star: u64,
    /// `IA32_LSTAR`.
    pub lstar: u64,
    /// `IA32_CSTAR`.
    pub cstar: u64,
    /// `IA32_FMASK` (syscall flag mask).
    pub sfmask: u64,
    /// `IA32_KERNEL_GS_BASE` (the swapped-out GS base).
    pub kernel_gs_base: u64,
    /// `IA32_SYSENTER_CS`.
    pub sysenter_cs: u64,
    /// `IA32_SYSENTER_ESP`.
    pub sysenter_esp: u64,
    /// `IA32_SYSENTER_EIP`.
    pub sysenter_eip: u64,
    /// `IA32_TSC_AUX`.
    pub tsc_aux: u64,
}

/// The MSRs read alongside the general-purpose and special registers.
#[derive(Debug, Default, Clone, Copy, PartialEq, Eq, Structural)]
pub struct Msrs {
    /// `IA32_EFER`.
    pub efer: u64,
    /// `IA32_STAR`.
    pub star: u64,
    /// `IA32_LSTAR`.
    pub lstar: u64,
    /// `IA32_CSTAR`.
    pub cstar: u64,
    /// `IA32_FMASK` (syscall flag mask).
    pub sfmask: u64,
    /// `IA32_KERNEL_GS_BASE` (the swapped-out GS base).
    pub kernel_gs_base: u64,
    /// `IA32_SYSENTER_CS`.
    pub sysenter_cs: u64,
    /// `IA32_SYSENTER_ESP`.
    pub sysenter_esp: u64,
    /// `IA32_SYSENTER_EIP`.
    pub sysenter_eip: u64,
    /// `IA32_TSC_AUX`.
    pub tsc_aux: u64,
}

/// The tracked MSR indices, in the order they are requested.
pub open spec fn tracked_msr_indices() -> Seq<u32> {
    seq![
        MSR_EFER,
        MSR_STAR,
        MSR_LSTAR,
        MSR_CSTAR,
        MSR_FMASK,
        MSR_KERNEL_GS_BASE,
        MSR_IA32_SYSENTER_CS,
        MSR_IA32_SYSENTER_ESP,
        MSR_IA32_SYSENTER_EIP,
        MSR_TSC_AUX,
    ]
}

/// The MSR bundle that a filled request holds: the value of the entry at each
/// index's position.
pub open spec fn msrs_from_entries(e: Seq<kvm_msr_entry>) -> Msrs {
    Msrs {
        efer: e[0].data,
        star: e[1].data,
        lstar: e[2].data,
        cstar: e[3].data,
        sfmask: e[4].data,
        kernel_gs_base: e[5].data,
        sysenter_cs: e[6].data,
        sysenter_esp: e[7].data,
        sysenter_eip: e[8].data,
        tsc_aux: e[9].data,
    }
}

impl Msrs {
    /// Builds the `KVM_GET_MSRS` request for the tracked MSRs: one entry per
    /// tracked index, in order, with zero data.
    pub fn request_entries() -> (r: Vec<kvm_msr_entry>)
        ensures
            r@.len() == tracked_msr_indices().len(),
            forall|i: int|
                0 <= i < r@.len() ==> (#[trigger] r@[i]) == (kvm_msr_entry {
                    index: tracked_msr_indices()[i],
                    reserved: 0,
                    data: 0,
                }),
    {
        let indices: [u32; 10] = [
            MSR_EFER,
            MSR_STAR,
            MSR_LSTAR,
            MSR_CSTAR,
            MSR_FMASK,
            MSR_KERNEL_GS_BASE,
            MSR_IA32_SYSENTER_CS,
            MSR_IA32_SYSENTER_ESP,
            MSR_IA32_SYSENTER_EIP,
            MSR_TSC_AUX,
        ];
        assert(indices@ == tracked_msr_indices());
        let mut entries: Vec<kvm_msr_entry> = Vec::new();
        for i in 0..10
            invariant
                indices@ == tracked_msr_indices(),
                entries@.len() == i,
                forall|j: int|
                    0 <= j < i ==> (#[trigger] entries@[j]) == (kvm_msr_entry {
                        index: tracked_msr_indices()[j],
                        reserved: 0,
                        data: 0,
                    }),
        {
            entries.push(kvm_msr_entry { index: indices[i], reserved: 0, data: 0 });
        }
        entries
    }

    /// Reads the tracked MSRs out of a filled `KVM_GET_MSRS` request, by the
    /// position each index was requested at.
    pub fn from_entries(entries: &Vec<kvm_msr_entry>) -> (r: Msrs)
        requires
            entries@.len() >= NUM_TRACKED_MSRS,
        ensures
            r == msrs_from_entries(entries@),
    {
        Msrs {
            efer: entries[0].data,
            star: entries[1].data,
            lstar: entries[2].data,
            cstar: entries[3].data,
            sfmask: entries[4].data,
            kernel_gs_base: entries[5].data,
            sysenter_cs: entries[6].data,
            sysenter_esp: entries[7].data,
            sysenter_eip: entries[8].data,
            tsc_aux: entries[9].data,
        }
    }
}

/// The native copy of a KVM segment (the `unusable` and padding bytes are
/// dropped).
pub open spec fn segment_from_kvm(s: kvm_segment) -> KvmSegment {
    KvmSegment {
        base: s.base,
        limit: s.limit,
        selector: s.selector,
        type_: s.type_,
        present: s.present,
        dpl: s.dpl,
        db: s.db,
        s: s.s,
        l: s.l,
        g: s.g,
        avl: s.avl,
    }
}

/// The KVM copy of a native segment, with the `unusable` and padding bytes
/// zero.
pub open spec fn segment_to_kvm(s: KvmSegment) -> kvm_segment {
    kvm_segment {
        base: s.base,
        limit: s.limit,
        selector: s.selector,
        type_: s.type_,
        present: s.present,
        dpl: s.dpl,
        db: s.db,
        s: s.s,
        l: s.l,
        g: s.g,
        avl: s.avl,
        unusable: 0,
        padding: 0,
    }
}

/// The full register context assembled from the four reads: general-purpose
/// registers from `regs`, control registers, segments and descriptor tables
/// from `sregs`, debug registers from `dregs`, and the MSRs (EFER included)
/// from `msrs`.
pub open spec fn registers_from_kvm(
    regs: kvm_regs,
    sregs: kvm_sregs,
    dregs: kvm_debugregs,
    msrs: Msrs,
) -> Registers {
    Registers {
        rax: regs.rax,
        rbx: regs.rbx,
        rcx: regs.rcx,
        rdx: regs.rdx,
        rsi: regs.rsi,
        rdi: regs.rdi,
        rsp: regs.rsp,
        rbp: regs.rbp,
        r8: regs.r8,
        r9: regs.r9,
        r10: regs.r10,
        r11: regs.r11,
        r12: regs.r12,
        r13: regs.r13,
        r14: regs.r14,
        r15: regs.r15,
        rip: regs.rip,
        rflags: regs.rflags,
        cr0: sregs.cr0,
        cr2: sregs.cr2,
        cr3: sregs.cr3,
        cr4: sregs.cr4,
        cs: segment_from_kvm(sregs.cs),
        ds: segment_from_kvm(sregs.ds),
        es: segment_from_kvm(sregs.es),
        fs: segment_from_kvm(sregs.fs),
        gs: segment_from_kvm(sregs.gs),
        ss: segment_from_kvm(sregs.ss),
        tr: segment_from_kvm(sregs.tr),
        ldt: segment_from_kvm(sregs.ldt),
        gdt: KvmDtable { base: sregs.gdt.base, limit: sregs.gdt.limit },
        idt: KvmDtable { base: sregs.idt.base, limit: sregs.idt.limit },
        db: dregs.db,
        dr6: dregs.dr6,
        dr7: dregs.dr7,
        efer: msrs.efer,
        star: msrs.star,
        lstar: msrs.lstar,
        cstar: msrs.cstar,
        sfmask: msrs.sfmask,
        kernel_gs_base: msrs.kernel_gs_base,
        sysenter_cs: msrs.sysenter_cs,
        sysenter_esp: msrs.sysenter_esp,
        sysenter_eip: msrs.sysenter_eip,
        tsc_aux: msrs.tsc_aux,
    }
}

/// The `KVM_SET_REGS` record of a register context.
pub open spec fn registers_to_kvm_regs(r: Registers) -> kvm_regs {
    kvm_regs {
        rax: r.rax,
        rbx: r.rbx,
        rcx: r.rcx,
        rdx: r.rdx,
        rsi: r.rsi,
        rdi: r.rdi,
        rsp: r.rsp,
        rbp: r.rbp,
        r8: r.r8,
        r9: r.r9,
        r10: r.r10,
        r11: r.r11,
        r12: r.r12,
        r13: r.r13,
        r14: r.r14,
        r15: r.r15,
        rip: r.rip,
        rflags: r.rflags,
    }
}

/// The `KVM_SET_SREGS` record of a register context: segments, descriptor
/// tables, CR0/2/3/4 and EFER, with CR8 and the APIC base zero.
pub open spec fn registers_to_kvm_sregs(r: Registers) -> kvm_sregs {
    kvm_sregs {
        cs: segment_to_kvm(r.cs),
        ds: segment_to_kvm(r.ds),
        es: segment_to_kvm(r.es),
        fs: segment_to_kvm(r.fs),
        gs: segment_to_kvm(r.gs),
        ss: segment_to_kvm(r.ss),
        tr: segment_to_kvm(r.tr),
        ldt: segment_to_kvm(r.ldt),
        gdt: kvm_dtable { base: r.gdt.base, limit: r.gdt.limit },
        idt: kvm_dtable { base: r.idt.base, limit: r.idt.limit },
        cr0: r.cr0,
        cr2: r.cr2,
        cr3: r.cr3,
        cr4: r.cr4,
        cr8: 0,
        efer: r.efer,
        apic_base: 0,
    }
}

fn seg(s: &kvm_segment) -> (r: KvmSegment)
    ensures
        r == segment_from_kvm(*s),
{
    KvmSegment {
        base: s.base,
        limit: s.limit,
        selector: s.selector,
        type_: s.type_,
        present: s.present,
        dpl: s.dpl,
        db: s.db,
        s: s.s,
        l: s.l,
        g: s.g,
        avl: s.avl,
    }
}

fn unseg(s: &KvmSegment) -> (r: kvm_segment)
    ensures
        r == segment_to_kvm(*s),
{
    kvm_segment {
        base: s.base,
        limit: s.limit,
        selector: s.selector,
        type_: s.type_,
        present: s.present,
        dpl: s.dpl,
        db: s.db,
        s: s.s,
        l: s.l,
        g: s.g,
        avl: s.avl,
        unusable: 0,
        padding: 0,
    }
}

impl Registers {
    /// Flattens the results of `KVM_GET_REGS`, `KVM_GET_SREGS`,
    /// `KVM_GET_DEBUGREGS` and `KVM_GET_MSRS` into one register context.
    pub fn from_kvm(
        regs: &kvm_regs,
        sregs: &kvm_sregs,
        dregs: &kvm_debugregs,
        msrs: &Msrs,
    ) -> (r: Registers)
        ensures
            r == registers_from_kvm(*regs, *sregs, *dregs, *msrs),
    {
        Registers {
            rax: regs.rax,
            rbx: regs.rbx,
            rcx: regs.rcx,
            rdx: regs.rdx,
            rsi: regs.rsi,
            rdi: regs.rdi,
            rsp: regs.rsp,
            rbp: regs.rbp,
            r8: regs.r8,
            r9: regs.r9,
            r10: regs.r10,
            r11: regs.r11,
            r12: regs.r12,
            r13: regs.r13,
            r14: regs.r14,
            r15: regs.r15,
            rip: regs.rip,
            rflags: regs.rflags,
            cr0: sregs.cr0,
            cr2: sregs.cr2,
            cr3: sregs.cr3,
            cr4: sregs.cr4,
            cs: seg(&sregs.cs),
            ds: seg(&sregs.ds),
            es: seg(&sregs.es),
            fs: seg(&sregs.fs),
            gs: seg(&sregs.gs),
            ss: seg(&sregs.ss),
            tr: seg(&sregs.tr),
            ldt: seg(&sregs.ldt),
            gdt: KvmDtable { base: sregs.gdt.base, limit: sregs.gdt.limit },
            idt: KvmDtable { base: sregs.idt.base, limit: sregs.idt.limit },
            db: dregs.db,
            dr6: dregs.dr6,
            dr7: dregs.dr7,
            efer: msrs.efer,
            star: msrs.star,
            lstar: msrs.lstar,
            cstar: msrs.cstar,
            sfmask: msrs.sfmask,
            kernel_gs_base: msrs.kernel_gs_base,
            sysenter_cs: msrs.sysenter_cs,
            sysenter_esp: msrs.sysenter_esp,
            sysenter_eip: msrs.sysenter_eip,
            tsc_aux: msrs.tsc_aux,
        }
    }

    /// The general-purpose registers to write with `KVM_SET_REGS`.
    pub fn to_kvm_regs(&self) -> (r: kvm_regs)
        ensures
            r == registers_to_kvm_regs(*self),
    {
        kvm_regs {
            rax: self.rax,
            rbx: self.rbx,
            rcx: self.rcx,
            rdx: self.rdx,
            rsi: self.rsi,
            rdi: self.rdi,
            rsp: self.rsp,
            rbp: self.rbp,
            r8: self.r8,
            r9: self.r9,
            r10: self.r10,
            r11: self.r11,
            r12: self.r12,
            r13: self.r13,
            r14: self.r14,
            r15: self.r15,
            rip: self.rip,
            rflags: self.rflags,
        }
    }

    /// The special registers to write with `KVM_SET_SREGS`; EFER travels
    /// here. Debug registers and the other MSRs are not part of it.
    pub fn to_kvm_sregs(&self) -> (r: kvm_sregs)
        ensures
            r == registers_to_kvm_sregs(*self),
    {
        kvm_sregs {
            cs: unseg(&self.cs),
            ds: unseg(&self.ds),
            es: unseg(&self.es),
            fs: unseg(&self.fs),
            gs: unseg(&self.gs),
            ss: unseg(&self.ss),
            tr: unseg(&self.tr),
            ldt: unseg(&self.ldt),
            gdt: kvm_dtable { base: self.gdt.base, limit: self.gdt.limit },
            idt: kvm_dtable { base: self.idt.base, limit: self.idt.limit },
            cr0: self.cr0,
            cr2: self.cr2,
            cr3: self.cr3,
            cr4: self.cr4,
            cr8: 0,
            efer: self.efer,
            apic_base: 0,
        }
    }
}

} // verus!

verus! {

/// Every register is copied to the register of the same name, and every
/// segment field to the field of the same name: reading takes `rax` from the
/// `rax` of `KVM_GET_REGS`, `cr3` from the `cr3` of `KVM_GET_SREGS`, `dr7` from
/// the debug-register read, `star` from the `star` of the MSR bundle, and so
/// on; writing puts each register back in its own slot. Each of the eight
/// segments is read from and written to the segment of its own name.
pub proof fn lemma_registers_copied_by_name(
    regs: kvm_regs,
    sregs: kvm_sregs,
    dregs: kvm_debugregs,
    msrs: Msrs,
    r: Registers,
    k: kvm_segment,
    n: KvmSegment,
)
    ensures
        ({
            let f = registers_from_kvm(regs, sregs, dregs, msrs);
            &&& f.rax == regs.rax
            &&& f.rbx == regs.rbx
            &&& f.rcx == regs.rcx
            &&& f.rdx == regs.rdx
            &&& f.rsi == regs.rsi
            &&& f.rdi == regs.rdi
            &&& f.rsp == regs.rsp
            &&& f.rbp == regs.rbp
            &&& f.r8 == regs.r8
            &&& f.r9 == regs.r9
            &&& f.r10 == regs.r10
            &&& f.r11 == regs.r11
            &&& f.r12 == regs.r12
            &&& f.r13 == regs.r13
            &&& f.r14 == regs.r14
            &&& f.r15 == regs.r15
            &&& f.rip == regs.rip
            &&& f.rflags == regs.rflags
            &&& f.cr0 == sregs.cr0
            &&& f.cr2 == sregs.cr2
            &&& f.cr3 == sregs.cr3
            &&& f.cr4 == sregs.cr4
            &&& f.gdt.base == sregs.gdt.base && f.gdt.limit == sregs.gdt.limit
            &&& f.idt.base == sregs.idt.base && f.idt.limit == sregs.idt.limit
            &&& f.db == dregs.db
            &&& f.dr6 == dregs.dr6
            &&& f.dr7 == dregs.dr7
            &&& f.efer == msrs.efer
            &&& f.star == msrs.star
            &&& f.lstar == msrs.lstar
            &&& f.cstar == msrs.cstar
            &&& f.sfmask == msrs.sfmask
            &&& f.kernel_gs_base == msrs.kernel_gs_base
            &&& f.sysenter_cs == msrs.sysenter_cs
            &&& f.sysenter_esp == msrs.sysenter_esp
            &&& f.sysenter_eip == msrs.sysenter_eip
            &&& f.tsc_aux == msrs.tsc_aux
            &&& f.cs == segment_from_kvm(sregs.cs) && f.ds == segment_from_kvm(sregs.ds)
            &&& f.es == segment_from_kvm(sregs.es) && f.fs == segment_from_kvm(sregs.fs)
            &&& f.gs == segment_from_kvm(sregs.gs) && f.ss == segment_from_kvm(sregs.ss)
            &&& f.tr == segment_from_kvm(sregs.tr) && f.ldt == segment_from_kvm(sregs.ldt)
        }),
        ({
            let w = registers_to_kvm_regs(r);
            let sw = registers_to_kvm_sregs(r);
            &&& w.rax == r.rax
            &&& w.rbx == r.rbx
            &&& w.rcx == r.rcx
            &&& w.rdx == r.rdx
            &&& w.rsi == r.rsi
            &&& w.rdi == r.rdi
            &&& w.rsp == r.rsp
            &&& w.rbp == r.rbp
            &&& w.r8 == r.r8
            &&& w.r9 == r.r9
            &&& w.r10 == r.r10
            &&& w.r11 == r.r11
            &&& w.r12 == r.r12
            &&& w.r13 == r.r13
            &&& w.r14 == r.r14
            &&& w.r15 == r.r15
            &&& w.rip == r.rip
            &&& w.rflags == r.rflags
            &&& sw.cr0 == r.cr0
            &&& sw.cr2 == r.cr2
            &&& sw.cr3 == r.cr3
            &&& sw.cr4 == r.cr4
            &&& sw.efer == r.efer
            &&& sw.gdt.base == r.gdt.base && sw.gdt.limit == r.gdt.limit
            &&& sw.idt.base == r.idt.base && sw.idt.limit == r.idt.limit
            &&& sw.cs == segment_to_kvm(r.cs) && sw.ds == segment_to_kvm(r.ds)
            &&& sw.es == segment_to_kvm(r.es) && sw.fs == segment_to_kvm(r.fs)
            &&& sw.gs == segment_to_kvm(r.gs) && sw.ss == segment_to_kvm(r.ss)
            &&& sw.tr == segment_to_kvm(r.tr) && sw.ldt == segment_to_kvm(r.ldt)
        }),
        ({
            &&& segment_from_kvm(k).base == k.base
            &&& segment_from_kvm(k).limit == k.limit
            &&& segment_from_kvm(k).selector == k.selector
            &&& segment_from_kvm(k).type_ == k.type_
            &&& segment_from_kvm(k).present == k.present
            &&& segment_from_kvm(k).dpl == k.dpl
            &&& segment_from_kvm(k).db == k.db
            &&& segment_from_kvm(k).s == k.s
            &&& segment_from_kvm(k).l == k.l
            &&& segment_from_kvm(k).g == k.g
            &&& segment_from_kvm(k).avl == k.avl
        }),
        ({
            &&& segment_to_kvm(n).base == n.base
            &&& segment_to_kvm(n).limit == n.limit
            &&& segment_to_kvm(n).selector == n.selector
            &&& segment_to_kvm(n).type_ == n.type_
            &&& segment_to_kvm(n).present == n.present
            &&& segment_to_kvm(n).dpl == n.dpl
            &&& segment_to_kvm(n).db == n.db
            &&& segment_to_kvm(n).s == n.s
            &&& segment_to_kvm(n).l == n.l
            &&& segment_to_kvm(n).g == n.g
            &&& segment_to_kvm(n).avl == n.avl
        }),
        segment_to_kvm(n).unusable == 0 && segment_to_kvm(n).padding == 0,
{
}

/// Each MSR of the bundle is read from the entry that carries that MSR's
/// index: in a filled request whose entries hold the tracked indices in the
/// order they were requested, `star` is the data of the `MSR_STAR` entry,
/// `cstar` that of the `MSR_CSTAR` entry, and so on for every tracked MSR.
pub proof fn lemma_msrs_read_by_index(e: Seq<kvm_msr_entry>)
    requires
        e.len() >= NUM_TRACKED_MSRS,
        forall|i: int|
            0 <= i < NUM_TRACKED_MSRS ==> (#[trigger] e[i]).index == tracked_msr_indices()[i],
    ensures
        forall|k: int|
            0 <= k < NUM_TRACKED_MSRS && (#[trigger] e[k]).index == MSR_EFER
                ==> msrs_from_entries(e).efer == e[k].data,
        forall|k: int|
            0 <= k < NUM_TRACKED_MSRS && (#[trigger] e[k]).index == MSR_STAR
                ==> msrs_from_entries(e).star == e[k].data,
        forall|k: int|
            0 <= k < NUM_TRACKED_MSRS && (#[trigger] e[k]).index == MSR_LSTAR
                ==> msrs_from_entries(e).lstar == e[k].data,
        forall|k: int|
            0 <= k < NUM_TRACKED_MSRS && (#[trigger] e[k]).index == MSR_CSTAR
                ==> msrs_from_entries(e).cstar == e[k].data,
        forall|k: int|
            0 <= k < NUM_TRACKED_MSRS && (#[trigger] e[k]).index == MSR_FMASK
                ==> msrs_from_entries(e).sfmask == e[k].data,
        forall|k: int|
            0 <= k < NUM_TRACKED_MSRS && (#[trigger] e[k]).index == MSR_KERNEL_GS_BASE
                ==> msrs_from_entries(e).kernel_gs_base == e[k].data,
        forall|k: int|
            0 <= k < NUM_TRACKED_MSRS && (#[trigger] e[k]).index == MSR_IA32_SYSENTER_CS
                ==> msrs_from_entries(e).sysenter_cs == e[k].data,
        forall|k: int|
            0 <= k < NUM_TRACKED_MSRS && (#[trigger] e[k]).index == MSR_IA32_SYSENTER_ESP
                ==> msrs_from_entries(e).sysenter_esp == e[k].data,
        forall|k: int|
            0 <= k < NUM_TRACKED_MSRS && (#[trigger] e[k]).index == MSR_IA32_SYSENTER_EIP
                ==> msrs_from_entries(e).sysenter_eip == e[k].data,
        forall|k: int|
            0 <= k < NUM_TRACKED_MSRS && (#[trigger] e[k]).index == MSR_TSC_AUX
                ==> msrs_from_entries(e).tsc_aux == e[k].data,
{
    assert forall|k: int| 0 <= k < NUM_TRACKED_MSRS implies {
            &&& (e[k].index == MSR_EFER ==> k == 0)
            &&& (e[k].index == MSR_STAR ==> k == 1)
            &&& (e[k].index == MSR_LSTAR ==> k == 2)
            &&& (e[k].index == MSR_CSTAR ==> k == 3)
            &&& (e[k].index == MSR_FMASK ==> k == 4)
            &&& (e[k].index == MSR_KERNEL_GS_BASE ==> k == 5)
            &&& (e[k].index == MSR_IA32_SYSENTER_CS ==> k == 6)
            &&& (e[k].index == MSR_IA32_SYSENTER_ESP ==> k == 7)
            &&& (e[k].index == MSR_IA32_SYSENTER_EIP ==> k == 8)
            &&& (e[k].index == MSR_TSC_AUX ==> k == 9)
        } by {
        assert(e[k].index == tracked_msr_indices()[k]);
        if k == 0 {
        } else if k == 1 {
        } else if k == 2 {
        } else if k == 3 {
        } else if k == 4 {
        } else if k == 5 {
        } else if k == 6 {
        } else if k == 7 {
        } else if k == 8 {
        } else if k == 9 {
        }
    }
}

/// Writing a register context with `KVM_SET_REGS`/`KVM_SET_SREGS` and reading
/// it back gives the same context, except for the fields that are not written
/// back: the debug registers come from the debug-register read, and the MSRs
/// (EFER included) from the MSR read.
pub proof fn lemma_set_then_get(r: Registers, dregs: kvm_debugregs, msrs: Msrs)
    ensures
        registers_from_kvm(registers_to_kvm_regs(r), registers_to_kvm_sregs(r), dregs, msrs) == (
        Registers {
            db: dregs.db,
            dr6: dregs.dr6,
            dr7: dregs.dr7,
            efer: msrs.efer,
            star: msrs.star,
            lstar: msrs.lstar,
            cstar: msrs.cstar,
            sfmask: msrs.sfmask,
            kernel_gs_base: msrs.kernel_gs_base,
            sysenter_cs: msrs.sysenter_cs,
            sysenter_esp: msrs.sysenter_esp,
            sysenter_eip: msrs.sysenter_eip,
            tsc_aux: msrs.tsc_aux,
            ..r
        }),
{
}

/// The debug registers and the MSRs other than EFER are not written back:
/// changing them changes neither the `KVM_SET_REGS` nor the `KVM_SET_SREGS`
/// record.
pub proof fn lemma_unwritten_fields(r: Registers, dregs: kvm_debugregs, msrs: Msrs)
    ensures
        ({
            let r2 = Registers {
                db: dregs.db,
                dr6: dregs.dr6,
                dr7: dregs.dr7,
                star: msrs.star,
                lstar: msrs.lstar,
                cstar: msrs.cstar,
                sfmask: msrs.sfmask,
                kernel_gs_base: msrs.kernel_gs_base,
                sysenter_cs: msrs.sysenter_cs,
                sysenter_esp: msrs.sysenter_esp,
                sysenter_eip: msrs.sysenter_eip,
                tsc_aux: msrs.tsc_aux,
                ..r
            };
            &&& registers_to_kvm_regs(r2) == registers_to_kvm_regs(r)
            &&& registers_to_kvm_sregs(r2) == registers_to_kvm_sregs(r)
        }),
{
}

} // verus!
