//! arm64 register ids for `KVM_GET_ONE_REG`/`KVM_SET_ONE_REG` and the full
//! register context assembled from them.

use vstd::prelude::*;

verus! {

/// Base bits shared by every 64-bit arm64 register id.
pub const KVM_REG_ARM64: u64 = 0x6000_0000_0000_0000;

/// Size field marking a 64-bit register value.
pub const KVM_REG_SIZE_U64: u64 = 0x0030_0000_0000_0000;

/// Coprocessor field selecting the core-register block.
pub const KVM_REG_ARM_CORE: u64 = 0x0000_0000_0010_0000;

/// Coprocessor field selecting the system-register block.
pub const KVM_REG_ARM64_SYSREG: u64 = 0x0000_0000_0013_0000;

/// One addressable core register in `struct kvm_regs`.
#[derive(Debug, Clone, Copy, PartialEq, Eq, Structural)]
pub enum CoreReg {
    /// General-purpose register `x<n>`, n in 0..=30.
    X(u8),

    /// Stack pointer at EL0 (`regs.sp`).
    Sp,

    /// Program counter (`regs.pc`).
    Pc,

    /// Processor state (`regs.pstate`).
    Pstate,

    /// Holds the EL1 banked stack pointer in the kvm_regs CORE block.
    SpEl1,

    /// Holds the EL1 exception link register in the kvm_regs CORE block.
    ElrEl1,

    /// Holds the EL1 saved program status register in the kvm_regs CORE block.
    SpsrEl1,
}

/// The field index of a core register: its offset in `struct kvm_regs` in
/// 32-bit words.
pub open spec fn core_reg_index(reg: CoreReg) -> u64 {
    match reg {
        CoreReg::X(n) => ((n as u64) * 2) as u64,
        CoreReg::Sp => 62,
        CoreReg::Pc => 64,
        CoreReg::Pstate => 66,
        CoreReg::SpEl1 => 68,
        CoreReg::ElrEl1 => 70,
        CoreReg::SpsrEl1 => 72,
    }
}

/// The `kvm_one_reg` id of a core register.
pub open spec fn core_reg_id_spec(reg: CoreReg) -> u64 {
    KVM_REG_ARM64 | KVM_REG_SIZE_U64 | KVM_REG_ARM_CORE | core_reg_index(reg)
}

/// Returns the `kvm_one_reg` id for a core register.
pub fn core_reg_id(reg: CoreReg) -> (id: u64)
    ensures
        id == core_reg_id_spec(reg),
{
    let index: u64 = match reg {
        CoreReg::X(n) => (n as u64) * 2,
        CoreReg::Sp => 62,
        CoreReg::Pc => 64,
        CoreReg::Pstate => 66,
        CoreReg::SpEl1 => 68,
        CoreReg::ElrEl1 => 70,
        CoreReg::SpsrEl1 => 72,
    };
    KVM_REG_ARM64 | KVM_REG_SIZE_U64 | KVM_REG_ARM_CORE | index
}

/// The `kvm_one_reg` id of a system register by its encoding: each field is
/// shifted to its place and cut to its width (op0 2 bits, op1 3, CRn 4, CRm
/// 4, op2 3).
pub open spec fn sysreg_id_spec(op0: u64, op1: u64, crn: u64, crm: u64, op2: u64) -> u64 {
    KVM_REG_ARM64 | KVM_REG_SIZE_U64 | KVM_REG_ARM64_SYSREG | ((op0 << 14) & 0xc000) | ((op1
        << 11) & 0x3800) | ((crn << 7) & 0x780) | ((crm << 3) & 0x78) | (op2 & 0x7)
}

/// Returns the `kvm_one_reg` id for a system register by its encoding.
pub fn sysreg_id(op0: u64, op1: u64, crn: u64, crm: u64, op2: u64) -> (id: u64)
    ensures
        id == sysreg_id_spec(op0, op1, crn, crm, op2),
{
    KVM_REG_ARM64 | KVM_REG_SIZE_U64 | KVM_REG_ARM64_SYSREG | ((op0 << 14) & 0xc000) | ((op1
        << 11) & 0x3800) | ((crn << 7) & 0x780) | ((crm << 3) & 0x78) | (op2 & 0x7)
}

/// `KVM_ONE_REG` id for `TTBR0_EL1` (op0 3, op1 0, CRn 2, CRm 0, op2 0).
pub const TTBR0_EL1: u64 = 0x6030_0000_0013_c100;

/// `KVM_ONE_REG` id for `TTBR1_EL1` (3, 0, 2, 0, 1).
pub const TTBR1_EL1: u64 = 0x6030_0000_0013_c101;

/// `KVM_ONE_REG` id for `TCR_EL1` (3, 0, 2, 0, 2).
pub const TCR_EL1: u64 = 0x6030_0000_0013_c102;

/// `KVM_ONE_REG` id for `SCTLR_EL1` (3, 0, 1, 0, 0).
pub const SCTLR_EL1: u64 = 0x6030_0000_0013_c080;

/// `KVM_ONE_REG` id for `VBAR_EL1` (3, 0, 12, 0, 0).
pub const VBAR_EL1: u64 = 0x6030_0000_0013_c600;

/// `KVM_ONE_REG` id for `MAIR_EL1` (3, 0, 10, 2, 0).
pub const MAIR_EL1: u64 = 0x6030_0000_0013_c510;

/// `KVM_ONE_REG` id for `CONTEXTIDR_EL1` (3, 0, 13, 0, 1).
pub const CONTEXTIDR_EL1: u64 = 0x6030_0000_0013_c681;

/// `KVM_ONE_REG` id for `ESR_EL1` (3, 0, 5, 2, 0).
pub const ESR_EL1: u64 = 0x6030_0000_0013_c290;

/// `KVM_ONE_REG` id for `FAR_EL1` (3, 0, 6, 0, 0).
pub const FAR_EL1: u64 = 0x6030_0000_0013_c300;

/// `KVM_ONE_REG` id for `TPIDR_EL0` (3, 3, 13, 0, 2).
pub const TPIDR_EL0: u64 = 0x6030_0000_0013_de82;

/// `KVM_ONE_REG` id for `TPIDR_EL1` (3, 0, 13, 0, 4).
pub const TPIDR_EL1: u64 = 0x6030_0000_0013_c684;

/// `KVM_ONE_REG` id for `TPIDRRO_EL0` (3, 3, 13, 0, 3).
pub const TPIDRRO_EL0: u64 = 0x6030_0000_0013_de83;

/// Number of registers in the full context: x0-x30 and 18 more.
pub const NUM_REGISTERS: usize = 49;

/// Full vCPU register context read via `KVM_GET_ONE_REG`.
#[derive(Debug, Default, Clone, Copy, PartialEq, Eq)]
pub struct Registers {
    /// General-purpose registers x0-x30.
    pub regs: [u64; 31],
    /// Stack pointer at EL0.
    pub sp_el0: u64,
    /// Stack pointer at EL1.
    pub sp_el1: u64,
    /// Program counter.
    pub pc: u64,
    /// Processor state.
    pub pstate: u64,
    /// Translation table base register 0 at EL1.
    pub ttbr0_el1: u64,
    /// Translation table base register 1 at EL1.
    pub ttbr1_el1: u64,
    /// Translation control register at EL1.
    pub tcr_el1: u64,
    /// System control register at EL1.
    pub sctlr_el1: u64,
    /// Memory attribute indirection register at EL1.
    pub mair_el1: u64,
    /// Vector base address register at EL1.
    pub vbar_el1: u64,
    /// Context ID register at EL1.
    pub contextidr_el1: u64,
    /// Exception link register at EL1.
    pub elr_el1: u64,
    /// Saved program status register at EL1.
    pub spsr_el1: u64,
    /// Exception syndrome register at EL1.
    pub esr_el1: u64,
    /// Fault address register at EL1.
    pub far_el1: u64,
    /// Thread ID register (EL0 read/write).
    pub tpidr_el0: u64,
    /// Thread ID register at EL1.
    pub tpidr_el1: u64,
    /// Thread ID register (EL0 read-only).
    pub tpidrro_el0: u64,
}

/// The ids of the registers of the full context, in the order they are read
/// and written: x0-x30, then SP_EL0, SP_EL1, PC, PSTATE, TTBR0, TTBR1, TCR,
/// SCTLR, MAIR, VBAR, CONTEXTIDR, ELR_EL1, SPSR_EL1, ESR, FAR, TPIDR_EL0,
/// TPIDR_EL1 and TPIDRRO_EL0.
pub open spec fn register_id_seq() -> Seq<u64> {
    Seq::new(31, |n: int| core_reg_id_spec(CoreReg::X(n as u8))) + seq![
        core_reg_id_spec(CoreReg::Sp),
        core_reg_id_spec(CoreReg::SpEl1),
        core_reg_id_spec(CoreReg::Pc),
        core_reg_id_spec(CoreReg::Pstate),
        TTBR0_EL1,
        TTBR1_EL1,
        TCR_EL1,
        SCTLR_EL1,
        MAIR_EL1,
        VBAR_EL1,
        CONTEXTIDR_EL1,
        core_reg_id_spec(CoreReg::ElrEl1),
        core_reg_id_spec(CoreReg::SpsrEl1),
        ESR_EL1,
        FAR_EL1,
        TPIDR_EL0,
        TPIDR_EL1,
        TPIDRRO_EL0,
    ]
}

/// The values of a register context, in the order of `register_id_seq`.
pub open spec fn register_values(r: Registers) -> Seq<u64> {
    r.regs@ + seq![
        r.sp_el0,
        r.sp_el1,
        r.pc,
        r.pstate,
        r.ttbr0_el1,
        r.ttbr1_el1,
        r.tcr_el1,
        r.sctlr_el1,
        r.mair_el1,
        r.vbar_el1,
        r.contextidr_el1,
        r.elr_el1,
        r.spsr_el1,
        r.esr_el1,
        r.far_el1,
        r.tpidr_el0,
        r.tpidr_el1,
        r.tpidrro_el0,
    ]
}

/// Returns the `kvm_one_reg` ids of the full register context, in the order
/// `get_registers` reads them and `set_registers` writes them.
pub fn register_ids() -> (ids: Vec<u64>)
    ensures
        ids@ == register_id_seq(),
{
    let mut ids: Vec<u64> = Vec::new();
    for n in 0u8..31
        invariant
            ids@ =~= Seq::new(n as nat, |i: int| core_reg_id_spec(CoreReg::X(i as u8))),
    {
        ids.push(core_reg_id(CoreReg::X(n)));
    }
    ids.push(core_reg_id(CoreReg::Sp));
    ids.push(core_reg_id(CoreReg::SpEl1));
    ids.push(core_reg_id(CoreReg::Pc));
    ids.push(core_reg_id(CoreReg::Pstate));
    ids.push(TTBR0_EL1);
    ids.push(TTBR1_EL1);
    ids.push(TCR_EL1);
    ids.push(SCTLR_EL1);
    ids.push(MAIR_EL1);
    ids.push(VBAR_EL1);
    ids.push(CONTEXTIDR_EL1);
    ids.push(core_reg_id(CoreReg::ElrEl1));
    ids.push(core_reg_id(CoreReg::SpsrEl1));
    ids.push(ESR_EL1);
    ids.push(FAR_EL1);
    ids.push(TPIDR_EL0);
    ids.push(TPIDR_EL1);
    ids.push(TPIDRRO_EL0);
    assert(ids@ =~= register_id_seq());
    ids
}

impl Registers {
    /// The values to write back, in the order of `register_ids`.
    pub fn values(&self) -> (v: Vec<u64>)
        ensures
            v@ == register_values(*self),
    {
        let mut v: Vec<u64> = Vec::new();
        for n in 0usize..31
            invariant
                v@ =~= self.regs@.subrange(0, n as int),
        {
            v.push(self.regs[n]);
        }
        v.push(self.sp_el0);
        v.push(self.sp_el1);
        v.push(self.pc);
        v.push(self.pstate);
        v.push(self.ttbr0_el1);
        v.push(self.ttbr1_el1);
        v.push(self.tcr_el1);
        v.push(self.sctlr_el1);
        v.push(self.mair_el1);
        v.push(self.vbar_el1);
        v.push(self.contextidr_el1);
        v.push(self.elr_el1);
        v.push(self.spsr_el1);
        v.push(self.esr_el1);
        v.push(self.far_el1);
        v.push(self.tpidr_el0);
        v.push(self.tpidr_el1);
        v.push(self.tpidrro_el0);
        assert(v@ =~= register_values(*self));
        v
    }

    /// Assembles the register context from the values read for
    /// `register_ids`, position by position.
    pub fn from_values(values: &Vec<u64>) -> (r: Registers)
        requires
            values@.len() == NUM_REGISTERS,
        ensures
            register_values(r) == values@,
    {
        let mut regs = [0u64; 31];
        for n in 0usize..31
            invariant
                values@.len() == NUM_REGISTERS,
                forall|i: int| 0 <= i < n ==> regs@[i] == values@[i],
        {
            regs[n] = values[n];
        }
        let r = Registers {
            regs,
            sp_el0: values[31],
            sp_el1: values[32],
            pc: values[33],
            pstate: values[34],
            ttbr0_el1: values[35],
            ttbr1_el1: values[36],
            tcr_el1: values[37],
            sctlr_el1: values[38],
            mair_el1: values[39],
            vbar_el1: values[40],
            contextidr_el1: values[41],
            elr_el1: values[42],
            spsr_el1: values[43],
            esr_el1: values[44],
            far_el1: values[45],
            tpidr_el0: values[46],
            tpidr_el1: values[47],
            tpidrro_el0: values[48],
        };
        assert(register_values(r) =~= values@);
        r
    }
}

} // verus!

verus! {

/// True for the core registers that exist: `X(n)` needs n in 0..=30.
pub open spec fn core_reg_valid(reg: CoreReg) -> bool {
    reg matches CoreReg::X(n) ==> n <= 30
}

/// Distinct existing core registers have distinct ids.
pub proof fn lemma_core_reg_id_injective(a: CoreReg, b: CoreReg)
    requires
        core_reg_valid(a),
        core_reg_valid(b),
        core_reg_id_spec(a) == core_reg_id_spec(b),
    ensures
        a == b,
{
    let ia = core_reg_index(a);
    let ib = core_reg_index(b);
    let base = KVM_REG_ARM64 | KVM_REG_SIZE_U64 | KVM_REG_ARM_CORE;
    assert(base == 0x6030_0000_0010_0000u64) by (bit_vector)
        requires
            base == 0x6000_0000_0000_0000u64 | 0x0030_0000_0000_0000u64
                | 0x0000_0000_0010_0000u64,
    ;
    assert((base | ia) & 0xffff == ia) by (bit_vector)
        requires
            base == 0x6030_0000_0010_0000u64,
            ia <= 72,
    ;
    assert((base | ib) & 0xffff == ib) by (bit_vector)
        requires
            base == 0x6030_0000_0010_0000u64,
            ib <= 72,
    ;
    assert(ia == ib);
}

/// A system-register id holds its five fields, each cut to its width: op0,
/// op1, CRn, CRm and op2 can be read back from it. So ids of encodings whose
/// fields fit their widths are equal only when the encodings are.
pub proof fn lemma_sysreg_id_fields(op0: u64, op1: u64, crn: u64, crm: u64, op2: u64)
    ensures
        (sysreg_id_spec(op0, op1, crn, crm, op2) >> 14) & 0x3 == op0 & 0x3,
        (sysreg_id_spec(op0, op1, crn, crm, op2) >> 11) & 0x7 == op1 & 0x7,
        (sysreg_id_spec(op0, op1, crn, crm, op2) >> 7) & 0xf == crn & 0xf,
        (sysreg_id_spec(op0, op1, crn, crm, op2) >> 3) & 0xf == crm & 0xf,
        sysreg_id_spec(op0, op1, crn, crm, op2) & 0x7 == op2 & 0x7,
        sysreg_id_spec(op0, op1, crn, crm, op2) & 0xffff_ffff_ffff_0000 == 0x6030_0000_0013_0000,
{
    assert(KVM_REG_ARM64 | KVM_REG_SIZE_U64 | KVM_REG_ARM64_SYSREG == 0x6030_0000_0013_0000u64)
        by (bit_vector);
    let id = sysreg_id_spec(op0, op1, crn, crm, op2);
    assert({
        let v = 0x6030_0000_0013_0000u64 | ((op0 << 14) & 0xc000) | ((op1 << 11) & 0x3800) | ((crn
            << 7) & 0x780) | ((crm << 3) & 0x78) | (op2 & 0x7);
        &&& (v >> 14) & 0x3 == op0 & 0x3
        &&& (v >> 11) & 0x7 == op1 & 0x7
        &&& (v >> 7) & 0xf == crn & 0xf
        &&& (v >> 3) & 0xf == crm & 0xf
        &&& v & 0x7 == op2 & 0x7
        &&& v & 0xffff_ffff_ffff_0000 == 0x6030_0000_0013_0000
    }) by (bit_vector);
}

/// Every register travels under its own id: at each position of the
/// read/write order, the id in `register_ids` and the value in `values` (and
/// so the value `from_values` stores) belong to the same register: `x<n>` at
/// position n, then SP_EL0, SP_EL1, PC, PSTATE and the system registers.
pub proof fn lemma_register_ids_match_values(r: Registers)
    ensures
        register_id_seq().len() == NUM_REGISTERS,
        register_values(r).len() == NUM_REGISTERS,
        forall|n: int|
            0 <= n < 31 ==> register_id_seq()[n] == core_reg_id_spec(CoreReg::X(n as u8))
                && #[trigger] register_values(r)[n] == r.regs[n],
        register_id_seq()[31] == core_reg_id_spec(CoreReg::Sp) && register_values(r)[31] == r.sp_el0,
        register_id_seq()[32] == core_reg_id_spec(CoreReg::SpEl1) && register_values(r)[32] == r.sp_el1,
        register_id_seq()[33] == core_reg_id_spec(CoreReg::Pc) && register_values(r)[33] == r.pc,
        register_id_seq()[34] == core_reg_id_spec(CoreReg::Pstate) && register_values(r)[34] == r.pstate,
        register_id_seq()[35] == TTBR0_EL1 && register_values(r)[35] == r.ttbr0_el1,
        register_id_seq()[36] == TTBR1_EL1 && register_values(r)[36] == r.ttbr1_el1,
        register_id_seq()[37] == TCR_EL1 && register_values(r)[37] == r.tcr_el1,
        register_id_seq()[38] == SCTLR_EL1 && register_values(r)[38] == r.sctlr_el1,
        register_id_seq()[39] == MAIR_EL1 && register_values(r)[39] == r.mair_el1,
        register_id_seq()[40] == VBAR_EL1 && register_values(r)[40] == r.vbar_el1,
        register_id_seq()[41] == CONTEXTIDR_EL1 && register_values(r)[41] == r.contextidr_el1,
        register_id_seq()[42] == core_reg_id_spec(CoreReg::ElrEl1) && register_values(r)[42] == r.elr_el1,
        register_id_seq()[43] == core_reg_id_spec(CoreReg::SpsrEl1) && register_values(r)[43] == r.spsr_el1,
        register_id_seq()[44] == ESR_EL1 && register_values(r)[44] == r.esr_el1,
        register_id_seq()[45] == FAR_EL1 && register_values(r)[45] == r.far_el1,
        register_id_seq()[46] == TPIDR_EL0 && register_values(r)[46] == r.tpidr_el0,
        register_id_seq()[47] == TPIDR_EL1 && register_values(r)[47] == r.tpidr_el1,
        register_id_seq()[48] == TPIDRRO_EL0 && register_values(r)[48] == r.tpidrro_el0,
{
}

/// Two register contexts with the same values in `register_ids` order are the
/// same context; so assembling a context from the values it writes back gives
/// it unchanged.
pub proof fn lemma_register_values_injective(a: Registers, b: Registers)
    requires
        register_values(a) == register_values(b),
    ensures
        a == b,
{
    assert(a.regs@ == register_values(a).subrange(0, 31));
    assert(b.regs@ == register_values(b).subrange(0, 31));
    assert(a.regs =~= b.regs);
    let va = register_values(a);
    let vb = register_values(b);
    assert(va[31] == vb[31] && va[32] == vb[32] && va[33] == vb[33] && va[34] == vb[34]);
    assert(va[35] == vb[35] && va[36] == vb[36] && va[37] == vb[37] && va[38] == vb[38]);
    assert(va[39] == vb[39] && va[40] == vb[40] && va[41] == vb[41] && va[42] == vb[42]);
    assert(va[43] == vb[43] && va[44] == vb[44] && va[45] == vb[45] && va[46] == vb[46]);
    assert(va[47] == vb[47] && va[48] == vb[48]);
}

} // verus!

verus! {

/// Each named system-register id is the id of its encoding.
pub proof fn lemma_sysreg_constants()
    ensures
        TTBR0_EL1 == sysreg_id_spec(3, 0, 2, 0, 0),
        TTBR1_EL1 == sysreg_id_spec(3, 0, 2, 0, 1),
        TCR_EL1 == sysreg_id_spec(3, 0, 2, 0, 2),
        SCTLR_EL1 == sysreg_id_spec(3, 0, 1, 0, 0),
        VBAR_EL1 == sysreg_id_spec(3, 0, 12, 0, 0),
        MAIR_EL1 == sysreg_id_spec(3, 0, 10, 2, 0),
        CONTEXTIDR_EL1 == sysreg_id_spec(3, 0, 13, 0, 1),
        ESR_EL1 == sysreg_id_spec(3, 0, 5, 2, 0),
        FAR_EL1 == sysreg_id_spec(3, 0, 6, 0, 0),
        TPIDR_EL0 == sysreg_id_spec(3, 3, 13, 0, 2),
        TPIDR_EL1 == sysreg_id_spec(3, 0, 13, 0, 4),
        TPIDRRO_EL0 == sysreg_id_spec(3, 3, 13, 0, 3),
{
    assert({
        &&& TTBR0_EL1 == sysreg_id_spec(3, 0, 2, 0, 0)
        &&& TTBR1_EL1 == sysreg_id_spec(3, 0, 2, 0, 1)
        &&& TCR_EL1 == sysreg_id_spec(3, 0, 2, 0, 2)
        &&& SCTLR_EL1 == sysreg_id_spec(3, 0, 1, 0, 0)
        &&& VBAR_EL1 == sysreg_id_spec(3, 0, 12, 0, 0)
        &&& MAIR_EL1 == sysreg_id_spec(3, 0, 10, 2, 0)
        &&& CONTEXTIDR_EL1 == sysreg_id_spec(3, 0, 13, 0, 1)
        &&& ESR_EL1 == sysreg_id_spec(3, 0, 5, 2, 0)
        &&& FAR_EL1 == sysreg_id_spec(3, 0, 6, 0, 0)
        &&& TPIDR_EL0 == sysreg_id_spec(3, 3, 13, 0, 2)
        &&& TPIDR_EL1 == sysreg_id_spec(3, 0, 13, 0, 4)
        &&& TPIDRRO_EL0 == sysreg_id_spec(3, 3, 13, 0, 3)
    }) by (bit_vector);
}

} // verus!
