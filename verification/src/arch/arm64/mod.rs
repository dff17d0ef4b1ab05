//! arm64 native register and event types, the arm64 uAPI records, and the
//! arm64 monitor-control and event-injection parameters.

pub mod sys;
pub mod control;
pub mod event;
pub mod regs;

pub use self::control::{KvmControl, KvmInjectEvent, KvmInjectType};
pub use self::event::{
    KvmBreakpointEvent, KvmEventReasonArm64, KvmSysregEvent, KvmVmiRegsArm64, decode_event,
};
pub use self::regs::{
    CONTEXTIDR_EL1, CoreReg, ESR_EL1, FAR_EL1, MAIR_EL1, Registers, SCTLR_EL1, TCR_EL1,
    TPIDRRO_EL0, TPIDR_EL0, TPIDR_EL1, TTBR0_EL1, TTBR1_EL1, VBAR_EL1, core_reg_id, register_ids,
    sysreg_id,
};
