//! x86 native register and event types, the x86 uAPI records, and the x86
//! monitor-control and event-injection parameters.

pub mod sys;
pub mod event;
pub mod control;
pub mod regs;

pub use self::event::{
    KvmBreakpointEvent, KvmCpuidEvent, KvmCr, KvmCrEvent, KvmDebugEvent, KvmEventReasonX86,
    KvmIoEvent, KvmMsrEvent, KvmSegmentX86, KvmVmiRegsX86, cr_from_index, decode_event,
};
pub use self::control::{ControlDataArm, KvmControl, KvmInjectEvent, KvmInjectType};
pub use self::regs::{KvmDtable, KvmSegment, Msrs, Registers};

