//! Architecture-specific native register, event and request types.

pub mod x86;
pub mod arm64;
