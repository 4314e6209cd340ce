//! Architectural register state of a 16-bit processor: registers with
//! byte-level aliasing, a wrapping instruction pointer, condition flags,
//! and a symbolic name-indexed read/write interface over them.

pub mod register;
pub mod state;

pub use register::Register;
pub use state::CpuError;
pub use state::CpuState;
pub use state::RegName;
pub use state::StateModel;
