//! An execution engine for a minimal tape-machine language: eight
//! single-character instructions acting on a fixed 30,000-cell byte tape with
//! a movable data pointer, conditional jumps written as bracket pairs, and
//! byte-granular input and output.
//!
//! The engine is split into three modules:
//! - [`instruction`]: the instruction alphabet and the loader's
//!   character-filtering semantics;
//! - [`machine`]: the mathematical model of execution, a deterministic
//!   small-step state machine;
//! - [`interpreter`]: the executable engine, whose contracts tie every run
//!   to the model step by step.

pub mod instruction;
pub mod interpreter;
pub mod machine;

pub use instruction::Instruction;
pub use interpreter::Interpreter;
pub use interpreter::LoadError;
pub use interpreter::RunOutcome;
pub use machine::FatalError;
