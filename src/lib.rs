//! Translation and storage core of a WebAssembly interpreter.
//!
//! Structured WebAssembly control flow is linearized into a flat instruction
//! stream with absolute branch targets and exact stack adjustments, function
//! bodies are kept in one contiguous code map, and multi-target operands are
//! stored deduplicated in a provider arena.

pub mod code_map;
pub mod control_frame;
pub mod func_builder;
pub mod inst_builder;
pub mod interpreter;
pub mod isa;
pub mod locals_registry;
pub mod provider;
pub mod resources;
pub mod value_stack;
