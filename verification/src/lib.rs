//! Host-function execution layer of a sandboxed bytecode virtual machine.
//!
//! The library sits between a bytecode interpreter and a blockchain
//! world-state environment: it meters every unit of work against a gas
//! budget, bridges reads and writes between the interpreter's linear memory
//! and host-native values, and translates every failure into a closed error
//! taxonomy the interpreter treats as a deterministic trap.

pub mod dispatch;
pub mod error;
pub mod ext;
pub mod gas;
pub mod memory;
pub mod runtime;
pub mod types;
