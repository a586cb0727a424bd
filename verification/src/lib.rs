//! An encoder from an in-memory description of a small WebAssembly module to
//! its binary form.
//!
//! [`leb128`] defines the variable-length integer format on mathematical
//! integers; [`wasm_acc`] holds the output accumulator, the [`wasm_acc::WriteToWasm`]
//! trait and the data model of a module, each type with the bytes it stands for.

pub mod leb128;
pub mod wasm_acc;
