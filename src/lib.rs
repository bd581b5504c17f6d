//! A translator from the stack-based VM language to Hack assembly.
//!
//! `parser` reads source lines into classified instructions, `code_writer`
//! emits the fixed assembly sequence of each one, and `compiler` runs a
//! whole module through both. `machine` models the target machine, and
//! `laws` proves what the emitted code does on it.
pub mod assembly;
pub mod code_writer;
pub mod compiler;
pub mod instruction;
pub mod laws;
pub mod machine;
pub mod parser;
pub mod text;
