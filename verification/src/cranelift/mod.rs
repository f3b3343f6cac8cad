//! Translation of WebAssembly functions into the intermediate representation.
pub mod access;
pub mod accesses;
pub mod addresses;
pub mod admission;
pub mod beginnings;
pub mod bits;
pub mod branch_table;
pub mod branching;
pub mod call;
pub mod calls;
pub mod code_translator;
pub mod compiler;
pub mod constructs;
pub mod control;
pub mod decode;
pub mod env;
pub mod function_translator;
pub mod invoke;
pub mod jobs;
pub mod locations;
pub mod meaning;
pub mod memory;
pub mod opcodes;
pub mod numbering;
pub mod numbers;
pub mod operator;
pub mod recipes;
pub mod simulation;
pub mod state;
pub mod table;
pub mod typing;
pub mod values;
pub mod variables;
pub mod vectors;
pub mod world;
