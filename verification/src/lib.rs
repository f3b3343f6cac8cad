//! The core of a WebAssembly runtime: translation of WebAssembly operators into a compiler
//! intermediate representation, layout of the runtime data structures, registries of compiled
//! code, linking of compiled functions, and the host functions offered to guests.
pub mod body;
pub mod builder;
pub mod builtins;
pub mod code_memory;
pub mod code_registry;
pub mod compilation;
pub mod compile;
pub mod cranelift;
pub mod errors;
pub mod eval_command;
pub mod faithful;
pub mod finish;
pub mod func;
pub mod func_env;
pub mod global;
pub mod host_funcs;
pub mod index_map;
pub mod indices;
pub mod ir;
pub mod link;
pub mod link_check;
pub mod matching;
pub mod module;
pub mod module_env;
pub mod module_registry;
pub mod module_translator;
pub mod ordered_map;
pub mod parse;
pub mod registry;
pub mod runtime;
pub mod store;
pub mod text;
pub mod text_section;
pub mod translate;
pub mod trap_handling;
pub mod typed;
pub mod types;
pub mod vmoffsets;
