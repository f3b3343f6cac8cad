//! The parts of a running module.
pub mod const_eval;
pub mod initializers;
pub mod instance;
pub mod instance_allocator;
pub mod instance_check;
pub mod memory;
pub mod mmap;
pub mod mmap_vec;
pub mod table;
pub mod vmcontext;
