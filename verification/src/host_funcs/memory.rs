//! Memory functions.
use crate::errors::Error;
use crate::host_funcs::{HostFunction, Linker, WASI_MODULE};
use vstd::prelude::*;

verus! {

/// The size of the memory, which is not told.
pub fn memory_size() -> (r: i32)
    ensures
        r == 0,
{
    0
}

/// Grows the memory: always refused.
pub fn memory_grow(_delta: i32) -> (r: i32)
    ensures
        r == -1,
{
    -1
}

/// The memory functions, in the order of their registration.
pub open spec fn memory_functions() -> Seq<HostFunction> {
    seq![
        HostFunction::MemorySize,
        HostFunction::MemoryGrow,
    ]
}

/// Registers the memory functions.
pub fn register(linker: &mut Linker) -> (r: Result<(), Error>)
    ensures
        (final(linker)@, r is Ok) == crate::host_funcs::registered(old(linker)@, WASI_MODULE@, memory_functions()),
        r matches Err(e) ==> crate::host_funcs::is_refusal(
            e,
            WASI_MODULE@,
            memory_functions(),
            final(linker)@.len() - old(linker)@.len(),
        ),
{
    let funcs: Vec<HostFunction> = vec![
        HostFunction::MemorySize,
        HostFunction::MemoryGrow,
    ];
    assert(funcs@ =~= memory_functions());
    linker.register_all(WASI_MODULE, &funcs)
}

} // verus!
