//! Process functions.
use crate::errors::Error;
use crate::host_funcs::{HostFunction, Linker, WASI_MODULE};
use vstd::prelude::*;

verus! {

pub const ERRNO_SUCCESS: i32 = 0;

/// Ends the process: gives the exit code back.
pub fn proc_exit(exit_code: i32) -> (r: i32)
    ensures
        r == exit_code,
{
    exit_code
}

/// The size of the environment: always succeeds.
pub fn environ_sizes_get(_environ_count_ptr: i32, _environ_buf_size_ptr: i32) -> (r: i32)
    ensures
        r == ERRNO_SUCCESS,
{
    ERRNO_SUCCESS
}

/// The environment: always succeeds.
pub fn environ_get(_environ_ptr: i32, _environ_buf_ptr: i32) -> (r: i32)
    ensures
        r == ERRNO_SUCCESS,
{
    ERRNO_SUCCESS
}

/// The size of the arguments: always succeeds.
pub fn args_sizes_get(_argc_ptr: i32, _argv_buf_size_ptr: i32) -> (r: i32)
    ensures
        r == ERRNO_SUCCESS,
{
    ERRNO_SUCCESS
}

/// The arguments: always succeeds.
pub fn args_get(_argv_ptr: i32, _argv_buf_ptr: i32) -> (r: i32)
    ensures
        r == ERRNO_SUCCESS,
{
    ERRNO_SUCCESS
}

/// Random bytes: always succeeds.
pub fn random_get(_buf_ptr: i32, _buf_len: i32) -> (r: i32)
    ensures
        r == ERRNO_SUCCESS,
{
    ERRNO_SUCCESS
}

/// The process functions, in the order of their registration.
pub open spec fn process_functions() -> Seq<HostFunction> {
    seq![
        HostFunction::ProcExit,
        HostFunction::EnvironSizesGet,
        HostFunction::EnvironGet,
        HostFunction::ArgsSizesGet,
        HostFunction::ArgsGet,
        HostFunction::RandomGet,
    ]
}

/// Registers the process functions.
pub fn register(linker: &mut Linker) -> (r: Result<(), Error>)
    ensures
        (final(linker)@, r is Ok) == crate::host_funcs::registered(old(linker)@, WASI_MODULE@, process_functions()),
        r matches Err(e) ==> crate::host_funcs::is_refusal(
            e,
            WASI_MODULE@,
            process_functions(),
            final(linker)@.len() - old(linker)@.len(),
        ),
{
    let funcs: Vec<HostFunction> = vec![
        HostFunction::ProcExit,
        HostFunction::EnvironSizesGet,
        HostFunction::EnvironGet,
        HostFunction::ArgsSizesGet,
        HostFunction::ArgsGet,
        HostFunction::RandomGet,
    ];
    assert(funcs@ =~= process_functions());
    linker.register_all(WASI_MODULE, &funcs)
}

} // verus!
