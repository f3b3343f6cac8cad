//! Clocks.
use crate::errors::Error;
use crate::host_funcs::{HostFunction, Linker, WASI_MODULE};
use vstd::prelude::*;

verus! {

pub const CLOCK_REALTIME: i32 = 0;

pub const CLOCK_MONOTONIC: i32 = 1;

pub const CLOCK_PROCESS_CPUTIME: i32 = 2;

pub const CLOCK_THREAD_CPUTIME: i32 = 3;

pub const ERRNO_SUCCESS: i32 = 0;

/// Invalid argument.
pub const ERRNO_INVAL: i32 = 28;

/// Function not implemented.
pub const ERRNO_NOSYS: i32 = 52;

/// How a request for a clock is answered: wall time and monotonic time can be had, processor time
/// cannot, and there are no other clocks.
pub open spec fn clock_status(clock_id: i32) -> i32 {
    if clock_id == CLOCK_REALTIME || clock_id == CLOCK_MONOTONIC {
        ERRNO_SUCCESS
    } else if clock_id == CLOCK_PROCESS_CPUTIME || clock_id == CLOCK_THREAD_CPUTIME {
        ERRNO_NOSYS
    } else {
        ERRNO_INVAL
    }
}

/// The time of a clock.
pub fn clock_time_get(clock_id: i32, _precision: i64, _time_ptr: i32) -> (r: i32)
    ensures
        r == clock_status(clock_id),
{
    match clock_id {
        0 | 1 => ERRNO_SUCCESS,
        2 | 3 => ERRNO_NOSYS,
        _ => ERRNO_INVAL,
    }
}

/// The resolution of a clock.
pub fn clock_res_get(clock_id: i32, _resolution_ptr: i32) -> (r: i32)
    ensures
        r == clock_status(clock_id),
{
    match clock_id {
        0 | 1 => ERRNO_SUCCESS,
        2 | 3 => ERRNO_NOSYS,
        _ => ERRNO_INVAL,
    }
}

/// The clock functions, in the order of their registration.
pub open spec fn time_functions() -> Seq<HostFunction> {
    seq![
        HostFunction::ClockTimeGet,
        HostFunction::ClockResGet,
    ]
}

/// Registers the clock functions.
pub fn register(linker: &mut Linker) -> (r: Result<(), Error>)
    ensures
        (final(linker)@, r is Ok) == crate::host_funcs::registered(old(linker)@, WASI_MODULE@, time_functions()),
        r matches Err(e) ==> crate::host_funcs::is_refusal(
            e,
            WASI_MODULE@,
            time_functions(),
            final(linker)@.len() - old(linker)@.len(),
        ),
{
    let funcs: Vec<HostFunction> = vec![
        HostFunction::ClockTimeGet,
        HostFunction::ClockResGet,
    ];
    assert(funcs@ =~= time_functions());
    linker.register_all(WASI_MODULE, &funcs)
}

} // verus!
