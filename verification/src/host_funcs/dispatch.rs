//! Calls of host functions by guests.
use crate::func::Val;
use crate::host_funcs::filesystem::{self, Descriptors};
use crate::host_funcs::io::{
    self, Console, ERRNO_BADF, ERRNO_INVAL, ERRNO_SUCCESS,
};
use crate::host_funcs::mem_access::MemoryAccessor;
use crate::host_funcs::{memory, process, time, HostFunction};
use crate::types::WasmValType;
use vstd::prelude::*;

verus! {

/// What host functions work on: the memory of the guest that calls, if it has one, what guests have
/// written, and the descriptors that were given out.
pub struct Host {
    pub mem: Option<MemoryAccessor>,
    pub console: Console,
    pub descriptors: Descriptors,
}

/// What host functions work on, as sequences.
#[verifier::ext_equal]
pub struct HostModel {
    pub mem: Option<Seq<u8>>,
    pub console: Seq<(i32, Seq<u8>)>,
    pub descriptors: Descriptors,
}

impl View for Host {
    type V = HostModel;

    open spec fn view(&self) -> HostModel {
        HostModel {
            mem: crate::host_funcs::mem_access::contents(self.mem),
            console: self.console@,
            descriptors: self.descriptors,
        }
    }
}

/// Whether an argument has the type of a parameter.
pub open spec fn fits(arg: Val, ty: WasmValType) -> bool {
    match ty {
        WasmValType::I32 => arg is I32,
        WasmValType::I64 => arg is I64,
        _ => false,
    }
}

/// Whether a function can be called with arguments: they have the types of its parameters, and
/// where buffers are written, their bytes can be counted in 32 bits.
pub open spec fn callable(func: HostFunction, args: Seq<Val>, host: HostModel) -> bool {
    &&& args.len() == func.spec_params().len()
    &&& forall|i: int| 0 <= i < args.len() ==> fits(#[trigger] args[i], func.spec_params()[i])
    &&& func is FdWrite ==> crate::host_funcs::io::write_countable(
        host.mem,
        args[0]->I32_0,
        args[1]->I32_0,
        args[2]->I32_0,
        args[3]->I32_0,
    )
}

/// What functions give that change nothing.
pub open spec fn status(func: HostFunction, args: Seq<Val>) -> i32 {
    match func {
        HostFunction::FdPrestatGet => if args[0]->I32_0 != crate::host_funcs::filesystem::FD_PREOPEN {
            ERRNO_BADF
        } else {
            ERRNO_SUCCESS
        },
        HostFunction::FdPrestatDirName => if args[0]->I32_0 != crate::host_funcs::filesystem::FD_PREOPEN {
            ERRNO_BADF
        } else if args[2]->I32_0 < 1 {
            ERRNO_INVAL
        } else {
            ERRNO_SUCCESS
        },
        HostFunction::FdFilestatGet => if args[0]->I32_0 < 0 {
            ERRNO_BADF
        } else {
            ERRNO_SUCCESS
        },
        HostFunction::FdFdstatGet => if args[0]->I32_0 < 0 {
            ERRNO_BADF
        } else {
            ERRNO_SUCCESS
        },
        HostFunction::FdClose => if args[0]->I32_0 >= 3 {
            ERRNO_SUCCESS
        } else {
            ERRNO_BADF
        },
        HostFunction::MemorySize => 0,
        HostFunction::MemoryGrow => (-1) as i32,
        HostFunction::ClockTimeGet => crate::host_funcs::time::clock_status(args[0]->I32_0),
        HostFunction::ClockResGet => crate::host_funcs::time::clock_status(args[0]->I32_0),
        HostFunction::ProcExit => args[0]->I32_0,
        _ => ERRNO_SUCCESS,
    }
}

/// What a call gives, and what it leaves behind. Functions that print give nothing.
pub open spec fn called(func: HostFunction, args: Seq<Val>, host: HostModel) -> (
    Option<i32>,
    HostModel,
) {
    match func {
        HostFunction::PathOpen => (
            Some(ERRNO_SUCCESS),
            HostModel {
                descriptors: Descriptors {
                    next_fd: if host.descriptors.next_fd == i32::MAX {
                        i32::MIN
                    } else {
                        (host.descriptors.next_fd + 1) as i32
                    },
                },
                ..host
            },
        ),
        HostFunction::FdWrite => {
            let (r, mem, console) = crate::host_funcs::io::write_done(
                host.mem,
                host.console,
                args[0]->I32_0,
                args[1]->I32_0,
                args[2]->I32_0,
                args[3]->I32_0,
            );
            (Some(r), HostModel { mem, console, ..host })
        },
        HostFunction::FdRead => {
            let (r, mem) = crate::host_funcs::io::read_done(
                host.mem,
                args[0]->I32_0,
                args[1]->I32_0,
                args[2]->I32_0,
                args[3]->I32_0,
            );
            (Some(r), HostModel { mem, ..host })
        },
        HostFunction::FdSeek => {
            let (r, mem) = crate::host_funcs::io::seek_done(
                host.mem,
                args[1]->I64_0,
                args[3]->I32_0,
            );
            (Some(r), HostModel { mem, ..host })
        },
        HostFunction::Print | HostFunction::PrintStr | HostFunction::Custom(_) => (None, host),
        _ => (Some(status(func, args)), host),
    }
}

/// An argument that is a 32-bit integer.
fn i32_at(args: &Vec<Val>, n: usize) -> (r: i32)
    requires
        n < args@.len(),
        args@[n as int] is I32,
    ensures
        r == args@[n as int]->I32_0,
{
    match args[n] {
        Val::I32(v) => v,
        _ => {
            assert(false);
            0
        },
    }
}

/// An argument that is a 64-bit integer.
fn i64_at(args: &Vec<Val>, n: usize) -> (r: i64)
    requires
        n < args@.len(),
        args@[n as int] is I64,
    ensures
        r == args@[n as int]->I64_0,
{
    match args[n] {
        Val::I64(v) => v,
        _ => {
            assert(false);
            0
        },
    }
}

/// Functions that need a memory fail for guests without one, whatever the arguments, and leave
/// everything as it was.
pub proof fn guests_without_memory_are_refused(
    func: HostFunction,
    args: Seq<Val>,
    host: HostModel,
)
    requires
        func is FdWrite || func is FdRead || func is FdSeek,
        callable(func, args, host),
        host.mem is None,
    ensures
        called(func, args, host).1 == host,
        called(func, args, host).0 == Some(ERRNO_INVAL) || called(func, args, host).0 == Some(
            ERRNO_BADF,
        ),
        func is FdSeek ==> called(func, args, host).0 == Some(ERRNO_INVAL),
        func is FdWrite && crate::host_funcs::io::writable(args[0]->I32_0) ==> called(
            func,
            args,
            host,
        ).0 == Some(ERRNO_INVAL),
{
}

impl Host {
    /// Calls a host function.
    pub fn call(&mut self, func: HostFunction, args: &Vec<Val>) -> (r: Option<i32>)
        requires
            callable(func, args@, old(self)@),
        ensures
            (r, final(self)@) == called(func, args@, old(self)@),
            crate::host_funcs::mem_access::base_of(final(self).mem)
                == crate::host_funcs::mem_access::base_of(old(self).mem),
    {
        let r: i32 = match func {
            HostFunction::FdPrestatGet => filesystem::fd_prestat_get(
                i32_at(args, 0),
                i32_at(args, 1),
            ),
            HostFunction::FdPrestatDirName => filesystem::fd_prestat_dir_name(
                i32_at(args, 0),
                i32_at(args, 1),
                i32_at(args, 2),
            ),
            HostFunction::FdFilestatGet => filesystem::fd_filestat_get(
                i32_at(args, 0),
                i32_at(args, 1),
            ),
            HostFunction::PathFilestatGet => filesystem::path_filestat_get(
                i32_at(args, 0),
                i32_at(args, 1),
                i32_at(args, 2),
                i32_at(args, 3),
                i32_at(args, 4),
            ),
            HostFunction::FdFdstatGet => filesystem::fd_fdstat_get(
                i32_at(args, 0),
                i32_at(args, 1),
            ),
            HostFunction::FdReaddir => filesystem::fd_readdir(
                i32_at(args, 0),
                i32_at(args, 1),
                i32_at(args, 2),
                i64_at(args, 3),
                i32_at(args, 4),
            ),
            HostFunction::PathCreateDirectory => filesystem::path_create_directory(
                i32_at(args, 0),
                i32_at(args, 1),
                i32_at(args, 2),
            ),
            HostFunction::PathRemoveDirectory => filesystem::path_remove_directory(
                i32_at(args, 0),
                i32_at(args, 1),
                i32_at(args, 2),
            ),
            HostFunction::PathUnlinkFile => filesystem::path_unlink_file(
                i32_at(args, 0),
                i32_at(args, 1),
                i32_at(args, 2),
            ),
            HostFunction::PathRename => filesystem::path_rename(
                i32_at(args, 0),
                i32_at(args, 1),
                i32_at(args, 2),
                i32_at(args, 3),
                i32_at(args, 4),
                i32_at(args, 5),
            ),
            HostFunction::FdFilestatSetTimes => filesystem::fd_filestat_set_times(
                i32_at(args, 0),
                i64_at(args, 1),
                i64_at(args, 2),
                i32_at(args, 3),
            ),
            HostFunction::PathFilestatSetTimes => filesystem::path_filestat_set_times(
                i32_at(args, 0),
                i32_at(args, 1),
                i32_at(args, 2),
                i32_at(args, 3),
                i64_at(args, 4),
                i64_at(args, 5),
                i32_at(args, 6),
            ),
            HostFunction::FdFdstatSetFlags => filesystem::fd_fdstat_set_flags(
                i32_at(args, 0),
                i32_at(args, 1),
            ),
            HostFunction::FdAllocate => filesystem::fd_allocate(
                i32_at(args, 0),
                i64_at(args, 1),
                i64_at(args, 2),
            ),
            HostFunction::FdDatasync => filesystem::fd_datasync(i32_at(args, 0)),
            HostFunction::FdSync => filesystem::fd_sync(i32_at(args, 0)),
            HostFunction::FdClose => io::fd_close(i32_at(args, 0)),
            HostFunction::MemorySize => memory::memory_size(),
            HostFunction::MemoryGrow => memory::memory_grow(i32_at(args, 0)),
            HostFunction::ClockTimeGet => time::clock_time_get(
                i32_at(args, 0),
                i64_at(args, 1),
                i32_at(args, 2),
            ),
            HostFunction::ClockResGet => time::clock_res_get(i32_at(args, 0), i32_at(args, 1)),
            HostFunction::ProcExit => process::proc_exit(i32_at(args, 0)),
            HostFunction::EnvironSizesGet => process::environ_sizes_get(
                i32_at(args, 0),
                i32_at(args, 1),
            ),
            HostFunction::EnvironGet => process::environ_get(i32_at(args, 0), i32_at(args, 1)),
            HostFunction::ArgsSizesGet => process::args_sizes_get(i32_at(args, 0), i32_at(args, 1)),
            HostFunction::ArgsGet => process::args_get(i32_at(args, 0), i32_at(args, 1)),
            HostFunction::RandomGet => process::random_get(i32_at(args, 0), i32_at(args, 1)),
            HostFunction::PathOpen => filesystem::path_open(
                &mut self.descriptors,
                i32_at(args, 0),
                i32_at(args, 1),
                i32_at(args, 2),
                i32_at(args, 3),
                i32_at(args, 4),
                i64_at(args, 5),
                i64_at(args, 6),
                i32_at(args, 7),
                i32_at(args, 8),
            ),
            HostFunction::FdWrite => io::fd_write(
                &mut self.mem,
                &mut self.console,
                i32_at(args, 0),
                i32_at(args, 1),
                i32_at(args, 2),
                i32_at(args, 3),
            ),
            HostFunction::FdRead => io::fd_read(
                &mut self.mem,
                i32_at(args, 0),
                i32_at(args, 1),
                i32_at(args, 2),
                i32_at(args, 3),
            ),
            HostFunction::FdSeek => io::fd_seek(
                &mut self.mem,
                i32_at(args, 0),
                i64_at(args, 1),
                i32_at(args, 2),
                i32_at(args, 3),
            ),
            HostFunction::Print | HostFunction::PrintStr | HostFunction::Custom(_) => return None,
        };
        Some(r)
    }
}

} // verus!
