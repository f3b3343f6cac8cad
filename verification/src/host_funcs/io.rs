//! Reading and writing.
use crate::errors::Error;
use crate::host_funcs::mem_access::MemoryAccessor;
use crate::host_funcs::{HostFunction, Linker, WASI_MODULE};
use vstd::prelude::*;

verus! {

pub const FD_STDIN: i32 = 0;

pub const FD_STDOUT: i32 = 1;

pub const FD_STDERR: i32 = 2;

pub const ERRNO_SUCCESS: i32 = 0;

/// Bad file descriptor.
pub const ERRNO_BADF: i32 = 8;

/// Invalid argument.
pub const ERRNO_INVAL: i32 = 28;

/// Function not implemented.
pub const ERRNO_NOSYS: i32 = 52;

/// The number of bytes of a buffer description in guest memory.
pub const IOVEC_SIZE: u32 = 8;

/// A buffer in guest memory.
#[derive(Debug, Clone, Copy, PartialEq, Eq, Structural)]
pub struct IoVec {
    pub buf: u32,
    pub buf_len: u32,
}

/// What a guest has written to its standard streams, chunk by chunk.
pub struct Console {
    chunks: Vec<(i32, Vec<u8>)>,
}

impl View for Console {
    type V = Seq<(i32, Seq<u8>)>;

    closed spec fn view(&self) -> Seq<(i32, Seq<u8>)> {
        self.chunks@.map_values(|c: (i32, Vec<u8>)| (c.0, c.1@))
    }
}

impl Console {
    /// Nothing was written.
    pub fn new() -> (r: Self)
        ensures
            r@ == Seq::<(i32, Seq<u8>)>::empty(),
    {
        let r = Console { chunks: Vec::new() };
        assert(r@ =~= Seq::<(i32, Seq<u8>)>::empty());
        r
    }

    /// What was written, each chunk with its stream.
    pub fn chunks(&self) -> (r: &Vec<(i32, Vec<u8>)>)
        ensures
            r@.map_values(|c: (i32, Vec<u8>)| (c.0, c.1@)) == self@,
    {
        &self.chunks
    }

    /// Writes a chunk to a stream.
    pub fn push(&mut self, stream: i32, data: Vec<u8>)
        ensures
            final(self)@ == old(self)@.push((stream, data@)),
    {
        self.chunks.push((stream, data));
        assert(self@ =~= old(self)@.push((stream, data@)));
    }
}

/// The bytes that a buffer description refers to, unless something lies outside the memory. An
/// empty buffer can lie anywhere.
pub open spec fn buffer_at(mem: Seq<u8>, offset: int) -> Option<Seq<u8>> {
    match (
        crate::host_funcs::mem_access::u32_at(mem, offset),
        crate::host_funcs::mem_access::u32_at(mem, offset + 4),
    ) {
        (Some(buf), Some(len)) => if len == 0 {
            Some(Seq::empty())
        } else if crate::host_funcs::mem_access::valid_range(mem, buf as int, len as int) {
            Some(mem.subrange(buf as int, buf + len))
        } else {
            None
        },
        _ => None,
    }
}

/// The buffers of a list before the first that lies outside the memory, and whether that is all of
/// them.
pub open spec fn gathered(mem: Seq<u8>, ptr: int, n: int) -> (Seq<Seq<u8>>, bool)
    decreases n,
{
    if n <= 0 {
        (Seq::empty(), true)
    } else {
        let (before, ok) = gathered(mem, ptr, n - 1);
        match buffer_at(mem, ptr + (n - 1) * IOVEC_SIZE) {
            Some(data) if ok => (before.push(data), true),
            _ => (before, false),
        }
    }
}

/// The number of bytes of a list of buffers.
pub open spec fn total(buffers: Seq<Seq<u8>>) -> int
    decreases buffers.len(),
{
    if buffers.len() == 0 {
        0
    } else {
        total(buffers.drop_last()) + buffers.last().len()
    }
}

/// The chunks that buffers are written in; empty buffers are left out.
pub open spec fn chunks_of(stream: i32, buffers: Seq<Seq<u8>>) -> Seq<(i32, Seq<u8>)>
    decreases buffers.len(),
{
    if buffers.len() == 0 {
        Seq::empty()
    } else {
        let before = chunks_of(stream, buffers.drop_last());
        if buffers.last().len() == 0 {
            before
        } else {
            before.push((stream, buffers.last()))
        }
    }
}

/// Whether a list of buffers can be walked, and its bytes counted, in 32 bits.
pub open spec fn countable(mem: Seq<u8>, ptr: int, n: int) -> bool {
    forall|k: int|
        0 <= k < n && (#[trigger] gathered(mem, ptr, k)).1 ==> {
            &&& ptr + k * IOVEC_SIZE + 4 <= u32::MAX
            &&& buffer_at(mem, ptr + k * IOVEC_SIZE) matches Some(data) ==> total(
                gathered(mem, ptr, k).0,
            ) + data.len() <= u32::MAX
        }
}

/// Whether a descriptor can be written to: output, errors, and files up to 63.
pub open spec fn writable(fd: i32) -> bool {
    fd == FD_STDOUT || fd == FD_STDERR || 3 <= fd < 64
}

/// Reads the buffer that a description refers to.
fn read_buffer(mem: &MemoryAccessor, offset: u32) -> (r: Option<Vec<u8>>)
    requires
        offset + 4 <= u32::MAX,
    ensures
        r is Some <==> buffer_at(mem@, offset as int) is Some,
        r matches Some(data) ==> Some(data@) == buffer_at(mem@, offset as int),
{
    let buf: u32 = match mem.read_u32(offset) {
        Some(buf) => buf,
        None => return None,
    };
    let len: u32 = match mem.read_u32(offset + 4) {
        Some(len) => len,
        None => return None,
    };
    if len == 0 {
        let data: Vec<u8> = Vec::new();
        assert(data@ =~= Seq::empty());
        return Some(data);
    }
    mem.read_bytes(buf, len)
}

/// Whether a list of buffers can be walked, and its bytes counted, in 32 bits.
pub fn is_countable(mem: &MemoryAccessor, ptr: u32, n: u32) -> (r: bool)
    ensures
        r == countable(mem@, ptr as int, n as int),
{
    let mut sum: u32 = 0;
    for i in 0..n
        invariant
            gathered(mem@, ptr as int, i as int).1,
            sum == total(gathered(mem@, ptr as int, i as int).0),
            forall|k: int|
                0 <= k < i && (#[trigger] gathered(mem@, ptr as int, k)).1 ==> {
                    &&& ptr + k * IOVEC_SIZE + 4 <= u32::MAX
                    &&& buffer_at(mem@, ptr + k * IOVEC_SIZE) matches Some(data) ==> total(
                        gathered(mem@, ptr as int, k).0,
                    ) + data.len() <= u32::MAX
                },
    {
        let offset: u64 = ptr as u64 + i as u64 * IOVEC_SIZE as u64;
        if offset + 4 > u32::MAX as u64 {
            assert(gathered(mem@, ptr as int, i as int).1);
            return false;
        }
        let ghost here = gathered(mem@, ptr as int, i as int).0;
        match read_buffer(mem, offset as u32) {
            Some(data) => {
                match sum.checked_add(data.len() as u32) {
                    Some(next) => {
                        assert(here.push(data@).drop_last() =~= here);
                        sum = next;
                    },
                    None => {
                        assert(gathered(mem@, ptr as int, i as int).1);
                        return false;
                    },
                }
            },
            None => {
                proof {
                    lemma_gathering_ends(mem@, ptr as int, i + 1, n as int);
                }
                return true;
            },
        }
    }
    true
}

/// Once a buffer lies outside the memory, no more are gathered.
proof fn lemma_gathering_ends(mem: Seq<u8>, ptr: int, m: int, n: int)
    requires
        0 <= m,
        !gathered(mem, ptr, m).1,
    ensures
        forall|k: int| m <= k <= n ==> !(#[trigger] gathered(mem, ptr, k)).1,
        m <= n ==> gathered(mem, ptr, n) == gathered(mem, ptr, m),
    decreases n - m,
{
    if m < n {
        lemma_gathering_ends(mem, ptr, m, n - 1);
    }
}

/// Writes buffers to a descriptor, and the number of bytes to guest memory.
fn write_buffers(
    mem: &mut MemoryAccessor,
    console: &mut Console,
    fd: i32,
    iovs_ptr: i32,
    iovs_len: i32,
    nwritten_ptr: i32,
) -> (r: i32)
    requires
        iovs_ptr >= 0 && iovs_len >= 0 && nwritten_ptr >= 0 && writable(fd) ==> countable(
            old(mem)@,
            iovs_ptr as int,
            iovs_len as int,
        ),
    ensures
        ({
            let (buffers, ok) = gathered(old(mem)@, iovs_ptr as int, iovs_len as int);
            if iovs_ptr < 0 || iovs_len < 0 || nwritten_ptr < 0 {
                r == ERRNO_INVAL && final(mem)@ == old(mem)@ && final(console)@ == old(console)@
            } else if !writable(fd) {
                r == ERRNO_BADF && final(mem)@ == old(mem)@ && final(console)@ == old(console)@
            } else {
                &&& final(console)@ == (if fd == FD_STDOUT || fd == FD_STDERR {
                    old(console)@ + chunks_of(fd, buffers)
                } else {
                    old(console)@
                })
                &&& if ok && crate::host_funcs::mem_access::valid_range(
                    old(mem)@,
                    nwritten_ptr as int,
                    4,
                ) {
                    &&& r == ERRNO_SUCCESS
                    &&& final(mem)@ == crate::host_funcs::mem_access::bytes_written(
                        old(mem)@,
                        nwritten_ptr as int,
                        vstd::bytes::spec_u32_to_le_bytes(total(buffers) as u32),
                    )
                } else {
                    r == ERRNO_INVAL && final(mem)@ == old(mem)@
                }
            }
        }),
        final(mem).spec_base() == old(mem).spec_base(),
{
    if iovs_ptr < 0 || iovs_len < 0 || nwritten_ptr < 0 {
        return ERRNO_INVAL;
    }
    if !(fd == FD_STDOUT || fd == FD_STDERR || (fd >= 3 && fd < 64)) {
        return ERRNO_BADF;
    }
    let ghost ptr = iovs_ptr as int;
    let ghost all = mem@;
    let ghost before = console@;
    let streamed = fd == FD_STDOUT || fd == FD_STDERR;
    let mut total_written: u32 = 0;
    assert(before + chunks_of(fd, gathered(all, ptr, 0).0) =~= before);
    for i in 0..iovs_len as u32
        invariant
            ptr == iovs_ptr,
            iovs_ptr >= 0,
            iovs_len >= 0,
            nwritten_ptr >= 0,
            writable(fd),
            all == mem@,
            *mem == *old(mem),
            countable(all, ptr, iovs_len as int),
            gathered(all, ptr, i as int).1,
            total_written == total(gathered(all, ptr, i as int).0),
            streamed == (fd == FD_STDOUT || fd == FD_STDERR),
            before == old(console)@,
            console@ == (if streamed {
                before + chunks_of(fd, gathered(all, ptr, i as int).0)
            } else {
                before
            }),
    {
        let ghost here = gathered(all, ptr, i as int).0;
        assert(ptr + i * IOVEC_SIZE + 4 <= u32::MAX);
        let iov_offset: u32 = iovs_ptr as u32 + i * IOVEC_SIZE;
        match read_buffer(mem, iov_offset) {
            Some(data) => {
                assert(here.push(data@).drop_last() =~= here);
                let len: u32 = data.len() as u32;
                total_written = total_written + len;
                if len > 0 && streamed {
                    let ghost bytes = data@;
                    console.push(fd, data);
                    assert(before + chunks_of(fd, here).push((fd, bytes)) =~= (before + chunks_of(
                        fd,
                        here,
                    )).push((fd, bytes)));
                }
            },
            None => {
                proof {
                    lemma_gathering_ends(all, ptr, i + 1, iovs_len as int);
                }
                return ERRNO_INVAL;
            },
        }
    }
    if mem.write_u32(nwritten_ptr as u32, total_written) {
        ERRNO_SUCCESS
    } else {
        ERRNO_INVAL
    }
}

/// Writes the number of bytes that were read, which is zero, to guest memory.
fn read_buffers(
    mem: &mut MemoryAccessor,
    fd: i32,
    iovs_ptr: i32,
    iovs_len: i32,
    nread_ptr: i32,
) -> (r: i32)
    ensures
        if fd == FD_STDOUT || fd == FD_STDERR || fd < 0 {
            r == ERRNO_BADF && final(mem)@ == old(mem)@
        } else if iovs_ptr >= 0 && iovs_len >= 0 && nread_ptr >= 0
            && crate::host_funcs::mem_access::valid_range(old(mem)@, nread_ptr as int, 4) {
            &&& r == ERRNO_SUCCESS
            &&& final(mem)@ == crate::host_funcs::mem_access::bytes_written(
                old(mem)@,
                nread_ptr as int,
                vstd::bytes::spec_u32_to_le_bytes(0),
            )
        } else {
            r == ERRNO_INVAL && final(mem)@ == old(mem)@
        },
        final(mem).spec_base() == old(mem).spec_base(),
{
    if fd == FD_STDOUT || fd == FD_STDERR {
        return ERRNO_BADF;
    }
    if fd < 0 {
        return ERRNO_BADF;
    }
    if iovs_ptr < 0 || iovs_len < 0 || nread_ptr < 0 {
        return ERRNO_INVAL;
    }
    if mem.write_u32(nread_ptr as u32, 0) {
        ERRNO_SUCCESS
    } else {
        ERRNO_INVAL
    }
}

/// Closes a descriptor: the standard streams stay open, and there are no negative ones.
pub fn fd_close(fd: i32) -> (r: i32)
    ensures
        r == (if fd >= 3 {
            ERRNO_SUCCESS
        } else {
            ERRNO_BADF
        }),
{
    if fd == FD_STDIN || fd == FD_STDOUT || fd == FD_STDERR {
        return ERRNO_BADF;
    }
    if fd >= 3 {
        return ERRNO_SUCCESS;
    }
    ERRNO_BADF
}

/// Writes the new position of a descriptor to guest memory.
fn seek(mem: &mut MemoryAccessor, offset: i64, newoffset_ptr: i32) -> (r: i32)
    ensures
        if newoffset_ptr >= 0 && crate::host_funcs::mem_access::valid_range(
            old(mem)@,
            newoffset_ptr as int,
            8,
        ) {
            &&& r == ERRNO_SUCCESS
            &&& final(mem)@ == crate::host_funcs::mem_access::bytes_written(
                old(mem)@,
                newoffset_ptr as int,
                vstd::bytes::spec_u64_to_le_bytes(offset as u64),
            )
        } else {
            r == ERRNO_INVAL && final(mem)@ == old(mem)@
        },
        final(mem).spec_base() == old(mem).spec_base(),
{
    if newoffset_ptr < 0 {
        return ERRNO_INVAL;
    }
    if mem.write_u64(newoffset_ptr as u32, offset as u64) {
        ERRNO_SUCCESS
    } else {
        ERRNO_INVAL
    }
}

/// What a write to a descriptor gives: the error, the memory and the console. What lies before a
/// buffer outside the memory is written, though the call fails.
pub open spec fn write_done(
    mem: Option<Seq<u8>>,
    console: Seq<(i32, Seq<u8>)>,
    fd: i32,
    iovs_ptr: i32,
    iovs_len: i32,
    nwritten_ptr: i32,
) -> (i32, Option<Seq<u8>>, Seq<(i32, Seq<u8>)>) {
    if iovs_ptr < 0 || iovs_len < 0 || nwritten_ptr < 0 {
        (ERRNO_INVAL, mem, console)
    } else if !writable(fd) {
        (ERRNO_BADF, mem, console)
    } else {
        match mem {
            None => (ERRNO_INVAL, mem, console),
            Some(bytes) => {
                let (buffers, ok) = gathered(bytes, iovs_ptr as int, iovs_len as int);
                let written = if fd == FD_STDOUT || fd == FD_STDERR {
                    console + chunks_of(fd, buffers)
                } else {
                    console
                };
                if ok && crate::host_funcs::mem_access::valid_range(bytes, nwritten_ptr as int, 4) {
                    let count = vstd::bytes::spec_u32_to_le_bytes(total(buffers) as u32);
                    (
                        ERRNO_SUCCESS,
                        Some(
                            crate::host_funcs::mem_access::bytes_written(
                                bytes,
                                nwritten_ptr as int,
                                count,
                            ),
                        ),
                        written,
                    )
                } else {
                    (ERRNO_INVAL, mem, written)
                }
            },
        }
    }
}

/// Whether the buffers of a write can be walked, and their bytes counted, in 32 bits.
pub open spec fn write_countable(
    mem: Option<Seq<u8>>,
    fd: i32,
    iovs_ptr: i32,
    iovs_len: i32,
    nwritten_ptr: i32,
) -> bool {
    iovs_ptr >= 0 && iovs_len >= 0 && nwritten_ptr >= 0 && writable(fd) && mem is Some
        ==> countable(mem->0, iovs_ptr as int, iovs_len as int)
}

/// Writes buffers to a descriptor, and the number of bytes to guest memory, if there is one.
pub fn fd_write(
    mem: &mut Option<MemoryAccessor>,
    console: &mut Console,
    fd: i32,
    iovs_ptr: i32,
    iovs_len: i32,
    nwritten_ptr: i32,
) -> (r: i32)
    requires
        write_countable(
            crate::host_funcs::mem_access::contents(*old(mem)),
            fd,
            iovs_ptr,
            iovs_len,
            nwritten_ptr,
        ),
    ensures
        (r, crate::host_funcs::mem_access::contents(*final(mem)), final(console)@) == write_done(
            crate::host_funcs::mem_access::contents(*old(mem)),
            old(console)@,
            fd,
            iovs_ptr,
            iovs_len,
            nwritten_ptr,
        ),
        crate::host_funcs::mem_access::base_of(*final(mem))
            == crate::host_funcs::mem_access::base_of(*old(mem)),
{
    match mem.take() {
        Some(mut accessor) => {
            let r = write_buffers(&mut accessor, console, fd, iovs_ptr, iovs_len, nwritten_ptr);
            *mem = Some(accessor);
            r
        },
        None => {
            if iovs_ptr < 0 || iovs_len < 0 || nwritten_ptr < 0 {
                ERRNO_INVAL
            } else if !(fd == FD_STDOUT || fd == FD_STDERR || (fd >= 3 && fd < 64)) {
                ERRNO_BADF
            } else {
                ERRNO_INVAL
            }
        },
    }
}

/// What a read from a descriptor gives: the error and the memory. Nothing is left to read, so the
/// number of bytes is zero.
pub open spec fn read_done(
    mem: Option<Seq<u8>>,
    fd: i32,
    iovs_ptr: i32,
    iovs_len: i32,
    nread_ptr: i32,
) -> (i32, Option<Seq<u8>>) {
    if fd == FD_STDOUT || fd == FD_STDERR || fd < 0 {
        (ERRNO_BADF, mem)
    } else if iovs_ptr >= 0 && iovs_len >= 0 && nread_ptr >= 0 && mem is Some
        && crate::host_funcs::mem_access::valid_range(mem->0, nread_ptr as int, 4) {
        (
            ERRNO_SUCCESS,
            Some(
                crate::host_funcs::mem_access::bytes_written(
                    mem->0,
                    nread_ptr as int,
                    vstd::bytes::spec_u32_to_le_bytes(0),
                ),
            ),
        )
    } else {
        (ERRNO_INVAL, mem)
    }
}

/// Reads from a descriptor.
pub fn fd_read(
    mem: &mut Option<MemoryAccessor>,
    fd: i32,
    iovs_ptr: i32,
    iovs_len: i32,
    nread_ptr: i32,
) -> (r: i32)
    ensures
        (r, crate::host_funcs::mem_access::contents(*final(mem))) == read_done(
            crate::host_funcs::mem_access::contents(*old(mem)),
            fd,
            iovs_ptr,
            iovs_len,
            nread_ptr,
        ),
        crate::host_funcs::mem_access::base_of(*final(mem))
            == crate::host_funcs::mem_access::base_of(*old(mem)),
{
    match mem.take() {
        Some(mut accessor) => {
            let r = read_buffers(&mut accessor, fd, iovs_ptr, iovs_len, nread_ptr);
            *mem = Some(accessor);
            r
        },
        None => {
            if fd == FD_STDOUT || fd == FD_STDERR || fd < 0 {
                ERRNO_BADF
            } else {
                ERRNO_INVAL
            }
        },
    }
}

/// What moving the position of a descriptor gives: the error and the memory. The new position is the
/// offset, as an unsigned number.
pub open spec fn seek_done(mem: Option<Seq<u8>>, offset: i64, newoffset_ptr: i32) -> (
    i32,
    Option<Seq<u8>>,
) {
    if newoffset_ptr >= 0 && mem is Some && crate::host_funcs::mem_access::valid_range(
        mem->0,
        newoffset_ptr as int,
        8,
    ) {
        (
            ERRNO_SUCCESS,
            Some(
                crate::host_funcs::mem_access::bytes_written(
                    mem->0,
                    newoffset_ptr as int,
                    vstd::bytes::spec_u64_to_le_bytes(offset as u64),
                ),
            ),
        )
    } else {
        (ERRNO_INVAL, mem)
    }
}

/// Moves the position of a descriptor.
pub fn fd_seek(
    mem: &mut Option<MemoryAccessor>,
    _fd: i32,
    offset: i64,
    _whence: i32,
    newoffset_ptr: i32,
) -> (r: i32)
    ensures
        (r, crate::host_funcs::mem_access::contents(*final(mem))) == seek_done(
            crate::host_funcs::mem_access::contents(*old(mem)),
            offset,
            newoffset_ptr,
        ),
        crate::host_funcs::mem_access::base_of(*final(mem))
            == crate::host_funcs::mem_access::base_of(*old(mem)),
{
    match mem.take() {
        Some(mut accessor) => {
            let r = seek(&mut accessor, offset, newoffset_ptr);
            *mem = Some(accessor);
            r
        },
        None => ERRNO_INVAL,
    }
}

/// The input and output functions, in the order of their registration.
pub open spec fn io_functions() -> Seq<HostFunction> {
    seq![
        HostFunction::FdWrite,
        HostFunction::FdRead,
        HostFunction::FdClose,
        HostFunction::FdSeek,
    ]
}

/// Registers the input and output functions.
pub fn register(linker: &mut Linker) -> (r: Result<(), Error>)
    ensures
        (final(linker)@, r is Ok) == crate::host_funcs::registered(old(linker)@, WASI_MODULE@, io_functions()),
        r matches Err(e) ==> crate::host_funcs::is_refusal(
            e,
            WASI_MODULE@,
            io_functions(),
            final(linker)@.len() - old(linker)@.len(),
        ),
{
    let funcs: Vec<HostFunction> = vec![
        HostFunction::FdWrite,
        HostFunction::FdRead,
        HostFunction::FdClose,
        HostFunction::FdSeek,
    ];
    assert(funcs@ =~= io_functions());
    linker.register_all(WASI_MODULE, &funcs)
}

} // verus!
