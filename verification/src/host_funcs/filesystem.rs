//! File functions that answer with fixed data.
use crate::errors::Error;
use crate::host_funcs::{HostFunction, Linker, WASI_MODULE};
use vstd::prelude::*;

verus! {

pub const ERRNO_SUCCESS: i32 = 0;

/// Bad file descriptor.
pub const ERRNO_BADF: i32 = 8;

/// File exists.
pub const ERRNO_EXIST: i32 = 17;

/// Not a directory.
pub const ERRNO_NOTDIR: i32 = 20;

/// Is a directory.
pub const ERRNO_ISDIR: i32 = 21;

/// Invalid argument.
pub const ERRNO_INVAL: i32 = 28;

/// No such file or directory.
pub const ERRNO_NOENT: i32 = 44;

/// Function not implemented.
pub const ERRNO_NOSYS: i32 = 52;

pub const FILETYPE_UNKNOWN: u8 = 0;

pub const FILETYPE_BLOCK_DEVICE: u8 = 1;

pub const FILETYPE_CHARACTER_DEVICE: u8 = 2;

pub const FILETYPE_DIRECTORY: u8 = 3;

pub const FILETYPE_REGULAR_FILE: u8 = 4;

pub const FILETYPE_SOCKET_DGRAM: u8 = 5;

pub const FILETYPE_SOCKET_STREAM: u8 = 6;

pub const FILETYPE_SYMBOLIC_LINK: u8 = 7;

pub const OFLAGS_CREAT: u16 = 0x0001;

pub const OFLAGS_DIRECTORY: u16 = 0x0002;

pub const OFLAGS_EXCL: u16 = 0x0004;

pub const OFLAGS_TRUNC: u16 = 0x0008;

pub const FDFLAGS_APPEND: u16 = 0x0001;

pub const FDFLAGS_DSYNC: u16 = 0x0002;

pub const FDFLAGS_NONBLOCK: u16 = 0x0004;

pub const FDFLAGS_RSYNC: u16 = 0x0008;

pub const FDFLAGS_SYNC: u16 = 0x0010;

pub const WHENCE_SET: i32 = 0;

pub const WHENCE_CUR: i32 = 1;

pub const WHENCE_END: i32 = 2;

/// All rights.
pub const RIGHTS_ALL: u64 = 0xFFFF_FFFF_FFFF_FFFF;

/// The tag of a preopened directory.
pub const PREOPENTYPE_DIR: u8 = 0;

/// The descriptor of the preopened root directory.
pub const FD_PREOPEN: i32 = 3;

/// The first descriptor that an opened file gets: 0 to 2 are the standard streams, and 3 is the
/// preopened directory.
pub const FIRST_FD: i32 = 4;

/// The time of all files, in nanoseconds.
pub const FILE_TIME: u64 = 1_700_000_000_000_000_000;

/// The attributes of a file.
#[derive(Debug, Clone, Copy, PartialEq, Eq, Structural)]
pub struct Filestat {
    pub dev: u64,
    pub ino: u64,
    pub filetype: u8,
    pub nlink: u64,
    pub size: u64,
    pub atim: u64,
    pub mtim: u64,
    pub ctim: u64,
}

impl Default for Filestat {
    /// An empty regular file.
    fn default() -> (r: Self)
        ensures
            r == (Filestat {
                dev: 0,
                ino: 1,
                filetype: FILETYPE_REGULAR_FILE,
                nlink: 1,
                size: 0,
                atim: FILE_TIME,
                mtim: FILE_TIME,
                ctim: FILE_TIME,
            }),
    {
        Filestat {
            dev: 0,
            ino: 1,
            filetype: FILETYPE_REGULAR_FILE,
            nlink: 1,
            size: 0,
            atim: FILE_TIME,
            mtim: FILE_TIME,
            ctim: FILE_TIME,
        }
    }
}

/// The attributes of a descriptor.
#[derive(Debug, Clone, Copy, PartialEq, Eq, Structural)]
pub struct Fdstat {
    pub fs_filetype: u8,
    pub fs_flags: u16,
    pub fs_rights_base: u64,
    pub fs_rights_inheriting: u64,
}

impl Default for Fdstat {
    /// A regular file without flags, and with all rights.
    fn default() -> (r: Self)
        ensures
            r == (Fdstat {
                fs_filetype: FILETYPE_REGULAR_FILE,
                fs_flags: 0,
                fs_rights_base: RIGHTS_ALL,
                fs_rights_inheriting: RIGHTS_ALL,
            }),
    {
        Fdstat {
            fs_filetype: FILETYPE_REGULAR_FILE,
            fs_flags: 0,
            fs_rights_base: RIGHTS_ALL,
            fs_rights_inheriting: RIGHTS_ALL,
        }
    }
}

/// A preopened resource: so far always a directory.
#[derive(Debug, Clone, Copy, PartialEq, Eq, Structural)]
pub struct Prestat {
    pub tag: u8,
    pub dir: PrestatDir,
}

/// A preopened directory.
#[derive(Debug, Clone, Copy, PartialEq, Eq, Structural)]
pub struct PrestatDir {
    pub pr_name_len: u32,
}

/// An entry of a directory.
#[derive(Debug, Clone, Copy, PartialEq, Eq, Structural)]
pub struct Dirent {
    /// Where the next entry is found.
    pub d_next: u64,
    pub d_ino: u64,
    pub d_namlen: u32,
    pub d_type: u8,
}

/// The descriptors that were given out.
#[derive(Debug, Clone, Copy, PartialEq, Eq, Structural)]
pub struct Descriptors {
    pub next_fd: i32,
}

impl Descriptors {
    /// No file was opened yet.
    pub fn new() -> (r: Self)
        ensures
            r.next_fd == FIRST_FD,
    {
        Descriptors { next_fd: FIRST_FD }
    }
}

/// Describes a preopened directory: only the root is preopened.
pub fn fd_prestat_get(fd: i32, _prestat_ptr: i32) -> (r: i32)
    ensures
        r == (if fd != FD_PREOPEN {
            ERRNO_BADF
        } else {
            ERRNO_SUCCESS
        }),
{
    if fd != FD_PREOPEN {
        return ERRNO_BADF;
    }
    ERRNO_SUCCESS
}

/// Names a preopened directory, in a buffer with room for at least one byte.
pub fn fd_prestat_dir_name(fd: i32, _path_ptr: i32, path_len: i32) -> (r: i32)
    ensures
        r == (if fd != FD_PREOPEN {
            ERRNO_BADF
        } else if path_len < 1 {
            ERRNO_INVAL
        } else {
            ERRNO_SUCCESS
        }),
{
    if fd != FD_PREOPEN {
        return ERRNO_BADF;
    }
    if path_len < 1 {
        return ERRNO_INVAL;
    }
    ERRNO_SUCCESS
}

/// Opens a file: every call takes the next descriptor, which starts over at the smallest number
/// behind the largest one.
pub fn path_open(
    descriptors: &mut Descriptors,
    _dirfd: i32,
    _dirflags: i32,
    _path_ptr: i32,
    _path_len: i32,
    _oflags: i32,
    _fs_rights_base: i64,
    _fs_rights_inheriting: i64,
    _fdflags: i32,
    _fd_ptr: i32,
) -> (r: i32)
    ensures
        r == ERRNO_SUCCESS,
        final(descriptors).next_fd == (if old(descriptors).next_fd == i32::MAX {
            i32::MIN as int
        } else {
            old(descriptors).next_fd + 1
        }),
{
    descriptors.next_fd = descriptors.next_fd.wrapping_add(1);
    ERRNO_SUCCESS
}

/// Describes a file by its descriptor, which is not negative.
pub fn fd_filestat_get(fd: i32, _filestat_ptr: i32) -> (r: i32)
    ensures
        r == (if fd < 0 {
            ERRNO_BADF
        } else {
            ERRNO_SUCCESS
        }),
{
    if fd < 0 {
        return ERRNO_BADF;
    }
    ERRNO_SUCCESS
}

/// Describes a file by its path: always succeeds.
pub fn path_filestat_get(_dirfd: i32, _flags: i32, _path_ptr: i32, _path_len: i32, _filestat_ptr: i32) -> (r: i32)
    ensures
        r == ERRNO_SUCCESS,
{
    ERRNO_SUCCESS
}

/// Describes a descriptor, which is not negative.
pub fn fd_fdstat_get(fd: i32, _fdstat_ptr: i32) -> (r: i32)
    ensures
        r == (if fd < 0 {
            ERRNO_BADF
        } else {
            ERRNO_SUCCESS
        }),
{
    if fd < 0 {
        return ERRNO_BADF;
    }
    ERRNO_SUCCESS
}

/// Lists a directory: always succeeds.
pub fn fd_readdir(_fd: i32, _buf_ptr: i32, _buf_len: i32, _cookie: i64, _bufused_ptr: i32) -> (r: i32)
    ensures
        r == ERRNO_SUCCESS,
{
    ERRNO_SUCCESS
}

/// Creates a directory: always succeeds.
pub fn path_create_directory(_dirfd: i32, _path_ptr: i32, _path_len: i32) -> (r: i32)
    ensures
        r == ERRNO_SUCCESS,
{
    ERRNO_SUCCESS
}

/// Removes a directory: always succeeds.
pub fn path_remove_directory(_dirfd: i32, _path_ptr: i32, _path_len: i32) -> (r: i32)
    ensures
        r == ERRNO_SUCCESS,
{
    ERRNO_SUCCESS
}

/// Deletes a file: always succeeds.
pub fn path_unlink_file(_dirfd: i32, _path_ptr: i32, _path_len: i32) -> (r: i32)
    ensures
        r == ERRNO_SUCCESS,
{
    ERRNO_SUCCESS
}

/// Renames a file or directory: always succeeds.
pub fn path_rename(_old_dirfd: i32, _old_path_ptr: i32, _old_path_len: i32, _new_dirfd: i32, _new_path_ptr: i32, _new_path_len: i32) -> (r: i32)
    ensures
        r == ERRNO_SUCCESS,
{
    ERRNO_SUCCESS
}

/// Sets the times of a file: always succeeds.
pub fn fd_filestat_set_times(_fd: i32, _atim: i64, _mtim: i64, _fst_flags: i32) -> (r: i32)
    ensures
        r == ERRNO_SUCCESS,
{
    ERRNO_SUCCESS
}

/// Sets the times of a file by its path: always succeeds.
pub fn path_filestat_set_times(_dirfd: i32, _flags: i32, _path_ptr: i32, _path_len: i32, _atim: i64, _mtim: i64, _fst_flags: i32) -> (r: i32)
    ensures
        r == ERRNO_SUCCESS,
{
    ERRNO_SUCCESS
}

/// Sets the flags of a descriptor: always succeeds.
pub fn fd_fdstat_set_flags(_fd: i32, _flags: i32) -> (r: i32)
    ensures
        r == ERRNO_SUCCESS,
{
    ERRNO_SUCCESS
}

/// Reserves space for a file: always succeeds.
pub fn fd_allocate(_fd: i32, _offset: i64, _len: i64) -> (r: i32)
    ensures
        r == ERRNO_SUCCESS,
{
    ERRNO_SUCCESS
}

/// Writes back the data of a file: always succeeds.
pub fn fd_datasync(_fd: i32) -> (r: i32)
    ensures
        r == ERRNO_SUCCESS,
{
    ERRNO_SUCCESS
}

/// Writes back a file: always succeeds.
pub fn fd_sync(_fd: i32) -> (r: i32)
    ensures
        r == ERRNO_SUCCESS,
{
    ERRNO_SUCCESS
}

/// The file functions, in the order of their registration.
pub open spec fn filesystem_functions() -> Seq<HostFunction> {
    seq![
        HostFunction::FdPrestatGet,
        HostFunction::FdPrestatDirName,
        HostFunction::PathOpen,
        HostFunction::FdFilestatGet,
        HostFunction::PathFilestatGet,
        HostFunction::FdFdstatGet,
        HostFunction::FdReaddir,
        HostFunction::PathCreateDirectory,
        HostFunction::PathRemoveDirectory,
        HostFunction::PathUnlinkFile,
        HostFunction::PathRename,
        HostFunction::FdFilestatSetTimes,
        HostFunction::PathFilestatSetTimes,
        HostFunction::FdFdstatSetFlags,
        HostFunction::FdAllocate,
        HostFunction::FdDatasync,
        HostFunction::FdSync,
    ]
}

/// Registers the file functions.
pub fn register(linker: &mut Linker) -> (r: Result<(), Error>)
    ensures
        (final(linker)@, r is Ok) == crate::host_funcs::registered(old(linker)@, WASI_MODULE@, filesystem_functions()),
        r matches Err(e) ==> crate::host_funcs::is_refusal(
            e,
            WASI_MODULE@,
            filesystem_functions(),
            final(linker)@.len() - old(linker)@.len(),
        ),
{
    let funcs: Vec<HostFunction> = vec![
        HostFunction::FdPrestatGet,
        HostFunction::FdPrestatDirName,
        HostFunction::PathOpen,
        HostFunction::FdFilestatGet,
        HostFunction::PathFilestatGet,
        HostFunction::FdFdstatGet,
        HostFunction::FdReaddir,
        HostFunction::PathCreateDirectory,
        HostFunction::PathRemoveDirectory,
        HostFunction::PathUnlinkFile,
        HostFunction::PathRename,
        HostFunction::FdFilestatSetTimes,
        HostFunction::PathFilestatSetTimes,
        HostFunction::FdFdstatSetFlags,
        HostFunction::FdAllocate,
        HostFunction::FdDatasync,
        HostFunction::FdSync,
    ];
    assert(funcs@ =~= filesystem_functions());
    linker.register_all(WASI_MODULE, &funcs)
}

} // verus!
