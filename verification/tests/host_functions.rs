use k23_wasm::errors::Error;
use k23_wasm::func::Val;
use k23_wasm::host_funcs::dispatch::Host;
use k23_wasm::host_funcs::filesystem::{self, Descriptors, Fdstat, Filestat};
use k23_wasm::host_funcs::io::{self, Console};
use k23_wasm::host_funcs::mem_access::MemoryAccessor;
use k23_wasm::host_funcs::{memory, process, time};
use k23_wasm::host_funcs::{
    register_host_functions, register_test_functions, HostFunction, Linker, WASI_MODULE,
};
use k23_wasm::types::WasmValType;

fn guest(size: usize) -> MemoryAccessor {
    MemoryAccessor::of_bytes(0x1000, vec![0; size])
}

/// Calls a function of a guest with a memory.
fn with<R>(mem: &mut MemoryAccessor, f: impl FnOnce(&mut Option<MemoryAccessor>) -> R) -> R {
    let mut held = Some(std::mem::replace(mem, guest(0)));
    let r = f(&mut held);
    *mem = held.unwrap();
    r
}

fn fd_write(mem: &mut MemoryAccessor, console: &mut Console, fd: i32, ptr: i32, len: i32, n: i32) -> i32 {
    with(mem, |m| io::fd_write(m, console, fd, ptr, len, n))
}

fn fd_read(mem: &mut MemoryAccessor, fd: i32, ptr: i32, len: i32, n: i32) -> i32 {
    with(mem, |m| io::fd_read(m, fd, ptr, len, n))
}

fn fd_seek(mem: &mut MemoryAccessor, fd: i32, offset: i64, whence: i32, n: i32) -> i32 {
    with(mem, |m| io::fd_seek(m, fd, offset, whence, n))
}

/// A memory with one buffer description at 0 that refers to `text` at 8.
fn guest_with_text(text: &[u8]) -> MemoryAccessor {
    let mut mem = guest(256);
    assert!(mem.write_u32(0, 8));
    assert!(mem.write_u32(4, text.len() as u32));
    assert!(mem.write_bytes(8, &text.to_vec()));
    mem
}

#[test]
fn memory_ranges_end_at_the_size() {
    let mem = guest(16);
    assert_eq!(mem.base(), 0x1000);
    assert_eq!(mem.size(), 16);
    assert!(mem.is_valid_range(0, 16));
    assert!(mem.is_valid_range(16, 0));
    assert!(!mem.is_valid_range(16, 1));
    assert!(!mem.is_valid_range(u32::MAX, u32::MAX));
}

#[test]
fn memory_gives_back_what_was_written() {
    let mut mem = guest(16);
    assert!(mem.write_u32(4, 0x1234_5678));
    assert_eq!(mem.read_u32(4), Some(0x1234_5678));
    assert_eq!(mem.read_bytes(4, 4), Some(vec![0x78, 0x56, 0x34, 0x12]));
    assert_eq!(mem.read_bytes(0, 4), Some(vec![0; 4]));
    assert_eq!(mem.read_bytes(8, 8), Some(vec![0; 8]));
    assert_eq!(mem.read_u32(13), None);
    assert!(!mem.write_u64(9, 1));
    assert!(!mem.write_bytes(15, &vec![1, 2]));
    assert_eq!(mem.read_bytes(8, 8), Some(vec![0; 8]));
}

#[test]
fn fd_write_writes_hello_world_to_stdout() {
    let text = b"Hello World from WASI!\n";
    let mut mem = guest_with_text(text);
    let mut console = Console::new();
    assert!(io::is_countable(&mem, 0, 1));
    assert_eq!(fd_write(&mut mem, &mut console, 1, 0, 1, 100), io::ERRNO_SUCCESS);
    assert_eq!(mem.read_u32(100), Some(23));
    assert_eq!(console.chunks(), &vec![(1, text.to_vec())]);
}

#[test]
fn fd_write_checks_pointers_before_the_descriptor() {
    let mut mem = guest(64);
    let mut console = Console::new();
    assert_eq!(fd_write(&mut mem, &mut console, 0, -1, 1, 0), io::ERRNO_INVAL);
    assert_eq!(fd_write(&mut mem, &mut console, 0, 0, -1, 0), io::ERRNO_INVAL);
    assert_eq!(fd_write(&mut mem, &mut console, 0, 0, 1, -1), io::ERRNO_INVAL);
    assert_eq!(fd_write(&mut mem, &mut console, 0, 0, 1, 0), io::ERRNO_BADF);
    assert_eq!(fd_write(&mut mem, &mut console, 64, 0, 1, 0), io::ERRNO_BADF);
    assert!(console.chunks().is_empty());
}

#[test]
fn fd_write_to_a_file_counts_only() {
    let mut mem = guest_with_text(b"abc");
    let mut console = Console::new();
    assert_eq!(fd_write(&mut mem, &mut console, 63, 0, 1, 100), io::ERRNO_SUCCESS);
    assert_eq!(mem.read_u32(100), Some(3));
    assert!(console.chunks().is_empty());
}

#[test]
fn fd_write_stops_at_a_buffer_outside_the_memory() {
    let mut mem = guest_with_text(b"abc");
    // A second description that refers to bytes behind the memory.
    assert!(mem.write_u32(16, 8));
    assert!(mem.write_u32(20, 3));
    assert!(mem.write_u32(24, 250));
    assert!(mem.write_u32(28, 100));
    let mut console = Console::new();
    assert_eq!(fd_write(&mut mem, &mut console, 2, 16, 2, 100), io::ERRNO_INVAL);
    assert_eq!(console.chunks(), &vec![(2, b"abc".to_vec())]);
    assert_eq!(mem.read_u32(100), Some(0));
}

#[test]
fn fd_write_accepts_empty_buffers_anywhere() {
    let mut mem = guest(64);
    assert!(mem.write_u32(0, 0xffff_0000));
    let mut console = Console::new();
    assert_eq!(fd_write(&mut mem, &mut console, 1, 0, 1, 32), io::ERRNO_SUCCESS);
    assert_eq!(mem.read_u32(32), Some(0));
    assert!(console.chunks().is_empty());
    assert_eq!(fd_write(&mut mem, &mut console, 1, 0, 1, 61), io::ERRNO_INVAL);
}

#[test]
fn countable_lists_fit_in_32_bits() {
    let mut mem = guest(65536);
    for i in 0..8 {
        assert!(mem.write_u32(i * 8, 0));
        assert!(mem.write_u32(i * 8 + 4, 65536));
    }
    assert!(io::is_countable(&mem, 0, 8));
    // The list itself is the buffer: each entry adds the whole memory.
    assert!(io::is_countable(&mem, 0, u32::MAX));
}

#[test]
fn fd_read_is_at_the_end() {
    let mut mem = guest(16);
    assert!(mem.write_u32(8, 77));
    assert_eq!(fd_read(&mut mem, 0, 0, 0, 8), io::ERRNO_SUCCESS);
    assert_eq!(mem.read_u32(8), Some(0));
    assert_eq!(fd_read(&mut mem, 5, 0, 1, 12), io::ERRNO_SUCCESS);
    assert_eq!(fd_read(&mut mem, 1, 0, 0, 8), io::ERRNO_BADF);
    assert_eq!(fd_read(&mut mem, 2, 0, 0, 8), io::ERRNO_BADF);
    assert_eq!(fd_read(&mut mem, -1, 0, 0, 8), io::ERRNO_BADF);
    assert_eq!(fd_read(&mut mem, 0, -1, 0, 8), io::ERRNO_INVAL);
    assert_eq!(fd_read(&mut mem, 0, 0, 0, 13), io::ERRNO_INVAL);
}

#[test]
fn fd_close_keeps_the_standard_streams() {
    assert_eq!(io::fd_close(0), io::ERRNO_BADF);
    assert_eq!(io::fd_close(1), io::ERRNO_BADF);
    assert_eq!(io::fd_close(2), io::ERRNO_BADF);
    assert_eq!(io::fd_close(3), io::ERRNO_SUCCESS);
    assert_eq!(io::fd_close(1000), io::ERRNO_SUCCESS);
    assert_eq!(io::fd_close(-1), io::ERRNO_BADF);
}

#[test]
fn fd_seek_echoes_the_offset() {
    let mut mem = guest(16);
    assert_eq!(fd_seek(&mut mem, 3, -2, 0, 8), io::ERRNO_SUCCESS);
    assert_eq!(mem.read_bytes(8, 8), Some(vec![0xfe, 255, 255, 255, 255, 255, 255, 255]));
    assert_eq!(fd_seek(&mut mem, 3, 0, 0, 9), io::ERRNO_INVAL);
    assert_eq!(fd_seek(&mut mem, 3, 0, 0, -1), io::ERRNO_INVAL);
}

#[test]
fn only_the_root_is_preopened() {
    assert_eq!(filesystem::fd_prestat_get(3, 0), 0);
    assert_eq!(filesystem::fd_prestat_get(4, 0), filesystem::ERRNO_BADF);
    assert_eq!(filesystem::fd_prestat_dir_name(3, 0, 1), 0);
    assert_eq!(filesystem::fd_prestat_dir_name(3, 0, 0), filesystem::ERRNO_INVAL);
    assert_eq!(filesystem::fd_prestat_dir_name(2, 0, 0), filesystem::ERRNO_BADF);
}

#[test]
fn opened_files_get_consecutive_descriptors() {
    let mut descriptors = Descriptors::new();
    assert_eq!(descriptors.next_fd, 4);
    assert_eq!(filesystem::path_open(&mut descriptors, 3, 0, 0, 0, 0, 0, 0, 0, 0), 0);
    assert_eq!(descriptors.next_fd, 5);
    descriptors.next_fd = i32::MAX;
    assert_eq!(filesystem::path_open(&mut descriptors, 3, 0, 0, 0, 0, 0, 0, 0, 0), 0);
    assert_eq!(descriptors.next_fd, i32::MIN);
}

#[test]
fn file_functions_check_negative_descriptors() {
    assert_eq!(filesystem::fd_filestat_get(-1, 0), filesystem::ERRNO_BADF);
    assert_eq!(filesystem::fd_filestat_get(0, 0), 0);
    assert_eq!(filesystem::fd_fdstat_get(-1, 0), filesystem::ERRNO_BADF);
    assert_eq!(filesystem::fd_fdstat_get(7, 0), 0);
    assert_eq!(filesystem::fd_sync(-1), 0);
    assert_eq!(filesystem::path_rename(0, 0, 0, 0, 0, 0), 0);
}

#[test]
fn default_attributes_describe_an_empty_file() {
    let stat = Filestat::default();
    assert_eq!(stat.filetype, filesystem::FILETYPE_REGULAR_FILE);
    assert_eq!((stat.dev, stat.ino, stat.nlink, stat.size), (0, 1, 1, 0));
    assert_eq!(stat.mtim, 1700000000000000000);
    let fd = Fdstat::default();
    assert_eq!(fd.fs_rights_base, u64::MAX);
    assert_eq!(fd.fs_rights_inheriting, u64::MAX);
}

#[test]
fn clocks_are_told_apart() {
    assert_eq!(time::clock_time_get(0, 0, 0), 0);
    assert_eq!(time::clock_time_get(1, 0, 0), 0);
    assert_eq!(time::clock_time_get(2, 0, 0), time::ERRNO_NOSYS);
    assert_eq!(time::clock_res_get(3, 0), time::ERRNO_NOSYS);
    assert_eq!(time::clock_res_get(4, 0), time::ERRNO_INVAL);
    assert_eq!(time::clock_res_get(-1, 0), time::ERRNO_INVAL);
}

#[test]
fn process_and_memory_functions_answer() {
    assert_eq!(process::proc_exit(42), 42);
    assert_eq!(process::random_get(0, 16), 0);
    assert_eq!(memory::memory_size(), 0);
    assert_eq!(memory::memory_grow(1), -1);
}

#[test]
fn host_functions_register_once() {
    let mut linker = Linker::new();
    assert!(register_host_functions(&mut linker).is_ok());
    assert_eq!(linker.get(WASI_MODULE, "fd_write"), Some(HostFunction::FdWrite));
    assert_eq!(linker.get(WASI_MODULE, "random_get"), Some(HostFunction::RandomGet));
    assert_eq!(linker.get(WASI_MODULE, "path_open"), None);
    assert_eq!(linker.get("k23", "fd_write"), None);
    match register_host_functions(&mut linker) {
        Err(Error::AlreadyDefined { module, field }) => {
            assert_eq!(module, "wasi_snapshot_preview1");
            assert_eq!(field, "fd_write");
        }
        _ => panic!("the names are taken"),
    }
    assert!(filesystem::register(&mut linker).is_ok());
    assert_eq!(linker.get(WASI_MODULE, "path_open"), Some(HostFunction::PathOpen));
}

#[test]
fn registration_stops_at_a_taken_name() {
    let mut linker = Linker::new();
    assert!(linker.func_wrap(WASI_MODULE, "fd_close", HostFunction::Custom(7)).is_ok());
    assert!(io::register(&mut linker).is_err());
    assert_eq!(linker.get(WASI_MODULE, "fd_read"), Some(HostFunction::FdRead));
    assert_eq!(linker.get(WASI_MODULE, "fd_close"), Some(HostFunction::Custom(7)));
    assert_eq!(linker.get(WASI_MODULE, "fd_seek"), None);
}

#[test]
fn functions_for_tests_have_their_own_module() {
    let mut linker = Linker::new();
    assert!(register_test_functions(&mut linker).is_ok());
    assert_eq!(linker.get("k23", "print_str"), Some(HostFunction::PrintStr));
    assert!(!HostFunction::PrintStr.has_result());
    assert_eq!(HostFunction::PrintStr.params(), vec![WasmValType::I32, WasmValType::I32]);
    assert!(HostFunction::FdSeek.has_result());
    assert_eq!(HostFunction::FdSeek.params()[1], WasmValType::I64);
}

#[test]
fn guests_without_memory_cannot_do_io() {
    let mut console = Console::new();
    let mut none = None;
    assert_eq!(io::fd_write(&mut none, &mut console, 1, 0, 0, 0), io::ERRNO_INVAL);
    assert_eq!(io::fd_write(&mut none, &mut console, 0, 0, 0, 0), io::ERRNO_BADF);
    assert_eq!(io::fd_read(&mut none, 0, 0, 0, 0), io::ERRNO_INVAL);
    assert_eq!(io::fd_read(&mut none, 1, 0, 0, 0), io::ERRNO_BADF);
    assert_eq!(io::fd_seek(&mut none, 3, 0, 0, 0), io::ERRNO_INVAL);
    assert!(none.is_none());
    assert!(console.chunks().is_empty());
}

#[test]
fn slices_are_changed_in_place() {
    let mut mem = guest(8);
    assert!(mem.get_slice_mut(5, 4).is_none());
    let data = mem.get_slice_mut(2, 3).unwrap();
    assert_eq!(data.len(), 3);
    data[1] = 9;
    assert_eq!(mem.read_bytes(0, 8), Some(vec![0, 0, 0, 9, 0, 0, 0, 0]));
}

#[test]
fn names_are_bound_to_their_functions() {
    let text = b"abc";
    let mut host = Host {
        mem: Some(guest_with_text(text)),
        console: Console::new(),
        descriptors: Descriptors::new(),
    };
    let i = |v: i32| Val::I32(v);
    let l = |v: i64| Val::I64(v);
    assert_eq!(host.call(HostFunction::FdWrite, &vec![i(1), i(0), i(1), i(100)]), Some(0));
    assert_eq!(host.console.chunks(), &vec![(1, text.to_vec())]);
    assert_eq!(host.mem.as_ref().unwrap().read_u32(100), Some(3));
    assert_eq!(host.call(HostFunction::FdRead, &vec![i(0), i(0), i(1), i(100)]), Some(0));
    assert_eq!(host.mem.as_ref().unwrap().read_u32(100), Some(0));
    assert_eq!(host.call(HostFunction::FdSeek, &vec![i(3), l(7), i(0), i(100)]), Some(0));
    assert_eq!(host.mem.as_ref().unwrap().read_u32(100), Some(7));
    let first = host.descriptors.next_fd;
    let open = vec![i(3), i(0), i(0), i(1), i(0), l(0), l(0), i(0), i(0)];
    assert_eq!(host.call(HostFunction::PathOpen, &open), Some(0));
    assert_eq!(host.descriptors.next_fd, first + 1);
    assert_eq!(host.call(HostFunction::FdClose, &vec![i(2)]), Some(io::ERRNO_BADF));
    assert_eq!(host.call(HostFunction::FdPrestatGet, &vec![i(4), i(0)]), Some(io::ERRNO_BADF));
    assert_eq!(host.call(HostFunction::ProcExit, &vec![i(42)]), Some(42));
    assert_eq!(host.call(HostFunction::MemorySize, &vec![]), Some(0));
    assert_eq!(host.call(HostFunction::MemoryGrow, &vec![i(1)]), Some(-1));
    assert_eq!(host.call(HostFunction::ClockTimeGet, &vec![i(2), l(0), i(0)]), Some(io::ERRNO_NOSYS));
    assert_eq!(host.call(HostFunction::Print, &vec![]), None);
    host.mem = None;
    assert_eq!(
        host.call(HostFunction::FdWrite, &vec![i(1), i(0), i(1), i(100)]),
        Some(io::ERRNO_INVAL)
    );
}
