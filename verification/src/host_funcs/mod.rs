//! The functions that the host offers to guests, and the linker that they are registered with.
pub mod dispatch;
pub mod filesystem;
pub mod io;
pub mod mem_access;
pub mod memory;
pub mod process;
pub mod time;

use crate::errors::Error;
use crate::types::WasmValType;
use vstd::prelude::*;

verus! {

/// A function of the host.
#[derive(Debug, Clone, Copy, PartialEq, Eq, Structural)]
pub enum HostFunction {
    FdPrestatGet,
    FdPrestatDirName,
    PathOpen,
    FdFilestatGet,
    PathFilestatGet,
    FdFdstatGet,
    FdReaddir,
    PathCreateDirectory,
    PathRemoveDirectory,
    PathUnlinkFile,
    PathRename,
    FdFilestatSetTimes,
    PathFilestatSetTimes,
    FdFdstatSetFlags,
    FdAllocate,
    FdDatasync,
    FdSync,
    FdWrite,
    FdRead,
    FdClose,
    FdSeek,
    MemorySize,
    MemoryGrow,
    ClockTimeGet,
    ClockResGet,
    ProcExit,
    EnvironSizesGet,
    EnvironGet,
    ArgsSizesGet,
    ArgsGet,
    RandomGet,
    Print,
    PrintStr,
    /// A function of the embedder.
    Custom(u32),
}

impl HostFunction {
    /// The name that the function is registered under.
    pub open spec fn spec_name(self) -> Seq<char> {
        match self {
            HostFunction::FdPrestatGet => "fd_prestat_get"@,
            HostFunction::FdPrestatDirName => "fd_prestat_dir_name"@,
            HostFunction::PathOpen => "path_open"@,
            HostFunction::FdFilestatGet => "fd_filestat_get"@,
            HostFunction::PathFilestatGet => "path_filestat_get"@,
            HostFunction::FdFdstatGet => "fd_fdstat_get"@,
            HostFunction::FdReaddir => "fd_readdir"@,
            HostFunction::PathCreateDirectory => "path_create_directory"@,
            HostFunction::PathRemoveDirectory => "path_remove_directory"@,
            HostFunction::PathUnlinkFile => "path_unlink_file"@,
            HostFunction::PathRename => "path_rename"@,
            HostFunction::FdFilestatSetTimes => "fd_filestat_set_times"@,
            HostFunction::PathFilestatSetTimes => "path_filestat_set_times"@,
            HostFunction::FdFdstatSetFlags => "fd_fdstat_set_flags"@,
            HostFunction::FdAllocate => "fd_allocate"@,
            HostFunction::FdDatasync => "fd_datasync"@,
            HostFunction::FdSync => "fd_sync"@,
            HostFunction::FdWrite => "fd_write"@,
            HostFunction::FdRead => "fd_read"@,
            HostFunction::FdClose => "fd_close"@,
            HostFunction::FdSeek => "fd_seek"@,
            HostFunction::MemorySize => "memory_size"@,
            HostFunction::MemoryGrow => "memory_grow"@,
            HostFunction::ClockTimeGet => "clock_time_get"@,
            HostFunction::ClockResGet => "clock_res_get"@,
            HostFunction::ProcExit => "proc_exit"@,
            HostFunction::EnvironSizesGet => "environ_sizes_get"@,
            HostFunction::EnvironGet => "environ_get"@,
            HostFunction::ArgsSizesGet => "args_sizes_get"@,
            HostFunction::ArgsGet => "args_get"@,
            HostFunction::RandomGet => "random_get"@,
            HostFunction::Print => "print"@,
            HostFunction::PrintStr => "print_str"@,
            HostFunction::Custom(_) => Seq::empty(),
        }
    }

    /// The name that the function is registered under.
    pub fn name(self) -> (r: &'static str)
        ensures
            r@ == self.spec_name(),
    {
        proof {
            reveal_strlit("");
        }
        match self {
            HostFunction::FdPrestatGet => "fd_prestat_get",
            HostFunction::FdPrestatDirName => "fd_prestat_dir_name",
            HostFunction::PathOpen => "path_open",
            HostFunction::FdFilestatGet => "fd_filestat_get",
            HostFunction::PathFilestatGet => "path_filestat_get",
            HostFunction::FdFdstatGet => "fd_fdstat_get",
            HostFunction::FdReaddir => "fd_readdir",
            HostFunction::PathCreateDirectory => "path_create_directory",
            HostFunction::PathRemoveDirectory => "path_remove_directory",
            HostFunction::PathUnlinkFile => "path_unlink_file",
            HostFunction::PathRename => "path_rename",
            HostFunction::FdFilestatSetTimes => "fd_filestat_set_times",
            HostFunction::PathFilestatSetTimes => "path_filestat_set_times",
            HostFunction::FdFdstatSetFlags => "fd_fdstat_set_flags",
            HostFunction::FdAllocate => "fd_allocate",
            HostFunction::FdDatasync => "fd_datasync",
            HostFunction::FdSync => "fd_sync",
            HostFunction::FdWrite => "fd_write",
            HostFunction::FdRead => "fd_read",
            HostFunction::FdClose => "fd_close",
            HostFunction::FdSeek => "fd_seek",
            HostFunction::MemorySize => "memory_size",
            HostFunction::MemoryGrow => "memory_grow",
            HostFunction::ClockTimeGet => "clock_time_get",
            HostFunction::ClockResGet => "clock_res_get",
            HostFunction::ProcExit => "proc_exit",
            HostFunction::EnvironSizesGet => "environ_sizes_get",
            HostFunction::EnvironGet => "environ_get",
            HostFunction::ArgsSizesGet => "args_sizes_get",
            HostFunction::ArgsGet => "args_get",
            HostFunction::RandomGet => "random_get",
            HostFunction::Print => "print",
            HostFunction::PrintStr => "print_str",
            HostFunction::Custom(_) => {
                let r = "";
                assert(r@ =~= Seq::empty());
                r
            },
        }
    }

    /// The types of the parameters.
    pub open spec fn spec_params(self) -> Seq<WasmValType> {
        match self {
            HostFunction::FdPrestatGet => seq![WasmValType::I32, WasmValType::I32],
            HostFunction::FdPrestatDirName => seq![WasmValType::I32, WasmValType::I32, WasmValType::I32],
            HostFunction::PathOpen => seq![WasmValType::I32, WasmValType::I32, WasmValType::I32, WasmValType::I32, WasmValType::I32, WasmValType::I64, WasmValType::I64, WasmValType::I32, WasmValType::I32],
            HostFunction::FdFilestatGet => seq![WasmValType::I32, WasmValType::I32],
            HostFunction::PathFilestatGet => seq![WasmValType::I32, WasmValType::I32, WasmValType::I32, WasmValType::I32, WasmValType::I32],
            HostFunction::FdFdstatGet => seq![WasmValType::I32, WasmValType::I32],
            HostFunction::FdReaddir => seq![WasmValType::I32, WasmValType::I32, WasmValType::I32, WasmValType::I64, WasmValType::I32],
            HostFunction::PathCreateDirectory => seq![WasmValType::I32, WasmValType::I32, WasmValType::I32],
            HostFunction::PathRemoveDirectory => seq![WasmValType::I32, WasmValType::I32, WasmValType::I32],
            HostFunction::PathUnlinkFile => seq![WasmValType::I32, WasmValType::I32, WasmValType::I32],
            HostFunction::PathRename => seq![WasmValType::I32, WasmValType::I32, WasmValType::I32, WasmValType::I32, WasmValType::I32, WasmValType::I32],
            HostFunction::FdFilestatSetTimes => seq![WasmValType::I32, WasmValType::I64, WasmValType::I64, WasmValType::I32],
            HostFunction::PathFilestatSetTimes => seq![WasmValType::I32, WasmValType::I32, WasmValType::I32, WasmValType::I32, WasmValType::I64, WasmValType::I64, WasmValType::I32],
            HostFunction::FdFdstatSetFlags => seq![WasmValType::I32, WasmValType::I32],
            HostFunction::FdAllocate => seq![WasmValType::I32, WasmValType::I64, WasmValType::I64],
            HostFunction::FdDatasync => seq![WasmValType::I32],
            HostFunction::FdSync => seq![WasmValType::I32],
            HostFunction::FdWrite => seq![WasmValType::I32, WasmValType::I32, WasmValType::I32, WasmValType::I32],
            HostFunction::FdRead => seq![WasmValType::I32, WasmValType::I32, WasmValType::I32, WasmValType::I32],
            HostFunction::FdClose => seq![WasmValType::I32],
            HostFunction::FdSeek => seq![WasmValType::I32, WasmValType::I64, WasmValType::I32, WasmValType::I32],
            HostFunction::MemorySize => Seq::empty(),
            HostFunction::MemoryGrow => seq![WasmValType::I32],
            HostFunction::ClockTimeGet => seq![WasmValType::I32, WasmValType::I64, WasmValType::I32],
            HostFunction::ClockResGet => seq![WasmValType::I32, WasmValType::I32],
            HostFunction::ProcExit => seq![WasmValType::I32],
            HostFunction::EnvironSizesGet => seq![WasmValType::I32, WasmValType::I32],
            HostFunction::EnvironGet => seq![WasmValType::I32, WasmValType::I32],
            HostFunction::ArgsSizesGet => seq![WasmValType::I32, WasmValType::I32],
            HostFunction::ArgsGet => seq![WasmValType::I32, WasmValType::I32],
            HostFunction::RandomGet => seq![WasmValType::I32, WasmValType::I32],
            HostFunction::Print => Seq::empty(),
            HostFunction::PrintStr => seq![WasmValType::I32, WasmValType::I32],
            HostFunction::Custom(_) => Seq::empty(),
        }
    }

    /// The types of the parameters.
    pub fn params(self) -> (r: Vec<WasmValType>)
        ensures
            r@ == self.spec_params(),
    {
        let r: Vec<WasmValType> = match self {
            HostFunction::FdPrestatGet => vec![WasmValType::I32, WasmValType::I32],
            HostFunction::FdPrestatDirName => vec![WasmValType::I32, WasmValType::I32, WasmValType::I32],
            HostFunction::PathOpen => vec![WasmValType::I32, WasmValType::I32, WasmValType::I32, WasmValType::I32, WasmValType::I32, WasmValType::I64, WasmValType::I64, WasmValType::I32, WasmValType::I32],
            HostFunction::FdFilestatGet => vec![WasmValType::I32, WasmValType::I32],
            HostFunction::PathFilestatGet => vec![WasmValType::I32, WasmValType::I32, WasmValType::I32, WasmValType::I32, WasmValType::I32],
            HostFunction::FdFdstatGet => vec![WasmValType::I32, WasmValType::I32],
            HostFunction::FdReaddir => vec![WasmValType::I32, WasmValType::I32, WasmValType::I32, WasmValType::I64, WasmValType::I32],
            HostFunction::PathCreateDirectory => vec![WasmValType::I32, WasmValType::I32, WasmValType::I32],
            HostFunction::PathRemoveDirectory => vec![WasmValType::I32, WasmValType::I32, WasmValType::I32],
            HostFunction::PathUnlinkFile => vec![WasmValType::I32, WasmValType::I32, WasmValType::I32],
            HostFunction::PathRename => vec![WasmValType::I32, WasmValType::I32, WasmValType::I32, WasmValType::I32, WasmValType::I32, WasmValType::I32],
            HostFunction::FdFilestatSetTimes => vec![WasmValType::I32, WasmValType::I64, WasmValType::I64, WasmValType::I32],
            HostFunction::PathFilestatSetTimes => vec![WasmValType::I32, WasmValType::I32, WasmValType::I32, WasmValType::I32, WasmValType::I64, WasmValType::I64, WasmValType::I32],
            HostFunction::FdFdstatSetFlags => vec![WasmValType::I32, WasmValType::I32],
            HostFunction::FdAllocate => vec![WasmValType::I32, WasmValType::I64, WasmValType::I64],
            HostFunction::FdDatasync => vec![WasmValType::I32],
            HostFunction::FdSync => vec![WasmValType::I32],
            HostFunction::FdWrite => vec![WasmValType::I32, WasmValType::I32, WasmValType::I32, WasmValType::I32],
            HostFunction::FdRead => vec![WasmValType::I32, WasmValType::I32, WasmValType::I32, WasmValType::I32],
            HostFunction::FdClose => vec![WasmValType::I32],
            HostFunction::FdSeek => vec![WasmValType::I32, WasmValType::I64, WasmValType::I32, WasmValType::I32],
            HostFunction::MemorySize => vec![],
            HostFunction::MemoryGrow => vec![WasmValType::I32],
            HostFunction::ClockTimeGet => vec![WasmValType::I32, WasmValType::I64, WasmValType::I32],
            HostFunction::ClockResGet => vec![WasmValType::I32, WasmValType::I32],
            HostFunction::ProcExit => vec![WasmValType::I32],
            HostFunction::EnvironSizesGet => vec![WasmValType::I32, WasmValType::I32],
            HostFunction::EnvironGet => vec![WasmValType::I32, WasmValType::I32],
            HostFunction::ArgsSizesGet => vec![WasmValType::I32, WasmValType::I32],
            HostFunction::ArgsGet => vec![WasmValType::I32, WasmValType::I32],
            HostFunction::RandomGet => vec![WasmValType::I32, WasmValType::I32],
            HostFunction::Print => vec![],
            HostFunction::PrintStr => vec![WasmValType::I32, WasmValType::I32],
            HostFunction::Custom(_) => vec![],
        };
        assert(r@ =~= self.spec_params());
        r
    }

    /// Whether the function returns a number.
    pub open spec fn spec_has_result(self) -> bool {
        !(self is Print || self is PrintStr || self is Custom)
    }

    /// Whether the function returns a number.
    pub fn has_result(self) -> (r: bool)
        ensures
            r == self.spec_has_result(),
    {
        match self {
            HostFunction::Print | HostFunction::PrintStr | HostFunction::Custom(_) => false,
            _ => true,
        }
    }
}

/// An entry of a linker.
pub struct LinkerEntry {
    pub module: String,
    pub name: String,
    pub func: HostFunction,
}

/// An entry, with its names as sequences of characters.
#[verifier::ext_equal]
pub struct Definition {
    pub module: Seq<char>,
    pub name: Seq<char>,
    pub func: HostFunction,
}

/// The functions that guests can import.
pub struct Linker {
    entries: Vec<LinkerEntry>,
}

impl View for Linker {
    type V = Seq<Definition>;

    closed spec fn view(&self) -> Seq<Definition> {
        self.entries@.map_values(
            |e: LinkerEntry| Definition { module: e.module@, name: e.name@, func: e.func },
        )
    }
}

/// Whether a name is defined.
pub open spec fn is_defined(entries: Seq<Definition>, module: Seq<char>, name: Seq<char>) -> bool {
    exists|i: int|
        0 <= i < entries.len() && (#[trigger] entries[i]).module == module && entries[i].name
            == name
}

/// The definitions after host functions were registered one after the other under a module name,
/// and whether all of them were: the first name that is taken ends it.
pub open spec fn registered(
    entries: Seq<Definition>,
    module: Seq<char>,
    funcs: Seq<HostFunction>,
) -> (Seq<Definition>, bool)
    decreases funcs.len(),
{
    if funcs.len() == 0 {
        (entries, true)
    } else {
        let (before, ok) = registered(entries, module, funcs.drop_last());
        let func = funcs.last();
        if !ok || is_defined(before, module, func.spec_name()) {
            (before, false)
        } else {
            (before.push(Definition { module, name: func.spec_name(), func }), true)
        }
    }
}

/// Whether an error says that a name is taken.
pub open spec fn is_conflict(e: Error, module: Seq<char>, name: Seq<char>) -> bool {
    e matches Error::AlreadyDefined { module: m, field } && m@ == module && field@ == name
}

/// Whether an error says that the name of a function of a list is taken.
pub open spec fn is_refusal(e: Error, module: Seq<char>, funcs: Seq<HostFunction>, k: int) -> bool {
    &&& 0 <= k < funcs.len()
    &&& is_conflict(e, module, funcs[k].spec_name())
}

impl Linker {
    /// A linker without definitions.
    pub fn new() -> (r: Self)
        ensures
            r@ == Seq::<Definition>::empty(),
    {
        let r = Linker { entries: Vec::new() };
        assert(r@ =~= Seq::<Definition>::empty());
        r
    }

    /// The function that is defined under a name.
    pub fn get(&self, module: &str, name: &str) -> (r: Option<HostFunction>)
        ensures
            r is Some <==> is_defined(self@, module@, name@),
            r matches Some(func) ==> exists|i: int|
                0 <= i < self@.len() && #[trigger] self@[i] == (Definition {
                    module: module@,
                    name: name@,
                    func,
                }) && forall|k: int|
                    0 <= k < i ==> !((#[trigger] self@[k]).module == module@ && self@[k].name
                        == name@),
    {
        let wanted_module = String::from_str(module);
        let wanted_name = String::from_str(name);
        for i in 0..self.entries.len()
            invariant
                wanted_module@ == module@,
                wanted_name@ == name@,
                forall|k: int|
                    0 <= k < i ==> !((#[trigger] self@[k]).module == module@ && self@[k].name
                        == name@),
        {
            let entry = &self.entries[i];
            if entry.module == wanted_module && entry.name == wanted_name {
                assert(self@[i as int].module == module@);
                return Some(entry.func);
            }
        }
        None
    }

    /// Defines a function under a name, unless the name is taken.
    pub fn func_wrap(&mut self, module: &str, name: &str, func: HostFunction) -> (r: Result<
        (),
        Error,
    >)
        ensures
            r is Ok <==> !is_defined(old(self)@, module@, name@),
            r is Ok ==> final(self)@ == old(self)@.push(
                Definition { module: module@, name: name@, func },
            ),
            r matches Err(e) ==> is_conflict(e, module@, name@) && final(self)@ == old(self)@,
    {
        if self.get(module, name).is_some() {
            return Err(
                Error::AlreadyDefined {
                    module: String::from_str(module),
                    field: String::from_str(name),
                },
            );
        }
        self.entries.push(
            LinkerEntry { module: String::from_str(module), name: String::from_str(name), func },
        );
        assert(self@ =~= old(self)@.push(Definition { module: module@, name: name@, func }));
        Ok(())
    }

    /// Defines host functions under their names, until a name is taken.
    pub fn register_all(&mut self, module: &str, funcs: &Vec<HostFunction>) -> (r: Result<
        (),
        Error,
    >)
        ensures
            (final(self)@, r is Ok) == registered(old(self)@, module@, funcs@),
            r matches Err(e) ==> is_refusal(e, module@, funcs@, final(self)@.len() - old(self)@.len()),
    {
        assert(funcs@.take(0) =~= Seq::empty());
        for i in 0..funcs.len()
            invariant
                (self@, true) == registered(old(self)@, module@, funcs@.take(i as int)),
                self@.len() == old(self)@.len() + i,
        {
            assert(funcs@.take(i + 1).drop_last() =~= funcs@.take(i as int));
            assert(funcs@.take(i + 1).last() == funcs@[i as int]);
            let func = funcs[i];
            match self.func_wrap(module, func.name(), func) {
                Ok(()) => {},
                Err(e) => {
                    proof {
                        lemma_registration_ends(old(self)@, module@, funcs@, i + 1);
                    }
                    return Err(e);
                },
            }
        }
        assert(funcs@.take(funcs@.len() as int) =~= funcs@);
        Ok(())
    }
}

/// A registration that has ended stays as it is.
proof fn lemma_registration_ends(
    entries: Seq<Definition>,
    module: Seq<char>,
    funcs: Seq<HostFunction>,
    n: int,
)
    requires
        0 <= n <= funcs.len(),
        !registered(entries, module, funcs.take(n)).1,
    ensures
        registered(entries, module, funcs) == registered(entries, module, funcs.take(n)),
    decreases funcs.len() - n,
{
    if n == funcs.len() {
        assert(funcs.take(n) =~= funcs);
    } else {
        assert(funcs.take(n + 1).drop_last() =~= funcs.take(n));
        lemma_registration_ends(entries, module, funcs, n + 1);
    }
}

/// A complete registration adds as many definitions as there are functions.
proof fn lemma_registration_counts(
    entries: Seq<Definition>,
    module: Seq<char>,
    funcs: Seq<HostFunction>,
)
    ensures
        registered(entries, module, funcs).1 ==> registered(entries, module, funcs).0.len()
            == entries.len() + funcs.len(),
{
    if registered(entries, module, funcs).1 {
        lemma_registration_adds(entries, module, funcs);
    }
}

/// What a complete registration adds: the functions in order.
proof fn lemma_registration_adds(
    entries: Seq<Definition>,
    module: Seq<char>,
    funcs: Seq<HostFunction>,
)
    requires
        registered(entries, module, funcs).1,
    ensures
        registered(entries, module, funcs).0 == entries + funcs.map_values(
            |func: HostFunction| Definition { module, name: func.spec_name(), func },
        ),
    decreases funcs.len(),
{
    let added = |func: HostFunction| Definition { module, name: func.spec_name(), func };
    if funcs.len() == 0 {
        assert(entries + funcs.map_values(added) =~= entries);
    } else {
        lemma_registration_adds(entries, module, funcs.drop_last());
        assert(funcs.map_values(added) =~= funcs.drop_last().map_values(added).push(
            added(funcs.last()),
        ));
        assert(entries + funcs.map_values(added) =~= (entries + funcs.drop_last().map_values(
            added,
        )).push(added(funcs.last())));
    }
}

/// Every function of a complete registration is defined under its name, and what was defined
/// before still is.
pub proof fn registered_functions_are_defined(
    entries: Seq<Definition>,
    module: Seq<char>,
    funcs: Seq<HostFunction>,
)
    requires
        registered(entries, module, funcs).1,
    ensures
        forall|i: int|
            0 <= i < funcs.len() ==> is_defined(
                registered(entries, module, funcs).0,
                module,
                (#[trigger] funcs[i]).spec_name(),
            ),
        forall|m: Seq<char>, n: Seq<char>|
            is_defined(entries, m, n) ==> #[trigger] is_defined(
                registered(entries, module, funcs).0,
                m,
                n,
            ),
{
    lemma_registration_adds(entries, module, funcs);
    let after = registered(entries, module, funcs).0;
    assert forall|i: int| 0 <= i < funcs.len() implies is_defined(
        after,
        module,
        (#[trigger] funcs[i]).spec_name(),
    ) by {
        assert(after[entries.len() + i].name == funcs[i].spec_name());
    }
    assert forall|m: Seq<char>, n: Seq<char>| is_defined(entries, m, n) implies #[trigger] is_defined(
        after,
        m,
        n,
    ) by {
        let i = choose|i: int|
            0 <= i < entries.len() && (#[trigger] entries[i]).module == m && entries[i].name == n;
        assert(after[i] == entries[i]);
    }
}

/// Host functions cannot be registered twice under one module name.
pub proof fn second_registrations_fail(
    entries: Seq<Definition>,
    module: Seq<char>,
    funcs: Seq<HostFunction>,
)
    requires
        funcs.len() > 0,
        registered(entries, module, funcs).1,
    ensures
        !registered(registered(entries, module, funcs).0, module, funcs).1,
        registered(registered(entries, module, funcs).0, module, funcs).0 == registered(
            entries,
            module,
            funcs,
        ).0,
{
    let after = registered(entries, module, funcs).0;
    registered_functions_are_defined(entries, module, funcs);
    assert(is_defined(after, module, funcs[0].spec_name()));
    assert(funcs.take(1).drop_last() =~= Seq::empty());
    assert(funcs.take(1).last() == funcs[0]);
    reveal_with_fuel(registered, 2);
    lemma_registration_ends(after, module, funcs, 1);
}

/// The name of the module that host functions are registered under.
pub const WASI_MODULE: &'static str = "wasi_snapshot_preview1";

/// The functions of the standard registration, in order.
pub open spec fn standard_functions() -> Seq<HostFunction> {
    io::io_functions() + memory::memory_functions() + time::time_functions()
        + process::process_functions()
}

/// Registering one list after another is registering both.
proof fn lemma_registered_concat(
    entries: Seq<Definition>,
    module: Seq<char>,
    a: Seq<HostFunction>,
    b: Seq<HostFunction>,
)
    ensures
        registered(entries, module, a).1 ==> registered(entries, module, a + b) == registered(
            registered(entries, module, a).0,
            module,
            b,
        ),
        !registered(entries, module, a).1 ==> registered(entries, module, a + b) == registered(
            entries,
            module,
            a,
        ),
    decreases b.len(),
{
    if b.len() == 0 {
        assert(a + b =~= a);
    } else {
        assert((a + b).drop_last() =~= a + b.drop_last());
        assert((a + b).last() == b.last());
        lemma_registered_concat(entries, module, a, b.drop_last());
    }
}

/// Registers all standard host functions: input and output, memory, time and process.
pub fn register_host_functions(linker: &mut Linker) -> (r: Result<(), Error>)
    ensures
        (final(linker)@, r is Ok) == registered(
            old(linker)@,
            WASI_MODULE@,
            standard_functions(),
        ),
        r matches Err(e) ==> is_refusal(
            e,
            WASI_MODULE@,
            standard_functions(),
            final(linker)@.len() - old(linker)@.len(),
        ),
{
    let ghost entries = linker@;
    let ghost m = WASI_MODULE@;
    let ghost (a, b) = (io::io_functions(), memory::memory_functions());
    let ghost (c, d) = (time::time_functions(), process::process_functions());
    proof {
        lemma_registered_concat(entries, m, a, b);
        lemma_registered_concat(entries, m, a + b, c);
        lemma_registered_concat(entries, m, a + b + c, d);
        lemma_registration_counts(entries, m, a);
        lemma_registration_counts(entries, m, a + b);
        lemma_registration_counts(entries, m, a + b + c);
    }
    match io::register(linker) {
        Ok(()) => {},
        Err(e) => return Err(e),
    }
    match memory::register(linker) {
        Ok(()) => {},
        Err(e) => return Err(e),
    }
    match time::register(linker) {
        Ok(()) => {},
        Err(e) => return Err(e),
    }
    process::register(linker)
}

/// The functions of the registration for tests.
pub open spec fn test_functions() -> Seq<HostFunction> {
    seq![HostFunction::Print, HostFunction::PrintStr]
}

/// Registers the functions for tests, under the module name `k23`.
pub fn register_test_functions(linker: &mut Linker) -> (r: Result<(), Error>)
    ensures
        (final(linker)@, r is Ok) == registered(old(linker)@, "k23"@, test_functions()),
        r matches Err(e) ==> is_refusal(
            e,
            "k23"@,
            test_functions(),
            final(linker)@.len() - old(linker)@.len(),
        ),
{
    let funcs: Vec<HostFunction> = vec![HostFunction::Print, HostFunction::PrintStr];
    assert(funcs@ =~= test_functions());
    linker.register_all("k23", &funcs)
}

} // verus!
