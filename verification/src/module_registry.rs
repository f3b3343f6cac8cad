//! The modules that a store has loaded, by the addresses of their code.
use crate::code_registry::CodeObject;
use crate::ordered_map::OrderedMap;
use vstd::prelude::*;

verus! {

/// What the registry knows of a module.
#[derive(Debug, Clone, Copy, PartialEq, Eq, Structural)]
pub struct RegisteredModule {
    /// The number of the module.
    pub id: usize,
    pub code: CodeObject,
    /// The address of the first function that the module defines, if there is one.
    pub first_function: Option<usize>,
}

/// An identifier of a registered module.
#[derive(Debug, Clone, Copy, PartialEq, Eq, Structural)]
pub enum RegisteredModuleId {
    /// The position among the modules without code.
    WithoutCode(usize),
    /// The first address of the module's code.
    LoadedCode(usize),
}

/// The modules in a region of code, by the address of their first function.
struct LoadedCode {
    modules: OrderedMap<RegisteredModule>,
}

impl LoadedCode {
    /// Adds a module, unless it defines no function or is there already.
    fn push_module(&mut self, module: &RegisteredModule)
        requires
            old(self).modules.wf(),
        ensures
            final(self).modules.wf(),
            final(self).modules@ == with_module(old(self).modules@, *module),
    {
        if let Some(start) = module.first_function {
            if self.modules.get(start).is_none() {
                self.modules.insert(start, *module);
            }
        }
    }
}

/// The modules of a region after one more was added.
pub open spec fn with_module(
    modules: Map<usize, RegisteredModule>,
    module: RegisteredModule,
) -> Map<usize, RegisteredModule> {
    match module.first_function {
        Some(start) if !modules.dom().contains(start) => modules.insert(start, module),
        _ => modules,
    }
}

/// A region of code: its first address, and its modules.
#[verifier::ext_equal]
pub struct Region {
    pub start: usize,
    pub modules: Map<usize, RegisteredModule>,
}

/// What a registry holds: regions by their last address, and modules without code.
#[verifier::ext_equal]
pub struct RegistryModel {
    pub regions: Map<usize, Region>,
    pub without_code: Seq<RegisteredModule>,
}

/// The modules of a store.
pub struct ModuleRegistry {
    /// The first address and the position of the region, by last address.
    loaded_code: OrderedMap<(usize, usize)>,
    regions: Vec<LoadedCode>,
    modules_without_code: Vec<RegisteredModule>,
}

impl View for ModuleRegistry {
    type V = RegistryModel;

    closed spec fn view(&self) -> RegistryModel {
        RegistryModel {
            regions: self.loaded_code@.map_values(
                |e: (usize, usize)| Region {
                    start: e.0,
                    modules: self.regions@[e.1 as int].modules@,
                },
            ),
            without_code: self.modules_without_code@,
        }
    }
}

impl RegistryModel {
    /// Every region begins before it ends, and behind all regions before it.
    pub open spec fn wf(self) -> bool {
        &&& forall|last: usize| #[trigger]
            self.regions.dom().contains(last) ==> self.regions[last].start <= last
        &&& forall|a: usize, b: usize|
            #![trigger self.regions.dom().contains(a), self.regions.dom().contains(b)]
            self.regions.dom().contains(a) && self.regions.dom().contains(b) && a < b ==> a
                < self.regions[b].start
    }

    /// Whether code can be loaded: it lies apart from all regions, or it is a region.
    pub open spec fn accepts(self, code: CodeObject) -> bool {
        &&& code.wf()
        &&& code.len > 0 ==> if self.regions.dom().contains(code.last()) {
            self.regions[code.last()].start == code.start
        } else {
            forall|last: usize| #[trigger]
                self.regions.dom().contains(last) ==> last < code.start
                    || self.regions[last].start > code.last()
        }
    }

    /// The registry after a module was registered.
    pub open spec fn registered(self, module: RegisteredModule) -> RegistryModel {
        let last = module.code.last();
        if module.code.len == 0 {
            RegistryModel { without_code: self.without_code.push(module), ..self }
        } else {
            let modules = if self.regions.dom().contains(last) {
                self.regions[last].modules
            } else {
                Map::empty()
            };
            RegistryModel {
                regions: self.regions.insert(
                    last,
                    Region { start: module.code.start, modules: with_module(modules, module) },
                ),
                ..self
            }
        }
    }

    /// The identifier that a module gets.
    pub open spec fn id_of(self, module: RegisteredModule) -> RegisteredModuleId {
        if module.code.len == 0 {
            RegisteredModuleId::WithoutCode(self.without_code.len() as usize)
        } else {
            RegisteredModuleId::LoadedCode(module.code.start)
        }
    }

    /// Whether a region holds an address.
    pub open spec fn holds(self, last: usize, pc: usize) -> bool {
        &&& self.regions.dom().contains(last)
        &&& self.regions[last].start <= pc <= last
    }

    /// What is found at an address: the module of the region that begins last before the address,
    /// and the offset in the region.
    pub open spec fn found(self, pc: usize, r: Option<(RegisteredModule, usize)>) -> bool {
        match r {
            Some((module, offset)) => exists|last: usize, first: usize|
                {
                    &&& #[trigger] self.holds(last, pc)
                    &&& #[trigger] crate::ordered_map::greatest_below(
                        self.regions[last].modules,
                        pc,
                        first,
                    )
                    &&& self.regions[last].modules[first] == module
                    &&& offset == pc - self.regions[last].start
                },
            None => forall|last: usize| #[trigger]
                self.holds(last, pc) ==> crate::ordered_map::none_below(
                    self.regions[last].modules,
                    pc,
                ),
        }
    }

    /// What an identifier leads to.
    pub open spec fn found_by_id(self, id: RegisteredModuleId, r: Option<RegisteredModule>) -> bool {
        match id {
            RegisteredModuleId::WithoutCode(i) => r == (if i < self.without_code.len() {
                Some(self.without_code[i as int])
            } else {
                None
            }),
            RegisteredModuleId::LoadedCode(pc) => match r {
                Some(module) => exists|offset: usize| #[trigger]
                    self.found(pc, Some((module, offset))),
                None => self.found(pc, None),
            },
        }
    }
}

impl ModuleRegistry {
    /// The order of the regions is kept, each has its own modules, and no two share an address.
    pub closed spec fn wf(self) -> bool {
        &&& self.loaded_code.wf()
        &&& self@.wf()
        &&& forall|i: int| 0 <= i < self.regions@.len() ==> (#[trigger] self.regions@[i]).modules.wf()
        &&& forall|last: usize| #[trigger]
            self.loaded_code@.dom().contains(last) ==> self.loaded_code@[last].1
                < self.regions@.len()
        &&& forall|a: usize, b: usize|
            #![trigger self.loaded_code@.dom().contains(a), self.loaded_code@.dom().contains(b)]
            self.loaded_code@.dom().contains(a) && self.loaded_code@.dom().contains(b) && a != b
                ==> self.loaded_code@[a].1 != self.loaded_code@[b].1
    }

    /// A registry without modules.
    pub fn new() -> (r: Self)
        ensures
            r.wf(),
            r@.regions == Map::<usize, Region>::empty(),
            r@.without_code == Seq::<RegisteredModule>::empty(),
    {
        let r = ModuleRegistry {
            loaded_code: OrderedMap::new(),
            regions: Vec::new(),
            modules_without_code: Vec::new(),
        };
        assert(r@.regions =~= Map::<usize, Region>::empty());
        r
    }

    /// Registers a module; modules without functions are kept for their data.
    pub fn register_module(&mut self, module: &RegisteredModule) -> (r: RegisteredModuleId)
        requires
            old(self).wf(),
            old(self)@.accepts(module.code),
        ensures
            final(self).wf(),
            final(self)@ == old(self)@.registered(*module),
            r == old(self)@.id_of(*module),
    {
        let ghost before = self@;
        if module.code.len == 0 {
            let id = RegisteredModuleId::WithoutCode(self.modules_without_code.len());
            self.modules_without_code.push(*module);
            assert(self@ =~= before.registered(*module));
            return id;
        }
        let start_addr: usize = module.code.start;
        let end_addr: usize = start_addr + (module.code.len - 1);
        let id = RegisteredModuleId::LoadedCode(start_addr);
        match self.loaded_code.get(end_addr) {
            Some((_start, at)) => {
                let ghost regions = self.regions@;
                assert(before.regions.dom().contains(end_addr));
                let mut item = LoadedCode { modules: OrderedMap::new() };
                std::mem::swap(&mut item, &mut self.regions[at]);
                item.push_module(module);
                self.regions.set(at, item);
                proof {
                    assert(self.regions@ =~= regions.update(at as int, item));
                    assert forall|last: usize| #[trigger]
                        self.loaded_code@.dom().contains(last) implies self@.regions[last]
                        == before.registered(*module).regions[last] by {
                        if last != end_addr {
                            assert(self.loaded_code@[last].1 != at);
                        }
                    }
                    assert(self@.regions =~= before.registered(*module).regions);
                }
                id
            },
            None => {
                let mut item = LoadedCode { modules: OrderedMap::new() };
                item.push_module(module);
                let at: usize = self.regions.len();
                let ghost regions = self.regions@;
                self.regions.push(item);
                self.loaded_code.insert(end_addr, (start_addr, at));
                proof {
                    assert(!before.regions.dom().contains(end_addr));
                    assert(self@.regions =~= before.registered(*module).regions);
                    assert forall|a: usize, b: usize|
                        #![trigger self@.regions.dom().contains(a), self@.regions.dom().contains(b)]
                        self@.regions.dom().contains(a) && self@.regions.dom().contains(b) && a
                            < b implies a < self@.regions[b].start by {
                        if a != end_addr {
                            assert(before.regions.dom().contains(a));
                        }
                        if b != end_addr {
                            assert(before.regions.dom().contains(b));
                        }
                    }
                }
                id
            },
        }
    }

    /// The module that an identifier was given out for.
    pub fn lookup_module_by_id(&self, id: RegisteredModuleId) -> (r: Option<RegisteredModule>)
        requires
            self.wf(),
        ensures
            self@.found_by_id(id, r),
    {
        match id {
            RegisteredModuleId::WithoutCode(idx) => {
                if idx < self.modules_without_code.len() {
                    Some(self.modules_without_code[idx])
                } else {
                    None
                }
            },
            RegisteredModuleId::LoadedCode(pc) => match self.module_and_offset(pc) {
                Some((module, _offset)) => {
                    assert(self@.found(pc, Some((module, _offset))));
                    Some(module)
                },
                None => None,
            },
        }
    }

    /// The module at an address, and the offset of the address in the module's code.
    pub fn module_and_offset(&self, pc: usize) -> (r: Option<(RegisteredModule, usize)>)
        requires
            self.wf(),
        ensures
            self@.found(pc, r),
    {
        match self.code(pc) {
            Some((last, start, at)) => {
                proof {
                    assert(self@.holds(last, pc));
                    assert forall|other: usize| #[trigger] self@.holds(other, pc) implies other
                        == last by {
                        assert(self@.regions.dom().contains(other));
                        assert(self@.regions.dom().contains(last));
                    }
                }
                match self.regions[at].modules.last_to(pc) {
                    Some((_first, module)) => {
                        assert(crate::ordered_map::greatest_below(
                            self@.regions[last].modules,
                            pc,
                            _first,
                        ));
                        Some((module, pc - start))
                    },
                    None => None,
                }
            },
            None => None,
        }
    }

    /// The region that holds an address: its last and first address, and its position.
    fn code(&self, pc: usize) -> (r: Option<(usize, usize, usize)>)
        requires
            self.wf(),
        ensures
            r matches Some((last, start, at)) ==> {
                &&& self@.holds(last, pc)
                &&& start == self@.regions[last].start
                &&& at < self.regions@.len()
                &&& self.regions@[at as int].modules@ == self@.regions[last].modules
            },
            r is None ==> forall|last: usize| !(#[trigger] self@.holds(last, pc)),
    {
        match self.loaded_code.first_from(pc) {
            Some((last, (start, at))) => {
                assert(self@.regions.dom().contains(last));
                if pc < start || last < pc {
                    proof {
                        assert forall|other: usize| !(#[trigger] self@.holds(other, pc)) by {
                            if self@.holds(other, pc) {
                                assert(self@.regions.dom().contains(other));
                                assert(self.loaded_code@.dom().contains(other));
                                assert(last <= other);
                            }
                        }
                    }
                    return None;
                }
                Some((last, start, at))
            },
            None => {
                proof {
                    assert forall|other: usize| !(#[trigger] self@.holds(other, pc)) by {
                        if self@.holds(other, pc) {
                            assert(self.loaded_code@.dom().contains(other));
                        }
                    }
                }
                None
            },
        }
    }
}

/// A registered module is found again by its identifier, if its first function lies at the start
/// of its code and no other module claimed that address before.
pub proof fn registered_modules_are_found(
    registry: RegistryModel,
    module: RegisteredModule,
    r: Option<RegisteredModule>,
)
    requires
        registry.wf(),
        registry.accepts(module.code),
        registry.without_code.len() < usize::MAX,
        module.code.len > 0 ==> module.first_function == Some(module.code.start),
        registry.regions.dom().contains(module.code.last()) && module.code.len > 0
            ==> !registry.regions[module.code.last()].modules.dom().contains(module.code.start),
        registry.registered(module).found_by_id(registry.id_of(module), r),
    ensures
        r == Some(module),
{
    let after = registry.registered(module);
    if module.code.len > 0 {
        let pc = module.code.start;
        let last = module.code.last();
        let modules = after.regions[last].modules;
        assert(modules.dom().contains(pc));
        assert(modules[pc] == module);
        assert(after.holds(last, pc));
        assert forall|other: usize| #[trigger] after.holds(other, pc) implies other == last by {
            if other != last {
                assert(registry.regions.dom().contains(other));
                if registry.regions.dom().contains(last) {
                    assert(registry.regions[last].start == pc);
                }
            }
        }
        match r {
            Some(found) => {
                let offset = choose|offset: usize| #[trigger]
                    after.found(pc, Some((found, offset)));
                let (l, first) = choose|l: usize, first: usize|
                    {
                        &&& #[trigger] after.holds(l, pc)
                        &&& #[trigger] crate::ordered_map::greatest_below(
                            after.regions[l].modules,
                            pc,
                            first,
                        )
                        &&& after.regions[l].modules[first] == found
                        &&& offset == pc - after.regions[l].start
                    };
                assert(l == last);
                assert(first == pc);
            },
            None => {
                assert(crate::ordered_map::none_below(modules, pc));
            },
        }
    }
}

} // verus!
