//! The registry that tells which code a program counter lies in.
use crate::ordered_map::OrderedMap;
use vstd::prelude::*;

verus! {

/// Where the text of a code object lies, and the number of the object.
#[derive(Debug, Clone, Copy, PartialEq, Eq, Structural)]
pub struct CodeObject {
    pub start: usize,
    pub len: usize,
    pub id: usize,
}

impl CodeObject {
    /// The text lies in the address space.
    pub open spec fn wf(self) -> bool {
        self.start + self.len <= usize::MAX
    }

    /// The last address of the text.
    pub open spec fn last(self) -> usize {
        (self.start + self.len - 1) as usize
    }

    /// Whether an address lies in the text.
    pub open spec fn contains(self, pc: usize) -> bool {
        self.start <= pc < self.start + self.len
    }
}

/// Regions of code by their last address, each with its first address and its number.
pub struct CodeRegistry {
    regions: OrderedMap<(usize, usize)>,
}

impl View for CodeRegistry {
    type V = Map<usize, (usize, usize)>;

    closed spec fn view(&self) -> Map<usize, (usize, usize)> {
        self.regions@
    }
}

/// Whether no two regions share an address.
pub open spec fn disjoint(regions: Map<usize, (usize, usize)>) -> bool {
    forall|a: usize, b: usize|
        #![trigger regions.dom().contains(a), regions.dom().contains(b)]
        regions.dom().contains(a) && regions.dom().contains(b) && a < b ==> a < regions[b].0
}

/// What a lookup finds: the region with the least last address that is not below the address, if
/// the address is not below its first address.
pub open spec fn looked_up(
    regions: Map<usize, (usize, usize)>,
    pc: usize,
    r: Option<(usize, usize)>,
) -> bool {
    match r {
        Some((id, offset)) => exists|last: usize|
            {
                &&& #[trigger] crate::ordered_map::least_above(regions, pc, last)
                &&& regions[last].0 <= pc
                &&& regions[last].1 == id
                &&& offset == pc - regions[last].0
            },
        None => crate::ordered_map::none_above(regions, pc) || exists|last: usize|
            #[trigger] crate::ordered_map::least_above(regions, pc, last) && pc
                < regions[last].0,
    }
}

impl CodeRegistry {
    /// The order of the regions is kept.
    pub closed spec fn wf(self) -> bool {
        self.regions.wf()
    }

    /// A registry without regions.
    pub fn new() -> (r: Self)
        ensures
            r.wf(),
            r@ == Map::<usize, (usize, usize)>::empty(),
    {
        CodeRegistry { regions: OrderedMap::new() }
    }
}

/// The region of code that holds an address, and the offset of the address in it.
pub fn lookup_code(registry: &CodeRegistry, pc: usize) -> (r: Option<(usize, usize)>)
    requires
        registry.wf(),
    ensures
        looked_up(registry@, pc, r),
{
    match registry.regions.first_from(pc) {
        Some((_last, (start, id))) => {
            assert(crate::ordered_map::least_above(registry@, pc, _last));
            match pc.checked_sub(start) {
                Some(text_offset) => Some((id, text_offset)),
                None => None,
            }
        },
        None => None,
    }
}

/// The regions after a code object was registered; code without text is left out.
pub open spec fn registered(
    regions: Map<usize, (usize, usize)>,
    code: CodeObject,
) -> Map<usize, (usize, usize)> {
    if code.len == 0 {
        regions
    } else {
        regions.insert(code.last(), (code.start, code.id))
    }
}

/// Registers a code object, which must not be registered yet.
pub fn register_code(registry: &mut CodeRegistry, code: &CodeObject)
    requires
        old(registry).wf(),
        code.wf(),
        code.len > 0 ==> !old(registry)@.dom().contains(code.last()),
    ensures
        final(registry).wf(),
        final(registry)@ == registered(old(registry)@, *code),
{
    if code.len == 0 {
        return;
    }
    let end: usize = code.start + (code.len - 1);
    registry.regions.insert(end, (code.start, code.id));
}

/// The regions after a code object was unregistered.
pub open spec fn unregistered(
    regions: Map<usize, (usize, usize)>,
    code: CodeObject,
) -> Map<usize, (usize, usize)> {
    if code.len == 0 {
        regions
    } else {
        regions.remove(code.last())
    }
}

/// Unregisters a code object, which must be registered.
pub fn unregister_code(registry: &mut CodeRegistry, code: &CodeObject)
    requires
        old(registry).wf(),
        code.wf(),
        code.len > 0 ==> old(registry)@.dom().contains(code.last()),
    ensures
        final(registry).wf(),
        final(registry)@ == unregistered(old(registry)@, *code),
{
    if code.len == 0 {
        return;
    }
    let end: usize = code.start + (code.len - 1);
    registry.regions.remove(end);
}

/// An address of a registered code object is found, with its offset in the object.
pub proof fn registered_code_is_found(
    regions: Map<usize, (usize, usize)>,
    code: CodeObject,
    pc: usize,
    r: Option<(usize, usize)>,
)
    requires
        code.wf(),
        code.contains(pc),
        disjoint(registered(regions, code)),
        looked_up(registered(regions, code), pc, r),
    ensures
        r == Some((code.id, (pc - code.start) as usize)),
{
    let after = registered(regions, code);
    assert(after.dom().contains(code.last()));
    assert forall|last: usize| #[trigger]
        crate::ordered_map::least_above(after, pc, last) implies last == code.last() by {
        assert(after.dom().contains(last));
        if last < code.last() {
            assert(last < after[code.last()].0);
        }
    }
}

/// An address that lies in no region is not found.
pub proof fn unknown_addresses_are_not_found(
    regions: Map<usize, (usize, usize)>,
    pc: usize,
    r: Option<(usize, usize)>,
)
    requires
        forall|last: usize| #[trigger]
            regions.dom().contains(last) ==> !(regions[last].0 <= pc <= last),
        looked_up(regions, pc, r),
    ensures
        r is None,
{
    if r is Some {
        let last = choose|last: usize|
            {
                &&& #[trigger] crate::ordered_map::least_above(regions, pc, last)
                &&& regions[last].0 <= pc
                &&& regions[last].1 == (r->0).0
                &&& (r->0).1 == pc - regions[last].0
            };
        assert(regions.dom().contains(last));
    }
}

/// Unregistering undoes registering.
pub proof fn unregistering_undoes_registering(
    regions: Map<usize, (usize, usize)>,
    code: CodeObject,
)
    requires
        code.len > 0 ==> !regions.dom().contains(code.last()),
    ensures
        unregistered(registered(regions, code), code) == regions,
{
    assert(unregistered(registered(regions, code), code) =~= regions);
}

} // verus!
