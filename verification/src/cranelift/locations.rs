//! Where code finds the memories, tables and globals of a module.
use crate::builder::Code;
use crate::cranelift::calls::{at_address, context_known, declares};
use crate::cranelift::env::{value_type_of, TranslationEnvironment};
use crate::cranelift::meaning::{Machine, Moment};
use crate::cranelift::table::CraneliftGlobal;
use crate::indices::{GlobalIndex, MemoryIndex, TableIndex};
use crate::ir::Type;
use vstd::prelude::*;

verus! {

/// Whether a machine can run the code of an environment.
pub open spec fn runs_on(m: Machine, env: TranslationEnvironment, before: Code, after: Code) -> bool {
    &&& env.wf()
    &&& m.pointer == env.isa.pointer_type.width()
    &&& context_known(env, m)
    &&& env.vmctx matches Some(gv) ==> gv.0 < before.gvs.len()
    &&& declares(after, m)
    &&& before.gvs.len() + 3 < usize::MAX
}

/// A pointer in memory.
pub open spec fn pointer_at(m: Machine, s: Moment, address: int) -> int {
    at_address(m, s, address, m.pointer / 8)
}

/// The base of a memory that the module defines is kept in the context, at the definition of the
/// memory. That of an imported memory is kept in the definition that the entry of the import in the
/// context points to. Indices have 64 bits if and only if the memory says so.
#[verifier::spinoff_prover]
#[verifier::rlimit(60)]
pub proof fn memories_are_found(
    index: MemoryIndex,
    m: Machine,
    code: Code,
    env: TranslationEnvironment,
    s: Moment,
)
    requires
        runs_on(m, env, code, env.memory_made(code, index).0),
        index.0 < env.module.memories@.len(),
    ensures
        ({
            let memory = env.memory_made(code, index).2;
            let plan = env.module.memories@[index.0 as int];
            let imports = env.module.num_imported_memories;
            let base = m.global(s.memory, memory.base_gv);
            &&& index.0 >= imports ==> base == pointer_at(
                m,
                s,
                m.vmctx + env.offsets.memories + 16 * (index.0 - imports),
            )
            &&& index.0 < imports ==> base == pointer_at(
                m,
                s,
                pointer_at(m, s, m.vmctx + env.offsets.imported_memories + 16 * index.0),
            )
            &&& memory.index_type == if plan.memory64 {
                Type::I64
            } else {
                Type::I32
            }
            &&& memory.offset_guard_size == plan.offset_guard_size
            &&& !plan.memory64 ==> memory.bound == 0x1_0000_0000
        }),
{
    reveal(TranslationEnvironment::memory_made);
    let (after, env1, memory) = env.memory_made(code, index);
    let (c1, env2, vmctx) = env.vmctx_made(code);
    let k = code.gvs.len() as int;
    if env.vmctx is None {
        assert(after.gvs[k].data is VMContext);
    }
    assert(m.gvs[vmctx.0 as int].data is VMContext);
    assert(m.global(s.memory, vmctx) == m.vmctx);
    let last = after.gvs.len() - 1;
    assert(memory.base_gv.0 == last);
    assert(m.gvs[last].data == after.gvs[last].data);
    if index.0 < env.module.num_imported_memories {
        assert(m.gvs[last - 1].data == after.gvs[last - 1].data);
        reveal_with_fuel(Machine::global, 4);
    } else {
        reveal_with_fuel(Machine::global, 3);
    }
}

/// The base of a table that the module defines is kept in the context, at the definition of the
/// table. That of an imported table is kept in the definition that the entry of the import in the
/// context points to. The table has as many elements as it begins with, and references to functions
/// are pointers.
#[verifier::spinoff_prover]
#[verifier::rlimit(60)]
pub proof fn tables_are_found(
    index: TableIndex,
    m: Machine,
    code: Code,
    env: TranslationEnvironment,
    s: Moment,
)
    requires
        runs_on(m, env, code, env.table_made(code, index).0),
        index.0 < env.module.tables@.len(),
    ensures
        ({
            let table = env.table_made(code, index).2;
            let plan = env.module.tables@[index.0 as int];
            let imports = env.module.num_imported_tables;
            let base = m.global(s.memory, table.base_gv);
            &&& index.0 >= imports ==> base == pointer_at(
                m,
                s,
                m.vmctx + env.offsets.tables + 16 * (index.0 - imports),
            )
            &&& index.0 < imports ==> base == pointer_at(
                m,
                s,
                pointer_at(m, s, m.vmctx + env.offsets.imported_tables + 16 * index.0),
            )
            &&& table.bound == plan.minimum
            &&& plan.element_type.heap_type.ty is Func ==> table.element_size == m.pointer / 8
        }),
{
    reveal(TranslationEnvironment::table_made);
    let (after, env1, table) = env.table_made(code, index);
    let (c1, env2, vmctx) = env.vmctx_made(code);
    let k = code.gvs.len() as int;
    if env.vmctx is None {
        assert(after.gvs[k].data is VMContext);
    }
    assert(m.gvs[vmctx.0 as int].data is VMContext);
    assert(m.global(s.memory, vmctx) == m.vmctx);
    let last = after.gvs.len() - 1;
    assert(table.base_gv.0 == last);
    assert(m.gvs[last].data == after.gvs[last].data);
    if index.0 < env.module.num_imported_tables {
        assert(m.gvs[last - 1].data == after.gvs[last - 1].data);
        reveal_with_fuel(Machine::global, 4);
    } else {
        reveal_with_fuel(Machine::global, 3);
    }
}

/// A global that the module defines lies in the context, at its definition. An imported global lies
/// where the entry of the import in the context points to. Its type is that which the module gives.
#[verifier::spinoff_prover]
#[verifier::rlimit(60)]
pub proof fn globals_are_found(
    index: GlobalIndex,
    m: Machine,
    code: Code,
    env: TranslationEnvironment,
    s: Moment,
)
    requires
        runs_on(m, env, code, env.global_made(code, index).0),
        index.0 < env.module.globals@.len(),
    ensures
        ({
            let imports = env.module.num_imported_globals;
            env.global_made(code, index).2 matches CraneliftGlobal::Memory { gv, offset, ty } && {
                let address = m.global(s.memory, gv) + offset;
                &&& index.0 >= imports ==> address == m.vmctx + env.offsets.globals + 16 * (
                index.0 - imports)
                &&& index.0 < imports ==> address == pointer_at(
                    m,
                    s,
                    m.vmctx + env.offsets.imported_globals + 16 * index.0,
                )
                &&& ty == value_type_of(
                    env.module.globals@[index.0 as int].content_type,
                    env.isa.pointer_type,
                )
            }
        }),
{
    reveal(TranslationEnvironment::global_made);
    let (after, env1, global) = env.global_made(code, index);
    let (c1, env2, vmctx) = env.vmctx_made(code);
    let k = code.gvs.len() as int;
    if env.vmctx is None {
        assert(after.gvs[k].data is VMContext);
    }
    assert(m.gvs[vmctx.0 as int].data is VMContext);
    assert(m.global(s.memory, vmctx) == m.vmctx);
    if index.0 < env.module.num_imported_globals {
        let last = after.gvs.len() - 1;
        assert(m.gvs[last].data == after.gvs[last].data);
        reveal_with_fuel(Machine::global, 3);
    }
}

} // verus!
