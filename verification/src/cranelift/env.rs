//! The environment that operators are translated in.
use crate::builder::{Code, FunctionBuilder};
use crate::cranelift::memory::CraneliftMemory;
use crate::cranelift::table::{CraneliftGlobal, CraneliftTable};
use crate::indices::{FuncIndex, GlobalIndex, MemoryIndex, TableIndex, TypeIndex};
use crate::ir::{
    AbiParam, ArgumentPurpose, ExtFuncData, Fact, FuncRef, GlobalValue, GlobalValueData, MemFlags,
    MemoryType, MemoryTypeField, MemoryTypeModel, SigRef, Signature, SignatureModel, Type, Value,
};
use crate::translate::{ModuleTypes, TranslatedModule};
use crate::types::{
    FuncTypeModel, WasmFuncType, WasmHeapTopType, WasmHeapType, WasmValType,
};
use crate::vmoffsets::VMOffsets;
use vstd::prelude::*;

verus! {

/// The namespace of the names of WebAssembly functions.
pub const NS_WASM_FUNC: u32 = 0;

/// The namespace of the names of builtin functions.
pub const NS_BUILTIN: u32 = 1;

/// What translation needs to know of the target machine.
#[derive(Debug, Clone, Copy, PartialEq, Eq, Structural)]
pub struct TargetIsa {
    /// The integer type of native pointers.
    pub pointer_type: Type,
    /// The binary logarithm of the page size.
    pub page_size_align_log2: u8,
    /// Whether code carries facts that prove its accesses.
    pub enable_pcc: bool,
    pub is_x86: bool,
    pub has_native_fma: bool,
    pub has_x86_pshufb: bool,
    pub has_x86_pmulhrsw: bool,
    pub has_x86_pmaddubsw: bool,
    pub has_x86_blendv_i8x16: bool,
    pub has_x86_blendv_i16x8: bool,
    pub has_x86_blendv_i32x4: bool,
    pub has_x86_blendv_i64x2: bool,
}

impl TargetIsa {
    /// Pointers are integers of 32 or 64 bits.
    pub open spec fn wf(self) -> bool {
        self.pointer_type is I32 || self.pointer_type is I64
    }

    /// Whether vectors of a type can be blended with one instruction.
    pub open spec fn spec_has_x86_blendv_lowering(self, ty: Type) -> bool {
        match ty {
            Type::I8X16 => self.has_x86_blendv_i8x16,
            Type::I16X8 => self.has_x86_blendv_i16x8,
            Type::I32X4 => self.has_x86_blendv_i32x4,
            Type::I64X2 => self.has_x86_blendv_i64x2,
            _ => false,
        }
    }

    /// Whether vectors of a type can be blended with one instruction.
    pub fn has_x86_blendv_lowering(&self, ty: Type) -> (r: bool)
        ensures
            r == self.spec_has_x86_blendv_lowering(ty),
    {
        match ty {
            Type::I8X16 => self.has_x86_blendv_i8x16,
            Type::I16X8 => self.has_x86_blendv_i16x8,
            Type::I32X4 => self.has_x86_blendv_i32x4,
            Type::I64X2 => self.has_x86_blendv_i64x2,
            _ => false,
        }
    }
}

/// Whether values of a heap type can be compiled.
pub open spec fn supported_heap_type(hty: WasmHeapType) -> bool {
    hty.spec_top() is Func || hty.spec_top() is Any || hty.spec_top() is Extern
}

/// Whether values of a type can be compiled.
pub open spec fn supported_val_type(ty: WasmValType) -> bool {
    ty matches WasmValType::Ref(r) ==> supported_heap_type(r.heap_type)
}

/// Whether functions of a type can be compiled.
pub open spec fn supported_func_type(ty: FuncTypeModel) -> bool {
    &&& forall|i: int| 0 <= i < ty.params.len() ==> supported_val_type(#[trigger] ty.params[i])
    &&& forall|i: int| 0 <= i < ty.results.len() ==> supported_val_type(#[trigger] ty.results[i])
}

/// The type that references of a heap type have in compiled code: pointers for functions, and
/// 32-bit handles for collected objects.
pub open spec fn reference_type_of(hty: WasmHeapType, pointer_type: Type) -> Type {
    if hty.spec_top() is Func {
        pointer_type
    } else {
        Type::I32
    }
}

/// The type that values have in compiled code.
pub open spec fn value_type_of(ty: WasmValType, pointer_type: Type) -> Type {
    match ty {
        WasmValType::I32 => Type::I32,
        WasmValType::I64 => Type::I64,
        WasmValType::F32 => Type::F32,
        WasmValType::F64 => Type::F64,
        WasmValType::V128 => Type::I8X16,
        WasmValType::Ref(r) => reference_type_of(r.heap_type, pointer_type),
    }
}

/// The types that a list of values has in compiled code.
pub open spec fn value_types_of(tys: Seq<WasmValType>, pointer_type: Type) -> Seq<Type> {
    tys.map_values(|ty: WasmValType| value_type_of(ty, pointer_type))
}

/// Parameters or return values of the given types.
pub open spec fn normal_params(tys: Seq<WasmValType>, pointer_type: Type) -> Seq<AbiParam> {
    tys.map_values(
        |ty: WasmValType|
            AbiParam { ty: value_type_of(ty, pointer_type), purpose: ArgumentPurpose::Normal },
    )
}

/// The signature of compiled functions: the context of the callee, the context of the caller, and
/// the parameters of the WebAssembly type.
pub open spec fn wasm_call_signature_of(ty: FuncTypeModel, pointer_type: Type) -> SignatureModel {
    SignatureModel {
        params: seq![
            AbiParam { ty: pointer_type, purpose: ArgumentPurpose::VMContext },
            AbiParam { ty: pointer_type, purpose: ArgumentPurpose::Normal },
        ] + normal_params(ty.params, pointer_type),
        returns: normal_params(ty.results, pointer_type),
    }
}

/// The type that values have in compiled code.
pub fn value_type(ty: &WasmValType, pointer_type: Type) -> (r: Type)
    ensures
        r == value_type_of(*ty, pointer_type),
{
    match ty {
        WasmValType::I32 => Type::I32,
        WasmValType::I64 => Type::I64,
        WasmValType::F32 => Type::F32,
        WasmValType::F64 => Type::F64,
        WasmValType::V128 => Type::I8X16,
        WasmValType::Ref(r) => match r.heap_type.top() {
            WasmHeapTopType::Func => pointer_type,
            _ => Type::I32,
        },
    }
}

/// Appends parameters of the given types.
fn push_params(out: &mut Vec<AbiParam>, tys: &Vec<WasmValType>, pointer_type: Type)
    ensures
        final(out)@ == old(out)@ + normal_params(tys@, pointer_type),
{
    for i in 0..tys.len()
        invariant
            out@ == old(out)@ + normal_params(tys@.take(i as int), pointer_type),
    {
        let param = AbiParam {
            ty: value_type(&tys[i], pointer_type),
            purpose: ArgumentPurpose::Normal,
        };
        out.push(param);
        assert(tys@.take(i + 1) =~= tys@.take(i as int).push(tys@[i as int]));
        assert(out@ =~= old(out)@ + normal_params(tys@.take(i + 1), pointer_type));
    }
    assert(tys@.take(tys@.len() as int) =~= tys@);
}

/// The signature of compiled functions of a type.
pub fn wasm_call_signature(ty: &WasmFuncType, pointer_type: Type) -> (r: Signature)
    ensures
        r@ == wasm_call_signature_of(ty@, pointer_type),
{
    let mut params: Vec<AbiParam> = Vec::new();
    params.push(AbiParam { ty: pointer_type, purpose: ArgumentPurpose::VMContext });
    params.push(AbiParam { ty: pointer_type, purpose: ArgumentPurpose::Normal });
    assert(params@ =~= seq![
        AbiParam { ty: pointer_type, purpose: ArgumentPurpose::VMContext },
        AbiParam { ty: pointer_type, purpose: ArgumentPurpose::Normal },
    ]);
    push_params(&mut params, &ty.params, pointer_type);
    let mut rets: Vec<AbiParam> = Vec::new();
    push_params(&mut rets, &ty.results, pointer_type);
    assert(rets@ =~= normal_params(ty.results@, pointer_type));
    Signature { params, returns: rets }
}

/// A field inserted behind all fields that do not lie behind it.
pub open spec fn field_inserted(
    fields: Seq<MemoryTypeField>,
    field: MemoryTypeField,
) -> Seq<MemoryTypeField>
    decreases fields.len(),
{
    if fields.len() == 0 || fields.last().offset <= field.offset {
        fields.push(field)
    } else {
        field_inserted(fields.drop_last(), field).push(fields.last())
    }
}

/// Fields in the order of their offsets; fields at one offset keep their order.
pub open spec fn fields_sorted(fields: Seq<MemoryTypeField>) -> Seq<MemoryTypeField>
    decreases fields.len(),
{
    if fields.len() == 0 {
        fields
    } else {
        field_inserted(fields_sorted(fields.drop_last()), fields.last())
    }
}

/// Inserting a field adds it and nothing else, and keeps the order.
proof fn lemma_field_inserted(fields: Seq<MemoryTypeField>, field: MemoryTypeField)
    requires
        forall|i: int, j: int|
            0 <= i <= j < fields.len() ==> fields[i].offset <= fields[j].offset,
    ensures
        ({
            let r = field_inserted(fields, field);
            &&& r.to_multiset() =~= fields.push(field).to_multiset()
            &&& forall|i: int, j: int| 0 <= i <= j < r.len() ==> r[i].offset <= r[j].offset
            &&& forall|i: int|
                0 <= i < r.len() ==> r[i].offset <= field.offset || fields.len() > 0
                    && r[i].offset <= fields.last().offset
        }),
    decreases fields.len(),
{
    broadcast use vstd::seq_lib::group_to_multiset_ensures;

    if fields.len() == 0 || fields.last().offset <= field.offset {
    } else {
        let rest = fields.drop_last();
        lemma_field_inserted(rest, field);
        let inner = field_inserted(rest, field);
        assert(fields =~= rest.push(fields.last()));
        assert(inner.push(fields.last()).to_multiset() =~= inner.to_multiset().insert(
            fields.last(),
        ));
        assert(fields.push(field).to_multiset() =~= rest.to_multiset().insert(
            fields.last(),
        ).insert(field));
        assert(rest.push(field).to_multiset() =~= rest.to_multiset().insert(field));
        assert(rest.len() > 0 ==> rest.last().offset <= fields.last().offset);
    }
}

/// Sorting fields reorders them by offset, and neither adds nor loses any.
pub proof fn sorted_fields_are_ordered(fields: Seq<MemoryTypeField>)
    ensures
        fields_sorted(fields).to_multiset() =~= fields.to_multiset(),
        forall|i: int, j: int|
            0 <= i <= j < fields.len() ==> fields_sorted(fields)[i].offset <= fields_sorted(
                fields,
            )[j].offset,
    decreases fields.len(),
{
    broadcast use vstd::seq_lib::group_to_multiset_ensures;

    if fields.len() > 0 {
        let rest = fields.drop_last();
        sorted_fields_are_ordered(rest);
        fields_sorted(rest).to_multiset_ensures();
        rest.to_multiset_ensures();
        assert(fields_sorted(rest).len() == rest.len());
        lemma_field_inserted(fields_sorted(rest), fields.last());
        assert(fields =~= rest.push(fields.last()));
        assert(fields_sorted(fields).to_multiset() =~= fields_sorted(rest).to_multiset().insert(
            fields.last(),
        ));
        fields_sorted(fields).to_multiset_ensures();
        fields.to_multiset_ensures();
        assert(fields_sorted(fields).len() == fields.len());
    }
}

/// Inserts a field behind all fields that do not lie behind it.
fn insert_field(fields: &mut Vec<MemoryTypeField>, field: MemoryTypeField)
    ensures
        final(fields)@ == field_inserted(old(fields)@, field),
    decreases old(fields)@.len(),
{
    if fields.len() == 0 || fields[fields.len() - 1].offset <= field.offset {
        fields.push(field);
    } else {
        let last = fields[fields.len() - 1];
        fields.pop();
        insert_field(fields, field);
        fields.push(last);
    }
}

/// Sorts fields by offset.
fn sort_fields(fields: &Vec<MemoryTypeField>) -> (r: Vec<MemoryTypeField>)
    ensures
        r@ == fields_sorted(fields@),
{
    let mut sorted: Vec<MemoryTypeField> = Vec::new();
    assert(fields@.take(0) =~= Seq::empty());
    for i in 0..fields.len()
        invariant
            sorted@ == fields_sorted(fields@.take(i as int)),
    {
        insert_field(&mut sorted, fields[i]);
        assert(fields@.take(i + 1).drop_last() =~= fields@.take(i as int));
        assert(fields@.take(i + 1).last() == fields@[i as int]);
    }
    assert(fields@.take(fields@.len() as int) =~= fields@);
    sorted
}

/// The larger of two sizes.
pub open spec fn larger(a: u64, b: int) -> u64 {
    if a < b {
        b as u64
    } else {
        a
    }
}

/// The environment of the functions of one module.
pub struct TranslationEnvironment<'a> {
    pub isa: TargetIsa,
    pub module: &'a TranslatedModule,
    pub types: &'a ModuleTypes,
    pub offsets: VMOffsets,
    /// The global value of the context, once one was needed.
    pub vmctx: Option<GlobalValue>,
    /// The region of the context, if code carries facts.
    pub pcc_vmctx_memtype: Option<MemoryType>,
    /// Whether relaxed vector operators behave the same on all machines.
    pub relaxed_simd_deterministic: bool,
    pub heap_access_spectre_mitigation: bool,
    pub table_access_spectre_mitigation: bool,
    pub proof_carrying_code: bool,
}

impl<'a> TranslationEnvironment<'a> {
    /// The layout is that of the module, and every offset fits in an immediate.
    pub open spec fn wf(self) -> bool {
        &&& self.isa.wf()
        &&& self.module.wf()
        &&& self.offsets.wf()
        &&& self.offsets.describes(*self.module)
        &&& self.offsets.static_.ptr_size == self.isa.pointer_type.spec_bytes()
        &&& self.offsets.size <= i32::MAX
        &&& forall|i: int|
            0 <= i < self.module.memories@.len() ==> (#[trigger] self.module.memories@[i]).wf()
    }

    /// The region of the context exists and has fields.
    pub open spec fn ready(self, code: Code) -> bool {
        &&& self.wf()
        &&& self.pcc_vmctx_memtype matches Some(mt) ==> code.is_struct(mt)
    }

    /// The environment of the functions of a module on a target.
    pub open spec fn fresh(
        isa: TargetIsa,
        module: &'a TranslatedModule,
        types: &'a ModuleTypes,
    ) -> TranslationEnvironment<'a> {
        TranslationEnvironment {
            isa,
            module,
            types,
            offsets: VMOffsets::spec_for_module(isa.pointer_type.spec_bytes(), *module),
            vmctx: None,
            pcc_vmctx_memtype: None,
            relaxed_simd_deterministic: false,
            heap_access_spectre_mitigation: true,
            table_access_spectre_mitigation: true,
            proof_carrying_code: true,
        }
    }

    /// The environment of the functions of a module on a target.
    pub fn new(isa: TargetIsa, module: &'a TranslatedModule, types: &'a ModuleTypes) -> (r: Self)
        requires
            isa.wf(),
            module.wf(),
            forall|i: int|
                0 <= i < module.memories@.len() ==> (#[trigger] module.memories@[i]).wf(),
            crate::vmoffsets::vmctx_size(isa.pointer_type.spec_bytes(), *module) <= i32::MAX,
        ensures
            r.wf(),
            r == Self::fresh(isa, module, types),
    {
        TranslationEnvironment {
            isa,
            module,
            types,
            offsets: VMOffsets::for_module(isa.pointer_type.bytes(), module),
            vmctx: None,
            pcc_vmctx_memtype: None,
            relaxed_simd_deterministic: false,
            heap_access_spectre_mitigation: true,
            table_access_spectre_mitigation: true,
            proof_carrying_code: true,
        }
    }

    /// The code that makes the global value of the context, unless there is one already.
    pub open spec fn vmctx_made(self, code: Code) -> (Code, TranslationEnvironment<'a>, GlobalValue) {
        match self.vmctx {
            Some(gv) => (code, self, gv),
            None => {
                let gv = code.next_gv();
                if self.isa.enable_pcc {
                    let memtype = code.next_memtype();
                    (
                        code.gv_created(
                            GlobalValueData::VMContext,
                            Some(Fact::base_of(memtype)),
                        ).memtype_created(
                            MemoryTypeModel::Struct { size: 0, fields: Seq::empty() },
                        ),
                        TranslationEnvironment {
                            vmctx: Some(gv),
                            pcc_vmctx_memtype: Some(memtype),
                            ..self
                        },
                        gv,
                    )
                } else {
                    (
                        code.gv_created(GlobalValueData::VMContext, None),
                        TranslationEnvironment { vmctx: Some(gv), ..self },
                        gv,
                    )
                }
            },
        }
    }

    /// The global value of the context.
    pub fn vmctx(&mut self, builder: &mut FunctionBuilder) -> (r: GlobalValue)
        requires
            old(self).ready(old(builder)@),
        ensures
            (final(builder)@, *final(self), r) == old(self).vmctx_made(old(builder)@),
            final(self).ready(final(builder)@),
            final(builder)@.declared(old(builder)@),
    {
        match self.vmctx {
            Some(gv) => gv,
            None => {
                if self.isa.enable_pcc {
                    let memtype = builder.create_struct_memtype();
                    let gv = builder.create_global_value(
                        GlobalValueData::VMContext,
                        Some(
                            Fact::Mem { ty: memtype, min_offset: 0, max_offset: 0, nullable: false },
                        ),
                    );
                    self.pcc_vmctx_memtype = Some(memtype);
                    self.vmctx = Some(gv);
                    gv
                } else {
                    let gv = builder.create_global_value(GlobalValueData::VMContext, None);
                    self.vmctx = Some(gv);
                    gv
                }
            },
        }
    }

    /// The code that yields the address of the context, and the address.
    pub open spec fn vmctx_val_made(self, code: Code) -> (Code, TranslationEnvironment<'a>, Value) {
        let (c1, env, gv) = self.vmctx_made(code);
        (c1.global_value(self.isa.pointer_type, gv), env, c1.next_value())
    }

    /// The address of the context.
    pub fn vmctx_val(&mut self, builder: &mut FunctionBuilder) -> (r: Value)
        requires
            old(self).ready(old(builder)@),
        ensures
            (final(builder)@, *final(self), r) == old(self).vmctx_val_made(old(builder)@),
            final(self).ready(final(builder)@),
            final(builder)@.extends(old(builder)@),
            r.0 == old(builder)@.values.len(),
    {
        let gv = self.vmctx(builder);
        builder.global_value(self.isa.pointer_type, gv)
    }

    /// A load of a pointer that never changes.
    pub open spec fn pointer_load(self, base: GlobalValue, offset: int) -> GlobalValueData {
        GlobalValueData::Load {
            base,
            offset: offset as i32,
            global_type: self.isa.pointer_type,
            flags: MemFlags::spec_trusted().spec_with_readonly(),
        }
    }

    /// A load of a pointer that never changes.
    fn make_pointer_load(&self, base: GlobalValue, offset: u32) -> (r: GlobalValueData)
        requires
            offset <= i32::MAX,
        ensures
            r == self.pointer_load(base, offset as int),
    {
        GlobalValueData::Load {
            base,
            offset: offset as i32,
            global_type: self.isa.pointer_type,
            flags: MemFlags::trusted().with_readonly(),
        }
    }

    /// A load of a base address, checked against its facts.
    pub open spec fn base_load(self, base: GlobalValue, offset: int) -> GlobalValueData {
        GlobalValueData::Load {
            base,
            offset: offset as i32,
            global_type: self.isa.pointer_type,
            flags: MemFlags::spec_trusted().spec_with_checked().spec_with_readonly(),
        }
    }

    /// A load of a base address, checked against its facts.
    fn make_base_load(&self, base: GlobalValue, offset: u32) -> (r: GlobalValueData)
        requires
            offset <= i32::MAX,
        ensures
            r == self.base_load(base, offset as int),
    {
        GlobalValueData::Load {
            base,
            offset: offset as i32,
            global_type: self.isa.pointer_type,
            flags: MemFlags::trusted().with_checked().with_readonly(),
        }
    }

    /// Where a global lives: a base and an offset to it.
    pub open spec fn global_location(self, code: Code, index: GlobalIndex) -> (
        Code,
        TranslationEnvironment<'a>,
        GlobalValue,
        int,
    ) {
        let (c1, env, vmctx) = self.vmctx_made(code);
        match self.module.spec_defined_global_index(index) {
            Some(def_index) => (
                c1,
                env,
                vmctx,
                self.offsets.globals + def_index.0 * crate::vmoffsets::SIZE_OF_VMDEFINITION,
            ),
            None => (
                c1.gv_created(
                    self.pointer_load(
                        vmctx,
                        self.offsets.imported_globals + index.0
                            * crate::vmoffsets::SIZE_OF_VMIMPORT
                            + crate::vmoffsets::VMIMPORT_FROM,
                    ),
                    None,
                ),
                env,
                c1.next_gv(),
                0,
            ),
        }
    }

    /// Finds where a global lives.
    fn get_global_location(&mut self, builder: &mut FunctionBuilder, index: GlobalIndex) -> (r: (
        GlobalValue,
        i32,
    ))
        requires
            old(self).ready(old(builder)@),
            index.0 < old(self).module.globals@.len(),
        ensures
            (final(builder)@, *final(self), r.0, r.1 as int) == old(self).global_location(
                old(builder)@,
                index,
            ),
            final(self).ready(final(builder)@),
            final(builder)@.declared(old(builder)@),
    {
        let vmctx = self.vmctx(builder);
        match self.module.defined_global_index(index) {
            Some(def_index) => {
                let offset: u32 = self.offsets.vmctx_vmglobal_definition(def_index);
                (vmctx, offset as i32)
            },
            None => {
                let from_offset: u32 = self.offsets.vmctx_vmglobal_import_from(index);
                let load = self.make_pointer_load(vmctx, from_offset);
                let gv = builder.create_global_value(load, None);
                (gv, 0)
            },
        }
    }

    /// A pointer field more in a region; the fields stay sorted by offset.
    pub open spec fn field_added(
        self,
        code: Code,
        memtype: MemoryType,
        offset: u32,
        pointee: MemoryType,
        readonly: bool,
    ) -> Code {
        let old = code.memtypes[memtype.0 as int];
        Code {
            memtypes: code.memtypes.update(
                memtype.0 as int,
                MemoryTypeModel::Struct {
                    size: larger(old->Struct_size, offset + self.isa.pointer_type.spec_bytes()),
                    fields: fields_sorted(
                        old->fields.push(
                            MemoryTypeField {
                                offset: offset as u64,
                                ty: self.isa.pointer_type,
                                readonly,
                                fact: Some(Fact::base_of(pointee)),
                            },
                        ),
                    ),
                },
            ),
            ..code
        }
    }

    /// Adds a pointer field to a region.
    fn add_field_to_memtype(
        &self,
        builder: &mut FunctionBuilder,
        memtype: MemoryType,
        offset: u32,
        pointee: MemoryType,
        readonly: bool,
    )
        requires
            old(builder)@.is_struct(memtype),
        ensures
            final(builder)@ == self.field_added(
                old(builder)@,
                memtype,
                offset,
                pointee,
                readonly,
            ),
            final(builder)@.is_struct(memtype),
            final(builder)@.declared(old(builder)@),
    {
        let (size, mut fields) = builder.take_struct(memtype);
        let end: u64 = offset as u64 + self.isa.pointer_type.bytes() as u64;
        fields.push(
            MemoryTypeField {
                offset: offset as u64,
                ty: self.isa.pointer_type,
                readonly,
                fact: Some(
                    Fact::Mem { ty: pointee, min_offset: 0, max_offset: 0, nullable: false },
                ),
            },
        );
        let fields = sort_fields(&fields);
        let size: u64 = if size < end {
            end
        } else {
            size
        };
        builder.set_struct(memtype, size, fields);
        assert(builder@.memtypes =~= self.field_added(
            old(builder)@,
            memtype,
            offset,
            pointee,
            readonly,
        ).memtypes);
    }

    /// A loaded pointer; with facts, a field of the region it is loaded from and a region that it
    /// points to.
    pub open spec fn pointer_loaded(
        self,
        code: Code,
        value: GlobalValue,
        offset: u32,
        readonly: bool,
        memtype: Option<MemoryType>,
    ) -> (Code, GlobalValue, Option<MemoryType>) {
        match memtype {
            Some(mt) => {
                let pointee_mt = code.next_memtype();
                let c1 = code.memtype_created(
                    MemoryTypeModel::Struct { size: 0, fields: Seq::empty() },
                );
                let c2 = self.field_added(c1, mt, offset, pointee_mt, readonly);
                (
                    c2.gv_created(
                        self.pointer_load(value, offset as int),
                        Some(Fact::base_of(pointee_mt)),
                    ),
                    code.next_gv(),
                    Some(pointee_mt),
                )
            },
            None => (
                code.gv_created(self.pointer_load(value, offset as int), None),
                code.next_gv(),
                None,
            ),
        }
    }

    /// Loads a pointer from a region.
    fn load_pointer_with_memtypes(
        &self,
        builder: &mut FunctionBuilder,
        value: GlobalValue,
        offset: u32,
        readonly: bool,
        memtype: Option<MemoryType>,
    ) -> (r: (GlobalValue, Option<MemoryType>))
        requires
            offset <= i32::MAX,
            memtype matches Some(mt) ==> old(builder)@.is_struct(mt),
        ensures
            (final(builder)@, r.0, r.1) == self.pointer_loaded(
                old(builder)@,
                value,
                offset,
                readonly,
                memtype,
            ),
            final(builder)@.declared(old(builder)@),
            r.1 matches Some(mt) ==> final(builder)@.is_struct(mt),
            memtype matches Some(mt) ==> final(builder)@.is_struct(mt) && r.1 is Some && r.1->0
                != mt,
    {
        let load = self.make_pointer_load(value, offset);
        match memtype {
            Some(mt) => {
                let pointee_mt = builder.create_struct_memtype();
                self.add_field_to_memtype(builder, mt, offset, pointee_mt, readonly);
                let gv = builder.create_global_value(
                    load,
                    Some(
                        Fact::Mem { ty: pointee_mt, min_offset: 0, max_offset: 0, nullable: false },
                    ),
                );
                (gv, Some(pointee_mt))
            },
            None => {
                let gv = builder.create_global_value(load, None);
                (gv, None)
            },
        }
    }

    /// The WebAssembly type at a position of the module's list of types.
    pub open spec fn func_type(self, ty_index: u32) -> FuncTypeModel {
        self.types.types@[self.module.types@[ty_index as int].0 as int]@
    }

    /// Whether a position of the module's list of types names a function type that can be compiled.
    pub open spec fn has_func_type(self, ty_index: u32) -> bool {
        &&& ty_index < self.module.types@.len()
        &&& self.module.types@[ty_index as int].0 < self.types.types@.len()
        &&& supported_func_type(self.func_type(ty_index))
    }

    /// The code that declares a function for direct calls.
    #[verifier::opaque]
    pub open spec fn direct_func_made(self, code: Code, index: FuncIndex) -> (Code, FuncRef) {
        let ty = self.func_type(self.module.functions@[index.0 as int].signature);
        (
            Code {
                sigs: code.sigs.push(wasm_call_signature_of(ty, self.isa.pointer_type)),
                funcs: code.funcs.push(
                    ExtFuncData {
                        namespace: NS_WASM_FUNC,
                        index: index.0,
                        signature: SigRef(code.sigs.len() as usize),
                        colocated: self.module.spec_defined_func_index(index) is Some,
                    },
                ),
                ..code
            },
            FuncRef(code.funcs.len() as usize),
        )
    }

    /// Declares a function for direct calls.
    pub fn make_direct_func(&self, builder: &mut FunctionBuilder, index: FuncIndex) -> (r: FuncRef)
        requires
            index.0 < self.module.functions@.len(),
            self.has_func_type(self.module.functions@[index.0 as int].signature),
        ensures
            (final(builder)@, r) == self.direct_func_made(old(builder)@, index),
            r.0 == old(builder)@.funcs.len(),
            final(builder)@.funcs[r.0 as int].signature.0 == old(builder)@.sigs.len(),
            final(builder)@.declared(old(builder)@),
    {
        proof {
            reveal(TranslationEnvironment::direct_func_made);
        }
        let sig_index: u32 = self.module.functions[index.index()].signature;
        let interned = self.module.types[sig_index as usize];
        let ty = &self.types.types[interned.index()];
        let signature = builder.import_signature(wasm_call_signature(ty, self.isa.pointer_type));
        builder.import_function(
            ExtFuncData {
                namespace: NS_WASM_FUNC,
                index: index.as_u32(),
                signature,
                colocated: self.module.defined_func_index(index).is_some(),
            },
        )
    }

    /// The code that declares a signature for indirect calls.
    #[verifier::opaque]
    pub open spec fn indirect_sig_made(self, code: Code, sig_index: TypeIndex) -> (Code, SigRef) {
        (
            Code {
                sigs: code.sigs.push(
                    wasm_call_signature_of(self.func_type(sig_index.0), self.isa.pointer_type),
                ),
                ..code
            },
            SigRef(code.sigs.len() as usize),
        )
    }

    /// Declares a signature for indirect calls.
    pub fn make_indirect_sig(&self, builder: &mut FunctionBuilder, sig_index: TypeIndex) -> (r:
        SigRef)
        requires
            self.has_func_type(sig_index.0),
        ensures
            (final(builder)@, r) == self.indirect_sig_made(old(builder)@, sig_index),
            r.0 == old(builder)@.sigs.len(),
            final(builder)@.declared(old(builder)@),
    {
        proof {
            reveal(TranslationEnvironment::indirect_sig_made);
        }
        let interned = self.module.types[sig_index.index()];
        let ty = &self.types.types[interned.index()];
        builder.import_signature(wasm_call_signature(ty, self.isa.pointer_type))
    }

    /// Whether a table can be compiled: it has a fixed size.
    pub open spec fn has_table(self, index: TableIndex) -> bool {
        &&& index.0 < self.module.tables@.len()
        &&& self.module.tables@[index.0 as int].maximum == Some(
            self.module.tables@[index.0 as int].minimum,
        )
        &&& self.module.tables@[index.0 as int].minimum <= i64::MAX
        &&& supported_heap_type(self.module.tables@[index.0 as int].element_type.heap_type)
    }

    /// The code that finds a table, and the table.
    #[verifier::opaque]
    pub open spec fn table_made(self, code: Code, index: TableIndex) -> (
        Code,
        TranslationEnvironment<'a>,
        CraneliftTable,
    ) {
        let (c1, env, vmctx) = self.vmctx_made(code);
        let (c2, base, base_offset) = match self.module.spec_defined_table_index(index) {
            Some(def_index) => (
                c1,
                vmctx,
                self.offsets.tables + def_index.0 * crate::vmoffsets::SIZE_OF_VMDEFINITION
                    + crate::vmoffsets::VMDEFINITION_BASE,
            ),
            None => (
                c1.gv_created(
                    self.pointer_load(
                        vmctx,
                        self.offsets.imported_tables + index.0 * crate::vmoffsets::SIZE_OF_VMIMPORT
                            + crate::vmoffsets::VMIMPORT_FROM,
                    ),
                    None,
                ),
                c1.next_gv(),
                crate::vmoffsets::VMDEFINITION_BASE as int,
            ),
        };
        let table = self.module.tables@[index.0 as int];
        (
            c2.gv_created(self.base_load(base, base_offset), None),
            env,
            CraneliftTable {
                base_gv: c2.next_gv(),
                bound: table.minimum,
                element_size: if table.element_type.heap_type.spec_is_vmgcref_type() {
                    4
                } else {
                    reference_type_of(
                        table.element_type.heap_type,
                        self.isa.pointer_type,
                    ).spec_bytes() as u32
                },
            },
        )
    }

    /// Finds a table.
    pub fn make_table(&mut self, builder: &mut FunctionBuilder, index: TableIndex) -> (r:
        CraneliftTable)
        requires
            old(self).ready(old(builder)@),
            old(self).has_table(index),
        ensures
            (final(builder)@, *final(self), r) == old(self).table_made(old(builder)@, index),
            final(self).ready(final(builder)@),
            final(builder)@.declared(old(builder)@),
    {
        proof {
            reveal(TranslationEnvironment::table_made);
        }
        let vmctx = self.vmctx(builder);
        let table = self.module.tables[index.index()];
        let (base, base_offset): (GlobalValue, u32) = match self.module.defined_table_index(index) {
            Some(def_index) => {
                let base_offset: u32 = self.offsets.vmctx_vmtable_definition_base(def_index);
                (vmctx, base_offset)
            },
            None => {
                let from_offset: u32 = self.offsets.vmctx_vmtable_import_from(index);
                let load = self.make_pointer_load(vmctx, from_offset);
                let gv = builder.create_global_value(load, None);
                (gv, crate::vmoffsets::VMDEFINITION_BASE)
            },
        };
        let load = self.make_base_load(base, base_offset);
        let base_gv = builder.create_global_value(load, None);
        let element_size: u32 = if table.element_type.heap_type.is_vmgcref_type() {
            4
        } else {
            let (ty, _) = self.reference_type(&table.element_type.heap_type);
            ty.bytes() as u32
        };
        CraneliftTable { base_gv, bound: table.minimum, element_size }
    }

    /// Whether a memory can be compiled: the module does not share a memory that it defines, and
    /// the one size that exceeds 64 bits is that of all of a 64-bit memory.
    pub open spec fn has_memory(self, index: MemoryIndex) -> bool {
        &&& index.0 < self.module.memories@.len()
        &&& self.module.memories@[index.0 as int].shared ==> index.0
            < self.module.num_imported_memories
        &&& self.module.memories@[index.0 as int].spec_minimum_bytes() > u64::MAX ==> {
            &&& self.module.memories@[index.0 as int].minimum == crate::types::WASM64_MAX_PAGES
            &&& self.module.memories@[index.0 as int].page_size_log2 == 16
        }
    }

    /// The code that finds a memory, and the memory.
    #[verifier::opaque]
    pub open spec fn memory_made(self, code: Code, index: MemoryIndex) -> (
        Code,
        TranslationEnvironment<'a>,
        CraneliftMemory,
    ) {
        let plan = self.module.memories@[index.0 as int];
        let (c1, env, vmctx) = self.vmctx_made(code);
        let (c2, base, base_offset, ptr_memtype) = match self.module.spec_defined_memory_index(
            index,
        ) {
            Some(def_index) => (
                c1,
                vmctx,
                self.offsets.memories + def_index.0 * crate::vmoffsets::SIZE_OF_VMDEFINITION
                    + crate::vmoffsets::VMDEFINITION_BASE,
                env.pcc_vmctx_memtype,
            ),
            None => {
                let (c2, gv, mt) = self.pointer_loaded(
                    c1,
                    vmctx,
                    (self.offsets.imported_memories + index.0 * crate::vmoffsets::SIZE_OF_VMIMPORT
                        + crate::vmoffsets::VMIMPORT_FROM) as u32,
                    true,
                    env.pcc_vmctx_memtype,
                );
                (c2, gv, crate::vmoffsets::VMDEFINITION_BASE as int, mt)
            },
        };
        let limit = plan.spec_max_size_based_on_index_type() as u64;
        let (c3, data_mt) = match ptr_memtype {
            Some(ptr_memtype) => {
                let c3 = c2.memtype_created(MemoryTypeModel::Memory { size: limit });
                (
                    self.base_field_added(c3, ptr_memtype, base_offset, c2.next_memtype()),
                    Some(c2.next_memtype()),
                )
            },
            None => (c2, None),
        };
        let base_fact = match data_mt {
            Some(mt) => Some(Fact::base_of(mt)),
            None => None,
        };
        (
            c3.gv_created(self.base_load(base, base_offset), base_fact),
            env,
            CraneliftMemory {
                base_gv: c3.next_gv(),
                index_type: if plan.memory64 {
                    Type::I64
                } else {
                    Type::I32
                },
                memory_type: data_mt,
                bound: limit,
                min_size: if plan.spec_minimum_bytes() <= u64::MAX {
                    plan.spec_minimum_bytes() as u64
                } else {
                    u64::MAX
                },
                max_size: if plan.spec_maximum_bytes() <= u64::MAX {
                    Some(plan.spec_maximum_bytes() as u64)
                } else {
                    None
                },
                offset_guard_size: plan.offset_guard_size,
                page_size_log2: plan.page_size_log2,
            },
        )
    }

    /// A base address more at the end of a region's fields.
    pub open spec fn base_field_added(
        self,
        code: Code,
        memtype: MemoryType,
        offset: int,
        pointee: MemoryType,
    ) -> Code {
        let old = code.memtypes[memtype.0 as int];
        Code {
            memtypes: code.memtypes.update(
                memtype.0 as int,
                MemoryTypeModel::Struct {
                    size: larger(old->Struct_size, offset + self.isa.pointer_type.spec_bytes()),
                    fields: old->fields.push(
                        MemoryTypeField {
                            offset: offset as u64,
                            ty: self.isa.pointer_type,
                            readonly: true,
                            fact: Some(Fact::base_of(pointee)),
                        },
                    ),
                },
            ),
            ..code
        }
    }

    /// Finds a memory.
    pub fn make_memory(&mut self, builder: &mut FunctionBuilder, index: MemoryIndex) -> (r:
        CraneliftMemory)
        requires
            old(self).ready(old(builder)@),
            old(self).has_memory(index),
        ensures
            (final(builder)@, *final(self), r) == old(self).memory_made(old(builder)@, index),
            final(self).ready(final(builder)@),
            final(builder)@.declared(old(builder)@),
    {
        proof {
            reveal(TranslationEnvironment::memory_made);
        }
        let vmctx = self.vmctx(builder);
        let plan = self.module.memories[index.index()];
        assert(plan.wf());
        let (base, base_offset, ptr_memtype): (GlobalValue, u32, Option<MemoryType>) =
            match self.module.defined_memory_index(index) {
            Some(def_index) => {
                let base_offset: u32 = self.offsets.vmctx_vmmemory_definition_base(def_index);
                (vmctx, base_offset, self.pcc_vmctx_memtype)
            },
            None => {
                let from_offset: u32 = self.offsets.vmctx_vmmemory_import_from(index);
                let (gv, mt) = self.load_pointer_with_memtypes(
                    builder,
                    vmctx,
                    from_offset,
                    true,
                    self.pcc_vmctx_memtype,
                );
                (gv, crate::vmoffsets::VMDEFINITION_BASE, mt)
            },
        };
        let limit: u64 = plan.max_size_based_on_index_type();
        let data_mt: Option<MemoryType> = match ptr_memtype {
            Some(ptr_memtype) => {
                let data_mt = builder.create_memory_memtype(limit);
                let ghost before = builder@;
                let (size, mut fields) = builder.take_struct(ptr_memtype);
                fields.push(
                    MemoryTypeField {
                        offset: base_offset as u64,
                        ty: self.isa.pointer_type,
                        readonly: true,
                        fact: Some(
                            Fact::Mem {
                                ty: data_mt,
                                min_offset: 0,
                                max_offset: 0,
                                nullable: false,
                            },
                        ),
                    },
                );
                let end: u64 = base_offset as u64 + self.isa.pointer_type.bytes() as u64;
                let size: u64 = if size < end {
                    end
                } else {
                    size
                };
                builder.set_struct(ptr_memtype, size, fields);
                assert(builder@.memtypes =~= self.base_field_added(
                    before,
                    ptr_memtype,
                    base_offset as int,
                    data_mt,
                ).memtypes);
                Some(data_mt)
            },
            None => None,
        };
        let base_fact = match data_mt {
            Some(ty) => Some(Fact::Mem { ty, min_offset: 0, max_offset: 0, nullable: false }),
            None => None,
        };
        let load = self.make_base_load(base, base_offset);
        let base_gv = builder.create_global_value(load, base_fact);
        let min_size: u64 = match plan.minimum_byte_size() {
            Ok(n) => n,
            Err(_) => u64::MAX,
        };
        let max_size: Option<u64> = match plan.maximum_byte_size() {
            Ok(n) => Some(n),
            Err(_) => None,
        };
        CraneliftMemory {
            base_gv,
            index_type: if plan.memory64 {
                Type::I64
            } else {
                Type::I32
            },
            memory_type: data_mt,
            bound: limit,
            min_size,
            max_size,
            offset_guard_size: plan.offset_guard_size,
            page_size_log2: plan.page_size_log2,
        }
    }

    /// Whether a global can be compiled.
    pub open spec fn has_global(self, index: GlobalIndex) -> bool {
        &&& index.0 < self.module.globals@.len()
        &&& !self.module.globals@[index.0 as int].shared
        &&& supported_val_type(self.module.globals@[index.0 as int].content_type)
    }

    /// The code that finds a global, and the global.
    #[verifier::opaque]
    pub open spec fn global_made(self, code: Code, index: GlobalIndex) -> (
        Code,
        TranslationEnvironment<'a>,
        CraneliftGlobal,
    ) {
        let (c1, env, gv, offset) = self.global_location(code, index);
        (
            c1,
            env,
            CraneliftGlobal::Memory {
                gv,
                offset: offset as i32,
                ty: value_type_of(
                    self.module.globals@[index.0 as int].content_type,
                    self.isa.pointer_type,
                ),
            },
        )
    }

    /// Finds a global.
    pub fn make_global(&mut self, builder: &mut FunctionBuilder, index: GlobalIndex) -> (r:
        CraneliftGlobal)
        requires
            old(self).ready(old(builder)@),
            old(self).has_global(index),
        ensures
            (final(builder)@, *final(self), r) == old(self).global_made(old(builder)@, index),
            final(self).ready(final(builder)@),
            final(builder)@.declared(old(builder)@),
    {
        proof {
            reveal(TranslationEnvironment::global_made);
        }
        let (gv, offset) = self.get_global_location(builder, index);
        let content_type = self.module.globals[index.index()].content_type;
        CraneliftGlobal::Memory { gv, offset, ty: value_type(&content_type, self.isa.pointer_type) }
    }

    /// The type of references of a heap type, and whether they belong in stack maps.
    pub fn reference_type(&self, hty: &WasmHeapType) -> (r: (Type, bool))
        requires
            supported_heap_type(*hty),
        ensures
            r.0 == reference_type_of(*hty, self.isa.pointer_type),
            r.1 == hty.spec_is_vmgcref_type(),
    {
        match hty.top() {
            WasmHeapTopType::Func => (self.isa.pointer_type, false),
            _ => (Type::I32, true),
        }
    }

    /// Whether relaxed vector operators behave the same on all machines.
    pub fn relaxed_simd_deterministic(&self) -> (r: bool)
        ensures
            r == self.relaxed_simd_deterministic,
    {
        self.relaxed_simd_deterministic
    }

    /// Whether heap accesses out of bounds are redirected to null.
    pub fn heap_access_spectre_mitigation(&self) -> (r: bool)
        ensures
            r == self.heap_access_spectre_mitigation,
    {
        self.heap_access_spectre_mitigation
    }

    /// Whether table accesses out of bounds are redirected to null.
    pub fn table_access_spectre_mitigation(&self) -> (r: bool)
        ensures
            r == self.table_access_spectre_mitigation,
    {
        self.table_access_spectre_mitigation
    }

    /// Whether code carries facts.
    pub fn proof_carrying_code(&self) -> (r: bool)
        ensures
            r == self.proof_carrying_code,
    {
        self.proof_carrying_code
    }

    /// The integer type of native pointers.
    pub fn pointer_type(&self) -> (r: Type)
        ensures
            r == self.isa.pointer_type,
    {
        self.isa.pointer_type
    }

    /// Whether the target multiplies and adds in one step.
    pub fn has_native_fma(&self) -> (r: bool)
        ensures
            r == self.isa.has_native_fma,
    {
        self.isa.has_native_fma
    }

    /// Whether the target is an x86 machine.
    pub fn is_x86(&self) -> (r: bool)
        ensures
            r == self.isa.is_x86,
    {
        self.isa.is_x86
    }

    /// Whether a relaxed lane selection of a type becomes a blend.
    pub fn use_x86_blendv_for_relaxed_laneselect(&self, ty: Type) -> (r: bool)
        ensures
            r == self.isa.spec_has_x86_blendv_lowering(ty),
    {
        self.isa.has_x86_blendv_lowering(ty)
    }

    /// Whether a relaxed swizzle becomes a byte shuffle.
    pub fn use_x86_pshufb_for_relaxed_swizzle(&self) -> (r: bool)
        ensures
            r == self.isa.has_x86_pshufb,
    {
        self.isa.has_x86_pshufb
    }

    /// Whether a relaxed fixed-point multiplication becomes one instruction.
    pub fn use_x86_pmulhrsw_for_relaxed_q15mul(&self) -> (r: bool)
        ensures
            r == self.isa.has_x86_pmulhrsw,
    {
        self.isa.has_x86_pmulhrsw
    }

    /// Whether a relaxed dot product becomes one instruction.
    pub fn use_x86_pmaddubsw_for_dot(&self) -> (r: bool)
        ensures
            r == self.isa.has_x86_pmaddubsw,
    {
        self.isa.has_x86_pmaddubsw
    }

    /// Whether a parameter belongs to the WebAssembly function, and not to the calling convention:
    /// the first two are the contexts.
    pub fn is_wasm_parameter(&self, index: usize) -> (r: bool)
        ensures
            r == (index >= 2),
    {
        index >= 2
    }

    /// Whether a return value belongs to the WebAssembly function.
    pub fn is_wasm_return(&self, signature: &Signature, index: usize) -> (r: bool)
        requires
            index < signature.returns@.len(),
        ensures
            r == (signature.returns@[index as int].purpose is Normal),
    {
        matches!(signature.returns[index].purpose, ArgumentPurpose::Normal)
    }
}

} // verus!
