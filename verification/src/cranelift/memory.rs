//! Addresses of accesses to linear memory.
//!
//! An access is compiled to one of three shapes: a trap where it is out of bounds whatever the
//! index, an unchecked access where bounds and guard pages cover every index, and otherwise an
//! access behind an explicit comparison.
use crate::builder::{Code, FunctionBuilder};
use crate::cranelift::code_translator::Reachability;
use crate::cranelift::env::TranslationEnvironment;
use crate::ir::{
    AliasRegion, BinaryOp, ConvertOp, Expr, Fact, GlobalValue, ImmOp, IntCC, MemFlags, MemoryType,
    Op, TernaryOp, TrapCode, Type, Value,
};
use vstd::prelude::*;

verus! {

/// The immediate of a memory access.
#[derive(Debug, Clone, Copy, PartialEq, Eq, Structural)]
pub struct MemArg {
    pub memory: u32,
    pub offset: u64,
}

/// A linear memory, as compiled code sees it.
#[derive(Debug, Clone, Copy, PartialEq, Eq, Structural)]
pub struct CraneliftMemory {
    /// The address of the first byte.
    pub base_gv: GlobalValue,
    /// The type of indices, `I32` or `I64`.
    pub index_type: Type,
    /// The region of the memory, if code carries facts.
    pub memory_type: Option<MemoryType>,
    /// The number of bytes that an access may lie in.
    pub bound: u64,
    /// The number of bytes that are always accessible.
    pub min_size: u64,
    /// The number of bytes that the memory can grow to, if that fits in 64 bits.
    pub max_size: Option<u64>,
    /// The number of guard bytes behind the memory.
    pub offset_guard_size: u64,
    /// The binary logarithm of the page size.
    pub page_size_log2: u8,
}

/// How an access is kept in bounds.
pub enum BoundsCheck {
    /// It is out of bounds whatever the index.
    AlwaysTraps,
    /// It is in bounds or in the guard pages whatever the index.
    Elided,
    /// It is in bounds for indices up to a limit.
    Explicit { limit: int },
}

/// An index, widened to a pointer: the code and the widened value.
pub open spec fn cast_index(
    code: Code,
    index: Value,
    index_ty: Type,
    pointer_ty: Type,
    pcc: bool,
) -> (Code, Value) {
    if index_ty == pointer_ty {
        (code, index)
    } else {
        let extended = code.next_value();
        (
            code.convert(ConvertOp::Uextend, pointer_ty, index).with_fact_if(
                pcc,
                extended,
                Fact::Range {
                    bit_width: pointer_ty.spec_bits() as u16,
                    min: 0,
                    max: index_ty.spec_max_unsigned(),
                },
            ).emitted(Op::LabelAlias { val: extended, of: index }),
            extended,
        )
    }
}

/// Widens an index to a pointer.
fn cast_index_to_pointer_ty(
    index: Value,
    index_ty: Type,
    pointer_ty: Type,
    pcc: bool,
    builder: &mut FunctionBuilder,
) -> (r: Value)
    requires
        old(builder)@.has(index),
        old(builder)@.ty(index) == index_ty,
        index_ty == pointer_ty || index_ty.spec_bits() < pointer_ty.spec_bits(),
    ensures
        (final(builder)@, r) == cast_index(old(builder)@, index, index_ty, pointer_ty, pcc),
        final(builder)@.has(r),
        final(builder)@.ty(r) == pointer_ty,
        final(builder)@.grew(old(builder)@),
{
    if index_ty == pointer_ty {
        return index;
    }
    let extended = builder.convert(ConvertOp::Uextend, pointer_ty, index);
    if pcc {
        builder.set_fact(
            extended,
            Fact::Range {
                bit_width: pointer_ty.bits() as u16,
                min: 0,
                max: index_ty.max_unsigned(),
            },
        );
    }
    builder.emit(Op::LabelAlias { val: extended, of: index });
    extended
}

/// What is known of a pointer at an index plus an offset.
pub open spec fn address_fact(ty: MemoryType, index: Option<Fact>, offset: u32) -> Fact {
    match index {
        Some(Fact::Exactly { bit_width, value }) => Fact::DynamicMem {
            ty,
            min: Expr::of_value(value),
            max: Expr { base: crate::ir::BaseExpr::Value(value), offset: offset as i64 },
            nullable: false,
        },
        _ => Fact::Mem {
            ty,
            min_offset: offset as u64,
            max_offset: (u32::MAX + offset) as u64,
            nullable: false,
        },
    }
}

/// The fact about a pointer at an index plus an offset.
fn make_address_fact(ty: MemoryType, index: Option<Fact>, offset: u32) -> (r: Fact)
    ensures
        r == address_fact(ty, index, offset),
{
    match index {
        Some(Fact::Exactly { bit_width, value }) => Fact::DynamicMem {
            ty,
            min: Expr { base: crate::ir::BaseExpr::Value(value), offset: 0 },
            max: Expr { base: crate::ir::BaseExpr::Value(value), offset: offset as i64 },
            nullable: false,
        },
        _ => Fact::Mem {
            ty,
            min_offset: offset as u64,
            max_offset: u32::MAX as u64 + offset as u64,
            nullable: false,
        },
    }
}

/// A comparison of an index with a bound: the code, in which the comparison is the next value.
///
/// With facts, the original index becomes a symbol, the widened index and the left side equal it,
/// and the outcome is tied to the right side where that is a constant or a symbol.
pub open spec fn compared(
    code: Code,
    kind: IntCC,
    lhs: Value,
    rhs: Value,
    orig_index: Value,
    index: Value,
    width: u16,
    pcc: bool,
) -> Code {
    let c1 = code.int_compare(kind, lhs, rhs);
    let c2 = c1.with_fact(orig_index, Fact::Def { value: orig_index });
    let exact = Fact::Exactly { bit_width: width, value: orig_index };
    let c3 = c2.with_fact_if(index != orig_index, index, exact).with_fact(lhs, exact);
    if !pcc {
        c1
    } else {
        match c3.fact(rhs) {
            Some(Fact::Exactly { bit_width, value }) => c3.with_fact(
                code.next_value(),
                Fact::Compare {
                    kind,
                    lhs: Expr::of_value(orig_index),
                    rhs: Expr::of_value(value),
                },
            ),
            Some(Fact::Range { bit_width, min, max }) => if bit_width == width && min == max {
                c3.with_fact(
                    code.next_value(),
                    Fact::Compare {
                        kind,
                        lhs: Expr::of_value(orig_index),
                        rhs: Expr::of_constant(min as i64),
                    },
                )
            } else {
                c3
            },
            _ => c3,
        }
    }
}

/// Compares an index with a bound.
fn make_compare(
    builder: &mut FunctionBuilder,
    kind: IntCC,
    lhs: Value,
    rhs: Value,
    orig_index: Value,
    index: Value,
    width: u16,
    pcc: bool,
) -> (r: Value)
    requires
        old(builder)@.has(lhs),
        old(builder)@.has(rhs),
        old(builder)@.has(orig_index),
        old(builder)@.has(index),
        old(builder)@.fact(rhs) matches Some(Fact::Range { min, .. }) ==> min <= i64::MAX,
        rhs != lhs && rhs != orig_index && rhs != index,
    ensures
        r == old(builder)@.next_value(),
        final(builder)@ == compared(
            old(builder)@,
            kind,
            lhs,
            rhs,
            orig_index,
            index,
            width,
            pcc,
        ),
        final(builder)@.has(r),
        final(builder)@.grew(old(builder)@),
{
    let result = builder.int_compare(kind, lhs, rhs);
    if pcc {
        let exact = Fact::Exactly { bit_width: width, value: orig_index };
        builder.set_fact(orig_index, Fact::Def { value: orig_index });
        if index != orig_index {
            builder.set_fact(index, exact);
        }
        builder.set_fact(lhs, exact);
        match builder.fact(rhs) {
            Some(fact) => {
                if let Some(symbol) = fact.as_symbol() {
                    builder.set_fact(
                        result,
                        Fact::Compare {
                            kind,
                            lhs: Expr { base: crate::ir::BaseExpr::Value(orig_index), offset: 0 },
                            rhs: Expr { base: crate::ir::BaseExpr::Value(symbol), offset: 0 },
                        },
                    );
                }
                if let Some(k) = fact.as_const(width) {
                    builder.set_fact(
                        result,
                        Fact::Compare {
                            kind,
                            lhs: Expr { base: crate::ir::BaseExpr::Value(orig_index), offset: 0 },
                            rhs: Expr { base: crate::ir::BaseExpr::Zero, offset: k as i64 },
                        },
                    );
                }
            },
            None => {},
        }
    }
    result
}

impl CraneliftMemory {
    /// How an access of `access_size` bytes at a constant offset is kept in bounds.
    pub open spec fn bounds_check(self, offset: u32, access_size: u8) -> BoundsCheck {
        let offset_and_size = offset + access_size;
        if offset_and_size > self.bound {
            BoundsCheck::AlwaysTraps
        } else if self.index_type is I32 && u32::MAX <= self.bound + self.offset_guard_size
            - offset_and_size {
            BoundsCheck::Elided
        } else {
            BoundsCheck::Explicit { limit: self.bound - offset_and_size }
        }
    }

    /// Whether an access at a constant offset can be compiled for a target: the memory has whole
    /// target pages, its indices are no wider than pointers, and its sizes fit in the immediates.
    pub open spec fn compilable(self, env: TranslationEnvironment, offset: u32, size: u8) -> bool {
        &&& env.isa.wf()
        &&& self.index_type is I32 || self.index_type is I64
        &&& self.index_type == env.isa.pointer_type || self.index_type is I32
        &&& self.page_size_log2 >= env.isa.page_size_align_log2
        &&& match self.bounds_check(offset, size) {
            BoundsCheck::AlwaysTraps => true,
            BoundsCheck::Elided => self.memory_type is Some ==> self.bound
                + self.offset_guard_size <= u64::MAX,
            BoundsCheck::Explicit { limit } => limit <= i64::MAX && (env.proof_carrying_code
                ==> limit <= env.isa.pointer_type.spec_max_unsigned()),
        }
    }

    /// The region of the memory with a size, if code carries facts.
    pub open spec fn region(self, size: int) -> Option<(MemoryType, u64)> {
        match self.memory_type {
            Some(ty) => Some((ty, size as u64)),
            None => None,
        }
    }

    /// The address at an index plus an offset: the code and the address.
    pub open spec fn addressed(
        self,
        code: Code,
        addr_ty: Type,
        index: Value,
        offset: u32,
        pcc: Option<(MemoryType, u64)>,
    ) -> (Code, Value) {
        let heap_base = code.next_value();
        let c1 = code.global_value(addr_ty, self.base_gv);
        let c2 = c1.with_fact_if(pcc is Some, heap_base, Fact::base_of((pcc->0).0));
        let base_and_index = c2.next_value();
        let c3 = c2.binary(BinaryOp::Iadd, heap_base, index);
        let c4 = c3.with_fact_if(
            pcc is Some,
            base_and_index,
            address_fact((pcc->0).0, code.fact(index), 0),
        );
        if offset == 0 {
            (c4, base_and_index)
        } else {
            let offset_val = c4.next_value();
            let c5 = c4.iconst(addr_ty, offset as i64);
            let c6 = c5.with_fact_if(
                pcc is Some,
                offset_val,
                Fact::constant(addr_ty.spec_bits() as u16, offset as u64),
            );
            let result = c6.next_value();
            let c7 = c6.binary(BinaryOp::Iadd, base_and_index, offset_val);
            (
                c7.with_fact_if(
                    pcc is Some,
                    result,
                    address_fact((pcc->0).0, code.fact(index), offset),
                ),
                result,
            )
        }
    }

    /// Computes the address at an index plus an offset.
    fn compute_addr(
        &self,
        builder: &mut FunctionBuilder,
        addr_ty: Type,
        index: Value,
        offset: u32,
        pcc: Option<(MemoryType, u64)>,
    ) -> (r: Value)
        requires
            old(builder)@.has(index),
            old(builder)@.ty(index) == addr_ty,
        ensures
            (final(builder)@, r) == self.addressed(old(builder)@, addr_ty, index, offset, pcc),
            final(builder)@.has(r),
            final(builder)@.ty(r) == addr_ty,
            final(builder)@.grew(old(builder)@),
    {
        let heap_base = builder.global_value(addr_ty, self.base_gv);
        if let Some((ty, _)) = pcc {
            builder.set_fact(
                heap_base,
                Fact::Mem { ty, min_offset: 0, max_offset: 0, nullable: false },
            );
        }
        let base_and_index = builder.binary(BinaryOp::Iadd, heap_base, index);
        let index_fact = builder.fact(index);
        if let Some((ty, _)) = pcc {
            builder.set_fact(base_and_index, make_address_fact(ty, index_fact, 0));
        }
        if offset == 0 {
            base_and_index
        } else {
            let offset_val = builder.iconst(addr_ty, offset as i64);
            if pcc.is_some() {
                builder.set_fact(
                    offset_val,
                    Fact::Range {
                        bit_width: addr_ty.bits() as u16,
                        min: offset as u64,
                        max: offset as u64,
                    },
                );
            }
            let result = builder.binary(BinaryOp::Iadd, base_and_index, offset_val);
            if let Some((ty, _)) = pcc {
                builder.set_fact(result, make_address_fact(ty, index_fact, offset));
            }
            result
        }
    }

    /// The address of an access that must not happen where a condition holds: the code and the
    /// address. Either the condition traps, or it turns the address into null.
    pub open spec fn guarded(
        self,
        code: Code,
        addr_ty: Type,
        index: Value,
        offset: u32,
        access_size: u8,
        spectre_mitigations_enabled: bool,
        pcc: Option<(MemoryType, u64)>,
        oob_condition: Value,
    ) -> (Code, Value) {
        if !spectre_mitigations_enabled {
            self.addressed(
                code.emitted(
                    Op::Trapnz { arg: oob_condition, code: TrapCode::HeapOutOfBounds },
                ),
                addr_ty,
                index,
                offset,
                pcc,
            )
        } else {
            let (c1, addr) = self.addressed(code, addr_ty, index, offset, pcc);
            let null = c1.next_value();
            let c2 = c1.iconst(addr_ty, 0);
            let selected = c2.next_value();
            let c3 = c2.ternary(TernaryOp::SelectSpectreGuard, oob_condition, null, addr);
            (
                c3.with_fact_if(
                    pcc is Some,
                    null,
                    Fact::constant(addr_ty.spec_bits() as u16, 0),
                ).with_fact_if(
                    pcc is Some,
                    selected,
                    Fact::Mem {
                        ty: (pcc->0).0,
                        min_offset: 0,
                        max_offset: ((pcc->0).1 - access_size) as u64,
                        nullable: true,
                    },
                ),
                selected,
            )
        }
    }

    /// Computes the address of an access that must not happen where a condition holds.
    fn explicit_check_oob_condition_and_compute_addr(
        &self,
        builder: &mut FunctionBuilder,
        addr_ty: Type,
        index: Value,
        offset: u32,
        access_size: u8,
        spectre_mitigations_enabled: bool,
        pcc: Option<(MemoryType, u64)>,
        oob_condition: Value,
    ) -> (r: Value)
        requires
            old(builder)@.has(index),
            old(builder)@.ty(index) == addr_ty,
            pcc matches Some(region) ==> access_size <= region.1,
        ensures
            (final(builder)@, r) == self.guarded(
                old(builder)@,
                addr_ty,
                index,
                offset,
                access_size,
                spectre_mitigations_enabled,
                pcc,
                oob_condition,
            ),
            final(builder)@.has(r),
            final(builder)@.ty(r) == addr_ty,
            final(builder)@.grew(old(builder)@),
    {
        if !spectre_mitigations_enabled {
            builder.emit(Op::Trapnz { arg: oob_condition, code: TrapCode::HeapOutOfBounds });
        }
        let addr = self.compute_addr(builder, addr_ty, index, offset, pcc);
        if spectre_mitigations_enabled {
            let null = builder.iconst(addr_ty, 0);
            let selected = builder.ternary(
                TernaryOp::SelectSpectreGuard,
                oob_condition,
                null,
                addr,
            );
            if let Some((ty, size)) = pcc {
                builder.set_fact(
                    null,
                    Fact::Range { bit_width: addr_ty.bits() as u16, min: 0, max: 0 },
                );
                builder.set_fact(
                    selected,
                    Fact::Mem {
                        ty,
                        min_offset: 0,
                        max_offset: size - access_size as u64,
                        nullable: true,
                    },
                );
            }
            selected
        } else {
            addr
        }
    }

    /// The checked address of an access: the code, and the address unless the access always traps.
    pub open spec fn checked(
        self,
        code: Code,
        env: TranslationEnvironment,
        index: Value,
        offset: u32,
        access_size: u8,
    ) -> (Code, Reachability<Value>) {
        let pointer_type = env.isa.pointer_type;
        let width = pointer_type.spec_bits() as u16;
        let (c1, cast) = cast_index(
            code,
            index,
            self.index_type,
            pointer_type,
            self.memory_type is Some,
        );
        match self.bounds_check(offset, access_size) {
            BoundsCheck::AlwaysTraps => (
                c1.emitted(Op::Trap { code: TrapCode::HeapOutOfBounds }),
                Reachability::Unreachable,
            ),
            BoundsCheck::Elided => {
                let (c2, addr) = self.addressed(
                    c1,
                    pointer_type,
                    cast,
                    offset,
                    self.region(self.bound + self.offset_guard_size),
                );
                (c2, Reachability::Reachable(addr))
            },
            BoundsCheck::Explicit { limit } => {
                let bound = c1.next_value();
                let c2 = c1.iconst(pointer_type, limit as i64).with_fact_if(
                    env.proof_carrying_code,
                    bound,
                    Fact::constant(width, limit as u64),
                );
                let oob = c2.next_value();
                let c3 = compared(
                    c2,
                    IntCC::UnsignedGreaterThan,
                    cast,
                    bound,
                    index,
                    cast,
                    width,
                    env.proof_carrying_code,
                );
                let (c4, addr) = self.guarded(
                    c3,
                    pointer_type,
                    cast,
                    offset,
                    access_size,
                    env.heap_access_spectre_mitigation,
                    self.region(self.bound as int),
                    oob,
                );
                (c4, Reachability::Reachable(addr))
            },
        }
    }

    /// Checks an access against the bounds and computes its address.
    fn bounds_check_and_compute_addr(
        &self,
        builder: &mut FunctionBuilder,
        index: Value,
        offset: u32,
        access_size: u8,
        env: &TranslationEnvironment,
    ) -> (r: Reachability<Value>)
        requires
            old(builder)@.has(index),
            old(builder)@.ty(index) == self.index_type,
            self.compilable(*env, offset, access_size),
        ensures
            (final(builder)@, r) == self.checked(old(builder)@, *env, index, offset, access_size),
            final(builder)@.grew(old(builder)@),
            r matches Reachability::Reachable(addr) ==> final(builder)@.has(addr)
                && final(builder)@.ty(addr) == env.isa.pointer_type,
    {
        let pointer_type = env.isa.pointer_type;
        let width: u16 = pointer_type.bits() as u16;
        let orig_index = index;
        let index = cast_index_to_pointer_ty(
            index,
            self.index_type,
            pointer_type,
            self.memory_type.is_some(),
            builder,
        );
        let offset_and_size: u64 = offset as u64 + access_size as u64;
        if offset_and_size > self.bound {
            builder.emit(Op::Trap { code: TrapCode::HeapOutOfBounds });
            Reachability::Unreachable
        } else if self.index_type == Type::I32 && u32::MAX as u64 + offset_and_size
            <= self.bound.saturating_add(self.offset_guard_size) {
            let region: Option<(MemoryType, u64)> = match self.memory_type {
                Some(ty) => Some((ty, self.bound + self.offset_guard_size)),
                None => None,
            };
            Reachability::Reachable(
                self.compute_addr(builder, pointer_type, index, offset, region),
            )
        } else {
            let adjusted_bound: u64 = self.bound - offset_and_size;
            let adjusted_bound_value = builder.iconst(pointer_type, adjusted_bound as i64);
            if env.proof_carrying_code {
                builder.set_fact(
                    adjusted_bound_value,
                    Fact::Range { bit_width: width, min: adjusted_bound, max: adjusted_bound },
                );
            }
            let oob = make_compare(
                builder,
                IntCC::UnsignedGreaterThan,
                index,
                adjusted_bound_value,
                orig_index,
                index,
                width,
                env.proof_carrying_code,
            );
            let region: Option<(MemoryType, u64)> = match self.memory_type {
                Some(ty) => Some((ty, self.bound)),
                None => None,
            };
            Reachability::Reachable(
                self.explicit_check_oob_condition_and_compute_addr(
                    builder,
                    pointer_type,
                    index,
                    offset,
                    access_size,
                    env.heap_access_spectre_mitigation,
                    region,
                    oob,
                ),
            )
        }
    }

    /// What is known of an access to the memory.
    pub open spec fn access_flags(self) -> MemFlags {
        MemFlags {
            little_endian: true,
            checked: self.memory_type is Some,
            region: Some(AliasRegion::Heap),
            ..MemFlags::spec_new()
        }
    }

    /// Whether an access can be compiled for a target; offsets beyond 32 bits are added to the
    /// index first.
    pub open spec fn preparable(
        self,
        env: TranslationEnvironment,
        memarg: MemArg,
        access_size: u8,
    ) -> bool {
        if memarg.offset <= u32::MAX {
            self.compilable(env, memarg.offset as u32, access_size)
        } else {
            memarg.offset <= i64::MAX && self.compilable(env, 0, access_size)
        }
    }

    /// The address of an access: the code, and the address unless the access always traps.
    #[verifier::opaque]
    pub open spec fn prepared(
        self,
        code: Code,
        env: TranslationEnvironment,
        index: Value,
        access_size: u8,
        memarg: MemArg,
    ) -> (Code, Reachability<Value>) {
        if memarg.offset <= u32::MAX {
            self.checked(code, env, index, memarg.offset as u32, access_size)
        } else {
            let offset = code.next_value();
            let c1 = code.iconst(self.index_type, memarg.offset as i64);
            let adjusted = c1.next_value();
            let c2 = c1.uadd_overflow_trap(index, offset, TrapCode::HeapOutOfBounds);
            self.checked(c2, env, adjusted, 0, access_size)
        }
    }

    /// Prepares an access: returns its flags, its index and its address, unless it always traps.
    pub fn prepare_addr(
        &self,
        builder: &mut FunctionBuilder,
        index: Value,
        access_size: u8,
        memarg: &MemArg,
        env: &TranslationEnvironment,
    ) -> (r: Reachability<(MemFlags, Value, Value)>)
        requires
            old(builder)@.has(index),
            old(builder)@.ty(index) == self.index_type,
            self.preparable(*env, *memarg, access_size),
        ensures
            final(builder)@ == self.prepared(
                old(builder)@,
                *env,
                index,
                access_size,
                *memarg,
            ).0,
            r == match self.prepared(old(builder)@, *env, index, access_size, *memarg).1 {
                Reachability::Reachable(addr) => Reachability::Reachable(
                    (self.access_flags(), index, addr),
                ),
                Reachability::Unreachable => Reachability::Unreachable,
            },
            final(builder)@.grew(old(builder)@),
            r matches Reachability::Reachable((_, _, addr)) ==> final(builder)@.has(addr),
    {
        proof {
            reveal(CraneliftMemory::prepared);
        }
        let addr = if memarg.offset <= u32::MAX as u64 {
            self.bounds_check_and_compute_addr(
                builder,
                index,
                memarg.offset as u32,
                access_size,
                env,
            )
        } else {
            let offset = builder.iconst(self.index_type, memarg.offset as i64);
            let adjusted_index = builder.uadd_overflow_trap(
                index,
                offset,
                TrapCode::HeapOutOfBounds,
            );
            self.bounds_check_and_compute_addr(builder, adjusted_index, 0, access_size, env)
        };
        match addr {
            Reachability::Unreachable => Reachability::Unreachable,
            Reachability::Reachable(addr) => {
                let mut flags = MemFlags::new().with_little_endian();
                if self.memory_type.is_some() {
                    flags = flags.with_checked();
                }
                flags = flags.with_alias_region(Some(AliasRegion::Heap));
                Reachability::Reachable((flags, index, addr))
            },
        }
    }

    /// The code that traps unless an atomic access of several bytes is aligned.
    pub open spec fn aligned(code: Code, index: Value, loaded_bytes: u8, offset: u64) -> Code {
        if loaded_bytes > 1 {
            let c1 = if offset == 0 {
                code
            } else {
                code.binary_imm(ImmOp::IaddImm, index, offset as i64)
            };
            let effective_addr = if offset == 0 {
                index
            } else {
                code.next_value()
            };
            let misalignment = c1.next_value();
            let c2 = c1.binary_imm(ImmOp::BandImm, effective_addr, (loaded_bytes - 1) as i64);
            let f = c2.next_value();
            let c3 = c2.int_compare_imm(IntCC::NotEqual, misalignment, 0);
            c3.emitted(Op::Trapnz { arg: f, code: TrapCode::HeapMisaligned })
        } else {
            code
        }
    }

    /// Like [`CraneliftMemory::prepare_addr`], for atomic accesses: alignment is checked first.
    pub fn prepare_atomic_addr(
        &self,
        builder: &mut FunctionBuilder,
        index: Value,
        loaded_bytes: u8,
        memarg: &MemArg,
        env: &TranslationEnvironment,
    ) -> (r: Reachability<(MemFlags, Value, Value)>)
        requires
            old(builder)@.has(index),
            old(builder)@.ty(index) == self.index_type,
            self.preparable(*env, *memarg, loaded_bytes),
            memarg.offset <= i64::MAX,
        ensures
            ({
                let aligned = Self::aligned(old(builder)@, index, loaded_bytes, memarg.offset);
                let (code, addr) = self.prepared(aligned, *env, index, loaded_bytes, *memarg);
                &&& final(builder)@ == code
                &&& r == match addr {
                    Reachability::Reachable(addr) => Reachability::Reachable(
                        (self.access_flags(), index, addr),
                    ),
                    Reachability::Unreachable => Reachability::Unreachable,
                }
            }),
    {
        if loaded_bytes > 1 {
            let effective_addr = if memarg.offset == 0 {
                index
            } else {
                builder.binary_imm(ImmOp::IaddImm, index, memarg.offset as i64)
            };
            let misalignment = builder.binary_imm(
                ImmOp::BandImm,
                effective_addr,
                (loaded_bytes - 1) as i64,
            );
            let f = builder.int_compare_imm(IntCC::NotEqual, misalignment, 0);
            builder.emit(Op::Trapnz { arg: f, code: TrapCode::HeapMisaligned });
        }
        self.prepare_addr(builder, index, loaded_bytes, memarg, env)
    }
}

/// An access that always traps is out of bounds for every index.
pub proof fn always_trapping_accesses_are_out_of_bounds(
    memory: CraneliftMemory,
    offset: u32,
    access_size: u8,
    index: u64,
)
    requires
        memory.bounds_check(offset, access_size) is AlwaysTraps,
    ensures
        index + offset + access_size > memory.bound,
{
}

/// The limit of an explicit check is exact: an index passes if and only if the access is in bounds.
pub proof fn explicit_checks_are_exact(
    memory: CraneliftMemory,
    offset: u32,
    access_size: u8,
    index: u64,
)
    requires
        memory.bounds_check(offset, access_size) is Explicit,
    ensures
        index <= memory.bounds_check(offset, access_size)->limit <==> index + offset + access_size
            <= memory.bound,
{
}

/// An access without a check stays within the memory and its guard pages, whatever the index.
pub proof fn elided_checks_stay_in_guard(
    memory: CraneliftMemory,
    offset: u32,
    access_size: u8,
    index: u32,
)
    requires
        memory.bounds_check(offset, access_size) is Elided,
    ensures
        index + offset + access_size <= memory.bound + memory.offset_guard_size,
{
}

} // verus!
