//! Addresses of table elements, and where globals live.
use crate::builder::{Code, FunctionBuilder};
use crate::ir::{
    AliasRegion, BinaryOp, ConvertOp, GlobalValue, ImmOp, IntCC, MemFlags, Op, TernaryOp, TrapCode,
    Type, Value,
};
use vstd::prelude::*;

verus! {

/// A global, as compiled code sees it.
#[derive(Debug, Clone, Copy, PartialEq, Eq, Structural)]
pub enum CraneliftGlobal {
    /// A constant that is known when the code is compiled.
    Const(Value),
    /// A variable in memory.
    Memory { gv: GlobalValue, offset: i32, ty: Type },
    /// A global that the environment handles.
    Custom,
}

/// A table, as compiled code sees it.
#[derive(Debug, Clone, Copy, PartialEq, Eq, Structural)]
pub struct CraneliftTable {
    /// The address of the first element.
    pub base_gv: GlobalValue,
    /// The number of elements.
    pub bound: u64,
    /// The number of bytes of an element.
    pub element_size: u32,
}

/// The exponent of a power of two.
pub open spec fn log2_of(n: nat) -> Option<nat>
    decreases n,
{
    if n == 1 {
        Some(0)
    } else if n == 0 || n % 2 == 1 {
        None
    } else {
        match log2_of(n / 2) {
            Some(k) => Some(k + 1),
            None => None,
        }
    }
}

/// The exponent of a power of two.
fn log2(n: u32) -> (r: Option<u32>)
    ensures
        r is Some == log2_of(n as nat) is Some,
        r matches Some(k) ==> log2_of(n as nat) == Some(k as nat) && k <= n,
    decreases n,
{
    if n == 1 {
        Some(0)
    } else if n == 0 || n % 2 == 1 {
        None
    } else {
        match log2(n / 2) {
            Some(k) => Some(k + 1),
            None => None,
        }
    }
}

impl CraneliftTable {
    /// The code that scales an index by the element size, and the scaled value.
    pub open spec fn scaled(self, code: Code, index: Value) -> (Code, Value) {
        if self.element_size == 1 {
            (code, index)
        } else {
            match log2_of(self.element_size as nat) {
                Some(k) => (code.binary_imm(ImmOp::IshlImm, index, k as i64), code.next_value()),
                None => (
                    code.binary_imm(ImmOp::ImulImm, index, self.element_size as i64),
                    code.next_value(),
                ),
            }
        }
    }

    /// The code that computes the address of an element, and the address with its flags.
    ///
    /// The index is compared with the bound first. Without mitigations an index out of bounds
    /// traps; with them it yields a null address, and the access itself traps.
    #[verifier::opaque]
    pub open spec fn prepared(
        self,
        code: Code,
        index: Value,
        pointer_type: Type,
        spectre_mitigations_enabled: bool,
    ) -> (Code, (Value, MemFlags)) {
        let bound = code.next_value();
        let c1 = code.iconst(code.ty(index), self.bound as i64);
        let oob = c1.next_value();
        let c2 = c1.int_compare(IntCC::UnsignedGreaterThanOrEqual, index, bound);
        let c3 = if spectre_mitigations_enabled {
            c2
        } else {
            c2.emitted(Op::Trapnz { arg: oob, code: TrapCode::TableOutOfBounds })
        };
        let widen = code.ty(index) != pointer_type;
        let c4 = if widen {
            c3.convert(ConvertOp::Uextend, pointer_type, index)
        } else {
            c3
        };
        let wide_index = if widen {
            c3.next_value()
        } else {
            index
        };
        let base = c4.next_value();
        let c5 = c4.global_value(pointer_type, self.base_gv);
        let (c6, offset) = self.scaled(c5, wide_index);
        let element_addr = c6.next_value();
        let c7 = c6.binary(BinaryOp::Iadd, base, offset);
        let flags = MemFlags {
            aligned: true,
            region: Some(AliasRegion::Table),
            trap: if spectre_mitigations_enabled {
                Some(TrapCode::TableOutOfBounds)
            } else {
                None
            },
            ..MemFlags::spec_new()
        };
        if spectre_mitigations_enabled {
            let zero = c7.next_value();
            let c8 = c7.iconst(pointer_type, 0);
            (
                c8.ternary(TernaryOp::SelectSpectreGuard, oob, zero, element_addr),
                (c8.next_value(), flags),
            )
        } else {
            (c7, (element_addr, flags))
        }
    }

    /// Computes the address of an element and the flags of an access to it.
    pub fn prepare_addr(
        &self,
        builder: &mut FunctionBuilder,
        index: Value,
        pointer_type: Type,
        spectre_mitigations_enabled: bool,
    ) -> (r: (Value, MemFlags))
        requires
            old(builder)@.has(index),
            self.bound <= i64::MAX,
        ensures
            (final(builder)@, r) == self.prepared(
                old(builder)@,
                index,
                pointer_type,
                spectre_mitigations_enabled,
            ),
            final(builder)@.has(r.0),
            final(builder)@.grew(old(builder)@),
    {
        proof {
            reveal(CraneliftTable::prepared);
        }
        let mut index = index;
        let index_ty = builder.value_type(index);
        let bound = builder.iconst(index_ty, self.bound as i64);
        let oob = builder.int_compare(IntCC::UnsignedGreaterThanOrEqual, index, bound);
        if !spectre_mitigations_enabled {
            builder.emit(Op::Trapnz { arg: oob, code: TrapCode::TableOutOfBounds });
        }
        if index_ty != pointer_type {
            index = builder.convert(ConvertOp::Uextend, pointer_type, index);
        }
        let base = builder.global_value(pointer_type, self.base_gv);
        let offset = if self.element_size == 1 {
            index
        } else {
            match log2(self.element_size) {
                Some(k) => builder.binary_imm(ImmOp::IshlImm, index, k as i64),
                None => builder.binary_imm(ImmOp::ImulImm, index, self.element_size as i64),
            }
        };
        let element_addr = builder.binary(BinaryOp::Iadd, base, offset);
        let base_flags = MemFlags::new().with_aligned().with_alias_region(Some(AliasRegion::Table));
        if spectre_mitigations_enabled {
            let zero = builder.iconst(pointer_type, 0);
            let guarded = builder.ternary(
                TernaryOp::SelectSpectreGuard,
                oob,
                zero,
                element_addr,
            );
            (guarded, base_flags.with_trap_code(Some(TrapCode::TableOutOfBounds)))
        } else {
            (element_addr, base_flags.with_trap_code(None))
        }
    }
}

} // verus!
