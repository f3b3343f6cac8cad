//! The errors of the runtime and their texts.
use crate::ir::TrapCode;
use crate::text::push_decimal;
use crate::types::EntityType;
use vstd::prelude::*;

verus! {

/// What can go wrong while a module is loaded, compiled, linked or run.
pub enum Error {
    /// The bytes are no valid module.
    InvalidWebAssembly { message: String, offset: usize },
    /// A required import was not provided.
    MissingImport { module: String, field: String, type_: EntityType },
    /// The module uses a feature that is not supported.
    Unsupported(String),
    /// A function could not be compiled.
    Cranelift { func_name: String, message: String },
    /// The debug information could not be read; holds the reader's message.
    Gimli(String),
    /// A trap occurred; `reason` is the text of `trap`.
    Trap { pc: usize, faulting_addr: usize, trap: TrapCode, reason: String, message: String },
    /// Memory could not be mapped.
    MmapFailed,
    /// The name is already defined.
    AlreadyDefined { module: String, field: String },
}

/// What an import of a type is called in messages.
pub open spec fn entity_type_name(ty: EntityType) -> Seq<char> {
    match ty {
        EntityType::Function(_) => "function"@,
        EntityType::Table(_) => "table"@,
        EntityType::Memory(_) => "memory"@,
        EntityType::Global(_) => "global"@,
    }
}

impl Error {
    /// The text of an error.
    pub open spec fn text(self) -> Seq<char> {
        match self {
            Error::InvalidWebAssembly { message, offset } => "invalid WASM input at "@
                + crate::text::decimal(offset as nat) + ": "@ + message@,
            Error::MissingImport { module, field, type_ } => "Missing required import "@ + module@
                + "::"@ + field@ + " ("@ + entity_type_name(type_) + ")"@,
            Error::Unsupported(
                feature,
            ) => "Feature used by the WebAssembly code is not supported: "@ + feature@,
            Error::Cranelift { func_name, message } => "failed to compile function "@ + func_name@
                + ": "@ + message@,
            Error::Gimli(e) => "Failed to parse DWARF debug information: "@ + e@,
            Error::Trap { reason, message, .. } => message@ + ". Reason "@ + reason@,
            Error::MmapFailed => "Memory mapping failed"@,
            Error::AlreadyDefined { module, field } => "Name "@ + module@ + "::"@ + field@
                + " is already defined"@,
        }
    }

    /// Renders the error as text.
    pub fn message(&self) -> (r: String)
        ensures
            r@ == self.text(),
    {
        match self {
            Error::InvalidWebAssembly { message, offset } => {
                let mut s = String::from_str("invalid WASM input at ");
                push_decimal(&mut s, *offset as u64);
                s.append(": ");
                s.append(message.as_str());
                s
            },
            Error::MissingImport { module, field, type_ } => {
                let kind = match type_ {
                    EntityType::Function(_) => "function",
                    EntityType::Table(_) => "table",
                    EntityType::Memory(_) => "memory",
                    EntityType::Global(_) => "global",
                };
                let mut s = String::from_str("Missing required import ");
                s.append(module.as_str());
                s.append("::");
                s.append(field.as_str());
                s.append(" (");
                s.append(kind);
                s.append(")");
                s
            },
            Error::Unsupported(feature) => {
                let mut s = String::from_str(
                    "Feature used by the WebAssembly code is not supported: ",
                );
                s.append(feature.as_str());
                s
            },
            Error::Cranelift { func_name, message } => {
                let mut s = String::from_str("failed to compile function ");
                s.append(func_name.as_str());
                s.append(": ");
                s.append(message.as_str());
                s
            },
            Error::Gimli(e) => {
                let mut s = String::from_str("Failed to parse DWARF debug information: ");
                s.append(e.as_str());
                s
            },
            Error::Trap { reason, message, .. } => {
                let mut s = String::from_str(message.as_str());
                s.append(". Reason ");
                s.append(reason.as_str());
                s
            },
            Error::MmapFailed => String::from_str("Memory mapping failed"),
            Error::AlreadyDefined { module, field } => {
                let mut s = String::from_str("Name ");
                s.append(module.as_str());
                s.append("::");
                s.append(field.as_str());
                s.append(" is already defined");
                s
            },
        }
    }

    /// The error for a feature of the given name.
    pub fn unsupported(feature: &str) -> (r: Error)
        ensures
            r matches Error::Unsupported(s) && s@ == feature@,
    {
        Error::Unsupported(String::from_str(feature))
    }
}

/// A size in bytes does not fit in 64 bits.
#[derive(Debug, Clone, Copy, PartialEq, Eq, Structural)]
pub struct SizeOverflow;

impl SizeOverflow {
    /// Renders the error as text.
    pub fn message(&self) -> (r: String)
        ensures
            r@ == "size overflow calculating memory size"@,
    {
        String::from_str("size overflow calculating memory size")
    }
}

} // verus!
