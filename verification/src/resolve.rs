//! The type resolver: maps an interface-description type reference to the
//! Go type it is rendered as. References to named record, enum, variant and
//! flags definitions resolve to the minted public name; aliases are chased
//! through the arena with bounded fuel so that a cycle is reported instead
//! of looping.

use vstd::prelude::*;

use crate::errors::{CodegenError, NamedEntity, UnsupportedKind};
use crate::gotypes::{GoType, GoTypeV};
use crate::ident::{minted, GoIdentifier};
use crate::wit::{Resolve, Type, TypeDefKind};

verus! {

/// A `Result<GoType, CodegenError>` seen at the spec level.
pub open spec fn view_resolved(r: Result<GoType, CodegenError>) -> Result<GoTypeV, CodegenError> {
    match r {
        Result::Ok(g) => Result::Ok(g@),
        Result::Err(e) => Result::Err(e),
    }
}

/// What resolving `t` against the arena yields, with `fuel` bounding how
/// many alias links may be followed.
pub open spec fn spec_resolve_type(r: Resolve, t: Type, fuel: nat) -> Result<
    GoTypeV,
    CodegenError,
>
    decreases fuel,
{
    match t {
        Type::Bool => Result::Ok(GoTypeV::Bool),
        Type::U8 => Result::Ok(GoTypeV::Uint8),
        Type::U16 => Result::Ok(GoTypeV::Uint16),
        Type::U32 => Result::Ok(GoTypeV::Uint32),
        Type::U64 => Result::Ok(GoTypeV::Uint64),
        Type::S8 => Result::Ok(GoTypeV::Int8),
        Type::S16 => Result::Ok(GoTypeV::Int16),
        Type::S32 => Result::Ok(GoTypeV::Int32),
        Type::S64 => Result::Ok(GoTypeV::Int64),
        Type::F32 => Result::Ok(GoTypeV::Float32),
        Type::F64 => Result::Ok(GoTypeV::Float64),
        Type::Str => Result::Ok(GoTypeV::Str),
        Type::Char => Result::Err(
            CodegenError::UnsupportedTypeDef { kind: UnsupportedKind::Char },
        ),
        Type::ErrorContext => Result::Err(
            CodegenError::UnsupportedTypeDef { kind: UnsupportedKind::ErrorContext },
        ),
        Type::Id(id) => {
            if id >= r.types@.len() {
                Result::Err(CodegenError::ResolverInconsistency)
            } else {
                let td = r.types@[id as int];
                match td.kind {
                    TypeDefKind::Record(_) | TypeDefKind::Enum(_) | TypeDefKind::Variant(_)
                        | TypeDefKind::Flags => {
                        match td.name {
                            Option::Some(n) => Result::Ok(GoTypeV::Named(minted(n@, true))),
                            Option::None => Result::Err(
                                CodegenError::MissingName { entity: NamedEntity::TypeDef { id } },
                            ),
                        }
                    },
                    TypeDefKind::Type(t2) => {
                        if fuel == 0 {
                            Result::Err(CodegenError::ResolverInconsistency)
                        } else {
                            spec_resolve_type(r, t2, (fuel - 1) as nat)
                        }
                    },
                    TypeDefKind::Tuple => Result::Err(
                        CodegenError::UnsupportedTypeDef { kind: UnsupportedKind::Tuple },
                    ),
                    TypeDefKind::OptionOf => Result::Err(
                        CodegenError::UnsupportedTypeDef { kind: UnsupportedKind::OptionOf },
                    ),
                    TypeDefKind::ResultOf => Result::Err(
                        CodegenError::UnsupportedTypeDef { kind: UnsupportedKind::ResultOf },
                    ),
                    TypeDefKind::List => Result::Err(
                        CodegenError::UnsupportedTypeDef { kind: UnsupportedKind::List },
                    ),
                    TypeDefKind::FixedLengthList => Result::Err(
                        CodegenError::UnsupportedTypeDef { kind: UnsupportedKind::FixedLengthList },
                    ),
                    TypeDefKind::MapOf => Result::Err(
                        CodegenError::UnsupportedTypeDef { kind: UnsupportedKind::MapOf },
                    ),
                    TypeDefKind::Future => Result::Err(
                        CodegenError::UnsupportedTypeDef { kind: UnsupportedKind::Future },
                    ),
                    TypeDefKind::Stream => Result::Err(
                        CodegenError::UnsupportedTypeDef { kind: UnsupportedKind::Stream },
                    ),
                    TypeDefKind::Resource => Result::Err(
                        CodegenError::UnsupportedTypeDef { kind: UnsupportedKind::Resource },
                    ),
                    TypeDefKind::Handle => Result::Err(
                        CodegenError::UnsupportedTypeDef { kind: UnsupportedKind::Handle },
                    ),
                    TypeDefKind::Unknown => Result::Err(CodegenError::ResolverInconsistency),
                }
            }
        },
    }
}

/// The fuel that suffices to chase any acyclic alias chain in `r`: the
/// number of type definitions, since a chain that is longer must revisit one.
pub open spec fn full_fuel(r: Resolve) -> nat {
    r.types@.len()
}

fn resolve_type_fuel(t: &Type, resolve: &Resolve, fuel: usize) -> (r: Result<GoType, CodegenError>)
    ensures
        view_resolved(r) == spec_resolve_type(*resolve, *t, fuel as nat),
    decreases fuel,
{
    match t {
        Type::Bool => Ok(GoType::Bool),
        Type::U8 => Ok(GoType::Uint8),
        Type::U16 => Ok(GoType::Uint16),
        Type::U32 => Ok(GoType::Uint32),
        Type::U64 => Ok(GoType::Uint64),
        Type::S8 => Ok(GoType::Int8),
        Type::S16 => Ok(GoType::Int16),
        Type::S32 => Ok(GoType::Int32),
        Type::S64 => Ok(GoType::Int64),
        Type::F32 => Ok(GoType::Float32),
        Type::F64 => Ok(GoType::Float64),
        Type::Str => Ok(GoType::Str),
        Type::Char => Err(CodegenError::UnsupportedTypeDef { kind: UnsupportedKind::Char }),
        Type::ErrorContext => Err(
            CodegenError::UnsupportedTypeDef { kind: UnsupportedKind::ErrorContext },
        ),
        Type::Id(id) => {
            if *id >= resolve.types.len() {
                return Err(CodegenError::ResolverInconsistency);
            }
            let td = &resolve.types[*id];
            match &td.kind {
                TypeDefKind::Record(_) | TypeDefKind::Enum(_) | TypeDefKind::Variant(_)
                    | TypeDefKind::Flags => {
                    match &td.name {
                        Some(n) => Ok(GoType::Named(GoIdentifier::public(n.as_str()))),
                        None => Err(CodegenError::MissingName { entity: NamedEntity::TypeDef { id: *id } }),
                    }
                },
                TypeDefKind::Type(t2) => {
                    if fuel == 0 {
                        Err(CodegenError::ResolverInconsistency)
                    } else {
                        resolve_type_fuel(t2, resolve, fuel - 1)
                    }
                },
                TypeDefKind::Tuple => Err(
                    CodegenError::UnsupportedTypeDef { kind: UnsupportedKind::Tuple },
                ),
                TypeDefKind::OptionOf => Err(
                    CodegenError::UnsupportedTypeDef { kind: UnsupportedKind::OptionOf },
                ),
                TypeDefKind::ResultOf => Err(
                    CodegenError::UnsupportedTypeDef { kind: UnsupportedKind::ResultOf },
                ),
                TypeDefKind::List => Err(
                    CodegenError::UnsupportedTypeDef { kind: UnsupportedKind::List },
                ),
                TypeDefKind::FixedLengthList => Err(
                    CodegenError::UnsupportedTypeDef { kind: UnsupportedKind::FixedLengthList },
                ),
                TypeDefKind::MapOf => Err(
                    CodegenError::UnsupportedTypeDef { kind: UnsupportedKind::MapOf },
                ),
                TypeDefKind::Future => Err(
                    CodegenError::UnsupportedTypeDef { kind: UnsupportedKind::Future },
                ),
                TypeDefKind::Stream => Err(
                    CodegenError::UnsupportedTypeDef { kind: UnsupportedKind::Stream },
                ),
                TypeDefKind::Resource => Err(
                    CodegenError::UnsupportedTypeDef { kind: UnsupportedKind::Resource },
                ),
                TypeDefKind::Handle => Err(
                    CodegenError::UnsupportedTypeDef { kind: UnsupportedKind::Handle },
                ),
                TypeDefKind::Unknown => Err(CodegenError::ResolverInconsistency),
            }
        },
    }
}

/// Resolves a type reference to its Go rendering, following alias links;
/// an alias chain longer than the arena is a cycle and is reported as a
/// resolver inconsistency.
pub fn resolve_type(t: &Type, resolve: &Resolve) -> (r: Result<GoType, CodegenError>)
    ensures
        view_resolved(r) == spec_resolve_type(*resolve, *t, full_fuel(*resolve)),
{
    let fuel = resolve.types.len();
    resolve_type_fuel(t, resolve, fuel)
}

} // verus!
