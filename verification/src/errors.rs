//! Errors surfaced by the generator. Generation is all-or-nothing: the
//! first problem found is returned and no partial output is produced.

use vstd::prelude::*;

verus! {

/// A type constructor the generator does not implement.
#[derive(Clone, Copy, PartialEq, Eq, Structural, Debug)]
pub enum UnsupportedKind {
    Flags,
    Tuple,
    OptionOf,
    ResultOf,
    List,
    FixedLengthList,
    MapOf,
    Future,
    Stream,
    Resource,
    Handle,
    Char,
    ErrorContext,
}

/// The scope in which two distinct names mint the same Go identifier.
#[derive(Clone, Copy, PartialEq, Eq, Structural, Debug)]
pub enum CollisionScope {
    /// The module-level names: interface types, kept type names, standalone
    /// functions, and the factory, instance and constructor names, in
    /// declaration order.
    Module,
    /// The minted method names of one interface, in declaration order.
    InterfaceMethods,
    /// The minted parameter names of one function, in declaration order.
    FunctionParams,
}

/// The entity on which a required name was missing, by its arena id.
#[derive(Clone, Copy, PartialEq, Eq, Structural, Debug)]
pub enum NamedEntity {
    Interface { id: usize },
    TypeDef { id: usize },
}

/// Why a flat Wasm signature cannot be emitted.
#[derive(Clone, Copy, PartialEq, Eq, Structural, Debug)]
pub enum SignatureReason {
    /// A record, variant or flags value stands in parameter or result
    /// position; flattening aggregates is not implemented.
    Aggregate,
    /// The parameters flatten to more core values than a host function may
    /// take directly; the canonical convention passes them indirectly
    /// through guest memory, which this generator does not emit.
    FlatParamsOverCap,
}

#[derive(Clone, Copy, PartialEq, Eq, Structural, Debug)]
pub enum CodegenError {
    /// A type definition uses a constructor that is recognized but not yet
    /// implemented.
    UnsupportedTypeDef { kind: UnsupportedKind },
    /// The function's flat Wasm signature cannot be emitted, for the given
    /// reason.
    UnsupportedWasmSignature { reason: SignatureReason },
    /// Two distinct names mint the same Go identifier in one scope; the
    /// payload gives the scope and the two positions in that scope's name
    /// list.
    NameCollision { scope: CollisionScope, first: usize, second: usize },
    /// An interface or named type lacks the name the IR requires.
    MissingName { entity: NamedEntity },
    /// The input arenas violate an assumed invariant: a dangling id, an
    /// unresolved type, or an alias cycle.
    ResolverInconsistency,
}

} // verus!
