//! The resolved interface-description model the generator consumes: a world
//! with ordered imports and exports, interfaces, functions, and a type arena
//! indexed by plain `usize` ids.

use vstd::prelude::*;

verus! {

/// A type reference: a primitive, or the id of a named type definition in
/// the arena.
#[derive(Clone, Copy, PartialEq, Eq, Structural)]
pub enum Type {
    Bool,
    U8,
    U16,
    U32,
    U64,
    S8,
    S16,
    S32,
    S64,
    F32,
    F64,
    Char,
    /// The interface-description `string` type.
    Str,
    ErrorContext,
    Id(usize),
}

pub struct Field {
    pub name: String,
    pub ty: Type,
}

pub struct Record {
    pub fields: Vec<Field>,
}

pub struct Enum {
    pub cases: Vec<String>,
}

pub struct VariantCase {
    pub name: String,
    pub ty: Option<Type>,
}

pub struct Variant {
    pub cases: Vec<VariantCase>,
}

/// The kind of a named type definition.
pub enum TypeDefKind {
    Record(Record),
    Enum(Enum),
    Variant(Variant),
    Flags,
    Tuple,
    OptionOf,
    ResultOf,
    List,
    FixedLengthList,
    MapOf,
    Future,
    Stream,
    Resource,
    Handle,
    /// An alias: a named definition that just denotes another type.
    Type(Type),
    Unknown,
}

pub struct TypeDef {
    pub name: Option<String>,
    pub kind: TypeDefKind,
}

pub struct Param {
    pub name: String,
    pub ty: Type,
}

pub struct Function {
    pub name: String,
    pub params: Vec<Param>,
    pub result: Option<Type>,
}

/// A named, optionally packaged bundle of functions and types; both lists
/// keep declaration order.
pub struct Interface {
    pub name: Option<String>,
    pub package: Option<usize>,
    pub functions: Vec<Function>,
    pub types: Vec<usize>,
}

pub struct PackageName {
    pub namespace: String,
    pub name: String,
    pub version: Option<String>,
}

pub struct Package {
    pub name: PackageName,
}

/// One entry of a world's import or export list.
pub enum WorldItem {
    Interface { id: usize },
    Type { id: usize },
    Function(Function),
}

pub struct World {
    pub name: String,
    pub imports: Vec<WorldItem>,
    pub exports: Vec<WorldItem>,
}

/// The arenas produced by the external resolver, mirrored as plain vectors.
pub struct Resolve {
    pub types: Vec<TypeDef>,
    pub interfaces: Vec<Interface>,
    pub packages: Vec<Package>,
    pub worlds: Vec<World>,
}

/// The text of an optional name, empty when absent.
pub open spec fn opt_name(o: Option<String>) -> Seq<char> {
    match o {
        Option::Some(n) => n@,
        Option::None => Seq::<char>::empty(),
    }
}

/// Two parameters carry the same name text and the same type reference.
pub open spec fn param_eq(a: Param, b: Param) -> bool {
    a.name@ == b.name@ && a.ty == b.ty
}

/// Two functions agree on name, parameters and result.
pub open spec fn function_eq(a: Function, b: Function) -> bool {
    &&& a.name@ == b.name@
    &&& a.params@.len() == b.params@.len()
    &&& forall|i: int| 0 <= i < a.params@.len() ==> param_eq(#[trigger] a.params@[i], b.params@[i])
    &&& a.result == b.result
}

impl Function {
    /// A structural copy; the view of every part is preserved.
    pub fn duplicate(&self) -> (r: Function)
        ensures
            function_eq(r, *self),
    {
        let mut params: Vec<Param> = Vec::new();
        let mut i: usize = 0;
        while i < self.params.len()
            invariant
                0 <= i <= self.params@.len(),
                params@.len() == i,
                forall|j: int| 0 <= j < i ==> param_eq(#[trigger] params@[j], self.params@[j]),
            decreases self.params@.len() - i,
        {
            let p = &self.params[i];
            params.push(Param { name: p.name.clone(), ty: p.ty });
            i = i + 1;
        }
        let result = match &self.result {
            Some(t) => Some(*t),
            None => None,
        };
        Function { name: self.name.clone(), params, result }
    }
}

impl Resolve {
    pub fn new() -> (r: Resolve)
        ensures
            r.types@.len() == 0,
            r.interfaces@.len() == 0,
            r.packages@.len() == 0,
            r.worlds@.len() == 0,
    {
        Resolve { types: Vec::new(), interfaces: Vec::new(), packages: Vec::new(), worlds: Vec::new() }
    }
}

} // verus!
