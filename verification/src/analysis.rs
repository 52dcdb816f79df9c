//! What the import analyzer computes, stated mathematically: relations
//! between the resolved world and the IR built from it, and the outcome
//! functions that say exactly which error, if any, the analysis reports.
//! Lists are scanned in declaration order and the first problem wins.

use vstd::prelude::*;

use crate::errors::{CodegenError, CollisionScope, NamedEntity, UnsupportedKind};
use crate::gotypes::GoTypeV;
use crate::ident::minted;
use crate::ir::{
    AnalyzedFunction, AnalyzedImports, AnalyzedInterface, AnalyzedType, InterfaceMethod, Parameter,
    TypeDefinition,
};
use crate::resolve::{full_fuel, spec_resolve_type};
use crate::wit::{
    function_eq, opt_name, Field, Function, Interface, Param, Resolve, Type, TypeDefKind,
    VariantCase, World, WorldItem,
};

verus! {

// ---------------------------------------------------------------------------
// Minted names
// ---------------------------------------------------------------------------
/// The raw name handed to the mint for an interface's Go interface type.
pub open spec fn iface_go_name_raw(world_name: Seq<char>, iface_name: Seq<char>) -> Seq<char> {
    "i-"@ + world_name + "-"@ + iface_name
}

pub open spec fn factory_raw(world_name: Seq<char>) -> Seq<char> {
    world_name + "-factory"@
}

pub open spec fn instance_raw(world_name: Seq<char>) -> Seq<char> {
    world_name + "-instance"@
}

pub open spec fn constructor_raw(world_name: Seq<char>) -> Seq<char> {
    "new-"@ + world_name + "-factory"@
}

/// The Wasm module name an import interface is registered under:
/// `namespace:package/interface` when packaged, else the bare name.
pub open spec fn module_name_text(r: Resolve, ifc: Interface) -> Seq<char> {
    match ifc.package {
        Option::Some(p) => r.packages@[p as int].name.namespace@ + ":"@
            + r.packages@[p as int].name.name@ + "/"@ + opt_name(ifc.name),
        Option::None => opt_name(ifc.name),
    }
}

// ---------------------------------------------------------------------------
// Resolution shorthands
// ---------------------------------------------------------------------------
/// Resolution of `t` with the canonical fuel.
pub open spec fn resolved(r: Resolve, t: Type) -> Result<GoTypeV, CodegenError> {
    spec_resolve_type(r, t, full_fuel(r))
}

/// The error resolving `t` yields, if any.
pub open spec fn resolve_err(r: Resolve, t: Type) -> Option<CodegenError> {
    match resolved(r, t) {
        Result::Ok(_) => Option::None,
        Result::Err(e) => Option::Some(e),
    }
}

// ---------------------------------------------------------------------------
// First-error outcomes, declaration order
// ---------------------------------------------------------------------------
/// The first resolution error among the parameters from index `i` on.
pub open spec fn params_err(r: Resolve, params: Seq<Param>, i: int) -> Option<CodegenError>
    decreases params.len() - i,
{
    if i < 0 || i >= params.len() {
        Option::None
    } else {
        match resolve_err(r, params[i].ty) {
            Option::Some(e) => Option::Some(e),
            Option::None => params_err(r, params, i + 1),
        }
    }
}

/// The minted private Go names of a function's parameters, in order.
pub open spec fn param_names(params: Seq<Param>) -> Seq<Seq<char>> {
    Seq::new(params.len(), |i: int| minted(params[i].name@, false))
}

/// The minted public Go names of an interface's methods, in order.
pub open spec fn method_names(fs: Seq<Function>) -> Seq<Seq<char>> {
    Seq::new(fs.len(), |i: int| minted(fs[i].name@, true))
}

/// The first error in a parameter list: resolution in declaration order,
/// then a collision among the minted parameter names.
pub open spec fn params_stage_err(r: Resolve, params: Seq<Param>) -> Option<CodegenError> {
    match params_err(r, params, 0) {
        Option::Some(e) => Option::Some(e),
        Option::None => first_coll(param_names(params), 1, CollisionScope::FunctionParams),
    }
}

/// The first error analyzing a function: the parameter stage, then the
/// result.
pub open spec fn func_err(r: Resolve, f: Function) -> Option<CodegenError> {
    match params_stage_err(r, f.params@) {
        Option::Some(e) => Option::Some(e),
        Option::None => match f.result {
            Option::Some(t) => resolve_err(r, t),
            Option::None => Option::None,
        },
    }
}

/// The first resolution error among record fields from index `i` on.
pub open spec fn fields_err(r: Resolve, fields: Seq<Field>, i: int) -> Option<CodegenError>
    decreases fields.len() - i,
{
    if i < 0 || i >= fields.len() {
        Option::None
    } else {
        match resolve_err(r, fields[i].ty) {
            Option::Some(e) => Option::Some(e),
            Option::None => fields_err(r, fields, i + 1),
        }
    }
}

/// The first resolution error among variant case payloads from index `i` on.
pub open spec fn vcases_err(r: Resolve, cases: Seq<VariantCase>, i: int) -> Option<CodegenError>
    decreases cases.len() - i,
{
    if i < 0 || i >= cases.len() {
        Option::None
    } else {
        let step = match cases[i].ty {
            Option::Some(t) => resolve_err(r, t),
            Option::None => Option::None,
        };
        match step {
            Option::Some(e) => Option::Some(e),
            Option::None => vcases_err(r, cases, i + 1),
        }
    }
}

/// A definition that is only a reference to another named type; it is
/// skipped by the analyzer instead of producing a self-referential alias.
pub open spec fn kind_skipped(kind: TypeDefKind) -> bool {
    kind matches TypeDefKind::Type(Type::Id(_))
}

/// The first error analyzing a type definition kind.
pub open spec fn kind_err(r: Resolve, kind: TypeDefKind) -> Option<CodegenError> {
    match kind {
        TypeDefKind::Record(rec) => fields_err(r, rec.fields@, 0),
        TypeDefKind::Enum(_) => Option::None,
        TypeDefKind::Variant(v) => vcases_err(r, v.cases@, 0),
        TypeDefKind::Type(t) => match t {
            Type::Id(_) => Option::None,
            Type::Char => Option::Some(
                CodegenError::UnsupportedTypeDef { kind: UnsupportedKind::Char },
            ),
            Type::ErrorContext => Option::Some(
                CodegenError::UnsupportedTypeDef { kind: UnsupportedKind::ErrorContext },
            ),
            _ => Option::None,
        },
        TypeDefKind::Flags => Option::Some(
            CodegenError::UnsupportedTypeDef { kind: UnsupportedKind::Flags },
        ),
        TypeDefKind::Tuple => Option::Some(
            CodegenError::UnsupportedTypeDef { kind: UnsupportedKind::Tuple },
        ),
        TypeDefKind::OptionOf => Option::Some(
            CodegenError::UnsupportedTypeDef { kind: UnsupportedKind::OptionOf },
        ),
        TypeDefKind::ResultOf => Option::Some(
            CodegenError::UnsupportedTypeDef { kind: UnsupportedKind::ResultOf },
        ),
        TypeDefKind::List => Option::Some(
            CodegenError::UnsupportedTypeDef { kind: UnsupportedKind::List },
        ),
        TypeDefKind::FixedLengthList => Option::Some(
            CodegenError::UnsupportedTypeDef { kind: UnsupportedKind::FixedLengthList },
        ),
        TypeDefKind::MapOf => Option::Some(
            CodegenError::UnsupportedTypeDef { kind: UnsupportedKind::MapOf },
        ),
        TypeDefKind::Future => Option::Some(
            CodegenError::UnsupportedTypeDef { kind: UnsupportedKind::Future },
        ),
        TypeDefKind::Stream => Option::Some(
            CodegenError::UnsupportedTypeDef { kind: UnsupportedKind::Stream },
        ),
        TypeDefKind::Resource => Option::Some(
            CodegenError::UnsupportedTypeDef { kind: UnsupportedKind::Resource },
        ),
        TypeDefKind::Handle => Option::Some(
            CodegenError::UnsupportedTypeDef { kind: UnsupportedKind::Handle },
        ),
        TypeDefKind::Unknown => Option::Some(CodegenError::ResolverInconsistency),
    }
}

/// The first error analyzing the named type `id`: a dangling id, a missing
/// name, then the definition itself.
pub open spec fn type_err(r: Resolve, id: usize) -> Option<CodegenError> {
    if id >= r.types@.len() {
        Option::Some(CodegenError::ResolverInconsistency)
    } else {
        let td = r.types@[id as int];
        if td.name is None {
            Option::Some(CodegenError::MissingName { entity: NamedEntity::TypeDef { id } })
        } else {
            kind_err(r, td.kind)
        }
    }
}

/// Whether the named type `id` contributes an analyzed type (it is in
/// range and not a skipped alias-of-named-type).
pub open spec fn type_kept(r: Resolve, id: usize) -> bool {
    id < r.types@.len() && !kind_skipped(r.types@[id as int].kind)
}

/// The first error among an interface's functions from index `i` on.
pub open spec fn funcs_err(r: Resolve, fs: Seq<Function>, i: int) -> Option<CodegenError>
    decreases fs.len() - i,
{
    if i < 0 || i >= fs.len() {
        Option::None
    } else {
        match func_err(r, fs[i]) {
            Option::Some(e) => Option::Some(e),
            Option::None => funcs_err(r, fs, i + 1),
        }
    }
}

/// The first error among an interface's named types from index `i` on.
pub open spec fn tids_err(r: Resolve, tids: Seq<usize>, i: int) -> Option<CodegenError>
    decreases tids.len() - i,
{
    if i < 0 || i >= tids.len() {
        Option::None
    } else {
        match type_err(r, tids[i]) {
            Option::Some(e) => Option::Some(e),
            Option::None => tids_err(r, tids, i + 1),
        }
    }
}

/// The first error analyzing the interface `id`: a dangling id, a missing
/// name, the methods, the types, then the package reference.
pub open spec fn iface_err(r: Resolve, id: usize) -> Option<CodegenError> {
    if id >= r.interfaces@.len() {
        Option::Some(CodegenError::ResolverInconsistency)
    } else {
        let ifc = r.interfaces@[id as int];
        if ifc.name is None {
            Option::Some(CodegenError::MissingName { entity: NamedEntity::Interface { id } })
        } else {
            match funcs_err(r, ifc.functions@, 0) {
                Option::Some(e) => Option::Some(e),
                Option::None => match first_coll(
                    method_names(ifc.functions@),
                    1,
                    CollisionScope::InterfaceMethods,
                ) {
                    Option::Some(e) => Option::Some(e),
                    Option::None => match tids_err(r, ifc.types@, 0) {
                        Option::Some(e) => Option::Some(e),
                        Option::None => match ifc.package {
                            Option::Some(p) => if p >= r.packages@.len() {
                                Option::Some(CodegenError::ResolverInconsistency)
                            } else {
                                Option::None
                            },
                            Option::None => Option::None,
                        },
                    },
                },
            }
        }
    }
}

/// The first error analyzing one world item.
pub open spec fn item_err(r: Resolve, item: WorldItem) -> Option<CodegenError> {
    match item {
        WorldItem::Interface { id } => iface_err(r, id),
        WorldItem::Type { id } => type_err(r, id),
        WorldItem::Function(f) => func_err(r, f),
    }
}

/// The first error among the world items from index `i` on.
pub open spec fn items_err(r: Resolve, items: Seq<WorldItem>, i: int) -> Option<CodegenError>
    decreases items.len() - i,
{
    if i < 0 || i >= items.len() {
        Option::None
    } else {
        match item_err(r, items[i]) {
            Option::Some(e) => Option::Some(e),
            Option::None => items_err(r, items, i + 1),
        }
    }
}

// ---------------------------------------------------------------------------
// Which items land in which IR list
// ---------------------------------------------------------------------------
/// The interface ids among the items, in order.
pub open spec fn iface_ids(items: Seq<WorldItem>) -> Seq<usize>
    decreases items.len(),
{
    if items.len() == 0 {
        Seq::<usize>::empty()
    } else {
        iface_ids(items.drop_last()) + (match items.last() {
            WorldItem::Interface { id } => seq![id],
            _ => Seq::<usize>::empty(),
        })
    }
}

/// The standalone type ids that are kept, in order.
pub open spec fn standalone_tids(r: Resolve, items: Seq<WorldItem>) -> Seq<usize>
    decreases items.len(),
{
    if items.len() == 0 {
        Seq::<usize>::empty()
    } else {
        standalone_tids(r, items.drop_last()) + (match items.last() {
            WorldItem::Type { id } => if type_kept(r, id) {
                seq![id]
            } else {
                Seq::<usize>::empty()
            },
            _ => Seq::<usize>::empty(),
        })
    }
}

/// The standalone functions among the items, in order.
pub open spec fn item_funcs(items: Seq<WorldItem>) -> Seq<Function>
    decreases items.len(),
{
    if items.len() == 0 {
        Seq::<Function>::empty()
    } else {
        item_funcs(items.drop_last()) + (match items.last() {
            WorldItem::Function(f) => seq![f],
            _ => Seq::<Function>::empty(),
        })
    }
}

/// The kept type ids of an interface's type list, in order.
pub open spec fn kept_tids(r: Resolve, tids: Seq<usize>) -> Seq<usize>
    decreases tids.len(),
{
    if tids.len() == 0 {
        Seq::<usize>::empty()
    } else {
        kept_tids(r, tids.drop_last()) + (if type_kept(r, tids.last()) {
            seq![tids.last()]
        } else {
            Seq::<usize>::empty()
        })
    }
}

// ---------------------------------------------------------------------------
// Output relations
// ---------------------------------------------------------------------------
/// The analyzed parameter mirrors the source parameter: private minted
/// name, resolved Go type, and the source type reference kept.
pub open spec fn param_ok(r: Resolve, p: Param, out: Parameter) -> bool {
    &&& out.name@ == minted(p.name@, false)
    &&& resolved(r, p.ty) == Result::<GoTypeV, CodegenError>::Ok(out.go_type@)
    &&& out.wit_type == p.ty
}

pub open spec fn params_ok(r: Resolve, ps: Seq<Param>, out: Seq<Parameter>) -> bool {
    &&& out.len() == ps.len()
    &&& forall|j: int| 0 <= j < ps.len() ==> param_ok(r, ps[j], #[trigger] out[j])
}

/// The analyzed method mirrors the source function, and carries a copy of
/// it for later signature computation.
pub open spec fn method_ok(r: Resolve, f: Function, out: InterfaceMethod) -> bool {
    &&& out.name@ == f.name@
    &&& out.go_method_name@ == minted(f.name@, true)
    &&& params_ok(r, f.params@, out.parameters@)
    &&& match f.result {
        Option::Some(t) => {
            &&& out.return_type is Some
            &&& out.return_type->0.wit_type == t
            &&& resolved(r, t) == Result::<GoTypeV, CodegenError>::Ok(out.return_type->0.go_type@)
        },
        Option::None => out.return_type is None,
    }
    &&& function_eq(out.wit_function, f)
}

/// The analyzed standalone function mirrors the source function.
pub open spec fn function_out_ok(r: Resolve, f: Function, out: AnalyzedFunction) -> bool {
    &&& out.name@ == f.name@
    &&& out.go_name@ == minted(f.name@, true)
    &&& params_ok(r, f.params@, out.parameters@)
    &&& match f.result {
        Option::Some(t) => {
            &&& out.return_type is Some
            &&& resolved(r, t) == Result::<GoTypeV, CodegenError>::Ok(out.return_type->0@)
        },
        Option::None => out.return_type is None,
    }
}

/// The Go type shape an alias over a primitive resolves to.
pub open spec fn alias_target_v(t: Type) -> GoTypeV {
    match t {
        Type::Bool => GoTypeV::Bool,
        Type::U8 => GoTypeV::Uint8,
        Type::U16 => GoTypeV::Uint16,
        Type::U32 => GoTypeV::Uint32,
        Type::U64 => GoTypeV::Uint64,
        Type::S8 => GoTypeV::Int8,
        Type::S16 => GoTypeV::Int16,
        Type::S32 => GoTypeV::Int32,
        Type::S64 => GoTypeV::Int64,
        Type::F32 => GoTypeV::Float32,
        Type::F64 => GoTypeV::Float64,
        Type::Str => GoTypeV::Str,
        _ => GoTypeV::Bool,
    }
}

/// The analyzed definition mirrors the source kind: records keep field
/// count and order with publicly minted field names, enums keep their case
/// names in order, variants keep names and resolved payloads, and an alias
/// over a primitive keeps that primitive as its target.
pub open spec fn typedef_ok(r: Resolve, kind: TypeDefKind, out: TypeDefinition) -> bool {
    match kind {
        TypeDefKind::Record(rec) => {
            &&& out matches TypeDefinition::Record { fields }
            &&& fields@.len() == rec.fields@.len()
            &&& forall|j: int|
                0 <= j < rec.fields@.len() ==> {
                    &&& (#[trigger] fields@[j]).0@ == minted(rec.fields@[j].name@, true)
                    &&& resolved(r, rec.fields@[j].ty) == Result::<GoTypeV, CodegenError>::Ok(
                        fields@[j].1@,
                    )
                }
        },
        TypeDefKind::Enum(e) => {
            &&& out matches TypeDefinition::Enum { cases }
            &&& cases@.len() == e.cases@.len()
            &&& forall|j: int| 0 <= j < e.cases@.len() ==> (#[trigger] cases@[j])@ == e.cases@[j]@
        },
        TypeDefKind::Variant(v) => {
            &&& out matches TypeDefinition::Variant { cases }
            &&& cases@.len() == v.cases@.len()
            &&& forall|j: int|
                0 <= j < v.cases@.len() ==> {
                    &&& (#[trigger] cases@[j]).0@ == v.cases@[j].name@
                    &&& match v.cases@[j].ty {
                        Option::Some(t) => {
                            &&& cases@[j].1 is Some
                            &&& resolved(r, t) == Result::<GoTypeV, CodegenError>::Ok(
                                cases@[j].1->0@,
                            )
                        },
                        Option::None => cases@[j].1 is None,
                    }
                }
        },
        TypeDefKind::Type(t) => match t {
            Type::Id(_) | Type::Char | Type::ErrorContext => false,
            _ => out matches TypeDefinition::Alias { target } && target@ == alias_target_v(t),
        },
        _ => false,
    }
}

/// The analyzed type mirrors the named type `id`.
pub open spec fn analyzed_type_ok(r: Resolve, id: usize, out: AnalyzedType) -> bool {
    &&& id < r.types@.len()
    &&& {
        let td = r.types@[id as int];
        &&& td.name is Some
        &&& out.name@ == opt_name(td.name)
        &&& out.go_type_name@ == minted(opt_name(td.name), true)
        &&& typedef_ok(r, td.kind, out.definition)
    }
}

/// The analyzed interface mirrors the interface `id` of the arena:
/// methods and kept types in declaration order, and the four derived names.
pub open spec fn interface_ok(
    r: Resolve,
    world_name: Seq<char>,
    id: usize,
    out: AnalyzedInterface,
) -> bool {
    &&& id < r.interfaces@.len()
    &&& {
        let ifc = r.interfaces@[id as int];
        &&& ifc.name is Some
        &&& out.name@ == opt_name(ifc.name)
        &&& out.methods@.len() == ifc.functions@.len()
        &&& forall|j: int|
            0 <= j < ifc.functions@.len() ==> method_ok(
                r,
                ifc.functions@[j],
                #[trigger] out.methods@[j],
            )
        &&& out.types@.len() == kept_tids(r, ifc.types@).len()
        &&& forall|j: int|
            0 <= j < out.types@.len() ==> analyzed_type_ok(
                r,
                kept_tids(r, ifc.types@)[j],
                #[trigger] out.types@[j],
            )
        &&& out.constructor_param_name@ == minted(opt_name(ifc.name), false)
        &&& out.go_interface_name@ == minted(
            iface_go_name_raw(world_name, opt_name(ifc.name)),
            true,
        )
        &&& out.wazero_module_name@ == module_name_text(r, ifc)
    }
}

/// The full IR mirrors the world: the three lists hold exactly the
/// interfaces, kept standalone types and standalone functions of the
/// import list, in declaration order, plus the minted factory triplet.
pub open spec fn analyze_ok(r: Resolve, w: World, out: AnalyzedImports) -> bool {
    &&& out.interfaces@.len() == iface_ids(w.imports@).len()
    &&& forall|j: int|
        0 <= j < out.interfaces@.len() ==> interface_ok(
            r,
            w.name@,
            iface_ids(w.imports@)[j],
            #[trigger] out.interfaces@[j],
        )
    &&& out.standalone_types@.len() == standalone_tids(r, w.imports@).len()
    &&& forall|j: int|
        0 <= j < out.standalone_types@.len() ==> analyzed_type_ok(
            r,
            standalone_tids(r, w.imports@)[j],
            #[trigger] out.standalone_types@[j],
        )
    &&& out.standalone_functions@.len() == item_funcs(w.imports@).len()
    &&& forall|j: int|
        0 <= j < out.standalone_functions@.len() ==> function_out_ok(
            r,
            item_funcs(w.imports@)[j],
            #[trigger] out.standalone_functions@[j],
        )
    &&& out.factory_name@ == minted(factory_raw(w.name@), true)
    &&& out.instance_name@ == minted(instance_raw(w.name@), true)
    &&& out.constructor_name@ == minted(constructor_raw(w.name@), true)
}

// ---------------------------------------------------------------------------
// Module-level name collisions
// ---------------------------------------------------------------------------
/// The module-level Go name a kept standalone or interface-owned type
/// contributes.
pub open spec fn type_names(r: Resolve, id: usize) -> Seq<Seq<char>> {
    if type_kept(r, id) {
        seq![minted(opt_name(r.types@[id as int].name), true)]
    } else {
        Seq::<Seq<char>>::empty()
    }
}

/// The names contributed by an interface's own kept types, in order.
pub open spec fn iface_type_names(r: Resolve, tids: Seq<usize>) -> Seq<Seq<char>> {
    Seq::new(
        kept_tids(r, tids).len(),
        |j: int| minted(opt_name(r.types@[kept_tids(r, tids)[j] as int].name), true),
    )
}

/// The module-level Go names one world item contributes: the Go interface
/// type name and its owned type names, a kept type's name, or a standalone
/// function's name.
pub open spec fn item_names(r: Resolve, world_name: Seq<char>, item: WorldItem) -> Seq<Seq<char>> {
    match item {
        WorldItem::Interface { id } => {
            if id < r.interfaces@.len() {
                seq![
                    minted(
                        iface_go_name_raw(world_name, opt_name(r.interfaces@[id as int].name)),
                        true,
                    ),
                ] + iface_type_names(r, r.interfaces@[id as int].types@)
            } else {
                Seq::<Seq<char>>::empty()
            }
        },
        WorldItem::Type { id } => type_names(r, id),
        WorldItem::Function(f) => seq![minted(f.name@, true)],
    }
}

/// The names contributed by the items, in order.
pub open spec fn items_names(r: Resolve, world_name: Seq<char>, items: Seq<WorldItem>) -> Seq<
    Seq<char>,
>
    decreases items.len(),
{
    if items.len() == 0 {
        Seq::<Seq<char>>::empty()
    } else {
        items_names(r, world_name, items.drop_last()) + item_names(r, world_name, items.last())
    }
}

/// Every module-level Go name the generated module declares, in order of
/// declaration, ending with the factory, instance and constructor names.
pub open spec fn module_names(r: Resolve, w: World) -> Seq<Seq<char>> {
    items_names(r, w.name@, w.imports@) + seq![
        minted(factory_raw(w.name@), true),
        minted(instance_raw(w.name@), true),
        minted(constructor_raw(w.name@), true),
    ]
}

/// The first index `i` in `[i0, j)` whose name equals `names[j]`.
pub open spec fn coll_at(names: Seq<Seq<char>>, j: int, i: int) -> Option<int>
    decreases j - i,
{
    if i < 0 || i >= j || j >= names.len() {
        Option::None
    } else if names[i] == names[j] {
        Option::Some(i)
    } else {
        coll_at(names, j, i + 1)
    }
}

/// The first collision with second index at least `j`, as the error it is
/// reported as: the scope and the two positions within it.
pub open spec fn first_coll(names: Seq<Seq<char>>, j: int, scope: CollisionScope) -> Option<
    CodegenError,
>
    decreases names.len() - j,
{
    if j < 0 || j >= names.len() {
        Option::None
    } else {
        match coll_at(names, j, 0) {
            Option::Some(i) => Option::Some(
                CodegenError::NameCollision { scope, first: i as usize, second: j as usize },
            ),
            Option::None => first_coll(names, j + 1, scope),
        }
    }
}

/// The outcome of the whole analysis: the first per-item error in
/// declaration order, else the first module-level name collision, else
/// success.
pub open spec fn analyze_outcome(r: Resolve, w: World) -> Option<CodegenError> {
    match items_err(r, w.imports@, 0) {
        Option::Some(e) => Option::Some(e),
        Option::None => first_coll(module_names(r, w), 1, CollisionScope::Module),
    }
}

/// Taking one more element splits off exactly the element at `i`.
pub proof fn lemma_take_step<A>(s: Seq<A>, i: int)
    requires
        0 <= i < s.len(),
    ensures
        s.take(i + 1).drop_last() =~= s.take(i),
        s.take(i + 1).last() == s[i],
{
}

} // verus!
