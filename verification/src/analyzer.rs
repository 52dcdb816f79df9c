//! The import analyzer: walks a world's import list in declaration order
//! and builds the IR, returning the first problem found instead of partial
//! output.

use vstd::prelude::*;

use crate::analysis::{
    analyze_ok, analyze_outcome, analyzed_type_ok, coll_at, fields_err, first_coll, func_err,
    funcs_err, function_out_ok, iface_err, iface_ids, iface_type_names, interface_ok, item_err,
    item_funcs, item_names, items_err, items_names, kept_tids, kind_err, kind_skipped,
    lemma_take_step, method_names, method_ok, module_names, param_names, param_ok, params_err,
    params_stage_err, resolve_err, resolved, standalone_tids, tids_err, type_err, type_kept,
    typedef_ok, vcases_err,
};
use crate::errors::{CodegenError, CollisionScope, NamedEntity, UnsupportedKind};
use crate::gotypes::GoType;
use crate::ident::GoIdentifier;
use crate::ir::{
    AnalyzedFunction, AnalyzedImports, AnalyzedInterface, AnalyzedType, InterfaceMethod, Parameter,
    TypeDefinition, WitReturn,
};
use crate::strutil::str_eq;
use crate::resolve::resolve_type;
use crate::wit::{Function, Resolve, Type, TypeDefKind, World, WorldItem};

verus! {

/// Analyzer for imports: only analysis, no code generation.
pub struct ImportAnalyzer<'a> {
    pub resolve: &'a Resolve,
    pub world: &'a World,
}

impl<'a> ImportAnalyzer<'a> {
    pub fn new(resolve: &'a Resolve, world: &'a World) -> (r: Self)
        ensures
            r.resolve == resolve,
            r.world == world,
    {
        ImportAnalyzer { resolve, world }
    }

    /// Builds the analyzed parameter list of `func`: the first resolution
    /// error in declaration order, then the first collision among the
    /// minted parameter names.
    #[verifier::loop_isolation(false)]
    fn analyze_params(&self, func: &Function) -> (res: Result<Vec<Parameter>, CodegenError>)
        ensures
            match res {
                Ok(ps) => {
                    &&& params_stage_err(*self.resolve, func.params@) is None
                    &&& ps@.len() == func.params@.len()
                    &&& forall|j: int|
                        0 <= j < func.params@.len() ==> param_ok(
                            *self.resolve,
                            func.params@[j],
                            #[trigger] ps@[j],
                        )
                },
                Err(e) => params_stage_err(*self.resolve, func.params@) == Some(e),
            },
    {
        let mut parameters: Vec<Parameter> = Vec::new();
        let mut i: usize = 0;
        while i < func.params.len()
            invariant
                0 <= i <= func.params@.len(),
                parameters@.len() == i,
                forall|j: int|
                    0 <= j < i ==> param_ok(*self.resolve, func.params@[j], #[trigger] parameters@[j]),
                params_err(*self.resolve, func.params@, 0) == params_err(
                    *self.resolve,
                    func.params@,
                    i as int,
                ),
            decreases func.params@.len() - i,
        {
            let p = &func.params[i];
            match resolve_type(&p.ty, self.resolve) {
                Ok(g) => {
                    parameters.push(
                        Parameter {
                            name: GoIdentifier::private(p.name.as_str()),
                            go_type: g,
                            wit_type: p.ty,
                        },
                    );
                },
                Err(e) => {
                    proof {
                        assert(resolve_err(*self.resolve, func.params@[i as int].ty) == Some(e));
                        assert(params_err(*self.resolve, func.params@, i as int) == Some(e));
                    }
                    return Err(e);
                },
            }
            i = i + 1;
        }
        let ghost pn = param_names(func.params@);
        let n = parameters.len();
        let mut jj: usize = 1;
        while jj < n
            invariant
                1 <= jj,
                first_coll(pn, 1, CollisionScope::FunctionParams) == first_coll(
                    pn,
                    jj as int,
                    CollisionScope::FunctionParams,
                ),
            decreases n - jj,
        {
            let mut ii: usize = 0;
            while ii < jj
                invariant
                    0 <= ii <= jj,
                    coll_at(pn, jj as int, 0) == coll_at(pn, jj as int, ii as int),
                decreases jj - ii,
            {
                if str_eq(parameters[ii].name.as_str(), parameters[jj].name.as_str()) {
                    proof {
                        assert(parameters@[ii as int].name@ == pn[ii as int]);
                        assert(parameters@[jj as int].name@ == pn[jj as int]);
                        assert(coll_at(pn, jj as int, ii as int) == Some(ii as int));
                        assert(first_coll(pn, jj as int, CollisionScope::FunctionParams) == Some(
                            CodegenError::NameCollision {
                                scope: CollisionScope::FunctionParams,
                                first: ii,
                                second: jj,
                            },
                        ));
                    }
                    return Err(
                        CodegenError::NameCollision {
                            scope: CollisionScope::FunctionParams,
                            first: ii,
                            second: jj,
                        },
                    );
                }
                ii = ii + 1;
            }
            proof {
                assert(coll_at(pn, jj as int, 0) is None);
                assert(first_coll(pn, jj as int, CollisionScope::FunctionParams) == first_coll(
                    pn,
                    jj as int + 1,
                    CollisionScope::FunctionParams,
                ));
            }
            jj = jj + 1;
        }
        proof {
            assert(first_coll(pn, 1, CollisionScope::FunctionParams) is None);
        }
        Ok(parameters)
    }

    /// Analyzes one interface method.
    fn analyze_interface_method(&self, func: &Function) -> (res: Result<
        InterfaceMethod,
        CodegenError,
    >)
        ensures
            match res {
                Ok(m) => {
                    &&& func_err(*self.resolve, *func) is None
                    &&& method_ok(*self.resolve, *func, m)
                },
                Err(e) => func_err(*self.resolve, *func) == Some(e),
            },
    {
        let parameters = match self.analyze_params(func) {
            Ok(ps) => ps,
            Err(e) => {
                return Err(e);
            },
        };
        let return_type = match func.result {
            Some(t) => match resolve_type(&t, self.resolve) {
                Ok(g) => Some(WitReturn { go_type: g, wit_type: t }),
                Err(e) => {
                    return Err(e);
                },
            },
            None => None,
        };
        Ok(
            InterfaceMethod {
                name: func.name.clone(),
                go_method_name: GoIdentifier::public(func.name.as_str()),
                parameters,
                return_type,
                wit_function: func.duplicate(),
            },
        )
    }

    /// Analyzes one standalone imported function.
    fn analyze_function(&self, func: &Function) -> (res: Result<AnalyzedFunction, CodegenError>)
        ensures
            match res {
                Ok(f) => {
                    &&& func_err(*self.resolve, *func) is None
                    &&& function_out_ok(*self.resolve, *func, f)
                },
                Err(e) => func_err(*self.resolve, *func) == Some(e),
            },
    {
        let parameters = match self.analyze_params(func) {
            Ok(ps) => ps,
            Err(e) => {
                return Err(e);
            },
        };
        let return_type = match func.result {
            Some(t) => match resolve_type(&t, self.resolve) {
                Ok(g) => Some(g),
                Err(e) => {
                    return Err(e);
                },
            },
            None => None,
        };
        Ok(
            AnalyzedFunction {
                name: func.name.clone(),
                go_name: GoIdentifier::public(func.name.as_str()),
                parameters,
                return_type,
            },
        )
    }

    /// Analyzes a type definition into its IR shape.
    ///
    /// Returns `Ok(None)` when the kind is an alias whose target is itself
    /// a named type: such a definition is a reference to a type analyzed at
    /// its own declaration, and emitting it would declare a self-referential
    /// alias.
    #[verifier::loop_isolation(false)]
    pub fn analyze_type_definition(&self, kind: &TypeDefKind) -> (res: Result<
        Option<TypeDefinition>,
        CodegenError,
    >)
        ensures
            match res {
                Ok(d) => {
                    &&& kind_err(*self.resolve, *kind) is None
                    &&& match d {
                        Some(d) => !kind_skipped(*kind) && typedef_ok(*self.resolve, *kind, d),
                        None => kind_skipped(*kind),
                    }
                },
                Err(e) => kind_err(*self.resolve, *kind) == Some(e),
            },
    {
        match kind {
            TypeDefKind::Record(rec) => {
                let mut fields: Vec<(GoIdentifier, GoType)> = Vec::new();
                let mut i: usize = 0;
                while i < rec.fields.len()
                    invariant
                        0 <= i <= rec.fields@.len(),
                        fields@.len() == i,
                        forall|j: int|
                            0 <= j < i ==> {
                                &&& (#[trigger] fields@[j]).0@ == crate::ident::minted(
                                    rec.fields@[j].name@,
                                    true,
                                )
                                &&& resolved(*self.resolve, rec.fields@[j].ty)
                                    == Result::<crate::gotypes::GoTypeV, CodegenError>::Ok(
                                    fields@[j].1@,
                                )
                            },
                        fields_err(*self.resolve, rec.fields@, 0) == fields_err(
                            *self.resolve,
                            rec.fields@,
                            i as int,
                        ),
                    decreases rec.fields@.len() - i,
                {
                    let f = &rec.fields[i];
                    match resolve_type(&f.ty, self.resolve) {
                        Ok(g) => {
                            fields.push((GoIdentifier::public(f.name.as_str()), g));
                        },
                        Err(e) => {
                            proof {
                                assert(resolve_err(*self.resolve, rec.fields@[i as int].ty)
                                    == Some(e));
                                assert(fields_err(*self.resolve, rec.fields@, i as int) == Some(
                                    e,
                                ));
                            }
                            return Err(e);
                        },
                    }
                    i = i + 1;
                }
                Ok(Some(TypeDefinition::Record { fields }))
            },
            TypeDefKind::Enum(e) => {
                let mut cases: Vec<String> = Vec::new();
                let mut i: usize = 0;
                while i < e.cases.len()
                    invariant
                        0 <= i <= e.cases@.len(),
                        cases@.len() == i,
                        forall|j: int| 0 <= j < i ==> (#[trigger] cases@[j])@ == e.cases@[j]@,
                    decreases e.cases@.len() - i,
                {
                    cases.push(e.cases[i].clone());
                    i = i + 1;
                }
                Ok(Some(TypeDefinition::Enum { cases }))
            },
            TypeDefKind::Variant(v) => {
                let mut cases: Vec<(String, Option<GoType>)> = Vec::new();
                let mut i: usize = 0;
                while i < v.cases.len()
                    invariant
                        0 <= i <= v.cases@.len(),
                        cases@.len() == i,
                        forall|j: int|
                            0 <= j < i ==> {
                                &&& (#[trigger] cases@[j]).0@ == v.cases@[j].name@
                                &&& match v.cases@[j].ty {
                                    Some(t) => {
                                        &&& cases@[j].1 is Some
                                        &&& resolved(*self.resolve, t)
                                            == Result::<crate::gotypes::GoTypeV, CodegenError>::Ok(
                                            cases@[j].1->0@,
                                        )
                                    },
                                    None => cases@[j].1 is None,
                                }
                            },
                        vcases_err(*self.resolve, v.cases@, 0) == vcases_err(
                            *self.resolve,
                            v.cases@,
                            i as int,
                        ),
                    decreases v.cases@.len() - i,
                {
                    let c = &v.cases[i];
                    let payload = match c.ty {
                        Some(t) => match resolve_type(&t, self.resolve) {
                            Ok(g) => Some(g),
                            Err(e) => {
                                proof {
                                    assert(resolve_err(*self.resolve, t) == Some(e));
                                    assert(vcases_err(*self.resolve, v.cases@, i as int) == Some(
                                        e,
                                    ));
                                }
                                return Err(e);
                            },
                        },
                        None => None,
                    };
                    cases.push((c.name.clone(), payload));
                    i = i + 1;
                }
                Ok(Some(TypeDefinition::Variant { cases }))
            },
            TypeDefKind::Type(t) => match t {
                Type::Id(_) => Ok(None),
                Type::Char => Err(CodegenError::UnsupportedTypeDef { kind: UnsupportedKind::Char }),
                Type::ErrorContext => Err(
                    CodegenError::UnsupportedTypeDef { kind: UnsupportedKind::ErrorContext },
                ),
                Type::Bool => Ok(Some(TypeDefinition::Alias { target: GoType::Bool })),
                Type::U8 => Ok(Some(TypeDefinition::Alias { target: GoType::Uint8 })),
                Type::U16 => Ok(Some(TypeDefinition::Alias { target: GoType::Uint16 })),
                Type::U32 => Ok(Some(TypeDefinition::Alias { target: GoType::Uint32 })),
                Type::U64 => Ok(Some(TypeDefinition::Alias { target: GoType::Uint64 })),
                Type::S8 => Ok(Some(TypeDefinition::Alias { target: GoType::Int8 })),
                Type::S16 => Ok(Some(TypeDefinition::Alias { target: GoType::Int16 })),
                Type::S32 => Ok(Some(TypeDefinition::Alias { target: GoType::Int32 })),
                Type::S64 => Ok(Some(TypeDefinition::Alias { target: GoType::Int64 })),
                Type::F32 => Ok(Some(TypeDefinition::Alias { target: GoType::Float32 })),
                Type::F64 => Ok(Some(TypeDefinition::Alias { target: GoType::Float64 })),
                Type::Str => Ok(Some(TypeDefinition::Alias { target: GoType::Str })),
            },
            TypeDefKind::Flags => Err(
                CodegenError::UnsupportedTypeDef { kind: UnsupportedKind::Flags },
            ),
            TypeDefKind::Tuple => Err(
                CodegenError::UnsupportedTypeDef { kind: UnsupportedKind::Tuple },
            ),
            TypeDefKind::OptionOf => Err(
                CodegenError::UnsupportedTypeDef { kind: UnsupportedKind::OptionOf },
            ),
            TypeDefKind::ResultOf => Err(
                CodegenError::UnsupportedTypeDef { kind: UnsupportedKind::ResultOf },
            ),
            TypeDefKind::List => Err(
                CodegenError::UnsupportedTypeDef { kind: UnsupportedKind::List },
            ),
            TypeDefKind::FixedLengthList => Err(
                CodegenError::UnsupportedTypeDef { kind: UnsupportedKind::FixedLengthList },
            ),
            TypeDefKind::MapOf => Err(
                CodegenError::UnsupportedTypeDef { kind: UnsupportedKind::MapOf },
            ),
            TypeDefKind::Future => Err(
                CodegenError::UnsupportedTypeDef { kind: UnsupportedKind::Future },
            ),
            TypeDefKind::Stream => Err(
                CodegenError::UnsupportedTypeDef { kind: UnsupportedKind::Stream },
            ),
            TypeDefKind::Resource => Err(
                CodegenError::UnsupportedTypeDef { kind: UnsupportedKind::Resource },
            ),
            TypeDefKind::Handle => Err(
                CodegenError::UnsupportedTypeDef { kind: UnsupportedKind::Handle },
            ),
            TypeDefKind::Unknown => Err(CodegenError::ResolverInconsistency),
        }
    }

    /// Analyzes the named type `type_id`; `Ok(None)` means the definition
    /// is skipped (see `analyze_type_definition`).
    fn analyze_type(&self, type_id: usize) -> (res: Result<Option<AnalyzedType>, CodegenError>)
        ensures
            match res {
                Ok(d) => {
                    &&& type_err(*self.resolve, type_id) is None
                    &&& match d {
                        Some(t) => type_kept(*self.resolve, type_id) && analyzed_type_ok(
                            *self.resolve,
                            type_id,
                            t,
                        ),
                        None => !type_kept(*self.resolve, type_id),
                    }
                },
                Err(e) => type_err(*self.resolve, type_id) == Some(e),
            },
    {
        if type_id >= self.resolve.types.len() {
            return Err(CodegenError::ResolverInconsistency);
        }
        let td = &self.resolve.types[type_id];
        let td_name = match &td.name {
            Some(n) => n,
            None => {
                return Err(CodegenError::MissingName { entity: NamedEntity::TypeDef { id: type_id } });
            },
        };
        match self.analyze_type_definition(&td.kind) {
            Err(e) => Err(e),
            Ok(None) => Ok(None),
            Ok(Some(definition)) => Ok(
                Some(
                    AnalyzedType {
                        name: td_name.clone(),
                        go_type_name: GoIdentifier::public(td_name.as_str()),
                        definition,
                    },
                ),
            ),
        }
    }

    /// Analyzes the interface `interface_id`: its methods (whose minted Go
    /// names must be pairwise distinct), its kept types, and the four names
    /// derived from the interface and world names.
    #[verifier::loop_isolation(false)]
    fn analyze_interface(&self, interface_id: usize) -> (res: Result<
        AnalyzedInterface,
        CodegenError,
    >)
        ensures
            match res {
                Ok(ai) => {
                    &&& iface_err(*self.resolve, interface_id) is None
                    &&& interface_ok(*self.resolve, self.world.name@, interface_id, ai)
                },
                Err(e) => iface_err(*self.resolve, interface_id) == Some(e),
            },
    {
        let r = self.resolve;
        if interface_id >= r.interfaces.len() {
            return Err(CodegenError::ResolverInconsistency);
        }
        let ifc = &r.interfaces[interface_id];
        let iface_name = match &ifc.name {
            Some(n) => n,
            None => {
                return Err(
                    CodegenError::MissingName { entity: NamedEntity::Interface { id: interface_id } },
                );
            },
        };
        let mut methods: Vec<InterfaceMethod> = Vec::new();
        let mut i: usize = 0;
        while i < ifc.functions.len()
            invariant
                0 <= i <= ifc.functions@.len(),
                methods@.len() == i,
                forall|j: int|
                    0 <= j < i ==> method_ok(*r, ifc.functions@[j], #[trigger] methods@[j]),
                funcs_err(*r, ifc.functions@, 0) == funcs_err(*r, ifc.functions@, i as int),
            decreases ifc.functions@.len() - i,
        {
            let f = &ifc.functions[i];
            match self.analyze_interface_method(f) {
                Ok(m) => {
                    methods.push(m);
                },
                Err(e) => {
                    proof {
                        assert(funcs_err(*r, ifc.functions@, i as int) == Some(e));
                    }
                    return Err(e);
                },
            }
            i = i + 1;
        }
        let ghost mnames = method_names(ifc.functions@);
        let mcount = methods.len();
        let mut jj: usize = 1;
        while jj < mcount
            invariant
                1 <= jj,
                first_coll(mnames, 1, CollisionScope::InterfaceMethods) == first_coll(
                    mnames,
                    jj as int,
                    CollisionScope::InterfaceMethods,
                ),
            decreases mcount - jj,
        {
            let mut ii: usize = 0;
            while ii < jj
                invariant
                    0 <= ii <= jj,
                    coll_at(mnames, jj as int, 0) == coll_at(mnames, jj as int, ii as int),
                decreases jj - ii,
            {
                if str_eq(methods[ii].go_method_name.as_str(), methods[jj].go_method_name.as_str())
                {
                    proof {
                        assert(methods@[ii as int].go_method_name@ == mnames[ii as int]);
                        assert(methods@[jj as int].go_method_name@ == mnames[jj as int]);
                        assert(coll_at(mnames, jj as int, ii as int) == Some(ii as int));
                        assert(first_coll(mnames, jj as int, CollisionScope::InterfaceMethods)
                            == Some(
                            CodegenError::NameCollision {
                                scope: CollisionScope::InterfaceMethods,
                                first: ii,
                                second: jj,
                            },
                        ));
                    }
                    return Err(
                        CodegenError::NameCollision {
                            scope: CollisionScope::InterfaceMethods,
                            first: ii,
                            second: jj,
                        },
                    );
                }
                ii = ii + 1;
            }
            proof {
                assert(coll_at(mnames, jj as int, 0) is None);
                assert(first_coll(mnames, jj as int, CollisionScope::InterfaceMethods)
                    == first_coll(mnames, jj as int + 1, CollisionScope::InterfaceMethods));
            }
            jj = jj + 1;
        }
        proof {
            assert(first_coll(mnames, 1, CollisionScope::InterfaceMethods) is None);
        }
        let mut types: Vec<AnalyzedType> = Vec::new();
        let mut k: usize = 0;
        while k < ifc.types.len()
            invariant
                0 <= k <= ifc.types@.len(),
                types@.len() == kept_tids(*r, ifc.types@.take(k as int)).len(),
                forall|j: int|
                    0 <= j < types@.len() ==> analyzed_type_ok(
                        *r,
                        kept_tids(*r, ifc.types@.take(k as int))[j],
                        #[trigger] types@[j],
                    ),
                tids_err(*r, ifc.types@, 0) == tids_err(*r, ifc.types@, k as int),
            decreases ifc.types@.len() - k,
        {
            let tid = ifc.types[k];
            proof {
                lemma_take_step(ifc.types@, k as int);
            }
            match self.analyze_type(tid) {
                Ok(Some(t)) => {
                    types.push(t);
                },
                Ok(None) => {
                },
                Err(e) => {
                    proof {
                        assert(tids_err(*r, ifc.types@, k as int) == Some(e));
                    }
                    return Err(e);
                },
            }
            proof {
                assert(kept_tids(*r, ifc.types@.take(k as int + 1)) == kept_tids(
                    *r,
                    ifc.types@.take(k as int),
                ) + (if type_kept(*r, ifc.types@[k as int]) {
                    seq![ifc.types@[k as int]]
                } else {
                    Seq::<usize>::empty()
                }));
            }
            k = k + 1;
        }
        proof {
            assert(ifc.types@.take(ifc.types@.len() as int) =~= ifc.types@);
        }
        let wazero_module_name = match ifc.package {
            Some(pid) => {
                if pid >= r.packages.len() {
                    return Err(CodegenError::ResolverInconsistency);
                }
                let pkg = &r.packages[pid];
                let mut s = String::new();
                s.append(pkg.name.namespace.as_str());
                s.append(":");
                s.append(pkg.name.name.as_str());
                s.append("/");
                s.append(iface_name.as_str());
                s
            },
            None => iface_name.clone(),
        };
        let mut raw = String::new();
        raw.append("i-");
        raw.append(self.world.name.as_str());
        raw.append("-");
        raw.append(iface_name.as_str());
        let go_interface_name = GoIdentifier::public(raw.as_str());
        let constructor_param_name = GoIdentifier::private(iface_name.as_str());
        Ok(
            AnalyzedInterface {
                name: iface_name.clone(),
                methods,
                types,
                constructor_param_name,
                go_interface_name,
                wazero_module_name,
            },
        )
    }

    /// Walks the world's import list in declaration order and builds the
    /// full IR, then checks the module-level Go names for collisions;
    /// collisions among one function's parameter names and among one
    /// interface's method names are reported while that item is analyzed.
    #[verifier::loop_isolation(false)]
    pub fn analyze(&self) -> (res: Result<AnalyzedImports, CodegenError>)
        ensures
            match res {
                Ok(a) => {
                    &&& analyze_outcome(*self.resolve, *self.world) is None
                    &&& analyze_ok(*self.resolve, *self.world, a)
                },
                Err(e) => analyze_outcome(*self.resolve, *self.world) == Some(e),
            },
    {
        let r = self.resolve;
        let w = self.world;
        let ghost items = w.imports@;
        let ghost wname = w.name@;
        let mut interfaces: Vec<AnalyzedInterface> = Vec::new();
        let mut standalone_types: Vec<AnalyzedType> = Vec::new();
        let mut standalone_functions: Vec<AnalyzedFunction> = Vec::new();
        let mut names: Vec<GoIdentifier> = Vec::new();
        let mut i: usize = 0;
        while i < w.imports.len()
            invariant
                0 <= i <= items.len(),
                items_err(*r, items, 0) == items_err(*r, items, i as int),
                interfaces@.len() == iface_ids(items.take(i as int)).len(),
                forall|j: int|
                    0 <= j < interfaces@.len() ==> interface_ok(
                        *r,
                        wname,
                        iface_ids(items.take(i as int))[j],
                        #[trigger] interfaces@[j],
                    ),
                standalone_types@.len() == standalone_tids(*r, items.take(i as int)).len(),
                forall|j: int|
                    0 <= j < standalone_types@.len() ==> analyzed_type_ok(
                        *r,
                        standalone_tids(*r, items.take(i as int))[j],
                        #[trigger] standalone_types@[j],
                    ),
                standalone_functions@.len() == item_funcs(items.take(i as int)).len(),
                forall|j: int|
                    0 <= j < standalone_functions@.len() ==> function_out_ok(
                        *r,
                        item_funcs(items.take(i as int))[j],
                        #[trigger] standalone_functions@[j],
                    ),
                names@.len() == items_names(*r, wname, items.take(i as int)).len(),
                forall|j: int|
                    0 <= j < names@.len() ==> (#[trigger] names@[j])@ == items_names(
                        *r,
                        wname,
                        items.take(i as int),
                    )[j],
            decreases items.len() - i,
        {
            proof {
                lemma_take_step(items, i as int);
            }
            let ghost prev_names = names@;
            match &w.imports[i] {
                WorldItem::Interface { id } => {
                    match self.analyze_interface(*id) {
                        Ok(ai) => {
                            names.push(ai.go_interface_name.duplicate());
                            push_type_names(&mut names, &ai.types);
                            proof {
                                let added = item_names(*r, wname, items[i as int]);
                                assert(names@.len() == prev_names.len() + added.len());
                                assert forall|j: int| 0 <= j < names@.len() implies (
                                #[trigger] names@[j])@ == items_names(
                                    *r,
                                    wname,
                                    items.take(i as int + 1),
                                )[j] by {
                                    if j < prev_names.len() {
                                        assert(names@[j] == prev_names[j]);
                                    } else if j == prev_names.len() {
                                        assert(names@[j]@ == added[0]);
                                    } else {
                                        let idx = j - prev_names.len() - 1;
                                        assert(names@[prev_names.len() + 1 + idx]@
                                            == ai.types@[idx].go_type_name@);
                                        assert(names@[j]@ == ai.types@[idx].go_type_name@);
                                        assert(added[j - prev_names.len()] == iface_type_names(
                                            *r,
                                            r.interfaces@[items[i as int]->Interface_id as int].types@,
                                        )[idx]);
                                    }
                                }
                            }
                            interfaces.push(ai);
                        },
                        Err(e) => {
                            proof {
                                assert(item_err(*r, items[i as int]) == Some(e));
                                assert(items_err(*r, items, i as int) == Some(e));
                            }
                            return Err(e);
                        },
                    }
                },
                WorldItem::Type { id } => {
                    match self.analyze_type(*id) {
                        Ok(Some(t)) => {
                            names.push(t.go_type_name.duplicate());
                            standalone_types.push(t);
                        },
                        Ok(None) => {
                        },
                        Err(e) => {
                            proof {
                                assert(item_err(*r, items[i as int]) == Some(e));
                                assert(items_err(*r, items, i as int) == Some(e));
                            }
                            return Err(e);
                        },
                    }
                },
                WorldItem::Function(f) => {
                    match self.analyze_function(f) {
                        Ok(af) => {
                            names.push(af.go_name.duplicate());
                            standalone_functions.push(af);
                        },
                        Err(e) => {
                            proof {
                                assert(item_err(*r, items[i as int]) == Some(e));
                                assert(items_err(*r, items, i as int) == Some(e));
                            }
                            return Err(e);
                        },
                    }
                },
            }
            i = i + 1;
        }
        proof {
            assert(items.take(items.len() as int) =~= items);
        }
        let mut fraw = String::new();
        fraw.append(w.name.as_str());
        fraw.append("-factory");
        let factory_name = GoIdentifier::public(fraw.as_str());
        let mut iraw = String::new();
        iraw.append(w.name.as_str());
        iraw.append("-instance");
        let instance_name = GoIdentifier::public(iraw.as_str());
        let mut craw = String::new();
        craw.append("new-");
        craw.append(w.name.as_str());
        craw.append("-factory");
        let constructor_name = GoIdentifier::public(craw.as_str());
        names.push(factory_name.duplicate());
        names.push(instance_name.duplicate());
        names.push(constructor_name.duplicate());
        let ghost mn = module_names(*r, *w);
        proof {
            assert(names@.len() == mn.len());
            assert forall|j: int| 0 <= j < names@.len() implies (#[trigger] names@[j])@ == mn[j]
            by {
                let base = items_names(*r, wname, items).len();
                if j < base {
                    assert(names@[j]@ == items_names(*r, wname, items)[j]);
                }
            }
        }
        let n = names.len();
        let mut jj: usize = 1;
        while jj < n
            invariant
                1 <= jj <= n,
                first_coll(mn, 1, CollisionScope::Module) == first_coll(
                    mn,
                    jj as int,
                    CollisionScope::Module,
                ),
            decreases n - jj,
        {
            let mut ii: usize = 0;
            while ii < jj
                invariant
                    0 <= ii <= jj,
                    coll_at(mn, jj as int, 0) == coll_at(mn, jj as int, ii as int),
                decreases jj - ii,
            {
                if str_eq(names[ii].as_str(), names[jj].as_str()) {
                    proof {
                        assert(mn[ii as int] == mn[jj as int]);
                        assert(coll_at(mn, jj as int, ii as int) == Some(ii as int));
                        assert(first_coll(mn, jj as int, CollisionScope::Module) == Some(
                            CodegenError::NameCollision {
                                scope: CollisionScope::Module,
                                first: ii,
                                second: jj,
                            },
                        ));
                    }
                    return Err(
                        CodegenError::NameCollision {
                            scope: CollisionScope::Module,
                            first: ii,
                            second: jj,
                        },
                    );
                }
                ii = ii + 1;
            }
            proof {
                assert(coll_at(mn, jj as int, 0) == Option::<int>::None);
                assert(first_coll(mn, jj as int, CollisionScope::Module) == first_coll(
                    mn,
                    jj as int + 1,
                    CollisionScope::Module,
                ));
            }
            jj = jj + 1;
        }
        proof {
            assert(first_coll(mn, 1, CollisionScope::Module) == Option::<CodegenError>::None);
        }
        Ok(
            AnalyzedImports {
                interfaces,
                standalone_types,
                standalone_functions,
                factory_name,
                instance_name,
                constructor_name,
            },
        )
    }
}

/// Appends the module-level Go type names of `types` to `names`.
fn push_type_names(names: &mut Vec<GoIdentifier>, types: &Vec<AnalyzedType>)
    ensures
        final(names)@.len() == old(names)@.len() + types@.len(),
        forall|j: int| 0 <= j < old(names)@.len() ==> final(names)@[j] == old(names)@[j],
        forall|j: int|
            0 <= j < types@.len() ==> (#[trigger] final(names)@[old(names)@.len() + j])@
                == types@[j].go_type_name@,
{
    let mut t: usize = 0;
    while t < types.len()
        invariant
            0 <= t <= types@.len(),
            names@.len() == old(names)@.len() + t,
            forall|j: int| 0 <= j < old(names)@.len() ==> names@[j] == old(names)@[j],
            forall|j: int|
                0 <= j < t ==> (#[trigger] names@[old(names)@.len() + j])@
                    == types@[j].go_type_name@,
        decreases types@.len() - t,
    {
        let id = types[t].go_type_name.duplicate();
        names.push(id);
        t = t + 1;
    }
}

} // verus!
