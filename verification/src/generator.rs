//! The import code generator: renders the analyzed IR as Go source — type
//! and interface declarations, and one host-module registration chain per
//! imported interface, whose closures lift Wasm arguments, dispatch into
//! the native implementation, and lower the result.

use vstd::prelude::*;

use crate::abi::{sig_of, spec_wasm_signature, wasm_signature};
use crate::emit::{
    body_text, builder_text, builders_text, call_args_text, call_expr_text, chain_text,
    chains_err, closure_params_text, decls_text, enum_cases_text, interface_type_text,
    interfaces_text, lift_expr_text, lift_stmt_text, lift_stmts_text, lift_width, lower_text,
    method_result_text, method_sig_text, methods_text, msig_err, params_sig_text,
    record_fields_text, result_sig_text, type_def_text, types_text,
};
use crate::errors::CodegenError;
use crate::gotypes::{push_go_result, push_go_type, resolve_wasm_type, GoResult, GoType, WasmType};
use crate::ident::GoIdentifier;
use crate::ir::{
    AnalyzedImports, AnalyzedInterface, AnalyzedType, InterfaceMethod, Parameter, TypeDefinition,
    WitReturn,
};
use crate::strutil::{push_dec, push_dec_wide, spec_dec};
use crate::wit::Resolve;

verus! {

/// One registration chain: the Wasm module name it is keyed by, and the Go
/// statements that build and instantiate the host module.
pub struct ImportChain {
    pub module_name: String,
    pub code: String,
}

/// Code generator for imports: takes analysis results and renders Go text.
pub struct ImportCodeGenerator<'a> {
    pub resolve: &'a Resolve,
    pub analyzed: &'a AnalyzedImports,
}

fn push_record_fields(out: &mut String, fields: &Vec<(GoIdentifier, GoType)>)
    ensures
        final(out)@ == old(out)@ + record_fields_text(fields@, 0),
{
    let ghost start = out@;
    let mut i: usize = 0;
    while i < fields.len()
        invariant
            0 <= i <= fields@.len(),
            start + record_fields_text(fields@, 0) == out@ + record_fields_text(
                fields@,
                i as int,
            ),
        decreases fields@.len() - i,
    {
        let ghost before = out@;
        let f = &fields[i];
        out.append("\t");
        out.append(f.0.as_str());
        out.append(" ");
        push_go_type(out, &f.1);
        out.append("\n");
        proof {
            assert(out@ =~= before + record_field_line(fields@, i as int));
            assert(start + record_fields_text(fields@, 0) =~= out@ + record_fields_text(
                fields@,
                i as int + 1,
            ));
        }
        i = i + 1;
    }
    proof {
        assert(final(out)@ =~= start + record_fields_text(fields@, 0));
    }
}

/// The single struct-field line at index `i`.
spec fn record_field_line(fields: Seq<(GoIdentifier, GoType)>, i: int) -> Seq<char> {
    "\t"@ + fields[i].0@ + " "@ + crate::gotypes::go_type_v_text(fields[i].1@) + "\n"@
}

fn push_enum_cases(out: &mut String, cases: &Vec<String>, tname: &GoIdentifier)
    ensures
        final(out)@ == old(out)@ + enum_cases_text(cases@, tname@, 0),
{
    let ghost start = out@;
    let mut i: usize = 0;
    while i < cases.len()
        invariant
            0 <= i <= cases@.len(),
            start + enum_cases_text(cases@, tname@, 0) == out@ + enum_cases_text(
                cases@,
                tname@,
                i as int,
            ),
        decreases cases@.len() - i,
    {
        let ghost before = out@;
        let case_name = GoIdentifier::public(cases[i].as_str());
        out.append("\t");
        out.append(case_name.as_str());
        out.append(" ");
        out.append(tname.as_str());
        out.append(" = ");
        push_dec(out, i);
        out.append("\n");
        proof {
            assert(out@ =~= before + ("\t"@ + crate::ident::minted(cases@[i as int]@, true) + " "@
                + tname@ + " = "@ + spec_dec(i as int) + "\n"@));
            assert(start + enum_cases_text(cases@, tname@, 0) =~= out@ + enum_cases_text(
                cases@,
                tname@,
                i as int + 1,
            ));
        }
        i = i + 1;
    }
    proof {
        assert(final(out)@ =~= start + enum_cases_text(cases@, tname@, 0));
    }
}

/// Appends the declarations of `ts`, in order.
fn push_types_list(out: &mut String, ts: &Vec<AnalyzedType>)
    ensures
        final(out)@ == old(out)@ + types_text(ts@, 0),
{
    let ghost start = out@;
    let mut i: usize = 0;
    while i < ts.len()
        invariant
            0 <= i <= ts@.len(),
            start + types_text(ts@, 0) == out@ + types_text(ts@, i as int),
        decreases ts@.len() - i,
    {
        let ghost before = out@;
        push_type_definition(out, &ts[i]);
        proof {
            assert(start + types_text(ts@, 0) =~= out@ + types_text(ts@, i as int + 1));
        }
        i = i + 1;
    }
    proof {
        assert(final(out)@ =~= start + types_text(ts@, 0));
    }
}

/// Appends the declaration of one analyzed type.
fn push_type_definition(out: &mut String, typ: &AnalyzedType)
    ensures
        final(out)@ == old(out)@ + type_def_text(*typ),
{
    let ghost start = out@;
    match &typ.definition {
        TypeDefinition::Record { fields } => {
            out.append("\ntype ");
            out.append(typ.go_type_name.as_str());
            out.append(" struct {\n");
            push_record_fields(out, fields);
            out.append("}\n");
            proof {
                assert(out@ =~= start + type_def_text(*typ));
            }
        },
        TypeDefinition::Enum { cases } => {
            out.append("\ntype ");
            out.append(typ.go_type_name.as_str());
            out.append(" uint32\n\nconst (\n");
            push_enum_cases(out, cases, &typ.go_type_name);
            out.append(")\n");
            proof {
                assert(out@ =~= start + type_def_text(*typ));
            }
        },
        TypeDefinition::Alias { target } => {
            out.append("\ntype ");
            out.append(typ.go_type_name.as_str());
            out.append(" = ");
            push_go_type(out, target);
            out.append("\n");
            proof {
                assert(out@ =~= start + type_def_text(*typ));
            }
        },
        TypeDefinition::Primitive => {
            out.append("\n// Primitive type: ");
            out.append(typ.name.as_str());
            out.append("\n");
            proof {
                assert(out@ =~= start + type_def_text(*typ));
            }
        },
        TypeDefinition::Variant { cases: _ } => {
            out.append("\n// Variant type: ");
            out.append(typ.name.as_str());
            out.append(" (not implemented)\n");
            proof {
                assert(out@ =~= start + type_def_text(*typ));
            }
        },
    }
}

impl<'a> ImportCodeGenerator<'a> {
    /// Creates a generator over the given arenas and analysis results.
    pub fn new(resolve: &'a Resolve, analyzed: &'a AnalyzedImports) -> (r: Self)
        ensures
            r.resolve == resolve,
            r.analyzed == analyzed,
    {
        ImportCodeGenerator { resolve, analyzed }
    }

    /// Renders one method signature as it appears inside the Go interface
    /// declaration.
    pub fn generate_method_signature(&self, method: &InterfaceMethod) -> (s: String)
        ensures
            s@ == method_sig_text(*method),
    {
        let mut s = String::new();
        s.append(method.go_method_name.as_str());
        s.append("(\n\t\tctx context.Context,\n");
        let ghost start = s@;
        let mut i: usize = 0;
        while i < method.parameters.len()
            invariant
                0 <= i <= method.parameters@.len(),
                start + params_sig_text(method.parameters@, 0) == s@ + params_sig_text(
                    method.parameters@,
                    i as int,
                ),
            decreases method.parameters@.len() - i,
        {
            let ghost before = s@;
            let p = &method.parameters[i];
            s.append("\t\t");
            s.append(p.name.as_str());
            s.append(" ");
            push_go_type(&mut s, &p.go_type);
            s.append(",\n");
            proof {
                assert(start + params_sig_text(method.parameters@, 0) =~= s@ + params_sig_text(
                    method.parameters@,
                    i as int + 1,
                ));
            }
            i = i + 1;
        }
        s.append("\t)");
        let result = match &method.return_type {
            Some(rt) => GoResult::Anon(rt.go_type.duplicate()),
            None => GoResult::Empty,
        };
        push_go_result(&mut s, &result);
        proof {
            assert(crate::gotypes::go_result_text(result) =~= method_result_text(
                method.return_type,
            ));
            assert(s@ =~= method_sig_text(*method));
        }
        s
    }

    /// Appends the Go interface type declared for one imported interface.
    pub fn generate_interface_type(&self, interface: &AnalyzedInterface, out: &mut String)
        ensures
            final(out)@ == old(out)@ + interface_type_text(*interface),
    {
        let ghost start0 = out@;
        out.append("\ntype ");
        out.append(interface.go_interface_name.as_str());
        out.append(" interface {\n");
        let ghost start = out@;
        let mut i: usize = 0;
        while i < interface.methods.len()
            invariant
                0 <= i <= interface.methods@.len(),
                start + methods_text(interface.methods@, 0) == out@ + methods_text(
                    interface.methods@,
                    i as int,
                ),
            decreases interface.methods@.len() - i,
        {
            let sig = self.generate_method_signature(&interface.methods[i]);
            out.append("\t");
            out.append(sig.as_str());
            out.append("\n");
            proof {
                assert(start + methods_text(interface.methods@, 0) =~= out@ + methods_text(
                    interface.methods@,
                    i as int + 1,
                ));
            }
            i = i + 1;
        }
        out.append("}\n");
        proof {
            assert(out@ =~= start0 + interface_type_text(*interface));
        }
    }

    /// Appends the declaration of one analyzed type.
    pub fn generate_type_definition(&self, typ: &AnalyzedType, out: &mut String)
        ensures
            final(out)@ == old(out)@ + type_def_text(*typ),
    {
        push_type_definition(out, typ);
    }

    /// Appends every declaration of the analyzed imports: each interface
    /// type followed by its owned types, then the standalone types.
    pub fn format_into(&self, out: &mut String)
        ensures
            final(out)@ == old(out)@ + decls_text(*self.analyzed),
    {
        let ghost start = out@;
        let ifcs = &self.analyzed.interfaces;
        let mut i: usize = 0;
        while i < ifcs.len()
            invariant
                0 <= i <= ifcs@.len(),
                start + interfaces_text(ifcs@, 0) == out@ + interfaces_text(ifcs@, i as int),
            decreases ifcs@.len() - i,
        {
            let ifc = &ifcs[i];
            self.generate_interface_type(ifc, out);
            push_types_list(out, &ifc.types);
            proof {
                assert(start + interfaces_text(ifcs@, 0) =~= out@ + interfaces_text(
                    ifcs@,
                    i as int + 1,
                ));
            }
            i = i + 1;
        }
        push_types_list(out, &self.analyzed.standalone_types);
        proof {
            assert(final(out)@ =~= start + decls_text(*self.analyzed));
        }
    }

    /// Renders one host-function registration step for `method`; the
    /// closure captures the interface implementation named `param_name`.
    pub fn generate_host_function_builder(
        &self,
        method: &InterfaceMethod,
        param_name: &GoIdentifier,
    ) -> (res: Result<String, CodegenError>)
        ensures
            match res {
                Ok(s) => {
                    &&& spec_wasm_signature(*self.resolve, method.wit_function) is Ok
                    &&& s@ == builder_text(*self.resolve, *method, param_name@)
                },
                Err(e) => spec_wasm_signature(*self.resolve, method.wit_function)
                    == Result::<crate::abi::WasmSigV, CodegenError>::Err(e),
            },
    {
        let sig = match wasm_signature(self.resolve, &method.wit_function) {
            Ok(s) => s,
            Err(e) => {
                return Err(e);
            },
        };
        let result = if sig.results.len() == 0 {
            GoResult::Empty
        } else {
            GoResult::Anon(resolve_wasm_type(&sig.results[0]))
        };
        let mut s = String::new();
        s.append("NewFunctionBuilder().\nWithFunc(func(\n\tctx context.Context,\n\tmod api.Module,\n");
        push_closure_params(&mut s, &sig.params);
        s.append(")");
        push_go_result(&mut s, &result);
        proof {
            assert(crate::gotypes::go_result_text(result) =~= result_sig_text(sig@.results));
        }
        s.append(" {\n");
        push_body(&mut s, method, param_name, sig.params.len());
        s.append("}).\nExport(\"");
        s.append(method.name.as_str());
        s.append("\").");
        proof {
            assert(sig@ == sig_of(*self.resolve, method.wit_function));
            assert(s@ =~= builder_text(*self.resolve, *method, param_name@));
        }
        Ok(s)
    }

    /// Builds one registration chain per imported interface, in declaration
    /// order: the host-module builder keyed by the Wasm module name, every
    /// method's registration step, and the instantiation with its error
    /// check.
    #[verifier::loop_isolation(false)]
    pub fn import_chains(&self) -> (res: Result<Vec<ImportChain>, CodegenError>)
        ensures
            match res {
                Ok(v) => {
                    &&& chains_err(*self.resolve, self.analyzed.interfaces@, 0) is None
                    &&& v@.len() == self.analyzed.interfaces@.len()
                    &&& forall|i: int|
                        0 <= i < v@.len() ==> {
                            &&& (#[trigger] v@[i]).module_name@
                                == self.analyzed.interfaces@[i].wazero_module_name@
                            &&& v@[i].code@ == chain_text(
                                *self.resolve,
                                self.analyzed.interfaces@[i],
                                i,
                            )
                        }
                },
                Err(e) => chains_err(*self.resolve, self.analyzed.interfaces@, 0) == Some(e),
            },
    {
        let ifcs = &self.analyzed.interfaces;
        let mut chains: Vec<ImportChain> = Vec::new();
        let mut i: usize = 0;
        while i < ifcs.len()
            invariant
                0 <= i <= ifcs@.len(),
                chains@.len() == i,
                chains_err(*self.resolve, ifcs@, 0) == chains_err(*self.resolve, ifcs@, i as int),
                forall|j: int|
                    0 <= j < i ==> {
                        &&& (#[trigger] chains@[j]).module_name@ == ifcs@[j].wazero_module_name@
                        &&& chains@[j].code@ == chain_text(*self.resolve, ifcs@[j], j)
                    },
            decreases ifcs@.len() - i,
        {
            let ifc = &ifcs[i];
            let mut code = String::new();
            code.append("_, err");
            push_dec(&mut code, i);
            code.append(" := wazeroRuntime.NewHostModuleBuilder(\"");
            code.append(ifc.wazero_module_name.as_str());
            code.append("\").\n");
            let ghost mid = code@;
            let mut j: usize = 0;
            while j < ifc.methods.len()
                invariant
                    0 <= j <= ifc.methods@.len(),
                    msig_err(*self.resolve, ifc.methods@, 0) == msig_err(
                        *self.resolve,
                        ifc.methods@,
                        j as int,
                    ),
                    mid + builders_text(
                        *self.resolve,
                        ifc.methods@,
                        ifc.constructor_param_name@,
                        0,
                    ) == code@ + builders_text(
                        *self.resolve,
                        ifc.methods@,
                        ifc.constructor_param_name@,
                        j as int,
                    ),
                decreases ifc.methods@.len() - j,
            {
                match self.generate_host_function_builder(
                    &ifc.methods[j],
                    &ifc.constructor_param_name,
                ) {
                    Ok(b) => {
                        code.append(b.as_str());
                        code.append("\n");
                        proof {
                            assert(mid + builders_text(
                                *self.resolve,
                                ifc.methods@,
                                ifc.constructor_param_name@,
                                0,
                            ) =~= code@ + builders_text(
                                *self.resolve,
                                ifc.methods@,
                                ifc.constructor_param_name@,
                                j as int + 1,
                            ));
                        }
                    },
                    Err(e) => {
                        proof {
                            assert(msig_err(*self.resolve, ifc.methods@, j as int) == Some(e));
                            assert(chains_err(*self.resolve, ifcs@, i as int) == Some(e));
                        }
                        return Err(e);
                    },
                }
                j = j + 1;
            }
            code.append("Instantiate(ctx)\nif err");
            push_dec(&mut code, i);
            code.append(" != nil {\n\treturn nil, err");
            push_dec(&mut code, i);
            code.append("\n}\n");
            proof {
                assert(code@ =~= chain_text(*self.resolve, ifcs@[i as int], i as int));
            }
            let module_name = ifc.wazero_module_name.clone();
            chains.push(ImportChain { module_name, code });
            i = i + 1;
        }
        Ok(chains)
    }
}

/// Appends one closure parameter line per flat Wasm argument.
fn push_closure_params(out: &mut String, flats: &Vec<WasmType>)
    ensures
        final(out)@ == old(out)@ + closure_params_text(flats@, 0),
{
    let ghost start = out@;
    let mut i: usize = 0;
    while i < flats.len()
        invariant
            0 <= i <= flats@.len(),
            start + closure_params_text(flats@, 0) == out@ + closure_params_text(
                flats@,
                i as int,
            ),
        decreases flats@.len() - i,
    {
        out.append("\targ");
        push_dec(out, i);
        out.append(" ");
        let g = resolve_wasm_type(&flats[i]);
        push_go_type(out, &g);
        out.append(",\n");
        proof {
            assert(start + closure_params_text(flats@, 0) =~= out@ + closure_params_text(
                flats@,
                i as int + 1,
            ));
        }
        i = i + 1;
    }
    proof {
        assert(final(out)@ =~= start + closure_params_text(flats@, 0));
    }
}

/// Appends the expression for one lifted parameter.
fn push_lift_expr(out: &mut String, p: &Parameter, k: u128)
    ensures
        final(out)@ == old(out)@ + lift_expr_text(*p, k as int),
{
    let ghost start = out@;
    match &p.go_type {
        GoType::Str => {
            out.append("string(buf");
            push_dec_wide(out, k);
            out.append(")");
        },
        GoType::Bool => {
            out.append("arg");
            push_dec_wide(out, k);
            out.append(" != 0");
        },
        _ => {
            push_go_type(out, &p.go_type);
            out.append("(arg");
            push_dec_wide(out, k);
            out.append(")");
        },
    }
    proof {
        assert(final(out)@ =~= start + lift_expr_text(*p, k as int));
    }
}

/// Appends the lifting statements of all parameters.
fn push_lift_stmts(out: &mut String, ps: &Vec<Parameter>)
    ensures
        final(out)@ == old(out)@ + lift_stmts_text(ps@, 0, 0),
{
    let ghost start = out@;
    let mut i: usize = 0;
    let mut k: u128 = 0;
    while i < ps.len()
        invariant
            0 <= i <= ps@.len(),
            k as int <= 2 * (i as int),
            start + lift_stmts_text(ps@, 0, 0) == out@ + lift_stmts_text(ps@, i as int, k as int),
        decreases ps@.len() - i,
    {
        let ghost before = out@;
        let p = &ps[i];
        let is_str = match &p.go_type {
            GoType::Str => true,
            _ => false,
        };
        if is_str {
            out.append("\tbuf");
            push_dec_wide(out, k);
            out.append(", ok");
            push_dec_wide(out, k);
            out.append(" := mod.Memory().Read(arg");
            push_dec_wide(out, k);
            out.append(", arg");
            push_dec_wide(out, k + 1);
            out.append(")\n\tif !ok");
            push_dec_wide(out, k);
            out.append(" {\n\t\tpanic(\"out of range memory access\")\n\t}\n");
            proof {
                assert(out@ =~= before + lift_stmt_text(ps@[i as int], k as int));
            }
            k = k + 2;
        } else {
            k = k + 1;
        }
        proof {
            assert(start + lift_stmts_text(ps@, 0, 0) =~= out@ + lift_stmts_text(
                ps@,
                i as int + 1,
                k as int,
            ));
        }
        i = i + 1;
    }
    proof {
        assert(final(out)@ =~= start + lift_stmts_text(ps@, 0, 0));
    }
}

/// Appends the dispatch call into the native implementation.
fn push_call_expr(out: &mut String, pname: &GoIdentifier, m: &InterfaceMethod)
    ensures
        final(out)@ == old(out)@ + call_expr_text(pname@, *m),
{
    let ghost start = out@;
    out.append(pname.as_str());
    out.append(".");
    out.append(m.go_method_name.as_str());
    out.append("(ctx");
    let ghost mid = out@;
    let mut i: usize = 0;
    let mut k: u128 = 0;
    while i < m.parameters.len()
        invariant
            0 <= i <= m.parameters@.len(),
            k as int <= 2 * (i as int),
            mid + call_args_text(m.parameters@, 0, 0) == out@ + call_args_text(
                m.parameters@,
                i as int,
                k as int,
            ),
        decreases m.parameters@.len() - i,
    {
        let p = &m.parameters[i];
        out.append(", ");
        push_lift_expr(out, p, k);
        let w: u128 = match &p.go_type {
            GoType::Str => 2,
            _ => 1,
        };
        proof {
            assert(mid + call_args_text(m.parameters@, 0, 0) =~= out@ + call_args_text(
                m.parameters@,
                i as int + 1,
                k as int + lift_width(m.parameters@[i as int]),
            ));
        }
        k = k + w;
        i = i + 1;
    }
    out.append(")");
    proof {
        assert(final(out)@ =~= start + call_expr_text(pname@, *m));
    }
}

/// Appends the lowering of the native result.
fn push_lower(out: &mut String, rt: &WitReturn, nargs: usize)
    ensures
        final(out)@ == old(out)@ + lower_text(*rt, nargs as int),
{
    let ghost start = out@;
    match &rt.go_type {
        GoType::Str => {
            out.append("\twriteString(ctx, mod, ret0, arg");
            if nargs == 0 {
                push_dec(out, 0);
                proof {
                    assert(spec_dec(0) == spec_dec(nargs as int - 1));
                }
            } else {
                push_dec(out, nargs - 1);
            }
            out.append(")\n");
        },
        GoType::Bool => {
            out.append("\tif ret0 {\n\t\treturn 1\n\t}\n\treturn 0\n");
        },
        GoType::Named(_) => {
            out.append("\treturn uint32(ret0)\n");
        },
        GoType::Uint8 | GoType::Uint16 | GoType::Uint32 | GoType::Int8 | GoType::Int16
            | GoType::Int32 => {
            out.append("\treturn uint32(ret0)\n");
        },
        GoType::Uint64 | GoType::Int64 => {
            out.append("\treturn uint64(ret0)\n");
        },
        GoType::Float32 => {
            out.append("\treturn float32(ret0)\n");
        },
        GoType::Float64 => {
            out.append("\treturn float64(ret0)\n");
        },
    }
    proof {
        assert(final(out)@ =~= start + lower_text(*rt, nargs as int));
    }
}

/// Appends the closure body: lifts, dispatch, and result lowering.
fn push_body(out: &mut String, m: &InterfaceMethod, pname: &GoIdentifier, nargs: usize)
    ensures
        final(out)@ == old(out)@ + body_text(*m, pname@, nargs as int),
{
    let ghost start = out@;
    push_lift_stmts(out, &m.parameters);
    match &m.return_type {
        None => {
            out.append("\t");
            push_call_expr(out, pname, m);
            out.append("\n");
        },
        Some(rt) => {
            out.append("\tret0 := ");
            push_call_expr(out, pname, m);
            out.append("\n");
            push_lower(out, rt, nargs);
        },
    }
    proof {
        assert(final(out)@ =~= start + body_text(*m, pname@, nargs as int));
    }
}

} // verus!
