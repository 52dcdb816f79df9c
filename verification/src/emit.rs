//! The exact text of every emitted Go fragment, as spec functions over the
//! IR. The emitters in `generator` are proved to append precisely these
//! sequences.

use vstd::prelude::*;

use crate::abi::{sig_of, spec_wasm_signature};
use crate::errors::CodegenError;
use crate::gotypes::{go_type_v_text, spec_resolve_wasm_type, GoType, GoTypeV, WasmType};
use crate::ident::{minted, GoIdentifier};
use crate::ir::{AnalyzedImports, AnalyzedInterface, AnalyzedType, InterfaceMethod, Parameter, TypeDefinition, WitReturn};
use crate::strutil::spec_dec;
use crate::wit::Resolve;

verus! {

// ---------------------------------------------------------------------------
// Type declarations
// ---------------------------------------------------------------------------
/// One struct field line per record field, in order.
pub open spec fn record_fields_text(fields: Seq<(GoIdentifier, GoType)>, i: int) -> Seq<char>
    decreases fields.len() - i,
{
    if i < 0 || i >= fields.len() {
        Seq::<char>::empty()
    } else {
        "\t"@ + fields[i].0@ + " "@ + go_type_v_text(fields[i].1@) + "\n"@ + record_fields_text(
            fields,
            i + 1,
        )
    }
}

/// One constant line per enum case: the publicly minted case name, the enum
/// type, and the ordinal starting at zero, in declared order.
pub open spec fn enum_cases_text(cases: Seq<String>, tname: Seq<char>, i: int) -> Seq<char>
    decreases cases.len() - i,
{
    if i < 0 || i >= cases.len() {
        Seq::<char>::empty()
    } else {
        "\t"@ + minted(cases[i]@, true) + " "@ + tname + " = "@ + spec_dec(i) + "\n"@
            + enum_cases_text(cases, tname, i + 1)
    }
}

/// The declaration text of one analyzed type: a struct for a record, an
/// unsigned 32-bit newtype plus one constant per case for an enum, a type
/// alias for an alias, and a comment for the unimplemented shapes.
pub open spec fn type_def_text(typ: AnalyzedType) -> Seq<char> {
    match typ.definition {
        TypeDefinition::Record { fields } => "\ntype "@ + typ.go_type_name@ + " struct {\n"@
            + record_fields_text(fields@, 0) + "}\n"@,
        TypeDefinition::Enum { cases } => "\ntype "@ + typ.go_type_name@ + " uint32\n\nconst (\n"@
            + enum_cases_text(cases@, typ.go_type_name@, 0) + ")\n"@,
        TypeDefinition::Alias { target } => "\ntype "@ + typ.go_type_name@ + " = "@
            + go_type_v_text(target@) + "\n"@,
        TypeDefinition::Primitive => "\n// Primitive type: "@ + typ.name@ + "\n"@,
        TypeDefinition::Variant { cases: _ } => "\n// Variant type: "@ + typ.name@
            + " (not implemented)\n"@,
    }
}

/// The declarations of a list of analyzed types, in order, from index `i`.
pub open spec fn types_text(ts: Seq<AnalyzedType>, i: int) -> Seq<char>
    decreases ts.len() - i,
{
    if i < 0 || i >= ts.len() {
        Seq::<char>::empty()
    } else {
        type_def_text(ts[i]) + types_text(ts, i + 1)
    }
}

// ---------------------------------------------------------------------------
// Interface declarations
// ---------------------------------------------------------------------------
/// One parameter line of a method signature.
pub open spec fn params_sig_text(ps: Seq<Parameter>, i: int) -> Seq<char>
    decreases ps.len() - i,
{
    if i < 0 || i >= ps.len() {
        Seq::<char>::empty()
    } else {
        "\t\t"@ + ps[i].name@ + " "@ + go_type_v_text(ps[i].go_type@) + ",\n"@ + params_sig_text(
            ps,
            i + 1,
        )
    }
}

/// What follows the parameter list of a method signature.
pub open spec fn method_result_text(rt: Option<WitReturn>) -> Seq<char> {
    match rt {
        Option::Some(t) => " "@ + go_type_v_text(t.go_type@),
        Option::None => Seq::<char>::empty(),
    }
}

/// A method signature: the minted method name, the context parameter, one
/// line per parameter, and the result type if any.
pub open spec fn method_sig_text(m: InterfaceMethod) -> Seq<char> {
    m.go_method_name@ + "(\n\t\tctx context.Context,\n"@ + params_sig_text(m.parameters@, 0)
        + "\t)"@ + method_result_text(m.return_type)
}

/// The method signatures of an interface declaration, one per line.
pub open spec fn methods_text(ms: Seq<InterfaceMethod>, i: int) -> Seq<char>
    decreases ms.len() - i,
{
    if i < 0 || i >= ms.len() {
        Seq::<char>::empty()
    } else {
        "\t"@ + method_sig_text(ms[i]) + "\n"@ + methods_text(ms, i + 1)
    }
}

/// The Go interface type declared for one imported interface.
pub open spec fn interface_type_text(ifc: AnalyzedInterface) -> Seq<char> {
    "\ntype "@ + ifc.go_interface_name@ + " interface {\n"@ + methods_text(ifc.methods@, 0)
        + "}\n"@
}

/// The declarations of the interfaces from index `i` on: each interface
/// type followed by its own type declarations.
pub open spec fn interfaces_text(ifcs: Seq<AnalyzedInterface>, i: int) -> Seq<char>
    decreases ifcs.len() - i,
{
    if i < 0 || i >= ifcs.len() {
        Seq::<char>::empty()
    } else {
        interface_type_text(ifcs[i]) + types_text(ifcs[i].types@, 0) + interfaces_text(ifcs, i + 1)
    }
}

/// Everything the import generator declares: the interface types with their
/// owned types, then the standalone types.
pub open spec fn decls_text(a: AnalyzedImports) -> Seq<char> {
    interfaces_text(a.interfaces@, 0) + types_text(a.standalone_types@, 0)
}

// ---------------------------------------------------------------------------
// Host-function closures (import path)
// ---------------------------------------------------------------------------
/// The Go spelling of the host type of a flat Wasm value.
pub open spec fn wasm_go_text(wt: WasmType) -> Seq<char> {
    go_type_v_text(spec_resolve_wasm_type(wt)@)
}

/// One closure parameter line per flat Wasm argument: `argN` typed by the
/// flat type's host mapping.
pub open spec fn closure_params_text(flats: Seq<WasmType>, i: int) -> Seq<char>
    decreases flats.len() - i,
{
    if i < 0 || i >= flats.len() {
        Seq::<char>::empty()
    } else {
        "\targ"@ + spec_dec(i) + " "@ + wasm_go_text(flats[i]) + ",\n"@ + closure_params_text(
            flats,
            i + 1,
        )
    }
}

/// How many flat arguments one lifted parameter consumes.
pub open spec fn lift_width(p: Parameter) -> int {
    if p.go_type@ is Str {
        2
    } else {
        1
    }
}

/// The statements lifting one parameter whose first flat argument is
/// `argK`: a string reads its bytes out of guest memory, everything else
/// needs no statement.
pub open spec fn lift_stmt_text(p: Parameter, k: int) -> Seq<char> {
    if p.go_type@ is Str {
        "\tbuf"@ + spec_dec(k) + ", ok"@ + spec_dec(k) + " := mod.Memory().Read(arg"@ + spec_dec(k)
            + ", arg"@ + spec_dec(k + 1) + ")\n\tif !ok"@ + spec_dec(k)
            + " {\n\t\tpanic(\"out of range memory access\")\n\t}\n"@
    } else {
        Seq::<char>::empty()
    }
}

/// The lifting statements of the parameters from index `i` on, with `k`
/// the index of the next flat argument.
pub open spec fn lift_stmts_text(ps: Seq<Parameter>, i: int, k: int) -> Seq<char>
    decreases ps.len() - i,
{
    if i < 0 || i >= ps.len() {
        Seq::<char>::empty()
    } else {
        lift_stmt_text(ps[i], k) + lift_stmts_text(ps, i + 1, k + lift_width(ps[i]))
    }
}

/// The expression for one lifted parameter: the read string, a zero test
/// for a boolean, and an identity or named cast for everything else; no
/// decode helper appears on this path.
pub open spec fn lift_expr_text(p: Parameter, k: int) -> Seq<char> {
    match p.go_type@ {
        GoTypeV::Str => "string(buf"@ + spec_dec(k) + ")"@,
        GoTypeV::Bool => "arg"@ + spec_dec(k) + " != 0"@,
        gt => go_type_v_text(gt) + "(arg"@ + spec_dec(k) + ")"@,
    }
}

/// The lifted arguments handed to the native callback after `ctx`.
pub open spec fn call_args_text(ps: Seq<Parameter>, i: int, k: int) -> Seq<char>
    decreases ps.len() - i,
{
    if i < 0 || i >= ps.len() {
        Seq::<char>::empty()
    } else {
        ", "@ + lift_expr_text(ps[i], k) + call_args_text(ps, i + 1, k + lift_width(ps[i]))
    }
}

/// The dispatch into the native interface implementation.
pub open spec fn call_expr_text(pname: Seq<char>, m: InterfaceMethod) -> Seq<char> {
    pname + "."@ + m.go_method_name@ + "(ctx"@ + call_args_text(m.parameters@, 0, 0) + ")"@
}

/// The statements lowering the native result: a string is written through
/// the trailing return pointer, a boolean returns zero or one, an integer,
/// float or enum returns its flat representation.
pub open spec fn lower_text(rt: WitReturn, nargs: int) -> Seq<char> {
    match rt.go_type@ {
        GoTypeV::Str => "\twriteString(ctx, mod, ret0, arg"@ + spec_dec(nargs - 1) + ")\n"@,
        GoTypeV::Bool => "\tif ret0 {\n\t\treturn 1\n\t}\n\treturn 0\n"@,
        GoTypeV::Named(_) => "\treturn uint32(ret0)\n"@,
        GoTypeV::Uint8 | GoTypeV::Uint16 | GoTypeV::Uint32 | GoTypeV::Int8 | GoTypeV::Int16
            | GoTypeV::Int32 => "\treturn uint32(ret0)\n"@,
        GoTypeV::Uint64 | GoTypeV::Int64 => "\treturn uint64(ret0)\n"@,
        GoTypeV::Float32 => "\treturn float32(ret0)\n"@,
        GoTypeV::Float64 => "\treturn float64(ret0)\n"@,
    }
}

/// The closure body: lifting statements, the dispatch call (bound to a
/// result variable when there is a result), and the lowering of the result.
pub open spec fn body_text(m: InterfaceMethod, pname: Seq<char>, nargs: int) -> Seq<char> {
    lift_stmts_text(m.parameters@, 0, 0) + match m.return_type {
        Option::None => "\t"@ + call_expr_text(pname, m) + "\n"@,
        Option::Some(rt) => "\tret0 := "@ + call_expr_text(pname, m) + "\n"@ + lower_text(
            rt,
            nargs,
        ),
    }
}

/// The declared return position of the closure: empty, or the host mapping
/// of the single flat result.
pub open spec fn result_sig_text(results: Seq<WasmType>) -> Seq<char> {
    if results.len() == 0 {
        Seq::<char>::empty()
    } else {
        " "@ + wasm_go_text(results[0])
    }
}

/// One complete host-function registration step: the closure takes the
/// context and module handle and then one parameter per flat Wasm argument,
/// and is exported under the method's interface-description name.
pub open spec fn builder_text(r: Resolve, m: InterfaceMethod, pname: Seq<char>) -> Seq<char> {
    let sig = sig_of(r, m.wit_function);
    "NewFunctionBuilder().\nWithFunc(func(\n\tctx context.Context,\n\tmod api.Module,\n"@
        + closure_params_text(sig.params, 0) + ")"@ + result_sig_text(sig.results) + " {\n"@
        + body_text(m, pname, sig.params.len() as int) + "}).\nExport(\""@ + m.name@ + "\")."@
}

/// The registration steps of an interface's methods, one per line.
pub open spec fn builders_text(r: Resolve, ms: Seq<InterfaceMethod>, pname: Seq<char>, i: int) -> Seq<
    char,
>
    decreases ms.len() - i,
{
    if i < 0 || i >= ms.len() {
        Seq::<char>::empty()
    } else {
        builder_text(r, ms[i], pname) + "\n"@ + builders_text(r, ms, pname, i + 1)
    }
}

/// One import chain: a host-module builder keyed by the Wasm module name,
/// every method registered, then instantiation with its error check.
pub open spec fn chain_text(r: Resolve, ifc: AnalyzedInterface, idx: int) -> Seq<char> {
    "_, err"@ + spec_dec(idx) + " := wazeroRuntime.NewHostModuleBuilder(\""@
        + ifc.wazero_module_name@ + "\").\n"@ + builders_text(
        r,
        ifc.methods@,
        ifc.constructor_param_name@,
        0,
    ) + "Instantiate(ctx)\nif err"@ + spec_dec(idx) + " != nil {\n\treturn nil, err"@ + spec_dec(
        idx,
    ) + "\n}\n"@
}

/// The first signature error among the methods from index `i` on.
pub open spec fn msig_err(r: Resolve, ms: Seq<InterfaceMethod>, i: int) -> Option<CodegenError>
    decreases ms.len() - i,
{
    if i < 0 || i >= ms.len() {
        Option::None
    } else {
        match spec_wasm_signature(r, ms[i].wit_function) {
            Result::Err(e) => Option::Some(e),
            Result::Ok(_) => msig_err(r, ms, i + 1),
        }
    }
}

/// The first signature error among the interfaces from index `i` on.
pub open spec fn chains_err(r: Resolve, ifcs: Seq<AnalyzedInterface>, i: int) -> Option<
    CodegenError,
>
    decreases ifcs.len() - i,
{
    if i < 0 || i >= ifcs.len() {
        Option::None
    } else {
        match msig_err(r, ifcs[i].methods@, 0) {
            Option::Some(e) => Option::Some(e),
            Option::None => chains_err(r, ifcs, i + 1),
        }
    }
}

} // verus!
