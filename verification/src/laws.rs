//! Library-level laws: properties of the analysis and of the emitted text
//! that hold for every input, stated and proved over the spec functions the
//! contracts use.

use vstd::prelude::*;

use crate::analysis::{
    analyze_ok, analyzed_type_ok, interface_ok, kept_tids, method_ok, param_ok, params_ok,
    typedef_ok,
};
use crate::emit::{
    body_text, builder_text, builders_text, call_args_text, call_expr_text, chain_text,
    closure_params_text, decls_text, enum_cases_text, interface_type_text, interfaces_text,
    lift_expr_text, lift_stmt_text, lift_stmts_text, lift_width, method_result_text,
    method_sig_text, methods_text, params_sig_text, record_fields_text, result_sig_text,
    type_def_text, types_text, wasm_go_text,
};
use crate::errors::CodegenError;
use crate::gotypes::{go_type_v_text, GoType, GoTypeV, WasmType};
use crate::ident::GoIdentifier;
use crate::ident::{
    camel_of, is_ascii_digit, is_ascii_lower, is_ascii_upper, is_go_keyword, is_word_char, minted,
    scan, spec_lower_char, spec_upper_char,
};
use crate::ir::{
    AnalyzedImports, AnalyzedInterface, AnalyzedType, InterfaceMethod, Parameter, TypeDefinition,
};
use crate::strutil::{spec_dec, spec_digit_char};
use crate::wit::{function_eq, param_eq, Function, Param, Record, Resolve, TypeDefKind, World};

verus! {

// ---------------------------------------------------------------------------
// Character classes of the text the library builds
// ---------------------------------------------------------------------------
/// Every character of a decimal rendering is an ASCII digit.
pub proof fn lemma_dec_chars(n: int)
    ensures
        forall|i: int| 0 <= i < spec_dec(n).len() ==> is_ascii_digit(#[trigger] spec_dec(n)[i]),
    decreases n,
{
    if n < 10 {
        let d = if n < 0 {
            0
        } else {
            n
        };
        assert(spec_dec(n) =~= seq![spec_digit_char(d)]);
        assert(is_ascii_digit(spec_digit_char(d)));
    } else {
        lemma_dec_chars(n / 10);
        assert(is_ascii_digit(spec_digit_char(n % 10)));
        assert forall|i: int| 0 <= i < spec_dec(n).len() implies is_ascii_digit(
            #[trigger] spec_dec(n)[i],
        ) by {
            if i < spec_dec(n / 10).len() {
                assert(spec_dec(n)[i] == spec_dec(n / 10)[i]);
            } else {
                assert(spec_dec(n)[i] == spec_digit_char(n % 10));
            }
        }
    }
}

/// Every character the normalizing scan emits is an ASCII letter or digit.
pub proof fn lemma_scan_chars(s: Seq<char>, i: int, public: bool)
    ensures
        forall|j: int|
            0 <= j < scan(s, i, public).0.len() ==> is_word_char(
                #[trigger] scan(s, i, public).0[j],
            ),
    decreases i,
{
    if i > 0 {
        lemma_scan_chars(s, i - 1, public);
        let st = scan(s, i - 1, public);
        let c = s[i - 1];
        if is_word_char(c) {
            assert(is_word_char(spec_lower_char(c)));
            assert(is_word_char(spec_upper_char(c)));
            assert forall|j: int| 0 <= j < scan(s, i, public).0.len() implies is_word_char(
                #[trigger] scan(s, i, public).0[j],
            ) by {
                if j < st.0.len() {
                    assert(scan(s, i, public).0[j] == st.0[j]);
                }
            }
        }
    }
}

/// Every character of a minted identifier is an ASCII letter, an ASCII
/// digit, or an underscore.
pub proof fn lemma_minted_chars(s: Seq<char>, public: bool)
    ensures
        forall|j: int|
            0 <= j < minted(s, public).len() ==> is_word_char(#[trigger] minted(s, public)[j])
                || minted(s, public)[j] == '_',
{
    lemma_scan_chars(s, s.len() as int, public);
    let base = camel_of(s, public);
    if is_go_keyword(base) {
        assert forall|j: int| 0 <= j < minted(s, public).len() implies is_word_char(
            #[trigger] minted(s, public)[j],
        ) || minted(s, public)[j] == '_' by {
            if j < base.len() {
                assert(minted(s, public)[j] == base[j]);
            } else {
                reveal_strlit("_");
                assert(minted(s, public)[j] == '_');
            }
        }
    }
}

/// A publicly minted identifier never starts with a lowercase letter: its
/// first character is uppercase or a digit.
pub proof fn lemma_public_first_char(s: Seq<char>, i: int)
    ensures
        scan(s, i, true).0.len() > 0 ==> is_ascii_upper(scan(s, i, true).0[0]) || is_ascii_digit(
            scan(s, i, true).0[0],
        ),
    decreases i,
{
    if i > 0 {
        lemma_public_first_char(s, i - 1);
        let st = scan(s, i - 1, true);
        let c = s[i - 1];
        if is_word_char(c) && st.0.len() == 0 {
            assert(scan(s, i, true).0[0] == spec_upper_char(c));
        }
    }
}

// ---------------------------------------------------------------------------
// Skipped aliases never declare a self-referential type
// ---------------------------------------------------------------------------
/// A definition that merely references another named type is skipped, and
/// every alias the analyzer does keep targets a primitive Go type — never a
/// named one. Together with the mint, the emitted alias line can never read
/// `type Foo = Foo`: the alias target is spelled in lowercase while a
/// minted public name never starts with a lowercase letter.
pub proof fn lemma_no_self_alias(r: Resolve, id: usize, out: AnalyzedType)
    requires
        analyzed_type_ok(r, id, out),
    ensures
        out.definition matches TypeDefinition::Alias { target } ==> !(target@ is Named),
        out.definition matches TypeDefinition::Alias { target } ==> go_type_v_text(target@)
            != out.go_type_name@,
{
    let kind = r.types@[id as int].kind;
    match out.definition {
        TypeDefinition::Alias { target } => {
            match kind {
                TypeDefKind::Type(t) => {
                    assert(!(target@ is Named));
                    let name = crate::wit::opt_name(r.types@[id as int].name);
                    lemma_public_first_char(name, name.len() as int);
                    lemma_alias_text_starts_lower(target@);
                    let tt = go_type_v_text(target@);
                    if tt == out.go_type_name@ {
                        let base = camel_of(name, true);
                        if is_go_keyword(base) {
                            reveal_strlit("_");
                            assert(out.go_type_name@ == base + "_"@);
                            assert(out.go_type_name@.last() == '_');
                            assert(tt.last() != '_');
                            assert(false);
                        } else {
                            assert(out.go_type_name@ == base);
                            assert(tt.len() > 0);
                            assert(is_ascii_upper(base[0]) || is_ascii_digit(base[0]));
                            assert(is_ascii_lower(tt[0]));
                            assert(false);
                        }
                    }
                },
                _ => {
                    assert(false);
                },
            }
        },
        _ => {
        },
    }
}

/// The Go spelling of every primitive type starts with a lowercase letter.
proof fn lemma_alias_text_starts_lower(t: GoTypeV)
    requires
        !(t is Named),
    ensures
        go_type_v_text(t).len() > 0,
        is_ascii_lower(go_type_v_text(t)[0]),
        go_type_v_text(t).last() != '_',
{
    reveal_strlit("bool");
    reveal_strlit("uint8");
    reveal_strlit("uint16");
    reveal_strlit("uint32");
    reveal_strlit("uint64");
    reveal_strlit("int8");
    reveal_strlit("int16");
    reveal_strlit("int32");
    reveal_strlit("int64");
    reveal_strlit("float32");
    reveal_strlit("float64");
    reveal_strlit("string");
}

// ---------------------------------------------------------------------------
// Records mirror their source
// ---------------------------------------------------------------------------
// ---------------------------------------------------------------------------
// Declaration-order stability: the emitted text is a function of the input
// ---------------------------------------------------------------------------
proof fn lemma_record_fields_text_congr(
    f1: Seq<(GoIdentifier, GoType)>,
    f2: Seq<(GoIdentifier, GoType)>,
    i: int,
)
    requires
        f1.len() == f2.len(),
        forall|j: int|
            0 <= j < f1.len() ==> (#[trigger] f1[j]).0@ == f2[j].0@ && f1[j].1@ == f2[j].1@,
    ensures
        record_fields_text(f1, i) == record_fields_text(f2, i),
    decreases f1.len() - i,
{
    if 0 <= i < f1.len() {
        lemma_record_fields_text_congr(f1, f2, i + 1);
    }
}

proof fn lemma_enum_cases_text_congr(c1: Seq<String>, c2: Seq<String>, tname: Seq<char>, i: int)
    requires
        c1.len() == c2.len(),
        forall|j: int| 0 <= j < c1.len() ==> (#[trigger] c1[j])@ == c2[j]@,
    ensures
        enum_cases_text(c1, tname, i) == enum_cases_text(c2, tname, i),
    decreases c1.len() - i,
{
    if 0 <= i < c1.len() {
        lemma_enum_cases_text_congr(c1, c2, tname, i + 1);
    }
}

/// Two analyses of the same named type render the same declaration text.
proof fn lemma_type_def_text_congr(r: Resolve, id: usize, o1: AnalyzedType, o2: AnalyzedType)
    requires
        analyzed_type_ok(r, id, o1),
        analyzed_type_ok(r, id, o2),
    ensures
        type_def_text(o1) == type_def_text(o2),
{
    let kind = r.types@[id as int].kind;
    match kind {
        TypeDefKind::Record(rec) => {
            match (o1.definition, o2.definition) {
                (TypeDefinition::Record { fields: f1 }, TypeDefinition::Record { fields: f2 }) => {
                    assert forall|j: int| 0 <= j < f1@.len() implies (#[trigger] f1@[j]).0@
                        == f2@[j].0@ && f1@[j].1@ == f2@[j].1@ by {
                        assert(f1@[j].0@ == minted(rec.fields@[j].name@, true));
                        assert(crate::analysis::resolved(r, rec.fields@[j].ty)
                            == Result::<GoTypeV, CodegenError>::Ok(f1@[j].1@));
                        assert(crate::analysis::resolved(r, rec.fields@[j].ty)
                            == Result::<GoTypeV, CodegenError>::Ok(f2@[j].1@));
                    }
                    lemma_record_fields_text_congr(f1@, f2@, 0);
                },
                _ => {
                    assert(false);
                },
            }
        },
        TypeDefKind::Enum(e) => {
            match (o1.definition, o2.definition) {
                (TypeDefinition::Enum { cases: c1 }, TypeDefinition::Enum { cases: c2 }) => {
                    lemma_enum_cases_text_congr(c1@, c2@, o1.go_type_name@, 0);
                },
                _ => {
                    assert(false);
                },
            }
        },
        TypeDefKind::Variant(_) => {
        },
        TypeDefKind::Type(t) => {
            match (o1.definition, o2.definition) {
                (TypeDefinition::Alias { target: t1 }, TypeDefinition::Alias { target: t2 }) => {
                    assert(t1@ == t2@);
                },
                _ => {
                    assert(false);
                },
            }
        },
        _ => {
            assert(false);
        },
    }
}

proof fn lemma_params_sig_text_congr(p1: Seq<Parameter>, p2: Seq<Parameter>, i: int)
    requires
        p1.len() == p2.len(),
        forall|j: int|
            0 <= j < p1.len() ==> (#[trigger] p1[j]).name@ == p2[j].name@ && p1[j].go_type@
                == p2[j].go_type@,
    ensures
        params_sig_text(p1, i) == params_sig_text(p2, i),
    decreases p1.len() - i,
{
    if 0 <= i < p1.len() {
        lemma_params_sig_text_congr(p1, p2, i + 1);
    }
}

/// The pointwise facts two analyses of the same parameters share.
proof fn lemma_params_pinned(r: Resolve, ps: Seq<Param>, o1: Seq<Parameter>, o2: Seq<Parameter>)
    requires
        params_ok(r, ps, o1),
        params_ok(r, ps, o2),
    ensures
        o1.len() == o2.len(),
        forall|j: int|
            0 <= j < o1.len() ==> (#[trigger] o1[j]).name@ == o2[j].name@ && o1[j].go_type@
                == o2[j].go_type@ && o1[j].wit_type == o2[j].wit_type,
{
    assert forall|j: int| 0 <= j < o1.len() implies (#[trigger] o1[j]).name@ == o2[j].name@
        && o1[j].go_type@ == o2[j].go_type@ && o1[j].wit_type == o2[j].wit_type by {
        assert(param_ok(r, ps[j], o1[j]));
        assert(param_ok(r, ps[j], o2[j]));
    }
}

/// Two analyses of the same function render the same method signature.
proof fn lemma_method_sig_text_congr(r: Resolve, f: Function, m1: InterfaceMethod, m2: InterfaceMethod)
    requires
        method_ok(r, f, m1),
        method_ok(r, f, m2),
    ensures
        method_sig_text(m1) == method_sig_text(m2),
{
    lemma_params_pinned(r, f.params@, m1.parameters@, m2.parameters@);
    lemma_params_sig_text_congr(m1.parameters@, m2.parameters@, 0);
    assert(method_result_text(m1.return_type) == method_result_text(m2.return_type));
}

proof fn lemma_methods_text_congr(
    r: Resolve,
    fs: Seq<Function>,
    m1: Seq<InterfaceMethod>,
    m2: Seq<InterfaceMethod>,
    i: int,
)
    requires
        m1.len() == fs.len(),
        m2.len() == fs.len(),
        forall|j: int| 0 <= j < fs.len() ==> method_ok(r, fs[j], #[trigger] m1[j]),
        forall|j: int| 0 <= j < fs.len() ==> method_ok(r, fs[j], #[trigger] m2[j]),
    ensures
        methods_text(m1, i) == methods_text(m2, i),
    decreases m1.len() - i,
{
    if 0 <= i < m1.len() {
        lemma_method_sig_text_congr(r, fs[i], m1[i], m2[i]);
        lemma_methods_text_congr(r, fs, m1, m2, i + 1);
    }
}

proof fn lemma_types_text_congr(
    r: Resolve,
    ids: Seq<usize>,
    t1: Seq<AnalyzedType>,
    t2: Seq<AnalyzedType>,
    i: int,
)
    requires
        t1.len() == ids.len(),
        t2.len() == ids.len(),
        forall|j: int| 0 <= j < ids.len() ==> analyzed_type_ok(r, ids[j], #[trigger] t1[j]),
        forall|j: int| 0 <= j < ids.len() ==> analyzed_type_ok(r, ids[j], #[trigger] t2[j]),
    ensures
        types_text(t1, i) == types_text(t2, i),
    decreases t1.len() - i,
{
    if 0 <= i < t1.len() {
        lemma_type_def_text_congr(r, ids[i], t1[i], t2[i]);
        lemma_types_text_congr(r, ids, t1, t2, i + 1);
    }
}

proof fn lemma_interfaces_text_congr(
    r: Resolve,
    wname: Seq<char>,
    ids: Seq<usize>,
    i1: Seq<AnalyzedInterface>,
    i2: Seq<AnalyzedInterface>,
    i: int,
)
    requires
        i1.len() == ids.len(),
        i2.len() == ids.len(),
        forall|j: int| 0 <= j < ids.len() ==> interface_ok(r, wname, ids[j], #[trigger] i1[j]),
        forall|j: int| 0 <= j < ids.len() ==> interface_ok(r, wname, ids[j], #[trigger] i2[j]),
    ensures
        interfaces_text(i1, i) == interfaces_text(i2, i),
    decreases i1.len() - i,
{
    if 0 <= i < i1.len() {
        let ifc = r.interfaces@[ids[i] as int];
        lemma_methods_text_congr(r, ifc.functions@, i1[i].methods@, i2[i].methods@, 0);
        assert(interface_type_text(i1[i]) == interface_type_text(i2[i]));
        lemma_types_text_congr(
            r,
            kept_tids(r, ifc.types@),
            i1[i].types@,
            i2[i].types@,
            0,
        );
        lemma_interfaces_text_congr(r, wname, ids, i1, i2, i + 1);
    }
}

/// Declaration-order stability: the declarations the generator renders are
/// a function of the resolved world alone. Any two IRs built from the same
/// world — for example by two runs over the same input — render
/// byte-identical declaration text, and the lists they render from follow
/// the world's declaration order.
pub proof fn lemma_decls_deterministic(
    r: Resolve,
    w: World,
    a1: AnalyzedImports,
    a2: AnalyzedImports,
)
    requires
        analyze_ok(r, w, a1),
        analyze_ok(r, w, a2),
    ensures
        decls_text(a1) == decls_text(a2),
{
    lemma_interfaces_text_congr(
        r,
        w.name@,
        crate::analysis::iface_ids(w.imports@),
        a1.interfaces@,
        a2.interfaces@,
        0,
    );
    lemma_types_text_congr(
        r,
        crate::analysis::standalone_tids(r, w.imports@),
        a1.standalone_types@,
        a2.standalone_types@,
        0,
    );
}

proof fn lemma_flat_params_congr(r: Resolve, p1: Seq<Param>, p2: Seq<Param>, i: int)
    requires
        p1.len() == p2.len(),
        forall|j: int| 0 <= j < p1.len() ==> param_eq(#[trigger] p1[j], p2[j]),
    ensures
        crate::abi::spec_flat_params(r, p1, i) == crate::abi::spec_flat_params(r, p2, i),
    decreases p1.len() - i,
{
    if 0 <= i < p1.len() {
        assert(param_eq(p1[i], p2[i]));
        lemma_flat_params_congr(r, p1, p2, i + 1);
    }
}

/// Two functions that agree on parameters and result have the same flat
/// core signature.
proof fn lemma_sig_congr(r: Resolve, f1: Function, f2: Function)
    requires
        function_eq(f1, f2),
    ensures
        crate::abi::spec_wasm_signature(r, f1) == crate::abi::spec_wasm_signature(r, f2),
{
    lemma_flat_params_congr(r, f1.params@, f2.params@, 0);
}

proof fn lemma_lift_stmts_congr(p1: Seq<Parameter>, p2: Seq<Parameter>, i: int, k: int)
    requires
        p1.len() == p2.len(),
        forall|j: int| 0 <= j < p1.len() ==> (#[trigger] p1[j]).go_type@ == p2[j].go_type@,
    ensures
        lift_stmts_text(p1, i, k) == lift_stmts_text(p2, i, k),
    decreases p1.len() - i,
{
    if 0 <= i < p1.len() {
        assert(lift_width(p1[i]) == lift_width(p2[i]));
        assert(lift_stmt_text(p1[i], k) == lift_stmt_text(p2[i], k));
        lemma_lift_stmts_congr(p1, p2, i + 1, k + lift_width(p1[i]));
    }
}

proof fn lemma_call_args_congr(p1: Seq<Parameter>, p2: Seq<Parameter>, i: int, k: int)
    requires
        p1.len() == p2.len(),
        forall|j: int| 0 <= j < p1.len() ==> (#[trigger] p1[j]).go_type@ == p2[j].go_type@,
    ensures
        call_args_text(p1, i, k) == call_args_text(p2, i, k),
    decreases p1.len() - i,
{
    if 0 <= i < p1.len() {
        assert(lift_width(p1[i]) == lift_width(p2[i]));
        assert(lift_expr_text(p1[i], k) == lift_expr_text(p2[i], k));
        lemma_call_args_congr(p1, p2, i + 1, k + lift_width(p1[i]));
    }
}

/// Two analyses of the same function render the same registration step.
proof fn lemma_builder_text_congr(
    r: Resolve,
    f: Function,
    pn: Seq<char>,
    m1: InterfaceMethod,
    m2: InterfaceMethod,
)
    requires
        method_ok(r, f, m1),
        method_ok(r, f, m2),
    ensures
        builder_text(r, m1, pn) == builder_text(r, m2, pn),
{
    lemma_sig_congr(r, m1.wit_function, f);
    lemma_sig_congr(r, m2.wit_function, f);
    assert(crate::abi::sig_of(r, m1.wit_function) == crate::abi::sig_of(r, m2.wit_function));
    lemma_params_pinned(r, f.params@, m1.parameters@, m2.parameters@);
    lemma_lift_stmts_congr(m1.parameters@, m2.parameters@, 0, 0);
    lemma_call_args_congr(m1.parameters@, m2.parameters@, 0, 0);
    assert(call_expr_text(pn, m1) == call_expr_text(pn, m2));
    let nargs = crate::abi::sig_of(r, m1.wit_function).params.len() as int;
    match (m1.return_type, m2.return_type) {
        (Option::Some(r1), Option::Some(r2)) => {
            assert(r1.go_type@ == r2.go_type@);
            assert(crate::emit::lower_text(r1, nargs) == crate::emit::lower_text(r2, nargs));
        },
        (Option::None, Option::None) => {
        },
        _ => {
            assert(false);
        },
    }
    assert(body_text(m1, pn, nargs) == body_text(m2, pn, nargs));
}

proof fn lemma_builders_text_congr(
    r: Resolve,
    fs: Seq<Function>,
    pn: Seq<char>,
    m1: Seq<InterfaceMethod>,
    m2: Seq<InterfaceMethod>,
    i: int,
)
    requires
        m1.len() == fs.len(),
        m2.len() == fs.len(),
        forall|j: int| 0 <= j < fs.len() ==> method_ok(r, fs[j], #[trigger] m1[j]),
        forall|j: int| 0 <= j < fs.len() ==> method_ok(r, fs[j], #[trigger] m2[j]),
    ensures
        builders_text(r, m1, pn, i) == builders_text(r, m2, pn, i),
    decreases m1.len() - i,
{
    if 0 <= i < m1.len() {
        lemma_builder_text_congr(r, fs[i], pn, m1[i], m2[i]);
        lemma_builders_text_congr(r, fs, pn, m1, m2, i + 1);
    }
}

/// Declaration-order stability for the registration chains: any two IRs
/// built from the same world render, interface by interface, byte-identical
/// chain text under the same module names, in the order the world imports
/// the interfaces.
pub proof fn lemma_chains_deterministic(
    r: Resolve,
    w: World,
    a1: AnalyzedImports,
    a2: AnalyzedImports,
)
    requires
        analyze_ok(r, w, a1),
        analyze_ok(r, w, a2),
    ensures
        a1.interfaces@.len() == a2.interfaces@.len(),
        forall|i: int|
            0 <= i < a1.interfaces@.len() ==> {
                &&& (#[trigger] a1.interfaces@[i]).wazero_module_name@
                    == a2.interfaces@[i].wazero_module_name@
                &&& chain_text(r, a1.interfaces@[i], i) == chain_text(r, a2.interfaces@[i], i)
            },
{
    let ids = crate::analysis::iface_ids(w.imports@);
    assert forall|i: int| 0 <= i < a1.interfaces@.len() implies {
        &&& (#[trigger] a1.interfaces@[i]).wazero_module_name@
            == a2.interfaces@[i].wazero_module_name@
        &&& chain_text(r, a1.interfaces@[i], i) == chain_text(r, a2.interfaces@[i], i)
    } by {
        assert(interface_ok(r, w.name@, ids[i], a1.interfaces@[i]));
        assert(interface_ok(r, w.name@, ids[i], a2.interfaces@[i]));
        let ifc = r.interfaces@[ids[i] as int];
        lemma_builders_text_congr(
            r,
            ifc.functions@,
            a1.interfaces@[i].constructor_param_name@,
            a1.interfaces@[i].methods@,
            a2.interfaces@[i].methods@,
            0,
        );
    }
}

/// An analyzed record has exactly the field count and order of the source
/// record, and every field name is the source name passed through the
/// public mint.
pub proof fn lemma_record_fields_mirror(r: Resolve, rec: Record, out: TypeDefinition)
    requires
        typedef_ok(r, TypeDefKind::Record(rec), out),
    ensures
        out matches TypeDefinition::Record { fields },
        out matches TypeDefinition::Record { fields } ==> {
            &&& fields@.len() == rec.fields@.len()
            &&& forall|j: int|
                0 <= j < rec.fields@.len() ==> (#[trigger] fields@[j]).0@ == minted(
                    rec.fields@[j].name@,
                    true,
                )
        },
{
}

// ---------------------------------------------------------------------------
// Module-level names are unique after a successful analysis
// ---------------------------------------------------------------------------
proof fn lemma_coll_at_none(names: Seq<Seq<char>>, j: int, i: int)
    requires
        0 <= i <= j < names.len(),
        crate::analysis::coll_at(names, j, i) is None,
    ensures
        forall|k: int| i <= k < j ==> names[k] != names[j],
    decreases j - i,
{
    if i < j {
        lemma_coll_at_none(names, j, i + 1);
    }
}

pub proof fn lemma_first_coll_none(names: Seq<Seq<char>>, j: int, scope: crate::errors::CollisionScope)
    requires
        0 <= j,
        crate::analysis::first_coll(names, j, scope) is None,
    ensures
        forall|a: int, b: int| 0 <= a < b < names.len() && j <= b ==> names[a] != names[b],
    decreases names.len() - j,
{
    if j < names.len() {
        lemma_coll_at_none(names, j, 0);
        lemma_first_coll_none(names, j + 1, scope);
    }
}

/// Every world item of an analysis that reports no item error is itself
/// error-free.
pub proof fn lemma_item_errors_clear(r: Resolve, items: Seq<crate::wit::WorldItem>, i: int)
    requires
        0 <= i,
        crate::analysis::items_err(r, items, i) is None,
    ensures
        forall|k: int|
            i <= k < items.len() ==> crate::analysis::item_err(r, #[trigger] items[k]) is None,
    decreases items.len() - i,
{
    if i < items.len() {
        lemma_item_errors_clear(r, items, i + 1);
    }
}

/// Every method of an interface whose method list scans without error is
/// itself error-free.
pub proof fn lemma_func_errors_clear(r: Resolve, fs: Seq<Function>, i: int)
    requires
        0 <= i,
        crate::analysis::funcs_err(r, fs, i) is None,
    ensures
        forall|k: int|
            i <= k < fs.len() ==> crate::analysis::func_err(r, #[trigger] fs[k]) is None,
    decreases fs.len() - i,
{
    if i < fs.len() {
        lemma_func_errors_clear(r, fs, i + 1);
    }
}

/// Within one interface that analyzes without error, the minted public
/// method names are pairwise distinct: two distinct method names that
/// normalize to the same Go identifier are a `NameCollision`.
pub proof fn lemma_unique_method_names(r: Resolve, id: usize)
    requires
        crate::analysis::iface_err(r, id) is None,
    ensures
        id < r.interfaces@.len(),
        forall|a: int, b: int|
            0 <= a < b < r.interfaces@[id as int].functions@.len()
                ==> crate::analysis::method_names(r.interfaces@[id as int].functions@)[a]
                != crate::analysis::method_names(r.interfaces@[id as int].functions@)[b],
{
    let mn = crate::analysis::method_names(r.interfaces@[id as int].functions@);
    lemma_first_coll_none(mn, 1, crate::errors::CollisionScope::InterfaceMethods);
}

/// Within one function that analyzes without error, the minted private
/// parameter names are pairwise distinct: two distinct parameter names
/// that normalize to the same Go identifier are a `NameCollision`.
pub proof fn lemma_unique_param_names(r: Resolve, f: Function)
    requires
        crate::analysis::func_err(r, f) is None,
    ensures
        forall|a: int, b: int|
            0 <= a < b < f.params@.len() ==> crate::analysis::param_names(f.params@)[a]
                != crate::analysis::param_names(f.params@)[b],
{
    lemma_first_coll_none(
        crate::analysis::param_names(f.params@),
        1,
        crate::errors::CollisionScope::FunctionParams,
    );
}

/// Within one generated module, the declared Go names are unique: when the
/// analysis succeeds, no two distinct positions of the module-level name
/// list carry the same minted identifier.
pub proof fn lemma_unique_module_names(r: Resolve, w: World)
    requires
        crate::analysis::analyze_outcome(r, w) is None,
    ensures
        forall|a: int, b: int|
            0 <= a < b < crate::analysis::module_names(r, w).len() ==> crate::analysis::module_names(
                r,
                w,
            )[a] != crate::analysis::module_names(r, w)[b],
{
    lemma_first_coll_none(
        crate::analysis::module_names(r, w),
        1,
        crate::errors::CollisionScope::Module,
    );
}

// ---------------------------------------------------------------------------
// Counting characters of the emitted text
// ---------------------------------------------------------------------------
/// The number of occurrences of `c` in `s`.
pub open spec fn occurrences(s: Seq<char>, c: char) -> nat
    decreases s.len(),
{
    if s.len() == 0 {
        0
    } else {
        occurrences(s.drop_last(), c) + (if s.last() == c {
            1nat
        } else {
            0nat
        })
    }
}

/// No character of `s` is `c`.
pub open spec fn avoids(s: Seq<char>, c: char) -> bool {
    forall|i: int| 0 <= i < s.len() ==> s[i] != c
}

pub proof fn lemma_occ_concat(a: Seq<char>, b: Seq<char>, c: char)
    ensures
        occurrences(a + b, c) == occurrences(a, c) + occurrences(b, c),
    decreases b.len(),
{
    if b.len() == 0 {
        assert(a + b =~= a);
    } else {
        lemma_occ_concat(a, b.drop_last(), c);
        assert((a + b).drop_last() =~= a + b.drop_last());
        assert((a + b).last() == b.last());
    }
}

pub proof fn lemma_occ_zero(s: Seq<char>, c: char)
    requires
        avoids(s, c),
    ensures
        occurrences(s, c) == 0,
    decreases s.len(),
{
    if s.len() > 0 {
        assert forall|i: int| 0 <= i < s.drop_last().len() implies s.drop_last()[i] != c by {
            assert(s.drop_last()[i] == s[i]);
        }
        lemma_occ_zero(s.drop_last(), c);
    }
}

proof fn lemma_occ_of_single(c: char)
    ensures
        occurrences(seq![c], c) == 1,
{
    assert(seq![c].last() == c);
    assert(seq![c].drop_last() =~= Seq::<char>::empty());
    assert(occurrences(Seq::<char>::empty(), c) == 0);
}

proof fn lemma_avoids_concat(a: Seq<char>, b: Seq<char>, c: char)
    requires
        avoids(a, c),
        avoids(b, c),
    ensures
        avoids(a + b, c),
{
    assert forall|i: int| 0 <= i < (a + b).len() implies (a + b)[i] != c by {
        if i < a.len() {
            assert((a + b)[i] == a[i]);
        } else {
            assert((a + b)[i] == b[i - a.len()]);
        }
    }
}

/// A minted identifier avoids every character that is neither an ASCII
/// letter or digit nor an underscore.
proof fn lemma_minted_avoids(s: Seq<char>, public: bool, c: char)
    requires
        !is_word_char(c),
        c != '_',
    ensures
        avoids(minted(s, public), c),
{
    lemma_minted_chars(s, public);
}

/// Decimal renderings avoid everything but digits.
proof fn lemma_dec_avoids(n: int, c: char)
    requires
        !is_ascii_digit(c),
    ensures
        avoids(spec_dec(n), c),
{
    lemma_dec_chars(n);
}

// ---------------------------------------------------------------------------
// Enums emit one constant per case
// ---------------------------------------------------------------------------
proof fn lemma_enum_line_breaks(cases: Seq<String>, tname: Seq<char>, i: int)
    requires
        avoids(tname, '\n'),
        0 <= i <= cases.len(),
    ensures
        occurrences(enum_cases_text(cases, tname, i), '\n') == cases.len() - i,
    decreases cases.len() - i,
{
    if i < cases.len() {
        lemma_enum_line_breaks(cases, tname, i + 1);
        let m = minted(cases[i]@, true);
        lemma_minted_avoids(cases[i]@, true, '\n');
        lemma_dec_avoids(i, '\n');
        reveal_strlit("\t");
        reveal_strlit(" ");
        reveal_strlit(" = ");
        reveal_strlit("\n");
        let head = "\t"@ + m + " "@ + tname + " = "@ + spec_dec(i);
        assert(avoids("\t"@, '\n'));
        assert(avoids(" "@, '\n'));
        assert(avoids(" = "@, '\n'));
        lemma_avoids_concat("\t"@, m, '\n');
        lemma_avoids_concat("\t"@ + m, " "@, '\n');
        lemma_avoids_concat("\t"@ + m + " "@, tname, '\n');
        lemma_avoids_concat("\t"@ + m + " "@ + tname, " = "@, '\n');
        lemma_avoids_concat("\t"@ + m + " "@ + tname + " = "@, spec_dec(i), '\n');
        lemma_occ_zero(head, '\n');
        assert("\n"@ =~= seq!['\n']);
        lemma_occ_of_single('\n');
        lemma_occ_concat(head, "\n"@, '\n');
        lemma_occ_concat(head + "\n"@, enum_cases_text(cases, tname, i + 1), '\n');
        assert(enum_cases_text(cases, tname, i) =~= (head + "\n"@) + enum_cases_text(
            cases,
            tname,
            i + 1,
        ));
    }
}

/// An enum with N cases emits exactly N constants: the constant block
/// holds one line per case — counting line breaks — and the line for case
/// j carries the publicly minted case name and the ordinal j, in declared
/// order starting at zero.
pub proof fn lemma_enum_constants(cases: Seq<String>, tname: Seq<char>)
    requires
        avoids(tname, '\n'),
    ensures
        occurrences(enum_cases_text(cases, tname, 0), '\n') == cases.len(),
        forall|j: int|
            0 <= j < cases.len() ==> enum_cases_text(cases, tname, j) == "\t"@ + minted(
                cases[j]@,
                true,
            ) + " "@ + tname + " = "@ + spec_dec(j) + "\n"@ + enum_cases_text(cases, tname, j + 1),
{
    lemma_enum_line_breaks(cases, tname, 0);
}

// ---------------------------------------------------------------------------
// The closure parameter list: 2 + arity entries, one comma each
// ---------------------------------------------------------------------------
/// The entries of an import closure's parameter list: the context, the
/// module handle, and one `argN` per flat Wasm argument.
pub open spec fn import_param_entries(flats: Seq<WasmType>) -> Seq<Seq<char>> {
    seq!["ctx context.Context"@, "mod api.Module"@] + Seq::new(
        flats.len(),
        |i: int| "arg"@ + spec_dec(i) + " "@ + wasm_go_text(flats[i]),
    )
}

/// Each entry rendered as one indented line ending in a comma.
pub open spec fn render_param_lines(entries: Seq<Seq<char>>, i: int) -> Seq<char>
    decreases entries.len() - i,
{
    if i < 0 || i >= entries.len() {
        Seq::<char>::empty()
    } else {
        "\t"@ + entries[i] + ",\n"@ + render_param_lines(entries, i + 1)
    }
}

/// The full parameter region of an import closure.
pub open spec fn import_params_region(flats: Seq<WasmType>) -> Seq<char> {
    "\tctx context.Context,\n\tmod api.Module,\n"@ + closure_params_text(flats, 0)
}

proof fn lemma_render_tail(flats: Seq<WasmType>, j: int)
    requires
        0 <= j,
    ensures
        render_param_lines(import_param_entries(flats), j + 2) == closure_params_text(flats, j),
    decreases flats.len() - j,
{
    let entries = import_param_entries(flats);
    if j < flats.len() {
        lemma_render_tail(flats, j + 1);
        assert(entries[j + 2] == "arg"@ + spec_dec(j) + " "@ + wasm_go_text(flats[j]));
        reveal_strlit("\t");
        reveal_strlit("arg");
        reveal_strlit("\targ");
        assert("\t"@ + "arg"@ =~= "\targ"@);
        assert(render_param_lines(entries, j + 2) =~= closure_params_text(flats, j));
    }
}

proof fn lemma_wasm_go_text_avoids(wt: WasmType, c: char)
    requires
        !is_word_char(c),
    ensures
        avoids(wasm_go_text(wt), c),
{
    reveal_strlit("uint32");
    reveal_strlit("uint64");
    reveal_strlit("float32");
    reveal_strlit("float64");
}

/// For every imported function the closure's parameter list is exactly the
/// rendering of 2 + wasm-arity entries, each on its own line and ending in
/// a single comma, and no entry itself contains a comma or a line break:
/// there are never consecutive commas, and the region ends with a line
/// break — never a comma — before the closing parenthesis.
pub proof fn lemma_import_params_shape(flats: Seq<WasmType>)
    ensures
        import_param_entries(flats).len() == 2 + flats.len(),
        import_params_region(flats) == render_param_lines(import_param_entries(flats), 0),
        forall|j: int|
            0 <= j < import_param_entries(flats).len() ==> avoids(
                #[trigger] import_param_entries(flats)[j],
                ',',
            ) && avoids(import_param_entries(flats)[j], '\n'),
        occurrences(import_params_region(flats), ',') == 2 + flats.len(),
{
    let entries = import_param_entries(flats);
    lemma_render_tail(flats, 0);
    reveal_strlit("\tctx context.Context,\n\tmod api.Module,\n");
    reveal_strlit("ctx context.Context");
    reveal_strlit("mod api.Module");
    reveal_strlit("\t");
    reveal_strlit(",\n");
    assert(entries[0] == "ctx context.Context"@);
    assert(entries[1] == "mod api.Module"@);
    assert(render_param_lines(entries, 1) == "\t"@ + entries[1] + ",\n"@ + render_param_lines(
        entries,
        2,
    ));
    assert(render_param_lines(entries, 0) == "\t"@ + entries[0] + ",\n"@ + render_param_lines(
        entries,
        1,
    ));
    assert(import_params_region(flats) =~= render_param_lines(entries, 0));
    assert forall|j: int| 0 <= j < entries.len() implies avoids(#[trigger] entries[j], ',')
        && avoids(entries[j], '\n') by {
        if j >= 2 {
            let k = j - 2;
            assert(entries[j] == "arg"@ + spec_dec(k) + " "@ + wasm_go_text(flats[k]));
            reveal_strlit("arg");
            reveal_strlit(" ");
            lemma_dec_avoids(k, ',');
            lemma_dec_avoids(k, '\n');
            lemma_wasm_go_text_avoids(flats[k], ',');
            lemma_wasm_go_text_avoids(flats[k], '\n');
            lemma_avoids_concat("arg"@, spec_dec(k), ',');
            lemma_avoids_concat("arg"@ + spec_dec(k), " "@, ',');
            lemma_avoids_concat("arg"@ + spec_dec(k) + " "@, wasm_go_text(flats[k]), ',');
            lemma_avoids_concat("arg"@, spec_dec(k), '\n');
            lemma_avoids_concat("arg"@ + spec_dec(k), " "@, '\n');
            lemma_avoids_concat("arg"@ + spec_dec(k) + " "@, wasm_go_text(flats[k]), '\n');
        }
    }
    lemma_render_commas(entries, 0);
}

/// The registration step embeds the parameter region between the opening
/// of the closure and the closing parenthesis that precedes the result.
pub proof fn lemma_builder_embeds_params(r: Resolve, m: InterfaceMethod, pn: Seq<char>)
    ensures
        builder_text(r, m, pn) == "NewFunctionBuilder().\nWithFunc(func(\n"@
            + import_params_region(crate::abi::sig_of(r, m.wit_function).params) + ")"@
            + result_sig_text(crate::abi::sig_of(r, m.wit_function).results) + " {\n"@
            + body_text(m, pn, crate::abi::sig_of(r, m.wit_function).params.len() as int)
            + "}).\nExport(\""@ + m.name@ + "\")."@,
{
    reveal_strlit(
        "NewFunctionBuilder().\nWithFunc(func(\n\tctx context.Context,\n\tmod api.Module,\n",
    );
    reveal_strlit("NewFunctionBuilder().\nWithFunc(func(\n");
    reveal_strlit("\tctx context.Context,\n\tmod api.Module,\n");
    assert("NewFunctionBuilder().\nWithFunc(func(\n\tctx context.Context,\n\tmod api.Module,\n"@
        =~= "NewFunctionBuilder().\nWithFunc(func(\n"@
        + "\tctx context.Context,\n\tmod api.Module,\n"@);
    assert(builder_text(r, m, pn) =~= "NewFunctionBuilder().\nWithFunc(func(\n"@
        + import_params_region(crate::abi::sig_of(r, m.wit_function).params) + ")"@
        + result_sig_text(crate::abi::sig_of(r, m.wit_function).results) + " {\n"@ + body_text(
        m,
        pn,
        crate::abi::sig_of(r, m.wit_function).params.len() as int,
    ) + "}).\nExport(\""@ + m.name@ + "\")."@);
}

proof fn lemma_render_commas(entries: Seq<Seq<char>>, i: int)
    requires
        0 <= i <= entries.len(),
        forall|j: int|
            0 <= j < entries.len() ==> avoids(#[trigger] entries[j], ',') && avoids(
                entries[j],
                '\n',
            ),
    ensures
        occurrences(render_param_lines(entries, i), ',') == entries.len() - i,
    decreases entries.len() - i,
{
    if i < entries.len() {
        lemma_render_commas(entries, i + 1);
        reveal_strlit("\t");
        reveal_strlit(",\n");
        let head = "\t"@ + entries[i];
        assert(avoids("\t"@, ','));
        lemma_avoids_concat("\t"@, entries[i], ',');
        lemma_occ_zero(head, ',');
        assert(occurrences(",\n"@, ',') == 1) by {
            assert(",\n"@ =~= seq![','].push('\n'));
            assert(seq![','].push('\n').drop_last() =~= seq![',']);
            lemma_occ_of_single(',');
        }
        lemma_occ_concat(head, ",\n"@, ',');
        lemma_occ_concat(head + ",\n"@, render_param_lines(entries, i + 1), ',');
        assert(render_param_lines(entries, i) =~= (head + ",\n"@) + render_param_lines(
            entries,
            i + 1,
        ));
    }
}

// ---------------------------------------------------------------------------
// Import-path conversions are plain casts
// ---------------------------------------------------------------------------
/// On the import path no value-slot encode or decode helper is referenced
/// for a primitive parameter: the lift of anything but a string or boolean
/// is exactly a cast of its flat argument to the native type, and the
/// lowering of an integer result is exactly a cast of the native value to
/// its flat width.
pub proof fn lemma_import_conversions_are_casts(p: Parameter, rt: crate::ir::WitReturn, k: int)
    ensures
        !(p.go_type@ is Str) && !(p.go_type@ is Bool) ==> lift_expr_text(p, k) == go_type_v_text(
            p.go_type@,
        ) + "(arg"@ + spec_dec(k) + ")"@,
        rt.go_type@ is Uint32 ==> crate::emit::lower_text(rt, k) == "\treturn uint32(ret0)\n"@,
        rt.go_type@ is Uint64 ==> crate::emit::lower_text(rt, k) == "\treturn uint64(ret0)\n"@,
{
}

// ---------------------------------------------------------------------------
// A single-result import closure declares its result and returns it
// ---------------------------------------------------------------------------
/// `s` contains the word `return` somewhere.
pub open spec fn has_return(s: Seq<char>) -> bool {
    exists|i: int| 0 <= i && i + 6 <= s.len() && #[trigger] s.subrange(i, i + 6) == "return"@
}

proof fn lemma_has_return_right(a: Seq<char>, b: Seq<char>)
    requires
        has_return(b),
    ensures
        has_return(a + b),
{
    let i = choose|i: int| 0 <= i && i + 6 <= b.len() && #[trigger] b.subrange(i, i + 6) == "return"@;
    assert((a + b).subrange(a.len() + i, a.len() + i + 6) =~= b.subrange(i, i + 6));
}

proof fn lemma_has_return_left(a: Seq<char>, b: Seq<char>)
    requires
        has_return(a),
    ensures
        has_return(a + b),
{
    let i = choose|i: int| 0 <= i && i + 6 <= a.len() && #[trigger] a.subrange(i, i + 6) == "return"@;
    assert((a + b).subrange(i, i + 6) =~= a.subrange(i, i + 6));
}

/// Exhibits the position of a `return` occurrence.
proof fn lemma_has_return_at(s: Seq<char>, i: int)
    requires
        0 <= i,
        i + 6 <= s.len(),
        s.subrange(i, i + 6) == "return"@,
    ensures
        has_return(s),
{
}

proof fn lemma_lower_has_return(rt: crate::ir::WitReturn, n: int)
    requires
        !(rt.go_type@ is Str),
    ensures
        has_return(crate::emit::lower_text(rt, n)),
{
    reveal_strlit("return");
    let s = crate::emit::lower_text(rt, n);
    match rt.go_type@ {
        GoTypeV::Bool => {
            reveal_strlit("\tif ret0 {\n\t\treturn 1\n\t}\n\treturn 0\n");
            assert(s.subrange(13, 19) =~= "return"@);
            lemma_has_return_at(s, 13);
        },
        GoTypeV::Uint64 | GoTypeV::Int64 => {
            reveal_strlit("\treturn uint64(ret0)\n");
            assert(s.subrange(1, 7) =~= "return"@);
            lemma_has_return_at(s, 1);
        },
        GoTypeV::Float32 => {
            reveal_strlit("\treturn float32(ret0)\n");
            assert(s.subrange(1, 7) =~= "return"@);
            lemma_has_return_at(s, 1);
        },
        GoTypeV::Float64 => {
            reveal_strlit("\treturn float64(ret0)\n");
            assert(s.subrange(1, 7) =~= "return"@);
            lemma_has_return_at(s, 1);
        },
        _ => {
            reveal_strlit("\treturn uint32(ret0)\n");
            assert(s.subrange(1, 7) =~= "return"@);
            lemma_has_return_at(s, 1);
        },
    }
}

/// A single flat result is never the flattening of a string, so the native
/// result type the analyzer resolved for it is not the Go string type.
proof fn lemma_flat_single_not_str(r: Resolve, t: crate::wit::Type, fuel: nat)
    requires
        crate::abi::spec_flat_type(r, t, fuel) matches Ok(s) && s.len() == 1,
    ensures
        !(crate::resolve::spec_resolve_type(r, t, fuel) matches Ok(g) && g is Str),
    decreases fuel,
{
    match t {
        crate::wit::Type::Id(id) => {
            if id < r.types@.len() {
                match r.types@[id as int].kind {
                    TypeDefKind::Type(t2) => {
                        if fuel > 0 {
                            lemma_flat_single_not_str(r, t2, (fuel - 1) as nat);
                        }
                    },
                    _ => {
                    },
                }
            }
        },
        _ => {
        },
    }
}

/// For an imported function whose flat Wasm signature has exactly one
/// result, the emitted closure declares that result's host type after the
/// closing parenthesis, and its body contains a `return` statement.
pub proof fn lemma_import_single_result(
    r: Resolve,
    f: Function,
    m: InterfaceMethod,
    pn: Seq<char>,
)
    requires
        method_ok(r, f, m),
        crate::abi::spec_wasm_signature(r, f) is Ok,
        crate::abi::sig_of(r, f).results.len() == 1,
    ensures
        result_sig_text(crate::abi::sig_of(r, m.wit_function).results) == " "@ + wasm_go_text(
            crate::abi::sig_of(r, f).results[0],
        ),
        has_return(builder_text(r, m, pn)),
{
    lemma_sig_congr(r, m.wit_function, f);
    let sig = crate::abi::sig_of(r, f);
    let t = f.result->0;
    assert(f.result is Some);
    assert(crate::abi::spec_flat_type(r, t, r.types@.len()) matches Ok(s) && s.len() == 1);
    lemma_flat_single_not_str(r, t, r.types@.len());
    assert(m.return_type is Some);
    let rt = m.return_type->0;
    assert(!(rt.go_type@ is Str));
    let nargs = crate::abi::sig_of(r, m.wit_function).params.len() as int;
    lemma_lower_has_return(rt, nargs);
    let call = "\tret0 := "@ + call_expr_text(pn, m) + "\n"@;
    lemma_has_return_right(call, crate::emit::lower_text(rt, nargs));
    lemma_has_return_right(
        lift_stmts_text(m.parameters@, 0, 0),
        call + crate::emit::lower_text(rt, nargs),
    );
    assert(body_text(m, pn, nargs) =~= lift_stmts_text(m.parameters@, 0, 0) + (call
        + crate::emit::lower_text(rt, nargs)));
    let pre = "NewFunctionBuilder().\nWithFunc(func(\n\tctx context.Context,\n\tmod api.Module,\n"@
        + closure_params_text(crate::abi::sig_of(r, m.wit_function).params, 0) + ")"@
        + result_sig_text(crate::abi::sig_of(r, m.wit_function).results) + " {\n"@;
    lemma_has_return_right(pre, body_text(m, pn, nargs));
    lemma_has_return_left(pre + body_text(m, pn, nargs), "}).\nExport(\""@);
    lemma_has_return_left(pre + body_text(m, pn, nargs) + "}).\nExport(\""@, m.name@);
    lemma_has_return_left(pre + body_text(m, pn, nargs) + "}).\nExport(\""@ + m.name@, "\")."@);
    assert(builder_text(r, m, pn) =~= pre + body_text(m, pn, nargs) + "}).\nExport(\""@ + m.name@
        + "\")."@);
}

} // verus!
