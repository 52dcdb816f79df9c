//! Go-side type expressions, Wasm primitive types, and qualified Go imports.

use vstd::prelude::*;

use crate::ident::GoIdentifier;
use crate::strutil::push_char;

verus! {

/// A Go type expression as it appears in emitted source.
pub enum GoType {
    Bool,
    Uint8,
    Uint16,
    Uint32,
    Uint64,
    Int8,
    Int16,
    Int32,
    Int64,
    Float32,
    Float64,
    /// The Go `string` type.
    Str,
    /// A named Go type minted from an interface-description type name.
    Named(GoIdentifier),
}

/// The mathematical shape of a Go type expression: the named case carries
/// the identifier text.
pub enum GoTypeV {
    Bool,
    Uint8,
    Uint16,
    Uint32,
    Uint64,
    Int8,
    Int16,
    Int32,
    Int64,
    Float32,
    Float64,
    Str,
    Named(Seq<char>),
}

impl View for GoType {
    type V = GoTypeV;

    open spec fn view(&self) -> GoTypeV {
        match self {
            GoType::Bool => GoTypeV::Bool,
            GoType::Uint8 => GoTypeV::Uint8,
            GoType::Uint16 => GoTypeV::Uint16,
            GoType::Uint32 => GoTypeV::Uint32,
            GoType::Uint64 => GoTypeV::Uint64,
            GoType::Int8 => GoTypeV::Int8,
            GoType::Int16 => GoTypeV::Int16,
            GoType::Int32 => GoTypeV::Int32,
            GoType::Int64 => GoTypeV::Int64,
            GoType::Float32 => GoTypeV::Float32,
            GoType::Float64 => GoTypeV::Float64,
            GoType::Str => GoTypeV::Str,
            GoType::Named(id) => GoTypeV::Named(id@),
        }
    }
}

/// The textual Go spelling of a type shape.
pub open spec fn go_type_v_text(t: GoTypeV) -> Seq<char> {
    match t {
        GoTypeV::Bool => "bool"@,
        GoTypeV::Uint8 => "uint8"@,
        GoTypeV::Uint16 => "uint16"@,
        GoTypeV::Uint32 => "uint32"@,
        GoTypeV::Uint64 => "uint64"@,
        GoTypeV::Int8 => "int8"@,
        GoTypeV::Int16 => "int16"@,
        GoTypeV::Int32 => "int32"@,
        GoTypeV::Int64 => "int64"@,
        GoTypeV::Float32 => "float32"@,
        GoTypeV::Float64 => "float64"@,
        GoTypeV::Str => "string"@,
        GoTypeV::Named(text) => text,
    }
}

impl GoType {
    pub fn duplicate(&self) -> (r: GoType)
        ensures
            r == *self,
    {
        match self {
            GoType::Bool => GoType::Bool,
            GoType::Uint8 => GoType::Uint8,
            GoType::Uint16 => GoType::Uint16,
            GoType::Uint32 => GoType::Uint32,
            GoType::Uint64 => GoType::Uint64,
            GoType::Int8 => GoType::Int8,
            GoType::Int16 => GoType::Int16,
            GoType::Int32 => GoType::Int32,
            GoType::Int64 => GoType::Int64,
            GoType::Float32 => GoType::Float32,
            GoType::Float64 => GoType::Float64,
            GoType::Str => GoType::Str,
            GoType::Named(id) => GoType::Named(id.duplicate()),
        }
    }
}

/// Appends the Go spelling of `t` to `out`.
pub fn push_go_type(out: &mut String, t: &GoType)
    ensures
        final(out)@ == old(out)@ + go_type_v_text(t@),
{
    match t {
        GoType::Bool => out.append("bool"),
        GoType::Uint8 => out.append("uint8"),
        GoType::Uint16 => out.append("uint16"),
        GoType::Uint32 => out.append("uint32"),
        GoType::Uint64 => out.append("uint64"),
        GoType::Int8 => out.append("int8"),
        GoType::Int16 => out.append("int16"),
        GoType::Int32 => out.append("int32"),
        GoType::Int64 => out.append("int64"),
        GoType::Float32 => out.append("float32"),
        GoType::Float64 => out.append("float64"),
        GoType::Str => out.append("string"),
        GoType::Named(id) => out.append(id.as_str()),
    }
}

/// The result position of a Go function signature.
pub enum GoResult {
    Empty,
    Anon(GoType),
}

/// What follows the closing parenthesis of a signature: nothing, or one
/// space and the result type.
pub open spec fn go_result_text(r: GoResult) -> Seq<char> {
    match r {
        GoResult::Empty => Seq::<char>::empty(),
        GoResult::Anon(t) => " "@ + go_type_v_text(t@),
    }
}

/// Appends the result position text of `r` to `out`.
pub fn push_go_result(out: &mut String, r: &GoResult)
    ensures
        final(out)@ == old(out)@ + go_result_text(*r),
{
    let ghost start = out@;
    match r {
        GoResult::Empty => {
        },
        GoResult::Anon(t) => {
            out.append(" ");
            push_go_type(out, t);
            assert(out@ =~= start + go_result_text(*r));
        },
    }
}

/// A WebAssembly primitive value type in a flat core signature.
#[derive(Clone, Copy, PartialEq, Eq, Structural, Debug)]
pub enum WasmType {
    I32,
    I64,
    F32,
    F64,
    Pointer,
    PointerOrI64,
    Length,
}

/// The Go type with the value range of a flat Wasm parameter or result:
/// 32-bit classes map to `uint32`, 64-bit classes to `uint64`, floats to
/// their Go float type.
pub open spec fn spec_resolve_wasm_type(wt: WasmType) -> GoType {
    match wt {
        WasmType::I32 => GoType::Uint32,
        WasmType::I64 => GoType::Uint64,
        WasmType::F32 => GoType::Float32,
        WasmType::F64 => GoType::Float64,
        WasmType::Pointer => GoType::Uint32,
        WasmType::PointerOrI64 => GoType::Uint64,
        WasmType::Length => GoType::Uint32,
    }
}

/// Maps a flat Wasm type to the Go type used for it in host signatures.
pub fn resolve_wasm_type(wt: &WasmType) -> (r: GoType)
    ensures
        r == spec_resolve_wasm_type(*wt),
{
    match wt {
        WasmType::I32 => GoType::Uint32,
        WasmType::I64 => GoType::Uint64,
        WasmType::F32 => GoType::Float32,
        WasmType::F64 => GoType::Float64,
        WasmType::Pointer => GoType::Uint32,
        WasmType::PointerOrI64 => GoType::Uint64,
        WasmType::Length => GoType::Uint32,
    }
}

/// A Go-level import: a package path and an exported name in it.
#[derive(Clone, Copy)]
pub struct GoImport(pub &'static str, pub &'static str);

/// The start of the last `/`-separated segment of the first `i` characters.
pub open spec fn base_start(s: Seq<char>, i: int) -> int
    decreases i,
{
    if i <= 0 {
        0
    } else if s[i - 1] == '/' {
        i
    } else {
        base_start(s, i - 1)
    }
}

/// The qualified reference text for an import: the last segment of the
/// package path, a dot, and the name (`"context.Context"`, `"api.Module"`).
pub open spec fn qualified_text(pkg: Seq<char>, name: Seq<char>) -> Seq<char> {
    pkg.subrange(base_start(pkg, pkg.len() as int), pkg.len() as int) + "."@ + name
}

proof fn lemma_base_start_bounds(s: Seq<char>, i: int)
    requires
        0 <= i,
    ensures
        0 <= base_start(s, i) <= i,
    decreases i,
{
    if i > 0 && s[i - 1] != '/' {
        lemma_base_start_bounds(s, i - 1);
    }
}

/// The name of the Wasm value-type constant that stands for `t` in the
/// runtime's API.
pub open spec fn wasm_value_type_name(t: WasmType) -> Seq<char> {
    match t {
        WasmType::I32 => "ValueTypeI32"@,
        WasmType::I64 => "ValueTypeI64"@,
        WasmType::F32 => "ValueTypeF32"@,
        WasmType::F64 => "ValueTypeF64"@,
        WasmType::Pointer => "ValueTypeI32"@,
        WasmType::PointerOrI64 => "ValueTypeI64"@,
        WasmType::Length => "ValueTypeI32"@,
    }
}

impl GoImport {
    /// The runtime API import for the value-type constant of a flat Wasm
    /// type; pointers and lengths are plain 32-bit values, `PointerOrI64`
    /// is a 64-bit value.
    pub fn from(typ: &WasmType) -> (r: GoImport)
        ensures
            r.0@ == "github.com/tetratelabs/wazero/api"@,
            r.1@ == wasm_value_type_name(*typ),
    {
        match typ {
            WasmType::I32 => GoImport("github.com/tetratelabs/wazero/api", "ValueTypeI32"),
            WasmType::I64 => GoImport("github.com/tetratelabs/wazero/api", "ValueTypeI64"),
            WasmType::F32 => GoImport("github.com/tetratelabs/wazero/api", "ValueTypeF32"),
            WasmType::F64 => GoImport("github.com/tetratelabs/wazero/api", "ValueTypeF64"),
            WasmType::Pointer => GoImport("github.com/tetratelabs/wazero/api", "ValueTypeI32"),
            WasmType::PointerOrI64 => GoImport("github.com/tetratelabs/wazero/api", "ValueTypeI64"),
            WasmType::Length => GoImport("github.com/tetratelabs/wazero/api", "ValueTypeI32"),
        }
    }

    /// Appends the qualified reference (`pkg-base.Name`) to `out`.
    pub fn format_into(&self, out: &mut String)
        ensures
            final(out)@ == old(out)@ + qualified_text(self.0@, self.1@),
    {
        let ghost init = out@;
        let pkg = self.0;
        let n = pkg.unicode_len();
        let mut start: usize = 0;
        let mut i: usize = 0;
        while i < n
            invariant
                0 <= i <= n,
                n == pkg@.len(),
                start == base_start(pkg@, i as int),
                0 <= start <= i,
            decreases n - i,
        {
            if pkg.get_char(i) == '/' {
                start = i + 1;
            }
            i = i + 1;
        }
        let mut j: usize = start;
        while j < n
            invariant
                start <= j <= n,
                n == pkg@.len(),
                out@ == init + pkg@.subrange(start as int, j as int),
            decreases n - j,
        {
            let c = pkg.get_char(j);
            push_char(out, c);
            proof {
                assert(pkg@.subrange(start as int, j + 1) =~= pkg@.subrange(
                    start as int,
                    j as int,
                ).push(pkg@[j as int]));
            }
            j = j + 1;
        }
        out.append(".");
        out.append(self.1);
        proof {
            assert(out@ =~= init + qualified_text(self.0@, self.1@));
        }
    }
}

/// The Go import for `context.Context`.
pub fn context_context() -> (r: GoImport)
    ensures
        r.0@ == "context"@,
        r.1@ == "Context"@,
{
    GoImport("context", "Context")
}

/// The Go import for the runtime's module handle type `api.Module`.
pub fn wazero_api_module() -> (r: GoImport)
    ensures
        r.0@ == "github.com/tetratelabs/wazero/api"@,
        r.1@ == "Module"@,
{
    GoImport("github.com/tetratelabs/wazero/api", "Module")
}

} // verus!
