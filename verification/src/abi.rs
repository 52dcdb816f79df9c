//! The flat Wasm signature of an imported function under the canonical
//! calling convention: every parameter flattens to core value types, a
//! string flattens to a pointer and a length, and a result that needs more
//! than one core value is returned indirectly through a trailing return
//! pointer.

use vstd::prelude::*;

use crate::errors::{CodegenError, SignatureReason, UnsupportedKind};
use crate::gotypes::WasmType;
use crate::wit::{Function, Param, Resolve, Type, TypeDefKind};

verus! {

/// The most flat core values a parameter list may occupy directly. The
/// canonical convention moves a wider list behind a single pointer into
/// guest memory (indirect parameters); reading such a block needs the
/// size-and-alignment oracle, so this generator reports those signatures
/// as unsupported instead of emitting closures the runtime would not match.
pub const MAX_FLAT_PARAMS: usize = 16;

/// A flat core signature seen at the spec level.
pub struct WasmSigV {
    pub params: Seq<WasmType>,
    pub results: Seq<WasmType>,
    pub retptr: bool,
}

/// A flat core signature: the value types of the parameters and results,
/// and whether the result travels through a trailing return pointer.
pub struct WasmSignature {
    pub params: Vec<WasmType>,
    pub results: Vec<WasmType>,
    pub retptr: bool,
}

impl View for WasmSignature {
    type V = WasmSigV;

    open spec fn view(&self) -> WasmSigV {
        WasmSigV { params: self.params@, results: self.results@, retptr: self.retptr }
    }
}

/// The flat value types `t` contributes to a core signature, with `fuel`
/// bounding alias chasing. Aggregates other than enums are not flattened
/// here and are reported against the signature.
pub open spec fn spec_flat_type(r: Resolve, t: Type, fuel: nat) -> Result<
    Seq<WasmType>,
    CodegenError,
>
    decreases fuel,
{
    match t {
        Type::Bool | Type::U8 | Type::U16 | Type::U32 | Type::S8 | Type::S16 | Type::S32 => Result::Ok(
            seq![WasmType::I32],
        ),
        Type::U64 | Type::S64 => Result::Ok(seq![WasmType::I64]),
        Type::F32 => Result::Ok(seq![WasmType::F32]),
        Type::F64 => Result::Ok(seq![WasmType::F64]),
        Type::Str => Result::Ok(seq![WasmType::Pointer, WasmType::Length]),
        Type::Char => Result::Err(CodegenError::UnsupportedTypeDef { kind: UnsupportedKind::Char }),
        Type::ErrorContext => Result::Err(
            CodegenError::UnsupportedTypeDef { kind: UnsupportedKind::ErrorContext },
        ),
        Type::Id(id) => {
            if id >= r.types@.len() {
                Result::Err(CodegenError::ResolverInconsistency)
            } else {
                match r.types@[id as int].kind {
                    TypeDefKind::Enum(_) => Result::Ok(seq![WasmType::I32]),
                    TypeDefKind::Type(t2) => {
                        if fuel == 0 {
                            Result::Err(CodegenError::ResolverInconsistency)
                        } else {
                            spec_flat_type(r, t2, (fuel - 1) as nat)
                        }
                    },
                    TypeDefKind::Record(_) | TypeDefKind::Variant(_) | TypeDefKind::Flags => Result::Err(
                        CodegenError::UnsupportedWasmSignature { reason: SignatureReason::Aggregate },
                    ),
                    TypeDefKind::Tuple => Result::Err(
                        CodegenError::UnsupportedTypeDef { kind: UnsupportedKind::Tuple },
                    ),
                    TypeDefKind::OptionOf => Result::Err(
                        CodegenError::UnsupportedTypeDef { kind: UnsupportedKind::OptionOf },
                    ),
                    TypeDefKind::ResultOf => Result::Err(
                        CodegenError::UnsupportedTypeDef { kind: UnsupportedKind::ResultOf },
                    ),
                    TypeDefKind::List => Result::Err(
                        CodegenError::UnsupportedTypeDef { kind: UnsupportedKind::List },
                    ),
                    TypeDefKind::FixedLengthList => Result::Err(
                        CodegenError::UnsupportedTypeDef { kind: UnsupportedKind::FixedLengthList },
                    ),
                    TypeDefKind::MapOf => Result::Err(
                        CodegenError::UnsupportedTypeDef { kind: UnsupportedKind::MapOf },
                    ),
                    TypeDefKind::Future => Result::Err(
                        CodegenError::UnsupportedTypeDef { kind: UnsupportedKind::Future },
                    ),
                    TypeDefKind::Stream => Result::Err(
                        CodegenError::UnsupportedTypeDef { kind: UnsupportedKind::Stream },
                    ),
                    TypeDefKind::Resource => Result::Err(
                        CodegenError::UnsupportedTypeDef { kind: UnsupportedKind::Resource },
                    ),
                    TypeDefKind::Handle => Result::Err(
                        CodegenError::UnsupportedTypeDef { kind: UnsupportedKind::Handle },
                    ),
                    TypeDefKind::Unknown => Result::Err(CodegenError::ResolverInconsistency),
                }
            }
        },
    }
}

/// The concatenated flat types of the parameters from index `i` on.
pub open spec fn spec_flat_params(r: Resolve, params: Seq<Param>, i: int) -> Result<
    Seq<WasmType>,
    CodegenError,
>
    decreases params.len() - i,
{
    if i < 0 || i >= params.len() {
        Result::Ok(Seq::<WasmType>::empty())
    } else {
        match spec_flat_type(r, params[i].ty, r.types@.len()) {
            Result::Err(e) => Result::Err(e),
            Result::Ok(head) => match spec_flat_params(r, params, i + 1) {
                Result::Err(e) => Result::Err(e),
                Result::Ok(tail) => Result::Ok(head + tail),
            },
        }
    }
}

/// The flat core signature of an imported function: flattened parameters,
/// rejected when they exceed the direct-parameter cap; an empty or single
/// flat result kept direct, a wider one moved behind a trailing return
/// pointer.
pub open spec fn spec_wasm_signature(r: Resolve, f: Function) -> Result<WasmSigV, CodegenError> {
    match spec_flat_params(r, f.params@, 0) {
        Result::Err(e) => Result::Err(e),
        Result::Ok(ps) => if ps.len() > MAX_FLAT_PARAMS as int {
            Result::Err(
                CodegenError::UnsupportedWasmSignature { reason: SignatureReason::FlatParamsOverCap },
            )
        } else {
            let rflats = match f.result {
                Option::Some(t) => spec_flat_type(r, t, r.types@.len()),
                Option::None => Result::Ok(Seq::<WasmType>::empty()),
            };
            match rflats {
                Result::Err(e) => Result::Err(e),
                Result::Ok(rs) => {
                    if rs.len() <= 1 {
                        Result::Ok(WasmSigV { params: ps, results: rs, retptr: false })
                    } else {
                        Result::Ok(
                            WasmSigV {
                                params: ps.push(WasmType::Pointer),
                                results: Seq::<WasmType>::empty(),
                                retptr: true,
                            },
                        )
                    }
                },
            }
        },
    }
}

/// The signature error of `f`, if any.
pub open spec fn sig_err(r: Resolve, f: Function) -> Option<CodegenError> {
    match spec_wasm_signature(r, f) {
        Result::Ok(_) => Option::None,
        Result::Err(e) => Option::Some(e),
    }
}

/// The signature of `f`, on inputs where it has one.
pub open spec fn sig_of(r: Resolve, f: Function) -> WasmSigV {
    match spec_wasm_signature(r, f) {
        Result::Ok(s) => s,
        Result::Err(_) => WasmSigV {
            params: Seq::<WasmType>::empty(),
            results: Seq::<WasmType>::empty(),
            retptr: false,
        },
    }
}

fn flat_type(r: &Resolve, t: &Type, fuel: usize, out: &mut Vec<WasmType>) -> (res: Result<
    (),
    CodegenError,
>)
    ensures
        match res {
            Ok(_) => {
                &&& spec_flat_type(*r, *t, fuel as nat) is Ok
                &&& final(out)@ == old(out)@ + spec_flat_type(*r, *t, fuel as nat)->Ok_0
            },
            Err(e) => {
                &&& spec_flat_type(*r, *t, fuel as nat) == Result::<Seq<WasmType>, CodegenError>::Err(e)
                &&& final(out)@ == old(out)@
            },
        },
    decreases fuel,
{
    match t {
        Type::Bool | Type::U8 | Type::U16 | Type::U32 | Type::S8 | Type::S16 | Type::S32 => {
            out.push(WasmType::I32);
            proof {
                assert(out@ =~= old(out)@ + spec_flat_type(*r, *t, fuel as nat)->Ok_0);
            }
            Ok(())
        },
        Type::U64 | Type::S64 => {
            out.push(WasmType::I64);
            proof {
                assert(out@ =~= old(out)@ + spec_flat_type(*r, *t, fuel as nat)->Ok_0);
            }
            Ok(())
        },
        Type::F32 => {
            out.push(WasmType::F32);
            proof {
                assert(out@ =~= old(out)@ + spec_flat_type(*r, *t, fuel as nat)->Ok_0);
            }
            Ok(())
        },
        Type::F64 => {
            out.push(WasmType::F64);
            proof {
                assert(out@ =~= old(out)@ + spec_flat_type(*r, *t, fuel as nat)->Ok_0);
            }
            Ok(())
        },
        Type::Str => {
            out.push(WasmType::Pointer);
            out.push(WasmType::Length);
            proof {
                assert(out@ =~= old(out)@ + spec_flat_type(*r, *t, fuel as nat)->Ok_0);
            }
            Ok(())
        },
        Type::Char => Err(CodegenError::UnsupportedTypeDef { kind: UnsupportedKind::Char }),
        Type::ErrorContext => Err(
            CodegenError::UnsupportedTypeDef { kind: UnsupportedKind::ErrorContext },
        ),
        Type::Id(id) => {
            if *id >= r.types.len() {
                return Err(CodegenError::ResolverInconsistency);
            }
            match &r.types[*id].kind {
                TypeDefKind::Enum(_) => {
                    out.push(WasmType::I32);
                    proof {
                        assert(out@ =~= old(out)@ + spec_flat_type(*r, *t, fuel as nat)->Ok_0);
                    }
                    Ok(())
                },
                TypeDefKind::Type(t2) => {
                    if fuel == 0 {
                        Err(CodegenError::ResolverInconsistency)
                    } else {
                        flat_type(r, t2, fuel - 1, out)
                    }
                },
                TypeDefKind::Record(_) | TypeDefKind::Variant(_) | TypeDefKind::Flags => Err(
                    CodegenError::UnsupportedWasmSignature { reason: SignatureReason::Aggregate },
                ),
                TypeDefKind::Tuple => Err(
                    CodegenError::UnsupportedTypeDef { kind: UnsupportedKind::Tuple },
                ),
                TypeDefKind::OptionOf => Err(
                    CodegenError::UnsupportedTypeDef { kind: UnsupportedKind::OptionOf },
                ),
                TypeDefKind::ResultOf => Err(
                    CodegenError::UnsupportedTypeDef { kind: UnsupportedKind::ResultOf },
                ),
                TypeDefKind::List => Err(
                    CodegenError::UnsupportedTypeDef { kind: UnsupportedKind::List },
                ),
                TypeDefKind::FixedLengthList => Err(
                    CodegenError::UnsupportedTypeDef { kind: UnsupportedKind::FixedLengthList },
                ),
                TypeDefKind::MapOf => Err(
                    CodegenError::UnsupportedTypeDef { kind: UnsupportedKind::MapOf },
                ),
                TypeDefKind::Future => Err(
                    CodegenError::UnsupportedTypeDef { kind: UnsupportedKind::Future },
                ),
                TypeDefKind::Stream => Err(
                    CodegenError::UnsupportedTypeDef { kind: UnsupportedKind::Stream },
                ),
                TypeDefKind::Resource => Err(
                    CodegenError::UnsupportedTypeDef { kind: UnsupportedKind::Resource },
                ),
                TypeDefKind::Handle => Err(
                    CodegenError::UnsupportedTypeDef { kind: UnsupportedKind::Handle },
                ),
                TypeDefKind::Unknown => Err(CodegenError::ResolverInconsistency),
            }
        },
    }
}

/// Computes the flat core signature of an imported function; a parameter
/// list that flattens past the direct-parameter cap is reported as an
/// unsupported signature.
#[verifier::loop_isolation(false)]
pub fn wasm_signature(resolve: &Resolve, f: &Function) -> (res: Result<
    WasmSignature,
    CodegenError,
>)
    ensures
        match res {
            Ok(sig) => spec_wasm_signature(*resolve, *f) == Result::<WasmSigV, CodegenError>::Ok(
                sig@,
            ),
            Err(e) => spec_wasm_signature(*resolve, *f) == Result::<WasmSigV, CodegenError>::Err(
                e,
            ),
        },
{
    let mut params: Vec<WasmType> = Vec::new();
    let mut i: usize = 0;
    while i < f.params.len()
        invariant
            0 <= i <= f.params@.len(),
            spec_flat_params(*resolve, f.params@, i as int) is Ok ==> {
                &&& spec_flat_params(*resolve, f.params@, 0) is Ok
                &&& spec_flat_params(*resolve, f.params@, 0)->Ok_0 == params@ + spec_flat_params(
                    *resolve,
                    f.params@,
                    i as int,
                )->Ok_0
            },
            spec_flat_params(*resolve, f.params@, i as int) is Err ==> spec_flat_params(
                *resolve,
                f.params@,
                0,
            ) == spec_flat_params(*resolve, f.params@, i as int),
        decreases f.params@.len() - i,
    {
        let fuel = resolve.types.len();
        match flat_type(resolve, &f.params[i].ty, fuel, &mut params) {
            Ok(_) => {
            },
            Err(e) => {
                return Err(e);
            },
        }
        i = i + 1;
    }
    if params.len() > MAX_FLAT_PARAMS {
        return Err(
            CodegenError::UnsupportedWasmSignature { reason: SignatureReason::FlatParamsOverCap },
        );
    }
    let mut results: Vec<WasmType> = Vec::new();
    match &f.result {
        Some(t) => {
            let fuel = resolve.types.len();
            match flat_type(resolve, t, fuel, &mut results) {
                Ok(_) => {
                },
                Err(e) => {
                    return Err(e);
                },
            }
        },
        None => {
        },
    }
    if results.len() <= 1 {
        Ok(WasmSignature { params, results, retptr: false })
    } else {
        params.push(WasmType::Pointer);
        let empty_results: Vec<WasmType> = Vec::new();
        Ok(WasmSignature { params, results: empty_results, retptr: true })
    }
}

} // verus!
