//! The intermediate representation built from a world's imports: interfaces
//! with their methods and types, standalone types and functions, and the
//! minted factory, instance and constructor names. All lists keep the
//! declaration order of the source.

use vstd::prelude::*;

use crate::gotypes::GoType;
use crate::ident::GoIdentifier;
use crate::wit::{Function, Type};

verus! {

/// The analyzed shape of a named type definition.
pub enum TypeDefinition {
    Record { fields: Vec<(GoIdentifier, GoType)> },
    Enum { cases: Vec<String> },
    Variant { cases: Vec<(String, Option<GoType>)> },
    Alias { target: GoType },
    Primitive,
}

pub struct AnalyzedType {
    pub name: String,
    pub go_type_name: GoIdentifier,
    pub definition: TypeDefinition,
}

pub struct Parameter {
    pub name: GoIdentifier,
    pub go_type: GoType,
    pub wit_type: Type,
}

pub struct WitReturn {
    pub go_type: GoType,
    pub wit_type: Type,
}

pub struct InterfaceMethod {
    pub name: String,
    pub go_method_name: GoIdentifier,
    pub parameters: Vec<Parameter>,
    pub return_type: Option<WitReturn>,
    pub wit_function: Function,
}

pub struct AnalyzedFunction {
    pub name: String,
    pub go_name: GoIdentifier,
    pub parameters: Vec<Parameter>,
    pub return_type: Option<GoType>,
}

pub struct AnalyzedInterface {
    pub name: String,
    pub methods: Vec<InterfaceMethod>,
    pub types: Vec<AnalyzedType>,
    pub constructor_param_name: GoIdentifier,
    pub go_interface_name: GoIdentifier,
    pub wazero_module_name: String,
}

pub struct AnalyzedImports {
    pub interfaces: Vec<AnalyzedInterface>,
    pub standalone_types: Vec<AnalyzedType>,
    pub standalone_functions: Vec<AnalyzedFunction>,
    pub factory_name: GoIdentifier,
    pub instance_name: GoIdentifier,
    pub constructor_name: GoIdentifier,
}

} // verus!
