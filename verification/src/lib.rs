//! Generator core for turning a resolved interface-description world into
//! Go host-binding source text: an identifier mint, a type resolver, an
//! import analyzer building an intermediate representation, and emitters
//! that render the IR as Go declarations and host-function registrations.

pub mod abi;
pub mod analysis;
pub mod analyzer;
pub mod emit;
pub mod errors;
pub mod generator;
pub mod gotypes;
pub mod ident;
pub mod ir;
pub mod laws;
pub mod resolve;
pub mod strutil;
pub mod wit;

pub use abi::wasm_signature;
pub use abi::WasmSignature;
pub use analyzer::ImportAnalyzer;
pub use errors::CodegenError;
pub use errors::CollisionScope;
pub use errors::NamedEntity;
pub use errors::SignatureReason;
pub use errors::UnsupportedKind;
pub use generator::ImportChain;
pub use generator::ImportCodeGenerator;
pub use gotypes::resolve_wasm_type;
pub use gotypes::GoImport;
pub use gotypes::GoResult;
pub use gotypes::GoType;
pub use gotypes::WasmType;
pub use ident::GoIdentifier;
pub use ir::AnalyzedFunction;
pub use ir::AnalyzedImports;
pub use ir::AnalyzedInterface;
pub use ir::AnalyzedType;
pub use ir::InterfaceMethod;
pub use ir::Parameter;
pub use ir::TypeDefinition;
pub use ir::WitReturn;
pub use resolve::resolve_type;
pub use wit::Enum;
pub use wit::Field;
pub use wit::Function;
pub use wit::Interface;
pub use wit::Package;
pub use wit::PackageName;
pub use wit::Param;
pub use wit::Record;
pub use wit::Resolve;
pub use wit::Type;
pub use wit::TypeDef;
pub use wit::TypeDefKind;
pub use wit::Variant;
pub use wit::VariantCase;
pub use wit::World;
pub use wit::WorldItem;
