//! The import analyzer and code generator exercised end to end: host
//! function closures for the supported type shapes, and analysis of
//! records, enums and aliases.

use gravity::{
    AnalyzedImports, AnalyzedInterface, AnalyzedType, Enum, Field, Function, GoIdentifier, GoType,
    ImportAnalyzer, ImportCodeGenerator, Interface, InterfaceMethod, Package, PackageName, Param,
    Parameter, Record, Resolve, Type, TypeDef, TypeDefKind, TypeDefinition, WitReturn, World,
    WorldItem,
};

fn empty_analyzed() -> AnalyzedImports {
    AnalyzedImports {
        interfaces: vec![],
        standalone_types: vec![],
        standalone_functions: vec![],
        factory_name: GoIdentifier::public("TestFactory"),
        instance_name: GoIdentifier::public("TestInstance"),
        constructor_name: GoIdentifier::public("NewTestFactory"),
    }
}

#[test]
fn test_wit_type_driven_generation() {
    let func = Function {
        name: "test_function".to_string(),
        params: vec![Param { name: "input".to_string(), ty: Type::Str }],
        result: Some(Type::Str),
    };

    let resolve = Resolve::new();
    let analyzed = empty_analyzed();
    let generator = ImportCodeGenerator::new(&resolve, &analyzed);

    let method = InterfaceMethod {
        name: "test_function".to_string(),
        go_method_name: GoIdentifier::public("TestFunction"),
        parameters: vec![Parameter {
            name: GoIdentifier::private("input"),
            go_type: GoType::Str,
            wit_type: Type::Str,
        }],
        return_type: Some(WitReturn { go_type: GoType::Str, wit_type: Type::Str }),
        wit_function: func,
    };

    let param_name = GoIdentifier::private("handler");
    let code_str = generator
        .generate_host_function_builder(&method, &param_name)
        .unwrap();

    assert!(code_str.contains("NewFunctionBuilder"));
    assert!(code_str.contains("mod.Memory().Read"));
    assert!(code_str.contains("writeString"));

    println!("Generated code:\n{}", code_str);
}

#[test]
fn test_different_wit_types() {
    let analyzed = empty_analyzed();
    let resolve = Resolve::new();
    let generator = ImportCodeGenerator::new(&resolve, &analyzed);

    let u32_method = InterfaceMethod {
        name: "test_u32".to_string(),
        go_method_name: GoIdentifier::public("TestU32"),
        parameters: vec![Parameter {
            name: GoIdentifier::private("value"),
            go_type: GoType::Uint32,
            wit_type: Type::U32,
        }],
        return_type: None,
        wit_function: Function {
            name: "test_u32".to_string(),
            params: vec![Param { name: "value".to_string(), ty: Type::U32 }],
            result: None,
        },
    };

    let param_name = GoIdentifier::private("handler");
    let code_str = generator
        .generate_host_function_builder(&u32_method, &param_name)
        .unwrap();

    assert!(code_str.contains("arg0 uint32"));
    assert!(!code_str.contains("arg1 uint32"));
    assert!(!code_str.contains("mod.Memory().Read"));

    println!("U32 generated code:\n{}", code_str);
}

/// Import functions whose interface-description return type maps to a Wasm
/// result (e.g. `bool`, an enum) must produce a non-empty Go return type in
/// the host function signature.
#[test]
fn test_import_with_bool_return_type() {
    let analyzed = empty_analyzed();
    let resolve = Resolve::new();
    let generator = ImportCodeGenerator::new(&resolve, &analyzed);

    let method = InterfaceMethod {
        name: "is_valid".to_string(),
        go_method_name: GoIdentifier::public("IsValid"),
        parameters: vec![Parameter {
            name: GoIdentifier::private("input"),
            go_type: GoType::Str,
            wit_type: Type::Str,
        }],
        return_type: Some(WitReturn { go_type: GoType::Bool, wit_type: Type::Bool }),
        wit_function: Function {
            name: "is_valid".to_string(),
            params: vec![Param { name: "input".to_string(), ty: Type::Str }],
            result: Some(Type::Bool),
        },
    };

    let param_name = GoIdentifier::private("handler");
    let code_str = generator
        .generate_host_function_builder(&method, &param_name)
        .unwrap();

    assert!(
        code_str.contains(") uint32"),
        "Expected host function to return uint32, got:\n{code_str}"
    );
    assert!(
        code_str.contains("return"),
        "Expected a return statement in the generated code, got:\n{code_str}"
    );
}

/// Same as above but for enum return types.
#[test]
fn test_import_with_enum_return_type() {
    let mut resolve = Resolve::new();
    resolve.types.push(TypeDef {
        name: Some("status".to_string()),
        kind: TypeDefKind::Enum(Enum {
            cases: vec!["ok".to_string(), "error".to_string()],
        }),
    });

    let analyzed = empty_analyzed();
    let generator = ImportCodeGenerator::new(&resolve, &analyzed);

    let method = InterfaceMethod {
        name: "get_status".to_string(),
        go_method_name: GoIdentifier::public("GetStatus"),
        parameters: vec![Parameter {
            name: GoIdentifier::private("id"),
            go_type: GoType::Str,
            wit_type: Type::Str,
        }],
        return_type: Some(WitReturn {
            go_type: GoType::Named(GoIdentifier::public("status")),
            wit_type: Type::Id(0),
        }),
        wit_function: Function {
            name: "get_status".to_string(),
            params: vec![Param { name: "id".to_string(), ty: Type::Str }],
            result: Some(Type::Id(0)),
        },
    };

    let param_name = GoIdentifier::private("handler");
    let code_str = generator
        .generate_host_function_builder(&method, &param_name)
        .unwrap();

    assert!(
        code_str.contains(") uint32"),
        "Expected host function to return uint32, got:\n{code_str}"
    );
    assert!(
        code_str.contains("return"),
        "Expected a return statement in the generated code, got:\n{code_str}"
    );
}

/// Import functions with unsigned 32-bit parameters must generate simple
/// `uint32()` casts, not the runtime's value-slot decode helpers, which
/// convert between 32- and 64-bit widths and belong to the export path.
#[test]
fn test_import_u32_params_use_identity_cast() {
    let analyzed = empty_analyzed();
    let resolve = Resolve::new();
    let generator = ImportCodeGenerator::new(&resolve, &analyzed);

    let method = InterfaceMethod {
        name: "compute".to_string(),
        go_method_name: GoIdentifier::public("Compute"),
        parameters: vec![
            Parameter {
                name: GoIdentifier::private("a"),
                go_type: GoType::Uint32,
                wit_type: Type::U32,
            },
            Parameter {
                name: GoIdentifier::private("b"),
                go_type: GoType::Uint32,
                wit_type: Type::U32,
            },
        ],
        return_type: None,
        wit_function: Function {
            name: "compute".to_string(),
            params: vec![
                Param { name: "a".to_string(), ty: Type::U32 },
                Param { name: "b".to_string(), ty: Type::U32 },
            ],
            result: None,
        },
    };

    let param_name = GoIdentifier::private("handler");
    let code_str = generator
        .generate_host_function_builder(&method, &param_name)
        .unwrap();

    assert!(
        !code_str.contains("api.DecodeU32"),
        "Import must not use api.DecodeU32 (expects uint64 but params are uint32), got:\n{code_str}"
    );
    assert!(
        !code_str.contains("api.EncodeU32"),
        "Import must not use api.EncodeU32 (returns uint64 but context expects uint32), got:\n{code_str}"
    );
    assert!(
        code_str.contains("uint32("),
        "Expected uint32() identity cast in generated code, got:\n{code_str}"
    );
}

/// Import functions with zero interface-description parameters must not
/// produce a trailing comma after `mod api.Module` in the host function
/// signature.
#[test]
fn test_import_zero_params_no_trailing_comma() {
    let analyzed = empty_analyzed();
    let resolve = Resolve::new();
    let generator = ImportCodeGenerator::new(&resolve, &analyzed);

    let method = InterfaceMethod {
        name: "ping".to_string(),
        go_method_name: GoIdentifier::public("Ping"),
        parameters: vec![],
        return_type: None,
        wit_function: Function { name: "ping".to_string(), params: vec![], result: None },
    };

    let param_name = GoIdentifier::private("handler");
    let code_str = generator
        .generate_host_function_builder(&method, &param_name)
        .unwrap();

    assert!(
        !code_str.contains(",\n\t\t,"),
        "Host function signature must not have consecutive commas, got:\n{code_str}"
    );
    assert!(
        !code_str.contains(", ,"),
        "Host function signature must not have consecutive commas, got:\n{code_str}"
    );
    assert!(
        code_str.contains("mod api.Module,\n)") || code_str.contains("mod api.Module,\n\t)"),
        "Expected host function params to end with 'mod api.Module,' followed by closing paren, got:\n{code_str}"
    );
}

/// Zero parameters plus a boolean return exercises both the zero-parameter
/// layout and the result type together.
#[test]
fn test_import_zero_params_with_return_type() {
    let analyzed = empty_analyzed();
    let resolve = Resolve::new();
    let generator = ImportCodeGenerator::new(&resolve, &analyzed);

    let method = InterfaceMethod {
        name: "is_ready".to_string(),
        go_method_name: GoIdentifier::public("IsReady"),
        parameters: vec![],
        return_type: Some(WitReturn { go_type: GoType::Bool, wit_type: Type::Bool }),
        wit_function: Function {
            name: "is_ready".to_string(),
            params: vec![],
            result: Some(Type::Bool),
        },
    };

    let param_name = GoIdentifier::private("handler");
    let code_str = generator
        .generate_host_function_builder(&method, &param_name)
        .unwrap();

    assert!(
        !code_str.contains(",\n\t\t,") && !code_str.contains(", ,"),
        "Host function signature must not have consecutive commas, got:\n{code_str}"
    );
    assert!(
        code_str.contains(") uint32"),
        "Expected uint32 return type, got:\n{code_str}"
    );
    assert!(
        code_str.contains("return"),
        "Expected a return statement, got:\n{code_str}"
    );
}

fn create_test_world_with_interface() -> (Resolve, World) {
    let mut resolve = Resolve::new();

    resolve.packages.push(Package {
        name: PackageName {
            namespace: "test".to_string(),
            name: "pkg".to_string(),
            version: None,
        },
    });

    resolve.interfaces.push(Interface {
        name: Some("logger".to_string()),
        package: Some(0),
        functions: vec![Function {
            name: "log".to_string(),
            params: vec![Param { name: "message".to_string(), ty: Type::Str }],
            result: None,
        }],
        types: vec![],
    });

    let world = World {
        name: "test-world".to_string(),
        imports: vec![WorldItem::Interface { id: 0 }],
        exports: vec![],
    };

    (resolve, world)
}

#[test]
fn test_import_analyzer() {
    let (resolve, world) = create_test_world_with_interface();

    let analyzer = ImportAnalyzer::new(&resolve, &world);
    let analyzed = analyzer.analyze().unwrap();

    assert_eq!(analyzed.interfaces.len(), 1);
    let interface = &analyzed.interfaces[0];

    assert_eq!(interface.name, "logger");
    assert_eq!(interface.methods.len(), 1);

    let method = &interface.methods[0];
    assert_eq!(method.name, "log");
    assert_eq!(method.parameters.len(), 1);

    let param = &method.parameters[0];
    assert!(matches!(param.go_type, GoType::Str));
}

#[test]
fn test_import_code_generator() {
    let (resolve, world) = create_test_world_with_interface();

    let analyzer = ImportAnalyzer::new(&resolve, &world);
    let analyzed = analyzer.analyze().unwrap();

    let generator = ImportCodeGenerator::new(&resolve, &analyzed);
    let mut output = String::new();
    generator.format_into(&mut output);

    assert!(output.contains("type ITestWorldLogger interface"));
    assert!(output.contains("Log("));
}

#[test]
fn test_record_type_generation() {
    let mut resolve = Resolve::new();

    resolve.packages.push(Package {
        name: PackageName {
            namespace: "test".to_string(),
            name: "records".to_string(),
            version: None,
        },
    });

    resolve.types.push(TypeDef {
        name: Some("foo".to_string()),
        kind: TypeDefKind::Record(Record {
            fields: vec![
                Field { name: "float32".to_string(), ty: Type::F32 },
                Field { name: "float64".to_string(), ty: Type::F64 },
                Field { name: "uint32".to_string(), ty: Type::U32 },
                Field { name: "uint64".to_string(), ty: Type::U64 },
                Field { name: "s".to_string(), ty: Type::Str },
            ],
        }),
    });

    resolve.interfaces.push(Interface {
        name: Some("types".to_string()),
        package: Some(0),
        functions: vec![],
        types: vec![0],
    });

    let world = World {
        name: "test-world".to_string(),
        imports: vec![WorldItem::Interface { id: 0 }],
        exports: vec![],
    };

    let analyzer = ImportAnalyzer::new(&resolve, &world);

    // Direct analysis of the record definition.
    let analyzed_definition = analyzer
        .analyze_type_definition(&resolve.types[0].kind)
        .unwrap()
        .unwrap();

    match &analyzed_definition {
        TypeDefinition::Record { fields } => {
            assert_eq!(fields.len(), 5);
        }
        TypeDefinition::Alias { target: _ } => {
            panic!("Incorrectly identified as Alias");
        }
        _ => {
            panic!("Unexpected type definition");
        }
    }

    // Full analysis.
    let analyzed = analyzer.analyze().unwrap();

    assert_eq!(analyzed.interfaces.len(), 1);
    let interface = &analyzed.interfaces[0];
    assert_eq!(interface.name, "types");
    assert_eq!(interface.types.len(), 1);

    let analyzed_type = &interface.types[0];
    assert_eq!(analyzed_type.name, "foo");

    match &analyzed_type.definition {
        TypeDefinition::Record { fields } => {
            assert_eq!(fields.len(), 5);

            let field_names: Vec<String> = fields
                .iter()
                .map(|f| f.0.as_str().to_string())
                .collect();
            println!("Field names: {:?}", field_names);

            assert!(field_names.contains(&"Float32".to_string()));
            assert!(field_names.contains(&"Float64".to_string()));
            assert!(field_names.contains(&"Uint32".to_string()));
            assert!(field_names.contains(&"Uint64".to_string()));
            assert!(field_names.contains(&"S".to_string()));
        }
        TypeDefinition::Alias { target: _ } => {
            panic!("Analysis incorrectly produced Alias");
        }
        _ => {
            panic!("Analysis produced unexpected type definition");
        }
    }

    // Code generation.
    let generator = ImportCodeGenerator::new(&resolve, &analyzed);
    let mut output = String::new();
    generator.format_into(&mut output);
    println!("\nGenerated code:\n{}", output);

    assert!(
        !output.contains("type Foo Foo"),
        "Generated incorrect alias: 'type Foo Foo' - this creates infinite recursion!"
    );
    assert!(output.contains("type Foo struct"));
}

#[test]
fn test_record_vs_alias_analysis() {
    let mut resolve = Resolve::new();

    resolve.packages.push(Package {
        name: PackageName {
            namespace: "test".to_string(),
            name: "types".to_string(),
            version: None,
        },
    });

    resolve.types.push(TypeDef {
        name: Some("my_record".to_string()),
        kind: TypeDefKind::Record(Record {
            fields: vec![Field { name: "x".to_string(), ty: Type::U32 }],
        }),
    });
    resolve.types.push(TypeDef {
        name: Some("my_alias".to_string()),
        kind: TypeDefKind::Type(Type::Str),
    });

    resolve.interfaces.push(Interface {
        name: Some("types".to_string()),
        package: Some(0),
        functions: vec![],
        types: vec![0, 1],
    });

    let world = World {
        name: "test-world".to_string(),
        imports: vec![WorldItem::Interface { id: 0 }],
        exports: vec![],
    };

    let analyzer = ImportAnalyzer::new(&resolve, &world);

    let record_analysis = analyzer
        .analyze_type_definition(&resolve.types[0].kind)
        .unwrap()
        .unwrap();
    match record_analysis {
        TypeDefinition::Record { .. } => {}
        _ => {
            panic!("Record incorrectly analyzed");
        }
    }

    let alias_analysis = analyzer
        .analyze_type_definition(&resolve.types[1].kind)
        .unwrap()
        .unwrap();
    match alias_analysis {
        TypeDefinition::Alias { .. } => {}
        _ => {
            panic!("Alias incorrectly analyzed");
        }
    }
}
