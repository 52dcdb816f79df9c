//! The identifier mint, the type resolver, the flat signature computation,
//! the error cases, and end-to-end import chains on small worlds.

use gravity::{
    CodegenError, CollisionScope, Enum, Field, Function, GoIdentifier, GoImport, ImportAnalyzer,
    ImportCodeGenerator, Interface, NamedEntity, Package, PackageName, Param, Record, Resolve,
    SignatureReason, Type, TypeDef, TypeDefKind, UnsupportedKind, WasmType, World, WorldItem,
    resolve_type, wasm_signature,
};

// ---------------------------------------------------------------------------
// Identifier mint
// ---------------------------------------------------------------------------
#[test]
fn test_mint_public_names() {
    assert_eq!(GoIdentifier::public("i-test-world-logger").as_str(), "ITestWorldLogger");
    assert_eq!(GoIdentifier::public("float32").as_str(), "Float32");
    assert_eq!(GoIdentifier::public("test_u32").as_str(), "TestU32");
    assert_eq!(GoIdentifier::public("new-hello-factory").as_str(), "NewHelloFactory");
    assert_eq!(GoIdentifier::public("get_status").as_str(), "GetStatus");
    assert_eq!(GoIdentifier::public("s").as_str(), "S");
    assert_eq!(GoIdentifier::public("dotted.name here").as_str(), "DottedNameHere");
    assert_eq!(GoIdentifier::public("alreadyCamelCase").as_str(), "AlreadyCamelCase");
}

#[test]
fn test_mint_private_names() {
    assert_eq!(GoIdentifier::private("is-valid").as_str(), "isValid");
    assert_eq!(GoIdentifier::private("logger").as_str(), "logger");
    assert_eq!(GoIdentifier::private("err0").as_str(), "err0");
    assert_eq!(GoIdentifier::private("HTTPServer").as_str(), "httpserver");
    assert_eq!(GoIdentifier::private("some-long-name").as_str(), "someLongName");
}

#[test]
fn test_mint_keywords_get_suffix() {
    assert_eq!(GoIdentifier::private("type").as_str(), "type_");
    assert_eq!(GoIdentifier::private("func").as_str(), "func_");
    assert_eq!(GoIdentifier::private("interface").as_str(), "interface_");
    assert_eq!(GoIdentifier::private("go").as_str(), "go_");
    // Public names are capitalized and never collide with a keyword.
    assert_eq!(GoIdentifier::public("type").as_str(), "Type");
}

// ---------------------------------------------------------------------------
// Type resolver
// ---------------------------------------------------------------------------
#[test]
fn test_resolve_primitives() {
    let resolve = Resolve::new();
    assert!(matches!(resolve_type(&Type::U32, &resolve), Ok(gravity::GoType::Uint32)));
    assert!(matches!(resolve_type(&Type::S64, &resolve), Ok(gravity::GoType::Int64)));
    assert!(matches!(resolve_type(&Type::Str, &resolve), Ok(gravity::GoType::Str)));
    assert!(matches!(resolve_type(&Type::Bool, &resolve), Ok(gravity::GoType::Bool)));
}

#[test]
fn test_resolve_named_and_alias() {
    let mut resolve = Resolve::new();
    resolve.types.push(TypeDef {
        name: Some("status".to_string()),
        kind: TypeDefKind::Enum(Enum { cases: vec!["ok".to_string()] }),
    });
    resolve.types.push(TypeDef {
        name: Some("shortcut".to_string()),
        kind: TypeDefKind::Type(Type::U64),
    });

    match resolve_type(&Type::Id(0), &resolve) {
        Ok(gravity::GoType::Named(id)) => assert_eq!(id.as_str(), "Status"),
        _ => panic!("enum reference should resolve to its minted name"),
    }
    assert!(matches!(resolve_type(&Type::Id(1), &resolve), Ok(gravity::GoType::Uint64)));
}

#[test]
fn test_resolve_alias_cycle_is_reported() {
    let mut resolve = Resolve::new();
    resolve.types.push(TypeDef {
        name: Some("a".to_string()),
        kind: TypeDefKind::Type(Type::Id(1)),
    });
    resolve.types.push(TypeDef {
        name: Some("b".to_string()),
        kind: TypeDefKind::Type(Type::Id(0)),
    });
    assert!(matches!(
        resolve_type(&Type::Id(0), &resolve),
        Err(CodegenError::ResolverInconsistency)
    ));
}

#[test]
fn test_resolve_dangling_id_is_reported() {
    let resolve = Resolve::new();
    assert!(matches!(
        resolve_type(&Type::Id(7), &resolve),
        Err(CodegenError::ResolverInconsistency)
    ));
}

#[test]
fn test_resolve_char_is_unsupported() {
    let resolve = Resolve::new();
    assert!(matches!(
        resolve_type(&Type::Char, &resolve),
        Err(CodegenError::UnsupportedTypeDef { kind: UnsupportedKind::Char })
    ));
}

// ---------------------------------------------------------------------------
// Flat Wasm signatures
// ---------------------------------------------------------------------------
#[test]
fn test_wasm_signature_string_param() {
    let resolve = Resolve::new();
    let f = Function {
        name: "log".to_string(),
        params: vec![Param { name: "m".to_string(), ty: Type::Str }],
        result: None,
    };
    let sig = wasm_signature(&resolve, &f).unwrap();
    assert_eq!(sig.params, vec![WasmType::Pointer, WasmType::Length]);
    assert!(sig.results.is_empty());
    assert!(!sig.retptr);
}

#[test]
fn test_wasm_signature_string_result_uses_retptr() {
    let resolve = Resolve::new();
    let f = Function {
        name: "greet".to_string(),
        params: vec![],
        result: Some(Type::Str),
    };
    let sig = wasm_signature(&resolve, &f).unwrap();
    assert_eq!(sig.params, vec![WasmType::Pointer]);
    assert!(sig.results.is_empty());
    assert!(sig.retptr);
}

#[test]
fn test_wasm_signature_widths() {
    let resolve = Resolve::new();
    let f = Function {
        name: "mix".to_string(),
        params: vec![
            Param { name: "a".to_string(), ty: Type::U64 },
            Param { name: "b".to_string(), ty: Type::F32 },
            Param { name: "c".to_string(), ty: Type::Bool },
        ],
        result: Some(Type::F64),
    };
    let sig = wasm_signature(&resolve, &f).unwrap();
    assert_eq!(sig.params, vec![WasmType::I64, WasmType::F32, WasmType::I32]);
    assert_eq!(sig.results, vec![WasmType::F64]);
}

#[test]
fn test_flat_params_over_cap_are_rejected() {
    let resolve = Resolve::new();
    // 16 flat values pass; 17 exceed the direct-parameter cap.
    let mut params16: Vec<Param> = Vec::new();
    for i in 0..16 {
        params16.push(Param { name: format!("p{i}"), ty: Type::U32 });
    }
    let ok16 = Function { name: "wide".to_string(), params: params16, result: None };
    assert!(wasm_signature(&resolve, &ok16).is_ok());

    let mut params17: Vec<Param> = Vec::new();
    for i in 0..17 {
        params17.push(Param { name: format!("p{i}"), ty: Type::U32 });
    }
    let over = Function { name: "wider".to_string(), params: params17, result: None };
    assert!(matches!(
        wasm_signature(&resolve, &over),
        Err(CodegenError::UnsupportedWasmSignature { reason: SignatureReason::FlatParamsOverCap })
    ));

    // Nine strings flatten to 18 core values: also over the cap.
    let mut strs: Vec<Param> = Vec::new();
    for i in 0..9 {
        strs.push(Param { name: format!("s{i}"), ty: Type::Str });
    }
    let wide_strs = Function { name: "strings".to_string(), params: strs, result: None };
    assert!(matches!(
        wasm_signature(&resolve, &wide_strs),
        Err(CodegenError::UnsupportedWasmSignature { reason: SignatureReason::FlatParamsOverCap })
    ));
}

// ---------------------------------------------------------------------------
// Enum emission: one constant per case, ordinals from zero
// ---------------------------------------------------------------------------
#[test]
fn test_enum_type_generation() {
    let mut resolve = Resolve::new();
    resolve.types.push(TypeDef {
        name: Some("status".to_string()),
        kind: TypeDefKind::Enum(Enum {
            cases: vec!["ok".to_string(), "error".to_string()],
        }),
    });
    resolve.interfaces.push(Interface {
        name: Some("checker".to_string()),
        package: None,
        functions: vec![],
        types: vec![0],
    });
    let world = World {
        name: "hello".to_string(),
        imports: vec![WorldItem::Interface { id: 0 }],
        exports: vec![],
    };

    let analyzer = ImportAnalyzer::new(&resolve, &world);
    let analyzed = analyzer.analyze().unwrap();
    let generator = ImportCodeGenerator::new(&resolve, &analyzed);
    let mut out = String::new();
    generator.format_into(&mut out);

    assert!(out.contains("type Status uint32"));
    assert!(out.contains("Ok Status = 0"));
    assert!(out.contains("Error Status = 1"));
    // Exactly two constants: no third ordinal appears.
    assert!(!out.contains(" = 2"));
}

// ---------------------------------------------------------------------------
// Import chains end to end
// ---------------------------------------------------------------------------
#[test]
fn test_string_import_chain() {
    let mut resolve = Resolve::new();
    resolve.packages.push(Package {
        name: PackageName {
            namespace: "arcjet".to_string(),
            name: "basic".to_string(),
            version: None,
        },
    });
    resolve.interfaces.push(Interface {
        name: Some("logger".to_string()),
        package: Some(0),
        functions: vec![Function {
            name: "log".to_string(),
            params: vec![Param { name: "m".to_string(), ty: Type::Str }],
            result: None,
        }],
        types: vec![],
    });
    let world = World {
        name: "hello".to_string(),
        imports: vec![WorldItem::Interface { id: 0 }],
        exports: vec![],
    };

    let analyzer = ImportAnalyzer::new(&resolve, &world);
    let analyzed = analyzer.analyze().unwrap();
    assert_eq!(analyzed.factory_name.as_str(), "HelloFactory");
    assert_eq!(analyzed.instance_name.as_str(), "HelloInstance");
    assert_eq!(analyzed.constructor_name.as_str(), "NewHelloFactory");

    let generator = ImportCodeGenerator::new(&resolve, &analyzed);
    let chains = generator.import_chains().unwrap();
    assert_eq!(chains.len(), 1);
    assert_eq!(chains[0].module_name, "arcjet:basic/logger");

    let code = &chains[0].code;
    assert!(code.contains("wazeroRuntime.NewHostModuleBuilder(\"arcjet:basic/logger\")"));
    assert!(code.contains("mod.Memory().Read(arg0, arg1)"));
    assert!(code.contains("logger.Log(ctx, string(buf0))"));
    assert!(code.contains("Export(\"log\")"));
    assert!(code.contains("Instantiate(ctx)"));
    assert!(code.contains("if err0 != nil"));
}

#[test]
fn test_unpackaged_interface_uses_bare_name() {
    let mut resolve = Resolve::new();
    resolve.interfaces.push(Interface {
        name: Some("runtime".to_string()),
        package: None,
        functions: vec![Function {
            name: "ping".to_string(),
            params: vec![],
            result: None,
        }],
        types: vec![],
    });
    let world = World {
        name: "example".to_string(),
        imports: vec![WorldItem::Interface { id: 0 }],
        exports: vec![],
    };

    let analyzer = ImportAnalyzer::new(&resolve, &world);
    let analyzed = analyzer.analyze().unwrap();
    assert_eq!(analyzed.interfaces[0].wazero_module_name, "runtime");
}

// ---------------------------------------------------------------------------
// Errors
// ---------------------------------------------------------------------------
#[test]
fn test_missing_interface_name_is_reported() {
    let mut resolve = Resolve::new();
    resolve.interfaces.push(Interface {
        name: None,
        package: None,
        functions: vec![],
        types: vec![],
    });
    let world = World {
        name: "w".to_string(),
        imports: vec![WorldItem::Interface { id: 0 }],
        exports: vec![],
    };
    let analyzer = ImportAnalyzer::new(&resolve, &world);
    assert!(matches!(
        analyzer.analyze(),
        Err(CodegenError::MissingName { entity: NamedEntity::Interface { id: 0 } })
    ));
}

#[test]
fn test_dangling_interface_id_is_reported() {
    let resolve = Resolve::new();
    let world = World {
        name: "w".to_string(),
        imports: vec![WorldItem::Interface { id: 3 }],
        exports: vec![],
    };
    let analyzer = ImportAnalyzer::new(&resolve, &world);
    assert!(matches!(analyzer.analyze(), Err(CodegenError::ResolverInconsistency)));
}

#[test]
fn test_unsupported_type_definition_is_reported() {
    let mut resolve = Resolve::new();
    resolve.types.push(TypeDef {
        name: Some("items".to_string()),
        kind: TypeDefKind::List,
    });
    let world = World {
        name: "w".to_string(),
        imports: vec![WorldItem::Type { id: 0 }],
        exports: vec![],
    };
    let analyzer = ImportAnalyzer::new(&resolve, &world);
    assert!(matches!(
        analyzer.analyze(),
        Err(CodegenError::UnsupportedTypeDef { kind: UnsupportedKind::List })
    ));
}

#[test]
fn test_name_collision_is_reported() {
    let resolve = Resolve::new();
    let world = World {
        name: "w".to_string(),
        imports: vec![
            WorldItem::Function(Function {
                name: "foo-bar".to_string(),
                params: vec![],
                result: None,
            }),
            WorldItem::Function(Function {
                name: "foo_bar".to_string(),
                params: vec![],
                result: None,
            }),
        ],
        exports: vec![],
    };
    let analyzer = ImportAnalyzer::new(&resolve, &world);
    match analyzer.analyze() {
        Err(CodegenError::NameCollision { scope, first, second }) => {
            assert_eq!(scope, CollisionScope::Module);
            assert_eq!(first, 0);
            assert_eq!(second, 1);
        }
        other => panic!("expected a name collision, got {:?}", other.is_ok()),
    }
}

#[test]
fn test_method_name_collision_is_reported() {
    let mut resolve = Resolve::new();
    resolve.interfaces.push(Interface {
        name: Some("svc".to_string()),
        package: None,
        functions: vec![
            Function { name: "x2y".to_string(), params: vec![], result: None },
            Function { name: "x2-y".to_string(), params: vec![], result: None },
        ],
        types: vec![],
    });
    let world = World {
        name: "w".to_string(),
        imports: vec![WorldItem::Interface { id: 0 }],
        exports: vec![],
    };
    // Both names mint the Go method name X2Y.
    assert!(GoIdentifier::public("x2y") == GoIdentifier::public("x2-y"));
    let analyzer = ImportAnalyzer::new(&resolve, &world);
    match analyzer.analyze() {
        Err(CodegenError::NameCollision { scope, first, second }) => {
            assert_eq!(scope, CollisionScope::InterfaceMethods);
            assert_eq!(first, 0);
            assert_eq!(second, 1);
        }
        other => panic!("expected a method name collision, got {:?}", other.is_ok()),
    }
}

#[test]
fn test_param_name_collision_is_reported() {
    let resolve = Resolve::new();
    let world = World {
        name: "w".to_string(),
        imports: vec![WorldItem::Function(Function {
            name: "f".to_string(),
            params: vec![
                Param { name: "a-b".to_string(), ty: Type::U32 },
                Param { name: "a_b".to_string(), ty: Type::U32 },
            ],
            result: None,
        })],
        exports: vec![],
    };
    let analyzer = ImportAnalyzer::new(&resolve, &world);
    match analyzer.analyze() {
        Err(CodegenError::NameCollision { scope, first, second }) => {
            assert_eq!(scope, CollisionScope::FunctionParams);
            assert_eq!(first, 0);
            assert_eq!(second, 1);
        }
        other => panic!("expected a parameter name collision, got {:?}", other.is_ok()),
    }
}

#[test]
fn test_record_param_signature_is_unsupported() {
    let mut resolve = Resolve::new();
    resolve.types.push(TypeDef {
        name: Some("pair".to_string()),
        kind: TypeDefKind::Record(Record {
            fields: vec![Field { name: "x".to_string(), ty: Type::U32 }],
        }),
    });
    let f = Function {
        name: "take_pair".to_string(),
        params: vec![Param { name: "p".to_string(), ty: Type::Id(0) }],
        result: None,
    };
    assert!(matches!(
        wasm_signature(&resolve, &f),
        Err(CodegenError::UnsupportedWasmSignature { reason: SignatureReason::Aggregate })
    ));
}

// ---------------------------------------------------------------------------
// Go imports
// ---------------------------------------------------------------------------
#[test]
fn test_go_import_qualified_reference() {
    let mut out = String::new();
    GoImport("github.com/tetratelabs/wazero/api", "Module").format_into(&mut out);
    assert_eq!(out, "api.Module");

    let mut out2 = String::new();
    GoImport("context", "Context").format_into(&mut out2);
    assert_eq!(out2, "context.Context");
}

#[test]
fn test_go_import_from_wasm_type() {
    let imp = GoImport::from(&WasmType::F32);
    assert_eq!(imp.0, "github.com/tetratelabs/wazero/api");
    assert_eq!(imp.1, "ValueTypeF32");
    assert_eq!(GoImport::from(&WasmType::Pointer).1, "ValueTypeI32");
    assert_eq!(GoImport::from(&WasmType::PointerOrI64).1, "ValueTypeI64");
}

// ---------------------------------------------------------------------------
// Identifier equality compares the normalized form
// ---------------------------------------------------------------------------
#[test]
fn test_identifier_equality_is_normalized() {
    assert!(GoIdentifier::public("foo-bar") == GoIdentifier::public("foo_bar"));
    assert!(GoIdentifier::public("foo-bar") == GoIdentifier::public("foo bar"));
    assert!(GoIdentifier::public("foo-bar") != GoIdentifier::private("foo-bar"));
}

// ---------------------------------------------------------------------------
// Standalone world items
// ---------------------------------------------------------------------------
#[test]
fn test_standalone_types_and_functions() {
    let mut resolve = Resolve::new();
    resolve.types.push(TypeDef {
        name: Some("status".to_string()),
        kind: TypeDefKind::Enum(Enum {
            cases: vec!["ok".to_string(), "error".to_string()],
        }),
    });
    // A bare reference to the named type above: skipped, not re-declared.
    resolve.types.push(TypeDef {
        name: Some("status-again".to_string()),
        kind: TypeDefKind::Type(Type::Id(0)),
    });
    let world = World {
        name: "tool".to_string(),
        imports: vec![
            WorldItem::Type { id: 0 },
            WorldItem::Type { id: 1 },
            WorldItem::Function(Function {
                name: "ping".to_string(),
                params: vec![],
                result: None,
            }),
        ],
        exports: vec![],
    };

    let analyzer = ImportAnalyzer::new(&resolve, &world);
    let analyzed = analyzer.analyze().unwrap();

    assert_eq!(analyzed.standalone_types.len(), 1);
    assert_eq!(analyzed.standalone_types[0].name, "status");
    assert_eq!(analyzed.standalone_functions.len(), 1);
    assert_eq!(analyzed.standalone_functions[0].go_name.as_str(), "Ping");

    let generator = ImportCodeGenerator::new(&resolve, &analyzed);
    let mut out = String::new();
    generator.format_into(&mut out);
    assert!(out.contains("type Status uint32"));
    // The skipped reference declares nothing of its own.
    assert!(!out.contains("StatusAgain"));
}
