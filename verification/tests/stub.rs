use kscale::{
    generate, host_token, BindingError, ModuleSurface, Parameter, Registry, StubBlock,
    StubDocument, StubParameter, TypeTag,
};

fn surface_of(functions: Vec<(&str, Vec<Parameter>, TypeTag)>) -> ModuleSurface {
    let mut registry = Registry::new("rust");
    let mut handle = 0;
    for (name, parameters, return_type) in functions {
        registry.declare(name, handle, parameters, return_type).unwrap();
        handle += 1;
    }
    registry.finalize().unwrap()
}

#[test]
fn table_gives_each_tag_its_token() {
    assert_eq!(host_token(TypeTag::Unit), Some("None".to_string()));
    assert_eq!(host_token(TypeTag::Bool), Some("builtins.bool".to_string()));
    assert_eq!(host_token(TypeTag::Int), Some("builtins.int".to_string()));
    assert_eq!(host_token(TypeTag::Float), Some("builtins.float".to_string()));
    assert_eq!(host_token(TypeTag::Str), Some("builtins.str".to_string()));
    assert_eq!(host_token(TypeTag::Bytes), Some("builtins.bytes".to_string()));
}

#[test]
fn table_holds_no_opaque_tag() {
    assert_eq!(host_token(TypeTag::Opaque(0)), None);
    assert_eq!(host_token(TypeTag::Opaque(u32::MAX)), None);
}

#[test]
fn only_builtin_types_need_the_import() {
    assert!(!TypeTag::Unit.in_builtins());
    assert!(!TypeTag::Opaque(1).in_builtins());
    assert!(TypeTag::Bool.in_builtins());
    assert!(TypeTag::Int.in_builtins());
    assert!(TypeTag::Float.in_builtins());
    assert!(TypeTag::Str.in_builtins());
    assert!(TypeTag::Bytes.in_builtins());
}

#[test]
fn hello_world_has_one_block_without_parameters() {
    let mut registry = Registry::new("rust");
    registry.declare("hello_world", 0, Vec::new(), TypeTag::Unit).unwrap();
    let surface = registry.finalize().unwrap();
    let document = generate(&surface).unwrap();
    assert!(document.imports.is_empty());
    assert_eq!(document.blocks.len(), 1);
    assert_eq!(document.blocks[0].name, "hello_world");
    assert!(document.blocks[0].parameters.is_empty());
    assert_eq!(document.blocks[0].return_token, "None");
    assert_eq!(document.text(), "def hello_world() -> None: ...\n\n");
}

#[test]
fn unmapped_return_type_is_refused_by_name() {
    let mut registry = Registry::new("rust");
    assert_eq!(registry.declare("raw_handle", 0, Vec::new(), TypeTag::Opaque(42)), Ok(()));
    let surface = registry.finalize().unwrap();
    assert_eq!(
        generate(&surface),
        Err(BindingError::UnmappedType { function: "raw_handle".to_string() })
    );
}

#[test]
fn unmapped_parameter_type_is_refused_by_name() {
    let surface = surface_of(vec![
        ("fine", vec![Parameter::new("x", TypeTag::Int)], TypeTag::Unit),
        (
            "broken",
            vec![Parameter::new("a", TypeTag::Str), Parameter::new("b", TypeTag::Opaque(1))],
            TypeTag::Unit,
        ),
    ]);
    assert_eq!(
        generate(&surface),
        Err(BindingError::UnmappedType { function: "broken".to_string() })
    );
}

#[test]
fn first_unmapped_function_is_the_one_named() {
    let surface = surface_of(vec![
        ("a", Vec::new(), TypeTag::Unit),
        ("b", Vec::new(), TypeTag::Opaque(1)),
        ("c", vec![Parameter::new("p", TypeTag::Opaque(2))], TypeTag::Opaque(3)),
    ]);
    assert_eq!(generate(&surface), Err(BindingError::UnmappedType { function: "b".to_string() }));
}

#[test]
fn every_declaration_has_its_block_in_registration_order() {
    let surface = surface_of(vec![
        ("zeta", Vec::new(), TypeTag::Unit),
        (
            "add",
            vec![Parameter::new("a", TypeTag::Int), Parameter::new("b", TypeTag::Int)],
            TypeTag::Int,
        ),
        ("label", vec![Parameter::new("raw", TypeTag::Bytes)], TypeTag::Str),
    ]);
    let document = generate(&surface).unwrap();
    let expected = StubDocument {
        imports: vec!["builtins".to_string()],
        blocks: vec![
            StubBlock {
                name: "zeta".to_string(),
                parameters: Vec::new(),
                return_token: "None".to_string(),
            },
            StubBlock {
                name: "add".to_string(),
                parameters: vec![
                    StubParameter { name: "a".to_string(), token: "builtins.int".to_string() },
                    StubParameter { name: "b".to_string(), token: "builtins.int".to_string() },
                ],
                return_token: "builtins.int".to_string(),
            },
            StubBlock {
                name: "label".to_string(),
                parameters: vec![StubParameter {
                    name: "raw".to_string(),
                    token: "builtins.bytes".to_string(),
                }],
                return_token: "builtins.str".to_string(),
            },
        ],
    };
    assert_eq!(document, expected);
    assert_eq!(document.blocks.len(), surface.len());
    for (block, declaration) in document.blocks.iter().zip(surface.declarations()) {
        assert_eq!(&block.name, declaration.name());
        assert_eq!(Some(block.return_token.clone()), host_token(declaration.return_type()));
        assert_eq!(block.parameters.len(), declaration.parameters().len());
        for (written, declared) in block.parameters.iter().zip(declaration.parameters()) {
            assert_eq!(&written.name, declared.name());
            assert_eq!(Some(written.token.clone()), host_token(declared.tag()));
        }
    }
}

#[test]
fn document_text_is_laid_out_as_imports_then_blocks() {
    let surface = surface_of(vec![
        ("zeta", Vec::new(), TypeTag::Unit),
        (
            "add",
            vec![Parameter::new("a", TypeTag::Int), Parameter::new("b", TypeTag::Float)],
            TypeTag::Bool,
        ),
        ("label", vec![Parameter::new("raw", TypeTag::Bytes)], TypeTag::Str),
    ]);
    let document = generate(&surface).unwrap();
    let expected = "import builtins\n\
                    \n\
                    def zeta() -> None: ...\n\
                    \n\
                    def add(a: builtins.int, b: builtins.float) -> builtins.bool: ...\n\
                    \n\
                    def label(raw: builtins.bytes) -> builtins.str: ...\n\
                    \n";
    assert_eq!(document.text(), expected);
}

#[test]
fn block_text_joins_parameters_with_commas() {
    let none = StubBlock {
        name: "f".to_string(),
        parameters: Vec::new(),
        return_token: "None".to_string(),
    };
    assert_eq!(none.text(), "def f() -> None: ...\n\n");
    let one = StubBlock {
        name: "g".to_string(),
        parameters: vec![StubParameter { name: "x".to_string(), token: "T".to_string() }],
        return_token: "R".to_string(),
    };
    assert_eq!(one.text(), "def g(x: T) -> R: ...\n\n");
    let three = StubBlock {
        name: "h".to_string(),
        parameters: vec![
            StubParameter { name: "x".to_string(), token: "T".to_string() },
            StubParameter { name: "y".to_string(), token: "U".to_string() },
            StubParameter { name: "z".to_string(), token: "V".to_string() },
        ],
        return_token: "R".to_string(),
    };
    assert_eq!(three.text(), "def h(x: T, y: U, z: V) -> R: ...\n\n");
}

#[test]
fn block_of_a_declaration_follows_the_table() {
    let surface = surface_of(vec![
        ("swap", vec![Parameter::new("flag", TypeTag::Bool)], TypeTag::Float),
        ("lost", Vec::new(), TypeTag::Opaque(5)),
    ]);
    let block = StubBlock::from_declaration(&surface.declarations()[0]).unwrap();
    assert_eq!(block.name, "swap");
    assert_eq!(block.parameters.len(), 1);
    assert_eq!(block.parameters[0].name, "flag");
    assert_eq!(block.parameters[0].token, "builtins.bool");
    assert_eq!(block.return_token, "builtins.float");
    assert_eq!(StubBlock::from_declaration(&surface.declarations()[1]), None);
}

#[test]
fn empty_surface_gives_an_empty_document() {
    let surface = surface_of(Vec::new());
    let document = generate(&surface).unwrap();
    assert!(document.imports.is_empty());
    assert!(document.blocks.is_empty());
    assert_eq!(document.text(), "");
}

#[test]
fn import_is_written_only_where_a_builtin_type_is_named() {
    let without = surface_of(vec![("a", Vec::new(), TypeTag::Unit), ("b", Vec::new(), TypeTag::Unit)]);
    assert!(generate(&without).unwrap().imports.is_empty());
    let by_return = surface_of(vec![("a", Vec::new(), TypeTag::Unit), ("b", Vec::new(), TypeTag::Str)]);
    assert_eq!(generate(&by_return).unwrap().imports, vec!["builtins"]);
    let by_parameter =
        surface_of(vec![("a", vec![Parameter::new("x", TypeTag::Bool)], TypeTag::Unit)]);
    assert_eq!(generate(&by_parameter).unwrap().imports, vec!["builtins"]);
    assert_eq!(
        generate(&by_parameter).unwrap().text(),
        "import builtins\n\ndef a(x: builtins.bool) -> None: ...\n\n"
    );
}

#[test]
fn generate_twice_gives_the_same_bytes() {
    let surface = surface_of(vec![
        ("first", vec![Parameter::new("n", TypeTag::Int)], TypeTag::Str),
        ("second", Vec::new(), TypeTag::Unit),
    ]);
    let one = generate(&surface).unwrap();
    let two = generate(&surface).unwrap();
    assert_eq!(one, two);
    assert_eq!(one.text().into_bytes(), two.text().into_bytes());
    assert_eq!(surface.len(), 2);
    assert_eq!(surface.declarations()[0].name(), "first");

    let failing = surface_of(vec![("bad", Vec::new(), TypeTag::Opaque(9))]);
    assert_eq!(generate(&failing), generate(&failing));
}
