use move_ts::context::{CodegenContext, Environment, StructId};
use move_ts::error::{TypeError, TypeErrorKind};
use move_ts::idl::{Argument, ModuleId, PrimitiveKind, TypeExpr};
use move_ts::idl_type::{
    angle_bracketed, generate_idl_type, primitive_name, qualify, serialize_arg,
};
use move_ts::script_function::ArgumentForm;

fn prim(kind: PrimitiveKind) -> TypeExpr {
    TypeExpr::Primitive(kind)
}

fn vector(inner: TypeExpr) -> TypeExpr {
    TypeExpr::Vector(Box::new(inner))
}

fn coin() -> ModuleId {
    ModuleId { address: "0x1".to_string(), name: "coin".to_string() }
}

fn coin_of(type_args: Vec<TypeExpr>) -> TypeExpr {
    TypeExpr::StructRef { module: coin(), name: "Coin".to_string(), type_args }
}

fn context() -> CodegenContext {
    CodegenContext {
        type_params: vec!["T".to_string(), "U".to_string()],
        structs: vec![
            StructId {
                module: ModuleId { address: "0x1".to_string(), name: "table".to_string() },
                name: "Table".to_string(),
            },
            StructId { module: coin(), name: "Coin".to_string() },
        ],
        environment: None,
    }
}

fn failure(r: Result<String, TypeError>) -> (TypeErrorKind, String) {
    let e = r.unwrap_err();
    (e.kind, e.name)
}

#[test]
fn primitive_types() {
    let ctx = CodegenContext::new();
    let table = [
        (PrimitiveKind::Bool, "boolean", "x"),
        (PrimitiveKind::U8, "number", "x"),
        (PrimitiveKind::U16, "number", "x"),
        (PrimitiveKind::U32, "number", "x"),
        (PrimitiveKind::U64, "string", "String(x)"),
        (PrimitiveKind::U128, "string", "String(x)"),
        (PrimitiveKind::U256, "string", "String(x)"),
        (PrimitiveKind::Address, "address", "formatAddress(x)"),
    ];
    for (kind, ty, ser) in table {
        assert_eq!(generate_idl_type(&prim(kind), &ctx).unwrap(), ty);
        assert_eq!(serialize_arg("x", &prim(kind), &ctx).unwrap(), ser);
    }
}

#[test]
fn signer_has_no_generated_form() {
    let ctx = context();
    let t = prim(PrimitiveKind::Signer);
    assert_eq!(
        failure(generate_idl_type(&t, &ctx)),
        (TypeErrorKind::UnsupportedPrimitive, "signer".to_string())
    );
    assert_eq!(
        failure(serialize_arg("x", &t, &ctx)),
        (TypeErrorKind::UnsupportedPrimitive, "signer".to_string())
    );
    let nested = vector(vector(prim(PrimitiveKind::Signer)));
    assert_eq!(
        failure(generate_idl_type(&nested, &ctx)),
        (TypeErrorKind::UnsupportedPrimitive, "signer".to_string())
    );
    assert_eq!(
        failure(serialize_arg("x", &nested, &ctx)),
        (TypeErrorKind::UnsupportedPrimitive, "signer".to_string())
    );
}

#[test]
fn vectors_nest() {
    let ctx = CodegenContext::new();
    let one = vector(prim(PrimitiveKind::U8));
    assert_eq!(generate_idl_type(&one, &ctx).unwrap(), "ReadonlyArray<number>");
    assert_eq!(serialize_arg("args.v", &one, &ctx).unwrap(), "args.v.map((item) => item)");
    let three = vector(vector(vector(prim(PrimitiveKind::U64))));
    assert_eq!(
        generate_idl_type(&three, &ctx).unwrap(),
        "ReadonlyArray<ReadonlyArray<ReadonlyArray<string>>>"
    );
    assert_eq!(
        serialize_arg("args.v", &three, &ctx).unwrap(),
        "args.v.map((item) => item.map((item) => item.map((item) => String(item))))"
    );
}

#[test]
fn type_parameters_resolve_in_the_context() {
    let ctx = context();
    let t = TypeExpr::TypeParamRef("U".to_string());
    assert_eq!(generate_idl_type(&t, &ctx).unwrap(), "TypeParam<\"U\">");
    assert_eq!(serialize_arg("args.u", &t, &ctx).unwrap(), "args.u");
    let missing = TypeExpr::TypeParamRef("V".to_string());
    assert_eq!(
        failure(generate_idl_type(&missing, &ctx)),
        (TypeErrorKind::UnboundTypeParam, "V".to_string())
    );
    assert_eq!(
        failure(serialize_arg("args.v", &missing, &ctx)),
        (TypeErrorKind::UnboundTypeParam, "V".to_string())
    );
    assert_eq!(
        failure(generate_idl_type(&t, &CodegenContext::new())),
        (TypeErrorKind::UnboundTypeParam, "U".to_string())
    );
    assert!(ctx.binds(&"T".to_string()));
    assert!(ctx.binds(&"U".to_string()));
    assert!(!ctx.binds(&"V".to_string()));
    assert!(!CodegenContext::new().binds(&"T".to_string()));
}

#[test]
fn structs_apply_their_type_arguments() {
    let ctx = context();
    let plain = coin_of(Vec::new());
    assert_eq!(generate_idl_type(&plain, &ctx).unwrap(), "coin.Coin");
    assert_eq!(serialize_arg("args.c", &plain, &ctx).unwrap(), "coin.serializeCoin(args.c)");
    let applied = coin_of(vec![
        prim(PrimitiveKind::U64),
        vector(TypeExpr::TypeParamRef("T".to_string())),
    ]);
    assert_eq!(
        generate_idl_type(&applied, &ctx).unwrap(),
        "coin.Coin<string, ReadonlyArray<TypeParam<\"T\">>>"
    );
    assert_eq!(
        serialize_arg("args.c", &applied, &ctx).unwrap(),
        "coin.serializeCoin(args.c, (item) => String(item), (item) => item.map((item) => item))"
    );
    let nested = coin_of(vec![coin_of(vec![prim(PrimitiveKind::Address)])]);
    assert_eq!(generate_idl_type(&nested, &ctx).unwrap(), "coin.Coin<coin.Coin<address>>");
    assert_eq!(
        serialize_arg("x", &nested, &ctx).unwrap(),
        "coin.serializeCoin(x, (item) => coin.serializeCoin(item, (item) => formatAddress(item)))"
    );
}

#[test]
fn unknown_struct_fails() {
    let ctx = context();
    let other = TypeExpr::StructRef {
        module: ModuleId { address: "0x2".to_string(), name: "coin".to_string() },
        name: "Coin".to_string(),
        type_args: vec![prim(PrimitiveKind::Signer)],
    };
    assert_eq!(
        failure(generate_idl_type(&other, &ctx)),
        (TypeErrorKind::UnknownStruct, "0x2::coin::Coin".to_string())
    );
    assert_eq!(
        failure(serialize_arg("x", &other, &ctx)),
        (TypeErrorKind::UnknownStruct, "0x2::coin::Coin".to_string())
    );
    assert!(ctx.knows_struct(&coin(), &"Coin".to_string()));
    assert!(!ctx.knows_struct(&coin(), &"Table".to_string()));
    assert!(!ctx.knows_struct(
        &ModuleId { address: "0x2".to_string(), name: "coin".to_string() },
        &"Coin".to_string()
    ));
    assert!(!CodegenContext::new().knows_struct(&coin(), &"Coin".to_string()));
}

#[test]
fn first_failing_type_argument_is_reported() {
    let ctx = context();
    let t = coin_of(vec![
        prim(PrimitiveKind::U8),
        TypeExpr::TypeParamRef("V".to_string()),
        prim(PrimitiveKind::Signer),
    ]);
    assert_eq!(
        failure(generate_idl_type(&t, &ctx)),
        (TypeErrorKind::UnboundTypeParam, "V".to_string())
    );
    assert_eq!(
        failure(serialize_arg("x", &t, &ctx)),
        (TypeErrorKind::UnboundTypeParam, "V".to_string())
    );
}

#[test]
fn references_are_transparent() {
    let ctx = context();
    for mutable in [false, true] {
        let t = TypeExpr::Reference {
            mutable,
            inner: Box::new(vector(prim(PrimitiveKind::U128))),
        };
        assert_eq!(generate_idl_type(&t, &ctx).unwrap(), "ReadonlyArray<string>");
        assert_eq!(serialize_arg("a", &t, &ctx).unwrap(), "a.map((item) => String(item))");
    }
    let bad = TypeExpr::Reference { mutable: false, inner: Box::new(prim(PrimitiveKind::Signer)) };
    assert_eq!(
        failure(generate_idl_type(&bad, &ctx)),
        (TypeErrorKind::UnsupportedPrimitive, "signer".to_string())
    );
}

#[test]
fn type_and_serializer_descend_together() {
    let ctx = context();
    let mut t = prim(PrimitiveKind::U64);
    for depth in 0..6usize {
        let ty = generate_idl_type(&t, &ctx).unwrap();
        let ser = serialize_arg("v", &t, &ctx).unwrap();
        assert_eq!(ty.matches("ReadonlyArray<").count(), depth);
        assert_eq!(ser.matches(".map((item) => ").count(), depth);
        t = vector(t);
    }
}

#[test]
fn names_of_kinds_and_structs() {
    let names: Vec<&str> = [
        PrimitiveKind::Bool,
        PrimitiveKind::U8,
        PrimitiveKind::U16,
        PrimitiveKind::U32,
        PrimitiveKind::U64,
        PrimitiveKind::U128,
        PrimitiveKind::U256,
        PrimitiveKind::Address,
        PrimitiveKind::Signer,
    ]
    .iter()
    .map(|k| primitive_name(*k))
    .collect();
    assert_eq!(names, vec!["bool", "u8", "u16", "u32", "u64", "u128", "u256", "address", "signer"]);
    assert_eq!(qualify(&coin(), &"Coin".to_string()), "0x1::coin::Coin");
    assert_eq!(angle_bracketed(&Vec::new()), "");
    assert_eq!(angle_bracketed(&vec!["a".to_string(), "b".to_string()]), "<a, b>");
}

#[test]
fn argument_forms() {
    let ctx = context();
    let arg = Argument {
        name: "coins".to_string(),
        ty: vector(coin_of(Vec::new())),
        idl_type: "Vector(Struct(Coin))".to_string(),
    };
    assert_eq!(
        arg.generate_typescript(&ctx).unwrap(),
        "/**\n * IDL type: `Vector(Struct(Coin))`\n */\ncoins: ReadonlyArray<coin.Coin>;"
    );
    assert_eq!(arg.generate(ArgumentForm::Field, &ctx).unwrap(), arg.generate_typescript(&ctx).unwrap());
    assert_eq!(
        arg.generate(ArgumentForm::Element, &ctx).unwrap(),
        "coins: ReadonlyArray<coin.Coin>"
    );
    assert_eq!(
        arg.generate(ArgumentForm::Value, &ctx).unwrap(),
        "args.coins.map((item) => coin.serializeCoin(item))"
    );
    let verbatim = Argument {
        name: "x".to_string(),
        ty: prim(PrimitiveKind::U8),
        idl_type: "anything `at` all".to_string(),
    };
    assert_eq!(
        verbatim.generate_typescript(&ctx).unwrap(),
        "/**\n * IDL type: `anything `at` all`\n */\nx: number;"
    );
    assert_eq!(verbatim.generate(ArgumentForm::Element, &ctx).unwrap(), "x: number");
    assert_eq!(verbatim.generate(ArgumentForm::Value, &ctx).unwrap(), "args.x");
    let bad = Argument {
        name: "s".to_string(),
        ty: prim(PrimitiveKind::Signer),
        idl_type: "Signer".to_string(),
    };
    for form in [ArgumentForm::Field, ArgumentForm::Element, ArgumentForm::Value] {
        assert_eq!(
            failure(bad.generate(form, &ctx)),
            (TypeErrorKind::UnsupportedPrimitive, "signer".to_string())
        );
    }
}

#[test]
fn environments_by_name() {
    assert_eq!(Environment::from_name("aptos"), Some(Environment::Aptos));
    assert_eq!(Environment::from_name("sui"), Some(Environment::Sui));
    assert_eq!(Environment::from_name("Aptos"), None);
    assert_eq!(Environment::from_name(""), None);
    assert_eq!(Environment::from_name("sui "), None);
    assert_eq!(Environment::Aptos.name(), "aptos");
    assert_eq!(Environment::Sui.name(), "sui");
    for environment in [Environment::Aptos, Environment::Sui] {
        assert_eq!(Environment::from_name(environment.name()), Some(environment));
    }
}

#[test]
fn scoped_context() {
    let outer = CodegenContext {
        type_params: vec!["U".to_string()],
        structs: vec![StructId { module: coin(), name: "Coin".to_string() }],
        environment: Some(Environment::Aptos),
    };
    let inner = outer.scoped(&vec!["A".to_string(), "B".to_string()]);
    assert_eq!(inner.type_params, vec!["A".to_string(), "B".to_string(), "U".to_string()]);
    assert_eq!(inner.structs.len(), 1);
    assert_eq!(inner.structs[0].name, "Coin");
    assert_eq!(inner.structs[0].module.address, "0x1");
    assert_eq!(inner.structs[0].module.name, "coin");
    assert_eq!(inner.environment, Some(Environment::Aptos));
    let fresh = CodegenContext::new();
    assert!(fresh.type_params.is_empty());
    assert!(fresh.structs.is_empty());
    assert_eq!(fresh.environment, None);
}
