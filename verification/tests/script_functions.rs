use move_ts::context::{CodegenContext, Environment, StructId};
use move_ts::error::TypeErrorKind;
use move_ts::idl::{Argument, Module, ModuleId, PrimitiveKind, ScriptFunction, TypeExpr};
use move_ts::script_function::{script_fn_type_args, ArgumentForm, ScriptFunctionType};

fn coin_module() -> Module {
    Module {
        module_id: ModuleId { address: "0x1".to_string(), name: "coin".to_string() },
        script_functions: Vec::new(),
    }
}

fn transfer() -> ScriptFunction {
    ScriptFunction {
        name: "transfer".to_string(),
        doc: None,
        args: vec![
            Argument {
                name: "to".to_string(),
                ty: TypeExpr::Primitive(PrimitiveKind::Address),
                idl_type: "Address".to_string(),
            },
            Argument {
                name: "amount".to_string(),
                ty: TypeExpr::Primitive(PrimitiveKind::U64),
                idl_type: "U64".to_string(),
            },
        ],
        type_params: Vec::new(),
    }
}

fn swap() -> ScriptFunction {
    ScriptFunction {
        name: "swap".to_string(),
        doc: Some("Swaps one coin for another.\nFails on an empty pool.".to_string()),
        args: vec![
            Argument {
                name: "amount".to_string(),
                ty: TypeExpr::Primitive(PrimitiveKind::U64),
                idl_type: "U64".to_string(),
            },
        ],
        type_params: vec!["T".to_string()],
    }
}

fn ping() -> ScriptFunction {
    ScriptFunction { name: "ping".to_string(), doc: None, args: Vec::new(), type_params: Vec::new() }
}

#[test]
fn transfer_payload_arguments_type() {
    let module = coin_module();
    let script = transfer();
    let f = ScriptFunctionType::new(&module, &script);
    let text = f.payload().generate_typescript(&CodegenContext::new()).unwrap();
    assert_eq!(
        text,
        "/**\n * Payload arguments for {@link entry.transfer}.\n */\n\
export type TransferArgs = {\n  args: {\n    /**\n     * IDL type: `Address`\n     */\n    to: address;\n    /**\n     * IDL type: `U64`\n     */\n    amount: string;\n  };\n};"
    );
    assert!(f.should_render_payload_struct());
}

#[test]
fn transfer_builder() {
    let module = coin_module();
    let script = transfer();
    let f = ScriptFunctionType::new(&module, &script);
    let text = f.generate_typescript(&CodegenContext::new()).unwrap();
    assert_eq!(
        text,
        "export const transfer = ({ args }: mod.TransferArgs): payloads.Transfer => ({\n  type: \"script_function_payload\",\n  function: \"0x1::coin::transfer\",\n  type_arguments: [],\n  arguments: [formatAddress(args.to), String(args.amount)],\n});"
    );
}

#[test]
fn transfer_payload_type() {
    let module = coin_module();
    let script = transfer();
    let f = ScriptFunctionType::new(&module, &script);
    let code = f.generate_entry_payload_struct(&CodegenContext::new()).unwrap();
    assert_eq!(
        code.to_string(),
        "/**\n * Script function payload for `0x1::coin::transfer`.\n */\nexport type Transfer = {\n  readonly type: \"script_function_payload\";\n  readonly function: \"0x1::coin::transfer\";\n  readonly arguments: [to: address, amount: string];\n  readonly type_arguments: [];\n};"
    );
}

#[test]
fn swap_with_a_type_parameter() {
    let module = coin_module();
    let script = swap();
    let f = ScriptFunctionType::new(&module, &script);
    let ctx = CodegenContext::new();
    let args_type = f.payload().generate_typescript(&ctx).unwrap();
    assert_eq!(
        args_type,
        "/**\n * Payload arguments for {@link entry.swap}.\n * \n * Swaps one coin for another.\n * Fails on an empty pool.\n */\nexport type SwapArgs = {\n  args: {\n    /**\n     * IDL type: `U64`\n     */\n    amount: string;\n  };\n  typeArgs: {\n    T: string;\n  };\n};"
    );
    let builder = f.generate_typescript(&ctx).unwrap();
    assert_eq!(
        builder,
        "/**\n * Swaps one coin for another.\n * Fails on an empty pool.\n */\nexport const swap = ({ args, typeArgs }: mod.SwapArgs): payloads.Swap => ({\n  type: \"script_function_payload\",\n  function: \"0x1::coin::swap\",\n  type_arguments: [typeArgs.T],\n  arguments: [String(args.amount)],\n});"
    );
    let payload = f.generate_entry_payload_struct(&ctx).unwrap().into_string();
    assert_eq!(
        payload,
        "/**\n * Script function payload for `0x1::coin::swap`.\n * \n * Swaps one coin for another.\n * Fails on an empty pool.\n */\nexport type Swap = {\n  readonly type: \"script_function_payload\";\n  readonly function: \"0x1::coin::swap\";\n  readonly arguments: [amount: string];\n  readonly type_arguments: [T: string];\n};"
    );
}

#[test]
fn function_without_arguments_and_type_parameters() {
    let module = coin_module();
    let script = ping();
    let f = ScriptFunctionType::new(&module, &script);
    let ctx = CodegenContext::new();
    assert!(!f.should_render_payload_struct());
    assert_eq!(
        f.generate_typescript(&ctx).unwrap(),
        "export const ping = (): payloads.Ping => ({\n  type: \"script_function_payload\",\n  function: \"0x1::coin::ping\",\n  type_arguments: [],\n  arguments: [],\n});"
    );
    assert_eq!(
        f.payload().generate_typescript(&ctx).unwrap(),
        "/**\n * Payload arguments for {@link entry.ping}.\n */\nexport type PingArgs = {\n};"
    );
}

#[test]
fn only_type_parameters() {
    let module = coin_module();
    let script = ScriptFunction {
        name: "register".to_string(),
        doc: None,
        args: Vec::new(),
        type_params: vec!["CoinType".to_string(), "Fee".to_string()],
    };
    let f = ScriptFunctionType::new(&module, &script);
    let ctx = CodegenContext::new();
    assert!(f.should_render_payload_struct());
    assert_eq!(
        f.generate_typescript(&ctx).unwrap(),
        "export const register = ({ typeArgs }: mod.RegisterArgs): payloads.Register => ({\n  type: \"script_function_payload\",\n  function: \"0x1::coin::register\",\n  type_arguments: [typeArgs.CoinType, typeArgs.Fee],\n  arguments: [],\n});"
    );
    assert_eq!(
        f.payload().generate_typescript(&ctx).unwrap(),
        "/**\n * Payload arguments for {@link entry.register}.\n */\nexport type RegisterArgs = {\n  typeArgs: {\n    CoinType: string;\n    Fee: string;\n  };\n};"
    );
}

#[test]
fn names_and_links() {
    let module = coin_module();
    let script = ScriptFunction {
        name: "transfer_with_fee".to_string(),
        doc: Some("Moves coins.".to_string()),
        args: Vec::new(),
        type_params: Vec::new(),
    };
    let f = ScriptFunctionType::new(&module, &script);
    assert_eq!(f.name(), "transfer_with_fee");
    assert_eq!(f.payload_name(), "TransferWithFee");
    assert_eq!(f.payload_args_type_name(), "TransferWithFeeArgs");
    assert_eq!(f.full_name(), "0x1::coin::transfer_with_fee");
    assert_eq!(f.doc_link(), "{@link entry.transfer_with_fee}");
    assert_eq!(f.doc(), Some("Moves coins.".to_string()));
    assert_eq!(f.module_name(), "coin");
    let named = ScriptFunctionType::with_payload_name("Move".to_string(), &module, &script);
    assert_eq!(named.payload_args_type_name(), "MoveArgs");
    assert_eq!(named.name(), "transfer_with_fee");
}

#[test]
fn type_parameter_fields() {
    assert_eq!(script_fn_type_args(&Vec::new()).to_string(), "");
    assert_eq!(script_fn_type_args(&vec!["T".to_string()]).to_string(), "T: string;");
    assert_eq!(
        script_fn_type_args(&vec!["A".to_string(), "B".to_string()]).to_string(),
        "A: string;\nB: string;"
    );
}

#[test]
fn arguments_keep_their_order() {
    let module = coin_module();
    let script = ScriptFunction {
        name: "many".to_string(),
        doc: None,
        args: vec![
            Argument {
                name: "c".to_string(),
                ty: TypeExpr::Primitive(PrimitiveKind::U8),
                idl_type: "U8".to_string(),
            },
            Argument {
                name: "a".to_string(),
                ty: TypeExpr::Primitive(PrimitiveKind::Bool),
                idl_type: "Bool".to_string(),
            },
            Argument {
                name: "b".to_string(),
                ty: TypeExpr::Primitive(PrimitiveKind::U128),
                idl_type: "U128".to_string(),
            },
        ],
        type_params: Vec::new(),
    };
    let f = ScriptFunctionType::new(&module, &script);
    let ctx = CodegenContext::new();
    assert_eq!(
        f.generate_arguments(ArgumentForm::Element, &ctx).unwrap(),
        vec!["c: number".to_string(), "a: boolean".to_string(), "b: string".to_string()]
    );
    assert_eq!(
        f.generate_arguments(ArgumentForm::Value, &ctx).unwrap(),
        vec!["args.c".to_string(), "args.a".to_string(), "String(args.b)".to_string()]
    );
    let fields = f.generate_arguments(ArgumentForm::Field, &ctx).unwrap();
    assert_eq!(fields.len(), 3);
    assert_eq!(fields[0], "/**\n * IDL type: `U8`\n */\nc: number;");
    assert_eq!(fields[1], "/**\n * IDL type: `Bool`\n */\na: boolean;");
    assert_eq!(fields[2], "/**\n * IDL type: `U128`\n */\nb: string;");
    assert_eq!(
        f.payload().args_inline(&ctx).unwrap().to_string(),
        "  /**\n   * IDL type: `U8`\n   */\n  c: number;\n  /**\n   * IDL type: `Bool`\n   */\n  a: boolean;\n  /**\n   * IDL type: `U128`\n   */\n  b: string;"
    );
}

#[test]
fn failing_argument_is_named() {
    let module = coin_module();
    let script = ScriptFunction {
        name: "claim".to_string(),
        doc: None,
        args: vec![
            Argument {
                name: "amount".to_string(),
                ty: TypeExpr::Primitive(PrimitiveKind::U64),
                idl_type: "U64".to_string(),
            },
            Argument {
                name: "who".to_string(),
                ty: TypeExpr::Primitive(PrimitiveKind::Signer),
                idl_type: "Signer".to_string(),
            },
            Argument {
                name: "what".to_string(),
                ty: TypeExpr::TypeParamRef("X".to_string()),
                idl_type: "TypeParam(1)".to_string(),
            },
        ],
        type_params: Vec::new(),
    };
    let f = ScriptFunctionType::new(&module, &script);
    let ctx = CodegenContext::new();
    let e = f.generate_typescript(&ctx).unwrap_err();
    assert_eq!(e.function, "0x1::coin::claim");
    assert_eq!(e.argument, "who");
    assert_eq!(e.cause.kind, TypeErrorKind::UnsupportedPrimitive);
    assert_eq!(e.cause.name, "signer");
    assert!(!e.cause.is_inconsistent_context());
    assert_eq!(e.cause.message(), "no payload value has the primitive type `signer`");
    assert_eq!(
        e.message(),
        "cannot generate `0x1::coin::claim`: argument `who`: no payload value has the primitive type `signer`"
    );
    let e = f.payload().generate_typescript(&ctx).unwrap_err();
    assert_eq!(e.argument, "who");
    let e = f.generate_entry_payload_struct(&ctx).unwrap_err();
    assert_eq!(e.argument, "who");
    assert_eq!(e.cause.kind, TypeErrorKind::UnsupportedPrimitive);
}

#[test]
fn own_type_parameters_are_bound() {
    let module = coin_module();
    let script = ScriptFunction {
        name: "put".to_string(),
        doc: None,
        args: vec![
            Argument {
                name: "item".to_string(),
                ty: TypeExpr::TypeParamRef("T".to_string()),
                idl_type: "TypeParam(0)".to_string(),
            },
            Argument {
                name: "other".to_string(),
                ty: TypeExpr::TypeParamRef("U".to_string()),
                idl_type: "TypeParam(1)".to_string(),
            },
        ],
        type_params: vec!["T".to_string()],
    };
    let f = ScriptFunctionType::new(&module, &script);
    let e = f.generate_typescript(&CodegenContext::new()).unwrap_err();
    assert_eq!(e.function, "0x1::coin::put");
    assert_eq!(e.argument, "other");
    assert_eq!(e.cause.kind, TypeErrorKind::UnboundTypeParam);
    assert_eq!(e.cause.name, "U");
    assert!(e.cause.is_inconsistent_context());
    assert_eq!(
        e.message(),
        "cannot generate `0x1::coin::put`: argument `other`: nothing binds the type parameter `U`"
    );

    let outer = CodegenContext {
        type_params: vec!["U".to_string()],
        structs: vec![StructId {
            module: ModuleId { address: "0x1".to_string(), name: "coin".to_string() },
            name: "Coin".to_string(),
        }],
        environment: Some(Environment::Sui),
    };
    assert_eq!(
        f.generate_arguments(ArgumentForm::Element, &outer).unwrap(),
        vec!["item: TypeParam<\"T\">".to_string(), "other: TypeParam<\"U\">".to_string()]
    );
    assert_eq!(
        f.generate_arguments(ArgumentForm::Value, &outer).unwrap(),
        vec!["args.item".to_string(), "args.other".to_string()]
    );
}

#[test]
fn unknown_struct_is_reported_with_its_full_name() {
    let module = coin_module();
    let script = ScriptFunction {
        name: "deposit".to_string(),
        doc: None,
        args: vec![Argument {
            name: "coin".to_string(),
            ty: TypeExpr::StructRef {
                module: ModuleId { address: "0x1".to_string(), name: "coin".to_string() },
                name: "Coin".to_string(),
                type_args: Vec::new(),
            },
            idl_type: "Struct(Coin)".to_string(),
        }],
        type_params: Vec::new(),
    };
    let f = ScriptFunctionType::new(&module, &script);
    let e = f.generate_entry_payload_struct(&CodegenContext::new()).unwrap_err();
    assert_eq!(e.cause.kind, TypeErrorKind::UnknownStruct);
    assert_eq!(
        e.message(),
        "cannot generate `0x1::coin::deposit`: argument `coin`: no code is generated for the struct `0x1::coin::Coin`"
    );
    let ctx = CodegenContext {
        type_params: Vec::new(),
        structs: vec![StructId {
            module: ModuleId { address: "0x1".to_string(), name: "coin".to_string() },
            name: "Coin".to_string(),
        }],
        environment: None,
    };
    assert_eq!(
        f.generate_typescript(&ctx).unwrap(),
        "export const deposit = ({ args }: mod.DepositArgs): payloads.Deposit => ({\n  type: \"script_function_payload\",\n  function: \"0x1::coin::deposit\",\n  type_arguments: [],\n  arguments: [coin.serializeCoin(args.coin)],\n});"
    );
}

#[test]
fn documentation_is_attached_to_every_declaration() {
    let module = coin_module();
    let mut script = transfer();
    let ctx = CodegenContext::new();
    let (bare_args, bare_payload, bare_builder) = {
        let f = ScriptFunctionType::new(&module, &script);
        (
            f.payload().generate_typescript(&ctx).unwrap(),
            f.generate_entry_payload_struct(&ctx).unwrap().into_string(),
            f.generate_typescript(&ctx).unwrap(),
        )
    };
    script.doc = Some("Sends coins.".to_string());
    let f = ScriptFunctionType::new(&module, &script);
    let args = f.payload().generate_typescript(&ctx).unwrap();
    assert!(args.starts_with(
        "/**\n * Payload arguments for {@link entry.transfer}.\n * \n * Sends coins.\n */\nexport type TransferArgs = {\n"
    ));
    assert!(bare_args.starts_with(
        "/**\n * Payload arguments for {@link entry.transfer}.\n */\nexport type TransferArgs = {\n"
    ));
    assert_ne!(args, bare_args);
    let payload = f.generate_entry_payload_struct(&ctx).unwrap().into_string();
    assert!(payload.starts_with(
        "/**\n * Script function payload for `0x1::coin::transfer`.\n * \n * Sends coins.\n */\nexport type Transfer = {\n"
    ));
    assert_ne!(payload, bare_payload);
    let builder = f.generate_typescript(&ctx).unwrap();
    assert_eq!(builder, format!("/**\n * Sends coins.\n */\n{}", bare_builder));
    let code = f.generate(&ctx).unwrap();
    assert_eq!(code.payload_args, Some(args));
    assert_eq!(code.payload, payload);
    assert_eq!(code.builder, builder);
}

#[test]
fn generation_is_repeatable() {
    let module = coin_module();
    let script = swap();
    let f = ScriptFunctionType::new(&module, &script);
    let ctx = CodegenContext::new();
    assert_eq!(f.generate_typescript(&ctx).unwrap(), f.generate_typescript(&ctx).unwrap());
    assert_eq!(
        f.payload().generate_typescript(&ctx).unwrap(),
        f.payload().generate_typescript(&ctx).unwrap()
    );
    assert_eq!(
        f.generate_entry_payload_struct(&ctx).unwrap().to_string(),
        f.generate_entry_payload_struct(&ctx).unwrap().to_string()
    );
    let again = ScriptFunctionType::new(&module, &script);
    assert_eq!(f.generate_typescript(&ctx).unwrap(), again.generate_typescript(&ctx).unwrap());
}
