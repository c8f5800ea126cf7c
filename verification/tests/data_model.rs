use move_ts::context::{CodegenContext, Environment, StructId};
use move_ts::error::{CodegenError, TypeError, TypeErrorKind};
use move_ts::idl::{Argument, Module, ModuleId, PrimitiveKind, ScriptFunction, TypeExpr};

fn sample_type() -> TypeExpr {
    TypeExpr::Reference {
        mutable: true,
        inner: Box::new(TypeExpr::Vector(Box::new(TypeExpr::StructRef {
            module: ModuleId { address: "0x1".to_string(), name: "coin".to_string() },
            name: "Coin".to_string(),
            type_args: vec![
                TypeExpr::TypeParamRef("T".to_string()),
                TypeExpr::Primitive(PrimitiveKind::U256),
                TypeExpr::Vector(Box::new(TypeExpr::Primitive(PrimitiveKind::Address))),
            ],
        }))),
    }
}

fn sample_module() -> Module {
    Module {
        module_id: ModuleId { address: "0x1".to_string(), name: "coin".to_string() },
        script_functions: vec![
            ScriptFunction {
                name: "mint".to_string(),
                doc: Some("Mints.".to_string()),
                args: vec![
                    Argument {
                        name: "to".to_string(),
                        ty: sample_type(),
                        idl_type: "Struct(Coin)".to_string(),
                    },
                    Argument {
                        name: "amount".to_string(),
                        ty: TypeExpr::Primitive(PrimitiveKind::U64),
                        idl_type: "U64".to_string(),
                    },
                ],
                type_params: vec!["T".to_string(), "U".to_string()],
            },
            ScriptFunction {
                name: "burn".to_string(),
                doc: None,
                args: Vec::new(),
                type_params: Vec::new(),
            },
        ],
    }
}

#[test]
fn clones_hold_the_same() {
    let t = sample_type();
    assert_eq!(t.clone(), t);
    let module = sample_module();
    assert_eq!(module.clone(), module);
    assert_eq!(module.script_functions[0].clone(), module.script_functions[0]);
    assert_eq!(module.script_functions[0].args[0].clone(), module.script_functions[0].args[0]);
    assert_eq!(module.module_id.clone(), module.module_id);
    assert_ne!(module.script_functions[0].clone(), module.script_functions[1]);
}

#[test]
fn context_and_errors_clone() {
    let ctx = CodegenContext {
        type_params: vec!["A".to_string(), "B".to_string()],
        structs: vec![StructId {
            module: ModuleId { address: "0x1".to_string(), name: "coin".to_string() },
            name: "Coin".to_string(),
        }],
        environment: Some(Environment::Aptos),
    };
    assert_eq!(ctx.clone(), ctx);
    assert_eq!(ctx.structs[0].clone(), ctx.structs[0]);
    let e = CodegenError {
        function: "0x1::coin::mint".to_string(),
        argument: "to".to_string(),
        cause: TypeError { kind: TypeErrorKind::UnknownStruct, name: "0x1::coin::Coin".to_string() },
    };
    assert_eq!(e.clone(), e);
    assert_eq!(e.cause.clone(), e.cause);
}
