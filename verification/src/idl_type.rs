//! The type generator: from a type expression to the text of its TypeScript
//! type, and to the expression that serializes a value of that type.

use vstd::prelude::*;
use crate::context::{with_environment, CodegenContext, ContextView, Environment, StructIdView};
use crate::error::{type_result_view, TypeError, TypeErrorKind, TypeErrorView};
use crate::idl::{ModuleId, ModuleIdView, PrimitiveKind, TypeExpr, TypeExprView};
use crate::text::{join, join_strings, prefix_lines, prefixed};

verus! {

pub const TS_BOOLEAN: &'static str = "boolean";

pub const TS_NUMBER: &'static str = "number";

pub const TS_STRING: &'static str = "string";

pub const TS_ADDRESS: &'static str = "address";

pub const ADDRESS: &'static str = "address";

pub const SIGNER: &'static str = "signer";

pub const BOOL: &'static str = "bool";

pub const U8: &'static str = "u8";

pub const U16: &'static str = "u16";

pub const U32: &'static str = "u32";

pub const U64: &'static str = "u64";

pub const U128: &'static str = "u128";

pub const U256: &'static str = "u256";

pub const TO_STRING_OPEN: &'static str = "String(";

pub const FORMAT_ADDRESS_OPEN: &'static str = "formatAddress(";

pub const CALL_CLOSE: &'static str = ")";

pub const ARRAY_OPEN: &'static str = "ReadonlyArray<";

pub const ANGLE_OPEN: &'static str = "<";

pub const ANGLE_CLOSE: &'static str = ">";

pub const MAP_OPEN: &'static str = ".map((item) => ";

pub const ITEM: &'static str = "item";

pub const PLACEHOLDER_OPEN: &'static str = "TypeParam<\"";

pub const PLACEHOLDER_CLOSE: &'static str = "\">";

pub const DOT: &'static str = ".";

pub const COMMA: &'static str = ", ";

pub const PATH: &'static str = "::";

pub const SERIALIZE: &'static str = ".serialize";

pub const CALL_OPEN: &'static str = "(";

pub const ITEM_FN: &'static str = ", (item) => ";

/// The TypeScript type of a primitive kind; none for a kind that no value
/// of a payload can have.
pub open spec fn primitive_type(kind: PrimitiveKind) -> Option<Seq<char>> {
    match kind {
        PrimitiveKind::Bool => Some(TS_BOOLEAN@),
        PrimitiveKind::U8 | PrimitiveKind::U16 | PrimitiveKind::U32 => Some(TS_NUMBER@),
        PrimitiveKind::U64 | PrimitiveKind::U128 | PrimitiveKind::U256 => Some(TS_STRING@),
        PrimitiveKind::Address => Some(TS_ADDRESS@),
        PrimitiveKind::Signer => None,
    }
}

/// The expression that serializes the value `expr` of a primitive kind: the
/// value itself for the small numbers and booleans, a conversion to a string
/// for the integers that a JavaScript number cannot hold, chosen by kind and
/// not by value, and the formatted address.
pub open spec fn primitive_serialized(expr: Seq<char>, kind: PrimitiveKind) -> Option<Seq<char>> {
    match kind {
        PrimitiveKind::Bool | PrimitiveKind::U8 | PrimitiveKind::U16 | PrimitiveKind::U32 => Some(
            expr,
        ),
        PrimitiveKind::U64 | PrimitiveKind::U128 | PrimitiveKind::U256 => Some(
            TO_STRING_OPEN@ + expr + CALL_CLOSE@,
        ),
        PrimitiveKind::Address => Some(FORMAT_ADDRESS_OPEN@ + expr + CALL_CLOSE@),
        PrimitiveKind::Signer => None,
    }
}

/// The name of a primitive kind.
pub open spec fn kind_name(kind: PrimitiveKind) -> Seq<char> {
    match kind {
        PrimitiveKind::Bool => BOOL@,
        PrimitiveKind::U8 => U8@,
        PrimitiveKind::U16 => U16@,
        PrimitiveKind::U32 => U32@,
        PrimitiveKind::U64 => U64@,
        PrimitiveKind::U128 => U128@,
        PrimitiveKind::U256 => U256@,
        PrimitiveKind::Address => ADDRESS@,
        PrimitiveKind::Signer => SIGNER@,
    }
}

/// The failure for a primitive kind that has no generated form.
pub open spec fn unsupported(kind: PrimitiveKind) -> TypeErrorView {
    TypeErrorView { kind: TypeErrorKind::UnsupportedPrimitive, name: kind_name(kind) }
}

/// The failure for a struct that is not registered.
pub open spec fn unknown_struct(module: ModuleIdView, name: Seq<char>) -> TypeErrorView {
    TypeErrorView { kind: TypeErrorKind::UnknownStruct, name: qualified_name(module, name) }
}

/// The failure for a type parameter that nothing binds.
pub open spec fn unbound(name: Seq<char>) -> TypeErrorView {
    TypeErrorView { kind: TypeErrorKind::UnboundTypeParam, name }
}

/// The full name of a struct or a function: address, module and name.
pub open spec fn qualified_name(module: ModuleIdView, name: Seq<char>) -> Seq<char> {
    module.address + PATH@ + module.name + PATH@ + name
}

/// The type that stands for the type parameter `name` while it is abstract.
pub open spec fn placeholder(name: Seq<char>) -> Seq<char> {
    PLACEHOLDER_OPEN@ + name + PLACEHOLDER_CLOSE@
}

/// The type of a sequence of items of the type `item`.
pub open spec fn array_type(item: Seq<char>) -> Seq<char> {
    ARRAY_OPEN@ + item + ANGLE_CLOSE@
}

/// The sequence `expr` with every item replaced by `body`, an expression
/// over `item`; the order of the items stays.
pub open spec fn mapped(expr: Seq<char>, body: Seq<char>) -> Seq<char> {
    expr + MAP_OPEN@ + body + CALL_CLOSE@
}

/// The type arguments `args` in angle brackets; nothing where there is none.
pub open spec fn type_arguments(args: Seq<Seq<char>>) -> Seq<char> {
    if args.len() == 0 {
        Seq::empty()
    } else {
        ANGLE_OPEN@ + join(args, COMMA@) + ANGLE_CLOSE@
    }
}

/// The generated type of a struct, applied to the types of its arguments.
pub open spec fn struct_type(module: ModuleIdView, name: Seq<char>, args: Seq<Seq<char>>) -> Seq<
    char,
> {
    module.name + DOT@ + name + type_arguments(args)
}

/// The text of the TypeScript type of `t`, or why it has none.
pub open spec fn type_text(t: TypeExprView, ctx: ContextView) -> Result<Seq<char>, TypeErrorView>
    decreases t, 0nat,
{
    match t {
        TypeExprView::Primitive(kind) => match primitive_type(kind) {
            Some(text) => Ok(text),
            None => Err(unsupported(kind)),
        },
        TypeExprView::Vector(inner) => match type_text(*inner, ctx) {
            Ok(text) => Ok(array_type(text)),
            Err(e) => Err(e),
        },
        TypeExprView::TypeParamRef(name) => if ctx.type_params.contains(name) {
            Ok(placeholder(name))
        } else {
            Err(unbound(name))
        },
        TypeExprView::StructRef { module, name, type_args } => if !ctx.structs.contains(
            StructIdView { module, name },
        ) {
            Err(unknown_struct(module, name))
        } else {
            match type_texts(type_args, type_args.len(), ctx) {
                Ok(texts) => Ok(struct_type(module, name, texts)),
                Err(e) => Err(e),
            }
        },
        TypeExprView::Reference { mutable, inner } => type_text(*inner, ctx),
    }
}

/// The type texts of the first `n` of `args`, or the failure of the first
/// of them that has one.
pub open spec fn type_texts(args: Seq<TypeExprView>, n: nat, ctx: ContextView) -> Result<
    Seq<Seq<char>>,
    TypeErrorView,
>
    decreases args, n,
{
    if n == 0 || n > args.len() {
        Ok(Seq::empty())
    } else {
        match type_texts(args, (n - 1) as nat, ctx) {
            Err(e) => Err(e),
            Ok(texts) => match type_text(args[n - 1], ctx) {
                Err(e) => Err(e),
                Ok(text) => Ok(texts.push(text)),
            },
        }
    }
}

/// The call of a struct's generated serializer on `expr`, with one function
/// for the items of each type argument, in the order of the arguments.
pub open spec fn struct_serialized(
    expr: Seq<char>,
    module: ModuleIdView,
    name: Seq<char>,
    items: Seq<Seq<char>>,
) -> Seq<char> {
    module.name + SERIALIZE@ + name + CALL_OPEN@ + expr + join(
        prefixed(items, ITEM_FN@),
        Seq::empty(),
    ) + CALL_CLOSE@
}

/// The expression that serializes the value `expr` of type `t`, or why
/// there is none.
pub open spec fn serialized(expr: Seq<char>, t: TypeExprView, ctx: ContextView) -> Result<
    Seq<char>,
    TypeErrorView,
>
    decreases t, 0nat,
{
    match t {
        TypeExprView::Primitive(kind) => match primitive_serialized(expr, kind) {
            Some(text) => Ok(text),
            None => Err(unsupported(kind)),
        },
        TypeExprView::Vector(inner) => match serialized(ITEM@, *inner, ctx) {
            Ok(body) => Ok(mapped(expr, body)),
            Err(e) => Err(e),
        },
        TypeExprView::TypeParamRef(name) => if ctx.type_params.contains(name) {
            Ok(expr)
        } else {
            Err(unbound(name))
        },
        TypeExprView::StructRef { module, name, type_args } => if !ctx.structs.contains(
            StructIdView { module, name },
        ) {
            Err(unknown_struct(module, name))
        } else {
            match item_serializers(type_args, type_args.len(), ctx) {
                Ok(items) => Ok(struct_serialized(expr, module, name, items)),
                Err(e) => Err(e),
            }
        },
        TypeExprView::Reference { mutable, inner } => serialized(expr, *inner, ctx),
    }
}

/// For each of the first `n` of `args`, the expression that serializes an
/// item of that type, or the failure of the first of them that has one.
pub open spec fn item_serializers(args: Seq<TypeExprView>, n: nat, ctx: ContextView) -> Result<
    Seq<Seq<char>>,
    TypeErrorView,
>
    decreases args, n,
{
    if n == 0 || n > args.len() {
        Ok(Seq::empty())
    } else {
        match item_serializers(args, (n - 1) as nat, ctx) {
            Err(e) => Err(e),
            Ok(items) => match serialized(ITEM@, args[n - 1], ctx) {
                Err(e) => Err(e),
                Ok(item) => Ok(items.push(item)),
            },
        }
    }
}

/// The selected environment has no part in the type of a type expression
/// nor in the expression that serializes its values.
pub proof fn lemma_type_ignores_environment(
    t: TypeExprView,
    expr: Seq<char>,
    ctx: ContextView,
    environment: Option<Environment>,
)
    ensures
        type_text(t, with_environment(ctx, environment)) == type_text(t, ctx),
        serialized(expr, t, with_environment(ctx, environment)) == serialized(expr, t, ctx),
    decreases t, 0nat,
{
    match t {
        TypeExprView::Primitive(kind) => {},
        TypeExprView::Vector(inner) => {
            lemma_type_ignores_environment(*inner, ITEM@, ctx, environment);
        },
        TypeExprView::TypeParamRef(name) => {},
        TypeExprView::StructRef { module, name, type_args } => {
            lemma_arguments_ignore_environment(type_args, type_args.len(), ctx, environment);
        },
        TypeExprView::Reference { mutable, inner } => {
            lemma_type_ignores_environment(*inner, expr, ctx, environment);
        },
    }
}

/// The selected environment has no part in the type arguments of a struct.
pub proof fn lemma_arguments_ignore_environment(
    args: Seq<TypeExprView>,
    n: nat,
    ctx: ContextView,
    environment: Option<Environment>,
)
    requires
        n <= args.len(),
    ensures
        type_texts(args, n, with_environment(ctx, environment)) == type_texts(args, n, ctx),
        item_serializers(args, n, with_environment(ctx, environment)) == item_serializers(
            args,
            n,
            ctx,
        ),
    decreases args, n,
{
    if n > 0 {
        lemma_arguments_ignore_environment(args, (n - 1) as nat, ctx, environment);
        lemma_type_ignores_environment(args[n - 1], ITEM@, ctx, environment);
    }
}

/// The name of a primitive kind.
pub fn primitive_name(kind: PrimitiveKind) -> (name: &'static str)
    ensures
        name@ == kind_name(kind),
{
    match kind {
        PrimitiveKind::Bool => BOOL,
        PrimitiveKind::U8 => U8,
        PrimitiveKind::U16 => U16,
        PrimitiveKind::U32 => U32,
        PrimitiveKind::U64 => U64,
        PrimitiveKind::U128 => U128,
        PrimitiveKind::U256 => U256,
        PrimitiveKind::Address => ADDRESS,
        PrimitiveKind::Signer => SIGNER,
    }
}

/// Writes the full name of a struct or a function.
pub fn qualify(module: &ModuleId, name: &String) -> (out: String)
    ensures
        out@ == qualified_name(module@, name@),
{
    let mut out = module.address.clone();
    out.append(PATH);
    out.append(module.name.as_str());
    out.append(PATH);
    out.append(name.as_str());
    out
}

/// Writes the type arguments `args` in angle brackets; nothing where there
/// is none.
pub fn angle_bracketed(args: &[String]) -> (out: String)
    ensures
        out@ == type_arguments(args.deep_view()),
{
    let mut out = String::new();
    if args.len() > 0 {
        out.append(ANGLE_OPEN);
        out.append(join_strings(args, COMMA).as_str());
        out.append(ANGLE_CLOSE);
        assert(out@ =~= ANGLE_OPEN@ + join(args.deep_view(), COMMA@) + ANGLE_CLOSE@);
    }
    out
}

/// Generates the TypeScript type of `t`.
pub fn generate_idl_type(t: &TypeExpr, ctx: &CodegenContext) -> (r: Result<String, TypeError>)
    ensures
        type_result_view(r) == type_text(t@, ctx@),
    decreases t,
{
    match t {
        TypeExpr::Primitive(kind) => {
            let text = match kind {
                PrimitiveKind::Bool => TS_BOOLEAN,
                PrimitiveKind::U8 | PrimitiveKind::U16 | PrimitiveKind::U32 => TS_NUMBER,
                PrimitiveKind::U64 | PrimitiveKind::U128 | PrimitiveKind::U256 => TS_STRING,
                PrimitiveKind::Address => TS_ADDRESS,
                PrimitiveKind::Signer => {
                    return Err(
                        TypeError {
                            kind: TypeErrorKind::UnsupportedPrimitive,
                            name: String::from_str(primitive_name(*kind)),
                        },
                    );
                },
            };
            Ok(String::from_str(text))
        },
        TypeExpr::Vector(inner) => {
            let text = generate_idl_type(inner, ctx)?;
            let mut out = String::from_str(ARRAY_OPEN);
            out.append(text.as_str());
            out.append(ANGLE_CLOSE);
            Ok(out)
        },
        TypeExpr::TypeParamRef(name) => {
            if ctx.binds(name) {
                let mut out = String::from_str(PLACEHOLDER_OPEN);
                out.append(name.as_str());
                out.append(PLACEHOLDER_CLOSE);
                Ok(out)
            } else {
                Err(TypeError { kind: TypeErrorKind::UnboundTypeParam, name: name.clone() })
            }
        },
        TypeExpr::StructRef { module, name, type_args } => {
            if !ctx.knows_struct(module, name) {
                return Err(
                    TypeError {
                        kind: TypeErrorKind::UnknownStruct,
                        name: qualify(module, name),
                    },
                );
            }
            let ghost args = t@->type_args;
            let mut texts: Vec<String> = Vec::new();
            let mut i: usize = 0;
            assert(texts.deep_view() =~= Seq::empty());
            while i < type_args.len()
                invariant
                    i <= type_args.len(),
                    args.len() == type_args.len(),
                    t@ == (TypeExprView::StructRef { module: module@, name: name@, type_args: args }),
                    ctx@.structs.contains(StructIdView { module: module@, name: name@ }),
                    forall|j: int| 0 <= j < args.len() ==> args[j] == type_args[j]@,
                    forall|j: int| 0 <= j < type_args.len() ==> decreases_to!(t => type_args[j]),
                    type_texts(args, i as nat, ctx@) == Ok::<Seq<Seq<char>>, TypeErrorView>(
                        texts.deep_view(),
                    ),
                decreases type_args.len() - i,
            {
                let text = match generate_idl_type(&type_args[i], ctx) {
                    Ok(text) => text,
                    Err(e) => {
                        assert(type_texts(args, (i + 1) as nat, ctx@) == Err::<
                            Seq<Seq<char>>,
                            TypeErrorView,
                        >(e@));
                        proof {
                            lemma_type_texts_failure(args, (i + 1) as nat, args.len(), ctx@);
                        }
                        return Err(e);
                    },
                };
                texts.push(text);
                i += 1;
                assert(texts.deep_view() =~= type_texts(args, i as nat, ctx@)->Ok_0);
            }
            let mut out = module.name.clone();
            out.append(DOT);
            out.append(name.as_str());
            out.append(angle_bracketed(&texts).as_str());
            Ok(out)
        },
        TypeExpr::Reference { mutable, inner } => generate_idl_type(inner, ctx),
    }
}

/// Generates the expression that serializes the value `arg` of type `t`.
pub fn serialize_arg(arg: &str, t: &TypeExpr, ctx: &CodegenContext) -> (r: Result<
    String,
    TypeError,
>)
    ensures
        type_result_view(r) == serialized(arg@, t@, ctx@),
    decreases t,
{
    match t {
        TypeExpr::Primitive(kind) => {
            let open = match kind {
                PrimitiveKind::Bool | PrimitiveKind::U8 | PrimitiveKind::U16 | PrimitiveKind::U32 => {
                    return Ok(String::from_str(arg));
                },
                PrimitiveKind::U64 | PrimitiveKind::U128 | PrimitiveKind::U256 => TO_STRING_OPEN,
                PrimitiveKind::Address => FORMAT_ADDRESS_OPEN,
                PrimitiveKind::Signer => {
                    return Err(
                        TypeError {
                            kind: TypeErrorKind::UnsupportedPrimitive,
                            name: String::from_str(primitive_name(*kind)),
                        },
                    );
                },
            };
            let mut out = String::from_str(open);
            out.append(arg);
            out.append(CALL_CLOSE);
            Ok(out)
        },
        TypeExpr::Vector(inner) => {
            let body = serialize_arg(ITEM, inner, ctx)?;
            let mut out = String::from_str(arg);
            out.append(MAP_OPEN);
            out.append(body.as_str());
            out.append(CALL_CLOSE);
            Ok(out)
        },
        TypeExpr::TypeParamRef(name) => {
            if ctx.binds(name) {
                Ok(String::from_str(arg))
            } else {
                Err(TypeError { kind: TypeErrorKind::UnboundTypeParam, name: name.clone() })
            }
        },
        TypeExpr::StructRef { module, name, type_args } => {
            if !ctx.knows_struct(module, name) {
                return Err(
                    TypeError {
                        kind: TypeErrorKind::UnknownStruct,
                        name: qualify(module, name),
                    },
                );
            }
            let ghost args = t@->type_args;
            let mut items: Vec<String> = Vec::new();
            let mut i: usize = 0;
            assert(items.deep_view() =~= Seq::empty());
            while i < type_args.len()
                invariant
                    i <= type_args.len(),
                    args.len() == type_args.len(),
                    t@ == (TypeExprView::StructRef { module: module@, name: name@, type_args: args }),
                    ctx@.structs.contains(StructIdView { module: module@, name: name@ }),
                    forall|j: int| 0 <= j < args.len() ==> args[j] == type_args[j]@,
                    forall|j: int| 0 <= j < type_args.len() ==> decreases_to!(t => type_args[j]),
                    item_serializers(args, i as nat, ctx@) == Ok::<Seq<Seq<char>>, TypeErrorView>(
                        items.deep_view(),
                    ),
                decreases type_args.len() - i,
            {
                let item = match serialize_arg(ITEM, &type_args[i], ctx) {
                    Ok(item) => item,
                    Err(e) => {
                        assert(item_serializers(args, (i + 1) as nat, ctx@) == Err::<
                            Seq<Seq<char>>,
                            TypeErrorView,
                        >(e@));
                        proof {
                            lemma_item_serializers_failure(args, (i + 1) as nat, args.len(), ctx@);
                        }
                        return Err(e);
                    },
                };
                items.push(item);
                i += 1;
                assert(items.deep_view() =~= item_serializers(args, i as nat, ctx@)->Ok_0);
            }
            let functions = prefix_lines(&items, ITEM_FN);
            let nothing = String::new();
            let tail = join_strings(&functions, nothing.as_str());
            let mut out = module.name.clone();
            out.append(SERIALIZE);
            out.append(name.as_str());
            out.append(CALL_OPEN);
            out.append(arg);
            out.append(tail.as_str());
            out.append(CALL_CLOSE);
            Ok(out)
        },
        TypeExpr::Reference { mutable, inner } => serialize_arg(arg, inner, ctx),
    }
}

/// Once one of the first `n` arguments has failed, the failure stays as
/// more arguments are taken in.
pub proof fn lemma_item_serializers_failure(
    args: Seq<TypeExprView>,
    n: nat,
    m: nat,
    ctx: ContextView,
)
    requires
        n <= m <= args.len(),
        item_serializers(args, n, ctx) is Err,
    ensures
        item_serializers(args, m, ctx) == item_serializers(args, n, ctx),
    decreases m,
{
    if n < m {
        lemma_item_serializers_failure(args, n, (m - 1) as nat, ctx);
    }
}

/// Once one of the first `n` arguments has failed, the failure stays as
/// more arguments are taken in.
pub proof fn lemma_type_texts_failure(args: Seq<TypeExprView>, n: nat, m: nat, ctx: ContextView)
    requires
        n <= m <= args.len(),
        type_texts(args, n, ctx) is Err,
    ensures
        type_texts(args, m, ctx) == type_texts(args, n, ctx),
    decreases m,
{
    if n < m {
        lemma_type_texts_failure(args, n, (m - 1) as nat, ctx);
    }
}

} // verus!
