//! The type of a type expression and the expression that serializes its
//! values have the same shape.

use vstd::prelude::*;
use crate::context::ContextView;
use crate::error::TypeErrorView;
use crate::idl::{ModuleIdView, PrimitiveKind, TypeExprView};
use crate::idl_type::{
    array_type, item_serializers, mapped, placeholder, primitive_serialized, primitive_type,
    serialized, struct_serialized, struct_type, type_text, type_texts, ITEM,
};

verus! {

/// The variants that a generator visits in a type expression, nested as it
/// visits them. A reference leaves no mark: it has the shape of what it
/// refers to.
pub enum Shape {
    Leaf(PrimitiveKind),
    Array(Box<Shape>),
    Param(Seq<char>),
    Struct(ModuleIdView, Seq<char>, Seq<Shape>),
}

/// The shape of a type expression.
pub open spec fn shape_of(t: TypeExprView) -> Shape
    decreases t,
{
    match t {
        TypeExprView::Primitive(kind) => Shape::Leaf(kind),
        TypeExprView::Vector(inner) => Shape::Array(Box::new(shape_of(*inner))),
        TypeExprView::TypeParamRef(name) => Shape::Param(name),
        TypeExprView::StructRef { module, name, type_args } => Shape::Struct(
            module,
            name,
            Seq::new(
                type_args.len(),
                |i: int|
                    if 0 <= i < type_args.len() {
                        shape_of(type_args[i])
                    } else {
                        Shape::Leaf(PrimitiveKind::Bool)
                    },
            ),
        ),
        TypeExprView::Reference { mutable, inner } => shape_of(*inner),
    }
}

/// The type that descends along `shape`: the type of the kind at a leaf,
/// the placeholder at a parameter, an array type around the type of the
/// inner shape, a struct type applied to the types of the shapes of its
/// arguments, in their order.
pub open spec fn type_along(shape: Shape) -> Seq<char>
    decreases shape, 0nat,
{
    match shape {
        Shape::Leaf(kind) => match primitive_type(kind) {
            Some(text) => text,
            None => Seq::empty(),
        },
        Shape::Array(inner) => array_type(type_along(*inner)),
        Shape::Param(name) => placeholder(name),
        Shape::Struct(module, name, args) => struct_type(
            module,
            name,
            types_along(args, args.len()),
        ),
    }
}

/// The types along the first `n` of `shapes`.
pub open spec fn types_along(shapes: Seq<Shape>, n: nat) -> Seq<Seq<char>>
    decreases shapes, n,
{
    if n == 0 || n > shapes.len() {
        Seq::empty()
    } else {
        types_along(shapes, (n - 1) as nat).push(type_along(shapes[n - 1]))
    }
}

/// The serializer of `expr` that descends along `shape`: the serialized
/// value of the kind at a leaf, the value as it is at a parameter, a map
/// over the items of an array with the serializer of the inner shape, the
/// call of a struct's serializer with the item serializers of the shapes
/// of its arguments, in their order.
pub open spec fn serializer_along(expr: Seq<char>, shape: Shape) -> Seq<char>
    decreases shape, 0nat,
{
    match shape {
        Shape::Leaf(kind) => match primitive_serialized(expr, kind) {
            Some(text) => text,
            None => Seq::empty(),
        },
        Shape::Array(inner) => mapped(expr, serializer_along(ITEM@, *inner)),
        Shape::Param(name) => expr,
        Shape::Struct(module, name, args) => struct_serialized(
            expr,
            module,
            name,
            item_serializers_along(args, args.len()),
        ),
    }
}

/// The item serializers along the first `n` of `shapes`.
pub open spec fn item_serializers_along(shapes: Seq<Shape>, n: nat) -> Seq<Seq<char>>
    decreases shapes, n,
{
    if n == 0 || n > shapes.len() {
        Seq::empty()
    } else {
        item_serializers_along(shapes, (n - 1) as nat).push(serializer_along(ITEM@, shapes[n - 1]))
    }
}

/// The type generator and the serializer generator agree on every type
/// expression: one fails exactly where the other does, with the same
/// failure, and where they succeed both descend along the one shape of the
/// type expression, so they visit the same variants in the same nesting.
pub proof fn lemma_type_and_serializer_agree(t: TypeExprView, ctx: ContextView, expr: Seq<char>)
    ensures
        type_text(t, ctx) is Ok <==> serialized(expr, t, ctx) is Ok,
        type_text(t, ctx) matches Err(e) ==> serialized(expr, t, ctx) == Err::<
            Seq<char>,
            TypeErrorView,
        >(e),
        type_text(t, ctx) matches Ok(text) ==> text == type_along(shape_of(t)),
        serialized(expr, t, ctx) matches Ok(text) ==> text == serializer_along(expr, shape_of(t)),
    decreases t, 0nat,
{
    match t {
        TypeExprView::Primitive(kind) => {},
        TypeExprView::Vector(inner) => {
            lemma_type_and_serializer_agree(*inner, ctx, ITEM@);
        },
        TypeExprView::TypeParamRef(name) => {},
        TypeExprView::StructRef { module, name, type_args } => {
            let shapes = shape_of(t)->Struct_2;
            assert(shape_of(t) == Shape::Struct(module, name, shapes));
            lemma_arguments_agree(type_args, shapes, type_args.len(), ctx);
        },
        TypeExprView::Reference { mutable, inner } => {
            lemma_type_and_serializer_agree(*inner, ctx, expr);
        },
    }
}

/// The two generators agree on the first `n` type arguments of a struct,
/// whose shapes are `shapes`.
pub proof fn lemma_arguments_agree(
    args: Seq<TypeExprView>,
    shapes: Seq<Shape>,
    n: nat,
    ctx: ContextView,
)
    requires
        n <= args.len(),
        shapes.len() == args.len(),
        forall|i: int| 0 <= i < args.len() ==> shapes[i] == shape_of(#[trigger] args[i]),
    ensures
        type_texts(args, n, ctx) is Ok <==> item_serializers(args, n, ctx) is Ok,
        type_texts(args, n, ctx) matches Err(e) ==> item_serializers(args, n, ctx) == Err::<
            Seq<Seq<char>>,
            TypeErrorView,
        >(e),
        type_texts(args, n, ctx) matches Ok(texts) ==> texts == types_along(shapes, n),
        item_serializers(args, n, ctx) matches Ok(items) ==> items == item_serializers_along(
            shapes,
            n,
        ),
    decreases args, n,
{
    if n > 0 {
        lemma_arguments_agree(args, shapes, (n - 1) as nat, ctx);
        lemma_type_and_serializer_agree(args[n - 1], ctx, ITEM@);
    }
}

} // verus!
