//! The interface description of a module: type expressions, arguments,
//! script functions, modules, and the mathematical view of each.

use vstd::prelude::*;

verus! {

/// The primitive kinds of a type expression. A signer is the account that
/// signs a transaction: it is never a value of a payload.
#[derive(Clone, Copy, Debug, PartialEq, Eq, Structural)]
pub enum PrimitiveKind {
    Bool,
    U8,
    U16,
    U32,
    U64,
    U128,
    U256,
    Address,
    Signer,
}

/// The address of an account and the name of a module published under it.
#[derive(Debug, PartialEq, Eq)]
pub struct ModuleId {
    pub address: String,
    pub name: String,
}

pub struct ModuleIdView {
    pub address: Seq<char>,
    pub name: Seq<char>,
}

impl View for ModuleId {
    type V = ModuleIdView;

    open spec fn view(&self) -> ModuleIdView {
        ModuleIdView { address: self.address@, name: self.name@ }
    }
}

impl Clone for ModuleId {
    fn clone(&self) -> (copy: Self)
        ensures
            copy@ == self@,
    {
        ModuleId { address: self.address.clone(), name: self.name.clone() }
    }
}

/// A type expression. The set of variants is closed.
#[derive(Debug, PartialEq, Eq)]
pub enum TypeExpr {
    Primitive(PrimitiveKind),
    Vector(Box<TypeExpr>),
    TypeParamRef(String),
    StructRef { module: ModuleId, name: String, type_args: Vec<TypeExpr> },
    Reference { mutable: bool, inner: Box<TypeExpr> },
}

pub enum TypeExprView {
    Primitive(PrimitiveKind),
    Vector(Box<TypeExprView>),
    TypeParamRef(Seq<char>),
    StructRef { module: ModuleIdView, name: Seq<char>, type_args: Seq<TypeExprView> },
    Reference { mutable: bool, inner: Box<TypeExprView> },
}

/// What a type expression is, with its names as sequences of characters.
pub open spec fn type_expr_view(t: TypeExpr) -> TypeExprView
    decreases t,
{
    match t {
        TypeExpr::Primitive(kind) => TypeExprView::Primitive(kind),
        TypeExpr::Vector(inner) => TypeExprView::Vector(Box::new(type_expr_view(*inner))),
        TypeExpr::TypeParamRef(name) => TypeExprView::TypeParamRef(name@),
        TypeExpr::StructRef { module, name, type_args } => TypeExprView::StructRef {
            module: module@,
            name: name@,
            type_args: Seq::new(
                type_args.len() as nat,
                |i: int|
                    if 0 <= i < type_args.len() {
                        type_expr_view(type_args[i])
                    } else {
                        TypeExprView::Primitive(PrimitiveKind::Bool)
                    },
            ),
        },
        TypeExpr::Reference { mutable, inner } => TypeExprView::Reference {
            mutable,
            inner: Box::new(type_expr_view(*inner)),
        },
    }
}

impl View for TypeExpr {
    type V = TypeExprView;

    open spec fn view(&self) -> TypeExprView {
        type_expr_view(*self)
    }
}

impl Clone for TypeExpr {
    fn clone(&self) -> (copy: Self)
        ensures
            copy@ == self@,
        decreases self,
    {
        match self {
            TypeExpr::Primitive(kind) => TypeExpr::Primitive(*kind),
            TypeExpr::Vector(inner) => TypeExpr::Vector(Box::new(TypeExpr::clone(inner))),
            TypeExpr::TypeParamRef(name) => TypeExpr::TypeParamRef(name.clone()),
            TypeExpr::StructRef { module, name, type_args } => {
                let mut copies: Vec<TypeExpr> = Vec::new();
                let mut i: usize = 0;
                while i < type_args.len()
                    invariant
                        i <= type_args.len(),
                        copies.len() == i,
                        forall|j: int| 0 <= j < i ==> copies[j]@ == type_args[j]@,
                        forall|j: int|
                            0 <= j < type_args.len() ==> decreases_to!(self => type_args[j]),
                    decreases type_args.len() - i,
                {
                    copies.push(TypeExpr::clone(&type_args[i]));
                    i += 1;
                }
                let copy = TypeExpr::StructRef {
                    module: module.clone(),
                    name: name.clone(),
                    type_args: copies,
                };
                assert(copy@->type_args =~= self@->type_args);
                copy
            },
            TypeExpr::Reference { mutable, inner } => TypeExpr::Reference {
                mutable: *mutable,
                inner: Box::new(TypeExpr::clone(inner)),
            },
        }
    }
}

/// An argument of a script function: its name, its type, and the type as
/// the interface description prints it, which goes into the comment on the
/// argument's field as it is.
#[derive(Debug, PartialEq, Eq)]
pub struct Argument {
    pub name: String,
    pub ty: TypeExpr,
    pub idl_type: String,
}

pub struct ArgumentView {
    pub name: Seq<char>,
    pub ty: TypeExprView,
    pub idl_type: Seq<char>,
}

impl View for Argument {
    type V = ArgumentView;

    open spec fn view(&self) -> ArgumentView {
        ArgumentView { name: self.name@, ty: self.ty@, idl_type: self.idl_type@ }
    }
}

impl Clone for Argument {
    fn clone(&self) -> (copy: Self)
        ensures
            copy@ == self@,
    {
        Argument {
            name: self.name.clone(),
            ty: self.ty.clone(),
            idl_type: self.idl_type.clone(),
        }
    }
}

/// A script function: its name, its documentation if it has any, its
/// arguments and the names of its type parameters, both in declared order.
#[derive(Debug, PartialEq, Eq)]
pub struct ScriptFunction {
    pub name: String,
    pub doc: Option<String>,
    pub args: Vec<Argument>,
    pub type_params: Vec<String>,
}

pub struct ScriptFunctionView {
    pub name: Seq<char>,
    pub doc: Option<Seq<char>>,
    pub args: Seq<ArgumentView>,
    pub type_params: Seq<Seq<char>>,
}

impl View for ScriptFunction {
    type V = ScriptFunctionView;

    open spec fn view(&self) -> ScriptFunctionView {
        ScriptFunctionView {
            name: self.name@,
            doc: match self.doc {
                Some(doc) => Some(doc@),
                None => None,
            },
            args: Seq::new(self.args.len() as nat, |i: int| self.args[i]@),
            type_params: self.type_params.deep_view(),
        }
    }
}

impl Clone for ScriptFunction {
    fn clone(&self) -> (copy: Self)
        ensures
            copy@ == self@,
    {
        let mut args: Vec<Argument> = Vec::new();
        let mut i: usize = 0;
        while i < self.args.len()
            invariant
                i <= self.args.len(),
                args.len() == i,
                forall|j: int| 0 <= j < i ==> args[j]@ == self.args[j]@,
            decreases self.args.len() - i,
        {
            args.push(self.args[i].clone());
            i += 1;
        }
        let mut type_params: Vec<String> = Vec::new();
        let mut k: usize = 0;
        while k < self.type_params.len()
            invariant
                k <= self.type_params.len(),
                type_params.len() == k,
                forall|j: int| 0 <= j < k ==> type_params[j]@ == self.type_params[j]@,
            decreases self.type_params.len() - k,
        {
            type_params.push(self.type_params[k].clone());
            k += 1;
        }
        let copy = ScriptFunction {
            name: self.name.clone(),
            doc: match &self.doc {
                Some(text) => Some(text.clone()),
                None => None,
            },
            args,
            type_params,
        };
        assert(copy@.args =~= self@.args);
        assert(copy@.type_params =~= self@.type_params);
        copy
    }
}

/// A module: where it is published and the script functions it offers.
#[derive(Debug, PartialEq, Eq)]
pub struct Module {
    pub module_id: ModuleId,
    pub script_functions: Vec<ScriptFunction>,
}

pub struct ModuleView {
    pub module_id: ModuleIdView,
    pub script_functions: Seq<ScriptFunctionView>,
}

impl View for Module {
    type V = ModuleView;

    open spec fn view(&self) -> ModuleView {
        ModuleView {
            module_id: self.module_id@,
            script_functions: Seq::new(
                self.script_functions.len() as nat,
                |i: int| self.script_functions[i]@,
            ),
        }
    }
}

impl Clone for Module {
    fn clone(&self) -> (copy: Self)
        ensures
            copy@ == self@,
    {
        let mut script_functions: Vec<ScriptFunction> = Vec::new();
        let mut i: usize = 0;
        while i < self.script_functions.len()
            invariant
                i <= self.script_functions.len(),
                script_functions.len() == i,
                forall|j: int| 0 <= j < i ==> script_functions[j]@ == self.script_functions[j]@,
            decreases self.script_functions.len() - i,
        {
            script_functions.push(self.script_functions[i].clone());
            i += 1;
        }
        let copy = Module { module_id: self.module_id.clone(), script_functions };
        assert(copy@.script_functions =~= self@.script_functions);
        copy
    }
}

} // verus!
