//! Why generation failed.

use vstd::prelude::*;

verus! {

pub const NO_PRIMITIVE: &'static str = "no payload value has the primitive type";

pub const NO_STRUCT: &'static str = "no code is generated for the struct";

pub const NO_BINDING: &'static str = "nothing binds the type parameter";

pub const QUOTE_OPEN: &'static str = " `";

pub const QUOTE_CLOSE: &'static str = "`";

pub const CANNOT_GENERATE: &'static str = "cannot generate `";

pub const AT_ARGUMENT: &'static str = "`: argument `";

pub const BECAUSE: &'static str = "`: ";

/// Why a type expression has no generated form.
#[derive(Clone, Copy, Debug, PartialEq, Eq, Structural)]
pub enum TypeErrorKind {
    /// A primitive kind that the table of primitives does not cover.
    UnsupportedPrimitive,
    /// A struct that is not registered in the context.
    UnknownStruct,
    /// A type parameter that nothing around the type binds.
    UnboundTypeParam,
}

/// A type expression that could not be generated: the kind of failure and
/// the name of the kind, struct or parameter that caused it.
#[derive(Debug, PartialEq, Eq)]
pub struct TypeError {
    pub kind: TypeErrorKind,
    pub name: String,
}

pub struct TypeErrorView {
    pub kind: TypeErrorKind,
    pub name: Seq<char>,
}

impl View for TypeError {
    type V = TypeErrorView;

    open spec fn view(&self) -> TypeErrorView {
        TypeErrorView { kind: self.kind, name: self.name@ }
    }
}

impl Clone for TypeError {
    fn clone(&self) -> (copy: Self)
        ensures
            copy@ == self@,
    {
        TypeError { kind: self.kind, name: self.name.clone() }
    }
}

/// A function whose code could not be generated: its full name, the
/// argument whose type failed, and the failure.
#[derive(Debug, PartialEq, Eq)]
pub struct CodegenError {
    pub function: String,
    pub argument: String,
    pub cause: TypeError,
}

pub struct CodegenErrorView {
    pub function: Seq<char>,
    pub argument: Seq<char>,
    pub cause: TypeErrorView,
}

impl View for CodegenError {
    type V = CodegenErrorView;

    open spec fn view(&self) -> CodegenErrorView {
        CodegenErrorView {
            function: self.function@,
            argument: self.argument@,
            cause: self.cause@,
        }
    }
}

impl Clone for CodegenError {
    fn clone(&self) -> (copy: Self)
        ensures
            copy@ == self@,
    {
        CodegenError {
            function: self.function.clone(),
            argument: self.argument.clone(),
            cause: self.cause.clone(),
        }
    }
}

/// What a kind of failure says of the name that caused it.
pub open spec fn reason(kind: TypeErrorKind) -> Seq<char> {
    match kind {
        TypeErrorKind::UnsupportedPrimitive => NO_PRIMITIVE@,
        TypeErrorKind::UnknownStruct => NO_STRUCT@,
        TypeErrorKind::UnboundTypeParam => NO_BINDING@,
    }
}

/// The message of a type failure: the reason and the name, quoted.
pub open spec fn type_message(e: TypeErrorView) -> Seq<char> {
    reason(e.kind) + QUOTE_OPEN@ + e.name + QUOTE_CLOSE@
}

/// The message of a failed function: the function, the argument, and the
/// message of the failure.
pub open spec fn message(e: CodegenErrorView) -> Seq<char> {
    CANNOT_GENERATE@ + e.function + AT_ARGUMENT@ + e.argument + BECAUSE@ + type_message(e.cause)
}

/// A generated text or a type failure, by view.
pub open spec fn type_result_view(r: Result<String, TypeError>) -> Result<Seq<char>, TypeErrorView> {
    match r {
        Ok(text) => Ok(text@),
        Err(e) => Err(e@),
    }
}

/// A generated text or a failed function, by view.
pub open spec fn result_view(r: Result<String, CodegenError>) -> Result<
    Seq<char>,
    CodegenErrorView,
> {
    match r {
        Ok(text) => Ok(text@),
        Err(e) => Err(e@),
    }
}

impl TypeError {
    /// The message of this failure.
    pub fn message(&self) -> (text: String)
        ensures
            text@ == type_message(self@),
    {
        let mut out = String::from_str(
            match self.kind {
                TypeErrorKind::UnsupportedPrimitive => NO_PRIMITIVE,
                TypeErrorKind::UnknownStruct => NO_STRUCT,
                TypeErrorKind::UnboundTypeParam => NO_BINDING,
            },
        );
        out.append(QUOTE_OPEN);
        out.append(self.name.as_str());
        out.append(QUOTE_CLOSE);
        out
    }

    /// Whether the failure lies in the context rather than in the type: a
    /// type parameter that nothing binds.
    pub fn is_inconsistent_context(&self) -> (yes: bool)
        ensures
            yes == (self@.kind == TypeErrorKind::UnboundTypeParam),
    {
        match self.kind {
            TypeErrorKind::UnboundTypeParam => true,
            _ => false,
        }
    }
}

impl CodegenError {
    /// The message of this failure: it names the function and the argument.
    pub fn message(&self) -> (text: String)
        ensures
            text@ == message(self@),
    {
        let mut out = String::from_str(CANNOT_GENERATE);
        out.append(self.function.as_str());
        out.append(AT_ARGUMENT);
        out.append(self.argument.as_str());
        out.append(BECAUSE);
        out.append(self.cause.message().as_str());
        out
    }
}

} // verus!
