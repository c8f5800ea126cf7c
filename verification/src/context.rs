//! What a generation pass knows besides the function at hand.

use vstd::prelude::*;
use crate::idl::{ModuleId, ModuleIdView};
use crate::text::same_text;

verus! {

/// The execution environment that the module wrapper is written for.
#[derive(Clone, Copy, Debug, PartialEq, Eq, Structural)]
pub enum Environment {
    Aptos,
    Sui,
}

pub const APTOS_NAME: &'static str = "aptos";

pub const SUI_NAME: &'static str = "sui";

/// The environment that goes by the name `name`, if there is one.
pub open spec fn environment_named(name: Seq<char>) -> Option<Environment> {
    if name == APTOS_NAME@ {
        Some(Environment::Aptos)
    } else if name == SUI_NAME@ {
        Some(Environment::Sui)
    } else {
        None
    }
}

impl Environment {
    /// The name of this environment; the environment of that name is this
    /// one.
    pub fn name(&self) -> (name: &'static str)
        ensures
            environment_named(name@) == Some(*self),
    {
        proof {
            reveal_strlit("aptos");
            reveal_strlit("sui");
            assert(APTOS_NAME@.len() != SUI_NAME@.len());
        }
        match self {
            Environment::Aptos => APTOS_NAME,
            Environment::Sui => SUI_NAME,
        }
    }

    /// The environment that goes by the name `name`; none for another name.
    pub fn from_name(name: &str) -> (environment: Option<Environment>)
        ensures
            environment == environment_named(name@),
    {
        let given = String::from_str(name);
        if same_text(&given, &String::from_str(APTOS_NAME)) {
            Some(Environment::Aptos)
        } else if same_text(&given, &String::from_str(SUI_NAME)) {
            Some(Environment::Sui)
        } else {
            None
        }
    }
}

/// A struct that generated code exists for.
#[derive(Debug, PartialEq, Eq)]
pub struct StructId {
    pub module: ModuleId,
    pub name: String,
}

pub struct StructIdView {
    pub module: ModuleIdView,
    pub name: Seq<char>,
}

impl View for StructId {
    type V = StructIdView;

    open spec fn view(&self) -> StructIdView {
        StructIdView { module: self.module@, name: self.name@ }
    }
}

impl Clone for StructId {
    fn clone(&self) -> (copy: Self)
        ensures
            copy@ == self@,
    {
        StructId { module: self.module.clone(), name: self.name.clone() }
    }
}

/// The state of a generation pass: the type parameters bound around the
/// function at hand besides its own, the registered structs, and the
/// environment selected for the module wrapper, if any.
#[derive(Debug, PartialEq, Eq)]
pub struct CodegenContext {
    pub type_params: Vec<String>,
    pub structs: Vec<StructId>,
    pub environment: Option<Environment>,
}

pub struct ContextView {
    pub type_params: Seq<Seq<char>>,
    pub structs: Seq<StructIdView>,
    pub environment: Option<Environment>,
}

impl View for CodegenContext {
    type V = ContextView;

    open spec fn view(&self) -> ContextView {
        ContextView {
            type_params: self.type_params.deep_view(),
            structs: Seq::new(self.structs.len() as nat, |i: int| self.structs[i]@),
            environment: self.environment,
        }
    }
}

/// The context `ctx` inside a function with the type parameters `own`:
/// the function's own parameters are bound before those bound around it.
pub open spec fn scoped(ctx: ContextView, own: Seq<Seq<char>>) -> ContextView {
    ContextView {
        type_params: own + ctx.type_params,
        structs: ctx.structs,
        environment: ctx.environment,
    }
}

impl Clone for CodegenContext {
    fn clone(&self) -> (copy: Self)
        ensures
            copy@ == self@,
    {
        let nothing: Vec<String> = Vec::new();
        let copy = self.scoped(&nothing);
        assert(nothing.deep_view() + self@.type_params =~= self@.type_params);
        copy
    }
}

/// The context `ctx` with the environment `environment` selected in place
/// of its own.
pub open spec fn with_environment(
    ctx: ContextView,
    environment: Option<Environment>,
) -> ContextView {
    ContextView { type_params: ctx.type_params, structs: ctx.structs, environment }
}

impl CodegenContext {
    /// This context inside a function with the type parameters `own`.
    pub fn scoped(&self, own: &[String]) -> (inner: CodegenContext)
        ensures
            inner@ == scoped(self@, own.deep_view()),
    {
        let mut type_params: Vec<String> = Vec::new();
        let mut i: usize = 0;
        while i < own.len()
            invariant
                i <= own.len(),
                type_params.len() == i,
                forall|j: int| 0 <= j < i ==> type_params[j]@ == own[j]@,
            decreases own.len() - i,
        {
            type_params.push(own[i].clone());
            i += 1;
        }
        let mut k: usize = 0;
        while k < self.type_params.len()
            invariant
                k <= self.type_params.len(),
                type_params.len() == own.len() + k,
                forall|j: int| 0 <= j < own.len() ==> type_params[j]@ == own[j]@,
                forall|j: int| 0 <= j < k ==> type_params[own.len() + j]@ == self.type_params[j]@,
            decreases self.type_params.len() - k,
        {
            type_params.push(self.type_params[k].clone());
            k += 1;
        }
        let mut structs: Vec<StructId> = Vec::new();
        let mut n: usize = 0;
        while n < self.structs.len()
            invariant
                n <= self.structs.len(),
                structs.len() == n,
                forall|j: int| 0 <= j < n ==> structs[j]@ == self.structs[j]@,
            decreases self.structs.len() - n,
        {
            structs.push(self.structs[n].clone());
            n += 1;
        }
        let inner = CodegenContext { type_params, structs, environment: self.environment };
        assert(inner@.type_params =~= own.deep_view() + self@.type_params);
        assert(inner@.structs =~= self@.structs);
        inner
    }

    /// A context with nothing bound, nothing registered and no environment.
    pub fn new() -> (ctx: CodegenContext)
        ensures
            ctx@.type_params.len() == 0,
            ctx@.structs.len() == 0,
            ctx@.environment is None,
    {
        CodegenContext { type_params: Vec::new(), structs: Vec::new(), environment: None }
    }

    /// Whether `name` is one of the bound type parameters.
    pub fn binds(&self, name: &String) -> (found: bool)
        ensures
            found == self@.type_params.contains(name@),
    {
        let mut i: usize = 0;
        while i < self.type_params.len()
            invariant
                i <= self.type_params.len(),
                forall|j: int| 0 <= j < i ==> self@.type_params[j] != name@,
            decreases self.type_params.len() - i,
        {
            if same_text(&self.type_params[i], name) {
                assert(self@.type_params[i as int] == name@);
                return true;
            }
            i += 1;
        }
        false
    }

    /// Whether the struct `name` of `module` is registered.
    pub fn knows_struct(&self, module: &ModuleId, name: &String) -> (found: bool)
        ensures
            found == self@.structs.contains(StructIdView { module: module@, name: name@ }),
    {
        let mut i: usize = 0;
        while i < self.structs.len()
            invariant
                i <= self.structs.len(),
                forall|j: int|
                    0 <= j < i ==> self@.structs[j] != (StructIdView {
                        module: module@,
                        name: name@,
                    }),
            decreases self.structs.len() - i,
        {
            let entry = &self.structs[i];
            if same_text(&entry.module.address, &module.address) && same_text(
                &entry.module.name,
                &module.name,
            ) && same_text(&entry.name, name) {
                assert(self@.structs[i as int] == (StructIdView { module: module@, name: name@ }));
                return true;
            }
            i += 1;
        }
        false
    }
}

} // verus!
