//! The code of a whole module: the code of each of its script functions, in
//! their order, and the wrapper of the module.

use vstd::prelude::*;
use crate::context::{with_environment, CodegenContext, ContextView, Environment};
use crate::error::{CodegenError, CodegenErrorView};
use crate::idl::{Module, ModuleView};
use crate::module_wrapper::{function_views, generate_typescript, wrapper_text};
use crate::naming::upper_camel_case;
use crate::script_function::{
    function_code, lemma_function_ignores_environment, FunctionCode, FunctionCodeView,
    ScriptFunctionType, ScriptFunctionTypeView,
};

verus! {

/// The code of a module.
#[derive(Debug, PartialEq, Eq)]
pub struct ModuleCode {
    pub functions: Vec<FunctionCode>,
    pub wrapper: String,
}

pub struct ModuleCodeView {
    pub functions: Seq<FunctionCodeView>,
    pub wrapper: Seq<char>,
}

/// The code of the functions, by view.
pub open spec fn code_views(codes: Seq<FunctionCode>) -> Seq<FunctionCodeView> {
    Seq::new(codes.len(), |i: int| codes[i]@)
}

impl View for ModuleCode {
    type V = ModuleCodeView;

    open spec fn view(&self) -> ModuleCodeView {
        ModuleCodeView { functions: code_views(self.functions@), wrapper: self.wrapper@ }
    }
}

/// The script function at place `i` of `module`, with its payload type
/// named by the function's name in upper camel case.
pub open spec fn function_of(module: ModuleView, i: int) -> ScriptFunctionTypeView {
    ScriptFunctionTypeView {
        payload_name: upper_camel_case(module.script_functions[i].name),
        module_id: module.module_id,
        script: module.script_functions[i],
    }
}

/// The script functions of `module`, in their order.
pub open spec fn functions_of(module: ModuleView) -> Seq<ScriptFunctionTypeView> {
    Seq::new(module.script_functions.len(), |i: int| function_of(module, i))
}

/// The code of the first `n` script functions of `module`, in their order,
/// or the failure of the first of them that fails.
pub open spec fn function_codes(module: ModuleView, ctx: ContextView, n: nat) -> Result<
    Seq<FunctionCodeView>,
    CodegenErrorView,
>
    decreases n,
{
    if n == 0 || n > module.script_functions.len() {
        Ok(Seq::empty())
    } else {
        match function_codes(module, ctx, (n - 1) as nat) {
            Err(e) => Err(e),
            Ok(codes) => match function_code(function_of(module, n - 1), ctx) {
                Err(e) => Err(e),
                Ok(code) => Ok(codes.push(code)),
            },
        }
    }
}

/// The code of `module`: the code of every script function and the wrapper
/// for the environment that `ctx` selects, or, where a function fails, its
/// failure and nothing of the module.
pub open spec fn module_code(module: ModuleView, ctx: ContextView) -> Result<
    ModuleCodeView,
    CodegenErrorView,
> {
    match function_codes(module, ctx, module.script_functions.len()) {
        Err(e) => Err(e),
        Ok(functions) => Ok(
            ModuleCodeView {
                functions,
                wrapper: wrapper_text(functions_of(module), ctx.environment),
            },
        ),
    }
}

/// The code of a module or its failure, by view.
pub open spec fn module_result_view(r: Result<ModuleCode, CodegenError>) -> Result<
    ModuleCodeView,
    CodegenErrorView,
> {
    match r {
        Ok(code) => Ok(code@),
        Err(e) => Err(e@),
    }
}

/// Once one of the first `n` functions has failed, the failure stays as
/// more functions are taken in.
pub proof fn lemma_function_codes_failure(module: ModuleView, ctx: ContextView, n: nat, m: nat)
    requires
        n <= m <= module.script_functions.len(),
        function_codes(module, ctx, n) is Err,
    ensures
        function_codes(module, ctx, m) == function_codes(module, ctx, n),
    decreases m,
{
    if n < m {
        lemma_function_codes_failure(module, ctx, n, (m - 1) as nat);
    }
}

/// The selected environment has no part in the code of the functions of a
/// module: it decides the wrapper and nothing else.
pub proof fn lemma_functions_ignore_environment(
    module: ModuleView,
    ctx: ContextView,
    environment: Option<Environment>,
    n: nat,
)
    requires
        n <= module.script_functions.len(),
    ensures
        function_codes(module, with_environment(ctx, environment), n) == function_codes(
            module,
            ctx,
            n,
        ),
    decreases n,
{
    if n > 0 {
        lemma_functions_ignore_environment(module, ctx, environment, (n - 1) as nat);
        lemma_function_ignores_environment(function_of(module, n - 1), ctx, environment);
    }
}

/// The selected environment decides the wrapper of a module and nothing
/// else: whichever environment is selected, and with none, generation
/// fails on the same modules with the same failure, and the code of the
/// functions is the same.
pub proof fn lemma_environment_decides_wrapper_only(
    module: ModuleView,
    ctx: ContextView,
    environment: Option<Environment>,
)
    ensures
        module_code(module, with_environment(ctx, environment)) is Ok <==> module_code(
            module,
            ctx,
        ) is Ok,
        module_code(module, with_environment(ctx, environment)) matches Err(e) ==> module_code(
            module,
            ctx,
        ) == Err::<ModuleCodeView, CodegenErrorView>(e),
        module_code(module, with_environment(ctx, environment)) matches Ok(code) ==> code.functions
            == module_code(module, ctx)->Ok_0.functions && code.wrapper == wrapper_text(
            functions_of(module),
            environment,
        ),
{
    lemma_functions_ignore_environment(module, ctx, environment, module.script_functions.len());
}

/// Generating twice from the same input gives the same output: two modules
/// that hold the same, in two contexts that hold the same, give the same
/// code, character by character, or the same failure.
pub proof fn lemma_module_generation_repeatable(
    first: Module,
    second: Module,
    first_ctx: CodegenContext,
    second_ctx: CodegenContext,
)
    requires
        first@ == second@,
        first_ctx@ == second_ctx@,
    ensures
        module_code(first@, first_ctx@) == module_code(second@, second_ctx@),
{
}

/// The script functions of `module`, in their order.
pub fn script_function_types<'a>(module: &'a Module) -> (fns: Vec<ScriptFunctionType<'a>>)
    ensures
        fns.len() == module@.script_functions.len(),
        function_views(fns@) == functions_of(module@),
{
    let mut fns: Vec<ScriptFunctionType<'a>> = Vec::new();
    let mut i: usize = 0;
    while i < module.script_functions.len()
        invariant
            i <= module.script_functions.len(),
            module@.script_functions.len() == module.script_functions.len(),
            fns.len() == i,
            forall|j: int| 0 <= j < i ==> fns[j]@ == function_of(module@, j),
        decreases module.script_functions.len() - i,
    {
        let script = &module.script_functions[i];
        assert(module@.script_functions[i as int] == script@);
        fns.push(ScriptFunctionType::new(module, script));
        i += 1;
    }
    assert(function_views(fns@) =~= functions_of(module@));
    fns
}

/// Generates the code of `module`: all of it, or nothing where a function
/// fails.
pub fn generate_module(module: &Module, ctx: &CodegenContext) -> (r: Result<
    ModuleCode,
    CodegenError,
>)
    ensures
        module_result_view(r) == module_code(module@, ctx@),
{
    let fns = script_function_types(module);
    let mut functions: Vec<FunctionCode> = Vec::new();
    let mut i: usize = 0;
    assert(code_views(functions@) =~= Seq::empty());
    while i < fns.len()
        invariant
            i <= fns.len(),
            fns.len() == module@.script_functions.len(),
            function_views(fns@) == functions_of(module@),
            functions.len() == i,
            function_codes(module@, ctx@, i as nat) == Ok::<
                Seq<FunctionCodeView>,
                CodegenErrorView,
            >(code_views(functions@)),
        decreases fns.len() - i,
    {
        assert(function_views(fns@)[i as int] == fns[i as int]@);
        let ghost before = code_views(functions@);
        match fns[i].generate(ctx) {
            Ok(code) => {
                functions.push(code);
            },
            Err(e) => {
                proof {
                    lemma_function_codes_failure(
                        module@,
                        ctx@,
                        (i + 1) as nat,
                        module@.script_functions.len(),
                    );
                }
                return Err(e);
            },
        }
        i += 1;
        assert(code_views(functions@) =~= before.push(functions[i - 1]@));
    }
    let wrapper = match generate_typescript(&fns, ctx) {
        Ok(text) => text,
        Err(e) => {
            return Err(e);
        },
    };
    Ok(ModuleCode { functions, wrapper })
}

} // verus!
