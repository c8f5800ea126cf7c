//! The code generated for one script function: the type of its payload
//! arguments, the type of its payload, and the function that builds the
//! payload.

use vstd::prelude::*;
use crate::agreement::lemma_type_and_serializer_agree;
use crate::code_text::{fields_export, CodeText};
use crate::context::{scoped, with_environment, CodegenContext, ContextView, Environment};
use crate::error::{
    result_view, type_result_view, CodegenError, CodegenErrorView, TypeError, TypeErrorView,
};
use crate::idl::{
    Argument, ArgumentView, Module, ModuleIdView, ScriptFunction, ScriptFunctionView,
};
use crate::idl_type::{
    generate_idl_type, lemma_type_ignores_environment, serialize_arg,
    serialized, qualified_name, qualify, type_text,
};
use crate::naming::{to_pascal_case, upper_camel_case};
use crate::text::{
    doc_comment, gen_doc_string, indent, indented, join, join_strings, prefix_lines, prefixed,
    suffix_lines, suffixed, LINE_FEED,
};

verus! {

pub const DOC_LINK_OPEN: &'static str = "{@link entry.";

pub const DOC_LINK_CLOSE: &'static str = "}";

pub const ARGS_SUFFIX: &'static str = "Args";

pub const STRING_FIELD: &'static str = ": string;";

pub const STRING_ELEMENT: &'static str = ": string";

pub const IDL_TYPE_OPEN: &'static str = "IDL type: `";

pub const BACKTICK: &'static str = "`";

pub const COLON: &'static str = ": ";

pub const SEMICOLON: &'static str = ";";

pub const ARGS_DOT: &'static str = "args.";

pub const TYPE_ARGS_DOT: &'static str = "typeArgs.";

pub const ARGS_OPEN: &'static str = "args: {\n";

pub const TYPE_ARGS_OPEN: &'static str = "typeArgs: {\n";

pub const BLOCK_CLOSE: &'static str = "\n};\n";

pub const PAYLOAD_DOC_OPEN: &'static str = "Payload arguments for ";

pub const PERIOD: &'static str = ".";

pub const TAG_FIELD: &'static str = "readonly type: \"script_function_payload\";";

pub const FUNCTION_FIELD_OPEN: &'static str = "readonly function: \"";

pub const FUNCTION_FIELD_CLOSE: &'static str = "\";";

pub const ARGUMENTS_FIELD_OPEN: &'static str = "readonly arguments: [";

pub const TYPE_ARGUMENTS_FIELD_OPEN: &'static str = "readonly type_arguments: [";

pub const LIST_FIELD_CLOSE: &'static str = "];";

pub const ENTRY_DOC_OPEN: &'static str = "Script function payload for `";

pub const ENTRY_DOC_CLOSE: &'static str = "`.";

pub const BLANK_LINE: &'static str = "\n\n";

pub const LIST_SEPARATOR: &'static str = ", ";

pub const EXPORT_CONST: &'static str = "export const ";

pub const PARAMS_OPEN: &'static str = " = (";

pub const PARAMS_CLOSE: &'static str = "): payloads.";

pub const BODY_OPEN: &'static str =
    " => ({\n  type: \"script_function_payload\",\n  function: \"";

pub const TYPE_ARGUMENTS_OPEN: &'static str = "\",\n  type_arguments: [";

pub const ARGUMENTS_OPEN: &'static str = "],\n  arguments: [";

pub const BODY_CLOSE: &'static str = "],\n});";

pub const DESTRUCTURE_OPEN: &'static str = "{ ";

pub const DESTRUCTURE_CLOSE: &'static str = " }: mod.";

pub const BOTH: &'static str = "args, typeArgs";

pub const ONLY_ARGS: &'static str = "args";

pub const ONLY_TYPE_ARGS: &'static str = "typeArgs";

/// The link to a function's entry in generated documentation.
pub open spec fn doc_link(name: Seq<char>) -> Seq<char> {
    DOC_LINK_OPEN@ + name + DOC_LINK_CLOSE@
}

/// The name of the type of a function's payload arguments.
pub open spec fn args_type_name(payload_name: Seq<char>) -> Seq<char> {
    payload_name + ARGS_SUFFIX@
}

/// One field of type `string` for each type parameter, a line each, in the
/// order of the parameters.
pub open spec fn type_param_fields(params: Seq<Seq<char>>) -> Seq<char> {
    join(suffixed(params, STRING_FIELD@), LINE_FEED@)
}

/// Whether a function gets a type for its payload arguments: it does
/// unless it has neither arguments nor type parameters.
pub open spec fn renders_payload_struct(f: ScriptFunctionView) -> bool {
    f.args.len() > 0 || f.type_params.len() > 0
}

/// The forms in which an argument appears in generated code.
#[derive(Clone, Copy, Debug, PartialEq, Eq, Structural)]
pub enum ArgumentForm {
    /// A documented field of the type of the payload arguments.
    Field,
    /// A labelled element of the tuple type of the payload's arguments.
    Element,
    /// The serialized value, read from the field of `args`.
    Value,
}

/// An argument in one of its forms, or why its type has no generated form.
pub open spec fn argument_text(arg: ArgumentView, form: ArgumentForm, ctx: ContextView) -> Result<
    Seq<char>,
    TypeErrorView,
> {
    match form {
        ArgumentForm::Field => match type_text(arg.ty, ctx) {
            Ok(ty) => Ok(
                doc_comment(IDL_TYPE_OPEN@ + arg.idl_type + BACKTICK@) + arg.name + COLON@ + ty
                    + SEMICOLON@,
            ),
            Err(e) => Err(e),
        },
        ArgumentForm::Element => match type_text(arg.ty, ctx) {
            Ok(ty) => Ok(arg.name + COLON@ + ty),
            Err(e) => Err(e),
        },
        ArgumentForm::Value => serialized(ARGS_DOT@ + arg.name, arg.ty, ctx),
    }
}

impl Argument {
    /// Generates this argument in the form `form`.
    pub fn generate(&self, form: ArgumentForm, ctx: &CodegenContext) -> (r: Result<
        String,
        TypeError,
    >)
        ensures
            type_result_view(r) == argument_text(self@, form, ctx@),
    {
        match form {
            ArgumentForm::Field => {
                let ty = generate_idl_type(&self.ty, ctx)?;
                let mut note = String::from_str(IDL_TYPE_OPEN);
                note.append(self.idl_type.as_str());
                note.append(BACKTICK);
                let mut out = gen_doc_string(note.as_str());
                out.append(self.name.as_str());
                out.append(COLON);
                out.append(ty.as_str());
                out.append(SEMICOLON);
                Ok(out)
            },
            ArgumentForm::Element => {
                let ty = generate_idl_type(&self.ty, ctx)?;
                let mut out = self.name.clone();
                out.append(COLON);
                out.append(ty.as_str());
                Ok(out)
            },
            ArgumentForm::Value => {
                let mut place = String::from_str(ARGS_DOT);
                place.append(self.name.as_str());
                serialize_arg(place.as_str(), &self.ty, ctx)
            },
        }
    }

    /// Generates the field of this argument in the type of the payload
    /// arguments, under a comment that names its type.
    pub fn generate_typescript(&self, ctx: &CodegenContext) -> (r: Result<String, TypeError>)
        ensures
            type_result_view(r) == argument_text(self@, ArgumentForm::Field, ctx@),
    {
        self.generate(ArgumentForm::Field, ctx)
    }
}

/// One field of type `string` for each type parameter, a line each.
pub fn script_fn_type_args(args: &[String]) -> (code: CodeText)
    ensures
        code@ == type_param_fields(args.deep_view()),
{
    let fields = suffix_lines(args, STRING_FIELD);
    CodeText(join_strings(&fields, LINE_FEED))
}

/// A script function of a module, with the name of its generated types.
pub struct ScriptFunctionType<'info> {
    payload_name: String,
    module: &'info Module,
    script: &'info ScriptFunction,
}

pub struct ScriptFunctionTypeView {
    pub payload_name: Seq<char>,
    pub module_id: ModuleIdView,
    pub script: ScriptFunctionView,
}

impl<'info> View for ScriptFunctionType<'info> {
    type V = ScriptFunctionTypeView;

    closed spec fn view(&self) -> ScriptFunctionTypeView {
        ScriptFunctionTypeView {
            payload_name: self.payload_name@,
            module_id: self.module@.module_id,
            script: self.script@,
        }
    }
}

/// The failure of a function at its argument `i`.
pub open spec fn argument_failure(
    f: ScriptFunctionTypeView,
    i: int,
    cause: TypeErrorView,
) -> CodegenErrorView {
    CodegenErrorView {
        function: qualified_name(f.module_id, f.script.name),
        argument: f.script.args[i].name,
        cause,
    }
}

/// The first `n` arguments of `f` in the form `form`, in declared order, or
/// the failure of the first of them whose type has no generated form. The
/// function's own type parameters are bound before those of `ctx`.
pub open spec fn argument_texts(
    f: ScriptFunctionTypeView,
    form: ArgumentForm,
    ctx: ContextView,
    n: nat,
) -> Result<Seq<Seq<char>>, CodegenErrorView>
    decreases n,
{
    if n == 0 || n > f.script.args.len() {
        Ok(Seq::empty())
    } else {
        match argument_texts(f, form, ctx, (n - 1) as nat) {
            Err(e) => Err(e),
            Ok(texts) => match argument_text(
                f.script.args[n - 1],
                form,
                scoped(ctx, f.script.type_params),
            ) {
                Err(cause) => Err(argument_failure(f, n - 1, cause)),
                Ok(text) => Ok(texts.push(text)),
            },
        }
    }
}

/// All arguments of `f` in the form `form`.
pub open spec fn all_argument_texts(
    f: ScriptFunctionTypeView,
    form: ArgumentForm,
    ctx: ContextView,
) -> Result<Seq<Seq<char>>, CodegenErrorView> {
    argument_texts(f, form, ctx, f.script.args.len())
}

/// Once one of the first `n` arguments has failed, the failure stays as
/// more arguments are taken in.
pub proof fn lemma_argument_texts_failure(
    f: ScriptFunctionTypeView,
    form: ArgumentForm,
    ctx: ContextView,
    n: nat,
    m: nat,
)
    requires
        n <= m <= f.script.args.len(),
        argument_texts(f, form, ctx, n) is Err,
    ensures
        argument_texts(f, form, ctx, m) == argument_texts(f, form, ctx, n),
    decreases m,
{
    if n < m {
        lemma_argument_texts_failure(f, form, ctx, n, (m - 1) as nat);
    }
}

/// The arguments of a function keep their declared order in every form:
/// where generation succeeds there is one text for each argument, and the
/// text at each place is that of the argument at the same place. The three
/// lists are then joined in this order: the fields of the payload
/// arguments, the elements of the arguments tuple, and the serialized
/// values of the builder.
pub proof fn lemma_arguments_keep_order(
    f: ScriptFunctionTypeView,
    form: ArgumentForm,
    ctx: ContextView,
)
    ensures
        all_argument_texts(f, form, ctx) matches Ok(texts) ==> texts.len() == f.script.args.len()
            && forall|i: int|
            #![trigger texts[i]]
            0 <= i < f.script.args.len() ==> argument_text(
                f.script.args[i],
                form,
                scoped(ctx, f.script.type_params),
            ) == Ok::<Seq<char>, TypeErrorView>(texts[i]),
{
    lemma_argument_texts_in_order(f, form, ctx, f.script.args.len());
}

/// The first `n` arguments keep their order.
pub proof fn lemma_argument_texts_in_order(
    f: ScriptFunctionTypeView,
    form: ArgumentForm,
    ctx: ContextView,
    n: nat,
)
    requires
        n <= f.script.args.len(),
    ensures
        argument_texts(f, form, ctx, n) matches Ok(texts) ==> texts.len() == n && forall|i: int|
            #![trigger texts[i]]
            0 <= i < n ==> argument_text(
                f.script.args[i],
                form,
                scoped(ctx, f.script.type_params),
            ) == Ok::<Seq<char>, TypeErrorView>(texts[i]),
    decreases n,
{
    if n > 0 {
        lemma_argument_texts_in_order(f, form, ctx, (n - 1) as nat);
    }
}

/// A function without arguments and without type parameters gets no type
/// for its payload arguments, and its builder is generated in every
/// context: it takes no parameter and its payload holds no type argument
/// and no argument.
pub proof fn lemma_bare_function(f: ScriptFunctionTypeView, ctx: ContextView)
    requires
        f.script.args.len() == 0,
        f.script.type_params.len() == 0,
    ensures
        !renders_payload_struct(f.script),
        builder_params(f) == Seq::<char>::empty(),
        builder_text(f, ctx) == Ok::<Seq<char>, CodegenErrorView>(
            builder_around(f, Seq::empty()),
        ),
        join(prefixed(f.script.type_params, TYPE_ARGS_DOT@), LIST_SEPARATOR@) == Seq::<
            char,
        >::empty(),
        join(Seq::<Seq<char>>::empty(), LIST_SEPARATOR@) == Seq::<char>::empty(),
{
}

/// Generation depends on what its input holds and on nothing else: two
/// functions that hold the same, in two contexts that hold the same, give
/// the same three texts, character by character, or the same failure.
pub proof fn lemma_generation_repeatable(
    first: ScriptFunctionType,
    second: ScriptFunctionType,
    first_ctx: CodegenContext,
    second_ctx: CodegenContext,
)
    requires
        first@ == second@,
        first_ctx@ == second_ctx@,
    ensures
        payload_struct_text(first@, first_ctx@) == payload_struct_text(second@, second_ctx@),
        entry_payload_text(first@, first_ctx@) == entry_payload_text(second@, second_ctx@),
        builder_text(first@, first_ctx@) == builder_text(second@, second_ctx@),
{
}

/// The selected environment has no part in the code of a function: the
/// type of its payload arguments, the type of its payload and its builder
/// are the same whichever environment is selected, and with none.
pub proof fn lemma_function_ignores_environment(
    f: ScriptFunctionTypeView,
    ctx: ContextView,
    environment: Option<Environment>,
)
    ensures
        payload_struct_text(f, with_environment(ctx, environment)) == payload_struct_text(f, ctx),
        entry_payload_text(f, with_environment(ctx, environment)) == entry_payload_text(f, ctx),
        builder_text(f, with_environment(ctx, environment)) == builder_text(f, ctx),
{
    let n = f.script.args.len();
    lemma_arguments_ignore_environment(f, ArgumentForm::Field, ctx, environment, n);
    lemma_arguments_ignore_environment(f, ArgumentForm::Element, ctx, environment, n);
    lemma_arguments_ignore_environment(f, ArgumentForm::Value, ctx, environment, n);
}

/// The selected environment has no part in the first `n` arguments.
pub proof fn lemma_arguments_ignore_environment(
    f: ScriptFunctionTypeView,
    form: ArgumentForm,
    ctx: ContextView,
    environment: Option<Environment>,
    n: nat,
)
    requires
        n <= f.script.args.len(),
    ensures
        argument_texts(f, form, with_environment(ctx, environment), n) == argument_texts(
            f,
            form,
            ctx,
            n,
        ),
    decreases n,
{
    if n > 0 {
        lemma_arguments_ignore_environment(f, form, ctx, environment, (n - 1) as nat);
        let arg = f.script.args[n - 1];
        let inner = scoped(ctx, f.script.type_params);
        assert(scoped(with_environment(ctx, environment), f.script.type_params)
            == with_environment(inner, environment));
        lemma_type_ignores_environment(arg.ty, ARGS_DOT@ + arg.name, inner, environment);
    }
}

/// The three forms of the arguments fail together: where the type of an
/// argument has no generated form, its serialized value has none either,
/// and the failure is the same, so no text of a function is generated
/// where another one of it fails.
pub proof fn lemma_forms_fail_together(
    f: ScriptFunctionTypeView,
    first: ArgumentForm,
    second: ArgumentForm,
    ctx: ContextView,
    n: nat,
)
    requires
        n <= f.script.args.len(),
    ensures
        argument_texts(f, first, ctx, n) is Ok <==> argument_texts(f, second, ctx, n) is Ok,
        argument_texts(f, first, ctx, n) is Err ==> argument_texts(f, first, ctx, n)->Err_0
            == argument_texts(f, second, ctx, n)->Err_0,
    decreases n,
{
    if n > 0 {
        lemma_forms_fail_together(f, first, second, ctx, (n - 1) as nat);
        let arg = f.script.args[n - 1];
        lemma_type_and_serializer_agree(
            arg.ty,
            scoped(ctx, f.script.type_params),
            ARGS_DOT@ + arg.name,
        );
    }
}

/// The fields of the payload arguments, as a block named `args`; nothing
/// where there is no field.
pub open spec fn args_block(fields: Seq<Seq<char>>) -> Seq<char> {
    if fields.len() == 0 {
        Seq::empty()
    } else {
        indented(ARGS_OPEN@ + indented(join(fields, LINE_FEED@)) + BLOCK_CLOSE@) + LINE_FEED@
    }
}

/// The fields of the type parameters, as a block named `typeArgs`; nothing
/// where there is no type parameter.
pub open spec fn type_args_block(params: Seq<Seq<char>>) -> Seq<char> {
    if params.len() == 0 {
        Seq::empty()
    } else {
        indented(TYPE_ARGS_OPEN@ + indented(type_param_fields(params)) + BLOCK_CLOSE@) + LINE_FEED@
    }
}

/// The documentation of the type of a function's payload arguments: the
/// sentence that links to the function and, after a blank line, the
/// function's own documentation, if it has any.
pub open spec fn payload_doc(name: Seq<char>, doc: Option<Seq<char>>) -> Seq<char> {
    match doc {
        Some(text) => PAYLOAD_DOC_OPEN@ + doc_link(name) + PERIOD@ + BLANK_LINE@ + text,
        None => PAYLOAD_DOC_OPEN@ + doc_link(name) + PERIOD@,
    }
}

/// The declaration of the type of the payload arguments of `f`: the block
/// of its arguments, then the block of its type parameters, under a comment
/// that links to the function and carries the function's documentation.
pub open spec fn payload_struct_text(f: ScriptFunctionTypeView, ctx: ContextView) -> Result<
    Seq<char>,
    CodegenErrorView,
> {
    match all_argument_texts(f, ArgumentForm::Field, ctx) {
        Err(e) => Err(e),
        Ok(fields) => Ok(
            doc_comment(payload_doc(f.script.name, f.script.doc)) + fields_export(
                args_type_name(f.payload_name),
                args_block(fields) + type_args_block(f.script.type_params),
            ),
        ),
    }
}

/// The four fields of a payload type: the tag, the full name of the
/// function, the tuple of the arguments and the tuple of the type arguments.
pub open spec fn entry_fields(
    full_name: Seq<char>,
    elements: Seq<Seq<char>>,
    params: Seq<Seq<char>>,
) -> Seq<char> {
    join(
        seq![
            TAG_FIELD@,
            FUNCTION_FIELD_OPEN@ + full_name + FUNCTION_FIELD_CLOSE@,
            ARGUMENTS_FIELD_OPEN@ + join(elements, LIST_SEPARATOR@) + LIST_FIELD_CLOSE@,
            TYPE_ARGUMENTS_FIELD_OPEN@ + join(suffixed(params, STRING_ELEMENT@), LIST_SEPARATOR@)
                + LIST_FIELD_CLOSE@,
        ],
        LINE_FEED@,
    )
}

/// The documentation of a payload type: the function it is for and, after
/// a blank line, the function's own documentation, if it has any.
pub open spec fn entry_doc(full_name: Seq<char>, doc: Option<Seq<char>>) -> Seq<char> {
    match doc {
        Some(text) => ENTRY_DOC_OPEN@ + full_name + ENTRY_DOC_CLOSE@ + BLANK_LINE@ + text,
        None => ENTRY_DOC_OPEN@ + full_name + ENTRY_DOC_CLOSE@,
    }
}

/// The declaration of the payload type of `f`.
pub open spec fn entry_payload_text(f: ScriptFunctionTypeView, ctx: ContextView) -> Result<
    Seq<char>,
    CodegenErrorView,
> {
    match all_argument_texts(f, ArgumentForm::Element, ctx) {
        Err(e) => Err(e),
        Ok(elements) => Ok(
            doc_comment(entry_doc(qualified_name(f.module_id, f.script.name), f.script.doc))
                + fields_export(
                f.payload_name,
                indented(
                    entry_fields(
                        qualified_name(f.module_id, f.script.name),
                        elements,
                        f.script.type_params,
                    ),
                ) + LINE_FEED@,
            ),
        ),
    }
}

/// The parameter of the builder of `f`: the payload arguments, taken apart
/// into the blocks that `f` has; nothing for a function without arguments
/// and type parameters.
pub open spec fn builder_params(f: ScriptFunctionTypeView) -> Seq<char> {
    if f.script.args.len() > 0 && f.script.type_params.len() > 0 {
        DESTRUCTURE_OPEN@ + BOTH@ + DESTRUCTURE_CLOSE@ + args_type_name(f.payload_name)
    } else if f.script.args.len() > 0 {
        DESTRUCTURE_OPEN@ + ONLY_ARGS@ + DESTRUCTURE_CLOSE@ + args_type_name(f.payload_name)
    } else if f.script.type_params.len() > 0 {
        DESTRUCTURE_OPEN@ + ONLY_TYPE_ARGS@ + DESTRUCTURE_CLOSE@ + args_type_name(f.payload_name)
    } else {
        Seq::empty()
    }
}

/// The documentation comment of a builder; nothing where the function has
/// no documentation.
pub open spec fn builder_doc(doc: Option<Seq<char>>) -> Seq<char> {
    match doc {
        Some(text) => doc_comment(text),
        None => Seq::empty(),
    }
}

/// The builder of `f` around the serialized `values` of its arguments: a
/// function from the payload arguments to the payload, whose record holds
/// the tag, the full name of the function, the type arguments and the
/// serialized arguments, in this order.
pub open spec fn builder_around(f: ScriptFunctionTypeView, values: Seq<Seq<char>>) -> Seq<char> {
    builder_doc(f.script.doc) + EXPORT_CONST@ + f.script.name + PARAMS_OPEN@ + builder_params(f)
        + PARAMS_CLOSE@ + f.payload_name + BODY_OPEN@ + qualified_name(f.module_id, f.script.name)
        + TYPE_ARGUMENTS_OPEN@ + join(
        prefixed(f.script.type_params, TYPE_ARGS_DOT@),
        LIST_SEPARATOR@,
    ) + ARGUMENTS_OPEN@ + join(values, LIST_SEPARATOR@) + BODY_CLOSE@
}

/// The function that builds the payload of `f`.
pub open spec fn builder_text(f: ScriptFunctionTypeView, ctx: ContextView) -> Result<
    Seq<char>,
    CodegenErrorView,
> {
    match all_argument_texts(f, ArgumentForm::Value, ctx) {
        Err(e) => Err(e),
        Ok(values) => Ok(builder_around(f, values)),
    }
}

/// The code of one function: the declaration of the type of its payload
/// arguments, if it gets one, the declaration of the type of its payload,
/// and its builder.
#[derive(Debug, PartialEq, Eq)]
pub struct FunctionCode {
    pub payload_args: Option<String>,
    pub payload: String,
    pub builder: String,
}

pub struct FunctionCodeView {
    pub payload_args: Option<Seq<char>>,
    pub payload: Seq<char>,
    pub builder: Seq<char>,
}

impl View for FunctionCode {
    type V = FunctionCodeView;

    open spec fn view(&self) -> FunctionCodeView {
        FunctionCodeView {
            payload_args: doc_view(self.payload_args),
            payload: self.payload@,
            builder: self.builder@,
        }
    }
}

/// The code of the function `f`, or the failure of the first of its
/// arguments whose type has no generated form. A function without
/// arguments and type parameters has no type for its payload arguments.
pub open spec fn function_code(f: ScriptFunctionTypeView, ctx: ContextView) -> Result<
    FunctionCodeView,
    CodegenErrorView,
> {
    match builder_text(f, ctx) {
        Err(e) => Err(e),
        Ok(builder) => Ok(
            FunctionCodeView {
                payload_args: if renders_payload_struct(f.script) {
                    Some(payload_struct_text(f, ctx)->Ok_0)
                } else {
                    None
                },
                payload: entry_payload_text(f, ctx)->Ok_0,
                builder,
            },
        ),
    }
}

/// The code of a function or its failure, by view.
pub open spec fn function_result_view(r: Result<FunctionCode, CodegenError>) -> Result<
    FunctionCodeView,
    CodegenErrorView,
> {
    match r {
        Ok(code) => Ok(code@),
        Err(e) => Err(e@),
    }
}

/// The three texts of a function are generated together or not at all:
/// each of them fails exactly where the builder fails, with its failure.
pub proof fn lemma_texts_fail_together(f: ScriptFunctionTypeView, ctx: ContextView)
    ensures
        payload_struct_text(f, ctx) is Ok <==> builder_text(f, ctx) is Ok,
        entry_payload_text(f, ctx) is Ok <==> builder_text(f, ctx) is Ok,
        builder_text(f, ctx) matches Err(e) ==> payload_struct_text(f, ctx) == Err::<
            Seq<char>,
            CodegenErrorView,
        >(e) && entry_payload_text(f, ctx) == Err::<Seq<char>, CodegenErrorView>(e),
{
    let n = f.script.args.len();
    lemma_forms_fail_together(f, ArgumentForm::Value, ArgumentForm::Field, ctx, n);
    lemma_forms_fail_together(f, ArgumentForm::Value, ArgumentForm::Element, ctx, n);
}

/// Generated texts or a failed function, by view.
pub open spec fn texts_result_view(r: Result<Vec<String>, CodegenError>) -> Result<
    Seq<Seq<char>>,
    CodegenErrorView,
> {
    match r {
        Ok(texts) => Ok(texts.deep_view()),
        Err(e) => Err(e@),
    }
}

/// A generated piece of code or a failed function, by view.
pub open spec fn code_result_view(r: Result<CodeText, CodegenError>) -> Result<
    Seq<char>,
    CodegenErrorView,
> {
    match r {
        Ok(code) => Ok(code@),
        Err(e) => Err(e@),
    }
}

/// A documentation text, if there is one, by view.
pub open spec fn doc_view(doc: Option<String>) -> Option<Seq<char>> {
    match doc {
        Some(text) => Some(text@),
        None => None,
    }
}

impl<'info> ScriptFunctionType<'info> {
    /// The script function `script` of `module`; its payload type is named by the
    /// function's name in upper camel case.
    pub fn new(module: &'info Module, script: &'info ScriptFunction) -> (f: Self)
        ensures
            f@ == (ScriptFunctionTypeView {
                payload_name: upper_camel_case(script@.name),
                module_id: module@.module_id,
                script: script@,
            }),
    {
        let payload_name = to_pascal_case(script.name.as_str());
        Self::with_payload_name(payload_name, module, script)
    }

    /// The script function `script` of `module`, with its payload type named
    /// `payload_name`.
    pub fn with_payload_name(
        payload_name: String,
        module: &'info Module,
        script: &'info ScriptFunction,
    ) -> (f: Self)
        ensures
            f@ == (ScriptFunctionTypeView {
                payload_name: payload_name@,
                module_id: module@.module_id,
                script: script@,
            }),
    {
        Self { payload_name, module, script }
    }

    /// The link to this function's entry in generated documentation.
    pub fn doc_link(&self) -> (link: String)
        ensures
            link@ == doc_link(self@.script.name),
    {
        let mut out = String::from_str(DOC_LINK_OPEN);
        out.append(self.script.name.as_str());
        out.append(DOC_LINK_CLOSE);
        out
    }

    /// The documentation of the function, if it has any.
    pub fn doc(&self) -> (doc: Option<String>)
        ensures
            doc_view(doc) == self@.script.doc,
    {
        match &self.script.doc {
            Some(text) => Some(text.clone()),
            None => None,
        }
    }

    /// The name of the function.
    pub fn name(&self) -> (name: &str)
        ensures
            name@ == self@.script.name,
    {
        self.script.name.as_str()
    }

    /// The name of the type of the function's payload.
    pub fn payload_name(&self) -> (name: &str)
        ensures
            name@ == self@.payload_name,
    {
        self.payload_name.as_str()
    }

    /// The name of the module that the function belongs to.
    pub fn module_name(&self) -> (name: &str)
        ensures
            name@ == self@.module_id.name,
    {
        self.module.module_id.name.as_str()
    }

    /// The full name of the function: address, module and name.
    pub fn full_name(&self) -> (name: String)
        ensures
            name@ == qualified_name(self@.module_id, self@.script.name),
    {
        qualify(&self.module.module_id, &self.script.name)
    }

    /// The name of the type of the function's payload arguments.
    pub fn payload_args_type_name(&self) -> (name: String)
        ensures
            name@ == args_type_name(self@.payload_name),
    {
        let mut out = self.payload_name.clone();
        out.append(ARGS_SUFFIX);
        out
    }

    /// The declaration of the type of the function's payload arguments.
    pub fn payload(&'info self) -> (wrapped: ScriptFunctionPayloadStruct<'info>)
        ensures
            wrapped@ == self@,
    {
        ScriptFunctionPayloadStruct(self)
    }

    /// Generates every argument of the function in the form `form`, in
    /// declared order.
    pub fn generate_arguments(&self, form: ArgumentForm, ctx: &CodegenContext) -> (r: Result<
        Vec<String>,
        CodegenError,
    >)
        ensures
            texts_result_view(r) == all_argument_texts(self@, form, ctx@),
    {
        let inner = ctx.scoped(&self.script.type_params);
        let mut texts: Vec<String> = Vec::new();
        let mut i: usize = 0;
        assert(texts.deep_view() =~= Seq::empty());
        while i < self.script.args.len()
            invariant
                i <= self.script.args.len(),
                self@.script.args.len() == self.script.args.len(),
                inner@ == scoped(ctx@, self@.script.type_params),
                argument_texts(self@, form, ctx@, i as nat) == Ok::<
                    Seq<Seq<char>>,
                    CodegenErrorView,
                >(texts.deep_view()),
            decreases self.script.args.len() - i,
        {
            let arg = &self.script.args[i];
            assert(self@.script.args[i as int] == arg@);
            match arg.generate(form, &inner) {
                Ok(text) => {
                    texts.push(text);
                },
                Err(cause) => {
                    let e = CodegenError {
                        function: self.full_name(),
                        argument: arg.name.clone(),
                        cause,
                    };
                    proof {
                        assert(argument_texts(self@, form, ctx@, (i + 1) as nat) == Err::<
                            Seq<Seq<char>>,
                            CodegenErrorView,
                        >(e@));
                        lemma_argument_texts_failure(
                            self@,
                            form,
                            ctx@,
                            (i + 1) as nat,
                            self@.script.args.len(),
                        );
                    }
                    return Err(e);
                },
            }
            i += 1;
            assert(texts.deep_view() =~= argument_texts(self@, form, ctx@, i as nat)->Ok_0);
        }
        Ok(texts)
    }

    /// Generates the declaration of the type of the function's payload.
    pub fn generate_entry_payload_struct(&self, ctx: &CodegenContext) -> (r: Result<
        CodeText,
        CodegenError,
    >)
        ensures
            code_result_view(r) == entry_payload_text(self@, ctx@),
    {
        let elements = self.generate_arguments(ArgumentForm::Element, ctx)?;
        let full_name = self.full_name();

        let mut function = String::from_str(FUNCTION_FIELD_OPEN);
        function.append(full_name.as_str());
        function.append(FUNCTION_FIELD_CLOSE);

        let mut arguments = String::from_str(ARGUMENTS_FIELD_OPEN);
        arguments.append(join_strings(&elements, LIST_SEPARATOR).as_str());
        arguments.append(LIST_FIELD_CLOSE);

        let params = suffix_lines(&self.script.type_params, STRING_ELEMENT);
        let mut type_arguments = String::from_str(TYPE_ARGUMENTS_FIELD_OPEN);
        type_arguments.append(join_strings(&params, LIST_SEPARATOR).as_str());
        type_arguments.append(LIST_FIELD_CLOSE);

        let mut fields: Vec<CodeText> = Vec::new();
        fields.push(CodeText::new(TAG_FIELD));
        fields.push(CodeText(function));
        fields.push(CodeText(arguments));
        fields.push(CodeText(type_arguments));
        assert(crate::code_text::views(fields@) =~= seq![
            TAG_FIELD@,
            FUNCTION_FIELD_OPEN@ + full_name@ + FUNCTION_FIELD_CLOSE@,
            ARGUMENTS_FIELD_OPEN@ + join(elements.deep_view(), LIST_SEPARATOR@) + LIST_FIELD_CLOSE@,
            TYPE_ARGUMENTS_FIELD_OPEN@ + join(
                suffixed(self@.script.type_params, STRING_ELEMENT@),
                LIST_SEPARATOR@,
            ) + LIST_FIELD_CLOSE@,
        ]);
        let body = CodeText::join_with_separator(&fields, LINE_FEED).indent().append_newline();

        let mut docs = String::from_str(ENTRY_DOC_OPEN);
        docs.append(full_name.as_str());
        docs.append(ENTRY_DOC_CLOSE);
        match &self.script.doc {
            Some(text) => {
                docs.append(BLANK_LINE);
                docs.append(text.as_str());
            },
            None => {},
        }
        Ok(
            CodeText::new_fields_export(self.payload_name.as_str(), body.0.as_str()).docs(
                docs.as_str(),
            ),
        )
    }

    /// Generates the function that builds the payload of the function.
    pub fn generate_typescript(&self, ctx: &CodegenContext) -> (r: Result<String, CodegenError>)
        ensures
            result_view(r) == builder_text(self@, ctx@),
    {
        let values = self.generate_arguments(ArgumentForm::Value, ctx)?;
        let type_arguments = prefix_lines(&self.script.type_params, TYPE_ARGS_DOT);

        let mut out = match &self.script.doc {
            Some(text) => gen_doc_string(text.as_str()),
            None => String::new(),
        };
        out.append(EXPORT_CONST);
        out.append(self.script.name.as_str());
        out.append(PARAMS_OPEN);
        let ghost before = out@;
        if self.should_render_payload_struct() {
            let mut params = String::from_str(DESTRUCTURE_OPEN);
            if self.script.args.len() > 0 && self.script.type_params.len() > 0 {
                params.append(BOTH);
            } else if self.script.args.len() > 0 {
                params.append(ONLY_ARGS);
            } else {
                params.append(ONLY_TYPE_ARGS);
            }
            params.append(DESTRUCTURE_CLOSE);
            params.append(self.payload_args_type_name().as_str());
            out.append(params.as_str());
        }
        assert(out@ =~= before + builder_params(self@));
        out.append(PARAMS_CLOSE);
        out.append(self.payload_name.as_str());
        out.append(BODY_OPEN);
        out.append(self.full_name().as_str());
        out.append(TYPE_ARGUMENTS_OPEN);
        out.append(join_strings(&type_arguments, LIST_SEPARATOR).as_str());
        out.append(ARGUMENTS_OPEN);
        out.append(join_strings(&values, LIST_SEPARATOR).as_str());
        out.append(BODY_CLOSE);
        Ok(out)
    }

    /// Generates the code of the function: all of it, or nothing where an
    /// argument fails.
    pub fn generate(&self, ctx: &CodegenContext) -> (r: Result<FunctionCode, CodegenError>)
        ensures
            function_result_view(r) == function_code(self@, ctx@),
    {
        proof {
            lemma_texts_fail_together(self@, ctx@);
        }
        let payload_args = if self.should_render_payload_struct() {
            Some(self.payload().generate_typescript(ctx)?)
        } else {
            None
        };
        let payload = self.generate_entry_payload_struct(ctx)?.into_string();
        let builder = self.generate_typescript(ctx)?;
        Ok(FunctionCode { payload_args, payload, builder })
    }

    /// Whether the function gets a type for its payload arguments.
    pub fn should_render_payload_struct(&self) -> (yes: bool)
        ensures
            yes == renders_payload_struct(self@.script),
    {
        !(self.script.args.len() == 0 && self.script.type_params.len() == 0)
    }
}

/// The declaration of the type of a function's payload arguments.
pub struct ScriptFunctionPayloadStruct<'info>(&'info ScriptFunctionType<'info>);

impl<'info> View for ScriptFunctionPayloadStruct<'info> {
    type V = ScriptFunctionTypeView;

    closed spec fn view(&self) -> ScriptFunctionTypeView {
        self.0@
    }
}

impl<'info> ScriptFunctionPayloadStruct<'info> {
    /// The fields of the arguments, a line each, moved in.
    pub fn args_inline(&self, ctx: &CodegenContext) -> (r: Result<CodeText, CodegenError>)
        ensures
            code_result_view(r) == match all_argument_texts(self@, ArgumentForm::Field, ctx@) {
                Ok(fields) => Ok::<Seq<char>, CodegenErrorView>(
                    indented(join(fields, LINE_FEED@)),
                ),
                Err(e) => Err(e),
            },
    {
        let fields = self.0.generate_arguments(ArgumentForm::Field, ctx)?;
        Ok(CodeText(join_strings(&fields, LINE_FEED)).indent())
    }

    /// The fields of the type parameters, a line each, moved in.
    pub fn type_args_inline(&self) -> (code: CodeText)
        ensures
            code@ == indented(type_param_fields(self@.script.type_params)),
    {
        script_fn_type_args(&self.0.script.type_params).indent()
    }

    /// Generates the declaration of the type of the payload arguments.
    pub fn generate_typescript(&self, ctx: &CodegenContext) -> (r: Result<String, CodegenError>)
        ensures
            result_view(r) == payload_struct_text(self@, ctx@),
    {
        let mut fields = String::new();
        if self.0.script.args.len() == 0 {
            assert(all_argument_texts(self@, ArgumentForm::Field, ctx@) == Ok::<
                Seq<Seq<char>>,
                CodegenErrorView,
            >(Seq::empty()));
        } else {
            let inline = self.args_inline(ctx)?;
            let mut block = String::from_str(ARGS_OPEN);
            block.append(inline.0.as_str());
            block.append(BLOCK_CLOSE);
            fields.append(indent(block.as_str()).as_str());
            fields.append(LINE_FEED);
            proof {
                lemma_arguments_keep_order(self@, ArgumentForm::Field, ctx@);
            }
        }
        let ghost args_part = fields@;
        if self.0.script.type_params.len() > 0 {
            let mut block = String::from_str(TYPE_ARGS_OPEN);
            block.append(self.type_args_inline().0.as_str());
            block.append(BLOCK_CLOSE);
            fields.append(indent(block.as_str()).as_str());
            fields.append(LINE_FEED);
        }
        assert(fields@ =~= args_part + type_args_block(self@.script.type_params));

        let mut docs = String::from_str(PAYLOAD_DOC_OPEN);
        docs.append(self.0.doc_link().as_str());
        docs.append(PERIOD);
        match &self.0.script.doc {
            Some(text) => {
                docs.append(BLANK_LINE);
                docs.append(text.as_str());
            },
            None => {},
        }
        Ok(
            CodeText::new_fields_export(
                self.0.payload_args_type_name().as_str(),
                fields.as_str(),
            ).docs(docs.as_str()).into_string(),
        )
    }
}

} // verus!
