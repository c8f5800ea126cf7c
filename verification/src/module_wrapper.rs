//! The module wrapper: a class with one method for each script function of
//! a module, written for the selected environment.

use vstd::prelude::*;
use crate::context::{CodegenContext, Environment};
use crate::error::{result_view, CodegenError, CodegenErrorView};
use crate::naming::{
    lower_camel_case, to_lower_camel_case, to_upper_camel_case, upper_camel_case,
};
use crate::script_function::{args_type_name, ScriptFunctionType, ScriptFunctionTypeView};
use crate::text::{join, join_strings, LINE_FEED};

verus! {

pub const TYPE_KEYWORD: &'static str = "\ntype ";

pub const APTOS_PAYLOAD_TYPE: &'static str = "TransactionPayload";

pub const SUI_OVERRIDES_TYPE: &'static str = "SuiCallOverrides";

pub const APTOS_MODULE_OPEN: &'static str =
    " = {\n\ttype: string;\n  function: string;\n  arguments: unknown[];\n  type_arguments: string[];\n}\n\nexport class ";

pub const APTOS_CLASS_OPEN: &'static str =
    "AptosModule {\n\tconstructor(private readonly client: AptosClient, private readonly account: AptosAccount) {}\n\t";

pub const APTOS_MODULE_CLOSE: &'static str =
    "\n\n\tprivate async sendTransaction(payload: TransactionPayload) {\n    const txnRequest = await this.client.generateTransaction(\n      this.account.address(),\n      this.transformTxnPayload(payload)\n    );\n\n    const signedTxn = await this.client.signTransaction(this.account, txnRequest);\n    const txnResponse = await this.client.submitTransaction(signedTxn);\n\n    return {\n      ...txnResponse,\n      wait: async () => {\n        return this.client.waitForTransaction(txnResponse.hash);\n      },\n    };\n  }\n\n  private transformTxnPayload(payload: TransactionPayload): Types.TransactionPayload {\n    const [moduleAddress, moduleName, functionName] = payload.function.split(\"::\");\n    return {\n      ...payload,\n      function: {\n        name: functionName,\n        module: { address: moduleAddress, name: moduleName },\n      },\n    };\n  }\n}";

pub const APTOS_METHOD_OPEN: &'static str = "\n\tasync ";

pub const METHOD_PARAMS_OPEN: &'static str = "(args: mod.";

pub const APTOS_METHOD_BODY: &'static str = ") {\n\t\treturn this.sendTransaction(";

pub const APTOS_METHOD_CLOSE: &'static str = "(args));\n\t}";

pub const SUI_MODULE_OPEN: &'static str =
    " = {\n\tgasBudget?: number;\n\tgasPayment?: ObjectId;\n};\n\nexport class ";

pub const SUI_CLASS_OPEN: &'static str =
    "SuiModule {\nprivate readonly defaultGasBudget = 1000;\n\nconstructor(private readonly signer: RawSigner) {}\n\n";

pub const SUI_MODULE_CLOSE: &'static str = "\n}";

pub const SUI_METHOD_OPEN: &'static str = "\nasync ";

pub const SUI_METHOD_BODY: &'static str = ", overrides: SuiCallOverrides) {\n\tconst payload = ";

pub const SUI_METHOD_CALL: &'static str =
    "(args);\n\n\treturn this.signer.executeMoveCall({\n\t\t\tmodule: mod.NAME,\n\t\t\tpackageObjectId: mod.ADDRESS,\n\t\t\tfunction: \"";

pub const SUI_METHOD_CLOSE: &'static str =
    "\",\n\t\t\ttypeArguments: payload.type_arguments,\n\t\t\targuments: payload.arguments,\n\t\t\tgasBudget: overrides?.gasBudget ?? this.defaultGasBudget,\n\t\t\t...overrides,\n\t})\n}";

/// The method of the Aptos class for one function: it builds the payload
/// from its arguments and sends it as a transaction.
pub open spec fn aptos_method_text(
    method_name: Seq<char>,
    args_type: Seq<char>,
    function_name: Seq<char>,
) -> Seq<char> {
    APTOS_METHOD_OPEN@ + method_name + METHOD_PARAMS_OPEN@ + args_type + APTOS_METHOD_BODY@
        + function_name + APTOS_METHOD_CLOSE@
}

/// The method of the Sui class for one function: it builds the payload from
/// its arguments and executes the call with the type arguments and the
/// arguments of the payload, under the gas budget given or the default.
pub open spec fn sui_method_text(
    method_name: Seq<char>,
    args_type: Seq<char>,
    function_name: Seq<char>,
) -> Seq<char> {
    SUI_METHOD_OPEN@ + method_name + METHOD_PARAMS_OPEN@ + args_type + SUI_METHOD_BODY@
        + function_name + SUI_METHOD_CALL@ + function_name + SUI_METHOD_CLOSE@
}

/// The Aptos class named after `module_name`, around its `methods`, behind
/// the type of the payloads that it sends.
pub open spec fn aptos_module_text(module_name: Seq<char>, methods: Seq<char>) -> Seq<char> {
    TYPE_KEYWORD@ + APTOS_PAYLOAD_TYPE@ + APTOS_MODULE_OPEN@ + module_name + APTOS_CLASS_OPEN@
        + methods + APTOS_MODULE_CLOSE@
}

/// The Sui class named after `module_name`, around its `methods`, behind
/// the type of the overrides that its calls take.
pub open spec fn sui_module_text(module_name: Seq<char>, methods: Seq<char>) -> Seq<char> {
    TYPE_KEYWORD@ + SUI_OVERRIDES_TYPE@ + SUI_MODULE_OPEN@ + module_name + SUI_CLASS_OPEN@ + methods
        + SUI_MODULE_CLOSE@
}

/// The method for the function `f` in the class for `environment`: named
/// by the function's name in lower camel case.
pub open spec fn method_text(environment: Environment, f: ScriptFunctionTypeView) -> Seq<char> {
    match environment {
        Environment::Aptos => aptos_method_text(
            lower_camel_case(f.script.name),
            args_type_name(f.payload_name),
            f.script.name,
        ),
        Environment::Sui => sui_method_text(
            lower_camel_case(f.script.name),
            args_type_name(f.payload_name),
            f.script.name,
        ),
    }
}

/// The methods for the functions `fns`, one after the other in the order
/// of the functions.
pub open spec fn method_texts(environment: Environment, fns: Seq<ScriptFunctionTypeView>) -> Seq<
    Seq<char>,
> {
    Seq::new(fns.len(), |i: int| method_text(environment, fns[i]))
}

/// The class for `environment` around the methods for `fns`, named after
/// the module of the first function in upper camel case, with a line feed
/// at the end.
pub open spec fn module_text(environment: Environment, fns: Seq<ScriptFunctionTypeView>) -> Seq<
    char,
> {
    match environment {
        Environment::Aptos => aptos_module_text(
            upper_camel_case(fns[0].module_id.name),
            join(method_texts(environment, fns), Seq::empty()),
        ) + LINE_FEED@,
        Environment::Sui => sui_module_text(
            upper_camel_case(fns[0].module_id.name),
            join(method_texts(environment, fns), Seq::empty()),
        ) + LINE_FEED@,
    }
}

/// The wrapper of a module with the functions `fns`: the class for the
/// selected environment and nothing of the other; nothing at all where no
/// environment is selected or the module has no function.
pub open spec fn wrapper_text(
    fns: Seq<ScriptFunctionTypeView>,
    environment: Option<Environment>,
) -> Seq<char> {
    match environment {
        Some(selected) => if fns.len() == 0 {
            Seq::empty()
        } else {
            module_text(selected, fns)
        },
        None => Seq::empty(),
    }
}

/// The wrapper holds the class of the selected environment and nothing
/// else: with Aptos selected it is the Aptos class around the Aptos
/// methods, with Sui selected the Sui class around the Sui methods, each
/// followed by a line feed, and with no environment selected it is empty.
/// A module without functions has an empty wrapper in every environment.
pub proof fn lemma_environment_exclusive(fns: Seq<ScriptFunctionTypeView>)
    ensures
        wrapper_text(fns, None) == Seq::<char>::empty(),
        fns.len() == 0 ==> wrapper_text(fns, Some(Environment::Aptos)) == Seq::<char>::empty()
            && wrapper_text(fns, Some(Environment::Sui)) == Seq::<char>::empty(),
        fns.len() > 0 ==> wrapper_text(fns, Some(Environment::Aptos)) == aptos_module_text(
            upper_camel_case(fns[0].module_id.name),
            join(method_texts(Environment::Aptos, fns), Seq::empty()),
        ) + LINE_FEED@,
        fns.len() > 0 ==> wrapper_text(fns, Some(Environment::Sui)) == sui_module_text(
            upper_camel_case(fns[0].module_id.name),
            join(method_texts(Environment::Sui, fns), Seq::empty()),
        ) + LINE_FEED@,
        forall|i: int|
            0 <= i < fns.len() ==> #[trigger] method_texts(Environment::Aptos, fns)[i]
                == aptos_method_text(
                lower_camel_case(fns[i].script.name),
                args_type_name(fns[i].payload_name),
                fns[i].script.name,
            ),
        forall|i: int|
            0 <= i < fns.len() ==> #[trigger] method_texts(Environment::Sui, fns)[i]
                == sui_method_text(
                lower_camel_case(fns[i].script.name),
                args_type_name(fns[i].payload_name),
                fns[i].script.name,
            ),
{
}

/// The wrappers of a module with a function differ by the environment: the
/// one for Aptos opens with the type of its payloads, the one for Sui with
/// the type of its overrides, and neither is empty, as the wrapper is where
/// no environment is selected.
pub proof fn lemma_wrappers_differ(fns: Seq<ScriptFunctionTypeView>)
    requires
        fns.len() > 0,
    ensures
        wrapper_text(fns, Some(Environment::Aptos)) != wrapper_text(fns, Some(Environment::Sui)),
        wrapper_text(fns, Some(Environment::Aptos)) != wrapper_text(fns, None),
        wrapper_text(fns, Some(Environment::Sui)) != wrapper_text(fns, None),
{
    reveal_strlit("\ntype ");
    reveal_strlit("TransactionPayload");
    reveal_strlit("SuiCallOverrides");
    let aptos = wrapper_text(fns, Some(Environment::Aptos));
    let sui = wrapper_text(fns, Some(Environment::Sui));
    assert(TYPE_KEYWORD@.len() == 6);
    assert(APTOS_PAYLOAD_TYPE@[0] == 'T');
    assert(SUI_OVERRIDES_TYPE@[0] == 'S');
    assert(aptos.len() > 6 && aptos[6] == 'T');
    assert(sui.len() > 6 && sui[6] == 'S');
}

/// The functions, by view.
pub open spec fn function_views(fns: Seq<ScriptFunctionType>) -> Seq<ScriptFunctionTypeView> {
    Seq::new(fns.len(), |i: int| fns[i]@)
}

/// Writes the method of the Aptos class that is named `method_name`, takes
/// the payload arguments of type `args_type` and calls the builder
/// `function_name`.
pub fn aptos_method(method_name: &str, args_type: &str, function_name: &str) -> (out: String)
    ensures
        out@ == aptos_method_text(method_name@, args_type@, function_name@),
{
    let mut out = String::from_str(APTOS_METHOD_OPEN);
    out.append(method_name);
    out.append(METHOD_PARAMS_OPEN);
    out.append(args_type);
    out.append(APTOS_METHOD_BODY);
    out.append(function_name);
    out.append(APTOS_METHOD_CLOSE);
    out
}

/// Writes the method of the Sui class that is named `method_name`, takes
/// the payload arguments of type `args_type` and calls the builder
/// `function_name`.
pub fn sui_method(method_name: &str, args_type: &str, function_name: &str) -> (out: String)
    ensures
        out@ == sui_method_text(method_name@, args_type@, function_name@),
{
    let mut out = String::from_str(SUI_METHOD_OPEN);
    out.append(method_name);
    out.append(METHOD_PARAMS_OPEN);
    out.append(args_type);
    out.append(SUI_METHOD_BODY);
    out.append(function_name);
    out.append(SUI_METHOD_CALL);
    out.append(function_name);
    out.append(SUI_METHOD_CLOSE);
    out
}

/// Writes the Aptos class named after `module_name` around `methods`.
pub fn aptos_module(module_name: &str, methods: &str) -> (out: String)
    ensures
        out@ == aptos_module_text(module_name@, methods@),
{
    let mut out = String::from_str(TYPE_KEYWORD);
    out.append(APTOS_PAYLOAD_TYPE);
    out.append(APTOS_MODULE_OPEN);
    out.append(module_name);
    out.append(APTOS_CLASS_OPEN);
    out.append(methods);
    out.append(APTOS_MODULE_CLOSE);
    out
}

/// Writes the Sui class named after `module_name` around `methods`.
pub fn sui_module(module_name: &str, methods: &str) -> (out: String)
    ensures
        out@ == sui_module_text(module_name@, methods@),
{
    let mut out = String::from_str(TYPE_KEYWORD);
    out.append(SUI_OVERRIDES_TYPE);
    out.append(SUI_MODULE_OPEN);
    out.append(module_name);
    out.append(SUI_CLASS_OPEN);
    out.append(methods);
    out.append(SUI_MODULE_CLOSE);
    out
}

/// Writes the method for `f` in the class for `environment`.
pub fn generate_method(environment: Environment, f: &ScriptFunctionType) -> (out: String)
    ensures
        out@ == method_text(environment, f@),
{
    let method_name = to_lower_camel_case(f.name());
    let args_type = f.payload_args_type_name();
    match environment {
        Environment::Aptos => aptos_method(method_name.as_str(), args_type.as_str(), f.name()),
        Environment::Sui => sui_method(method_name.as_str(), args_type.as_str(), f.name()),
    }
}

/// Generates the wrapper of a module with the functions `fns` for the
/// environment that `ctx` selects.
pub fn generate_typescript(fns: &[ScriptFunctionType], ctx: &CodegenContext) -> (r: Result<
    String,
    CodegenError,
>)
    ensures
        result_view(r) == Ok::<Seq<char>, CodegenErrorView>(
            wrapper_text(function_views(fns@), ctx@.environment),
        ),
{
    let environment = match ctx.environment {
        Some(selected) => selected,
        None => {
            return Ok(String::new());
        },
    };
    if fns.len() == 0 {
        return Ok(String::new());
    }
    let module_name = to_upper_camel_case(fns[0].module_name());
    let mut methods: Vec<String> = Vec::new();
    let mut i: usize = 0;
    while i < fns.len()
        invariant
            i <= fns.len(),
            methods.len() == i,
            forall|j: int| 0 <= j < i ==> methods[j]@ == method_text(environment, fns[j]@),
        decreases fns.len() - i,
    {
        methods.push(generate_method(environment, &fns[i]));
        i += 1;
    }
    assert(methods.deep_view() =~= method_texts(environment, function_views(fns@)));
    let nothing = String::new();
    let joined = join_strings(&methods, nothing.as_str());
    assert(function_views(fns@)[0] == fns[0]@);
    let mut out = match environment {
        Environment::Aptos => aptos_module(module_name.as_str(), joined.as_str()),
        Environment::Sui => sui_module(module_name.as_str(), joined.as_str()),
    };
    out.append(LINE_FEED);
    Ok(out)
}

} // verus!
