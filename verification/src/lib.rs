//! Generates TypeScript client code for the script functions of a Move module.

pub mod agreement;
pub mod code_text;
pub mod context;
pub mod error;
pub mod idl;
pub mod idl_type;
pub mod module_code;
pub mod module_wrapper;
pub mod naming;
pub mod script_function;
pub mod text;
