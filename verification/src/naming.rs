//! The case conventions of generated names.

use heck::{ToLowerCamelCase, ToPascalCase, ToUpperCamelCase};
use vstd::prelude::*;

verus! {

/// What `heck` makes of a name in upper camel case.
pub uninterp spec fn upper_camel_case(name: Seq<char>) -> Seq<char>;

/// What `heck` makes of a name in lower camel case.
pub uninterp spec fn lower_camel_case(name: Seq<char>) -> Seq<char>;

/// `heck::ToUpperCamelCase::to_upper_camel_case` on a `str`: the words of
/// the name, each capitalized, with nothing between them. The result
/// depends on the characters of the name alone.
#[verifier::external_body]
pub(crate) fn to_upper_camel_case(name: &str) -> (out: String)
    ensures
        out@ == upper_camel_case(name@),
{
    name.to_upper_camel_case()
}

/// `heck::ToPascalCase::to_pascal_case` on a `str`, which `heck` defines as
/// its conversion to upper camel case under a second name.
#[verifier::external_body]
pub(crate) fn to_pascal_case(name: &str) -> (out: String)
    ensures
        out@ == upper_camel_case(name@),
{
    name.to_pascal_case()
}

/// `heck::ToLowerCamelCase::to_lower_camel_case` on a `str`: the words of
/// the name, the first in lower case and each further one capitalized, with
/// nothing between them. The result depends on the characters of the name
/// alone.
#[verifier::external_body]
pub(crate) fn to_lower_camel_case(name: &str) -> (out: String)
    ensures
        out@ == lower_camel_case(name@),
{
    name.to_lower_camel_case()
}

} // verus!
