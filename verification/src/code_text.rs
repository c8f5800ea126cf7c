//! The declaration builder: generated fragments put together into
//! declarations.

use vstd::prelude::*;
use crate::text::{doc_comment, gen_doc_string, indent, indented, join, join_strings, LINE_FEED};

verus! {

pub const EXPORT_TYPE: &'static str = "export type ";

pub const FIELDS_OPEN: &'static str = " = {\n";

pub const FIELDS_CLOSE: &'static str = "};";

/// The declaration of an exported type `name` whose fields are `fields`.
pub open spec fn fields_export(name: Seq<char>, fields: Seq<char>) -> Seq<char> {
    EXPORT_TYPE@ + name + FIELDS_OPEN@ + fields + FIELDS_CLOSE@
}

/// A piece of generated code.
#[derive(Debug)]
pub struct CodeText(pub String);

impl View for CodeText {
    type V = Seq<char>;

    open spec fn view(&self) -> Seq<char> {
        self.0@
    }
}

/// The texts of the pieces, in order.
pub open spec fn views(pieces: Seq<CodeText>) -> Seq<Seq<char>> {
    Seq::new(pieces.len(), |i: int| pieces[i]@)
}

impl CodeText {
    /// The code `text`.
    pub fn new(text: &str) -> (code: CodeText)
        ensures
            code@ == text@,
    {
        CodeText(String::from_str(text))
    }

    /// The declaration of an exported type `name` with the fields `fields`.
    pub fn new_fields_export(name: &str, fields: &str) -> (code: CodeText)
        ensures
            code@ == fields_export(name@, fields@),
    {
        let mut out = String::from_str(EXPORT_TYPE);
        out.append(name);
        out.append(FIELDS_OPEN);
        out.append(fields);
        out.append(FIELDS_CLOSE);
        CodeText(out)
    }

    /// This code under the documentation comment `docs`.
    pub fn docs(&self, docs: &str) -> (code: CodeText)
        ensures
            code@ == doc_comment(docs@) + self@,
    {
        let mut out = gen_doc_string(docs);
        out.append(self.0.as_str());
        CodeText(out)
    }

    /// This code, every line moved in by two spaces.
    pub fn indent(&self) -> (code: CodeText)
        ensures
            code@ == indented(self@),
    {
        CodeText(indent(self.0.as_str()))
    }

    /// This code and a line feed.
    pub fn append_newline(&self) -> (code: CodeText)
        ensures
            code@ == self@ + LINE_FEED@,
    {
        let mut out = self.0.clone();
        out.append(LINE_FEED);
        CodeText(out)
    }

    /// The pieces in order, with `separator` between each two neighbours.
    pub fn join_with_separator(pieces: &[CodeText], separator: &str) -> (code: CodeText)
        ensures
            code@ == join(views(pieces@), separator@),
    {
        let mut texts: Vec<String> = Vec::new();
        let mut i: usize = 0;
        while i < pieces.len()
            invariant
                i <= pieces.len(),
                texts.len() == i,
                forall|j: int| 0 <= j < i ==> texts[j]@ == pieces[j]@,
            decreases pieces.len() - i,
        {
            texts.push(pieces[i].0.clone());
            i += 1;
        }
        assert(texts.deep_view() =~= views(pieces@));
        CodeText(join_strings(&texts, separator))
    }

    /// The text of this code.
    pub fn to_string(&self) -> (text: String)
        ensures
            text@ == self@,
    {
        self.0.clone()
    }

    /// This code as a text.
    pub fn into_string(self) -> (text: String)
        ensures
            text@ == self@,
    {
        self.0
    }
}

} // verus!
