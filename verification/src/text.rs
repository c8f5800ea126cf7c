//! Text composition: joining fragments, splitting into lines, indenting.

use vstd::prelude::*;

verus! {

/// The fragments of `parts` in order, with `sep` between each two neighbours.
pub open spec fn join(parts: Seq<Seq<char>>, sep: Seq<char>) -> Seq<char>
    decreases parts.len(),
{
    if parts.len() == 0 {
        Seq::empty()
    } else if parts.len() == 1 {
        parts[0]
    } else {
        join(parts.drop_last(), sep) + sep + parts.last()
    }
}

/// Joining keeps the order of the fragments: the text of two lists of
/// fragments, one after the other, is the text of the first list, the
/// separator, and the text of the second list.
pub proof fn lemma_join_concat(first: Seq<Seq<char>>, second: Seq<Seq<char>>, sep: Seq<char>)
    requires
        first.len() > 0,
        second.len() > 0,
    ensures
        join(first + second, sep) == join(first, sep) + sep + join(second, sep),
    decreases second.len(),
{
    let all = first + second;
    assert(all.drop_last() =~= first + second.drop_last());
    assert(all.last() == second.last());
    if second.len() == 1 {
        assert(first + second.drop_last() =~= first);
        assert(join(second, sep) == second[0]);
    } else {
        lemma_join_concat(first, second.drop_last(), sep);
        assert(join(all, sep) =~= join(first, sep) + sep + join(second, sep));
    }
}

/// The pieces of `s` between its line feeds: one more than it has line feeds.
pub open spec fn pieces(s: Seq<char>) -> Seq<Seq<char>>
    decreases s.len(),
{
    if s.len() == 0 {
        seq![Seq::empty()]
    } else {
        let before = pieces(s.drop_last());
        if s.last() == '\n' {
            before.push(Seq::empty())
        } else {
            before.drop_last().push(before.last().push(s.last()))
        }
    }
}

/// The lines of `s`, without their line feeds. A line feed at the very end
/// closes the last line and opens no further one, so the empty text has no line.
pub open spec fn lines(s: Seq<char>) -> Seq<Seq<char>> {
    let all = pieces(s);
    if all.last().len() == 0 {
        all.drop_last()
    } else {
        all
    }
}

/// Each line of `ls` with `prefix` put before it.
pub open spec fn prefixed(ls: Seq<Seq<char>>, prefix: Seq<char>) -> Seq<Seq<char>> {
    Seq::new(ls.len(), |i: int| prefix + ls[i])
}

/// Each line of `ls` with `suffix` put behind it.
pub open spec fn suffixed(ls: Seq<Seq<char>>, suffix: Seq<char>) -> Seq<Seq<char>> {
    Seq::new(ls.len(), |i: int| ls[i] + suffix)
}

/// `s` with every line moved in by two spaces; the lines are joined by single
/// line feeds, so a line feed at the end of `s` is not kept.
pub open spec fn indented(s: Seq<char>) -> Seq<char> {
    join(prefixed(lines(s), INDENT@), LINE_FEED@)
}

/// `s` as a documentation comment: every line of it behind ` * `, between the
/// opening and the closing line of the comment, with a line feed at the end.
pub open spec fn doc_comment(s: Seq<char>) -> Seq<char> {
    DOC_OPEN@ + join(prefixed(lines(s), DOC_LINE@), LINE_FEED@) + DOC_CLOSE@
}

pub const INDENT: &'static str = "  ";

pub const LINE_FEED: &'static str = "\n";

pub const DOC_OPEN: &'static str = "/**\n";

pub const DOC_LINE: &'static str = " * ";

pub const DOC_CLOSE: &'static str = "\n */\n";

/// `String::push` of std appends the one character to the end of the string.
pub assume_specification[ String::push ](s: &mut String, c: char)
    ensures
        final(s)@ == old(s)@.push(c),
;

/// Whether two texts hold the same characters.
pub fn same_text(a: &String, b: &String) -> (same: bool)
    ensures
        same == (a@ == b@),
{
    *a == *b
}

/// Splits `s` into its lines.
pub fn split_lines(s: &str) -> (out: Vec<String>)
    ensures
        out.deep_view() == lines(s@),
{
    let mut done: Vec<String> = Vec::new();
    let mut current = String::new();
    for c in it: s.chars()
        invariant
            it.seq() == s@,
            pieces(s@.take(it.index() as int)) == done.deep_view().push(current@),
    {
        let ghost seen = s@.take(it.index() as int);
        let ghost next = s@.take(it.index() + 1);
        assert(next.drop_last() =~= seen);
        assert(next.last() == c);
        if c == '\n' {
            done.push(current);
            current = String::new();
            assert(done.deep_view().push(current@) =~= pieces(next));
        } else {
            current.push(c);
            assert(done.deep_view().push(current@) =~= pieces(next));
        }
    }
    assert(s@.take(s@.len() as int) =~= s@);
    if !current.as_str().is_empty() {
        done.push(current);
    }
    assert(done.deep_view() =~= lines(s@));
    done
}

/// Joins `parts` in order, with `sep` between each two neighbours.
pub fn join_strings(parts: &[String], sep: &str) -> (out: String)
    ensures
        out@ == join(parts.deep_view(), sep@),
{
    let mut out = String::new();
    let mut i: usize = 0;
    while i < parts.len()
        invariant
            i <= parts.len(),
            out@ == join(parts.deep_view().take(i as int), sep@),
        decreases parts.len() - i,
    {
        let ghost before = parts.deep_view().take(i as int);
        let ghost after = parts.deep_view().take(i + 1);
        assert(after.drop_last() =~= before);
        assert(after.last() == parts[i as int]@);
        if i > 0 {
            out.append(sep);
        }
        out.append(parts[i].as_str());
        i += 1;
    }
    assert(parts.deep_view().take(i as int) =~= parts.deep_view());
    out
}

/// Puts `prefix` before each line of `ls`.
pub fn prefix_lines(ls: &[String], prefix: &str) -> (out: Vec<String>)
    ensures
        out.deep_view() == prefixed(ls.deep_view(), prefix@),
{
    let mut out: Vec<String> = Vec::new();
    let mut i: usize = 0;
    while i < ls.len()
        invariant
            i <= ls.len(),
            out.len() == i,
            forall|j: int| 0 <= j < i ==> out[j]@ == prefix@ + ls[j]@,
        decreases ls.len() - i,
    {
        let mut line = String::from_str(prefix);
        line.append(ls[i].as_str());
        out.push(line);
        i += 1;
    }
    assert(out.deep_view() =~= prefixed(ls.deep_view(), prefix@));
    out
}

/// Puts `suffix` behind each line of `ls`.
pub fn suffix_lines(ls: &[String], suffix: &str) -> (out: Vec<String>)
    ensures
        out.deep_view() == suffixed(ls.deep_view(), suffix@),
{
    let mut out: Vec<String> = Vec::new();
    let mut i: usize = 0;
    while i < ls.len()
        invariant
            i <= ls.len(),
            out.len() == i,
            forall|j: int| 0 <= j < i ==> out[j]@ == ls[j]@ + suffix@,
        decreases ls.len() - i,
    {
        let mut line = ls[i].clone();
        line.append(suffix);
        out.push(line);
        i += 1;
    }
    assert(out.deep_view() =~= suffixed(ls.deep_view(), suffix@));
    out
}

/// Moves every line of `s` in by two spaces.
pub fn indent(s: &str) -> (out: String)
    ensures
        out@ == indented(s@),
{
    let ls = split_lines(s);
    let moved = prefix_lines(&ls, INDENT);
    join_strings(&moved, LINE_FEED)
}

/// Writes `s` as a documentation comment.
pub fn gen_doc_string(s: &str) -> (out: String)
    ensures
        out@ == doc_comment(s@),
{
    let ls = split_lines(s);
    let starred = prefix_lines(&ls, DOC_LINE);
    let body = join_strings(&starred, LINE_FEED);
    let mut out = String::from_str(DOC_OPEN);
    out.append(body.as_str());
    out.append(DOC_CLOSE);
    out
}

} // verus!
