//! The line breaker: `linebreak`, which measures characters by their East
//! Asian width and breaks a text at spaces and around punctuation.
//!
//! This module says which texts it can be given, and drives its iterator.
//! Of the lines that come out it promises nothing.

use vstd::prelude::*;
use linebreak::LineIter;

verus! {

/// `linebreak::LineIter`, which hands out the lines of a text one by one.
/// Nothing inside it is visible here.
#[verifier::external_type_specification]
#[verifier::external_body]
pub struct ExLineIter<'a>(LineIter<'a>);

/// The lines that a line iterator has yet to hand out, in order.
pub uninterp spec fn lines_left(iter: &LineIter) -> Seq<Seq<char>>;

/// Whether a line iterator has room for text on a line and only characters
/// ahead of it that it can take: it then hands out each of its lines and
/// runs out.
pub uninterp spec fn runs_out(iter: &LineIter) -> bool;

/// The number of columns that a character takes, as `linebreak::char_width`
/// counts them.
pub uninterp spec fn columns(c: char) -> nat;

/// Calls `linebreak::char_width`, which gives 0 for a character that is not
/// printable and 1 or 2 for one that is, by its East Asian width. The count
/// depends on the character alone.
#[verifier::external_body]
pub(crate) fn char_columns(c: char) -> (count: usize)
    ensures
        count == columns(c),
        count <= 2,
{
    linebreak::char_width(c)
}

/// Code points that count as wide even where no character is assigned to
/// them: the two blocks of CJK unified ideographs, the CJK compatibility
/// ideographs, and the supplementary ideographic planes.
pub open spec fn wide_by_default(c: char) -> bool {
    ||| 0x3400 <= c as u32 <= 0x4DBF
    ||| 0x4E00 <= c as u32 <= 0x9FFF
    ||| 0xF900 <= c as u32 <= 0xFAFF
    ||| 0x20000 <= c as u32 <= 0x3FFFF
}

/// Whether the line breaker can take the character. It fails on one that it
/// breaks around as a wide character and measures as having no width: a
/// code point that is wide by default and has no character assigned to it.
pub open spec fn breakable_char(c: char) -> bool {
    columns(c) > 0 || !wide_by_default(c)
}

/// Whether the line breaker can take every character of the text.
pub open spec fn breakable(text: Seq<char>) -> bool {
    forall|i: int| 0 <= i < text.len() ==> breakable_char(#[trigger] text[i])
}

/// Whether a text is made of spaces only.
pub open spec fn all_spaces(text: Seq<char>) -> bool {
    forall|i: int| 0 <= i < text.len() ==> #[trigger] text[i] == ' '
}

/// Calls `LineIter::new` and then `LineIter::set_indent` on the new
/// iterator, before any line is taken from it. The contract says that the
/// iterator runs out, and nothing of the lines that it will hand out.
///
/// The iterator reads the text once, character by character, so it comes to
/// an end if every call of `next` returns. It subtracts the indent's width
/// from the line width, and hands out empty lines for ever where no column
/// is left for text: so the indent, one column per space, has to be narrower
/// than the line. It subtracts one from the length of its empty buffer when
/// it meets a character that it breaks around as a wide one and measures as
/// having no width; `breakable` leaves those out.
#[verifier::external_body]
fn indented_lines<'a>(text: &'a str, width: usize, indent: &'a str) -> (iter: LineIter<'a>)
    requires
        breakable(text@),
        all_spaces(indent@),
        indent@.len() < width,
    ensures
        runs_out(&iter),
{
    let mut iter = LineIter::new(text, width);
    iter.set_indent(indent);
    iter
}

/// Calls `LineIter::next`, which hands out the next line, or `None` once
/// and for all when no line is left. The contract says so over the lines
/// that the iterator has yet to hand out: the first of them comes and the
/// others stay, or none was left and none is.
#[verifier::external_body]
fn next_line(iter: &mut LineIter) -> (line: Option<String>)
    requires
        runs_out(old(iter)),
    ensures
        runs_out(final(iter)),
        match line {
            Some(text) => {
                &&& lines_left(old(iter)).len() > 0
                &&& text@ == lines_left(old(iter))[0]
                &&& lines_left(final(iter)) == lines_left(old(iter)).drop_first()
            },
            None => lines_left(old(iter)).len() == 0 && lines_left(final(iter)).len() == 0,
        },
{
    iter.next()
}

/// Takes every line that the line breaker makes of `text`.
pub(crate) fn wrap(text: &str, width: usize, indent: &str) -> (lines: Vec<String>)
    requires
        breakable(text@),
        all_spaces(indent@),
        indent@.len() < width,
{
    let mut iter = indented_lines(text, width, indent);
    let mut lines: Vec<String> = Vec::new();
    loop
        invariant
            runs_out(&iter),
        decreases lines_left(&iter).len(),
    {
        match next_line(&mut iter) {
            Some(line) => lines.push(line),
            None => break ,
        }
    }
    lines
}

/// Whether the line breaker can take every character of `text`.
pub fn is_breakable(text: &str) -> (ok: bool)
    ensures
        ok == breakable(text@),
{
    let mut ok = true;
    for c in it: text.chars()
        invariant
            it.seq() == text@,
            ok == breakable(text@.take(it.index() as int)),
    {
        proof {
            let k = it.index() as int;
            assert(text@.take(k + 1)[k] == c);
        }
        let code = c as u32;
        let wide = (0x3400 <= code && code <= 0x4DBF) || (0x4E00 <= code && code <= 0x9FFF) || (
        0xF900 <= code && code <= 0xFAFF) || (0x20000 <= code && code <= 0x3FFFF);
        if wide && char_columns(c) == 0 {
            ok = false;
        }
    }
    assert(text@.take(text@.len() as int) =~= text@);
    ok
}

} // verus!
