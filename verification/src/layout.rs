//! Laying a text out in indented lines of bounded width.
//!
//! The lines come from the line breaker where it can be given the text.
//! They are not taken on trust: every line is measured, the visible
//! characters are compared with those of the text, and where the text is
//! words set apart by single spaces the lines have to give it back when
//! they are joined. Where the lines do not hold, or the line breaker cannot
//! be given the text, the text is filled into lines word by word.

use vstd::prelude::*;
use vstd::string::*;
use crate::text::texts;
use crate::wrap::{char_columns, columns, is_breakable, wrap};

verus! {

/// The width of a line in columns, indent included.
pub const LINE_WIDTH: usize = 80;

/// What every line starts with.
pub open spec fn indent() -> Seq<char> {
    "  "@
}

/// The columns that a text takes: those of its characters together.
pub open spec fn columns_of(text: Seq<char>) -> nat
    decreases text.len(),
{
    if text.len() == 0 {
        0
    } else {
        columns_of(text.drop_last()) + columns(text.last())
    }
}

/// Whether a character leaves a mark: it takes room and is no space.
pub open spec fn visible(c: char) -> bool {
    c != ' ' && columns(c) > 0
}

/// The visible characters of a text, in order.
pub open spec fn ink(text: Seq<char>) -> Seq<char>
    decreases text.len(),
{
    if text.len() == 0 {
        Seq::empty()
    } else if visible(text.last()) {
        ink(text.drop_last()).push(text.last())
    } else {
        ink(text.drop_last())
    }
}

/// Whether a line begins with the indent.
pub open spec fn indented(line: Seq<char>) -> bool {
    indent().is_prefix_of(line)
}

/// A line without its indent.
pub open spec fn body(line: Seq<char>) -> Seq<char> {
    if line.len() >= 2 {
        line.subrange(2, line.len() as int)
    } else {
        Seq::empty()
    }
}

/// The bodies of the lines, joined by single spaces.
pub open spec fn rejoined(lines: Seq<Seq<char>>) -> Seq<char>
    decreases lines.len(),
{
    if lines.len() == 0 {
        Seq::empty()
    } else if lines.len() == 1 {
        body(lines[0])
    } else {
        rejoined(lines.drop_last()) + seq![' '] + body(lines.last())
    }
}

/// Whether every character of a text takes room and every space stands
/// between two other characters: the text is words set apart by single
/// spaces.
pub open spec fn plain(text: Seq<char>) -> bool {
    &&& forall|i: int| 0 <= i < text.len() ==> columns(#[trigger] text[i]) > 0
    &&& forall|i: int|
        0 <= i < text.len() && #[trigger] text[i] == ' ' ==> 0 < i < text.len() - 1 && text[i
            - 1] != ' '
}

/// Whether a text holds no space.
pub open spec fn unspaced(text: Seq<char>) -> bool {
    forall|i: int| 0 <= i < text.len() ==> #[trigger] text[i] != ' '
}

/// Whether every word of a text finds room on a line behind the indent.
pub open spec fn words_fit(text: Seq<char>) -> bool {
    forall|from: int, to: int|
        0 <= from <= to <= text.len() && unspaced(#[trigger] text.subrange(from, to))
            ==> columns_of(text.subrange(from, to)) + columns_of(indent()) <= LINE_WIDTH
}

/// Whether every line begins with the indent and is at most `LINE_WIDTH`
/// columns wide.
pub open spec fn lines_fit(lines: Seq<Seq<char>>) -> bool {
    forall|i: int|
        0 <= i < lines.len() ==> indented(#[trigger] lines[i]) && columns_of(lines[i])
            <= LINE_WIDTH
}

/// Whether lines lay a text out.
///
/// Each line begins with the indent and is at most `LINE_WIDTH` columns
/// wide. Together the lines hold the visible characters of the text, all of
/// them, in order, and no others. And where the text is words set apart by
/// single spaces, each of which finds room on a line, no word is broken:
/// the lines without their indents, joined by single spaces, are the text.
pub open spec fn laid_out(lines: Seq<Seq<char>>, text: Seq<char>) -> bool {
    &&& lines_fit(lines)
    &&& ink(lines.flatten()) == ink(text)
    &&& plain(text) && words_fit(text) ==> rejoined(lines) == text
}

/// Whether lines that were made of a text are taken as they are: they fit,
/// they hold its visible characters, and they give the text back when they
/// are joined, unless the text is more than words set apart by single
/// spaces.
pub open spec fn acceptable(lines: Seq<Seq<char>>, text: Seq<char>) -> bool {
    &&& lines_fit(lines)
    &&& ink(lines.flatten()) == ink(text)
    &&& plain(text) ==> rejoined(lines) == text
}

/// Lines as they are shown: an empty line becomes the bare indent.
pub open spec fn padded(lines: Seq<Seq<char>>) -> Seq<Seq<char>> {
    Seq::new(
        lines.len(),
        |i: int|
            if lines[i].len() == 0 {
                indent()
            } else {
                lines[i]
            },
    )
}

proof fn lemma_columns_push(text: Seq<char>, c: char)
    ensures
        columns_of(text.push(c)) == columns_of(text) + columns(c),
{
    assert(text.push(c).drop_last() =~= text);
}

proof fn lemma_ink_push(text: Seq<char>, c: char)
    ensures
        ink(text.push(c)) == if visible(c) {
            ink(text).push(c)
        } else {
            ink(text)
        },
{
    assert(text.push(c).drop_last() =~= text);
}

proof fn lemma_ink_add(front: Seq<char>, back: Seq<char>)
    ensures
        ink(front + back) == ink(front) + ink(back),
    decreases back.len(),
{
    if back.len() > 0 {
        lemma_ink_add(front, back.drop_last());
        assert((front + back).drop_last() =~= front + back.drop_last());
    }
}

proof fn lemma_bare_indent()
    ensures
        indented(indent()),
        ink(indent()) == Seq::<char>::empty(),
        columns_of(indent()) == 2 * columns(' '),
{
    reveal_strlit("  ");
    let none = Seq::<char>::empty();
    let one = none.push(' ');
    assert(indent() =~= one.push(' '));
    lemma_ink_push(none, ' ');
    lemma_ink_push(one, ' ');
    lemma_columns_push(none, ' ');
    lemma_columns_push(one, ' ');
}

proof fn lemma_columns_add(front: Seq<char>, back: Seq<char>)
    ensures
        columns_of(front + back) == columns_of(front) + columns_of(back),
    decreases back.len(),
{
    if back.len() > 0 {
        lemma_columns_add(front, back.drop_last());
        assert((front + back).drop_last() =~= front + back.drop_last());
    }
}

proof fn lemma_one_space()
    ensures
        ink(seq![' ']) == Seq::<char>::empty(),
        columns_of(seq![' ']) == columns(' '),
{
    let none = Seq::<char>::empty();
    lemma_ink_push(none, ' ');
    lemma_columns_push(none, ' ');
}

proof fn lemma_rejoined_push(lines: Seq<Seq<char>>, line: Seq<char>)
    ensures
        rejoined(lines.push(line)) == if lines.len() == 0 {
            body(line)
        } else {
            rejoined(lines) + seq![' '] + body(line)
        },
{
    assert(lines.push(line).drop_last() =~= lines);
}

/// Lines that are taken lay the text out.
pub proof fn lemma_acceptable_lines_lay_out(lines: Seq<Seq<char>>, text: Seq<char>)
    requires
        acceptable(lines, text),
    ensures
        laid_out(lines, text),
{
}

fn is_indented(line: &str) -> (ok: bool)
    ensures
        ok == indented(line@),
{
    proof {
        reveal_strlit("  ");
    }
    let n = line.unicode_len();
    if n < 2 {
        false
    } else {
        let ok = line.get_char(0) == ' ' && line.get_char(1) == ' ';
        assert(ok == indented(line@)) by {
            if !ok {
                assert(line@.subrange(0, 2)[0] == line@[0]);
                assert(line@.subrange(0, 2)[1] == line@[1]);
            }
        }
        ok
    }
}

fn fits(line: &str) -> (ok: bool)
    ensures
        ok == (columns_of(line@) <= LINE_WIDTH),
{
    let mut cols: usize = 0;
    let mut ok = true;
    for c in it: line.chars()
        invariant
            it.seq() == line@,
            ok ==> cols == columns_of(line@.take(it.index() as int)) && cols <= LINE_WIDTH,
            !ok ==> columns_of(line@.take(it.index() as int)) > LINE_WIDTH,
    {
        proof {
            let k = it.index() as int;
            assert(line@.take(k + 1) =~= line@.take(k).push(c));
            lemma_columns_push(line@.take(k), c);
        }
        if ok {
            cols = cols + char_columns(c);
            if cols > LINE_WIDTH {
                ok = false;
            }
        }
    }
    assert(line@.take(line@.len() as int) =~= line@);
    ok
}

fn add_ink(text: &str, seen: &mut Vec<char>)
    ensures
        final(seen)@ == old(seen)@ + ink(text@),
{
    let ghost before = seen@;
    for c in it: text.chars()
        invariant
            it.seq() == text@,
            seen@ == before + ink(text@.take(it.index() as int)),
    {
        proof {
            let k = it.index() as int;
            assert(text@.take(k + 1) =~= text@.take(k).push(c));
            lemma_ink_push(text@.take(k), c);
        }
        if c != ' ' && char_columns(c) > 0 {
            seen.push(c);
        }
    }
    assert(text@.take(text@.len() as int) =~= text@);
}

fn same_chars(left: &Vec<char>, right: &Vec<char>) -> (same: bool)
    ensures
        same == (left@ == right@),
{
    if left.len() != right.len() {
        return false;
    }
    let mut i: usize = 0;
    while i < left.len()
        invariant
            i <= left.len(),
            left.len() == right.len(),
            forall|j: int| 0 <= j < i ==> left@[j] == right@[j],
        decreases left.len() - i,
    {
        if left[i] != right[i] {
            return false;
        }
        i += 1;
    }
    assert(left@ =~= right@);
    true
}

fn add_body(line: &str, out: &mut Vec<char>)
    ensures
        final(out)@ == old(out)@ + body(line@),
{
    let ghost before = out@;
    let mut passed: u8 = 0;
    for c in it: line.chars()
        invariant
            it.seq() == line@,
            passed == if it.index() < 2 {
                it.index()
            } else {
                2
            },
            out@ == before + body(line@.take(it.index() as int)),
    {
        if passed < 2 {
            passed = passed + 1;
        } else {
            out.push(c);
        }
    }
}

fn chars_of(text: &str) -> (chars: Vec<char>)
    ensures
        chars@ == text@,
{
    let mut chars: Vec<char> = Vec::new();
    for c in it: text.chars()
        invariant
            it.seq() == text@,
            chars@ == text@.take(it.index() as int),
    {
        chars.push(c);
    }
    chars
}

fn rejoins_to(lines: &Vec<String>, text: &str) -> (same: bool)
    ensures
        same == (rejoined(texts(lines@)) == text@),
{
    let mut joined: Vec<char> = Vec::new();
    let mut i: usize = 0;
    while i < lines.len()
        invariant
            i <= lines.len(),
            joined@ == rejoined(texts(lines@).take(i as int)),
        decreases lines.len() - i,
    {
        proof {
            let done = texts(lines@).take(i as int);
            lemma_rejoined_push(done, lines@[i as int]@);
            assert(texts(lines@).take(i + 1) =~= done.push(lines@[i as int]@));
        }
        if i > 0 {
            joined.push(' ');
        }
        add_body(lines[i].as_str(), &mut joined);
        i += 1;
    }
    assert(texts(lines@).take(lines.len() as int) =~= texts(lines@));
    let wanted = chars_of(text);
    same_chars(&joined, &wanted)
}

/// Whether `text` is words set apart by single spaces.
pub fn is_plain(text: &str) -> (ok: bool)
    ensures
        ok == plain(text@),
{
    let mut ok = true;
    let mut after_space = false;
    let mut first = true;
    for c in it: text.chars()
        invariant
            it.seq() == text@,
            first == (it.index() == 0),
            after_space == (it.index() > 0 && text@[it.index() - 1] == ' '),
            ok == (forall|i: int|
                0 <= i < it.index() ==> columns(#[trigger] text@[i]) > 0 && (text@[i] == ' ' ==> 0
                    < i && text@[i - 1] != ' ')),
    {
        if char_columns(c) == 0 {
            ok = false;
        }
        if c == ' ' {
            if first || after_space {
                ok = false;
            }
            after_space = true;
        } else {
            after_space = false;
        }
        first = false;
    }
    ok && !after_space
}

/// Decides on lines that were made of `text`. Empty lines are padded to the
/// bare indent; the lines are then taken if they are acceptable.
pub fn accept_lines(lines: &Vec<String>, text: &str) -> (taken: Option<Vec<String>>)
    ensures
        match taken {
            Some(shown) => texts(shown@) == padded(texts(lines@)) && acceptable(
                texts(shown@),
                text@,
            ),
            None => !acceptable(padded(texts(lines@)), text@),
        },
{
    let ghost goal = padded(texts(lines@));
    let mut shown: Vec<String> = Vec::new();
    let mut seen: Vec<char> = Vec::new();
    let mut ok = true;
    let mut i: usize = 0;
    while i < lines.len()
        invariant
            i <= lines.len(),
            goal == padded(texts(lines@)),
            texts(shown@) == goal.take(i as int),
            seen@ == ink(texts(shown@).flatten()),
            ok == lines_fit(goal.take(i as int)),
        decreases lines.len() - i,
    {
        let line = if lines[i].as_str().is_empty() {
            String::from_str("  ")
        } else {
            lines[i].clone()
        };
        let fine = is_indented(line.as_str()) && fits(line.as_str());
        proof {
            let done = texts(shown@);
            done.lemma_flatten_push(line@);
            lemma_ink_add(done.flatten(), line@);
            assert(goal.take(i + 1) =~= done.push(line@));
            if ok && fine {
                assert forall|j: int| 0 <= j < i + 1 implies indented(
                    #[trigger] goal.take(i + 1)[j],
                ) && columns_of(goal.take(i + 1)[j]) <= LINE_WIDTH by {
                    assert(j < i ==> goal.take(i + 1)[j] == goal.take(i as int)[j]);
                }
            } else if ok {
                assert(goal.take(i + 1)[i as int] == line@);
            } else {
                let j = choose|j: int|
                    0 <= j < i && !(indented(#[trigger] goal.take(i as int)[j]) && columns_of(
                        goal.take(i as int)[j],
                    ) <= LINE_WIDTH);
                assert(goal.take(i + 1)[j] == goal.take(i as int)[j]);
            }
        }
        if !fine {
            ok = false;
        }
        add_ink(line.as_str(), &mut seen);
        shown.push(line);
        assert(texts(shown@) =~= goal.take(i + 1));
        i += 1;
    }
    assert(goal.take(lines.len() as int) =~= goal);
    let mut wanted: Vec<char> = Vec::new();
    add_ink(text, &mut wanted);
    if ok && same_chars(&seen, &wanted) && (!is_plain(text) || rejoins_to(&shown, text)) {
        Some(shown)
    } else {
        None
    }
}

/// What has been read of a text while it is filled into lines: the lines,
/// the line that is being filled, and the word that is being read.
spec fn read_so_far(lines: Seq<Seq<char>>, line: Seq<char>, word: Seq<char>) -> Seq<
    char,
> {
    if body(line).len() == 0 {
        word
    } else {
        rejoined(lines.push(line)) + seq![' '] + word
    }
}

/// Puts a word on the line that is being filled, behind a space, or on a
/// new line where it finds no room.
fn place(
    lines: &mut Vec<String>,
    line: &mut String,
    cols: &mut usize,
    word: &str,
    word_cols: usize,
    pad: usize,
)
    requires
        pad == 2 * columns(' '),
        lines_fit(texts(old(lines)@)),
        indented(old(line)@),
        *old(cols) == columns_of(old(line)@),
        *old(cols) <= LINE_WIDTH,
        body(old(line)@).len() == 0 ==> old(lines)@.len() == 0 && old(line)@ == indent(),
        word@.len() > 0,
        word_cols == columns_of(word@),
        word_cols + pad <= LINE_WIDTH,
    ensures
        lines_fit(texts(final(lines)@)),
        indented(final(line)@),
        *final(cols) == columns_of(final(line)@),
        *final(cols) <= LINE_WIDTH,
        body(final(line)@).len() > 0,
        ink(texts(final(lines)@).flatten() + final(line)@) == ink(
            texts(old(lines)@).flatten() + old(line)@,
        ) + ink(word@),
        rejoined(texts(final(lines)@).push(final(line)@)) == read_so_far(
            texts(old(lines)@),
            old(line)@,
            word@,
        ),
{
    let ghost lines0 = texts(lines@);
    let ghost line0 = line@;
    let ghost flat0 = lines0.flatten() + line0;
    proof {
        reveal_strlit("  ");
        reveal_strlit(" ");
        lemma_bare_indent();
        lemma_one_space();
        lemma_rejoined_push(lines0, line0);
    }
    let gap = char_columns(' ');
    if line.as_str().unicode_len() <= 2 {
        assert(body(line0).len() == 0);
        line.append(word);
        *cols = pad + word_cols;
        proof {
            lemma_columns_add(line0, word@);
            lemma_ink_add(flat0, word@);
            assert(lines0.flatten() + line@ =~= flat0 + word@);
            assert(body(line@) =~= word@);
            assert(indent() =~= line@.subrange(0, 2));
            lemma_rejoined_push(lines0, line@);
        }
    } else if *cols + gap + word_cols <= LINE_WIDTH {
        line.append(" ");
        line.append(word);
        *cols = *cols + gap + word_cols;
        proof {
            let spaced = line0 + seq![' '];
            assert(" "@ =~= seq![' ']);
            assert(line@ =~= spaced + word@);
            lemma_columns_add(line0, seq![' ']);
            lemma_columns_add(spaced, word@);
            lemma_ink_add(flat0, seq![' ']);
            lemma_ink_add(flat0 + seq![' '], word@);
            assert(lines0.flatten() + line@ =~= flat0 + seq![' '] + word@);
            assert(ink(flat0 + seq![' ']) =~= ink(flat0));
            assert(body(line@) =~= body(line0) + seq![' '] + word@);
            assert(indent() =~= line@.subrange(0, 2));
            lemma_rejoined_push(lines0, line@);
            assert(rejoined(lines0.push(line@)) =~= rejoined(lines0.push(line0)) + seq![' ']
                + word@);
        }
    } else {
        let mut fresh = String::from_str("  ");
        fresh.append(word);
        let ghost fresh0 = fresh@;
        proof {
            assert(fresh0 =~= indent() + word@);
            lemma_columns_add(indent(), word@);
            assert(body(fresh0) =~= word@);
            assert(indent() =~= fresh0.subrange(0, 2));
            lines0.lemma_flatten_push(line0);
            lemma_ink_add(flat0, indent());
            lemma_ink_add(flat0 + indent(), word@);
            assert(lines0.push(line0).flatten() + fresh0 =~= flat0 + indent() + word@);
            assert(ink(flat0 + indent()) =~= ink(flat0));
            lemma_rejoined_push(lines0.push(line0), fresh0);
            assert(texts(lines@.push(*line)) =~= lines0.push(line0));
        }
        let full = line.clone();
        *line = fresh;
        lines.push(full);
        *cols = pad + word_cols;
        proof {
            assert(texts(lines@) =~= lines0.push(line0));
            assert forall|j: int| 0 <= j < texts(lines@).len() implies indented(
                #[trigger] texts(lines@)[j],
            ) && columns_of(texts(lines@)[j]) <= LINE_WIDTH by {
                if j < lines0.len() {
                    assert(texts(lines@)[j] == lines0[j]);
                }
            }
        }
    }
}

/// Fills `text` into lines word by word. A character that takes no room is
/// left out; a word goes behind a space on the line that is being filled,
/// or on a new line where it finds no room; a word that finds no room on a
/// line of its own is cut where the line is full.
pub(crate) fn fill_lines(text: &str) -> (lines: Vec<String>)
    ensures
        laid_out(texts(lines@), text@),
        lines@.len() >= 1,
{
    let pad = char_columns(' ') + char_columns(' ');
    let mut lines: Vec<String> = Vec::new();
    let mut line = String::from_str("  ");
    let mut cols = pad;
    let mut word = String::new();
    let mut word_cols: usize = 0;
    let ghost prose = plain(text@) && words_fit(text@);
    proof {
        lemma_bare_indent();
        assert(texts(lines@).flatten() =~= Seq::<char>::empty());
        assert(texts(lines@).flatten() + line@ =~= indent());
        assert(text@.take(0) =~= Seq::<char>::empty());
        assert(text@.subrange(0, 0) =~= Seq::<char>::empty());
        assert(body(line@) =~= Seq::<char>::empty()) by {
            reveal_strlit("  ");
        }
    }
    for c in it: text.chars()
        invariant
            it.seq() == text@,
            prose == (plain(text@) && words_fit(text@)),
            pad == 2 * columns(' '),
            pad <= 4,
            lines_fit(texts(lines@)),
            indented(line@),
            cols == columns_of(line@),
            cols <= LINE_WIDTH,
            body(line@).len() == 0 ==> lines@.len() == 0 && line@ == indent(),
            word_cols == columns_of(word@),
            word_cols + pad <= LINE_WIDTH,
            ink(texts(lines@).flatten() + line@) + ink(word@) == ink(
                text@.take(it.index() as int),
            ),
            prose ==> {
                &&& text@.take(it.index() as int) == read_so_far(texts(lines@), line@, word@)
                &&& word@.len() <= it.index()
                &&& word@ == text@.subrange(it.index() - word@.len(), it.index() as int)
                &&& unspaced(word@)
                &&& it.index() > 0 && text@[it.index() - 1] != ' ' ==> word@.len() > 0
            },
    {
        let ghost k = it.index() as int;
        proof {
            assert(text@.take(k + 1) =~= text@.take(k).push(c));
            lemma_ink_push(text@.take(k), c);
            lemma_ink_push(word@, c);
            lemma_columns_push(word@, c);
            assert(text@[k] == c);
        }
        let count = char_columns(c);
        if count == 0 {
        } else if c == ' ' {
            if word.as_str().unicode_len() > 0 {
                let ghost before = read_so_far(texts(lines@), line@, word@);
                place(&mut lines, &mut line, &mut cols, word.as_str(), word_cols, pad);
                word = String::new();
                word_cols = 0;
                proof {
                    assert(ink(word@) =~= Seq::<char>::empty());
                    assert(ink(texts(lines@).flatten() + line@) + ink(word@) =~= ink(
                        texts(lines@).flatten() + line@,
                    ));
                    assert(read_so_far(texts(lines@), line@, word@) =~= before.push(' '));
                    assert(text@.subrange(k + 1, k + 1) =~= word@);
                }
            } else {
                proof {
                    if prose {
                        assert(text@[k] == ' ');
                        assert(false);
                    }
                }
            }
        } else {
            if word_cols + count + pad > LINE_WIDTH {
                proof {
                    if prose {
                        let run = text@.subrange(k - word@.len(), k + 1);
                        assert(run =~= word@.push(c));
                        assert(unspaced(run));
                        lemma_bare_indent();
                        assert(columns_of(run) + columns_of(indent()) <= LINE_WIDTH);
                        assert(false);
                    }
                    if word@.len() == 0 {
                        assert(columns_of(word@) == 0);
                    }
                }
                place(&mut lines, &mut line, &mut cols, word.as_str(), word_cols, pad);
                word = String::new();
                word_cols = 0;
                proof {
                    assert(ink(word@) =~= Seq::<char>::empty());
                    assert(ink(texts(lines@).flatten() + line@) + ink(word@) =~= ink(
                        texts(lines@).flatten() + line@,
                    ));
                    lemma_ink_push(word@, c);
                    lemma_columns_push(word@, c);
                }
            }
            let ghost before = read_so_far(texts(lines@), line@, word@);
            let ghost word0 = word@;
            word.push(c);
            word_cols = word_cols + count;
            proof {
                assert(ink(texts(lines@).flatten() + line@) + ink(word0).push(c) =~= (ink(
                    texts(lines@).flatten() + line@,
                ) + ink(word0)).push(c));
                if prose {
                    assert(read_so_far(texts(lines@), line@, word@) =~= before.push(c));
                    assert(word@ =~= text@.subrange(k + 1 - word@.len(), k + 1));
                }
            }
        }
    }
    proof {
        assert(text@.take(text@.len() as int) =~= text@);
    }
    let ghost read = read_so_far(texts(lines@), line@, word@);
    if word.as_str().unicode_len() > 0 {
        place(&mut lines, &mut line, &mut cols, word.as_str(), word_cols, pad);
    } else {
        proof {
            assert(ink(word@) =~= Seq::<char>::empty());
            assert(ink(texts(lines@).flatten() + line@) + ink(word@) =~= ink(
                texts(lines@).flatten() + line@,
            ));
            if prose {
                lemma_rejoined_push(texts(lines@), line@);
                if body(line@).len() > 0 {
                    assert(read.len() > 0);
                    assert(text@[text@.len() - 1] == ' ');
                    assert(false);
                }
                assert(read =~= Seq::<char>::empty());
                assert(texts(lines@).push(line@) =~= seq![line@]);
            }
        }
    }
    proof {
        texts(lines@).lemma_flatten_push(line@);
        assert(texts(lines@.push(line)) =~= texts(lines@).push(line@));
        assert forall|j: int| 0 <= j < texts(lines@.push(line)).len() implies indented(
            #[trigger] texts(lines@.push(line))[j],
        ) && columns_of(texts(lines@.push(line))[j]) <= LINE_WIDTH by {
            if j < lines@.len() {
                assert(texts(lines@.push(line))[j] == texts(lines@)[j]);
            }
        }
    }
    lines.push(line);
    lines
}

/// Lays an overview out in lines. The line breaker's lines are taken where
/// it can be given the text and they are acceptable; else the text is
/// filled into lines word by word.
pub fn overview_lines(overview: &str) -> (lines: Vec<String>)
    ensures
        laid_out(texts(lines@), overview@),
{
    if is_breakable(overview) {
        proof {
            reveal_strlit("  ");
        }
        let made = wrap(overview, LINE_WIDTH, "  ");
        match accept_lines(&made, overview) {
            Some(shown) => {
                proof {
                    lemma_acceptable_lines_lay_out(texts(shown@), overview@);
                }
                shown
            },
            None => fill_lines(overview),
        }
    } else {
        fill_lines(overview)
    }
}

} // verus!
