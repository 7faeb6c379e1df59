//! Breaking a text into lines of a given width.

use vstd::prelude::*;
use vstd::string::{StrSliceExecFns, StringExecFns};

verus! {

/// Whether a character separates words: the white space of Unicode.
pub open spec fn is_space(c: char) -> bool {
    let code = c as u32;
    ||| 0x09 <= code <= 0x0d
    ||| code == 0x20
    ||| code == 0x85
    ||| code == 0xa0
    ||| code == 0x1680
    ||| 0x2000 <= code <= 0x200a
    ||| code == 0x2028
    ||| code == 0x2029
    ||| code == 0x202f
    ||| code == 0x205f
    ||| code == 0x3000
}

/// What becomes of the line `line` when the word `word` is put down: the
/// line that is thereby finished, if any, and the line that is then being
/// filled. A word joins the line behind a blank where the two together
/// have at most `width` characters; otherwise it begins a line of its own.
pub open spec fn put_down(line: Seq<char>, word: Seq<char>, width: nat) -> (Seq<Seq<char>>, Seq<char>) {
    if word.len() == 0 {
        (Seq::empty(), line)
    } else if line.len() == 0 {
        (Seq::empty(), word)
    } else if line.len() + 1 + word.len() <= width {
        (Seq::empty(), line + seq![' '] + word)
    } else {
        (seq![line], word)
    }
}

/// The lines that the rest of `text` from position `from` on gives, with
/// `line` being filled and `word` being read.
pub open spec fn lines_from(text: Seq<char>, from: int, line: Seq<char>, word: Seq<char>, width: nat) -> Seq<
    Seq<char>,
>
    decreases text.len() - from,
{
    if from < 0 || from >= text.len() {
        let (finished, last) = put_down(line, word, width);
        if last.len() == 0 {
            finished
        } else {
            finished.push(last)
        }
    } else if is_space(text[from]) {
        let (finished, next) = put_down(line, word, width);
        finished + lines_from(text, from + 1, next, Seq::empty(), width)
    } else {
        lines_from(text, from + 1, line, word.push(text[from]), width)
    }
}

/// `text` broken into lines: its words in order, separated by single
/// blanks, each line filled as far as `width` characters allow. A word
/// longer than `width` has a line to itself.
pub open spec fn wrapped(text: Seq<char>, width: nat) -> Seq<Seq<char>> {
    lines_from(text, 0, Seq::empty(), Seq::empty(), width)
}

/// The texts of a list of strings.
pub open spec fn texts(lines: Seq<String>) -> Seq<Seq<char>> {
    Seq::new(lines.len(), |i: int| lines[i]@)
}

/// Whether a character is white space.
pub fn is_whitespace(c: char) -> (space: bool)
    ensures
        space == is_space(c),
{
    let code: u32 = c as u32;
    (0x09 <= code && code <= 0x0d) || code == 0x20 || code == 0x85 || code == 0xa0 || code
        == 0x1680 || (0x2000 <= code && code <= 0x200a) || code == 0x2028 || code == 0x2029
        || code == 0x202f || code == 0x205f || code == 0x3000
}

/// Puts the word `piece` down: it joins `line`, or `line` is finished
/// and moves to `lines`, and the word begins the next.
fn put_word(lines: &mut Vec<String>, line: &mut String, piece: &str, max_width: usize)
    ensures
        texts(final(lines)@) == texts(old(lines)@) + put_down(
            old(line)@,
            piece@,
            max_width as nat,
        ).0,
        final(line)@ == put_down(old(line)@, piece@, max_width as nat).1,
{
    let ghost before = texts(lines@);
    let ghost filled = line@;
    let word_len = piece.unicode_len();
    let line_len = line.as_str().unicode_len();
    if word_len == 0 {
        assert(texts(lines@) =~= before + Seq::<Seq<char>>::empty());
    } else if line_len == 0 {
        *line = String::from_str(piece);
        assert(texts(lines@) =~= before + Seq::<Seq<char>>::empty());
    } else if word_len < max_width && line_len <= max_width - word_len - 1 {
        line.append(" ");
        line.append(piece);
        proof {
            reveal_strlit(" ");
            assert(" "@ =~= seq![' ']);
            assert(texts(lines@) =~= before + Seq::<Seq<char>>::empty());
        }
    } else {
        let mut full = String::from_str(piece);
        core::mem::swap(line, &mut full);
        lines.push(full);
        assert(texts(lines@) =~= before + seq![filled]);
    }
}

/// Breaks `text` into lines of at most `max_width` characters, at white
/// space only.
pub fn wrap_text(text: &str, max_width: usize) -> (lines: Vec<String>)
    ensures
        texts(lines@) == wrapped(text@, max_width as nat),
{
    let total = text.unicode_len();
    let mut lines: Vec<String> = Vec::new();
    let mut current_line = String::new();
    let mut word_start: usize = 0;
    let mut i: usize = 0;
    assert(texts(lines@) =~= Seq::<Seq<char>>::empty());
    assert(text@.subrange(0, 0) =~= Seq::<char>::empty());
    while i < total
        invariant
            total == text@.len(),
            word_start <= i <= total,
            texts(lines@) + lines_from(
                text@,
                i as int,
                current_line@,
                text@.subrange(word_start as int, i as int),
                max_width as nat,
            ) == wrapped(text@, max_width as nat),
        decreases total - i,
    {
        let c = text.get_char(i);
        let ghost word = text@.subrange(word_start as int, i as int);
        if is_whitespace(c) {
            let ghost before = texts(lines@);
            let ghost line = current_line@;
            let piece = text.substring_char(word_start, i);
            put_word(&mut lines, &mut current_line, piece, max_width);
            proof {
                let (finished, next) = put_down(line, word, max_width as nat);
                let rest = lines_from(text@, i + 1, next, Seq::empty(), max_width as nat);
                assert(text@.subrange(i + 1, i + 1) =~= Seq::<char>::empty());
                assert((before + finished) + rest =~= before + (finished + rest));
            }
            word_start = i + 1;
        } else {
            proof {
                assert(text@.subrange(word_start as int, i + 1) =~= word.push(text@[i as int]));
            }
        }
        i += 1;
    }
    let ghost before = texts(lines@);
    let piece = text.substring_char(word_start, i);
    put_word(&mut lines, &mut current_line, piece, max_width);
    let ghost middle = texts(lines@);
    let ghost last = current_line@;
    if current_line.as_str().unicode_len() > 0 {
        lines.push(current_line);
        assert(texts(lines@) =~= middle.push(last));
    }
    lines
}

} // verus!
