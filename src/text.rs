//! What a line, a word and a character are, and the counter that derives
//! all four counts of a text in one pass.

use vstd::prelude::*;
use vstd::utf8::encode_utf8;
use crate::counts::FileInfo;

verus! {

/// Unicode's `White_Space` property: the characters that separate words.
pub open spec fn is_white_space_spec(c: char) -> bool {
    let u = c as u32;
    (0x09 <= u && u <= 0x0D) || u == 0x20 || u == 0x85 || u == 0xA0 || u == 0x1680
        || (0x2000 <= u && u <= 0x200A) || u == 0x2028 || u == 0x2029 || u == 0x202F
        || u == 0x205F || u == 0x3000
}

/// How many `'\n'` characters `s` holds.
pub open spec fn newline_count(s: Seq<char>) -> nat
    decreases s.len(),
{
    if s.len() == 0 {
        0
    } else {
        newline_count(s.drop_last()) + if s.last() == '\n' {
            1nat
        } else {
            0nat
        }
    }
}

/// The number of lines of `s`: one per line terminator, and one more for a
/// final fragment that no terminator closes.
pub open spec fn line_count_spec(s: Seq<char>) -> nat {
    newline_count(s) + if s.len() > 0 && s.last() != '\n' {
        1nat
    } else {
        0nat
    }
}

/// Whether a word begins at position `i` of `s`: a character that is not
/// white space, at the start or after white space.
pub open spec fn starts_word(s: Seq<char>, i: int) -> bool {
    !is_white_space_spec(s[i]) && (i == 0 || is_white_space_spec(s[i - 1]))
}

/// The number of words of `s`: of the positions where a word begins.
pub open spec fn word_count_spec(s: Seq<char>) -> nat
    decreases s.len(),
{
    if s.len() == 0 {
        0
    } else {
        word_count_spec(s.drop_last()) + if starts_word(s, s.len() - 1) {
            1nat
        } else {
            0nat
        }
    }
}

/// The pieces of `s` between single white-space characters, empty pieces
/// included.
pub open spec fn split_on_white_space(s: Seq<char>) -> Seq<Seq<char>>
    decreases s.len(),
{
    if s.len() == 0 {
        seq![Seq::<char>::empty()]
    } else {
        let pieces = split_on_white_space(s.drop_last());
        if is_white_space_spec(s.last()) {
            pieces.push(Seq::<char>::empty())
        } else {
            pieces.update(pieces.len() - 1, pieces.last().push(s.last()))
        }
    }
}

/// Whether a piece is kept as a token.
pub open spec fn nonempty_piece() -> spec_fn(Seq<char>) -> bool {
    |w: Seq<char>| w.len() > 0
}

/// The non-empty pieces of `s` between runs of white space.
pub open spec fn tokens(s: Seq<char>) -> Seq<Seq<char>> {
    split_on_white_space(s).filter(nonempty_piece())
}

/// A text with no line terminator has one line if it is non-empty, and
/// none if it is empty.
pub proof fn lemma_line_count_without_terminator(s: Seq<char>)
    requires
        forall|i: int| 0 <= i < s.len() ==> s[i] != '\n',
    ensures
        line_count_spec(s) == if s.len() > 0 {
            1nat
        } else {
            0nat
        },
{
    lemma_no_newlines(s);
}

proof fn lemma_no_newlines(s: Seq<char>)
    requires
        forall|i: int| 0 <= i < s.len() ==> s[i] != '\n',
    ensures
        newline_count(s) == 0,
    decreases s.len(),
{
    if s.len() > 0 {
        lemma_no_newlines(s.drop_last());
    }
}

proof fn lemma_split_last_piece(s: Seq<char>)
    ensures
        split_on_white_space(s).len() >= 1,
        (split_on_white_space(s).last().len() == 0) <==> (s.len() == 0 || is_white_space_spec(
            s.last(),
        )),
    decreases s.len(),
{
    if s.len() > 0 {
        lemma_split_last_piece(s.drop_last());
    }
}

/// The word count of a text is the number of tokens that splitting it on
/// runs of white space gives, empty tokens discarded.
pub proof fn lemma_word_count_is_token_count(s: Seq<char>)
    ensures
        word_count_spec(s) == tokens(s).len(),
    decreases s.len(),
{
    reveal(Seq::filter);
    let nonempty = nonempty_piece();
    if s.len() == 0 {
        let single = seq![Seq::<char>::empty()];
        assert(single.drop_last().filter(nonempty).len() == 0);
        assert(tokens(s) == single.filter(nonempty));
    } else {
        let t = s.drop_last();
        lemma_word_count_is_token_count(t);
        lemma_split_last_piece(t);
        let pieces = split_on_white_space(t);
        if is_white_space_spec(s.last()) {
            let pushed = pieces.push(Seq::<char>::empty());
            assert(pushed.drop_last() == pieces);
            assert(pushed.filter(nonempty) == pieces.filter(nonempty));
            assert(tokens(s) == pushed.filter(nonempty));
        } else {
            let grown = pieces.last().push(s.last());
            let updated = pieces.update(pieces.len() - 1, grown);
            assert(updated.drop_last() == pieces.drop_last());
            assert(updated.last() == grown);
            assert(updated.filter(nonempty) == pieces.drop_last().filter(nonempty).push(grown));
            assert(pieces.filter(nonempty).len() == pieces.drop_last().filter(nonempty).len() + if pieces.last().len() > 0 {
                1int
            } else {
                0int
            });
            assert(tokens(s) == updated.filter(nonempty));
            if s.len() > 1 {
                assert(t.last() == s[s.len() - 2]);
            }
        }
    }
}

/// The four counts of the text `s`.
pub open spec fn counts_of(s: Seq<char>) -> FileInfo {
    FileInfo {
        line_count: line_count_spec(s) as usize,
        word_count: word_count_spec(s) as usize,
        char_count: s.len() as usize,
        byte_size: encode_utf8(s).len() as usize,
    }
}

/// Whether `c` is white space in Unicode's sense.
pub fn is_white_space(c: char) -> (r: bool)
    ensures
        r == is_white_space_spec(c),
{
    let u = c as u32;
    (0x09 <= u && u <= 0x0D) || u == 0x20 || u == 0x85 || u == 0xA0 || u == 0x1680
        || (0x2000 <= u && u <= 0x200A) || u == 0x2028 || u == 0x2029 || u == 0x202F
        || u == 0x205F || u == 0x3000
}

proof fn lemma_encode_utf8_len(s: Seq<char>)
    ensures
        encode_utf8(s).len() >= s.len(),
    decreases s.len(),
{
    if s.len() > 0 {
        lemma_encode_utf8_len(s.drop_first());
    }
}

proof fn lemma_counts_bounded(s: Seq<char>)
    ensures
        line_count_spec(s) <= s.len(),
        word_count_spec(s) <= s.len(),
    decreases s.len(),
{
    if s.len() > 0 {
        lemma_counts_bounded(s.drop_last());
    }
}

/// Counts the lines, words, characters and bytes of `content`.
pub fn count(content: &str) -> (r: FileInfo)
    ensures
        r.line_count == line_count_spec(content@),
        r.word_count == word_count_spec(content@),
        r.char_count == content@.len(),
        r.byte_size == encode_utf8(content@).len(),
        r == counts_of(content@),
{
    let byte_size = content.as_bytes().len();
    proof {
        lemma_encode_utf8_len(content@);
    }
    let mut newlines: usize = 0;
    let mut words: usize = 0;
    let mut chars: usize = 0;
    let mut after_space = true;
    let mut after_newline = true;
    for c in it: content.chars()
        invariant
            it.seq() == content@,
            content@.len() <= usize::MAX,
            chars == it.index(),
            newlines == newline_count(content@.take(chars as int)),
            words == word_count_spec(content@.take(chars as int)),
            after_space == (chars == 0 || is_white_space_spec(content@[chars - 1])),
            after_newline == (chars == 0 || content@[chars - 1] == '\n'),
    {
        let ghost prefix = content@.take(chars as int);
        let ghost next = content@.take(chars + 1);
        assert(next.drop_last() == prefix);
        proof {
            lemma_counts_bounded(prefix);
        }
        let space = is_white_space(c);
        if !space && after_space {
            words = words + 1;
        }
        if c == '\n' {
            newlines = newlines + 1;
        }
        after_space = space;
        after_newline = c == '\n';
        chars = chars + 1;
    }
    assert(content@.take(chars as int) == content@);
    proof {
        lemma_counts_bounded(content@);
    }
    let lines = if after_newline {
        newlines
    } else {
        newlines + 1
    };
    FileInfo { line_count: lines, word_count: words, char_count: chars, byte_size }
}

} // verus!
