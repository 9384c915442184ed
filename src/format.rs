//! Rendering of counts as fixed-width, right-aligned decimal fields.

use vstd::prelude::*;
use vstd::string::StringExecFns;
use crate::config::Config;
use crate::counts::FileInfo;

verus! {

/// The width that each shown field is padded to.
pub const FIELD_WIDTH: usize = 8;

/// The character of the decimal digit `d`.
pub open spec fn digit_char(d: nat) -> char
    recommends
        d < 10,
{
    seq!['0', '1', '2', '3', '4', '5', '6', '7', '8', '9'][d as int]
}

/// The decimal rendering of `n`, without leading zeros.
pub open spec fn decimal(n: nat) -> Seq<char>
    decreases n,
{
    if n < 10 {
        seq![digit_char(n)]
    } else {
        decimal(n / 10).push(digit_char(n % 10))
    }
}

/// `k` spaces.
pub open spec fn spaces(k: nat) -> Seq<char> {
    Seq::new(k, |_i: int| ' ')
}

/// `s` with spaces in front of it up to `width` characters; `s` itself
/// where it is already that long.
pub open spec fn pad_left(s: Seq<char>, width: nat) -> Seq<char> {
    if s.len() >= width {
        s
    } else {
        spaces((width - s.len()) as nat) + s
    }
}

/// A shown field: `value` right-aligned in `FIELD_WIDTH` characters; a
/// hidden field: nothing.
pub open spec fn field_spec(value: nat, show: bool) -> Seq<char> {
    if show {
        pad_left(decimal(value), FIELD_WIDTH as nat)
    } else {
        Seq::empty()
    }
}

fn digit_str(d: usize) -> (r: &'static str)
    requires
        d < 10,
    ensures
        r@ == seq![digit_char(d as nat)],
{
    if d == 0 {
        proof { reveal_strlit("0"); }
        "0"
    } else if d == 1 {
        proof { reveal_strlit("1"); }
        "1"
    } else if d == 2 {
        proof { reveal_strlit("2"); }
        "2"
    } else if d == 3 {
        proof { reveal_strlit("3"); }
        "3"
    } else if d == 4 {
        proof { reveal_strlit("4"); }
        "4"
    } else if d == 5 {
        proof { reveal_strlit("5"); }
        "5"
    } else if d == 6 {
        proof { reveal_strlit("6"); }
        "6"
    } else if d == 7 {
        proof { reveal_strlit("7"); }
        "7"
    } else if d == 8 {
        proof { reveal_strlit("8"); }
        "8"
    } else {
        proof { reveal_strlit("9"); }
        "9"
    }
}

proof fn lemma_decimal_len(n: nat)
    ensures
        decimal(n).len() <= if n == 0 {
            1
        } else {
            n
        },
    decreases n,
{
    if n >= 10 {
        lemma_decimal_len(n / 10);
    }
}

/// The decimal digits of `value`, and how many there are.
fn decimal_string(value: usize) -> (r: (String, usize))
    ensures
        r.0@ == decimal(value as nat),
        r.1 == r.0@.len(),
{
    proof {
        lemma_decimal_len(value as nat);
    }
    let mut s = digit_str(value % 10).to_owned();
    let mut count: usize = 1;
    let mut n = value / 10;
    while n > 0
        invariant
            count == s@.len(),
            decimal(value as nat).len() <= usize::MAX,
            n > 0 ==> decimal(value as nat) == decimal(n as nat) + s@,
            n == 0 ==> decimal(value as nat) == s@,
        decreases n,
    {
        let ghost old_s = s@;
        let digit = digit_str(n % 10).to_owned();
        s = digit.concat(s.as_str());
        proof {
            if n >= 10 {
                assert(decimal(n as nat) == decimal((n / 10) as nat).push(digit_char((n % 10) as nat)));
                assert(decimal(n as nat) + old_s == decimal((n / 10) as nat) + s@);
            } else {
                assert(decimal(n as nat) + old_s == s@);
            }
        }
        count = count + 1;
        n = n / 10;
    }
    (s, count)
}

/// `value` right-aligned in a field of `FIELD_WIDTH` characters when `show`
/// holds, and the empty string when it does not.
pub fn format_field(value: usize, show: bool) -> (r: String)
    ensures
        r@ == field_spec(value as nat, show),
        !show ==> r@.len() == 0,
        show ==> r@.len() == if decimal(value as nat).len() >= FIELD_WIDTH {
            decimal(value as nat).len()
        } else {
            FIELD_WIDTH as nat
        },
{
    if !show {
        return String::new();
    }
    let (digits, count) = decimal_string(value);
    let ghost d = digits@;
    let mut s = digits;
    let mut width = count;
    while width < FIELD_WIDTH
        invariant
            width == s@.len(),
            count == d.len(),
            count <= width,
            width <= FIELD_WIDTH || width == count,
            s@ == spaces((width - count) as nat) + d,
        decreases FIELD_WIDTH - width,
    {
        proof {
            reveal_strlit(" ");
        }
        let ghost old_s = s@;
        s = " ".to_owned().concat(s.as_str());
        assert(s@ == spaces((width + 1 - count) as nat) + d);
        width = width + 1;
    }
    if count >= FIELD_WIDTH {
        assert(spaces(0) + d =~= d);
    }
    assert(s@ == pad_left(d, FIELD_WIDTH as nat));
    s
}

/// A record's shown fields, in the order lines, words, bytes, characters,
/// followed by `label`.
pub open spec fn line_spec(info: FileInfo, config: Config, label: Seq<char>) -> Seq<char> {
    field_spec(info.line_count as nat, config.lines) + field_spec(info.word_count as nat, config.words)
        + field_spec(info.byte_size as nat, config.bytes) + field_spec(
        info.char_count as nat,
        config.chars,
    ) + label
}

/// Renders `info` under the field visibility of `config`, then `label`.
pub fn format_line(info: &FileInfo, config: &Config, label: &str) -> (r: String)
    ensures
        r@ == line_spec(*info, *config, label@),
{
    let s = format_field(info.line_count, config.lines);
    let s = s.concat(format_field(info.word_count, config.words).as_str());
    let s = s.concat(format_field(info.byte_size, config.bytes).as_str());
    let s = s.concat(format_field(info.char_count, config.chars).as_str());
    s.concat(label)
}

} // verus!
