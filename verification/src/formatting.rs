//! Message text without its in-band formatting.
//!
//! A chat message may carry formatting inside its text: single control
//! characters that switch a style (bold, italics, underline, ...) and two
//! colour markers that take arguments. A notification shows none of it: every
//! control character is dropped, and so are the arguments of a colour marker.
//!
//! * `\x03` may be followed by a colour number of one or two decimal digits,
//!   and that by a comma and a second number. A comma that no digit follows is
//!   text.
//! * `\x04` may be followed by a colour of six hexadecimal digits, and that by
//!   a comma and a second colour. Fewer than six digits are text.

use vstd::prelude::*;
use crate::text::chars_of;

verus! {

/// The marker that sets a colour by its number.
pub const CHAR_COLOR: char = '\x03';

/// The marker that sets a colour by its red, green and blue parts.
pub const CHAR_HEX_COLOR: char = '\x04';

/// The ASCII control characters: all below the space, and the delete
/// character. Every formatting marker is one of them.
pub open spec fn is_control(c: char) -> bool {
    c <= '\x1f' || c == '\x7f'
}

pub open spec fn is_dec_digit(c: char) -> bool {
    '0' <= c && c <= '9'
}

pub open spec fn is_hex_digit(c: char) -> bool {
    is_dec_digit(c) || ('a' <= c && c <= 'f') || ('A' <= c && c <= 'F')
}

/// How many characters the colour number at `i` takes: the one or two decimal
/// digits that stand there, 0 where none does.
pub open spec fn number_len(s: Seq<char>, i: int) -> int {
    if 0 <= i < s.len() && is_dec_digit(s[i]) {
        if i + 1 < s.len() && is_dec_digit(s[i + 1]) {
            2
        } else {
            1
        }
    } else {
        0
    }
}

/// How many characters at `i` are arguments of a `\x03` before them: a colour
/// number and, where a comma and a second number follow it, those too.
pub open spec fn color_args_len(s: Seq<char>, i: int) -> int {
    let fg = number_len(s, i);
    let bg = number_len(s, i + fg + 1);
    if fg > 0 && i + fg < s.len() && s[i + fg] == ',' && bg > 0 {
        fg + 1 + bg
    } else {
        fg
    }
}

/// Whether six hexadecimal digits stand at `i`.
pub open spec fn hex_color_at(s: Seq<char>, i: int) -> bool {
    &&& 0 <= i
    &&& i + 6 <= s.len()
    &&& is_hex_digit(s[i])
    &&& is_hex_digit(s[i + 1])
    &&& is_hex_digit(s[i + 2])
    &&& is_hex_digit(s[i + 3])
    &&& is_hex_digit(s[i + 4])
    &&& is_hex_digit(s[i + 5])
}

/// How many characters at `i` are arguments of a `\x04` before them: a colour
/// of six hexadecimal digits and, where a comma and a second colour follow it,
/// those too.
pub open spec fn hex_args_len(s: Seq<char>, i: int) -> int {
    if hex_color_at(s, i) {
        if i + 6 < s.len() && s[i + 6] == ',' && hex_color_at(s, i + 7) {
            13
        } else {
            6
        }
    } else {
        0
    }
}

/// The length of the control sequence that starts at `i`: a control character
/// with the arguments it takes. It is 0 where `s[i]` is text.
pub open spec fn control_len(s: Seq<char>, i: int) -> int {
    if !(0 <= i < s.len()) {
        0
    } else if s[i] == CHAR_COLOR {
        1 + color_args_len(s, i + 1)
    } else if s[i] == CHAR_HEX_COLOR {
        1 + hex_args_len(s, i + 1)
    } else if is_control(s[i]) {
        1
    } else {
        0
    }
}

/// The text of `s` from `i` on: its characters in order, without the control
/// sequences among them.
pub open spec fn stripped_from(s: Seq<char>, i: int) -> Seq<char>
    decreases s.len() - i,
{
    if !(0 <= i < s.len()) {
        Seq::empty()
    } else if control_len(s, i) > 0 {
        stripped_from(s, i + control_len(s, i))
    } else {
        seq![s[i]] + stripped_from(s, i + 1)
    }
}

/// The text of `s` without its control sequences.
pub open spec fn stripped(s: Seq<char>) -> Seq<char> {
    stripped_from(s, 0)
}

/// Whether no character of `s` is a control character.
pub open spec fn is_plain(s: Seq<char>) -> bool {
    forall|k: int| 0 <= k < s.len() ==> !is_control(#[trigger] s[k])
}

fn is_control_char(c: char) -> (r: bool)
    ensures
        r == is_control(c),
{
    c <= '\x1f' || c == '\x7f'
}

fn is_dec_digit_char(c: char) -> (r: bool)
    ensures
        r == is_dec_digit(c),
{
    '0' <= c && c <= '9'
}

fn is_hex_digit_char(c: char) -> (r: bool)
    ensures
        r == is_hex_digit(c),
{
    is_dec_digit_char(c) || ('a' <= c && c <= 'f') || ('A' <= c && c <= 'F')
}

fn number_len_at(chars: &Vec<char>, i: usize) -> (n: usize)
    requires
        i <= chars.len(),
    ensures
        n == number_len(chars@, i as int),
{
    if i < chars.len() && is_dec_digit_char(chars[i]) {
        if i + 1 < chars.len() && is_dec_digit_char(chars[i + 1]) {
            2
        } else {
            1
        }
    } else {
        0
    }
}

fn color_args_len_at(chars: &Vec<char>, i: usize) -> (n: usize)
    requires
        i <= chars.len(),
    ensures
        n == color_args_len(chars@, i as int),
        i + n <= chars.len(),
{
    let fg = number_len_at(chars, i);
    if fg > 0 && i + fg < chars.len() && chars[i + fg] == ',' {
        let bg = number_len_at(chars, i + fg + 1);
        if bg > 0 {
            fg + 1 + bg
        } else {
            fg
        }
    } else {
        fg
    }
}

fn hex_color_found_at(chars: &Vec<char>, i: usize) -> (r: bool)
    requires
        i <= chars.len(),
    ensures
        r == hex_color_at(chars@, i as int),
{
    if chars.len() - i < 6 {
        return false;
    }
    let mut k: usize = 0;
    while k < 6
        invariant
            k <= 6,
            i + 6 <= chars.len(),
            forall|j: int| i <= j < i + k ==> is_hex_digit(#[trigger] chars@[j]),
        decreases 6 - k,
    {
        if !is_hex_digit_char(chars[i + k]) {
            return false;
        }
        k += 1;
    }
    true
}

fn hex_args_len_at(chars: &Vec<char>, i: usize) -> (n: usize)
    requires
        i <= chars.len(),
    ensures
        n == hex_args_len(chars@, i as int),
        i + n <= chars.len(),
{
    if hex_color_found_at(chars, i) {
        if i + 6 < chars.len() && chars[i + 6] == ',' && hex_color_found_at(chars, i + 7) {
            13
        } else {
            6
        }
    } else {
        0
    }
}

fn control_len_at(chars: &Vec<char>, i: usize) -> (n: usize)
    requires
        i < chars.len(),
    ensures
        n == control_len(chars@, i as int),
        i + n <= chars.len(),
{
    let c = chars[i];
    if c == CHAR_COLOR {
        1 + color_args_len_at(chars, i + 1)
    } else if c == CHAR_HEX_COLOR {
        1 + hex_args_len_at(chars, i + 1)
    } else if is_control_char(c) {
        1
    } else {
        0
    }
}

/// Removes the control sequences from a message, and leaves its text.
pub fn strip_control_sequences(raw: &str) -> (clean: String)
    ensures
        clean@ == stripped(raw@),
{
    let chars = chars_of(raw);
    let mut clean = String::new();
    let mut i: usize = 0;
    while i < chars.len()
        invariant
            i <= chars.len(),
            clean@ + stripped_from(chars@, i as int) == stripped(chars@),
        decreases chars.len() - i,
    {
        let n = control_len_at(&chars, i);
        if n > 0 {
            i += n;
        } else {
            let ghost before = clean@;
            clean.push(chars[i]);
            assert(clean@ + stripped_from(chars@, i + 1) =~= before + (seq![chars@[i as int]]
                + stripped_from(chars@, i + 1)));
            i += 1;
        }
    }
    clean
}

proof fn lemma_stripped_from_is_plain(s: Seq<char>, i: int)
    ensures
        is_plain(stripped_from(s, i)),
    decreases s.len() - i,
{
    if 0 <= i < s.len() {
        if control_len(s, i) > 0 {
            lemma_stripped_from_is_plain(s, i + control_len(s, i));
        } else {
            lemma_stripped_from_is_plain(s, i + 1);
        }
    }
}

proof fn lemma_plain_from_is_unchanged(s: Seq<char>, i: int)
    requires
        is_plain(s),
        0 <= i <= s.len(),
    ensures
        stripped_from(s, i) == s.skip(i),
    decreases s.len() - i,
{
    if i < s.len() {
        lemma_plain_from_is_unchanged(s, i + 1);
        assert(!is_control(s[i]));
        assert(seq![s[i]] + s.skip(i + 1) =~= s.skip(i));
    }
}

/// The stripped text holds no control character.
pub proof fn lemma_stripped_is_plain(s: Seq<char>)
    ensures
        is_plain(stripped(s)),
{
    lemma_stripped_from_is_plain(s, 0);
}

/// Text without a control character is left as it is, whatever else it
/// holds: letters of any script, digits, commas.
pub proof fn lemma_plain_is_unchanged(s: Seq<char>)
    requires
        is_plain(s),
    ensures
        stripped(s) == s,
{
    lemma_plain_from_is_unchanged(s, 0);
}

/// Stripping is idempotent: to strip what was stripped changes nothing.
pub proof fn lemma_strip_is_idempotent(s: Seq<char>)
    ensures
        stripped(stripped(s)) == stripped(s),
{
    lemma_stripped_is_plain(s);
    lemma_plain_is_unchanged(stripped(s));
}

} // verus!
