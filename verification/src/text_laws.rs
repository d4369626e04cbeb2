//! What the text model and the text field edits mean, stated without the
//! definitions they are built from: byte lengths agree with vstd's UTF-8
//! encoding, decimal notation denotes its number, trimming removes exactly
//! the outer white space, and each key edits the field at the cursor.

use vstd::prelude::*;
use vstd::utf8::{encode_utf8, encode_scalar, char_is_scalar};
use crate::text::{
    byte_len, char_index, char_width, decimal, is_white_space, lemma_byte_len_concat,
    lemma_byte_len_single, lemma_char_index, trim, trim_end, trim_start,
};
use crate::input::{Key, KeyInput, TextView, edit_text, insert_text, types_char};

verus! {

/// The number of bytes that `char_width` gives a character is the length of
/// its UTF-8 encoding as vstd defines it.
pub proof fn lemma_char_width_is_utf8_width(c: char)
    ensures
        char_width(c) == encode_scalar(c as u32).len(),
{
    char_is_scalar(c);
}

/// `byte_len` is the length of the UTF-8 encoding as vstd defines it.
pub proof fn lemma_byte_len_is_utf8_length(s: Seq<char>)
    ensures
        byte_len(s) == encode_utf8(s).len(),
    decreases s.len(),
{
    if s.len() > 0 {
        lemma_byte_len_is_utf8_length(s.drop_first());
        lemma_char_width_is_utf8_width(s[0]);
        assert(s =~= seq![s[0]] + s.drop_first());
        lemma_byte_len_concat(seq![s[0]], s.drop_first());
        lemma_byte_len_single(s[0]);
    }
}

/// The number that a decimal digit character stands for.
pub open spec fn digit_value(c: char) -> int {
    (c as u32) - ('0' as u32)
}

/// The number that a string of decimal digits stands for.
pub open spec fn decimal_value(s: Seq<char>) -> int
    decreases s.len(),
{
    if s.len() == 0 {
        0
    } else {
        decimal_value(s.drop_last()) * 10 + digit_value(s.last())
    }
}

/// Each digit character stands for its digit.
pub proof fn lemma_digit_char(d: nat)
    requires
        d < 10,
    ensures
        digit_value(crate::text::digit_char(d)) == d,
        '0' <= crate::text::digit_char(d) <= '9',
        d != 0 ==> crate::text::digit_char(d) != '0',
{
}

/// `decimal(n)` is made of digits, has no leading zero, and stands for `n`.
pub proof fn lemma_decimal_denotes(n: nat)
    ensures
        decimal(n).len() > 0,
        forall|i: int| 0 <= i < decimal(n).len() ==> '0' <= #[trigger] decimal(n)[i] <= '9',
        decimal(n)[0] != '0' || n == 0,
        decimal_value(decimal(n)) == n,
    decreases n,
{
    if n >= 10 {
        lemma_decimal_denotes(n / 10);
        lemma_digit_char(n % 10);
        let s = decimal(n);
        assert(s.drop_last() =~= decimal(n / 10));
        assert((n / 10) * 10 + n % 10 == n) by (nonlinear_arith);
        assert(s[0] == decimal(n / 10)[0]);
    } else {
        lemma_digit_char(n);
        let s = decimal(n);
        assert(s.drop_last() =~= Seq::<char>::empty());
        assert(decimal_value(Seq::<char>::empty()) == 0);
    }
}

/// `trim_start(s)` drops exactly the leading white space of `s`.
pub proof fn lemma_trim_start_drops_leading_space(s: Seq<char>)
    ensures
        exists|i: int|
            0 <= i <= s.len() && trim_start(s) == s.skip(i) && (forall|k: int|
                0 <= k < i ==> is_white_space(#[trigger] s[k])) && (i < s.len()
                ==> !is_white_space(s[i])),
    decreases s.len(),
{
    if s.len() > 0 && is_white_space(s[0]) {
        lemma_trim_start_drops_leading_space(s.drop_first());
        let i = choose|i: int|
            0 <= i <= s.drop_first().len() && trim_start(s.drop_first()) == s.drop_first().skip(i)
                && (forall|k: int| 0 <= k < i ==> is_white_space(#[trigger] s.drop_first()[k]))
                && (i < s.drop_first().len() ==> !is_white_space(s.drop_first()[i]));
        assert(s.drop_first().skip(i) =~= s.skip(i + 1));
        assert forall|k: int| 0 <= k < i + 1 implies is_white_space(#[trigger] s[k]) by {
            if k > 0 {
                assert(s[k] == s.drop_first()[k - 1]);
            }
        }
    } else {
        assert(s.skip(0) =~= s);
    }
}

/// `trim_end(s)` drops exactly the trailing white space of `s`.
pub proof fn lemma_trim_end_drops_trailing_space(s: Seq<char>)
    ensures
        exists|j: int|
            0 <= j <= s.len() && trim_end(s) == s.take(j) && (forall|k: int|
                j <= k < s.len() ==> is_white_space(#[trigger] s[k])) && (j > 0
                ==> !is_white_space(s[j - 1])),
    decreases s.len(),
{
    if s.len() > 0 && is_white_space(s.last()) {
        lemma_trim_end_drops_trailing_space(s.drop_last());
        let j = choose|j: int|
            0 <= j <= s.drop_last().len() && trim_end(s.drop_last()) == s.drop_last().take(j)
                && (forall|k: int|
                j <= k < s.drop_last().len() ==> is_white_space(#[trigger] s.drop_last()[k]))
                && (j > 0 ==> !is_white_space(s.drop_last()[j - 1]));
        assert(s.drop_last().take(j) =~= s.take(j));
        assert forall|k: int| j <= k < s.len() implies is_white_space(#[trigger] s[k]) by {
            if k < s.len() - 1 {
                assert(s[k] == s.drop_last()[k]);
            }
        }
    } else {
        assert(s.take(s.len() as int) =~= s);
    }
}

/// Trimming keeps the part of `s` between its leading and its trailing white
/// space: a contiguous piece of `s`, with only white space outside it, that
/// neither begins nor ends with white space.
pub proof fn lemma_trim_keeps_inner_text(s: Seq<char>)
    ensures
        exists|i: int, j: int|
            0 <= i <= j <= s.len() && trim(s) == s.subrange(i, j) && (forall|k: int|
                0 <= k < i ==> is_white_space(#[trigger] s[k])) && (forall|k: int|
                j <= k < s.len() ==> is_white_space(#[trigger] s[k])) && (i < j ==> (
            !is_white_space(s[i]) && !is_white_space(s[j - 1]))),
{
    lemma_trim_start_drops_leading_space(s);
    let i = choose|i: int|
        0 <= i <= s.len() && trim_start(s) == s.skip(i) && (forall|k: int|
            0 <= k < i ==> is_white_space(#[trigger] s[k])) && (i < s.len() ==> !is_white_space(
            s[i],
        ));
    let u = s.skip(i);
    lemma_trim_end_drops_trailing_space(u);
    let j = choose|j: int|
        0 <= j <= u.len() && trim_end(u) == u.take(j) && (forall|k: int|
            j <= k < u.len() ==> is_white_space(#[trigger] u[k])) && (j > 0 ==> !is_white_space(
            u[j - 1],
        ));
    assert(u.take(j) =~= s.subrange(i, i + j));
    assert forall|k: int| i + j <= k < s.len() implies is_white_space(#[trigger] s[k]) by {
        assert(s[k] == u[k - i]);
    }
    if j > 0 {
        assert(s[i] == u[0]);
        assert(s[i + j - 1] == u[j - 1]);
    }
    assert(exists|a: int, b: int|
        0 <= a <= b <= s.len() && trim(s) == s.subrange(a, b) && (forall|k: int|
            0 <= k < a ==> is_white_space(#[trigger] s[k])) && (forall|k: int|
            b <= k < s.len() ==> is_white_space(#[trigger] s[k])) && (a < b ==> (!is_white_space(
            s[a],
        ) && !is_white_space(s[b - 1])))) by {
        assert(trim(s) == s.subrange(i, i + j));
    }
}

/// Typing a character puts it at the cursor's character position `j` and
/// moves the cursor one byte on; the rest of the text is kept on both sides.
pub proof fn lemma_typing_inserts_at_cursor(t: TextView, k: KeyInput, j: int)
    requires
        types_char(k),
        0 <= j <= t.text.len(),
        byte_len(t.text.take(j)) == t.cursor,
    ensures
        edit_text(t, k) == (TextView {
            text: t.text.take(j) + seq![k.key->Char_0] + t.text.skip(j),
            cursor: t.cursor + 1,
        }),
{
    lemma_char_index(t.text, j);
}

/// Backspace moves the cursor one byte back and takes out the character that
/// starts there; at the start of the field it changes nothing.
pub proof fn lemma_backspace_removes_before_cursor(t: TextView, k: KeyInput, j: int)
    requires
        k.key is Backspace,
        0 <= j < t.text.len(),
        byte_len(t.text.take(j)) + 1 == t.cursor,
    ensures
        edit_text(t, k) == (TextView {
            text: t.text.take(j) + t.text.skip(j + 1),
            cursor: t.cursor - 1,
        }),
{
    lemma_char_index(t.text, j);
    assert(t.text.remove(j) =~= t.text.take(j) + t.text.skip(j + 1));
}

/// Backspace at the start of the field changes nothing.
pub proof fn lemma_backspace_at_start(t: TextView, k: KeyInput)
    requires
        k.key is Backspace,
        t.cursor == 0,
    ensures
        edit_text(t, k) == t,
{
}

/// Delete takes out the character that starts at the cursor and leaves the
/// cursor where it is; at or past the end of the text it changes nothing.
pub proof fn lemma_delete_removes_at_cursor(t: TextView, k: KeyInput, j: int)
    requires
        k.key is Delete,
        0 <= j < t.text.len(),
        byte_len(t.text.take(j)) == t.cursor,
    ensures
        edit_text(t, k) == (TextView { text: t.text.take(j) + t.text.skip(j + 1), cursor: t.cursor }),
{
    lemma_char_index(t.text, j);
    crate::text::lemma_byte_len_take_step(t.text, j);
    crate::text::lemma_byte_len_prefix_le(t.text, j + 1);
    assert(t.text.remove(j) =~= t.text.take(j) + t.text.skip(j + 1));
}

/// Delete at or past the end of the text changes nothing.
pub proof fn lemma_delete_at_end(t: TextView, k: KeyInput)
    requires
        k.key is Delete,
        t.cursor >= byte_len(t.text),
    ensures
        edit_text(t, k) == t,
{
}

/// The cursor keys move the cursor by one byte within the text, or to its
/// ends, and keep the text.
pub proof fn lemma_cursor_keys(t: TextView, k: KeyInput)
    requires
        0 <= t.cursor <= byte_len(t.text),
    ensures
        k.key is Left ==> edit_text(t, k) == (TextView {
            text: t.text,
            cursor: if t.cursor == 0 {
                0
            } else {
                t.cursor - 1
            },
        }),
        k.key is Right ==> edit_text(t, k) == (TextView {
            text: t.text,
            cursor: if t.cursor == byte_len(t.text) {
                t.cursor
            } else {
                t.cursor + 1
            },
        }),
        k.key is Home ==> edit_text(t, k) == (TextView { text: t.text, cursor: 0 }),
        k.key is End ==> edit_text(t, k) == (TextView {
            text: t.text,
            cursor: byte_len(t.text) as int,
        }),
{
}

/// Keys that neither type, delete nor move the cursor leave the field as it is.
pub proof fn lemma_other_keys_keep_field(t: TextView, k: KeyInput)
    requires
        !types_char(k),
        !(k.key is Backspace || k.key is Delete || k.key is Left || k.key is Right
            || k.key is Home || k.key is End),
    ensures
        edit_text(t, k) == t,
{
}

/// Inserting `p` at the cursor's character position `j` keeps the text on
/// both sides and moves the cursor past the bytes of `p`.
pub proof fn lemma_insert_at_cursor(t: TextView, p: Seq<char>, j: int)
    requires
        0 <= j <= t.text.len(),
        byte_len(t.text.take(j)) == t.cursor,
    ensures
        insert_text(t, p) == (TextView {
            text: t.text.take(j) + p + t.text.skip(j),
            cursor: t.cursor + byte_len(p),
        }),
{
    lemma_char_index(t.text, j);
}

} // verus!
