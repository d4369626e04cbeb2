//! A model of UTF-8 strings as character sequences with byte offsets, and
//! the few string operations of std that the editing logic relies on.

use vstd::prelude::*;

verus! {

/// Number of bytes that the UTF-8 encoding of `c` takes.
pub open spec fn char_width(c: char) -> nat {
    if (c as u32) < 0x80 {
        1
    } else if (c as u32) < 0x800 {
        2
    } else if (c as u32) < 0x10000 {
        3
    } else {
        4
    }
}

/// Number of bytes that the UTF-8 encoding of `s` takes.
pub open spec fn byte_len(s: Seq<char>) -> nat
    decreases s.len(),
{
    if s.len() == 0 {
        0
    } else {
        byte_len(s.drop_last()) + char_width(s.last())
    }
}

/// `b` is the byte offset at which some character of `s` starts, or the end of `s`.
pub open spec fn is_boundary(s: Seq<char>, b: int) -> bool {
    exists|k: int| 0 <= k <= s.len() && #[trigger] byte_len(s.take(k)) == b
}

/// The number of characters of `s` that lie before the byte offset `b`
/// (meaningful where `is_boundary(s, b)`).
pub open spec fn char_index(s: Seq<char>, b: int) -> int {
    choose|k: int| 0 <= k <= s.len() && #[trigger] byte_len(s.take(k)) == b
}

/// The characters that Unicode gives the property White_Space, which is
/// what `char::is_whitespace` and `str::trim` go by.
pub open spec fn is_white_space(c: char) -> bool {
    let u = c as u32;
    (0x9 <= u && u <= 0xd) || u == 0x20 || u == 0x85 || u == 0xa0 || u == 0x1680 || (0x2000 <= u
        && u <= 0x200a) || u == 0x2028 || u == 0x2029 || u == 0x202f || u == 0x205f || u == 0x3000
}

/// `s` without its leading white space.
pub open spec fn trim_start(s: Seq<char>) -> Seq<char>
    decreases s.len(),
{
    if s.len() > 0 && is_white_space(s[0]) {
        trim_start(s.drop_first())
    } else {
        s
    }
}

/// `s` without its trailing white space.
pub open spec fn trim_end(s: Seq<char>) -> Seq<char>
    decreases s.len(),
{
    if s.len() > 0 && is_white_space(s.last()) {
        trim_end(s.drop_last())
    } else {
        s
    }
}

/// `s` without leading and trailing white space.
pub open spec fn trim(s: Seq<char>) -> Seq<char> {
    trim_end(trim_start(s))
}

pub proof fn lemma_byte_len_take_step(s: Seq<char>, k: int)
    requires
        0 <= k < s.len(),
    ensures
        byte_len(s.take(k + 1)) == byte_len(s.take(k)) + char_width(s[k]),
{
    assert(s.take(k + 1).drop_last() =~= s.take(k));
}

pub proof fn lemma_byte_len_full(s: Seq<char>)
    ensures
        byte_len(s.take(s.len() as int)) == byte_len(s),
{
    assert(s.take(s.len() as int) =~= s);
}

/// Byte offsets of character positions grow strictly.
pub proof fn lemma_byte_len_prefix_strict(s: Seq<char>, j: int, k: int)
    requires
        0 <= j < k <= s.len(),
    ensures
        byte_len(s.take(j)) < byte_len(s.take(k)),
    decreases k - j,
{
    lemma_byte_len_take_step(s, k - 1);
    if j < k - 1 {
        lemma_byte_len_prefix_strict(s, j, k - 1);
    }
}

/// Every character position is a boundary, and it is the one that `char_index` finds.
pub proof fn lemma_char_index(s: Seq<char>, k: int)
    requires
        0 <= k <= s.len(),
    ensures
        is_boundary(s, byte_len(s.take(k)) as int),
        char_index(s, byte_len(s.take(k)) as int) == k,
{
    let b = byte_len(s.take(k)) as int;
    assert(is_boundary(s, b));
    let j = char_index(s, b);
    if j < k {
        lemma_byte_len_prefix_strict(s, j, k);
    } else if j > k {
        lemma_byte_len_prefix_strict(s, k, j);
    }
}

/// What `char_index` finds lies at offset `b`.
pub proof fn lemma_char_index_offset(s: Seq<char>, b: int)
    requires
        is_boundary(s, b),
    ensures
        0 <= char_index(s, b) <= s.len(),
        byte_len(s.take(char_index(s, b))) == b,
{
}

pub proof fn lemma_byte_len_concat(a: Seq<char>, b: Seq<char>)
    ensures
        byte_len(a + b) == byte_len(a) + byte_len(b),
    decreases b.len(),
{
    if b.len() == 0 {
        assert(a + b =~= a);
    } else {
        lemma_byte_len_concat(a, b.drop_last());
        assert((a + b).drop_last() =~= a + b.drop_last());
    }
}

pub proof fn lemma_byte_len_single(c: char)
    ensures
        byte_len(seq![c]) == char_width(c),
{
    assert(seq![c].drop_last() =~= Seq::<char>::empty());
    assert(byte_len(Seq::<char>::empty()) == 0);
    assert(seq![c].last() == c);
}

/// A prefix of `s` takes no more bytes than `s`.
pub proof fn lemma_byte_len_prefix_le(s: Seq<char>, k: int)
    requires
        0 <= k <= s.len(),
    ensures
        byte_len(s.take(k)) <= byte_len(s),
{
    lemma_byte_len_full(s);
    if k < s.len() {
        lemma_byte_len_prefix_strict(s, k, s.len() as int);
    }
}

/// Bytes of `s` split at character position `j`.
pub proof fn lemma_byte_len_split(s: Seq<char>, j: int)
    requires
        0 <= j <= s.len(),
    ensures
        byte_len(s) == byte_len(s.take(j)) + byte_len(s.skip(j)),
{
    assert(s.take(j) + s.skip(j) =~= s);
    lemma_byte_len_concat(s.take(j), s.skip(j));
}

/// Bytes of `s` with the character at position `j` taken out.
pub proof fn lemma_byte_len_remove(s: Seq<char>, j: int)
    requires
        0 <= j < s.len(),
    ensures
        byte_len(s.remove(j)) + char_width(s[j]) == byte_len(s),
{
    assert(s.remove(j) =~= s.take(j) + s.skip(j + 1));
    lemma_byte_len_concat(s.take(j), s.skip(j + 1));
    lemma_byte_len_split(s, j + 1);
    lemma_byte_len_take_step(s, j);
}

/// Bytes of `a + p + b`.
pub proof fn lemma_byte_len_concat3(a: Seq<char>, p: Seq<char>, b: Seq<char>)
    ensures
        byte_len(a + p + b) == byte_len(a) + byte_len(p) + byte_len(b),
{
    lemma_byte_len_concat(a + p, b);
    lemma_byte_len_concat(a, p);
}

/// The decimal digit `d` as a character.
pub open spec fn digit_char(d: nat) -> char {
    if d == 0 {
        '0'
    } else if d == 1 {
        '1'
    } else if d == 2 {
        '2'
    } else if d == 3 {
        '3'
    } else if d == 4 {
        '4'
    } else if d == 5 {
        '5'
    } else if d == 6 {
        '6'
    } else if d == 7 {
        '7'
    } else if d == 8 {
        '8'
    } else {
        '9'
    }
}

/// The decimal notation of `n`, without leading zeros.
pub open spec fn decimal(n: nat) -> Seq<char>
    decreases n,
{
    if n < 10 {
        seq![digit_char(n)]
    } else {
        decimal(n / 10) + seq![digit_char(n % 10)]
    }
}

/// `n` copies of `c`.
pub open spec fn repeated(c: char, n: nat) -> Seq<char> {
    Seq::new(n, |i: int| c)
}

/// The UTF-8 width of `c`, computed.
pub fn utf8_width(c: char) -> (w: usize)
    ensures
        w == char_width(c),
{
    let u = c as u32;
    if u < 0x80 {
        1
    } else if u < 0x800 {
        2
    } else if u < 0x10000 {
        3
    } else {
        4
    }
}

/// The character position of byte offset `b` in `s`, if a character starts there
/// (or `b` is the end of `s`).
pub fn char_index_at(s: &String, b: usize) -> (r: Option<usize>)
    ensures
        r is Some <==> is_boundary(s@, b as int),
        r matches Some(k) ==> k == char_index(s@, b as int),
{
    let total = string_byte_len(s);
    let st = s.as_str();
    let n = st.unicode_len();
    let mut i: usize = 0;
    let mut pos: usize = 0;
    proof {
        assert(s@.take(0) =~= Seq::<char>::empty());
        lemma_byte_len_full(s@);
    }
    while i < n
        invariant
            n == s@.len(),
            st@ == s@,
            total == byte_len(s@),
            byte_len(s@.take(n as int)) == total,
            0 <= i <= n,
            pos == byte_len(s@.take(i as int)),
            forall|j: int| 0 <= j < i ==> #[trigger] byte_len(s@.take(j)) < b,
        decreases n - i,
    {
        if pos == b {
            proof {
                lemma_char_index(s@, i as int);
            }
            return Some(i);
        }
        if pos > b {
            proof {
                assert forall|k: int| 0 <= k <= s@.len() implies #[trigger] byte_len(s@.take(k))
                    != b by {
                    if k > i {
                        lemma_byte_len_prefix_strict(s@, i as int, k);
                    }
                }
            }
            return None;
        }
        let c = st.get_char(i);
        proof {
            lemma_byte_len_take_step(s@, i as int);
            if i + 1 < n {
                lemma_byte_len_prefix_strict(s@, i + 1, n as int);
            }
        }
        pos = pos + utf8_width(c);
        i = i + 1;
    }
    if pos == b {
        proof {
            lemma_char_index(s@, n as int);
        }
        Some(n)
    } else {
        proof {
            assert forall|k: int| 0 <= k <= s@.len() implies #[trigger] byte_len(s@.take(k))
                != b by {
            }
        }
        None
    }
}

/// Whether the UTF-8 encoding of `s` takes at most `limit` bytes.
pub fn bytes_within(s: &str, limit: usize) -> (r: bool)
    ensures
        r == (byte_len(s@) <= limit),
{
    let n = s.unicode_len();
    let mut i: usize = 0;
    let mut pos: usize = 0;
    proof {
        assert(s@.take(0) =~= Seq::<char>::empty());
        lemma_byte_len_full(s@);
    }
    while i < n
        invariant
            n == s@.len(),
            0 <= i <= n,
            pos == byte_len(s@.take(i as int)),
            pos <= limit,
            byte_len(s@.take(n as int)) == byte_len(s@),
        decreases n - i,
    {
        let c = s.get_char(i);
        let w = utf8_width(c);
        proof {
            lemma_byte_len_take_step(s@, i as int);
        }
        if w > limit - pos {
            proof {
                if i + 1 < n {
                    lemma_byte_len_prefix_strict(s@, i + 1, n as int);
                }
            }
            return false;
        }
        pos = pos + w;
        i = i + 1;
    }
    true
}

/// Whether `s` begins with `p`.
pub fn has_prefix(s: &str, p: &str) -> (r: bool)
    ensures
        r == (p@.len() <= s@.len() && s@.take(p@.len() as int) == p@),
{
    let n = s.unicode_len();
    let m = p.unicode_len();
    if m > n {
        return false;
    }
    let mut i: usize = 0;
    while i < m
        invariant
            n == s@.len(),
            m == p@.len(),
            m <= n,
            0 <= i <= m,
            forall|j: int| 0 <= j < i ==> s@[j] == p@[j],
        decreases m - i,
    {
        if s.get_char(i) != p.get_char(i) {
            proof {
                assert(s@.take(m as int)[i as int] != p@[i as int]);
            }
            return false;
        }
        i = i + 1;
    }
    proof {
        assert(s@.take(m as int) =~= p@);
    }
    true
}

/// Whether the last character of `s` is `c`.
pub fn ends_with_char(s: &str, c: char) -> (r: bool)
    ensures
        r == (s@.len() > 0 && s@.last() == c),
{
    let n = s.unicode_len();
    if n == 0 {
        false
    } else {
        s.get_char(n - 1) == c
    }
}

/// The one-character text of the decimal digit `d`.
fn digit_text(d: usize) -> (t: &'static str)
    requires
        d < 10,
    ensures
        t@ == seq![digit_char(d as nat)],
{
    proof {
        reveal_strlit("0");
        reveal_strlit("1");
        reveal_strlit("2");
        reveal_strlit("3");
        reveal_strlit("4");
        reveal_strlit("5");
        reveal_strlit("6");
        reveal_strlit("7");
        reveal_strlit("8");
        reveal_strlit("9");
    }
    if d == 0 {
        "0"
    } else if d == 1 {
        "1"
    } else if d == 2 {
        "2"
    } else if d == 3 {
        "3"
    } else if d == 4 {
        "4"
    } else if d == 5 {
        "5"
    } else if d == 6 {
        "6"
    } else if d == 7 {
        "7"
    } else if d == 8 {
        "8"
    } else {
        "9"
    }
}

/// Appends the decimal notation of `n` to `s`.
pub fn push_decimal(s: &mut String, n: usize)
    ensures
        final(s)@ == old(s)@ + decimal(n as nat),
    decreases n,
{
    if n >= 10 {
        push_decimal(s, n / 10);
    }
    s.append(digit_text(n % 10));
    proof {
        assert(old(s)@ + decimal(n as nat) =~= if n >= 10 {
            old(s)@ + decimal((n / 10) as nat) + seq![digit_char((n % 10) as nat)]
        } else {
            old(s)@ + seq![digit_char((n % 10) as nat)]
        });
    }
}

/// A string of `n` copies of `c`, where `c` is given as its one-character text.
pub fn repeat_text(piece: &str, n: usize) -> (r: String)
    requires
        piece@.len() == 1,
    ensures
        r@ == repeated(piece@[0], n as nat),
{
    let mut r = String::new();
    let mut i: usize = 0;
    while i < n
        invariant
            piece@.len() == 1,
            0 <= i <= n,
            r@ == repeated(piece@[0], i as nat),
        decreases n - i,
    {
        r.append(piece);
        i = i + 1;
        proof {
            assert(r@ =~= repeated(piece@[0], i as nat));
        }
    }
    r
}

/// Byte length of `s` as `String::len` reports it.
#[verifier::external_body]
pub(crate) fn string_byte_len(s: &String) -> (n: usize)
    ensures
        n == byte_len(s@),
{
    s.len()
}

/// `str::trim`: the slice without leading and trailing white space.
#[verifier::external_body]
pub(crate) fn trimmed(s: &str) -> (r: &str)
    ensures
        r@ == trim(s@),
{
    s.trim()
}

/// `String::insert`: puts `c` at byte offset `idx`, which must start a character
/// or be the end (it panics elsewhere, and where the new length would exceed `isize::MAX`).
#[verifier::external_body]
pub(crate) fn string_insert(s: &mut String, idx: usize, c: char)
    requires
        is_boundary(old(s)@, idx as int),
        byte_len(old(s)@) + char_width(c) <= isize::MAX,
    ensures
        final(s)@ == old(s)@.take(char_index(old(s)@, idx as int)) + seq![c] + old(s)@.skip(
            char_index(old(s)@, idx as int),
        ),
{
    s.insert(idx, c);
}

/// `String::insert_str`: puts `t` at byte offset `idx`, which must start a character
/// or be the end (it panics elsewhere, and where the new length would exceed `isize::MAX`).
#[verifier::external_body]
pub(crate) fn string_insert_str(s: &mut String, idx: usize, t: &str)
    requires
        is_boundary(old(s)@, idx as int),
        byte_len(old(s)@) + byte_len(t@) <= isize::MAX,
    ensures
        final(s)@ == old(s)@.take(char_index(old(s)@, idx as int)) + t@ + old(s)@.skip(
            char_index(old(s)@, idx as int),
        ),
{
    s.insert_str(idx, t);
}

/// `String::remove`: takes out the character that starts at byte offset `idx`
/// (it panics where no character starts there).
#[verifier::external_body]
pub(crate) fn string_remove(s: &mut String, idx: usize) -> (c: char)
    requires
        is_boundary(old(s)@, idx as int),
        char_index(old(s)@, idx as int) < old(s)@.len(),
    ensures
        c == old(s)@[char_index(old(s)@, idx as int)],
        final(s)@ == old(s)@.remove(char_index(old(s)@, idx as int)),
{
    s.remove(idx)
}

} // verus!
