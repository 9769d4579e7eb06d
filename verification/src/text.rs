//! Character classes, decimal and hexadecimal formatting, integer parsing
//! and whitespace tokenisation over `Seq<char>` models of strings.

use vstd::prelude::*;

verus! {

/// Appends one character to a string (std `String::push`).
#[verifier::external_body]
pub(crate) fn push_char(s: &mut String, c: char)
    ensures
        final(s)@ == old(s)@.push(c),
{
    s.push(c)
}

/// Unicode `White_Space` property, as used by `char::is_whitespace`.
pub open spec fn is_whitespace(c: char) -> bool {
    let u = c as u32;
    ||| 0x09 <= u <= 0x0d
    ||| u == 0x20
    ||| u == 0x85
    ||| u == 0xa0
    ||| u == 0x1680
    ||| 0x2000 <= u <= 0x200a
    ||| u == 0x2028
    ||| u == 0x2029
    ||| u == 0x202f
    ||| u == 0x205f
    ||| u == 0x3000
}

/// Whether `c` is Unicode whitespace (`char::is_whitespace`).
pub fn char_is_whitespace(c: char) -> (b: bool)
    ensures
        b == is_whitespace(c),
{
    let u = c as u32;
    (0x09 <= u && u <= 0x0d) || u == 0x20 || u == 0x85 || u == 0xa0 || u == 0x1680 || (0x2000
        <= u && u <= 0x200a) || u == 0x2028 || u == 0x2029 || u == 0x202f || u == 0x205f || u
        == 0x3000
}

/// The ASCII digit for `d < 10`.
pub open spec fn digit_char(d: nat) -> char {
    ((d + 48) as u32) as char
}

/// Decimal representation of a natural number, without leading zeros.
pub open spec fn decimal(n: nat) -> Seq<char>
    decreases n,
{
    if n < 10 {
        seq![digit_char(n)]
    } else {
        decimal(n / 10).push(digit_char(n % 10))
    }
}

/// Decimal representation of an integer: a `-` sign before negative values.
pub open spec fn decimal_int(n: int) -> Seq<char> {
    if n < 0 {
        seq!['-'] + decimal((-n) as nat)
    } else {
        decimal(n as nat)
    }
}

/// The digit character of `d < 10` is an ASCII digit whose code is `48 + d`.
pub proof fn lemma_digit_char(d: nat)
    requires
        d < 10,
    ensures
        digit_char(d) as u32 == d + 48,
        is_ascii_digit(digit_char(d)),
{
}

fn digit(d: u64) -> (c: char)
    requires
        d < 10,
    ensures
        c == digit_char(d as nat),
{
    let b: u8 = (d as u8) + 48;
    b as char
}

/// Appends the decimal digits of `n`.
pub fn push_decimal(s: &mut String, n: u64)
    ensures
        final(s)@ == old(s)@ + decimal(n as nat),
    decreases n,
{
    if n >= 10 {
        push_decimal(s, n / 10);
    }
    let c = digit(n % 10);
    push_char(s, c);
    if n >= 10 {
        assert(decimal(n as nat) == decimal((n / 10) as nat).push(digit_char((n % 10) as nat)));
    } else {
        assert(decimal(n as nat) == seq![digit_char(n as nat)]);
    }
    assert(s@ =~= old(s)@ + decimal(n as nat));
}


/// Lower-case hexadecimal digit for `d < 16`.
pub open spec fn hex_digit_char(d: nat) -> char {
    if d < 10 {
        digit_char(d)
    } else {
        ((d - 10 + 97) as u32) as char
    }
}

/// Lower-case hexadecimal encoding, two digits per byte, most significant first.
pub open spec fn hex_lower(bytes: Seq<u8>) -> Seq<char>
    decreases bytes.len(),
{
    if bytes.len() == 0 {
        Seq::empty()
    } else {
        hex_lower(bytes.drop_last()) + seq![
            hex_digit_char((bytes.last() / 16) as nat),
            hex_digit_char((bytes.last() % 16) as nat),
        ]
    }
}

fn hex_digit(d: u8) -> (c: char)
    requires
        d < 16,
    ensures
        c == hex_digit_char(d as nat),
{
    if d < 10 {
        (d + 48) as char
    } else {
        (d - 10 + 97) as char
    }
}

/// Lower-case hexadecimal text of a byte sequence (the `{:02x}` format of each byte).
pub fn to_hex_lower(bytes: &[u8]) -> (s: String)
    ensures
        s@ == hex_lower(bytes@),
{
    let mut s = String::new();
    let mut i: usize = 0;
    while i < bytes.len()
        invariant
            i <= bytes@.len(),
            s@ == hex_lower(bytes@.take(i as int)),
        decreases bytes@.len() - i,
    {
        let b = bytes[i];
        push_char(&mut s, hex_digit(b / 16));
        push_char(&mut s, hex_digit(b % 16));
        assert(bytes@.take(i + 1).drop_last() =~= bytes@.take(i as int));
        i = i + 1;
    }
    assert(bytes@.take(i as int) =~= bytes@);
    s
}

/// Length of the run of non-whitespace characters at the start of `s`.
pub open spec fn word_len(s: Seq<char>) -> nat
    decreases s.len(),
{
    if s.len() == 0 || is_whitespace(s[0]) {
        0
    } else {
        1 + word_len(s.drop_first())
    }
}

/// The maximal runs of non-whitespace characters of `s`, in order
/// (`str::split_whitespace`).
pub open spec fn words(s: Seq<char>) -> Seq<Seq<char>>
    decreases s.len(),
{
    if s.len() == 0 {
        Seq::empty()
    } else if is_whitespace(s[0]) {
        words(s.drop_first())
    } else {
        let k = word_len(s);
        proof {
            lemma_word_len_bound(s);
        }
        seq![s.take(k as int)] + words(s.skip(k as int))
    }
}

/// A word is no longer than the text, and at least one character long where
/// the text starts with a non-whitespace character.
pub proof fn lemma_word_len_bound(s: Seq<char>)
    ensures
        word_len(s) <= s.len(),
        s.len() > 0 && !is_whitespace(s[0]) ==> word_len(s) >= 1,
    decreases s.len(),
{
    if s.len() > 0 && !is_whitespace(s[0]) {
        lemma_word_len_bound(s.drop_first());
    }
}

/// `word_len` is the first whitespace position, or the length.
proof fn lemma_word_len_is(s: Seq<char>, j: int)
    requires
        0 <= j <= s.len(),
        forall|k: int| 0 <= k < j ==> !is_whitespace(#[trigger] s[k]),
        j == s.len() || is_whitespace(s[j]),
    ensures
        word_len(s) == j,
    decreases j,
{
    if j > 0 {
        assert(!is_whitespace(s[0]));
        let t = s.drop_first();
        assert forall|k: int| 0 <= k < j - 1 implies !is_whitespace(#[trigger] t[k]) by {
            assert(t[k] == s[k + 1]);
        }
        if j < s.len() {
            assert(t[j - 1] == s[j]);
        }
        lemma_word_len_is(t, j - 1);
    }
}

/// Splits `s` at Unicode whitespace, dropping empty pieces
/// (`str::split_whitespace`).
pub fn split_whitespace(s: &str) -> (out: Vec<String>)
    ensures
        out@.len() == words(s@).len(),
        forall|i: int| 0 <= i < out@.len() ==> #[trigger] out@[i]@ == words(s@)[i],
{
    let n = s.unicode_len();
    let mut out: Vec<String> = Vec::new();
    let mut i: usize = 0;
    let ghost sv = s@;
    assert(sv.skip(0) =~= sv);
    while i < n
        invariant
            n == sv.len(),
            sv == s@,
            i <= n,
            out@.len() + words(sv.skip(i as int)).len() == words(sv).len(),
            forall|k: int| 0 <= k < out@.len() ==> #[trigger] out@[k]@ == words(sv)[k],
            forall|k: int|
                0 <= k < words(sv.skip(i as int)).len() ==> #[trigger] words(sv.skip(i as int))[k]
                    == words(sv)[out@.len() + k],
        decreases n - i,
    {
        let c = s.get_char(i);
        let ghost rest = sv.skip(i as int);
        assert(rest[0] == c);
        if char_is_whitespace(c) {
            assert(rest.drop_first() =~= sv.skip(i + 1));
            i = i + 1;
        } else {
            let mut j: usize = i + 1;
            while j < n && !char_is_whitespace(s.get_char(j))
                invariant
                    n == sv.len(),
                    sv == s@,
                    i < j <= n,
                    forall|k: int| i <= k < j ==> !is_whitespace(#[trigger] sv[k]),
                decreases n - j,
            {
                j = j + 1;
            }
            proof {
                assert forall|k: int| 0 <= k < j - i implies !is_whitespace(#[trigger] rest[k]) by {
                    assert(rest[k] == sv[i + k]);
                }
                if j < n {
                    assert(rest[j - i] == sv[j as int]);
                }
                lemma_word_len_is(rest, j - i);
                assert(rest.take((j - i) as int) =~= sv.subrange(i as int, j as int));
                assert(rest.skip((j - i) as int) =~= sv.skip(j as int));
                assert(words(rest) == seq![rest.take((j - i) as int)] + words(rest.skip((j - i) as int)));
            }
            let w = s.substring_char(i, j);
            let ws = String::from_str(w);
            let ghost old_out = out@;
            out.push(ws);
            proof {
                assert(words(sv)[old_out.len() as int] == words(rest)[0]);
                assert forall|k: int| 0 <= k < out@.len() implies #[trigger] out@[k]@ == words(sv)[k] by {
                    if k < old_out.len() {
                        assert(out@[k] == old_out[k]);
                    }
                }
                assert forall|k: int| 0 <= k < words(sv.skip(j as int)).len() implies
                    #[trigger] words(sv.skip(j as int))[k] == words(sv)[out@.len() + k] by {
                    assert(words(sv.skip(j as int))[k] == words(rest)[k + 1]);
                }
            }
            i = j;
        }
    }
    assert(sv.skip(n as int).len() == 0);
    out
}


/// An ASCII decimal digit.
pub open spec fn is_ascii_digit(c: char) -> bool {
    '0' <= c <= '9'
}

/// Every character of `s` is an ASCII decimal digit.
pub open spec fn all_digits(s: Seq<char>) -> bool {
    forall|i: int| 0 <= i < s.len() ==> is_ascii_digit(#[trigger] s[i])
}

/// The number written by a string of decimal digits.
pub open spec fn digits_value(s: Seq<char>) -> nat
    decreases s.len(),
{
    if s.len() == 0 {
        0
    } else {
        digits_value(s.drop_last()) * 10 + ((s.last() as u32) - 48) as nat
    }
}

/// The integer that `FromStr` for Rust integers reads from `s`, before the range
/// check: an optional `+` (or `-` when `signed`) followed by one or more ASCII digits.
pub open spec fn integer_text_value(s: Seq<char>, signed: bool) -> Option<int> {
    if s.len() == 0 {
        None
    } else if s.len() == 1 && (s[0] == '+' || s[0] == '-') {
        None
    } else {
        let neg = signed && s[0] == '-';
        let d = if s[0] == '+' || neg {
            s.drop_first()
        } else {
            s
        };
        if all_digits(d) {
            Some(
                if neg {
                    -(digits_value(d) as int)
                } else {
                    digits_value(d) as int
                },
            )
        } else {
            None
        }
    }
}

proof fn lemma_digits_value_prefix(d: Seq<char>, i: int)
    requires
        all_digits(d),
        0 <= i <= d.len(),
    ensures
        digits_value(d) >= digits_value(d.take(i)),
    decreases d.len(),
{
    if i < d.len() {
        let p = d.drop_last();
        assert(all_digits(p)) by {
            assert forall|k: int| 0 <= k < p.len() implies is_ascii_digit(#[trigger] p[k]) by {
                assert(p[k] == d[k]);
            }
        }
        assert(p.take(i) =~= d.take(i));
        lemma_digits_value_prefix(p, i);
    } else {
        assert(d.take(i) =~= d);
    }
}

/// Reads the sign and magnitude of an integer text; `None` where the text is malformed or
/// its magnitude exceeds `bound`.
fn scan_integer(s: &str, signed: bool, bound: u64) -> (r: Option<(bool, u64)>)
    ensures
        match r {
            Some((neg, mag)) => integer_text_value(s@, signed) == Some(
                if neg {
                    -(mag as int)
                } else {
                    mag as int
                },
            ) && mag <= bound,
            None => integer_text_value(s@, signed) is None || ({
                let v = integer_text_value(s@, signed)->Some_0;
                v > bound || -v > bound
            }),
        },
{
    let n = s.unicode_len();
    let ghost sv = s@;
    if n == 0 {
        return None;
    }
    let c0 = s.get_char(0);
    if n == 1 && (c0 == '+' || c0 == '-') {
        return None;
    }
    let neg = signed && c0 == '-';
    let start: usize = if c0 == '+' || neg {
        1
    } else {
        0
    };
    let ghost d = if c0 == '+' || neg {
        sv.drop_first()
    } else {
        sv
    };
    assert(d =~= sv.skip(start as int));
    assert(integer_text_value(sv, signed) == (if all_digits(d) {
        Some(if neg { -(digits_value(d) as int) } else { digits_value(d) as int })
    } else {
        None
    }));
    let mut mag: u128 = 0;
    let mut i: usize = start;
    while i < n
        invariant
            n == sv.len(),
            sv == s@,
            start <= i <= n,
            d =~= sv.skip(start as int),
            integer_text_value(sv, signed) == (if all_digits(d) {
                Some(if neg { -(digits_value(d) as int) } else { digits_value(d) as int })
            } else {
                None
            }),
            all_digits(d.take(i - start)),
            mag == digits_value(d.take(i - start)),
            mag <= bound,
        decreases n - i,
    {
        let c = s.get_char(i);
        assert(d[i - start] == c);
        if !('0' <= c && c <= '9') {
            assert(!all_digits(d));
            return None;
        }
        let dv = (c as u32) - 48;
        assert(d.take(i - start + 1).drop_last() =~= d.take(i - start));
        mag = mag * 10 + dv as u128;
        assert(all_digits(d.take(i - start + 1))) by {
            assert forall|k: int| 0 <= k < i - start + 1 implies is_ascii_digit(#[trigger] d.take(i - start + 1)[k]) by {
                if k < i - start {
                    assert(d.take(i - start + 1)[k] == d.take(i - start)[k]);
                }
            }
        }
        i = i + 1;
        if mag > bound as u128 {
            proof {
                if all_digits(d) {
                    lemma_digits_value_prefix(d, i - start);
                }
            }
            return None;
        }
    }
    assert(d.take(n - start) =~= d);
    Some((neg, mag as u64))
}

/// `i64::from_str`: `Some` exactly where Rust's parser accepts the text.
pub fn parse_i64(s: &str) -> (r: Option<i64>)
    ensures
        r == (match integer_text_value(s@, true) {
            Some(v) => if i64::MIN <= v <= i64::MAX {
                Some(v as i64)
            } else {
                None::<i64>
            },
            None => None,
        }),
{
    match scan_integer(s, true, 0x8000_0000_0000_0000u64) {
        None => None,
        Some((neg, mag)) => {
            if neg {
                if mag == 0x8000_0000_0000_0000u64 {
                    Some(i64::MIN)
                } else {
                    Some(-(mag as i64))
                }
            } else if mag <= 0x7fff_ffff_ffff_ffffu64 {
                Some(mag as i64)
            } else {
                None
            }
        },
    }
}

/// `u32::from_str`: `Some` exactly where Rust's parser accepts the text.
pub fn parse_u32(s: &str) -> (r: Option<u32>)
    ensures
        r == (match integer_text_value(s@, false) {
            Some(v) => if 0 <= v <= u32::MAX {
                Some(v as u32)
            } else {
                None::<u32>
            },
            None => None,
        }),
{
    match scan_integer(s, false, 0xffff_ffffu64) {
        None => None,
        Some((_neg, mag)) => Some(mag as u32),
    }
}


/// The rest of `s` after `prefix`, where `s` starts with `prefix` (`str::strip_prefix`).
pub fn strip_prefix(s: &str, prefix: &str) -> (r: Option<String>)
    ensures
        match r {
            Some(rest) => prefix@.len() <= s@.len() && s@.take(prefix@.len() as int) == prefix@
                && rest@ == s@.skip(prefix@.len() as int),
            None => !(prefix@.len() <= s@.len() && s@.take(prefix@.len() as int) == prefix@),
        },
{
    let n = s.unicode_len();
    let m = prefix.unicode_len();
    if m > n {
        return None;
    }
    let mut i: usize = 0;
    while i < m
        invariant
            n == s@.len(),
            m == prefix@.len(),
            m <= n,
            i <= m,
            forall|k: int| 0 <= k < i ==> #[trigger] s@[k] == prefix@[k],
        decreases m - i,
    {
        if s.get_char(i) != prefix.get_char(i) {
            assert(s@.take(m as int)[i as int] != prefix@[i as int]);
            return None;
        }
        i = i + 1;
    }
    assert(s@.take(m as int) =~= prefix@);
    let rest = s.substring_char(m, n);
    assert(rest@ =~= s@.skip(m as int));
    Some(String::from_str(rest))
}


/// Decimal text of a 32-bit integer (its `Display`/`to_string`).
pub fn i32_to_string(n: i32) -> (s: String)
    ensures
        s@ == decimal_int(n as int),
{
    let mut s = String::new();
    if n < 0 {
        push_char(&mut s, '-');
        let m: u64 = (-(n as i64)) as u64;
        push_decimal(&mut s, m);
    } else {
        push_decimal(&mut s, n as u64);
    }
    s
}

/// Decimal text of an unsigned integer (its `Display`/`to_string`).
pub fn u64_to_string(n: u64) -> (s: String)
    ensures
        s@ == decimal(n as nat),
{
    let mut s = String::new();
    push_decimal(&mut s, n);
    s
}

/// Equality of two strings' text.
pub fn str_eq(a: &str, b: &str) -> (r: bool)
    ensures
        r == (a@ == b@),
{
    let x = String::from_str(a);
    let y = String::from_str(b);
    x == y
}

} // verus!
