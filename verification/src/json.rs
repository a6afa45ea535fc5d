//! Building blocks for JSON text: string escaping, decimal rendering of
//! unsigned integers, and a well-formedness check for decimal number
//! literals.

use vstd::prelude::*;

verus! {

/// A character that stands for itself inside a JSON string literal,
/// needing no escape sequence.
pub open spec fn plain_char(c: char) -> bool {
    c != '"' && c != '\\' && (c as u32) >= 0x20
}

/// The lower-case hexadecimal digit for a value below 16.
pub open spec fn hex_digit_char(d: nat) -> char {
    if d == 0 {
        '0'
    } else if d == 1 {
        '1'
    } else if d == 2 {
        '2'
    } else if d == 3 {
        '3'
    } else if d == 4 {
        '4'
    } else if d == 5 {
        '5'
    } else if d == 6 {
        '6'
    } else if d == 7 {
        '7'
    } else if d == 8 {
        '8'
    } else if d == 9 {
        '9'
    } else if d == 10 {
        'a'
    } else if d == 11 {
        'b'
    } else if d == 12 {
        'c'
    } else if d == 13 {
        'd'
    } else if d == 14 {
        'e'
    } else {
        'f'
    }
}

/// What a character contributes to a JSON string literal: a short escape
/// for the quote, the backslash and the named control characters, a
/// `\u00XX` escape for the remaining control characters, and the
/// character itself otherwise.
pub open spec fn escape_char(c: char) -> Seq<char> {
    if c == '"' {
        seq!['\\', '"']
    } else if c == '\\' {
        seq!['\\', '\\']
    } else if c == '\u{8}' {
        seq!['\\', 'b']
    } else if c == '\u{9}' {
        seq!['\\', 't']
    } else if c == '\u{a}' {
        seq!['\\', 'n']
    } else if c == '\u{c}' {
        seq!['\\', 'f']
    } else if c == '\u{d}' {
        seq!['\\', 'r']
    } else if (c as u32) < 0x20 {
        seq!['\\', 'u', '0', '0', hex_digit_char(((c as u32) / 16) as nat), hex_digit_char(
            ((c as u32) % 16) as nat,
        )]
    } else {
        seq![c]
    }
}

/// The body of a JSON string literal for the text `s`: every character
/// replaced by its escape sequence.
pub open spec fn escaped(s: Seq<char>) -> Seq<char>
    decreases s.len(),
{
    if s.len() == 0 {
        Seq::empty()
    } else {
        escaped(s.drop_last()) + escape_char(s.last())
    }
}

/// Escaping changes nothing in a text whose characters all stand for
/// themselves.
pub proof fn lemma_escaped_all_plain(s: Seq<char>)
    requires
        forall|i: int| 0 <= i < s.len() ==> plain_char(#[trigger] s[i]),
    ensures
        escaped(s) == s,
    decreases s.len(),
{
    if s.len() == 0 {
        assert(escaped(s) =~= s);
    } else {
        lemma_escaped_all_plain(s.drop_last());
        assert(plain_char(s[s.len() - 1]));
        assert(escape_char(s.last()) =~= seq![s.last()]);
        assert(escaped(s) =~= s);
    }
}

/// The one-character string holding a given hexadecimal digit.
fn hex_digit_str(d: u32) -> (r: &'static str)
    requires
        d < 16,
    ensures
        r@ == seq![hex_digit_char(d as nat)],
{
    let r: &'static str = if d == 0 {
        "0"
    } else if d == 1 {
        "1"
    } else if d == 2 {
        "2"
    } else if d == 3 {
        "3"
    } else if d == 4 {
        "4"
    } else if d == 5 {
        "5"
    } else if d == 6 {
        "6"
    } else if d == 7 {
        "7"
    } else if d == 8 {
        "8"
    } else if d == 9 {
        "9"
    } else if d == 10 {
        "a"
    } else if d == 11 {
        "b"
    } else if d == 12 {
        "c"
    } else if d == 13 {
        "d"
    } else if d == 14 {
        "e"
    } else {
        "f"
    };
    proof {
        reveal_strlit("0");
        reveal_strlit("1");
        reveal_strlit("2");
        reveal_strlit("3");
        reveal_strlit("4");
        reveal_strlit("5");
        reveal_strlit("6");
        reveal_strlit("7");
        reveal_strlit("8");
        reveal_strlit("9");
        reveal_strlit("a");
        reveal_strlit("b");
        reveal_strlit("c");
        reveal_strlit("d");
        reveal_strlit("e");
        reveal_strlit("f");
        assert(r@ =~= seq![hex_digit_char(d as nat)]);
    }
    r
}

/// Appends `s` to `out` with JSON string escaping applied to each
/// character.
pub fn append_escaped(out: &mut String, s: &str)
    ensures
        final(out)@ == old(out)@ + escaped(s@),
{
    let n = s.unicode_len();
    let mut i: usize = 0;
    while i < n
        invariant
            n == s@.len(),
            i <= n,
            out@ == old(out)@ + escaped(s@.subrange(0, i as int)),
        decreases n - i,
    {
        let c = s.get_char(i);
        if c == '"' {
            out.append("\\\"");
        } else if c == '\\' {
            out.append("\\\\");
        } else if c == '\u{8}' {
            out.append("\\b");
        } else if c == '\u{9}' {
            out.append("\\t");
        } else if c == '\u{a}' {
            out.append("\\n");
        } else if c == '\u{c}' {
            out.append("\\f");
        } else if c == '\u{d}' {
            out.append("\\r");
        } else if (c as u32) < 0x20 {
            out.append("\\u00");
            out.append(hex_digit_str((c as u32) / 16));
            out.append(hex_digit_str((c as u32) % 16));
        } else {
            out.append(s.substring_char(i, i + 1));
        }
        proof {
            reveal_strlit("\\\"");
            reveal_strlit("\\\\");
            reveal_strlit("\\b");
            reveal_strlit("\\t");
            reveal_strlit("\\n");
            reveal_strlit("\\f");
            reveal_strlit("\\r");
            reveal_strlit("\\u00");
            assert(s@.subrange(0, i as int + 1).drop_last() =~= s@.subrange(0, i as int));
            assert(s@.subrange(0, i as int + 1).last() == s@[i as int]);
            assert(out@ =~= old(out)@ + escaped(s@.subrange(0, i as int + 1)));
        }
        i += 1;
    }
    proof {
        assert(s@.subrange(0, n as int) =~= s@);
    }
}

/// Decimal rendering of a natural number, most significant digit first,
/// without a sign and without leading zeros.
pub open spec fn dec_str(n: nat) -> Seq<char>
    decreases n,
{
    if n < 10 {
        seq![hex_digit_char(n)]
    } else {
        dec_str(n / 10) + seq![hex_digit_char(n % 10)]
    }
}

/// Appends the decimal rendering of `n` to `out`.
pub fn append_u64(out: &mut String, n: u64)
    ensures
        final(out)@ == old(out)@ + dec_str(n as nat),
    decreases n,
{
    if n >= 10 {
        append_u64(out, n / 10);
    }
    out.append(hex_digit_str((n % 10) as u32));
    proof {
        assert(out@ =~= old(out)@ + dec_str(n as nat));
    }
}

/// A decimal digit.
pub open spec fn digit_char(c: char) -> bool {
    0x30 <= (c as u32) && (c as u32) <= 0x39
}

/// Every character of `s` is a decimal digit.
pub open spec fn all_digits(s: Seq<char>) -> bool {
    forall|i: int| 0 <= i < s.len() ==> digit_char(#[trigger] s[i])
}

/// A run of digits, or two runs of digits separated by one point, every
/// run nonempty.
pub open spec fn unsigned_decimal_text(s: Seq<char>) -> bool {
    (s.len() > 0 && all_digits(s)) || (exists|k: int|
        1 <= k <= s.len() - 2 && s[k] == '.' && all_digits(#[trigger] s.subrange(0, k))
            && all_digits(s.subrange(k + 1, s.len() as int)))
}

/// A well-formed decimal number literal: an optional minus sign before an
/// unsigned decimal literal.
pub open spec fn decimal_text(s: Seq<char>) -> bool {
    if s.len() > 0 && s[0] == '-' {
        unsigned_decimal_text(s.drop_first())
    } else {
        unsigned_decimal_text(s)
    }
}

/// The position of the first character at or after `from` that is not a
/// decimal digit, or the length of `s` when every one is.
fn scan_digits(s: &str, from: usize, n: usize) -> (r: usize)
    requires
        n == s@.len(),
        from <= n,
    ensures
        from <= r <= n,
        forall|k: int| from <= k < r ==> digit_char(#[trigger] s@[k]),
        r < n ==> !digit_char(s@[r as int]),
{
    let mut i: usize = from;
    while i < n
        invariant
            from <= i <= n,
            n == s@.len(),
            forall|k: int| from <= k < i ==> digit_char(#[trigger] s@[k]),
        decreases n - i,
    {
        let u = s.get_char(i) as u32;
        if !(48 <= u && u <= 57) {
            return i;
        }
        i += 1;
    }
    i
}

/// Decides `decimal_text` for an actual string.
pub fn is_decimal_str(s: &str) -> (r: bool)
    ensures
        r == decimal_text(s@),
{
    let n = s.unicode_len();
    let start: usize = if n > 0 && s.get_char(0) == '-' {
        1
    } else {
        0
    };
    let ghost t: Seq<char> = s@.subrange(start as int, n as int);
    proof {
        if start == 1 {
            assert(t =~= s@.drop_first());
        } else {
            assert(t =~= s@);
        }
        assert(decimal_text(s@) == unsigned_decimal_text(t));
    }
    let i = scan_digits(s, start, n);
    let ghost q: int = i - start;
    if i == n {
        if i > start {
            proof {
                assert forall|p: int| 0 <= p < t.len() implies digit_char(#[trigger] t[p]) by {
                    assert(t[p] == s@[start + p]);
                }
            }
            return true;
        } else {
            proof {
                assert(t.len() == 0);
            }
            return false;
        }
    }
    let c = s.get_char(i);
    if c != '.' {
        proof {
            lemma_not_unsigned_decimal(t, q);
        }
        return false;
    }
    if i == start || i + 1 >= n {
        proof {
            assert(t[q] == '.');
            assert(!digit_char(t[q]));
            if start < i {
                // the point is the last character: every candidate split is
                // either at a digit or leaves the fraction empty
                assert(q == t.len() - 1);
                assert forall|k: int|
                    1 <= k <= t.len() - 2 && #[trigger] t.subrange(0, k) =~= t.subrange(
                        0,
                        k,
                    ) implies !(t[k] == '.') by {
                    assert(t[k] == s@[start + k]);
                    assert(digit_char(t[k]));
                }
            } else {
                // the point is the first character: every split's whole part
                // holds it
                assert(q == 0);
                assert forall|k: int| 1 <= k <= t.len() - 2 implies !all_digits(
                    #[trigger] t.subrange(0, k),
                ) by {
                    assert(t.subrange(0, k)[0] == t[0]);
                    assert(!digit_char(t.subrange(0, k)[0]));
                }
            }
        }
        return false;
    }
    let j = scan_digits(s, i + 1, n);
    if j == n {
        proof {
            assert(t[q] == '.');
            assert(1 <= q <= t.len() - 2);
            assert forall|p: int| 0 <= p < q implies digit_char(#[trigger] t.subrange(0, q)[p]) by {
                assert(t.subrange(0, q)[p] == s@[start + p]);
            }
            assert(all_digits(t.subrange(0, q)));
            assert forall|p: int| 0 <= p < t.len() - q - 1 implies digit_char(
                #[trigger] t.subrange(q + 1, t.len() as int)[p],
            ) by {
                assert(t.subrange(q + 1, t.len() as int)[p] == s@[start + q + 1 + p]);
            }
            assert(all_digits(t.subrange(q + 1, t.len() as int)));
            assert(unsigned_decimal_text(t));
        }
        return true;
    }
    proof {
        let qj: int = j - start;
        assert(!digit_char(t[qj]));
        assert(t[q] == '.');
        assert(!digit_char(t[q]));
        assert forall|k: int|
            1 <= k <= t.len() - 2 && #[trigger] t.subrange(0, k) =~= t.subrange(0, k) implies !(t[k]
            == '.' && all_digits(t.subrange(0, k)) && all_digits(
            t.subrange(k + 1, t.len() as int),
        )) by {
            if k < q {
                assert(t[k] == s@[start + k]);
                assert(digit_char(t[k]));
            } else if k == q {
                assert(t.subrange(k + 1, t.len() as int)[qj - q - 1] == t[qj]);
                assert(!all_digits(t.subrange(k + 1, t.len() as int)));
            } else {
                assert(t.subrange(0, k)[q] == t[q]);
                assert(!all_digits(t.subrange(0, k)));
            }
        }
    }
    false
}

/// No split of `t` at a point makes it an unsigned decimal literal when
/// the character at `q` is neither a digit nor a point and everything
/// before it is digits.
proof fn lemma_not_unsigned_decimal(t: Seq<char>, q: int)
    requires
        0 <= q < t.len(),
        !digit_char(t[q]),
        t[q] != '.',
        forall|k: int| 0 <= k < q ==> digit_char(#[trigger] t[k]),
    ensures
        !unsigned_decimal_text(t),
{
    assert(!all_digits(t));
    assert forall|k: int|
        1 <= k <= t.len() - 2 && #[trigger] t.subrange(0, k) =~= t.subrange(0, k) implies !(t[k]
        == '.' && all_digits(t.subrange(0, k)) && all_digits(t.subrange(k + 1, t.len() as int))) by {
        if k < q {
            assert(digit_char(t[k]));
        } else if k == q {
            assert(t[k] != '.');
        } else {
            assert(t.subrange(0, k)[q] == t[q]);
            assert(!all_digits(t.subrange(0, k)));
        }
    }
}

} // verus!
