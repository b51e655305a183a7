//! Fixed-width decimal and hexadecimal fields.
//!
//! Every numeric subfield of a law identifier is a zero-padded, fixed-width
//! run of digits. This module defines the mathematical rendering of a number
//! at a given width ([`dec_seq`], [`hex_seq`]), the value of a digit run
//! ([`dec_seq_val`], [`hex_seq_val`]), proves that the two are mutually
//! inverse, and provides the verified parse and render routines the codec
//! is built from.

use vstd::prelude::*;

verus! {

/// `10^k`.
pub open spec fn pow10(k: nat) -> int
    decreases k,
{
    if k == 0 {
        1
    } else {
        10 * pow10((k - 1) as nat)
    }
}

/// `16^k`.
pub open spec fn pow16(k: nat) -> int
    decreases k,
{
    if k == 0 {
        1
    } else {
        16 * pow16((k - 1) as nat)
    }
}

/// Whether `c` is a decimal digit `'0'..='9'`.
pub open spec fn is_dec_digit(c: char) -> bool {
    48 <= c as int <= 57
}

/// The value of a decimal digit character.
pub open spec fn dec_val(c: char) -> int {
    c as int - 48
}

/// The character of a decimal digit value (0 to 9).
pub open spec fn dec_char(d: int) -> char {
    ((48 + d) as u8) as char
}

/// Whether `c` is a hexadecimal digit in the canonical form the codec
/// accepts and emits: `'0'..='9'` or upper-case `'A'..='F'`.
pub open spec fn is_hex_digit(c: char) -> bool {
    48 <= c as int <= 57 || 65 <= c as int <= 70
}

/// The value of a hexadecimal digit character.
pub open spec fn hex_val(c: char) -> int {
    if c as int <= 57 {
        c as int - 48
    } else {
        c as int - 55
    }
}

/// The canonical character of a hexadecimal digit value (0 to 15),
/// upper case for 10 to 15.
pub open spec fn hex_char(d: int) -> char {
    if d < 10 {
        ((48 + d) as u8) as char
    } else {
        ((55 + d) as u8) as char
    }
}

/// Whether every character of `s` is a decimal digit.
pub open spec fn all_dec_digits(s: Seq<char>) -> bool {
    forall|i: int| 0 <= i < s.len() ==> is_dec_digit(#[trigger] s[i])
}

/// Whether every character of `s` is a canonical hexadecimal digit.
pub open spec fn all_hex_digits(s: Seq<char>) -> bool {
    forall|i: int| 0 <= i < s.len() ==> is_hex_digit(#[trigger] s[i])
}

/// The number a run of decimal digits denotes.
pub open spec fn dec_seq_val(s: Seq<char>) -> int
    decreases s.len(),
{
    if s.len() == 0 {
        0
    } else {
        dec_seq_val(s.drop_last()) * 10 + dec_val(s.last())
    }
}

/// The number a run of hexadecimal digits denotes.
pub open spec fn hex_seq_val(s: Seq<char>) -> int
    decreases s.len(),
{
    if s.len() == 0 {
        0
    } else {
        hex_seq_val(s.drop_last()) * 16 + hex_val(s.last())
    }
}

/// The zero-padded decimal rendering of `n` at width `w`.
pub open spec fn dec_seq(n: int, w: nat) -> Seq<char>
    decreases w,
{
    if w == 0 {
        Seq::empty()
    } else {
        dec_seq(n / 10, (w - 1) as nat).push(dec_char(n % 10))
    }
}

/// The zero-padded hexadecimal rendering of `n` at width `w`.
pub open spec fn hex_seq(n: int, w: nat) -> Seq<char>
    decreases w,
{
    if w == 0 {
        Seq::empty()
    } else {
        hex_seq(n / 16, (w - 1) as nat).push(hex_char(n % 16))
    }
}

/// A digit run denotes a value below `10^len` (and at least 0).
pub proof fn lemma_dec_seq_val_bound(s: Seq<char>)
    requires
        all_dec_digits(s),
    ensures
        0 <= dec_seq_val(s) < pow10(s.len()),
    decreases s.len(),
{
    if s.len() > 0 {
        lemma_dec_seq_val_bound(s.drop_last());
        let front = dec_seq_val(s.drop_last());
        let d = dec_val(s.last());
        assert(front <= pow10((s.len() - 1) as nat) - 1);
        assert(front * 10 <= (pow10((s.len() - 1) as nat) - 1) * 10) by (nonlinear_arith)
            requires
                front <= pow10((s.len() - 1) as nat) - 1,
        ;
        assert(0 <= d <= 9);
    }
}

/// A hexadecimal digit run denotes a value below `16^len`.
pub proof fn lemma_hex_seq_val_bound(s: Seq<char>)
    requires
        all_hex_digits(s),
    ensures
        0 <= hex_seq_val(s) < pow16(s.len()),
    decreases s.len(),
{
    if s.len() > 0 {
        lemma_hex_seq_val_bound(s.drop_last());
        let front = hex_seq_val(s.drop_last());
        assert(front * 16 <= (pow16((s.len() - 1) as nat) - 1) * 16) by (nonlinear_arith)
            requires
                front <= pow16((s.len() - 1) as nat) - 1,
        ;
        assert(0 <= hex_val(s.last()) <= 15);
    }
}

/// Rendering a value below `10^w` gives digits, and reading them back gives
/// the value: the rendering is a right inverse of the value function.
pub proof fn lemma_dec_seq_of_val(n: int, w: nat)
    requires
        0 <= n < pow10(w),
    ensures
        dec_seq(n, w).len() == w,
        all_dec_digits(dec_seq(n, w)),
        dec_seq_val(dec_seq(n, w)) == n,
    decreases w,
{
    if w > 0 {
        assert(0 <= n / 10 && n / 10 < pow10((w - 1) as nat) && 0 <= n % 10 < 10 && (n / 10) * 10
            + n % 10 == n) by (nonlinear_arith)
            requires
                0 <= n < 10 * pow10((w - 1) as nat),
                pow10((w - 1) as nat) >= 1,
        ;
        lemma_pow10_pos((w - 1) as nat);
        lemma_dec_seq_of_val(n / 10, (w - 1) as nat);
        let s = dec_seq(n, w);
        assert(s.drop_last() == dec_seq(n / 10, (w - 1) as nat));
        assert(is_dec_digit(dec_char(n % 10)));
        assert(dec_val(dec_char(n % 10)) == n % 10);
    }
}

/// The hexadecimal counterpart of [`lemma_dec_seq_of_val`].
pub proof fn lemma_hex_seq_of_val(n: int, w: nat)
    requires
        0 <= n < pow16(w),
    ensures
        hex_seq(n, w).len() == w,
        all_hex_digits(hex_seq(n, w)),
        hex_seq_val(hex_seq(n, w)) == n,
    decreases w,
{
    if w > 0 {
        assert(0 <= n / 16 && n / 16 < pow16((w - 1) as nat) && 0 <= n % 16 < 16 && (n / 16) * 16
            + n % 16 == n) by (nonlinear_arith)
            requires
                0 <= n < 16 * pow16((w - 1) as nat),
                pow16((w - 1) as nat) >= 1,
        ;
        lemma_pow16_pos((w - 1) as nat);
        lemma_hex_seq_of_val(n / 16, (w - 1) as nat);
        let s = hex_seq(n, w);
        assert(s.drop_last() == hex_seq(n / 16, (w - 1) as nat));
        assert(is_hex_digit(hex_char(n % 16)));
        assert(hex_val(hex_char(n % 16)) == n % 16);
    }
}

/// Rendering the value of a digit run reproduces the run: the rendering is
/// also a left inverse, so a fixed-width decimal field has exactly one
/// reading.
pub proof fn lemma_dec_seq_of_digits(s: Seq<char>)
    requires
        all_dec_digits(s),
    ensures
        dec_seq(dec_seq_val(s), s.len()) == s,
    decreases s.len(),
{
    if s.len() > 0 {
        let front = dec_seq_val(s.drop_last());
        let d = dec_val(s.last());
        lemma_dec_seq_val_bound(s.drop_last());
        assert((front * 10 + d) / 10 == front && (front * 10 + d) % 10 == d) by (nonlinear_arith)
            requires
                0 <= d < 10,
                0 <= front,
        ;
        lemma_dec_seq_of_digits(s.drop_last());
        assert(dec_char(dec_val(s.last())) == s.last());
        assert(dec_seq(dec_seq_val(s), s.len()) =~= s);
    }
}

/// The hexadecimal counterpart of [`lemma_dec_seq_of_digits`].
pub proof fn lemma_hex_seq_of_digits(s: Seq<char>)
    requires
        all_hex_digits(s),
    ensures
        hex_seq(hex_seq_val(s), s.len()) == s,
    decreases s.len(),
{
    if s.len() > 0 {
        let front = hex_seq_val(s.drop_last());
        let d = hex_val(s.last());
        lemma_hex_seq_val_bound(s.drop_last());
        assert((front * 16 + d) / 16 == front && (front * 16 + d) % 16 == d) by (nonlinear_arith)
            requires
                0 <= d < 16,
                0 <= front,
        ;
        lemma_hex_seq_of_digits(s.drop_last());
        assert(hex_char(hex_val(s.last())) == s.last());
        assert(hex_seq(hex_seq_val(s), s.len()) =~= s);
    }
}

pub proof fn lemma_pow10_pos(k: nat)
    ensures
        pow10(k) >= 1,
    decreases k,
{
    if k > 0 {
        lemma_pow10_pos((k - 1) as nat);
    }
}

pub proof fn lemma_pow16_pos(k: nat)
    ensures
        pow16(k) >= 1,
    decreases k,
{
    if k > 0 {
        lemma_pow16_pos((k - 1) as nat);
    }
}

/// A run of characters is all digits exactly when its two halves are.
pub proof fn lemma_all_dec_split(p: Seq<char>, a: int, b: int, c: int)
    requires
        0 <= a <= b <= c <= p.len(),
    ensures
        all_dec_digits(p.subrange(a, c)) <==> (all_dec_digits(p.subrange(a, b)) && all_dec_digits(
            p.subrange(b, c),
        )),
{
    let whole = p.subrange(a, c);
    let left = p.subrange(a, b);
    let right = p.subrange(b, c);
    if all_dec_digits(whole) {
        assert forall|i: int| 0 <= i < left.len() implies is_dec_digit(#[trigger] left[i]) by {
            assert(left[i] == whole[i]);
        }
        assert forall|i: int| 0 <= i < right.len() implies is_dec_digit(#[trigger] right[i]) by {
            assert(right[i] == whole[i + (b - a)]);
        }
    }
    if all_dec_digits(left) && all_dec_digits(right) {
        assert forall|i: int| 0 <= i < whole.len() implies is_dec_digit(#[trigger] whole[i]) by {
            if i < b - a {
                assert(whole[i] == left[i]);
            } else {
                assert(whole[i] == right[i - (b - a)]);
            }
        }
    }
}

/// The decimal value of one character, if it is a digit.
pub fn char_dec_val(c: char) -> (r: Option<u32>)
    ensures
        r is Some <==> is_dec_digit(c),
        r matches Some(v) ==> v == dec_val(c) && v < 10,
{
    let n = c as u32;
    if 48 <= n && n <= 57 {
        Some(n - 48)
    } else {
        None
    }
}

/// The hexadecimal value of one character, if it is a canonical hex digit.
pub fn char_hex_val(c: char) -> (r: Option<u32>)
    ensures
        r is Some <==> is_hex_digit(c),
        r matches Some(v) ==> v == hex_val(c) && v < 16,
{
    let n = c as u32;
    if 48 <= n && n <= 57 {
        Some(n - 48)
    } else if 65 <= n && n <= 70 {
        Some(n - 55)
    } else {
        None
    }
}

/// Reads the characters `from..to` of `s` as a fixed-width decimal field.
/// Returns the field's value, or `None` if any character is not a digit.
pub fn parse_dec(s: &str, from: usize, to: usize) -> (r: Option<u32>)
    requires
        from <= to <= s@.len(),
        to - from <= 8,
    ensures
        r is Some <==> all_dec_digits(s@.subrange(from as int, to as int)),
        r matches Some(v) ==> v as int == dec_seq_val(s@.subrange(from as int, to as int)),
{
    let mut val: u32 = 0;
    let mut i: usize = from;
    while i < to
        invariant
            from <= i <= to <= s@.len(),
            to - from <= 8,
            all_dec_digits(s@.subrange(from as int, i as int)),
            val as int == dec_seq_val(s@.subrange(from as int, i as int)),
            val < pow10((i - from) as nat),
        decreases to - i,
    {
        proof {
            lemma_pow10_le8((to - from) as nat);
            lemma_pow10_mono((i - from) as nat, (to - from) as nat);
        }
        let c = s.get_char(i);
        let d = match char_dec_val(c) {
            Some(d) => d,
            None => {
                proof {
                    assert(s@.subrange(from as int, to as int)[i - from] == c);
                }
                return None;
            },
        };
        proof {
            assert(s@.subrange(from as int, (i + 1) as int).drop_last() == s@.subrange(
                from as int,
                i as int,
            ));
            assert(s@.subrange(from as int, (i + 1) as int).last() == c);
        }
        val = val * 10 + d;
        i = i + 1;
    }
    proof {
        assert(s@.subrange(from as int, to as int) == s@.subrange(from as int, i as int));
    }
    Some(val)
}

/// Reads the characters `from..to` of `s` as a fixed-width hexadecimal
/// field in canonical form (digits and upper-case `A`-`F`).
pub fn parse_hex(s: &str, from: usize, to: usize) -> (r: Option<u32>)
    requires
        from <= to <= s@.len(),
        to - from <= 7,
    ensures
        r is Some <==> all_hex_digits(s@.subrange(from as int, to as int)),
        r matches Some(v) ==> v as int == hex_seq_val(s@.subrange(from as int, to as int)),
{
    let mut val: u32 = 0;
    let mut i: usize = from;
    while i < to
        invariant
            from <= i <= to <= s@.len(),
            to - from <= 7,
            all_hex_digits(s@.subrange(from as int, i as int)),
            val as int == hex_seq_val(s@.subrange(from as int, i as int)),
            val < pow16((i - from) as nat),
        decreases to - i,
    {
        proof {
            lemma_pow16_le7((to - from) as nat);
            lemma_pow16_mono((i - from) as nat, (to - from) as nat);
        }
        let c = s.get_char(i);
        let d = match char_hex_val(c) {
            Some(d) => d,
            None => {
                proof {
                    assert(s@.subrange(from as int, to as int)[i - from] == c);
                }
                return None;
            },
        };
        proof {
            assert(s@.subrange(from as int, (i + 1) as int).drop_last() == s@.subrange(
                from as int,
                i as int,
            ));
            assert(s@.subrange(from as int, (i + 1) as int).last() == c);
        }
        val = val * 16 + d;
        i = i + 1;
    }
    proof {
        assert(s@.subrange(from as int, to as int) == s@.subrange(from as int, i as int));
    }
    Some(val)
}

proof fn lemma_pow10_mono(a: nat, b: nat)
    requires
        a <= b,
    ensures
        pow10(a) <= pow10(b),
    decreases b,
{
    if a < b {
        lemma_pow10_mono(a, (b - 1) as nat);
        lemma_pow10_pos((b - 1) as nat);
    }
}

proof fn lemma_pow16_mono(a: nat, b: nat)
    requires
        a <= b,
    ensures
        pow16(a) <= pow16(b),
    decreases b,
{
    if a < b {
        lemma_pow16_mono(a, (b - 1) as nat);
        lemma_pow16_pos((b - 1) as nat);
    }
}

/// The concrete powers of ten the identifier's field widths use.
pub proof fn lemma_pow10_small()
    ensures
        pow10(0) == 1,
        pow10(1) == 10,
        pow10(2) == 100,
        pow10(3) == 1000,
        pow10(4) == 10000,
        pow10(7) == 10000000,
        pow10(8) == 100000000,
{
    reveal_with_fuel(pow10, 9);
}

/// The seven-digit hexadecimal field holds exactly the 28-bit masks.
pub proof fn lemma_pow16_small()
    ensures
        pow16(7) == 0x10000000,
{
    reveal_with_fuel(pow16, 8);
}

/// A fixed-width rendering always has its width.
pub proof fn lemma_dec_seq_len(n: int, w: nat)
    ensures
        dec_seq(n, w).len() == w,
    decreases w,
{
    if w > 0 {
        lemma_dec_seq_len(n / 10, (w - 1) as nat);
    }
}

/// A fixed-width hexadecimal rendering always has its width.
pub proof fn lemma_hex_seq_len(n: int, w: nat)
    ensures
        hex_seq(n, w).len() == w,
    decreases w,
{
    if w > 0 {
        lemma_hex_seq_len(n / 16, (w - 1) as nat);
    }
}

pub proof fn lemma_pow10_le8(k: nat)
    requires
        k <= 8,
    ensures
        pow10(k) <= 100000000,
{
    reveal_with_fuel(pow10, 9);
}

pub proof fn lemma_pow16_le7(k: nat)
    requires
        k <= 7,
    ensures
        pow16(k) <= 0x10000000,
{
    reveal_with_fuel(pow16, 8);
}

/// The character of one decimal digit value.
pub fn dec_char_of(d: u32) -> (c: char)
    requires
        d < 10,
    ensures
        c == dec_char(d as int),
{
    (48 + d as u8) as char
}

/// The canonical character of one hexadecimal digit value.
pub fn hex_char_of(d: u32) -> (c: char)
    requires
        d < 16,
    ensures
        c == hex_char(d as int),
{
    if d < 10 {
        (48 + d as u8) as char
    } else {
        (55 + d as u8) as char
    }
}

/// Appends the width-`w` zero-padded decimal rendering of `n` to `out`.
pub fn push_dec(out: &mut Vec<char>, n: u32, w: usize)
    requires
        w <= 8,
        n < pow10(w as nat),
    ensures
        final(out)@ == old(out)@ + dec_seq(n as int, w as nat),
    decreases w,
{
    if w == 0 {
        proof {
            assert(out@ =~= out@ + dec_seq(n as int, 0));
        }
        return ;
    }
    proof {
        assert(0 <= n / 10 < pow10((w - 1) as nat) && n % 10 < 10) by (nonlinear_arith)
            requires
                0 <= n < 10 * pow10((w - 1) as nat),
                pow10((w - 1) as nat) >= 1,
        ;
        lemma_pow10_pos((w - 1) as nat);
    }
    push_dec(out, n / 10, w - 1);
    let c = dec_char_of(n % 10);
    out.push(c);
    proof {
        assert(out@ =~= old(out)@ + dec_seq(n as int, w as nat));
    }
}

/// Appends the width-`w` zero-padded hexadecimal rendering of `n` to `out`.
pub fn push_hex(out: &mut Vec<char>, n: u32, w: usize)
    requires
        w <= 7,
        n < pow16(w as nat),
    ensures
        final(out)@ == old(out)@ + hex_seq(n as int, w as nat),
    decreases w,
{
    if w == 0 {
        proof {
            assert(out@ =~= out@ + hex_seq(n as int, 0));
        }
        return ;
    }
    proof {
        assert(0 <= n / 16 < pow16((w - 1) as nat) && n % 16 < 16) by (nonlinear_arith)
            requires
                0 <= n < 16 * pow16((w - 1) as nat),
                pow16((w - 1) as nat) >= 1,
        ;
        lemma_pow16_pos((w - 1) as nat);
    }
    push_hex(out, n / 16, w - 1);
    let c = hex_char_of(n % 16);
    out.push(c);
    proof {
        assert(out@ =~= old(out)@ + hex_seq(n as int, w as nat));
    }
}

/// Collects a vector of characters into the string of exactly those
/// characters. Relies on std's `FromIterator<char> for String`.
#[verifier::external_body]
pub fn chars_to_string(v: &Vec<char>) -> (s: String)
    ensures
        s@ == v@,
{
    v.iter().collect()
}

} // verus!
