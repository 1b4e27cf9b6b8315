//! Digits and numbers: what a digit character is worth, the number that a run
//! of digits spells, and the digits that spell a number.

use vstd::prelude::*;

verus! {

/// `c` is one of `0`-`9`.
pub open spec fn is_dec_digit(c: char) -> bool {
    48 <= c as u32 <= 57
}

/// `c` is one of `0`-`9`, `a`-`f`, `A`-`F`.
pub open spec fn is_hex_digit(c: char) -> bool {
    ||| 48 <= c as u32 <= 57
    ||| 97 <= c as u32 <= 102
    ||| 65 <= c as u32 <= 70
}

/// The worth of a digit character, 0 for any other character.
pub open spec fn digit_value(c: char) -> int {
    if 48 <= c as u32 <= 57 {
        c as u32 - 48
    } else if 97 <= c as u32 <= 102 {
        c as u32 - 87
    } else if 65 <= c as u32 <= 70 {
        c as u32 - 55
    } else {
        0
    }
}

/// The lower-case digit character that is worth `d`, for `d` below 16.
pub open spec fn digit_char(d: int) -> char {
    if 0 <= d < 10 {
        (48 + d) as u8 as char
    } else if d < 16 {
        (87 + d) as u8 as char
    } else {
        '0'
    }
}

/// Every character of `s` is a decimal digit.
pub open spec fn all_dec(s: Seq<char>) -> bool {
    forall|i: int| 0 <= i < s.len() ==> is_dec_digit(#[trigger] s[i])
}

/// Every character of `s` is a hexadecimal digit.
pub open spec fn all_hex(s: Seq<char>) -> bool {
    forall|i: int| 0 <= i < s.len() ==> is_hex_digit(#[trigger] s[i])
}

/// The number that `s` spells in base 10, most significant digit first.
pub open spec fn dec_value(s: Seq<char>) -> nat
    decreases s.len(),
{
    if s.len() == 0 {
        0
    } else {
        (dec_value(s.drop_last()) * 10 + digit_value(s.last())) as nat
    }
}

/// The number that `s` spells in base 16, most significant digit first.
pub open spec fn hex_value(s: Seq<char>) -> nat
    decreases s.len(),
{
    if s.len() == 0 {
        0
    } else {
        (hex_value(s.drop_last()) * 16 + digit_value(s.last())) as nat
    }
}

/// The shortest run of decimal digits that spells `n`.
pub open spec fn dec_digits(n: nat) -> Seq<char>
    decreases n,
{
    if n < 10 {
        seq![digit_char(n as int)]
    } else {
        dec_digits(n / 10).push(digit_char((n % 10) as int))
    }
}

/// The shortest run of lower-case hexadecimal digits that spells `n`.
pub open spec fn hex_digits(n: nat) -> Seq<char>
    decreases n,
{
    if n < 16 {
        seq![digit_char(n as int)]
    } else {
        hex_digits(n / 16).push(digit_char((n % 16) as int))
    }
}

/// A number spelled by a prefix of `s` is no larger than the one `s` spells.
pub proof fn lemma_dec_value_prefix(s: Seq<char>, k: int)
    requires
        0 <= k <= s.len(),
    ensures
        dec_value(s.take(k)) <= dec_value(s),
    decreases s.len(),
{
    if k == s.len() {
        assert(s.take(k) =~= s);
    } else {
        lemma_dec_value_prefix(s.drop_last(), k);
        assert(s.drop_last().take(k) =~= s.take(k));
    }
}

/// A number spelled by a prefix of `s` is no larger than the one `s` spells.
pub proof fn lemma_hex_value_prefix(s: Seq<char>, k: int)
    requires
        0 <= k <= s.len(),
    ensures
        hex_value(s.take(k)) <= hex_value(s),
    decreases s.len(),
{
    if k == s.len() {
        assert(s.take(k) =~= s);
    } else {
        lemma_hex_value_prefix(s.drop_last(), k);
        assert(s.drop_last().take(k) =~= s.take(k));
    }
}

/// Tells whether `c` is a decimal digit.
pub fn is_dec(c: char) -> (b: bool)
    ensures
        b == is_dec_digit(c),
{
    let u: u32 = c as u32;
    48 <= u && u <= 57
}

/// Tells whether `c` is a hexadecimal digit.
pub fn is_hex(c: char) -> (b: bool)
    ensures
        b == is_hex_digit(c),
{
    let u: u32 = c as u32;
    (48 <= u && u <= 57) || (97 <= u && u <= 102) || (65 <= u && u <= 70)
}

/// The worth of `c`: that of the digit, or 0 where `c` is no digit.
pub fn value_of(c: char) -> (d: u8)
    ensures
        d == digit_value(c),
        d < 16,
        is_dec_digit(c) ==> d < 10,
{
    let u: u32 = c as u32;
    if 48 <= u && u <= 57 {
        (u - 48) as u8
    } else if 97 <= u && u <= 102 {
        (u - 87) as u8
    } else if 65 <= u && u <= 70 {
        (u - 55) as u8
    } else {
        0
    }
}

/// The lower-case digit that is worth `d`; `0` where `d` is 16 or more.
pub fn char_of(d: u8) -> (c: char)
    ensures
        c == digit_char(d as int),
        is_hex_digit(c),
        d < 16 ==> digit_value(c) == d,
{
    if d < 10 {
        (48u8 + d) as char
    } else if d < 16 {
        (87u8 + d) as char
    } else {
        '0'
    }
}

/// Tells whether every character of `v` is a hexadecimal digit.
pub fn is_all_hex(v: &Vec<char>) -> (b: bool)
    ensures
        b == all_hex(v@),
{
    let mut i: usize = 0;
    while i < v.len()
        invariant
            i <= v.len(),
            all_hex(v@.take(i as int)),
        decreases v.len() - i,
    {
        if !is_hex(v[i]) {
            return false;
        }
        i = i + 1;
    }
    proof {
        assert(v@.take(v.len() as int) =~= v@);
    }
    true
}

/// Tells whether every character of `v` is a decimal digit.
pub fn is_all_dec(v: &Vec<char>) -> (b: bool)
    ensures
        b == all_dec(v@),
{
    let mut i: usize = 0;
    while i < v.len()
        invariant
            i <= v.len(),
            all_dec(v@.take(i as int)),
        decreases v.len() - i,
    {
        if !is_dec(v[i]) {
            return false;
        }
        i = i + 1;
    }
    proof {
        assert(v@.take(v.len() as int) =~= v@);
    }
    true
}

/// Reads `v` as a decimal number: the number that its digits spell, where
/// it holds digits alone and the number fits in 64 signed bits.
pub fn parse_dec(v: &Vec<char>) -> (r: Option<i64>)
    ensures
        r == (if all_dec(v@) && dec_value(v@) <= i64::MAX {
            Some(dec_value(v@) as i64)
        } else {
            None
        }),
{
    if !is_all_dec(v) {
        return None;
    }
    let mut acc: i64 = 0;
    let mut i: usize = 0;
    while i < v.len()
        invariant
            i <= v.len(),
            all_dec(v@),
            0 <= acc,
            acc == dec_value(v@.take(i as int)),
        decreases v.len() - i,
    {
        let d: i64 = value_of(v[i]) as i64;
        proof {
            assert(v@.take(i + 1).drop_last() =~= v@.take(i as int));
            assert(v@.take(i + 1).last() == v@[i as int]);
        }
        if acc > (i64::MAX - d) / 10 {
            proof {
                lemma_dec_value_prefix(v@, i + 1);
            }
            return None;
        }
        acc = acc * 10 + d;
        i = i + 1;
    }
    proof {
        assert(v@.take(v.len() as int) =~= v@);
    }
    Some(acc)
}

/// Reads `v` as a hexadecimal number: the number that its digits spell, where
/// it holds digits alone and the number fits in 64 signed bits.
pub fn parse_hex(v: &Vec<char>) -> (r: Option<i64>)
    ensures
        r == (if all_hex(v@) && hex_value(v@) <= i64::MAX {
            Some(hex_value(v@) as i64)
        } else {
            None
        }),
{
    if !is_all_hex(v) {
        return None;
    }
    let mut acc: i64 = 0;
    let mut i: usize = 0;
    while i < v.len()
        invariant
            i <= v.len(),
            all_hex(v@),
            0 <= acc,
            acc == hex_value(v@.take(i as int)),
        decreases v.len() - i,
    {
        let d: i64 = value_of(v[i]) as i64;
        proof {
            assert(v@.take(i + 1).drop_last() =~= v@.take(i as int));
            assert(v@.take(i + 1).last() == v@[i as int]);
        }
        if acc > (i64::MAX - d) / 16 {
            proof {
                lemma_hex_value_prefix(v@, i + 1);
            }
            return None;
        }
        acc = acc * 16 + d;
        i = i + 1;
    }
    proof {
        assert(v@.take(v.len() as int) =~= v@);
    }
    Some(acc)
}

/// Appends to `out` the shortest decimal spelling of `n`.
pub fn push_dec(n: u64, out: &mut Vec<char>)
    ensures
        final(out)@ == old(out)@ + dec_digits(n as nat),
    decreases n,
{
    if n >= 10 {
        push_dec(n / 10, out);
    }
    out.push(char_of((n % 10) as u8));
}

/// Appends to `out` the shortest lower-case hexadecimal spelling of `n`.
pub fn push_hex(n: u64, out: &mut Vec<char>)
    ensures
        final(out)@ == old(out)@ + hex_digits(n as nat),
    decreases n,
{
    if n >= 16 {
        push_hex(n / 16, out);
    }
    out.push(char_of((n % 16) as u8));
}

} // verus!
