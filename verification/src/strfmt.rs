//! Verified rendering of integers as lowercase hexadecimal and decimal text.

use vstd::prelude::*;
use vstd::arithmetic::div_mod::lemma_div_denominator;

verus! {

/// Relies on `String::push`: appends exactly the given character at the end
/// of the string.
#[verifier::external_body]
pub(crate) fn push_char(s: &mut String, c: char)
    ensures
        final(s)@ == old(s)@.push(c),
{
    s.push(c)
}

/// The lowercase hexadecimal digit character for a value below sixteen.
pub open spec fn spec_hex_char(d: int) -> char {
    if d == 0 {
        '0'
    } else if d == 1 {
        '1'
    } else if d == 2 {
        '2'
    } else if d == 3 {
        '3'
    } else if d == 4 {
        '4'
    } else if d == 5 {
        '5'
    } else if d == 6 {
        '6'
    } else if d == 7 {
        '7'
    } else if d == 8 {
        '8'
    } else if d == 9 {
        '9'
    } else if d == 10 {
        'a'
    } else if d == 11 {
        'b'
    } else if d == 12 {
        'c'
    } else if d == 13 {
        'd'
    } else if d == 14 {
        'e'
    } else {
        'f'
    }
}

/// True for the characters that lowercase hexadecimal output is made of.
pub open spec fn is_hex_lower(c: char) -> bool {
    ('0' <= c && c <= '9') || ('a' <= c && c <= 'f')
}

pub fn hex_char(d: u8) -> (c: char)
    requires
        d < 16,
    ensures
        c == spec_hex_char(d as int),
{
    match d {
        0 => '0',
        1 => '1',
        2 => '2',
        3 => '3',
        4 => '4',
        5 => '5',
        6 => '6',
        7 => '7',
        8 => '8',
        9 => '9',
        10 => 'a',
        11 => 'b',
        12 => 'c',
        13 => 'd',
        14 => 'e',
        _ => 'f',
    }
}

pub open spec fn pow16(k: nat) -> int
    decreases k,
{
    if k == 0 {
        1
    } else {
        16 * pow16((k - 1) as nat)
    }
}

pub proof fn lemma_pow16_pos(k: nat)
    ensures
        pow16(k) >= 1,
    decreases k,
{
    if k > 0 {
        lemma_pow16_pos((k - 1) as nat);
    }
}

/// The value `x` written as exactly `width` lowercase hexadecimal digits,
/// most significant first; digits beyond `width` are dropped.
pub open spec fn spec_hex_seq(x: int, width: nat) -> Seq<char>
    recommends
        x >= 0,
    decreases width,
{
    if width == 0 {
        Seq::empty()
    } else {
        spec_hex_seq(x / 16, (width - 1) as nat).push(spec_hex_char(x % 16))
    }
}

pub proof fn lemma_hex_seq_index(x: int, width: nat)
    requires
        x >= 0,
    ensures
        spec_hex_seq(x, width).len() == width,
        forall|i: int|
            0 <= i < width ==> spec_hex_seq(x, width)[i] == spec_hex_char(
                (x / pow16((width - 1 - i) as nat)) % 16,
            ),
    decreases width,
{
    if width > 0 {
        lemma_hex_seq_index(x / 16, (width - 1) as nat);
        assert forall|i: int| 0 <= i < width implies spec_hex_seq(x, width)[i] == spec_hex_char(
            (x / pow16((width - 1 - i) as nat)) % 16,
        ) by {
            if i < width - 1 {
                lemma_pow16_pos((width - 2 - i) as nat);
                lemma_div_denominator(x, 16, pow16((width - 2 - i) as nat));
                assert(pow16((width - 1 - i) as nat) == 16 * pow16((width - 2 - i) as nat));
                assert(spec_hex_seq(x, width)[i] == spec_hex_seq(x / 16, (width - 1) as nat)[i]);
            } else {
                assert(pow16(0) == 1);
                assert(x / 1 == x);
            }
        }
    }
}

/// Every character of a fixed-width hexadecimal rendering is a lowercase
/// hexadecimal digit.
pub proof fn lemma_hex_seq_chars(x: int, width: nat)
    requires
        x >= 0,
    ensures
        spec_hex_seq(x, width).len() == width,
        forall|i: int| 0 <= i < width ==> is_hex_lower(#[trigger] spec_hex_seq(x, width)[i]),
    decreases width,
{
    if width > 0 {
        lemma_hex_seq_chars(x / 16, (width - 1) as nat);
        assert(0 <= x % 16 < 16);
        assert(is_hex_lower(spec_hex_char(x % 16)));
    }
}

/// The value `x` written in decimal with no leading zeros (a single zero
/// digit for zero itself).
pub open spec fn spec_dec_seq(x: int) -> Seq<char>
    recommends
        x >= 0,
    decreases x,
{
    if x < 10 {
        seq![spec_hex_char(x)]
    } else {
        spec_dec_seq(x / 10).push(spec_hex_char(x % 10))
    }
}

/// Appends the characters of `digits` to `s`, last character first.
fn append_rev_chars(s: &mut String, digits: &Vec<char>)
    ensures
        final(s)@ == old(s)@ + digits@.reverse(),
{
    let ghost base = s@.len() as int;
    let n = digits.len();
    let mut k: usize = n;
    while k > 0
        invariant
            k <= n,
            n == digits@.len(),
            s@.len() == base + (n - k),
            forall|t: int| 0 <= t < base ==> s@[t] == old(s)@[t],
            forall|t: int| 0 <= t < n - k ==> #[trigger] s@[base + t] == digits@[n - 1 - t],
            base == old(s)@.len(),
        decreases k,
    {
        k = k - 1;
        let c = digits[k];
        push_char(s, c);
    }
    proof {
        let r = digits@.reverse();
        assert forall|i: int| 0 <= i < s@.len() implies s@[i] == (old(s)@ + r)[i] by {
            if base <= i {
                let t = i - base;
                assert(s@[base + t] == digits@[n - 1 - t]);
            }
        }
        assert(s@ =~= old(s)@ + digits@.reverse());
    }
}

/// Appends `x` to `s` as exactly `width` lowercase hexadecimal digits,
/// most significant first.
pub fn append_hex(s: &mut String, x: u64, width: usize)
    ensures
        final(s)@ == old(s)@ + spec_hex_seq(x as int, width as nat),
{
    let mut digits: Vec<char> = Vec::new();
    let mut v: u64 = x;
    let mut j: usize = 0;
    while j < width
        invariant
            j <= width,
            digits@.len() == j,
            v as int == x as int / pow16(j as nat),
            forall|i: int|
                0 <= i < j ==> digits@[i] == spec_hex_char(
                    (x as int / pow16(i as nat)) % 16,
                ),
        decreases width - j,
    {
        let d: u8 = (v % 16) as u8;
        digits.push(hex_char(d));
        proof {
            lemma_pow16_pos(j as nat);
            lemma_div_denominator(x as int, pow16(j as nat), 16);
            assert(pow16((j + 1) as nat) == 16 * pow16(j as nat));
        }
        v = v / 16;
        j = j + 1;
    }
    proof {
        lemma_hex_seq_index(x as int, width as nat);
        assert(digits@.reverse() =~= spec_hex_seq(x as int, width as nat));
    }
    append_rev_chars(s, &digits);
}

/// Appends `x` to `s` in decimal with no leading zeros.
pub fn append_dec(s: &mut String, x: u32)
    ensures
        final(s)@ == old(s)@ + spec_dec_seq(x as int),
{
    let mut digits: Vec<char> = Vec::new();
    let mut v: u32 = x / 10;
    digits.push(hex_char((x % 10) as u8));
    proof {
        if v > 0 {
            assert(spec_dec_seq(x as int) =~= spec_dec_seq(v as int) + digits@.reverse());
        } else {
            assert(spec_dec_seq(x as int) =~= digits@.reverse());
        }
    }
    while v > 0
        invariant
            digits@.len() >= 1,
            v > 0 ==> spec_dec_seq(x as int) =~= spec_dec_seq(v as int) + digits@.reverse(),
            v == 0 ==> spec_dec_seq(x as int) =~= digits@.reverse(),
        decreases v,
    {
        let d: u8 = (v % 10) as u8;
        let ghost prev = digits@;
        let ghost vprev = v as int;
        digits.push(hex_char(d));
        proof {
            assert(digits@.reverse() =~= seq![spec_hex_char(vprev % 10)] + prev.reverse());
            if vprev / 10 > 0 {
                assert(spec_dec_seq(vprev) == spec_dec_seq(vprev / 10).push(
                    spec_hex_char(vprev % 10),
                ));
                assert(spec_dec_seq(vprev) + prev.reverse() =~= spec_dec_seq(vprev / 10)
                    + digits@.reverse());
            } else {
                assert(vprev < 10);
                assert(spec_dec_seq(vprev) + prev.reverse() =~= digits@.reverse());
            }
        }
        v = v / 10;
    }
    append_rev_chars(s, &digits);
}

} // verus!
