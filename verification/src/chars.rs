//! Character-level helpers: ASCII digits, rendering a `u8` in decimal, and
//! parsing a decimal `u8` the way `str::parse::<u8>` does.

use vstd::prelude::*;

verus! {

/// True when `c` is an ASCII decimal digit.
pub open spec fn spec_is_digit(c: char) -> bool {
    '0' <= c && c <= '9'
}

/// Numeric value of an ASCII digit character.
pub open spec fn spec_digit_val(c: char) -> nat {
    (c as nat - '0' as nat) as nat
}

/// The ASCII digit character for a value below ten.
pub open spec fn spec_digit_char(d: nat) -> char {
    if d == 0 {
        '0'
    } else if d == 1 {
        '1'
    } else if d == 2 {
        '2'
    } else if d == 3 {
        '3'
    } else if d == 4 {
        '4'
    } else if d == 5 {
        '5'
    } else if d == 6 {
        '6'
    } else if d == 7 {
        '7'
    } else if d == 8 {
        '8'
    } else {
        '9'
    }
}

/// Decimal rendering of `n`, most significant digit first, no leading zeros.
pub open spec fn spec_digits(n: nat) -> Seq<char>
    decreases n,
{
    if n < 10 {
        seq![spec_digit_char(n)]
    } else {
        spec_digits(n / 10).push(spec_digit_char(n % 10))
    }
}

/// Value of a digit string read as a decimal number.
pub open spec fn spec_digits_val(s: Seq<char>) -> nat
    decreases s.len(),
{
    if s.len() == 0 {
        0
    } else {
        spec_digits_val(s.drop_last()) * 10 + spec_digit_val(s.last())
    }
}

/// True when every character of `s` is an ASCII digit.
pub open spec fn spec_all_digits(s: Seq<char>) -> bool {
    forall|i: int| 0 <= i < s.len() ==> spec_is_digit(#[trigger] s[i])
}

/// What `str::parse::<u8>` returns on `s`: an optional leading `+`, then one
/// or more digits whose value fits in eight bits.
pub open spec fn spec_parse_u8(s: Seq<char>) -> Option<u8> {
    let t = if s.len() > 0 && s[0] == '+' {
        s.skip(1)
    } else {
        s
    };
    if t.len() > 0 && spec_all_digits(t) && spec_digits_val(t) <= 255 {
        Some(spec_digits_val(t) as u8)
    } else {
        None
    }
}

pub fn is_digit(c: char) -> (r: bool)
    ensures
        r == spec_is_digit(c),
{
    '0' <= c && c <= '9'
}

pub fn digit_val(c: char) -> (r: u8)
    requires
        spec_is_digit(c),
    ensures
        r == spec_digit_val(c),
        r < 10,
{
    match c {
        '0' => 0,
        '1' => 1,
        '2' => 2,
        '3' => 3,
        '4' => 4,
        '5' => 5,
        '6' => 6,
        '7' => 7,
        '8' => 8,
        _ => 9,
    }
}

pub fn digit_char(d: u8) -> (c: char)
    requires
        d < 10,
    ensures
        c == spec_digit_char(d as nat),
{
    match d {
        0 => '0',
        1 => '1',
        2 => '2',
        3 => '3',
        4 => '4',
        5 => '5',
        6 => '6',
        7 => '7',
        8 => '8',
        _ => '9',
    }
}

/// Relies on `String::push`: appends exactly one character to the string.
#[verifier::external_body]
pub fn push_char(s: &mut String, c: char)
    ensures
        final(s)@ == old(s)@.push(c),
{
    s.push(c);
}

/// Renders `n` in decimal, most significant digit first.
pub fn u8_to_string(n: u8) -> (r: String)
    ensures
        r@ == spec_digits(n as nat),
{
    let mut s = String::new();
    if n >= 100 {
        push_char(&mut s, digit_char(n / 100));
    }
    if n >= 10 {
        push_char(&mut s, digit_char((n / 10) % 10));
    }
    push_char(&mut s, digit_char(n % 10));
    proof {
        if n < 10 {
            assert(s@ =~= spec_digits(n as nat));
        } else if n < 100 {
            assert(n as nat / 10 < 10);
            assert(spec_digits(n as nat) == spec_digits(n as nat / 10).push(
                spec_digit_char(n as nat % 10),
            ));
            assert((n / 10) % 10 == n / 10);
            assert(s@ =~= spec_digits(n as nat));
        } else {
            assert(spec_digits(n as nat) == spec_digits(n as nat / 10).push(
                spec_digit_char(n as nat % 10),
            ));
            assert(n as nat / 10 >= 10);
            assert(spec_digits(n as nat / 10) == spec_digits(n as nat / 10 / 10).push(
                spec_digit_char(n as nat / 10 % 10),
            ));
            assert(n as nat / 10 / 10 == n as nat / 100);
            assert(n as nat / 100 < 10);
            assert(s@ =~= spec_digits(n as nat));
        }
    }
    s
}

/// The value of a digit string never shrinks as more digits are appended.
proof fn lemma_digits_val_prefix(t: Seq<char>, i: int)
    requires
        0 <= i <= t.len(),
    ensures
        spec_digits_val(t.take(i)) <= spec_digits_val(t),
    decreases t.len(),
{
    if i < t.len() {
        lemma_digits_val_prefix(t.drop_last(), i);
        assert(t.drop_last().take(i) =~= t.take(i));
        assert(spec_digits_val(t) == spec_digits_val(t.drop_last()) * 10 + spec_digit_val(t.last()));
        assert(spec_digits_val(t.drop_last()) * 10 >= spec_digits_val(t.drop_last()));
    } else {
        assert(t.take(i) =~= t);
    }
}

/// Parses `s` as `str::parse::<u8>` would.
pub fn parse_u8(s: &str) -> (r: Option<u8>)
    ensures
        r == spec_parse_u8(s@),
{
    let len = s.unicode_len();
    let start: usize = if len > 0 && s.get_char(0) == '+' {
        1
    } else {
        0
    };
    let ghost t = if s@.len() > 0 && s@[0] == '+' {
        s@.skip(1)
    } else {
        s@
    };
    proof {
        assert(t =~= s@.subrange(start as int, len as int));
    }
    if start == len {
        return None;
    }
    let mut v: u32 = 0;
    let mut i: usize = start;
    while i < len
        invariant
            start <= i <= len,
            len == s@.len(),
            t == s@.subrange(start as int, len as int),
            t == (if s@.len() > 0 && s@[0] == '+' {
                s@.skip(1)
            } else {
                s@
            }),
            spec_all_digits(s@.subrange(start as int, i as int)),
            v == spec_digits_val(s@.subrange(start as int, i as int)),
            v <= 255,
        decreases len - i,
    {
        let c = s.get_char(i);
        if !is_digit(c) {
            proof {
                assert(t[i - start] == c);
                assert(!spec_all_digits(t));
            }
            return None;
        }
        let d = digit_val(c);
        let w = v * 10 + (d as u32);
        proof {
            assert(s@.subrange(start as int, i + 1).drop_last() =~= s@.subrange(
                start as int,
                i as int,
            ));
            assert(s@.subrange(start as int, i + 1).last() == c);
        }
        if w > 255 {
            proof {
                lemma_digits_val_prefix(t, i + 1 - start);
                assert(t.take(i + 1 - start) =~= s@.subrange(start as int, i + 1));
                assert(spec_digits_val(t) >= w);
            }
            return None;
        }
        v = w;
        i = i + 1;
    }
    proof {
        assert(s@.subrange(start as int, len as int) =~= t);
        assert(t.len() > 0);
    }
    Some(v as u8)
}

} // verus!
