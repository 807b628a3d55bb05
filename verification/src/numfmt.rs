use vstd::prelude::*;

verus! {

/// The decimal digit character for `d`, which must lie in `0 ..= 9`.
pub open spec fn digit_char(d: int) -> char
    recommends
        0 <= d <= 9,
{
    if d == 0 {
        '0'
    } else if d == 1 {
        '1'
    } else if d == 2 {
        '2'
    } else if d == 3 {
        '3'
    } else if d == 4 {
        '4'
    } else if d == 5 {
        '5'
    } else if d == 6 {
        '6'
    } else if d == 7 {
        '7'
    } else if d == 8 {
        '8'
    } else {
        '9'
    }
}

/// The decimal digits of `n`, most significant first, with no sign and no
/// leading zeros (except for `n == 0`, which is the single digit `0`).
pub open spec fn dec_digits(n: nat) -> Seq<char>
    decreases n,
{
    if n < 10 {
        seq![digit_char(n as int)]
    } else {
        dec_digits(n / 10) + seq![digit_char((n % 10) as int)]
    }
}

/// The decimal rendering of a signed value: a leading `-` for negative
/// values, then the digits of the magnitude.
pub open spec fn dec_str(v: int) -> Seq<char> {
    if v < 0 {
        seq!['-'] + dec_digits((-v) as nat)
    } else {
        dec_digits(v as nat)
    }
}

/// Relies on `alloc::string::String::push`, which the standard library
/// documents as appending the given character to the end of the string.
pub assume_specification[ String::push ](s: &mut String, c: char)
    ensures
        final(s)@ == old(s)@.push(c),
;

/// Appends the decimal digits of `n` (most significant first) to `out`.
pub fn push_dec_u64(out: &mut String, n: u64)
    ensures
        final(out)@ == old(out)@ + dec_digits(n as nat),
    decreases n,
{
    if n >= 10 {
        push_dec_u64(out, n / 10);
    }
    let d = (n % 10) as u8;
    let c: char = if d == 0 {
        '0'
    } else if d == 1 {
        '1'
    } else if d == 2 {
        '2'
    } else if d == 3 {
        '3'
    } else if d == 4 {
        '4'
    } else if d == 5 {
        '5'
    } else if d == 6 {
        '6'
    } else if d == 7 {
        '7'
    } else if d == 8 {
        '8'
    } else {
        '9'
    };
    assert(c == digit_char((n % 10) as int));
    out.push(c);
    proof {
        if n < 10 {
            assert(old(out)@ + dec_digits(n as nat) =~= old(out)@.push(c));
        } else {
            assert(old(out)@ + dec_digits(n as nat) =~= (old(out)@ + dec_digits(
                (n / 10) as nat,
            )).push(c));
        }
    }
}

/// Appends the decimal rendering of the signed value `v` to `out`.
pub fn push_dec_i64(out: &mut String, v: i64)
    ensures
        final(out)@ == old(out)@ + dec_str(v as int),
{
    if v < 0 {
        out.push('-');
        let wide: i128 = v as i128;
        let mag: u64 = (-wide) as u64;
        assert(mag as int == -(v as int));
        push_dec_u64(out, mag);
        proof {
            assert(old(out)@ + dec_str(v as int) =~= old(out)@.push('-') + dec_digits(
                mag as nat,
            ));
        }
    } else {
        push_dec_u64(out, v as u64);
    }
}

/// The decimal rendering of `v` as an owned string, e.g. `-42` to `"-42"`.
pub fn i64_to_string(v: i64) -> (r: String)
    ensures
        r@ == dec_str(v as int),
{
    let mut out = String::new();
    push_dec_i64(&mut out, v);
    proof {
        assert(Seq::<char>::empty() + dec_str(v as int) =~= dec_str(v as int));
    }
    out
}

} // verus!
