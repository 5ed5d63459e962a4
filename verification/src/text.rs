use vstd::prelude::*;

verus! {

/// Appending one character to an owned string.
///
/// Relies on `String::push`: the given character is appended to the end of
/// the string and nothing else changes.
#[verifier::external_body]
pub(crate) fn push_char(s: &mut String, c: char)
    ensures
        final(s)@ == old(s)@.push(c),
{
    s.push(c);
}

/// The decimal digit `d` as a character, for `0 <= d <= 9`.
pub open spec fn digit_char(d: int) -> char {
    ((48 + d) as u8) as char
}

/// The decimal numeral of a non-negative integer, most significant digit
/// first, with no sign and no leading zeros (except for zero itself).
pub open spec fn decimal_of_nat(n: int) -> Seq<char>
    decreases n,
{
    if n < 10 {
        seq![digit_char(n)]
    } else {
        decimal_of_nat(n / 10).push(digit_char(n % 10))
    }
}

/// The decimal numeral of an integer: a leading minus sign when negative.
pub open spec fn decimal_of_int(n: int) -> Seq<char> {
    if n < 0 {
        seq!['-'] + decimal_of_nat(-n)
    } else {
        decimal_of_nat(n)
    }
}

/// The decimal digit `d` as a character, executable form.
fn digit_char_exec(d: u8) -> (c: char)
    requires
        d <= 9,
    ensures
        c == digit_char(d as int),
{
    (48 + d) as char
}

/// Append the decimal numeral of `n` to `out`.
fn push_decimal_of(out: &mut String, n: u64)
    ensures
        final(out)@ == old(out)@ + decimal_of_nat(n as int),
    decreases n,
{
    if n >= 10 {
        push_decimal_of(out, n / 10);
    }
    push_char(out, digit_char_exec((n % 10) as u8));
    proof {
        if n < 10 {
            assert(old(out)@.push(digit_char(n as int)) =~= old(out)@ + seq![
                digit_char(n as int),
            ]);
        } else {
            assert((old(out)@ + decimal_of_nat(n as int / 10)).push(digit_char(n as int % 10))
                =~= old(out)@ + decimal_of_nat(n as int / 10).push(digit_char(n as int % 10)));
        }
    }
}

/// Render a status code in decimal.
pub fn decimal_string(n: i32) -> (r: String)
    ensures
        r@ == decimal_of_int(n as int),
{
    let mut out = String::new();
    let wide: i64 = n as i64;
    let mag: u64;
    if wide < 0 {
        push_char(&mut out, '-');
        mag = (-wide) as u64;
    } else {
        mag = wide as u64;
    }
    push_decimal_of(&mut out, mag);
    proof {
        if (n as int) < 0 {
            assert(Seq::<char>::empty().push('-') + decimal_of_nat(mag as int) =~= seq!['-']
                + decimal_of_nat(-(n as int)));
        } else {
            assert(Seq::<char>::empty() + decimal_of_nat(mag as int) =~= decimal_of_nat(n as int));
        }
    }
    out
}

} // verus!
