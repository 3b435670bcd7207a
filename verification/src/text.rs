use vstd::prelude::*;
use vstd::string::StrSliceExecFns;

verus! {

/// The view of an optional string.
pub open spec fn opt_str_view(o: Option<String>) -> Option<Seq<char>> {
    match o {
        Some(s) => Some(s@),
        None => None,
    }
}

/// Relies on std's `String::push`: appends exactly one character.
#[verifier::external_body]
pub(crate) fn push_char(s: &mut String, c: char)
    ensures
        final(s)@ == old(s)@ + seq![c],
{
    s.push(c);
}

/// Compare two string slices character by character.
pub fn str_eq(a: &str, b: &str) -> (r: bool)
    ensures
        r == (a@ == b@),
{
    let alen = a.unicode_len();
    let blen = b.unicode_len();
    if alen != blen {
        return false;
    }
    for i in 0..alen
        invariant
            alen == a@.len(),
            alen == b@.len(),
            forall|j: int| 0 <= j < i ==> a@[j] == b@[j],
    {
        if a.get_char(i) != b.get_char(i) {
            return false;
        }
    }
    proof {
        assert(a@ =~= b@);
    }
    true
}

/// The character for one decimal digit.
pub open spec fn spec_digit_char(d: u8) -> char {
    ((48 + d) as u8) as char
}

/// Zero-padded two-digit decimal rendering of a number below one hundred.
pub open spec fn spec_two_digits(n: u8) -> Seq<char> {
    seq![spec_digit_char((n / 10) as u8), spec_digit_char((n % 10) as u8)]
}

fn digit_char(d: u8) -> (c: char)
    requires
        d <= 9,
    ensures
        c == spec_digit_char(d),
{
    (48 + d) as char
}

/// Append the zero-padded two-digit decimal rendering of `n`.
pub fn push_two_digits(s: &mut String, n: u8)
    requires
        n <= 99,
    ensures
        final(s)@ == old(s)@ + spec_two_digits(n),
{
    let hi = digit_char(n / 10);
    let lo = digit_char(n % 10);
    push_char(s, hi);
    push_char(s, lo);
    proof {
        assert(s@ =~= old(s)@ + spec_two_digits(n));
    }
}

} // verus!
