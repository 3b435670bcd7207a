use vstd::prelude::*;
use vstd::string::StrSliceExecFns;

use crate::text::opt_str_view;

verus! {

/// The fetch oracle's output with at most one trailing newline removed.
///
/// The oracle prints the native hash followed by a newline; exactly one is
/// trimmed, so an output that already lacked it passes through unchanged and
/// one with two trailing newlines keeps one.
pub open spec fn spec_trim_one_newline(s: Seq<u8>) -> Seq<u8> {
    if s.len() > 0 && s[s.len() - 1] == 10 {
        s.drop_last()
    } else {
        s
    }
}

/// Trim exactly one trailing newline byte from the fetch oracle's output, if
/// one is present.
pub fn trim_fetch_output(out: Vec<u8>) -> (r: Vec<u8>)
    ensures
        r@ == spec_trim_one_newline(out@),
{
    let ghost orig = out@;
    let mut v = out;
    if v.len() > 0 && v[v.len() - 1] == 10 {
        v.pop();
        proof {
            assert(v@ =~= spec_trim_one_newline(orig));
        }
    }
    v
}

/// An ASCII whitespace character: space, tab, newline or carriage return.
pub open spec fn spec_is_ws(c: char) -> bool {
    c == ' ' || c == '\t' || c == '\n' || c == '\r'
}

/// `s` without its leading whitespace.
pub open spec fn spec_trim_start(s: Seq<char>) -> Seq<char>
    decreases s.len(),
{
    if s.len() > 0 && spec_is_ws(s[0]) {
        spec_trim_start(s.drop_first())
    } else {
        s
    }
}

/// `s` without its trailing whitespace.
pub open spec fn spec_trim_end(s: Seq<char>) -> Seq<char>
    decreases s.len(),
{
    if s.len() > 0 && spec_is_ws(s[s.len() - 1]) {
        spec_trim_end(s.drop_last())
    } else {
        s
    }
}

/// `s` without surrounding whitespace.
pub open spec fn spec_trim(s: Seq<char>) -> Seq<char> {
    spec_trim_end(spec_trim_start(s))
}

proof fn lemma_trim_start_range(s: Seq<char>, a: int)
    requires
        0 <= a <= s.len(),
        forall|j: int| 0 <= j < a ==> spec_is_ws(s[j]),
        a < s.len() ==> !spec_is_ws(s[a]),
    ensures
        spec_trim_start(s) == s.subrange(a, s.len() as int),
    decreases a,
{
    if a == 0 {
        assert(s.subrange(0, s.len() as int) =~= s);
    } else {
        lemma_trim_start_range(s.drop_first(), a - 1);
        assert(s.drop_first().subrange(a - 1, s.drop_first().len() as int) =~= s.subrange(
            a,
            s.len() as int,
        ));
    }
}

proof fn lemma_trim_end_range(s: Seq<char>, b: int)
    requires
        0 <= b <= s.len(),
        forall|j: int| b <= j < s.len() ==> spec_is_ws(s[j]),
        b > 0 ==> !spec_is_ws(s[b - 1]),
    ensures
        spec_trim_end(s) == s.subrange(0, b),
    decreases s.len() - b,
{
    if b == s.len() {
        assert(s.subrange(0, s.len() as int) =~= s);
    } else {
        lemma_trim_end_range(s.drop_last(), b);
        assert(s.drop_last().subrange(0, b) =~= s.subrange(0, b));
    }
}

fn is_ws_char(c: char) -> (r: bool)
    ensures
        r == spec_is_ws(c),
{
    c == ' ' || c == '\t' || c == '\n' || c == '\r'
}

/// Trim surrounding ASCII whitespace, as the conversion oracle's output is
/// cleaned before parsing.
pub fn trim_whitespace(s: &str) -> (r: String)
    ensures
        r@ == spec_trim(s@),
{
    let n = s.unicode_len();
    let mut a: usize = 0;
    while a < n
        invariant_except_break
            a <= n,
            n == s@.len(),
            forall|j: int| 0 <= j < a ==> spec_is_ws(s@[j]),
        ensures
            a <= n,
            n == s@.len(),
            forall|j: int| 0 <= j < a ==> spec_is_ws(s@[j]),
            a < n ==> !spec_is_ws(s@[a as int]),
        decreases n - a,
    {
        if is_ws_char(s.get_char(a)) {
            a = a + 1;
        } else {
            break ;
        }
    }
    let mut b: usize = n;
    while b > a
        invariant_except_break
            a <= b <= n,
            n == s@.len(),
            forall|j: int| b <= j < n ==> spec_is_ws(s@[j]),
        ensures
            a <= b <= n,
            n == s@.len(),
            forall|j: int| b <= j < n ==> spec_is_ws(s@[j]),
            b > a ==> !spec_is_ws(s@[b - 1]),
        decreases b,
    {
        if is_ws_char(s.get_char(b - 1)) {
            b = b - 1;
        } else {
            break ;
        }
    }
    proof {
        lemma_trim_start_range(s@, a as int);
        let t = s@.subrange(a as int, n as int);
        lemma_trim_end_range(t, b - a);
        assert(t.subrange(0, b - a) =~= s@.subrange(a as int, b as int));
    }
    s.substring_char(a, b).to_owned()
}

/// What parsing a subresource-integrity string yields: the canonical
/// rendering of the parsed value, which depends on the string alone; `None`
/// where the string does not parse.
pub uninterp spec fn spec_integrity_parse(s: Seq<char>) -> Option<Seq<char>>;

/// Relies on ssri's `Integrity`: `from_str` parses a subresource-integrity
/// string (an error becomes `None`) and `to_string` renders the parsed value
/// canonically; both depend on the input string alone.
#[verifier::external_body]
pub(crate) fn integrity_parse(s: &str) -> (r: Option<String>)
    ensures
        opt_str_view(r) == spec_integrity_parse(s@),
{
    s.parse::<ssri::Integrity>().ok().map(|i| i.to_string())
}

} // verus!
