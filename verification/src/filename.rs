use vstd::prelude::*;
use vstd::string::{StrSliceExecFns, StringExecFns};

use crate::text::push_char;

verus! {

/// Characters a derived store name may keep: alphanumerics and a small set
/// of punctuation safe in a filesystem name.
pub open spec fn spec_allowed_char(c: char) -> bool {
    ('0' <= c && c <= '9') || ('a' <= c && c <= 'z') || ('A' <= c && c <= 'Z') || c == '+' || c
        == '-' || c == '.' || c == '_' || c == '?' || c == '='
}

/// How one character past the first is sanitized.
pub open spec fn spec_sanitize_tail_char(c: char) -> char {
    if spec_allowed_char(c) {
        c
    } else {
        '_'
    }
}

/// The filesystem-safe store name derived from a filename: a leading dot
/// becomes an underscore (no hidden-file ambiguity), every later character
/// outside the allowed set becomes an underscore, and an empty name falls
/// back to the fixed name `source`.
pub open spec fn spec_sanitize(s: Seq<char>) -> Seq<char> {
    if s.len() == 0 {
        "source"@
    } else {
        seq![
            if s[0] == '.' {
                '_'
            } else {
                s[0]
            },
        ] + Seq::new((s.len() - 1) as nat, |i: int| spec_sanitize_tail_char(s[i + 1]))
    }
}

/// Derive a filesystem-safe store name from a filename, per `spec_sanitize`.
pub fn sanitize_file_name(name: &str) -> (r: String)
    ensures
        r@ == spec_sanitize(name@),
{
    let n = name.unicode_len();
    if n == 0 {
        return String::from_str("source");
    }
    let mut out = String::new();
    let first = name.get_char(0);
    if first == '.' {
        push_char(&mut out, '_');
    } else {
        push_char(&mut out, first);
    }
    let mut i: usize = 1;
    while i < n
        invariant
            1 <= i <= n,
            n == name@.len(),
            out@ == seq![
                if name@[0] == '.' {
                    '_'
                } else {
                    name@[0]
                },
            ] + Seq::new((i - 1) as nat, |j: int| spec_sanitize_tail_char(name@[j + 1])),
        decreases n - i,
    {
        let c = name.get_char(i);
        let mapped = if ('0' <= c && c <= '9') || ('a' <= c && c <= 'z') || ('A' <= c && c <= 'Z')
            || c == '+' || c == '-' || c == '.' || c == '_' || c == '?' || c == '=' {
            c
        } else {
            '_'
        };
        push_char(&mut out, mapped);
        i = i + 1;
        proof {
            assert(out@ =~= seq![
                if name@[0] == '.' {
                    '_'
                } else {
                    name@[0]
                },
            ] + Seq::new((i - 1) as nat, |j: int| spec_sanitize_tail_char(name@[j + 1])));
        }
    }
    proof {
        assert(out@ =~= spec_sanitize(name@));
    }
    out
}

/// Derive the advisory store name from an optional filename hint; a missing
/// hint falls back to the fixed name `source`, as an empty hint does.
pub fn store_name(hint: Option<&str>) -> (r: String)
    ensures
        r@ == (match hint {
            Some(h) => spec_sanitize(h@),
            None => "source"@,
        }),
{
    match hint {
        Some(h) => sanitize_file_name(h),
        None => String::from_str("source"),
    }
}

/// Law: for every input whose first character is itself allowed or a dot,
/// sanitization yields a non-empty name made only of allowed characters and
/// underscores; a leading dot becomes an underscore, and an empty input
/// yields the fixed fallback name.
///
/// A first character outside the allowed set and other than a dot is kept as
/// it is, so such inputs are left out here.
pub proof fn lemma_sanitize_safe(s: Seq<char>)
    requires
        s.len() == 0 || spec_allowed_char(s[0]) || s[0] == '.',
    ensures
        spec_sanitize(s).len() > 0,
        forall|i: int|
            0 <= i < spec_sanitize(s).len() ==> spec_allowed_char(#[trigger] spec_sanitize(s)[i])
                || spec_sanitize(s)[i] == '_',
        s.len() > 0 && s[0] == '.' ==> spec_sanitize(s)[0] == '_',
        s.len() == 0 ==> spec_sanitize(s) == "source"@,
{
    reveal_strlit("source");
}

} // verus!
