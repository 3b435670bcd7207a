use vstd::prelude::*;
use vstd::string::StrSliceExecFns;

use crate::source::SourceType;
use crate::text::str_eq;

verus! {

/// Index of the last `.` in `s`, if any.
pub open spec fn spec_last_dot(s: Seq<char>) -> Option<int>
    decreases s.len(),
{
    if s.len() == 0 {
        None
    } else if s[s.len() - 1] == '.' {
        Some(s.len() - 1)
    } else {
        spec_last_dot(s.drop_last())
    }
}

/// The extension of a file name: what follows the last `.`, except that a
/// name whose only `.` leads it (a hidden file) has no extension.
pub open spec fn spec_extension(s: Seq<char>) -> Option<Seq<char>> {
    match spec_last_dot(s) {
        None => None,
        Some(d) => if d == 0 {
            None
        } else {
            Some(s.subrange(d + 1, s.len() as int))
        },
    }
}

/// The stem of a file name: what precedes the last `.`, or the whole name
/// where there is no extension.
pub open spec fn spec_stem(s: Seq<char>) -> Seq<char> {
    match spec_last_dot(s) {
        None => s,
        Some(d) => if d == 0 {
            s
        } else {
            s.subrange(0, d)
        },
    }
}

/// Classification inferred from a file name: `zip` and `tgz` extensions mark
/// an archive, as does a `tar` extension one level below the outermost one
/// (compound suffixes such as `.tar.gz`); everything else is a single file.
pub open spec fn spec_infer_type(name: Seq<char>) -> SourceType {
    if spec_extension(name) == Some("zip"@) || spec_extension(name) == Some("tgz"@) {
        SourceType::Tarball
    } else if spec_extension(spec_stem(name)) == Some("tar"@) {
        SourceType::Tarball
    } else {
        SourceType::File
    }
}

/// Resolved classification: an explicit choice always wins; otherwise it is
/// inferred from the filename hint, and without a hint the content is a file.
pub open spec fn spec_classify(explicit: Option<SourceType>, hint: Option<Seq<char>>) -> SourceType {
    match explicit {
        Some(t) => t,
        None => match hint {
            Some(h) => spec_infer_type(h),
            None => SourceType::File,
        },
    }
}

proof fn lemma_last_dot_none(s: Seq<char>)
    requires
        forall|j: int| 0 <= j < s.len() ==> s[j] != '.',
    ensures
        spec_last_dot(s) is None,
    decreases s.len(),
{
    if s.len() > 0 {
        lemma_last_dot_none(s.drop_last());
    }
}

proof fn lemma_last_dot_at(s: Seq<char>, d: int)
    requires
        0 <= d < s.len(),
        s[d] == '.',
        forall|j: int| d < j < s.len() ==> s[j] != '.',
    ensures
        spec_last_dot(s) == Some(d),
    decreases s.len(),
{
    if d == s.len() - 1 {
    } else {
        lemma_last_dot_at(s.drop_last(), d);
    }
}

/// Index of the last `.` in `s`, if any.
fn last_dot(s: &str) -> (r: Option<usize>)
    ensures
        match r {
            None => spec_last_dot(s@) is None,
            Some(d) => spec_last_dot(s@) == Some(d as int) && d < s@.len(),
        },
{
    let n = s.unicode_len();
    let mut i = n;
    while i > 0
        invariant
            i <= n,
            n == s@.len(),
            forall|j: int| i <= j < n ==> s@[j] != '.',
        decreases i,
    {
        i = i - 1;
        if s.get_char(i) == '.' {
            proof {
                lemma_last_dot_at(s@, i as int);
            }
            return Some(i);
        }
    }
    proof {
        lemma_last_dot_none(s@);
    }
    None
}

/// The extension of a file name, per `spec_extension`.
fn extension(s: &str) -> (r: Option<&str>)
    ensures
        match r {
            None => spec_extension(s@) is None,
            Some(e) => spec_extension(s@) == Some(e@),
        },
{
    let n = s.unicode_len();
    match last_dot(s) {
        None => None,
        Some(d) => if d == 0 {
            None
        } else {
            Some(s.substring_char(d + 1, n))
        },
    }
}

/// The stem of a file name, per `spec_stem`.
fn stem(s: &str) -> (r: &str)
    ensures
        r@ == spec_stem(s@),
{
    match last_dot(s) {
        None => s,
        Some(d) => if d == 0 {
            s
        } else {
            s.substring_char(0, d)
        },
    }
}

/// Resolve a source's classification from the explicit choice made at its
/// creation, if any, else from the filename hint: the whole Classification
/// Resolver, a pure function.
pub fn classify(explicit: Option<SourceType>, hint: Option<&str>) -> (r: SourceType)
    ensures
        r == spec_classify(
            explicit,
            match hint {
                Some(h) => Some(h@),
                None => None,
            },
        ),
{
    match explicit {
        Some(t) => t,
        None => match hint {
            Some(h) => {
                let ext_is_archive = match extension(h) {
                    Some(e) => str_eq(e, "zip") || str_eq(e, "tgz"),
                    None => false,
                };
                if ext_is_archive {
                    SourceType::Tarball
                } else {
                    let second = extension(stem(h));
                    match second {
                        Some(e2) => if str_eq(e2, "tar") {
                            SourceType::Tarball
                        } else {
                            SourceType::File
                        },
                        None => SourceType::File,
                    }
                }
            },
            None => SourceType::File,
        },
    }
}

/// Law: an explicit classification always wins; inference never runs when one
/// was supplied, whatever the filename hint suggests.
pub proof fn lemma_override_precedence(t: SourceType, hint: Option<Seq<char>>)
    ensures
        spec_classify(Some(t), hint) == t,
{
}

} // verus!
