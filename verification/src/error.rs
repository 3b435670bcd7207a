use vstd::prelude::*;
use vstd::string::StringExecFns;

verus! {

/// The failures the library itself can report.
///
/// Transport and oracle-process failures happen outside the library and are
/// surfaced by the caller; these are the errors the library's own rules raise.
#[derive(Debug)]
pub enum Error {
    /// A source with this name is already registered.
    DuplicateName(String),
    /// No source with this name is registered.
    UnknownName(String),
    /// A source-type string was neither `tarball` nor `file`.
    InvalidSourceType,
    /// The hash-conversion oracle printed something that is not a
    /// subresource-integrity string.
    MalformedIntegrity(String),
}

impl Error {
    /// The human-readable description of the failure.
    pub open spec fn spec_message(self) -> Seq<char> {
        match self {
            Error::DuplicateName(n) => "source "@ + n@ + " already exists"@,
            Error::UnknownName(n) => "source "@ + n@ + " does not exist"@,
            Error::InvalidSourceType => "invalid source type"@,
            Error::MalformedIntegrity(s) => "malformed integrity string: "@ + s@,
        }
    }

    /// Render the failure for the user.
    pub fn message(&self) -> (r: String)
        ensures
            r@ == self.spec_message(),
    {
        match self {
            Error::DuplicateName(n) => {
                let mut m = String::from_str("source ");
                m.append(n.as_str());
                m.append(" already exists");
                proof {
                    assert(m@ =~= self.spec_message());
                }
                m
            },
            Error::UnknownName(n) => {
                let mut m = String::from_str("source ");
                m.append(n.as_str());
                m.append(" does not exist");
                proof {
                    assert(m@ =~= self.spec_message());
                }
                m
            },
            Error::InvalidSourceType => String::from_str("invalid source type"),
            Error::MalformedIntegrity(s) => {
                let mut m = String::from_str("malformed integrity string: ");
                m.append(s.as_str());
                proof {
                    assert(m@ =~= self.spec_message());
                }
                m
            },
        }
    }
}

} // verus!
