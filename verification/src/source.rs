use vstd::prelude::*;

use crate::error::Error;
use crate::text::{opt_str_view, str_eq};
use crate::timestamp::Timestamp;

verus! {

/// Classification of a source's content: an archive to unpack into the
/// store, or a single file stored as is.
#[derive(Clone, Copy, PartialEq, Eq, Structural, Debug)]
pub enum SourceType {
    Tarball,
    File,
}

/// What `SourceType::parse` returns for a given string.
pub open spec fn spec_parse_source_type(s: Seq<char>) -> Result<SourceType, Error> {
    if s == "tarball"@ {
        Ok(SourceType::Tarball)
    } else if s == "file"@ {
        Ok(SourceType::File)
    } else {
        Err(Error::InvalidSourceType)
    }
}

impl SourceType {
    /// Parse the user-facing name of a source type; only the exact strings
    /// `tarball` and `file` are accepted.
    pub fn parse(s: &str) -> (r: Result<SourceType, Error>)
        ensures
            r == spec_parse_source_type(s@),
    {
        if str_eq(s, "tarball") {
            Ok(SourceType::Tarball)
        } else if str_eq(s, "file") {
            Ok(SourceType::File)
        } else {
            Err(Error::InvalidSourceType)
        }
    }
}

/// The mathematical value of a `Source`: every field as a plain value.
pub struct SourceV {
    pub url: Seq<char>,
    pub hash: Option<Seq<char>>,
    pub last_modified: Option<Timestamp>,
    pub etag: Option<Seq<char>>,
    pub ty: Option<SourceType>,
}

/// One tracked remote artifact.
///
/// Created with only `url` set; a refresh either leaves the record identical
/// (unchanged path) or replaces `hash`, `last_modified`, `etag` and `ty`
/// together (changed path).  Only strong `ETag` validators are ever stored,
/// and a stored `last_modified` that is not UTC cannot be used for
/// revalidation.
#[derive(Debug)]
pub struct Source {
    /// Canonical location of the artifact; its identity within a record.
    pub url: String,
    /// Subresource-integrity string; absent before the first successful
    /// refresh.
    pub hash: Option<String>,
    /// `Last-Modified` validator from the remote server.
    pub last_modified: Option<Timestamp>,
    /// Strong `ETag` validator from the remote server.
    pub etag: Option<String>,
    /// Explicit classification supplied at creation, if any; when absent,
    /// classification is inferred on every refresh.
    pub ty: Option<SourceType>,
}

impl View for Source {
    type V = SourceV;

    open spec fn view(&self) -> SourceV {
        SourceV {
            url: self.url@,
            hash: opt_str_view(self.hash),
            last_modified: self.last_modified,
            etag: opt_str_view(self.etag),
            ty: self.ty,
        }
    }
}

impl Source {
    /// A record with a hash always has a resolved classification: a
    /// successful refresh sets them together, and both are absent before the
    /// first one.
    pub open spec fn hash_has_type(self) -> bool {
        self@.hash is Some ==> self@.ty is Some
    }

    /// A freshly registered source: only the location is known.
    pub fn new(url: String) -> (r: Source)
        ensures
            r@ == (SourceV {
                url: url@,
                hash: None,
                last_modified: None,
                etag: None,
                ty: None,
            }),
            r.hash_has_type(),
    {
        Source { url, hash: None, last_modified: None, etag: None, ty: None }
    }

    /// An exact copy of the record.
    pub fn duplicate(&self) -> (r: Source)
        ensures
            r@ == self@,
    {
        Source {
            url: self.url.clone(),
            hash: match &self.hash {
                Some(h) => Some(h.clone()),
                None => None,
            },
            last_modified: self.last_modified,
            etag: match &self.etag {
                Some(e) => Some(e.clone()),
                None => None,
            },
            ty: self.ty,
        }
    }
}

} // verus!
