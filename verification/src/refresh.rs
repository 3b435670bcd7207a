use vstd::prelude::*;

use crate::classify::{classify, spec_classify};
use crate::error::Error;
use crate::filename::{spec_sanitize, store_name};
use crate::pipeline::{integrity_parse, spec_integrity_parse, spec_trim, trim_whitespace};
use crate::probe::{
    interpret_response, spec_filename_hint, spec_retained_etag, ChangedSignals, ProbeOutcome,
    ProbeResponse,
};
use crate::source::{Source, SourceType, SourceV};
use crate::text::opt_str_view;
use crate::timestamp::{spec_rfc2822_parse, Timestamp};

verus! {

/// The fetch oracle's invocation, fully planned: the advisory store name,
/// whether the oracle is to unpack the resource, and what to download.
pub struct FetchPlan {
    /// Filesystem-safe advisory name for the store's bookkeeping; never
    /// empty.
    pub store_name: String,
    /// Set exactly when the resource is classified as an archive.
    pub unpack: bool,
    /// The source URL, passed to the oracle verbatim.
    pub url: String,
}

/// The validators and classification that will enter the record together
/// with the new hash once the pipeline has produced it.
pub struct PendingValidators {
    pub etag: Option<String>,
    pub last_modified: Option<Timestamp>,
    pub ty: SourceType,
}

/// The refresh decision after the probe.
pub enum RefreshStep {
    /// The resource has not changed; this record — identical to the cached
    /// one — is the whole result, and no fetch happens.
    Unchanged(Source),
    /// The resource must be fetched and hashed: run the fetch oracle as the
    /// plan says, then complete the record with `finish_refresh`.
    Fetch(FetchPlan, PendingValidators),
}

/// What classification a changed response leads to, from the explicit choice
/// and the response's filename hint.
pub open spec fn spec_changed_ty(source: SourceV, resp_cd: Option<Seq<char>>) -> SourceType {
    spec_classify(source.ty, spec_filename_hint(resp_cd, source.url))
}

/// Decide from a probe response whether a source must be re-fetched.
///
/// A 304 status short-circuits the refresh: the cached record is returned
/// unchanged, exactly as it was.  Anything else yields a complete fetch plan
/// and the validators to cache: the strong `ETag` (a weak one is discarded),
/// the parsed `Last-Modified` (absent when unparsable), the classification
/// resolved from the explicit choice or the filename hint, and the sanitized
/// store name.
pub fn refresh_outcome(source: &Source, resp: ProbeResponse) -> (r: RefreshStep)
    ensures
        resp.status == 304 ==> (r matches RefreshStep::Unchanged(s) && s@ == source@),
        resp.status != 304 ==> (r matches RefreshStep::Fetch(plan, pending) && {
            let hint = spec_filename_hint(opt_str_view(resp.content_disposition), source@.url);
            &&& opt_str_view(pending.etag) == spec_retained_etag(opt_str_view(resp.etag))
            &&& pending.last_modified == (match opt_str_view(resp.last_modified) {
                Some(s) => spec_rfc2822_parse(s),
                None => None,
            })
            &&& (pending.last_modified matches Some(t) ==> t.wf())
            &&& pending.ty == spec_classify(source@.ty, hint)
            &&& plan.unpack == (pending.ty == SourceType::Tarball)
            &&& plan.url@ == source@.url
            &&& plan.store_name@ == (match hint {
                Some(h) => spec_sanitize(h),
                None => "source"@,
            })
        }),
{
    match interpret_response(source, resp) {
        ProbeOutcome::Unchanged => RefreshStep::Unchanged(source.duplicate()),
        ProbeOutcome::Changed(signals) => {
            let ChangedSignals { etag, last_modified, filename } = signals;
            let hint = match &filename {
                Some(f) => Some(f.as_str()),
                None => None,
            };
            let ty = classify(source.ty, hint);
            let name = store_name(hint);
            RefreshStep::Fetch(
                FetchPlan {
                    store_name: name,
                    unpack: ty == SourceType::Tarball,
                    url: source.url.clone(),
                },
                PendingValidators { etag, last_modified, ty },
            )
        },
    }
}

/// Complete a refresh from the conversion oracle's output: trim surrounding
/// whitespace, parse the subresource-integrity string, and assemble the new
/// record.
///
/// On success the four cached fields are replaced together — hash, both
/// validators and the classification — so no partial update can be observed.
/// Output that does not parse as an integrity string is malformed oracle
/// output, a hard error that aborts the refresh.
pub fn finish_refresh(source: &Source, pending: PendingValidators, conversion_output: &str) -> (r:
    Result<Source, Error>)
    ensures
        ({
            let trimmed = spec_trim(conversion_output@);
            match spec_integrity_parse(trimmed) {
                Some(h) => r matches Ok(s) && s@ == (SourceV {
                    url: source@.url,
                    hash: Some(h),
                    last_modified: pending.last_modified,
                    etag: opt_str_view(pending.etag),
                    ty: Some(pending.ty),
                }),
                None => r matches Err(e) && (e matches Error::MalformedIntegrity(m) && m@
                    == trimmed),
            }
        }),
        r matches Ok(s) ==> s.hash_has_type(),
{
    let trimmed = trim_whitespace(conversion_output);
    match integrity_parse(trimmed.as_str()) {
        Some(h) => Ok(
            Source {
                url: source.url.clone(),
                hash: Some(h),
                last_modified: pending.last_modified,
                etag: pending.etag,
                ty: Some(pending.ty),
            },
        ),
        None => Err(Error::MalformedIntegrity(trimmed)),
    }
}

} // verus!
