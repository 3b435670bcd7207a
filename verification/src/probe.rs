use vstd::prelude::*;
use vstd::string::StrSliceExecFns;

use crate::source::Source;
use crate::text::opt_str_view;
use crate::timestamp::{http_date, parse_rfc2822, spec_http_date, spec_rfc2822_parse, Timestamp};

verus! {

/// The metadata-only conditional request the probe sends: a HEAD request to
/// the source's URL with at most the two conditional headers.
pub struct ProbeRequest {
    pub url: String,
    /// Value for an `If-None-Match` header, when one is to be sent.
    pub if_none_match: Option<String>,
    /// Value for an `If-Modified-Since` header, when one is to be sent.
    pub if_modified_since: Option<String>,
}

/// What the transport hands back from a completed probe request: the status
/// code and the raw values of the three recognized response headers.
///
/// A request that could not complete at all never reaches the library; the
/// caller surfaces the transport error and the cached record stays as it was.
pub struct ProbeResponse {
    pub status: u16,
    pub etag: Option<String>,
    pub last_modified: Option<String>,
    pub content_disposition: Option<String>,
}

/// A probe may only format a cached `Last-Modified` validator that is UTC
/// with a four-digit year; anything else cached there is an invariant
/// violation on the caller's side.
pub open spec fn probe_ready(s: Source) -> bool {
    s@.hash is Some ==> (s@.last_modified matches Some(t) ==> t.wf() && t.is_utc() && 0 <= t.year
        <= 9999)
}

/// Build the conditional request for a source.
///
/// Conditional headers are attached only when a prior hash exists: a source
/// that was never hashed is always a first fetch.  A cached `ETag` is sent
/// back verbatim for exact matching; a cached `Last-Modified` is sent in the
/// fixed HTTP date format.
pub fn plan_probe(source: &Source) -> (r: ProbeRequest)
    requires
        probe_ready(*source),
    ensures
        r.url@ == source@.url,
        source@.hash is None ==> r.if_none_match is None && r.if_modified_since is None,
        source@.hash is Some ==> opt_str_view(r.if_none_match) == source@.etag,
        source@.hash is Some ==> (match source@.last_modified {
            Some(t) => opt_str_view(r.if_modified_since) == Some(spec_http_date(t)),
            None => r.if_modified_since is None,
        }),
{
    let url = source.url.clone();
    if source.hash.is_some() {
        let if_none_match = match &source.etag {
            Some(e) => Some(e.clone()),
            None => None,
        };
        let if_modified_since = match &source.last_modified {
            Some(t) => Some(http_date(t)),
            None => None,
        };
        ProbeRequest { url, if_none_match, if_modified_since }
    } else {
        ProbeRequest { url, if_none_match: None, if_modified_since: None }
    }
}

/// An `ETag` value carrying the weak-validator marker `W/`.
pub open spec fn spec_is_weak_etag(s: Seq<char>) -> bool {
    s.len() >= 2 && s[0] == 'W' && s[1] == '/'
}

/// Which `ETag` value a refresh retains: a strong one verbatim, a weak one
/// not at all — a weak validator need not change when the content hash does,
/// so caching it could mask a real change.
pub open spec fn spec_retained_etag(e: Option<Seq<char>>) -> Option<Seq<char>> {
    match e {
        None => None,
        Some(s) => if spec_is_weak_etag(s) {
            None
        } else {
            Some(s)
        },
    }
}

/// Law: a response presenting a weak `ETag` never results in that value being
/// retained; the cached validator is absent after such a refresh.
pub proof fn lemma_weak_validator_exclusion(e: Seq<char>)
    requires
        spec_is_weak_etag(e),
    ensures
        spec_retained_etag(Some(e)) is None,
{
}

/// What the filename parameter of a `Content-Disposition` header value is:
/// the outcome of mailparse's header parser, which depends on the value
/// alone.
pub uninterp spec fn spec_cd_filename(header: Seq<char>) -> Option<Seq<char>>;

/// Relies on mailparse's `parse_content_disposition`: the `filename`
/// parameter of a `Content-Disposition` header value, if the parsed header
/// carries one.
#[verifier::external_body]
pub(crate) fn content_disposition_filename(header: &str) -> (r: Option<String>)
    ensures
        opt_str_view(r) == spec_cd_filename(header@),
{
    mailparse::parse_content_disposition(header).params.get("filename").cloned()
}

/// What the final path segment of a URL string is: the outcome of parsing
/// with the url crate and taking the last segment of the path, which depends
/// on the string alone.
pub uninterp spec fn spec_url_final_segment(url: Seq<char>) -> Option<Seq<char>>;

/// Relies on the url crate's `Url::parse` and `Url::path_segments`: the final
/// segment of the URL's path, `None` where the string is no URL or its path
/// has no segments.
#[verifier::external_body]
pub(crate) fn url_final_path_segment(url: &str) -> (r: Option<String>)
    ensures
        opt_str_view(r) == spec_url_final_segment(url@),
{
    match url::Url::parse(url) {
        Ok(parsed) => parsed.path_segments().into_iter().flatten().last().map(|s| s.to_string()),
        Err(_) => None,
    }
}

/// The filename hint for a changed resource, in priority order: the
/// `filename` parameter of the `Content-Disposition` response header, else
/// the final path segment of the source URL, else none.
pub open spec fn spec_filename_hint(cd_header: Option<Seq<char>>, url: Seq<char>) -> Option<
    Seq<char>,
> {
    match cd_header {
        Some(h) => match spec_cd_filename(h) {
            Some(f) => Some(f),
            None => spec_url_final_segment(url),
        },
        None => spec_url_final_segment(url),
    }
}

/// What a changed response contributes to the refreshed record: the
/// validators to cache and the filename hint for classification and store
/// naming.
pub struct ChangedSignals {
    /// Strong `ETag` to cache, if the response presented one.
    pub etag: Option<String>,
    /// Parsed `Last-Modified` to cache; a value that does not parse as an
    /// RFC 2822 date is treated as absent, not as an error.
    pub last_modified: Option<Timestamp>,
    /// Filename hint, per `spec_filename_hint`.
    pub filename: Option<String>,
}

/// The probe's verdict on a response.
pub enum ProbeOutcome {
    /// The resource has not changed; the cached record is kept as it is.
    Unchanged,
    /// The resource changed (or was never fetched); these signals feed the
    /// classification and hashing stages.
    Changed(ChangedSignals),
}

/// Classify a probe response: a 304 status is the only unchanged signal; any
/// other response that reached the library counts as changed, whether or not
/// its validators differ from the cached ones.
pub fn interpret_response(source: &Source, resp: ProbeResponse) -> (r: ProbeOutcome)
    ensures
        resp.status == 304 <==> r is Unchanged,
        resp.status != 304 ==> (r matches ProbeOutcome::Changed(c) && {
            &&& opt_str_view(c.etag) == spec_retained_etag(opt_str_view(resp.etag))
            &&& c.last_modified == (match opt_str_view(resp.last_modified) {
                Some(s) => spec_rfc2822_parse(s),
                None => None,
            })
            &&& (c.last_modified matches Some(t) ==> t.wf())
            &&& opt_str_view(c.filename) == spec_filename_hint(
                opt_str_view(resp.content_disposition),
                source@.url,
            )
        }),
{
    if resp.status == 304 {
        return ProbeOutcome::Unchanged;
    }
    let etag = match resp.etag {
        Some(e) => {
            let weak = e.as_str().unicode_len() >= 2 && e.as_str().get_char(0) == 'W'
                && e.as_str().get_char(1) == '/';
            if weak {
                None
            } else {
                Some(e)
            }
        },
        None => None,
    };
    let last_modified = match resp.last_modified {
        Some(s) => parse_rfc2822(s.as_str()),
        None => None,
    };
    let filename = match resp.content_disposition {
        Some(h) => match content_disposition_filename(h.as_str()) {
            Some(f) => Some(f),
            None => url_final_path_segment(source.url.as_str()),
        },
        None => url_final_path_segment(source.url.as_str()),
    };
    ProbeOutcome::Changed(ChangedSignals { etag, last_modified, filename })
}

} // verus!
