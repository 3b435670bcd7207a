use sourcepin::probe::ProbeResponse;
use sourcepin::refresh::{refresh_outcome, RefreshStep};
use sourcepin::timestamp::http_date;
use sourcepin::probe::plan_probe;
use sourcepin::{Source, SourceType, Timestamp};

fn ts_2003_07_01() -> Timestamp {
    // Tuesday, 1 July 2003, 10:52:37 UTC.
    Timestamp {
        year: 2003,
        month: 7,
        day: 1,
        hour: 10,
        minute: 52,
        second: 37,
        weekday: 2,
        offset_seconds: 0,
    }
}

fn response(
    status: u16,
    etag: Option<&str>,
    last_modified: Option<&str>,
    content_disposition: Option<&str>,
) -> ProbeResponse {
    ProbeResponse {
        status,
        etag: etag.map(|s| s.to_string()),
        last_modified: last_modified.map(|s| s.to_string()),
        content_disposition: content_disposition.map(|s| s.to_string()),
    }
}

#[test]
fn http_date_renders_fixed_format() {
    assert_eq!(http_date(&ts_2003_07_01()), "Tue, 01 Jul 2003 10:52:37 GMT");
}

#[test]
fn probe_without_hash_sends_no_conditional_headers() {
    let mut source = Source::new("https://example.com/pkg.tar.gz".to_string());
    // Even present validators are not sent while no hash is cached.
    source.etag = Some("\"abc\"".to_string());
    source.last_modified = Some(ts_2003_07_01());
    let req = plan_probe(&source);
    assert_eq!(req.url, "https://example.com/pkg.tar.gz");
    assert!(req.if_none_match.is_none());
    assert!(req.if_modified_since.is_none());
}

#[test]
fn probe_with_hash_sends_cached_validators() {
    let mut source = Source::new("https://example.com/pkg.tar.gz".to_string());
    source.hash = Some("sha256-xyz".to_string());
    source.etag = Some("\"abc\"".to_string());
    source.last_modified = Some(ts_2003_07_01());
    let req = plan_probe(&source);
    assert_eq!(req.if_none_match.as_deref(), Some("\"abc\""));
    assert_eq!(
        req.if_modified_since.as_deref(),
        Some("Tue, 01 Jul 2003 10:52:37 GMT")
    );
}

#[test]
fn unchanged_response_returns_identical_record() {
    let mut source = Source::new("https://example.com/pkg.tar.gz".to_string());
    source.hash = Some("sha256-xyz".to_string());
    source.etag = Some("\"abc\"".to_string());
    source.last_modified = Some(ts_2003_07_01());
    source.ty = Some(SourceType::Tarball);
    match refresh_outcome(&source, response(304, None, None, None)) {
        RefreshStep::Unchanged(s) => {
            assert_eq!(s.url, source.url);
            assert_eq!(s.hash, source.hash);
            assert_eq!(s.last_modified, source.last_modified);
            assert_eq!(s.etag, source.etag);
            assert_eq!(s.ty, source.ty);
        }
        RefreshStep::Fetch(..) => panic!("a 304 response must short-circuit"),
    }
}

#[test]
fn weak_etag_is_never_retained() {
    let source = Source::new("https://example.com/data.bin".to_string());
    match refresh_outcome(&source, response(200, Some("W/\"abc\""), None, None)) {
        RefreshStep::Fetch(_, pending) => assert!(pending.etag.is_none()),
        RefreshStep::Unchanged(_) => panic!("a 200 response must refetch"),
    }
}

#[test]
fn strong_etag_is_retained_verbatim() {
    let source = Source::new("https://example.com/data.bin".to_string());
    match refresh_outcome(&source, response(200, Some("\"abc\""), None, None)) {
        RefreshStep::Fetch(_, pending) => {
            assert_eq!(pending.etag.as_deref(), Some("\"abc\""));
        }
        RefreshStep::Unchanged(_) => panic!("a 200 response must refetch"),
    }
}

#[test]
fn last_modified_header_is_parsed() {
    let source = Source::new("https://example.com/data.bin".to_string());
    let resp = response(200, None, Some("Tue, 01 Jul 2003 10:52:37 +0000"), None);
    match refresh_outcome(&source, resp) {
        RefreshStep::Fetch(_, pending) => {
            assert_eq!(pending.last_modified, Some(ts_2003_07_01()));
        }
        RefreshStep::Unchanged(_) => panic!("a 200 response must refetch"),
    }
}

#[test]
fn unparsable_last_modified_is_treated_as_absent() {
    let source = Source::new("https://example.com/data.bin".to_string());
    let resp = response(200, None, Some("not a date"), None);
    match refresh_outcome(&source, resp) {
        RefreshStep::Fetch(_, pending) => assert!(pending.last_modified.is_none()),
        RefreshStep::Unchanged(_) => panic!("a 200 response must refetch"),
    }
}

#[test]
fn filename_hint_prefers_content_disposition() {
    let source = Source::new("https://example.com/download".to_string());
    let resp = response(
        200,
        None,
        None,
        Some("attachment; filename=\"bundle.zip\""),
    );
    match refresh_outcome(&source, resp) {
        RefreshStep::Fetch(plan, pending) => {
            assert_eq!(plan.store_name, "bundle.zip");
            assert!(plan.unpack);
            assert_eq!(pending.ty, SourceType::Tarball);
        }
        RefreshStep::Unchanged(_) => panic!("a 200 response must refetch"),
    }
}

#[test]
fn filename_hint_falls_back_to_url_path() {
    let source = Source::new("https://example.com/a/pkg.tar.gz".to_string());
    match refresh_outcome(&source, response(200, None, None, None)) {
        RefreshStep::Fetch(plan, pending) => {
            assert_eq!(plan.store_name, "pkg.tar.gz");
            assert!(plan.unpack);
            assert_eq!(pending.ty, SourceType::Tarball);
            assert_eq!(plan.url, "https://example.com/a/pkg.tar.gz");
        }
        RefreshStep::Unchanged(_) => panic!("a 200 response must refetch"),
    }
}

#[test]
fn explicit_type_skips_inference_on_refresh() {
    let mut source = Source::new("https://example.com/a/pkg.tar.gz".to_string());
    source.ty = Some(SourceType::File);
    match refresh_outcome(&source, response(200, None, None, None)) {
        RefreshStep::Fetch(plan, pending) => {
            assert_eq!(pending.ty, SourceType::File);
            assert!(!plan.unpack);
        }
        RefreshStep::Unchanged(_) => panic!("a 200 response must refetch"),
    }
}
