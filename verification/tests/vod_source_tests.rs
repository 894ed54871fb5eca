use synctv_core::error::Error;
use synctv_core::models::vod_source::{VodSource, VodSourceFormat, VodSourceUpdate};
use synctv_core::repository::vod_source::{headers_from_stored, source_from_row, VodSourceRow};
use synctv_core::service::vod_sources::{
    contains_line_break, deleted_source, endpoint_from_scheme, new_vod_source,
    normalize_vod_source_update, updated_source, validate_endpoint, validate_headers,
    validate_name,
};

fn invalid(m: &str) -> Error {
    Error::InvalidInput(m.to_string())
}

fn pairs(v: &[(&str, &str)]) -> Vec<(String, String)> {
    v.iter().map(|(k, x)| (k.to_string(), x.to_string())).collect()
}

#[test]
fn a_source_name_is_required_and_bounded() {
    assert_eq!(validate_name("  片库  "), Ok("片库".to_string()));
    assert_eq!(validate_name("   "), Err(invalid("Source name is required")));
    assert_eq!(
        validate_name(&"x".repeat(121)),
        Err(invalid("Source name may not exceed 120 characters"))
    );
}

#[test]
fn an_endpoint_must_be_an_absolute_web_url() {
    assert_eq!(
        validate_endpoint("  https://api.example.com/vod  "),
        Ok("https://api.example.com/vod".to_string())
    );
    assert_eq!(validate_endpoint("HTTP://example.com"), Ok("HTTP://example.com".to_string()));
    assert_eq!(validate_endpoint(" "), Err(invalid("Source endpoint is required")));
    assert_eq!(validate_endpoint("/relative/path"), Err(invalid("Source endpoint is not a URL")));
    assert_eq!(
        validate_endpoint("ftp://example.com/list"),
        Err(invalid("Source endpoint must be http or https"))
    );
    assert_eq!(
        endpoint_from_scheme("x".to_string(), Some("https".to_string())),
        Ok("x".to_string())
    );
    assert_eq!(endpoint_from_scheme("x".to_string(), None), Err(invalid("Source endpoint is not a URL")));
}

#[test]
fn headers_are_trimmed_and_blank_names_skipped() {
    let cleaned = validate_headers(&pairs(&[(" Referer ", " https://a.b/ "), ("  ", "ignored")])).unwrap();
    assert_eq!(cleaned, pairs(&[("Referer", "https://a.b/")]));
    let later_wins = validate_headers(&pairs(&[("UA", "one"), (" UA", "two")])).unwrap();
    assert_eq!(later_wins, pairs(&[("UA", "two")]));
}

#[test]
fn headers_may_not_smuggle_line_breaks_or_grow_without_bound() {
    assert_eq!(
        validate_headers(&pairs(&[("X-A", "a\r\nX-B: b")])),
        Err(invalid("Header names and values may not contain line breaks"))
    );
    assert_eq!(
        validate_headers(&pairs(&[("X-A", "fine\n")])),
        Err(invalid("Header names and values may not contain line breaks"))
    );
    // A break at either end of a name is trimmed away with the white space.
    assert_eq!(validate_headers(&pairs(&[("X-A\n", "v")])).unwrap(), pairs(&[("X-A", "v")]));
    let many: Vec<(String, String)> = (0..17).map(|i| (format!("h{i}"), "v".to_string())).collect();
    assert_eq!(validate_headers(&many), Err(invalid("A source may carry at most 16 headers")));
    assert_eq!(validate_headers(&many[..16].to_vec()).unwrap().len(), 16);
    assert!(contains_line_break("a\rb"));
    assert!(!contains_line_break("ab"));
}

#[test]
fn a_new_source_checks_name_then_endpoint_then_headers() {
    let made = new_vod_source(
        " 源 ",
        VodSourceFormat::M3u,
        "http://x.test/list.m3u",
        &pairs(&[("UA", "v")]),
        true,
        3,
    )
    .unwrap();
    assert_eq!(made.name, "源");
    assert_eq!(made.endpoint, "http://x.test/list.m3u");
    assert_eq!(made.headers, pairs(&[("UA", "v")]));
    assert_eq!((made.format, made.enabled, made.sort_order), (VodSourceFormat::M3u, true, 3));
    assert_eq!(
        new_vod_source("", VodSourceFormat::M3u, "nope", &Vec::new(), true, 0).unwrap_err(),
        invalid("Source name is required")
    );
}

#[test]
fn an_edit_checks_only_what_it_carries() {
    let update = VodSourceUpdate {
        endpoint: Some(" https://y.test ".to_string()),
        enabled: Some(false),
        ..VodSourceUpdate::default()
    };
    let checked = normalize_vod_source_update(update).unwrap();
    assert_eq!(checked.endpoint, Some("https://y.test".to_string()));
    assert_eq!(checked.name, None);
    assert_eq!(checked.enabled, Some(false));
    let bad = VodSourceUpdate { endpoint: Some("mailto:a@b".to_string()), ..VodSourceUpdate::default() };
    assert_eq!(
        normalize_vod_source_update(bad).unwrap_err(),
        invalid("Source endpoint must be http or https")
    );
    assert_eq!(deleted_source(false), Err(Error::NotFound("Source not found".to_string())));
    assert_eq!(deleted_source(true), Ok(()));
}

fn row(format: &str) -> VodSourceRow {
    VodSourceRow {
        id: 3,
        name: "n".to_string(),
        format: format.to_string(),
        endpoint: "https://e.test".to_string(),
        headers: Some(vec![
            ("UA".to_string(), Some("x".to_string())),
            ("Count".to_string(), None),
        ]),
        enabled: true,
        sort_order: 0,
        created_at: 1,
        updated_at: 2,
    }
}

#[test]
fn a_stored_row_keeps_its_string_headers_only() {
    let source: VodSource = source_from_row(row("maccms_xml")).unwrap();
    assert_eq!(source.format, VodSourceFormat::MaccmsXml);
    assert_eq!(source.headers, pairs(&[("UA", "x")]));
    assert_eq!(headers_from_stored(&None), Vec::new());
    assert_eq!(
        source_from_row(row("flv")).unwrap_err(),
        invalid("unknown vod source format: flv")
    );
    assert!(updated_source(None).is_err());
    assert_eq!(updated_source(Some(source)).unwrap().id, 3);
}
