use charging_snapshot::errors::Error;
use charging_snapshot::overpass::{extract_remark, parse_response, ElementKind};

#[test]
fn parse_empty_elements_succeeds() {
    let body = b"{\"version\":0.6,\"generator\":\"g\",\"elements\":[]}";
    let resp = parse_response(body).unwrap();
    assert_eq!(resp.elements.len(), 0);
}

#[test]
fn parse_missing_elements_fails() {
    let body = b"{\"version\":0.6}";
    let r = parse_response(body);
    assert!(matches!(r, Err(Error::Parse(_))));
}

#[test]
fn parse_full_element() {
    let body = b"{\"version\":0.6,\"generator\":\"g\",\"elements\":[{\"type\":\"node\",\"id\":1,\"lat\":47.0,\"lon\":8.0,\"timestamp\":\"2024-01-01T00:00:00Z\",\"version\":3,\"changeset\":12,\"user\":\"mapper\",\"uid\":7,\"tags\":{\"amenity\":\"charging_station\"}}]}";
    let resp = parse_response(body).unwrap();
    assert_eq!(resp.elements.len(), 1);
    let e = &resp.elements[0];
    assert_eq!(e.element_type, ElementKind::Node);
    assert_eq!(e.id, 1);
    assert_eq!(e.lat.as_deref(), Some("47.0"));
    assert_eq!(e.lon.as_deref(), Some("8.0"));
    assert_eq!(e.timestamp, "2024-01-01T00:00:00Z");
    assert_eq!(e.version, 3);
    assert_eq!(e.changeset, Some(12));
    assert_eq!(e.user.as_deref(), Some("mapper"));
    assert_eq!(e.uid, Some(7));
    assert_eq!(e.tags.len(), 1);
    assert_eq!(e.tags[0].0, "amenity");
    assert_eq!(e.tags[0].1, "charging_station");
}

#[test]
fn parse_optional_fields_absent_or_null() {
    let body = b"{\"version\":0.6,\"generator\":\"g\",\"elements\":[{\"type\":\"area\",\"id\":2,\"lat\":null,\"timestamp\":\"t\",\"version\":1,\"tags\":{}}]}";
    let resp = parse_response(body).unwrap();
    let e = &resp.elements[0];
    assert_eq!(e.element_type, ElementKind::Area);
    assert_eq!(e.lat, None);
    assert_eq!(e.lon, None);
    assert_eq!(e.changeset, None);
    assert_eq!(e.user, None);
    assert_eq!(e.uid, None);
    assert_eq!(e.tags.len(), 0);
}

#[test]
fn parse_rejects_fractional_id() {
    let body = b"{\"version\":0.6,\"generator\":\"g\",\"elements\":[{\"type\":\"node\",\"id\":1.5,\"timestamp\":\"t\",\"version\":1,\"tags\":{}}]}";
    assert!(matches!(parse_response(body), Err(Error::Parse(_))));
}

#[test]
fn parse_rejects_negative_id() {
    let body = b"{\"version\":0.6,\"generator\":\"g\",\"elements\":[{\"type\":\"node\",\"id\":-1,\"timestamp\":\"t\",\"version\":1,\"tags\":{}}]}";
    assert!(matches!(parse_response(body), Err(Error::Parse(_))));
}

#[test]
fn parse_rejects_unknown_kind() {
    let body = b"{\"version\":0.6,\"generator\":\"g\",\"elements\":[{\"type\":\"way\",\"id\":1,\"timestamp\":\"t\",\"version\":1,\"tags\":{}}]}";
    assert!(matches!(parse_response(body), Err(Error::Parse(_))));
}

#[test]
fn parse_rejects_non_string_tag_value() {
    let body = b"{\"version\":0.6,\"generator\":\"g\",\"elements\":[{\"type\":\"node\",\"id\":1,\"timestamp\":\"t\",\"version\":1,\"tags\":{\"a\":1}}]}";
    assert!(matches!(parse_response(body), Err(Error::Parse(_))));
}

#[test]
fn parse_rejects_missing_tags() {
    let body = b"{\"version\":0.6,\"generator\":\"g\",\"elements\":[{\"type\":\"node\",\"id\":1,\"timestamp\":\"t\",\"version\":1}]}";
    assert!(matches!(parse_response(body), Err(Error::Parse(_))));
}

#[test]
fn parse_rejects_non_array_elements() {
    let body = b"{\"version\":0.6,\"generator\":\"g\",\"elements\":{}}";
    assert!(matches!(parse_response(body), Err(Error::Parse(_))));
}

#[test]
fn parse_rejects_non_number_version_field() {
    let body = b"{\"version\":\"0.6\",\"generator\":\"g\",\"elements\":[]}";
    assert!(matches!(parse_response(body), Err(Error::Parse(_))));
}

#[test]
fn parse_accepts_largest_id() {
    let body = b"{\"version\":0.6,\"generator\":\"g\",\"elements\":[{\"type\":\"node\",\"id\":18446744073709551615,\"timestamp\":\"t\",\"version\":1,\"tags\":{}}]}";
    let resp = parse_response(body).unwrap();
    assert_eq!(resp.elements[0].id, u64::MAX);
}

#[test]
fn parse_rejects_version_out_of_range() {
    let body = b"{\"version\":0.6,\"generator\":\"g\",\"elements\":[{\"type\":\"node\",\"id\":1,\"timestamp\":\"t\",\"version\":4294967296,\"tags\":{}}]}";
    assert!(matches!(parse_response(body), Err(Error::Parse(_))));
}

#[test]
fn parse_rejects_malformed_bytes() {
    assert!(matches!(parse_response(b"not json"), Err(Error::Parse(_))));
    assert!(matches!(parse_response(b""), Err(Error::Parse(_))));
}

#[test]
fn parse_ignores_unknown_element_fields() {
    let body = b"{\"version\":0.6,\"generator\":\"g\",\"elements\":[{\"type\":\"relation\",\"id\":3,\"timestamp\":\"t\",\"version\":2,\"tags\":{},\"extra\":{\"deep\":[1,2,true]}}]}";
    let resp = parse_response(body).unwrap();
    assert_eq!(resp.elements[0].element_type, ElementKind::Relation);
    assert_eq!(resp.elements[0].id, 3);
}

#[test]
fn remark_found_in_rejected_response() {
    let body = b"{\"version\":0.6,\"generator\":\"g\",\"elements\":[],\"remark\":\"runtime error: query timed out\"}";
    assert_eq!(
        extract_remark(body).as_deref(),
        Some("runtime error: query timed out")
    );
}

#[test]
fn remark_absent_or_unreadable() {
    assert_eq!(extract_remark(b"{\"version\":0.6}"), None);
    assert_eq!(extract_remark(b"garbage"), None);
    assert_eq!(extract_remark(b"{\"remark\":5}"), None);
}
