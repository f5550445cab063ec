use charging_snapshot::errors::{check_status, Error};
use charging_snapshot::overpass::{
    make_snapshot, parse_response, process_elements, Element, ElementKind, ProcessedElement,
};
use charging_snapshot::render::serialize_json_pretty;

fn sample_element(id: u64) -> Element {
    Element {
        element_type: ElementKind::Node,
        id,
        lat: Some(String::from("47.0")),
        lon: Some(String::from("8.0")),
        timestamp: String::from("2024-01-01T00:00:00Z"),
        version: 3,
        changeset: Some(99),
        user: Some(String::from("mapper")),
        uid: Some(42),
        tags: vec![(String::from("amenity"), String::from("charging_station"))],
    }
}

#[test]
fn transform_preserves_length_and_order() {
    let elements = vec![sample_element(7), sample_element(3), sample_element(11)];
    let out = process_elements(elements).unwrap();
    assert_eq!(out.count, 3);
    assert_eq!(out.elements.len(), 3);
    assert_eq!(out.elements[0].id, 7);
    assert_eq!(out.elements[1].id, 3);
    assert_eq!(out.elements[2].id, 11);
}

#[test]
fn transform_empty_fails_with_empty_dataset() {
    let r = process_elements(Vec::new());
    assert_eq!(r.unwrap_err(), Error::EmptyDataset);
}

#[test]
fn snapshot_carries_given_time_and_count() {
    let out = make_snapshot(vec![sample_element(1), sample_element(2)], 1234).unwrap();
    assert_eq!(out.timestamp, 1234);
    assert_eq!(out.count, 2);
    assert_eq!(out.elements.len(), 2);
    assert_eq!(make_snapshot(Vec::new(), 5).unwrap_err(), Error::EmptyDataset);
}

#[test]
fn projection_copies_fields() {
    let p = ProcessedElement::from(sample_element(5));
    assert_eq!(p.id, 5);
    assert_eq!(p.lat.as_deref(), Some("47.0"));
    assert_eq!(p.lon.as_deref(), Some("8.0"));
    assert_eq!(p.timestamp, "2024-01-01T00:00:00Z");
    assert_eq!(p.element_type, ElementKind::Node);
    assert_eq!(p.version, 3);
    assert_eq!(p.user.as_deref(), Some("mapper"));
    assert_eq!(p.tags.len(), 1);
    assert_eq!(p.tags[0].0, "amenity");
    assert_eq!(p.tags[0].1, "charging_station");
}

#[test]
fn serialized_output_never_carries_changeset_or_uid() {
    let out = process_elements(vec![sample_element(1)]).unwrap();
    let s = serialize_json_pretty(&out);
    assert!(!s.contains("changeset"));
    assert!(!s.contains("uid"));
}

#[test]
fn end_to_end_pipeline() {
    assert!(check_status(200).is_ok());
    let body = b"{\"version\":0.6,\"generator\":\"g\",\"elements\":[{\"type\":\"node\",\"id\":1,\"lat\":47.0,\"lon\":8.0,\"timestamp\":\"2024-01-01T00:00:00Z\",\"version\":3,\"tags\":{\"amenity\":\"charging_station\"}}]}";
    let resp = parse_response(body).unwrap();
    assert_eq!(resp.elements.len(), 1);
    let out = process_elements(resp.elements).unwrap();
    assert_eq!(out.count, 1);
    assert_eq!(out.elements[0].id, 1);
    let lat: f64 = out.elements[0].lat.as_deref().unwrap().parse().unwrap();
    assert_eq!(lat, 47.0);
}

#[test]
fn non_success_status_aborts_before_transform() {
    assert_eq!(check_status(500), Err(Error::Remote(500)));
    assert_eq!(check_status(404), Err(Error::Remote(404)));
    assert_eq!(check_status(300), Err(Error::Remote(300)));
    assert_eq!(check_status(199), Err(Error::Remote(199)));
    assert!(check_status(204).is_ok());
    assert!(check_status(299).is_ok());
}

#[test]
fn error_messages_name_the_failure() {
    assert_eq!(Error::Remote(503).message(), "request failed with status 503");
    assert_eq!(Error::EmptyDataset.message(), "no elements found in response");
    assert_eq!(
        Error::Parse(String::from("bad")).message(),
        "failed to parse response: bad"
    );
    assert_eq!(Error::Clock.message(), "system clock unavailable");
    assert_eq!(
        Error::Transport(String::from("down")).message(),
        "transport failure: down"
    );
    assert_eq!(Error::Io(String::from("disk")).message(), "file write failed: disk");
}
