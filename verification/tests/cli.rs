use charging_snapshot::cli::{Args, OverpassApiEndpoint};
use charging_snapshot::errors::transport_timeout_seconds;
use charging_snapshot::overpass::build_query;

#[test]
fn endpoint_parse_named() {
    assert!(matches!(
        OverpassApiEndpoint::parse("switzerland"),
        Ok(OverpassApiEndpoint::Switzerland)
    ));
    assert!(matches!(
        OverpassApiEndpoint::parse("world"),
        Ok(OverpassApiEndpoint::World)
    ));
}

#[test]
fn endpoint_parse_custom_url() {
    match OverpassApiEndpoint::parse("https://example.org/api") {
        Ok(OverpassApiEndpoint::Custom(u)) => assert_eq!(u, "https://example.org/api"),
        other => panic!("unexpected: {:?}", other),
    }
    match OverpassApiEndpoint::parse("http://localhost:1234") {
        Ok(OverpassApiEndpoint::Custom(u)) => assert_eq!(u, "http://localhost:1234"),
        other => panic!("unexpected: {:?}", other),
    }
}

#[test]
fn endpoint_parse_invalid_message() {
    let err = OverpassApiEndpoint::parse("germany").unwrap_err();
    assert_eq!(
        err,
        "Invalid value 'germany'. Expected 'switzerland', 'world', or a URL starting with http:// or https://"
    );
    assert!(OverpassApiEndpoint::parse("ftp://example.org").is_err());
    assert!(OverpassApiEndpoint::parse("").is_err());
}

#[test]
fn endpoint_urls() {
    assert_eq!(
        OverpassApiEndpoint::Switzerland.get_url(),
        "https://overpass.osm.ch/api/interpreter"
    );
    assert_eq!(
        OverpassApiEndpoint::World.get_url(),
        "https://overpass-api.de/api/interpreter"
    );
    assert_eq!(
        OverpassApiEndpoint::Custom(String::from("http://x/y")).get_url(),
        "http://x/y"
    );
}

#[test]
fn args_select_endpoint_url() {
    let args = Args {
        keep_intermediate: false,
        overpass_api_endpoint: OverpassApiEndpoint::World,
        timeout_seconds: 900,
        outfile_raw: String::from("overpass-result.json"),
        outfile_compressed: String::from("charging-stations-osm.json.gz"),
    };
    assert_eq!(args.get_overpass_url(), "https://overpass-api.de/api/interpreter");
}

#[test]
fn build_query_exact_text() {
    let expected = "\n        [out:json][timeout:900];\n        (\n          node[amenity=charging_station];\n          area[amenity=charging_station];\n          relation[amenity=charging_station];\n        );\n        out meta qt;\n        ";
    assert_eq!(build_query(900), expected);
    assert!(build_query(25).contains("[out:json][timeout:25];"));
}

#[test]
fn transport_timeout_exceeds_query_timeout() {
    assert_eq!(transport_timeout_seconds(900), 901);
    assert_eq!(transport_timeout_seconds(0), 1);
    assert_eq!(transport_timeout_seconds(u32::MAX), u32::MAX as u64 + 1);
}
