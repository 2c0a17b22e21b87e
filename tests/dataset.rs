use geodns::engine::GeoRuleEngine;
use geodns::matching::{GeoRule, MatchType};
use geodns::provider::{ClientIp, GeoDB};
use geodns::resolve::{resolve, ResolveError, RuleRow};
use geodns::state::ResolutionState;

fn push_str(out: &mut Vec<u8>, s: &str) {
    out.push(0x40 | s.len() as u8);
    out.extend_from_slice(s.as_bytes());
}

/// A one-node IPv4 dataset: addresses whose first bit is 0 are recorded in
/// the United States, the rest are not recorded.
fn tiny_dataset() -> Vec<u8> {
    // search tree: node 0, 24-bit records; left points to data, right is empty
    dataset_with(&[0x00, 0x00, 0x11, 0x00, 0x00, 0x01], 1, 4)
}

/// A dataset with the given search tree bytes, declared node count and IP
/// version, followed by one country record and the metadata.
fn dataset_with(tree: &[u8], node_count: u8, ip_version: u8) -> Vec<u8> {
    let mut b: Vec<u8> = Vec::new();
    b.extend_from_slice(tree);
    b.extend_from_slice(&[0u8; 16]);
    // data: {"country": {"iso_code": "US"}}
    b.push(0xE1);
    push_str(&mut b, "country");
    b.push(0xE1);
    push_str(&mut b, "iso_code");
    push_str(&mut b, "US");
    // metadata
    b.extend_from_slice(b"\xab\xcd\xefMaxMind.com");
    b.push(0xE9);
    push_str(&mut b, "binary_format_major_version");
    b.extend_from_slice(&[0xA1, 0x02]);
    push_str(&mut b, "binary_format_minor_version");
    b.push(0xA0);
    push_str(&mut b, "build_epoch");
    b.extend_from_slice(&[0x01, 0x02, 0x01]);
    push_str(&mut b, "database_type");
    push_str(&mut b, "Test");
    push_str(&mut b, "description");
    b.push(0xE0);
    push_str(&mut b, "ip_version");
    b.extend_from_slice(&[0xA1, ip_version]);
    push_str(&mut b, "languages");
    b.extend_from_slice(&[0x00, 0x04]);
    push_str(&mut b, "node_count");
    b.extend_from_slice(&[0xC1, node_count]);
    push_str(&mut b, "record_size");
    b.extend_from_slice(&[0xA1, 0x18]);
    b
}

fn row(id: &str, kind: &str, value: &str, target: &str) -> RuleRow {
    RuleRow {
        id: id.to_string(),
        match_type: kind.to_string(),
        match_value: value.to_string(),
        target: target.to_string(),
    }
}

#[test]
fn malformed_dataset_is_refused() {
    assert!(GeoDB::open_from_bytes(vec![1, 2, 3]).is_err());
    assert!(GeoDB::open_from_bytes(Vec::new()).is_err());
}

#[test]
fn metadata_marker_alone_is_refused() {
    assert!(GeoDB::open_from_bytes(b"\xab\xcd\xefMaxMind.com".to_vec()).is_err());
    let (state, err) = ResolutionState::from_blob(Some(b"\xab\xcd\xefMaxMind.com".to_vec()));
    assert!(state.current().is_none());
    assert!(err.is_some());
}

#[test]
fn tree_larger_than_blob_is_refused() {
    // declares far more nodes than the six tree bytes hold
    let v6 = dataset_with(&[0x00, 0x00, 0x11, 0x00, 0x00, 0x01], 200, 6);
    assert!(GeoDB::open_from_bytes(v6).is_err());
    let v4 = dataset_with(&[0x00, 0x00, 0x11, 0x00, 0x00, 0x01], 200, 4);
    assert!(GeoDB::open_from_bytes(v4).is_err());
}

#[test]
fn dangling_data_pointer_gives_no_country() {
    // the left record points far past the data section
    let blob = dataset_with(&[0x00, 0x0F, 0xFF, 0x00, 0x00, 0x01], 1, 4);
    let db = GeoDB::open_from_bytes(blob).expect("dataset opens");
    assert_eq!(db.country(ClientIp::V4([1, 2, 3, 4])), None);
    // the left record points into the separator, below the data section
    let blob = dataset_with(&[0x00, 0x00, 0x05, 0x00, 0x00, 0x01], 1, 4);
    let db = GeoDB::open_from_bytes(blob).expect("dataset opens");
    assert_eq!(db.country(ClientIp::V4([1, 2, 3, 4])), None);
}

#[test]
fn ipv6_address_in_ipv4_dataset_gives_no_country() {
    let db = GeoDB::open_from_bytes(tiny_dataset()).expect("dataset opens");
    assert_eq!(db.country(ClientIp::V6([0; 16])), None);
}

#[test]
fn dataset_country_lookup() {
    let db = GeoDB::open_from_bytes(tiny_dataset()).expect("dataset opens");
    assert_eq!(db.country(ClientIp::V4([1, 2, 3, 4])), Some("US".to_string()));
    assert_eq!(db.country(ClientIp::V4([200, 1, 1, 1])), None);
    let shared = db.clone();
    assert_eq!(shared.country(ClientIp::V4([10, 0, 0, 1])), Some("US".to_string()));
}

#[test]
fn engine_with_dataset() {
    let db = GeoDB::open_from_bytes(tiny_dataset()).expect("dataset opens");
    let mut engine = GeoRuleEngine::new(Some(db));
    engine.add_rule(GeoRule {
        id: "r1".to_string(),
        match_type: MatchType::Country,
        match_value: "us".to_string(),
        target: "1.1.1.1".to_string(),
    });
    assert_eq!(engine.evaluate(ClientIp::V4([1, 2, 3, 4])), Some("1.1.1.1".to_string()));
    assert_eq!(engine.evaluate(ClientIp::V4([200, 1, 1, 1])), None);
}

#[test]
fn state_from_blob() {
    let (none, err) = ResolutionState::from_blob(None);
    assert!(none.current().is_none());
    assert!(err.is_none());
    let (bad, err) = ResolutionState::from_blob(Some(vec![0, 1, 2]));
    assert!(bad.current().is_none());
    assert!(err.is_some());
    let (good, err) = ResolutionState::from_blob(Some(tiny_dataset()));
    assert!(err.is_none());
    assert!(good.current().is_some());
}

#[test]
fn resolve_end_to_end() {
    let (state, _) = ResolutionState::from_blob(Some(tiny_dataset()));
    let rows = vec![
        row("1", "country", "US", "1.1.1.1"),
        row("2", "country", "ES", "2.2.2.2"),
    ];
    let hit = resolve(&state, &rows, Some(ClientIp::V4([1, 2, 3, 4]))).expect("valid address");
    assert_eq!(hit.target, Some("1.1.1.1".to_string()));
    assert_eq!(hit.message, None);
    let miss = resolve(&state, &rows, Some(ClientIp::V4([200, 1, 1, 1]))).expect("valid address");
    assert_eq!(miss.target, None);
    assert_eq!(miss.message, Some("no matching geo rule".to_string()));
    assert!(matches!(resolve(&state, &rows, None), Err(ResolveError::InvalidAddress)));
}

#[test]
fn resolve_without_dataset() {
    let state = ResolutionState::new(None);
    let rows = vec![row("1", "country", "US", "1.1.1.1")];
    let r = resolve(&state, &rows, Some(ClientIp::V4([1, 2, 3, 4]))).expect("valid address");
    assert_eq!(r.target, None);
    assert_eq!(r.message, Some("no matching geo rule".to_string()));
}
