use statemachine::holdings::{default_span_namer, TonicClientCarrier, TraceLayer};
use statemachine::statemachine::TonicClientHeaderCarrier;
use statemachine::telemetry::{init_telemetry, Telemetry, TraceSetupError};
use tonic::metadata::MetadataMap;

fn set(map: &mut MetadataMap, key: &str, value: &str) {
    let mut carrier = TonicClientCarrier::new(map);
    carrier.set(key, value.to_string());
}

#[test]
fn injected_field_is_extracted() {
    let mut map = MetadataMap::new();
    set(&mut map, "traceparent", "00-0af7651916cd43dd8448eb211c80319c-b7ad6b7169203331-01");
    let reader = TonicClientHeaderCarrier::new(&map);
    assert_eq!(
        reader.get("traceparent"),
        Some("00-0af7651916cd43dd8448eb211c80319c-b7ad6b7169203331-01")
    );
    assert_eq!(reader.get("tracestate"), None);
}

#[test]
fn keys_are_normalized_to_lower_case() {
    let mut map = MetadataMap::new();
    set(&mut map, "TraceParent", "abc");
    assert_eq!(map.get("traceparent").unwrap().to_str().unwrap(), "abc");
    let reader = TonicClientHeaderCarrier::new(&map);
    assert_eq!(reader.get("TRACEPARENT"), Some("abc"));
    assert_eq!(reader.keys(), vec!["traceparent"]);
}

#[test]
fn set_replaces_all_values() {
    let mut map = MetadataMap::new();
    map.append("baggage", "one".parse().unwrap());
    map.append("baggage", "two".parse().unwrap());
    set(&mut map, "baggage", "three");
    let values: Vec<_> = map.get_all("baggage").iter().map(|v| v.to_str().unwrap().to_string()).collect();
    assert_eq!(values, vec!["three".to_string()]);
}

#[test]
fn invalid_keys_are_skipped() {
    let mut map = MetadataMap::new();
    set(&mut map, "bad key", "x");
    set(&mut map, "", "x");
    set(&mut map, "trace-bin", "x");
    set(&mut map, "trace-BIN", "x");
    assert!(map.is_empty());
}

#[test]
fn invalid_values_are_skipped() {
    let mut map = MetadataMap::new();
    set(&mut map, "traceparent", "line\nbreak");
    set(&mut map, "tracestate", "del\u{7f}");
    assert!(map.is_empty());
}

#[test]
fn non_ascii_value_is_stored_but_not_read_as_text() {
    let mut map = MetadataMap::new();
    set(&mut map, "note", "caf\u{e9}");
    assert_eq!(map.get("note").unwrap().as_bytes(), "caf\u{e9}".as_bytes());
    let reader = TonicClientHeaderCarrier::new(&map);
    assert_eq!(reader.get("note"), None);
}

#[test]
fn extractor_ignores_binary_keys() {
    let mut map = MetadataMap::new();
    map.insert_bin("trace-bin", tonic::metadata::MetadataValue::from_bytes(b"abc"));
    let reader = TonicClientHeaderCarrier::new(&map);
    assert_eq!(reader.get("trace-bin"), None);
    assert_eq!(reader.keys(), vec!["trace-bin"]);
}

#[test]
fn extractor_lists_each_key_once() {
    let mut map = MetadataMap::new();
    map.append("a", "1".parse().unwrap());
    map.append("a", "2".parse().unwrap());
    map.append("b", "3".parse().unwrap());
    let reader = TonicClientHeaderCarrier::new(&map);
    let mut keys = reader.keys();
    keys.sort();
    assert_eq!(keys, vec!["a", "b"]);
}

#[test]
fn span_name_is_testing() {
    assert_eq!(default_span_namer(), "testing");
}

#[test]
fn layer_wraps_the_service() {
    let layer = TraceLayer {};
    let service = layer.layer(42u32);
    assert_eq!(service.into_inner(), 42);
}

#[test]
fn telemetry_starts_whether_or_not_setup_worked() {
    let _ok = Telemetry::new(Ok(()));
    let _failed = Telemetry::new(Err(TraceSetupError { message: "no collector".to_string() }));
    init_telemetry(Err(TraceSetupError { message: "no collector".to_string() }));
    init_telemetry(Ok(()));
}

#[test]
fn set_twice_keeps_second() {
    let mut map = MetadataMap::new();
    set(&mut map, "traceparent", "first");
    set(&mut map, "traceparent", "second");
    let reader = TonicClientHeaderCarrier::new(&map);
    assert_eq!(reader.get("traceparent"), Some("second"));
    set(&mut map, "traceparent", "bad\nvalue");
    assert_eq!(map.get("traceparent").unwrap().to_str().unwrap(), "second");
}

#[test]
fn keys_follow_map_order() {
    let mut map = MetadataMap::new();
    for key in ["zeta", "alpha", "mid", "beta"] {
        map.insert(key, "v".parse().unwrap());
    }
    map.insert_bin("blob-bin", tonic::metadata::MetadataValue::from_bytes(b"x"));
    let expected: Vec<&str> = map
        .keys()
        .map(|k| match k {
            tonic::metadata::KeyRef::Ascii(k) => k.as_str(),
            tonic::metadata::KeyRef::Binary(k) => k.as_str(),
        })
        .collect();
    let reader = TonicClientHeaderCarrier::new(&map);
    assert_eq!(reader.keys(), expected);
    assert_eq!(reader.keys().len(), map.keys_len());
}

#[test]
fn try_set_sets_when_there_is_room() {
    let mut map = MetadataMap::new();
    let mut carrier = TonicClientCarrier::new(&mut map);
    assert!(carrier.try_set("traceparent", "abc".to_string()));
    assert!(carrier.try_set("bad key", "abc".to_string()));
    assert_eq!(map.get("traceparent").unwrap().to_str().unwrap(), "abc");
    assert_eq!(map.keys_len(), 1);
}

#[test]
fn try_set_refuses_a_full_map() {
    let mut map = MetadataMap::new();
    for i in 0..6554 {
        map.insert(tonic::metadata::MetadataKey::from_bytes(format!("k{i}").as_bytes()).unwrap(), "v".parse().unwrap());
    }
    let mut carrier = TonicClientCarrier::new(&mut map);
    assert!(!carrier.try_set("traceparent", "abc".to_string()));
    assert!(map.get("traceparent").is_none());
    assert_eq!(map.keys_len(), 6554);
}

#[test]
fn try_set_at_the_limit_still_sets() {
    let mut map = MetadataMap::new();
    for i in 0..6553 {
        map.insert(tonic::metadata::MetadataKey::from_bytes(format!("k{i}").as_bytes()).unwrap(), "v".parse().unwrap());
    }
    let mut carrier = TonicClientCarrier::new(&mut map);
    assert!(carrier.try_set("traceparent", "abc".to_string()));
    assert_eq!(map.keys_len(), 6554);
}

#[test]
fn set_keeps_key_places() {
    let mut map = MetadataMap::new();
    set(&mut map, "first", "1");
    set(&mut map, "second", "2");
    set(&mut map, "first", "3");
    set(&mut map, "third", "4");
    let reader = TonicClientHeaderCarrier::new(&map);
    assert_eq!(reader.keys(), vec!["first", "second", "third"]);
    assert_eq!(reader.get("first"), Some("3"));
}
