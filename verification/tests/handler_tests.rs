use kvstore::handlers::{handle_get, handle_list, handle_metrics, handle_set, metrics_response};
use kvstore::metrics::{Counter, Flow, Kind, Op, Recorder};
use kvstore::store::Store;

fn recorder() -> Recorder {
    Recorder::new().expect("collectors should register into a fresh registry")
}

#[test]
fn get_hit_response_text() {
    let store = Store::new();
    let mut rec = recorder();
    let resp = handle_get(&store, &mut rec, &"key1".to_string());
    assert_eq!(resp, "GET: key:key1, value:v1");
    let again = handle_get(&store, &mut rec, &"key1".to_string());
    assert_eq!(again, "GET: key:key1, value:v1");
}

#[test]
fn get_miss_response_text() {
    let store = Store::new();
    let mut rec = recorder();
    let resp = handle_get(&store, &mut rec, &"absent".to_string());
    assert_eq!(resp, "No key absent found");
}

#[test]
fn set_response_text_and_round_trip() {
    let mut store = Store::new();
    let mut rec = recorder();
    let resp = handle_set(&mut store, &mut rec, &"fruit".to_string(), &"pear".to_string());
    assert_eq!(resp, "SET: key:fruit, value:pear");
    let got = handle_get(&store, &mut rec, &"fruit".to_string());
    assert_eq!(got, "GET: key:fruit, value:pear");
}

#[test]
fn overwrite_then_get_returns_latest() {
    let mut store = Store::new();
    let mut rec = recorder();
    handle_set(&mut store, &mut rec, &"k".to_string(), &"v1".to_string());
    handle_set(&mut store, &mut rec, &"k".to_string(), &"v2".to_string());
    let got = handle_get(&store, &mut rec, &"k".to_string());
    assert_eq!(got, "GET: key:k, value:v2");
}

#[test]
fn list_reflects_current_contents() {
    let mut store = Store::new();
    let mut rec = recorder();
    handle_set(&mut store, &mut rec, &"a".to_string(), &"b".to_string());
    let listing = handle_list(&store);
    assert!(listing.contains("a: b\n"));
    assert!(listing.contains("key1: v1\n"));
    assert!(listing.contains("key2: v2\n"));
    assert!(listing.contains("key3: v3\n"));
    assert!(!listing.contains("zzz"));
    assert_eq!(listing.matches("a: b\n").count(), 1);
}

#[test]
fn miss_does_not_mutate_the_listing() {
    let store = Store::new();
    let mut rec = recorder();
    let before = handle_list(&store);
    handle_get(&store, &mut rec, &"absent".to_string());
    let after = handle_list(&store);
    assert_eq!(before, after);
    assert!(!after.contains("absent"));
}

#[test]
fn distinct_sets_then_gets_all_persist() {
    let mut store = Store::new();
    let mut rec = recorder();
    for i in 0..16 {
        handle_set(&mut store, &mut rec, &format!("user{}", i), &format!("value{}", i));
    }
    for i in 0..16 {
        let got = handle_get(&store, &mut rec, &format!("user{}", i));
        assert_eq!(got, format!("GET: key:user{}, value:value{}", i, i));
    }
}

#[test]
fn read_counters_add_exact_byte_lengths() {
    let store = Store::new();
    let mut rec = recorder();
    let rk0 = rec.counter_value(Counter::Bytes(Flow::Read, Kind::Key));
    let rv0 = rec.counter_value(Counter::Bytes(Flow::Read, Kind::Value));
    handle_get(&store, &mut rec, &"key1".to_string()); // hit: value "v1"
    handle_get(&store, &mut rec, &"missing".to_string()); // miss: key bytes only
    let rk1 = rec.counter_value(Counter::Bytes(Flow::Read, Kind::Key));
    let rv1 = rec.counter_value(Counter::Bytes(Flow::Read, Kind::Value));
    assert_eq!(rk1, rk0 + 4 + 7);
    assert_eq!(rv1, rv0 + 2);
    assert!(rk1 >= rk0 && rv1 >= rv0);
}

#[test]
fn write_counters_add_exact_byte_lengths() {
    let mut store = Store::new();
    let mut rec = recorder();
    handle_set(&mut store, &mut rec, &"héllo".to_string(), &"wörld".to_string());
    // 'é' and 'ö' each take two bytes in UTF-8.
    assert_eq!(rec.counter_value(Counter::Bytes(Flow::Write, Kind::Key)), 6);
    assert_eq!(rec.counter_value(Counter::Bytes(Flow::Write, Kind::Value)), 6);
    assert_eq!(rec.counter_value(Counter::Bytes(Flow::Read, Kind::Key)), 0);
}

#[test]
fn each_handled_request_takes_one_duration_sample() {
    let mut store = Store::new();
    let mut rec = recorder();
    assert_eq!(rec.counter_value(Counter::Samples(Op::Get)), 0);
    assert_eq!(rec.counter_value(Counter::Samples(Op::Put)), 0);
    handle_get(&store, &mut rec, &"key1".to_string());
    handle_get(&store, &mut rec, &"missing".to_string());
    handle_set(&mut store, &mut rec, &"k".to_string(), &"v".to_string());
    assert_eq!(rec.counter_value(Counter::Samples(Op::Get)), 2);
    assert_eq!(rec.counter_value(Counter::Samples(Op::Put)), 1);
}

#[test]
fn counters_are_monotonic_over_a_sequence() {
    let mut store = Store::new();
    let mut rec = recorder();
    let all = [
        Counter::Bytes(Flow::Read, Kind::Key),
        Counter::Bytes(Flow::Read, Kind::Value),
        Counter::Bytes(Flow::Write, Kind::Key),
        Counter::Bytes(Flow::Write, Kind::Value),
        Counter::Samples(Op::Get),
        Counter::Samples(Op::Put),
    ];
    let mut previous: Vec<u64> = all.iter().map(|c| rec.counter_value(*c)).collect();
    for i in 0..8 {
        handle_set(&mut store, &mut rec, &format!("k{}", i), &"v".to_string());
        handle_get(&store, &mut rec, &format!("k{}", i));
        handle_get(&store, &mut rec, &"nope".to_string());
        let current: Vec<u64> = all.iter().map(|c| rec.counter_value(*c)).collect();
        for (now, before) in current.iter().zip(previous.iter()) {
            assert!(now >= before);
        }
        previous = current;
    }
}

#[test]
fn metrics_export_reports_the_recorded_counters() {
    let mut store = Store::new();
    let mut rec = recorder();
    handle_set(&mut store, &mut rec, &"abc".to_string(), &"defgh".to_string());
    handle_get(&store, &mut rec, &"abc".to_string());
    let body = handle_metrics(&rec);
    assert!(body.contains("key_flow_bytes_total{flow=\"write\"} 3"));
    assert!(body.contains("value_flow_bytes_total{flow=\"write\"} 5"));
    assert!(body.contains("key_flow_bytes_total{flow=\"read\"} 3"));
    assert!(body.contains("value_flow_bytes_total{flow=\"read\"} 5"));
    assert!(body.contains("http_request_duration_seconds"));
}

#[test]
fn metrics_response_passes_text_through_or_diagnoses() {
    assert_eq!(metrics_response(Some("text 1\n".to_string())), "text 1\n");
    assert_eq!(metrics_response(None), "metrics export failed");
}

#[test]
fn export_is_read_only() {
    let mut store = Store::new();
    let mut rec = recorder();
    handle_set(&mut store, &mut rec, &"k".to_string(), &"v".to_string());
    let first = handle_metrics(&rec);
    let second = handle_metrics(&rec);
    assert_eq!(first, second);
    assert_eq!(rec.counter_value(Counter::Bytes(Flow::Write, Kind::Key)), 1);
}

#[test]
fn recorder_always_initializes_and_exports() {
    let rec = Recorder::new();
    assert!(rec.is_some());
    let rec = rec.unwrap();
    assert!(rec.export().is_some());
    let again = Recorder::new();
    assert!(again.is_some());
}
