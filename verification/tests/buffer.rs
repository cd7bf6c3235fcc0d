//! The sample buffer, its flush policies and its CSV rendering.

use keytimer::data::{relative_timestamp, Data, DataHolder, Distributer, KeyRule, WriteOn};
use keytimer::message::EventTyp;

fn sample(key: &str, key_code: u16, typ: EventTyp, timestamp: u64) -> Data {
    Data {
        key: key.to_string(),
        timestamp,
        typ,
        key_code,
    }
}

fn holder_with(write_on: Option<WriteOn>) -> DataHolder {
    DataHolder::new(write_on, "out".to_string(), "key_data", 2, 1000)
}

#[test]
fn count_trigger_fires_on_exactly_the_third_push() {
    let mut h = holder_with(Some(WriteOn::Count(3)));
    assert!(!h.push(sample("a", 1, EventTyp::KeyDown, 10)));
    assert!(!h.push(sample("b", 2, EventTyp::KeyDown, 20)));
    assert!(h.push(sample("c", 3, EventTyp::KeyDown, 30)));
    assert_eq!(h.buffer.len(), 3);
    h.complete_flush();
    assert_eq!(h.buffer.len(), 0);
    // The push counter keeps rising, so the count trigger never fires again.
    assert!(!h.push(sample("d", 4, EventTyp::KeyDown, 40)));
    assert!(!h.push(sample("e", 5, EventTyp::KeyDown, 50)));
    assert_eq!(h.buffer.len(), 2);
}

#[test]
fn filter_trigger_fires_only_on_matching_samples() {
    let rule = KeyRule {
        key_code: 27,
        typ: EventTyp::KeyUp,
    };
    let mut h = holder_with(Some(WriteOn::Filter(rule)));
    assert!(!h.push(sample("Escape", 27, EventTyp::KeyDown, 10)));
    assert!(!h.push(sample("A", 65, EventTyp::KeyUp, 20)));
    assert_eq!(h.buffer.len(), 2);
    assert!(h.push(sample("Escape", 27, EventTyp::KeyUp, 30)));
    assert_eq!(h.buffer.len(), 3);
    h.complete_flush();
    assert!(!h.push(sample("B", 66, EventTyp::KeyDown, 40)));
    assert!(h.push(sample("Escape", 27, EventTyp::KeyUp, 50)));
}

#[test]
fn no_policy_never_flushes() {
    let mut h = holder_with(None);
    for k in 0..10u16 {
        assert!(!h.push(sample("x", k, EventTyp::KeyUp, k as u64)));
    }
    assert_eq!(h.buffer.len(), 10);
}

#[test]
fn flush_content_renders_header_and_rows() {
    let mut h = holder_with(None);
    h.update_rtt(42);
    let _ = h.push(sample("A", 65, EventTyp::KeyDown, 100));
    let _ = h.push(sample("Escape", 27, EventTyp::KeyUp, 250));
    assert_eq!(
        h.flush_content(),
        "key,timestamp,key_code,typ,rtt\nA,100,65,keydown,42\nEscape,250,27,keyup,42\n"
    );
}

#[test]
fn flush_content_of_empty_buffer_is_header() {
    let h = holder_with(None);
    assert_eq!(h.flush_content(), "key,timestamp,key_code,typ,rtt\n");
}

#[test]
fn flush_uses_last_known_rtt_for_every_row() {
    let mut h = holder_with(None);
    let _ = h.push(sample("a", 1, EventTyp::KeyDown, 10));
    h.update_rtt(7);
    let _ = h.push(sample("b", 2, EventTyp::KeyUp, 20));
    assert_eq!(
        h.flush_content(),
        "key,timestamp,key_code,typ,rtt\na,10,1,keydown,7\nb,20,2,keyup,7\n"
    );
}

#[test]
fn file_name_embeds_prefix_connection_and_sequence() {
    let mut h = holder_with(None);
    assert_eq!(h.flush_file_name(), "key_data_2_0.csv");
    h.complete_flush();
    assert_eq!(h.flush_file_name(), "key_data_2_1.csv");
}

#[test]
fn complete_flush_keeps_push_counter() {
    let mut h = holder_with(Some(WriteOn::Count(2)));
    assert!(!h.push(sample("a", 1, EventTyp::KeyDown, 10)));
    assert!(h.push(sample("b", 2, EventTyp::KeyDown, 20)));
    h.complete_flush();
    assert_eq!(h.counter, 2);
    assert_eq!(h.file_counter, 1);
}

#[test]
fn first_timestamp_is_the_baseline() {
    let h = holder_with(None);
    assert_eq!(h.first_timestamp(), 1000);
}

#[test]
fn relative_timestamps_are_monotonic() {
    let baseline: u128 = 1000;
    assert_eq!(relative_timestamp(900, baseline), 0);
    assert_eq!(relative_timestamp(1000, baseline), 0);
    assert_eq!(relative_timestamp(1500, baseline), 500);
    let mut last: u64 = 0;
    for t in [1000u128, 1001, 1300, 1300, 2500] {
        let r = relative_timestamp(t, baseline);
        assert!(r >= last);
        last = r;
    }
}

#[test]
fn distributer_numbers_connections() {
    let mut d = Distributer::new(
        Some(WriteOn::Count(5)),
        "out".to_string(),
        "key_data",
    );
    let h0 = d.new_connection();
    let h1 = d.new_connection();
    assert_eq!(h0.connection_counter, 0);
    assert_eq!(h1.connection_counter, 1);
    assert!(matches!(h0.write_on, Some(WriteOn::Count(5))));
    assert_eq!(h0.out_dir, "out");
    assert_eq!(h0.out_prefix, "key_data");
    assert_eq!(h0.buffer.len(), 0);
    assert_eq!(h0.rtt, 0);
}
