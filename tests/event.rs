use wifi_qr::event::{parse_event, Event};

fn record(class: u16, value: i32) -> Vec<u8> {
    let mut r = vec![0u8; 16];
    r[0..8].copy_from_slice(&[9, 8, 7, 6, 5, 4, 3, 2]);
    r[8..10].copy_from_slice(&class.to_le_bytes());
    r[10..12].copy_from_slice(&[0x8b, 0]);
    r[12..16].copy_from_slice(&value.to_le_bytes());
    r
}

#[test]
fn key_records_decode() {
    assert_eq!(parse_event(&record(1, 1)), Some(Event::KeyDown));
    assert_eq!(parse_event(&record(1, 0)), Some(Event::KeyUp));
}

#[test]
fn other_values_and_classes_are_ignored() {
    assert_eq!(parse_event(&record(1, 2)), None);
    assert_eq!(parse_event(&record(1, -1)), None);
    assert_eq!(parse_event(&record(1, 256)), None);
    assert_eq!(parse_event(&record(0, 1)), None);
    assert_eq!(parse_event(&record(257, 1)), None);
    assert_eq!(parse_event(&record(3, 0)), None);
}

#[test]
fn short_records_are_ignored() {
    let r = record(1, 1);
    assert_eq!(parse_event(&r[..15]), None);
    assert_eq!(parse_event(&[]), None);
    let mut long = r.clone();
    long.push(0xff);
    assert_eq!(parse_event(&long), Some(Event::KeyDown));
}
