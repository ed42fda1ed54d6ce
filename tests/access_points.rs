use wizi::access_point::{
    decode_name, encode_name, format_frequency, frequency_tenths_ghz, read_access_points,
    record_names, AccessPointRecord,
};

#[test]
fn frequency_shows_one_decimal_in_ghz() {
    assert_eq!(format_frequency(2412000), "2.4");
    assert_eq!(format_frequency(5180000), "5.2");
    assert_eq!(format_frequency(0), "0.0");
    assert_eq!(format_frequency(60480000), "60.5");
}

#[test]
fn frequency_rounds_half_up() {
    assert_eq!(frequency_tenths_ghz(2449999), 24);
    assert_eq!(frequency_tenths_ghz(2450000), 25);
}

#[test]
fn largest_frequency_formats() {
    assert_eq!(frequency_tenths_ghz(u32::MAX), 42950);
    assert_eq!(format_frequency(u32::MAX), "4295.0");
}

#[test]
fn name_round_trip() {
    for s in ["", "Cafe", "Café ☕", "日本語"] {
        assert_eq!(decode_name(&encode_name(s)), s);
    }
}

#[test]
fn malformed_name_bytes_become_replacement() {
    let bytes = [0xffu8, b'A', 0xc3];
    assert_eq!(decode_name(&bytes), "\u{FFFD}A\u{FFFD}");
}

#[test]
fn records_keep_order_and_duplicates() {
    let names = vec![b"Home".to_vec(), b"Cafe".to_vec(), b"Home".to_vec()];
    let freqs = vec![2437000, 5180000, 5500000];
    let recs = read_access_points(&names, &freqs);
    let got: Vec<(&str, u32)> = recs.iter().map(|r| (r.name.as_str(), r.frequency)).collect();
    assert_eq!(got, vec![("Home", 2437000), ("Cafe", 5180000), ("Home", 5500000)]);
    assert_eq!(record_names(&recs), vec!["Home", "Cafe", "Home"]);
}

#[test]
fn record_frequency_accessors() {
    let r = AccessPointRecord { name: "x".to_string(), frequency: 2412000 };
    assert_eq!(r.frequency_tenths_ghz(), 24);
    assert_eq!(r.frequency_text(), "2.4");
}
