use pedidos_rust::bimap::BiMap;
use pedidos_rust::bimap_u64_string_serde::{deserialize, serialize};
use pedidos_rust::decimal::{format_u64, parse_u64};

#[test]
fn parse_accepts_what_std_accepts() {
    for text in ["0", "7", "+5", "007", "18446744073709551615", "123456789"] {
        assert_eq!(parse_u64(text), text.parse::<u64>().ok(), "{}", text);
    }
    assert_eq!(parse_u64("+5"), Some(5));
    assert_eq!(parse_u64("18446744073709551615"), Some(u64::MAX));
}

#[test]
fn parse_rejects_what_std_rejects() {
    for text in ["", "+", "-1", "-0", "12a", " 1", "1 ", "18446744073709551616", "99999999999999999999", "++1", "1+"] {
        assert_eq!(parse_u64(text), None, "{}", text);
        assert!(text.parse::<u64>().is_err());
    }
}

#[test]
fn format_writes_decimal() {
    assert_eq!(format_u64(0), "0");
    assert_eq!(format_u64(9), "9");
    assert_eq!(format_u64(10), "10");
    assert_eq!(format_u64(123), "123");
    assert_eq!(format_u64(u64::MAX), "18446744073709551615");
}

#[test]
fn parse_of_format_is_identity() {
    for n in [0u64, 1, 9, 10, 99, 100, 4096, 1 << 40, u64::MAX - 1, u64::MAX] {
        assert_eq!(parse_u64(&format_u64(n)), Some(n));
        assert_eq!(format_u64(n), n.to_string());
    }
}

#[test]
fn serialize_writes_decimal_keys() {
    let mut m = BiMap::new();
    m.insert(42, "rider".to_string());
    assert_eq!(serialize(&m), vec![("42".to_string(), "rider".to_string())]);
}

#[test]
fn serialize_then_deserialize_round_trip() {
    let mut m = BiMap::new();
    m.insert(1, "a".to_string());
    m.insert(u64::MAX, "b".to_string());
    m.insert(0, "c".to_string());
    let back = deserialize(serialize(&m)).expect("keys written by serialize parse");
    let mut a = m.entries();
    let mut b = back.entries();
    a.sort();
    b.sort();
    assert_eq!(a, b);
}

#[test]
fn deserialize_reports_first_invalid_key() {
    let pairs = vec![
        ("1".to_string(), "a".to_string()),
        ("x2".to_string(), "b".to_string()),
        ("-3".to_string(), "c".to_string()),
    ];
    match deserialize(pairs) {
        Err(key) => assert_eq!(key, "x2"),
        Ok(_) => panic!("an invalid key was accepted"),
    }
}

#[test]
fn deserialize_inserts_in_order() {
    let pairs = vec![("1".to_string(), "a".to_string()), ("2".to_string(), "a".to_string())];
    let m = deserialize(pairs).unwrap();
    assert_eq!(m.get_by_value(&"a".to_string()), Some(&2));
    assert!(!m.contains_key(&1));
}
