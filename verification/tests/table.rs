use nestforge_transport::envelope::table_of_texts;
use nestforge_transport::table::StringTable;
use nestforge_transport::text::{
    decimal_text, has_scheme_separator, same_text, signed_decimal_text, text_order, TextOrder,
};

#[test]
fn entries_stand_in_key_order() {
    let mut table: StringTable<u8> = StringTable::new();
    for (key, value) in [("b", 2), ("é", 4), ("", 0), ("aa", 1), ("z", 3)] {
        table.insert(key.to_string(), value);
    }
    let keys: Vec<&str> = table.entries().iter().map(|entry| entry.0.as_str()).collect();
    assert_eq!(keys, vec!["", "aa", "b", "z", "é"]);
    assert_eq!(table.get("aa"), Some(&1));
    assert_eq!(table.get("a"), None);
}

#[test]
fn later_value_replaces_the_earlier() {
    let mut table: StringTable<u8> = StringTable::new();
    table.insert("k".to_string(), 1);
    table.insert("k".to_string(), 2);
    assert_eq!(table.entries().len(), 1);
    assert_eq!(table.get("k"), Some(&2));
    assert_eq!(table.remove("k"), Some(2));
    assert_eq!(table.remove("k"), None);
    assert_eq!(table.get("k"), None);
}

#[test]
fn table_of_a_list_keeps_the_later_entry() {
    let entries = vec![
        ("k".to_string(), "1".to_string()),
        ("a".to_string(), "x".to_string()),
        ("k".to_string(), "2".to_string()),
    ];
    let table = table_of_texts(&entries);
    assert_eq!(table.get("k").map(String::as_str), Some("2"));
    assert_eq!(table.get("a").map(String::as_str), Some("x"));
    assert_eq!(table.entries().len(), 2);
}

#[test]
fn texts_are_ordered_by_their_bytes() {
    let samples = ["", "a", "ab", "b", "é", "日", "😀", "A"];
    for a in samples {
        for b in samples {
            let expected = if a < b {
                TextOrder::Before
            } else if a == b {
                TextOrder::Same
            } else {
                TextOrder::After
            };
            assert_eq!(text_order(a, b), expected);
            assert_eq!(same_text(a, b), a == b);
        }
    }
}

#[test]
fn numerals() {
    assert_eq!(decimal_text(0), "0");
    assert_eq!(decimal_text(1234567890), "1234567890");
    assert_eq!(decimal_text(u128::MAX), u128::MAX.to_string());
    assert_eq!(signed_decimal_text(i32::MIN), "-2147483648");
    assert_eq!(signed_decimal_text(-1), "-1");
    assert_eq!(signed_decimal_text(7), "7");
}

#[test]
fn scheme_separator() {
    assert!(has_scheme_separator("http://a"));
    assert!(has_scheme_separator("://"));
    assert!(has_scheme_separator("é:://x"));
    assert!(!has_scheme_separator(""));
    assert!(!has_scheme_separator(":/"));
    assert!(!has_scheme_separator("a:/ /b:"));
}
