use burrito_minigames::account_map::AccountMap;
use burrito_minigames::decimal::{parse_u8, u128_to_string, u64_to_string, u8_to_string};

#[test]
fn parse_u8_reads_like_std() {
    assert_eq!(parse_u8("0"), Some(0));
    assert_eq!(parse_u8("3"), Some(3));
    assert_eq!(parse_u8("255"), Some(255));
    assert_eq!(parse_u8("007"), Some(7));
    assert_eq!(parse_u8("+7"), Some(7));
    assert_eq!(parse_u8("256"), None);
    assert_eq!(parse_u8("1000"), None);
    assert_eq!(parse_u8("-1"), None);
    assert_eq!(parse_u8(""), None);
    assert_eq!(parse_u8("+"), None);
    assert_eq!(parse_u8("1a"), None);
    assert_eq!(parse_u8(" 1"), None);
    assert_eq!(parse_u8("2.5"), None);
    for s in ["0", "3", "255", "007", "+7", "256", "-1", "", "+", "1a", "99999999999999999999"] {
        assert_eq!(parse_u8(s), s.parse::<u8>().ok(), "{}", s);
    }
}

#[test]
fn decimal_text_like_to_string() {
    assert_eq!(u8_to_string(0), "0");
    assert_eq!(u8_to_string(2), "2");
    assert_eq!(u8_to_string(45), "45");
    assert_eq!(u8_to_string(255), "255");
    assert_eq!(u64_to_string(1000), "1000");
    assert_eq!(u64_to_string(u64::MAX), u64::MAX.to_string());
    assert_eq!(u128_to_string(u128::MAX), u128::MAX.to_string());
    assert_eq!(u128_to_string(10), "10");
}

#[test]
fn parse_reads_back_what_to_string_wrote() {
    for n in 0..=255u8 {
        assert_eq!(parse_u8(&u8_to_string(n)), Some(n));
    }
}

#[test]
fn account_map_insert_get_remove() {
    let mut m: AccountMap<u32> = AccountMap::new();
    assert!(!m.contains_key("alice"));
    assert_eq!(m.get("alice"), None);
    m.insert("alice".to_string(), 1);
    m.insert("bob".to_string(), 2);
    assert_eq!(m.get("alice"), Some(&1));
    assert_eq!(m.get("bob"), Some(&2));
    m.insert("alice".to_string(), 3);
    assert_eq!(m.get("alice"), Some(&3));
    assert_eq!(m.entries().len(), 2);
    assert_eq!(m.entries()[0].0, "alice");
    m.remove("alice");
    assert!(!m.contains_key("alice"));
    assert_eq!(m.get("bob"), Some(&2));
    assert_eq!(m.entries().len(), 1);
    m.remove("nobody");
    assert_eq!(m.entries().len(), 1);
    m.clear();
    assert!(!m.contains_key("bob"));
    assert_eq!(m.entries().len(), 0);
}

#[test]
fn account_map_tells_similar_names_apart() {
    let mut m: AccountMap<u32> = AccountMap::new();
    m.insert("ab".to_string(), 1);
    m.insert("abc".to_string(), 2);
    m.insert("ba".to_string(), 3);
    assert_eq!(m.get("ab"), Some(&1));
    assert_eq!(m.get("abc"), Some(&2));
    assert_eq!(m.get("ba"), Some(&3));
    assert_eq!(m.get("a"), None);
}
