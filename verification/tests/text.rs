use nova_ui::keyed::Keyed;
use nova_ui::text::{
    contains, decimal_text, last_segment, lines, remove_all, signed_text, single_line,
    starts_with, trim, uncamel,
};

#[test]
fn numbers_are_written_out() {
    assert_eq!(decimal_text(0), "0");
    assert_eq!(decimal_text(u64::MAX), u64::MAX.to_string());
    assert_eq!(signed_text(-137), "-137");
    assert_eq!(signed_text(i64::MIN), i64::MIN.to_string());
}

#[test]
fn texts_are_trimmed_by_unicode_space() {
    for s in ["", "  a b ", "\u{a0}x\u{3000}", "\u{85}\u{2028}y", "\u{200b}z", "\u{feff}"] {
        assert_eq!(trim(s), s.trim());
    }
}

#[test]
fn texts_are_cut_into_lines() {
    for s in ["", "a", "a\n", "a\r\nb", "\n\n", "a\rb\n", "x\r\n\r\n", "a\r"] {
        let expected: Vec<&str> = s.lines().collect();
        assert_eq!(lines(s), expected);
    }
}

#[test]
fn texts_are_searched() {
    assert!(contains("monaco", "") && contains("monaco", "aco") && !contains("mono", "aco"));
    assert!(starts_with("/a/b", "/a/") && !starts_with("/a", "/a/"));
    assert_eq!(last_segment("a/b/c", '/'), "c");
    assert_eq!(last_segment("c", '/'), "c");
    assert_eq!(remove_all("axbxc", "x"), "axbxc".replace("x", ""));
    assert_eq!(remove_all("aabb", "ab"), "aabb".replace("ab", ""));
    assert_eq!(single_line("a\n\nb\r\nc"), "a b c");
    assert_eq!(uncamel("TwoWords", " "), "two words");
}

#[test]
fn keys_are_kept_once() {
    let mut map: Keyed<u32> = Keyed::new();
    map.insert("a".into(), 1);
    map.insert("b".into(), 2);
    map.insert("a".into(), 3);
    assert_eq!(map.len(), 2);
    assert_eq!(map.get("a"), Some(&3));
    assert!(!map.contains("c"));
    assert_eq!(map.remove("a"), Some(3));
    assert_eq!(map.remove("a"), None);
    assert_eq!(map.len(), 1);
    assert_eq!(map.entry(0), ("b", &2));
}
