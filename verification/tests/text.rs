use stray::notifier_host::wellknown_name;
use stray::text::{chars_of, contains, decimal_string, find_char, remove_char, str_eq};

#[test]
fn chars_are_listed_in_order() {
    assert_eq!(chars_of("aé/"), vec!['a', 'é', '/']);
    assert_eq!(chars_of(""), Vec::<char>::new());
}

#[test]
fn equal_strings_are_equal() {
    assert!(str_eq("label", "label"));
    assert!(str_eq("", ""));
    assert!(!str_eq("label", "labe"));
    assert!(!str_eq("label", "lobel"));
    assert!(!str_eq("é", "e"));
}

#[test]
fn first_occurrence_is_found() {
    assert_eq!(find_char(&chars_of("a/b/c"), '/'), 1);
    assert_eq!(find_char(&chars_of("/"), '/'), 0);
    assert_eq!(find_char(&chars_of("abc"), '/'), 3);
    assert_eq!(find_char(&chars_of(""), '/'), 0);
}

#[test]
fn substring_is_found() {
    assert!(contains(":1.99/StatusNotifierItem", ":1.99"));
    assert!(contains(":1.99/StatusNotifierItem", "Item"));
    assert!(contains(":1.99/StatusNotifierItem", "/Status"));
    assert!(contains("abc", ""));
    assert!(contains("", ""));
    assert!(contains("abc", "abc"));
    assert!(!contains("abc", "abcd"));
    assert!(!contains("", "a"));
    assert!(!contains(":1.99/StatusNotifierItem", ":1.98"));
    assert!(!contains("aab", "abb"));
    assert!(contains("aaab", "aab"));
}

#[test]
fn every_occurrence_is_removed() {
    assert_eq!(remove_char("_File", '_'), "File");
    assert_eq!(remove_char("Save _As", '_'), "Save As");
    assert_eq!(remove_char("__", '_'), "");
    assert_eq!(remove_char("a__b_", '_'), "ab");
    assert_eq!(remove_char("", '_'), "");
    assert_eq!(remove_char("plain", '_'), "plain");
    assert_eq!(remove_char("é_ü", '_'), "éü");
}

#[test]
fn decimal_notation() {
    assert_eq!(decimal_string(0), "0");
    assert_eq!(decimal_string(7), "7");
    assert_eq!(decimal_string(10), "10");
    assert_eq!(decimal_string(7777), "7777");
    assert_eq!(decimal_string(1_000_000), "1000000");
    assert_eq!(decimal_string(u32::MAX), "4294967295");
}

#[test]
fn host_name_format() {
    assert_eq!(wellknown_name(7777, "Bar"), "org.freedesktop.StatusNotifierHost-7777-Bar");
}

#[test]
fn host_name_of_first_process_and_empty_id() {
    assert_eq!(wellknown_name(0, ""), "org.freedesktop.StatusNotifierHost-0-");
    assert_eq!(
        wellknown_name(u32::MAX, "host_one"),
        "org.freedesktop.StatusNotifierHost-4294967295-host_one"
    );
}
