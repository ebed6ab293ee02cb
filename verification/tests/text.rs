use tray_runner::text::str_eq;

#[test]
fn equal_strings_compare_equal() {
    assert!(str_eq("", ""));
    assert!(str_eq("Kill", "Kill"));
    assert!(str_eq("Show Logs", "Show Logs"));
    assert!(str_eq("héllo wörld ✓", "héllo wörld ✓"));
}

#[test]
fn different_strings_compare_unequal() {
    assert!(!str_eq("", "a"));
    assert!(!str_eq("a", ""));
    assert!(!str_eq("Kill", "Kilo"));
    assert!(!str_eq("Kill", "Kil"));
    assert!(!str_eq("Kil", "Kill"));
    assert!(!str_eq("é", "e"));
    assert!(!str_eq("ab", "ba"));
}
