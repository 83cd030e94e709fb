use checksec::names::has_suffix;

#[test]
fn suffix_is_found_at_the_end_only() {
    assert!(has_suffix("__memcpy_chk", "_chk"));
    assert!(has_suffix("_chk", "_chk"));
    assert!(has_suffix("anything", ""));
    assert!(has_suffix("", ""));
    assert!(!has_suffix("chk", "_chk"));
    assert!(!has_suffix("__chk_fail", "_chk"));
    assert!(!has_suffix("__memcpy_chK", "_chk"));
    assert!(!has_suffix("", "_chk"));
    assert!(has_suffix("na\u{ef}ve_chk", "_chk"));
    assert!(has_suffix("caf\u{e9}", "f\u{e9}"));
    assert!(!has_suffix("cafe", "f\u{e9}"));
}
