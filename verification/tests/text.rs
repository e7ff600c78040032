use scf_next::text::{str_contains, str_eq, str_lt};

#[test]
fn string_order_and_search() {
    assert!(str_lt("a", "b"));
    assert!(str_lt("", "a"));
    assert!(!str_lt("a", "a"));
    assert!(str_lt("ab", "b"));
    assert!(str_lt("Z", "a"));
    assert!(!str_lt("b", "ab"));
    assert!(str_eq("héllo", "héllo"));
    assert!(!str_eq("a", "ab"));
    assert!(str_contains(",a:b0,", ",a:"));
    assert!(!str_contains(",ba:b0,", ",a:"));
    assert!(str_contains("x", ""));
    assert!(!str_contains("", "x"));
}
