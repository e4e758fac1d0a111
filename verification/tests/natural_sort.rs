use oj_api::natsort::natural_sort_key;


#[test]
fn numeric_ordering() {
    assert!(natural_sort_key("P2000") < natural_sort_key("P10000"));
    assert!(natural_sort_key("P999") < natural_sort_key("P1000"));
}

#[test]
fn pure_numeric() {
    assert!(natural_sort_key("999") < natural_sort_key("1000"));
    assert!(natural_sort_key("1") < natural_sort_key("10"));
}

#[test]
fn case_insensitive() {
    assert_eq!(natural_sort_key("P1"), natural_sort_key("p1"));
    assert_eq!(natural_sort_key("ABC"), natural_sort_key("abc"));
}

#[test]
fn empty_and_null_equivalent() {
    assert_eq!(natural_sort_key(""), "");
}

#[test]
fn multi_segment() {
    let k = natural_sort_key("abc001_a");
    assert_eq!(k, "abc00000000000000000001_a");
}

#[test]
fn pure_alpha() {
    assert!(natural_sort_key("A") < natural_sort_key("B"));
    assert!(natural_sort_key("abc") < natural_sort_key("abd"));
}

#[test]
fn numeric_prefix_ordering() {
    assert!(natural_sort_key("1000A") < natural_sort_key("1000B"));
    assert!(natural_sort_key("1A") < natural_sort_key("2A"));
    assert!(natural_sort_key("9A") < natural_sort_key("10A"));
}
