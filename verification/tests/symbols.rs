use little_turing_machine::universe::Symbol;

#[test]
fn empty_symbol_is_empty() {
    assert!(Symbol::empty().is_empty())
}

#[test]
fn empty_symbol_is_underscore() {
    assert_eq!(Symbol::empty().render(), String::from("_"));
}

#[test]
fn symbol_to_string_is_number() {
    assert_eq!(Symbol::from(4).render(), String::from("4"))
}

#[test]
fn symbol_renders_multiple_digits() {
    assert_eq!(Symbol::from(0).render(), String::from("0"));
    assert_eq!(Symbol::from(10).render(), String::from("10"));
    assert_eq!(Symbol::from(1234).render(), String::from("1234"));
}

#[test]
fn numbered_symbol_is_not_empty() {
    assert!(!Symbol::from(0).is_empty());
}
