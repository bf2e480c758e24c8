use shell_runner::greeting::greet;

#[test]
fn a_name_is_greeted() {
    assert_eq!(greet("Ada"), "Hello, Ada! You've been greeted from Rust!");
}

#[test]
fn an_empty_name_is_greeted_too() {
    assert_eq!(greet(""), "Hello, ! You've been greeted from Rust!");
}

#[test]
fn the_name_is_taken_as_it_is() {
    assert_eq!(greet("  Zo\u{eb} B. "), "Hello,   Zo\u{eb} B. ! You've been greeted from Rust!");
    assert_eq!(greet("a\nb"), "Hello, a\nb! You've been greeted from Rust!");
}
