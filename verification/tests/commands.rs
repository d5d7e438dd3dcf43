use openchat_backend::commands::{greet, maximize_window, WindowAction};

#[test]
fn greet_names_the_guest() {
    assert_eq!(greet("Ada"), "Hello, Ada! You've been greeted from Rust!");
}

#[test]
fn greet_accepts_an_empty_name() {
    assert_eq!(greet(""), "Hello, ! You've been greeted from Rust!");
}

#[test]
fn maximize_button_toggles() {
    assert_eq!(maximize_window(false), WindowAction::Maximize);
    assert_eq!(maximize_window(true), WindowAction::Unmaximize);
}
