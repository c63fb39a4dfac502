use projection_shell::greeting::greet;

#[test]
fn greet_world_is_exact() {
    assert_eq!(greet("World"), "Hello, World! You've been greeted from Rust!");
}

#[test]
fn greet_empty_name() {
    assert_eq!(greet(""), "Hello, ! You've been greeted from Rust!");
}

#[test]
fn greet_does_not_trim() {
    assert_eq!(greet("  Ada \n"), "Hello,   Ada \n! You've been greeted from Rust!");
}

#[test]
fn greet_does_not_escape() {
    assert_eq!(
        greet("{}<b>\"x\"</b>\\"),
        "Hello, {}<b>\"x\"</b>\\! You've been greeted from Rust!"
    );
}

#[test]
fn greet_keeps_non_ascii() {
    assert_eq!(greet("Zoë 🌍"), "Hello, Zoë 🌍! You've been greeted from Rust!");
}

#[test]
fn greet_is_not_the_name_alone() {
    let name = "World";
    let greeting = greet(name);
    assert_ne!(greeting, name);
    assert!(greeting.starts_with("Hello, "));
    assert!(greeting.ends_with("! You've been greeted from Rust!"));
    assert_eq!(greeting.len(), "Hello, ".len() + name.len() + "! You've been greeted from Rust!".len());
}
