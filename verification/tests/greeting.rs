use naeyla_native::greeting::greet;

#[test]
fn greet_wraps_the_name() {
    assert_eq!(greet("World"), "Hello, World! You've been greeted from Rust!");
}

#[test]
fn greet_accepts_the_empty_name() {
    assert_eq!(greet(""), "Hello, ! You've been greeted from Rust!");
}

#[test]
fn greet_keeps_spaces_and_line_breaks() {
    assert_eq!(
        greet("  Ada\nLovelace "),
        "Hello,   Ada\nLovelace ! You've been greeted from Rust!"
    );
}

#[test]
fn greet_does_not_read_the_name_as_a_pattern() {
    assert_eq!(greet("{}"), "Hello, {}! You've been greeted from Rust!");
    assert_eq!(greet("{0} %s"), "Hello, {0} %s! You've been greeted from Rust!");
}

#[test]
fn greet_keeps_names_beyond_ascii() {
    assert_eq!(greet("Zoë 한"), "Hello, Zoë 한! You've been greeted from Rust!");
}

#[test]
fn greet_of_its_own_text_nests() {
    let once = greet("x");
    assert_eq!(
        greet(&once),
        "Hello, Hello, x! You've been greeted from Rust!! You've been greeted from Rust!"
    );
}

#[test]
fn greeting_is_longer_by_the_fixed_text() {
    for name in ["", "a", "World", "Zoë 한", "a much longer name, with a comma"] {
        assert_eq!(greet(name).chars().count(), name.chars().count() + 39);
    }
}

#[test]
fn greeting_holds_the_name_behind_the_opening() {
    for name in ["", "a", "World", "Zoë 한"] {
        let text: Vec<char> = greet(name).chars().collect();
        let held: String = text[7..7 + name.chars().count()].iter().collect();
        assert_eq!(held, name);
    }
}

#[test]
fn different_names_are_greeted_differently() {
    assert_ne!(greet("Ada"), greet("Ada "));
    assert_ne!(greet("ada"), greet("Ada"));
}

#[test]
fn greet_gives_the_same_text_each_time() {
    assert_eq!(greet("Ada"), greet("Ada"));
}
