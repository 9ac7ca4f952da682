use command_bridge::echo::echo;

#[test]
fn echo_sets_the_text_into_the_greeting() {
    assert_eq!(echo("Ada"), "Hello, Ada! You've been greeted from Rust!");
}

#[test]
fn echo_accepts_the_empty_text() {
    assert_eq!(echo(""), "Hello, ! You've been greeted from Rust!");
}

#[test]
fn echo_keeps_special_characters_as_they_are() {
    let text = "Zo\u{eb} <b>\"q\"</b> {} {0} %s \\n \t\u{65e5}\u{672c}\u{1f600}";
    let expected = format!("Hello, {}! You've been greeted from Rust!", text);
    assert_eq!(echo(text), expected);
    assert_eq!(
        echo("{}"),
        "Hello, {}! You've been greeted from Rust!"
    );
}

#[test]
fn echo_keeps_line_breaks_and_blanks() {
    assert_eq!(
        echo("  a\nb  "),
        "Hello,   a\nb  ! You've been greeted from Rust!"
    );
}

#[test]
fn echo_holds_the_text_once_at_its_offset() {
    let reply = echo("Ada");
    assert_eq!(reply.matches("Ada").count(), 1);
    assert_eq!(reply.find("Ada"), Some(7));
}

#[test]
fn echo_wording_around_the_text_is_fixed() {
    for text in ["", "Ada", "Grace Hopper", "!", "Hello, "] {
        let reply = echo(text);
        assert!(reply.starts_with("Hello, "));
        assert!(reply.ends_with("! You've been greeted from Rust!"));
        assert_eq!(reply.chars().count(), text.chars().count() + 39);
        assert_eq!(&reply[7..7 + text.len()], text);
    }
}

#[test]
fn echo_of_a_text_that_the_wording_spells_too_still_sets_it_once() {
    let reply = echo("l");
    assert_eq!(reply, "Hello, l! You've been greeted from Rust!");
    assert_eq!(&reply[7..8], "l");
    assert_eq!(reply.matches("l").count(), 3);
}

#[test]
fn echo_gives_the_same_reply_for_the_same_text() {
    assert_eq!(echo("Ada"), echo("Ada"));
    assert_eq!(echo(""), echo(""));
}

#[test]
fn echo_gives_different_replies_for_different_texts() {
    assert_ne!(echo("Ada"), echo("ada"));
    assert_ne!(echo("Ada"), echo("Ada "));
    assert_ne!(echo(""), echo(" "));
}
