use ds_thread_player::command::{Command, CommandType};
use ds_thread_player::text::{same_text, split_message};

#[test]
fn split_message_splits_on_ascii_whitespace() {
    assert_eq!(
        split_message("!play  https://youtube.com/watch?v=a\tnow\n"),
        vec!["!play", "https://youtube.com/watch?v=a", "now"]
    );
}

#[test]
fn split_message_of_blank_text_is_empty() {
    assert!(split_message("").is_empty());
    assert!(split_message(" \t\r\n\x0C ").is_empty());
}

#[test]
fn split_message_keeps_unicode_whitespace_inside_words() {
    // U+00A0 is whitespace for Unicode but not ASCII whitespace.
    assert_eq!(split_message("a\u{a0}b c"), vec!["a\u{a0}b", "c"]);
    assert_eq!(split_message("привет мир"), vec!["привет", "мир"]);
}

#[test]
fn split_message_agrees_with_std() {
    let samples = [
        "  leading and trailing  ",
        "one",
        "\x0Cform\x0Cfeed\rreturn",
        "!help",
        "a  b   c    d",
    ];
    for s in samples {
        let expected: Vec<String> = s.split_ascii_whitespace().map(|w| w.to_string()).collect();
        assert_eq!(split_message(s), expected);
    }
}

#[test]
fn split_join_roundtrip_on_concrete_words() {
    let ws = split_message("x  yy\tzzz");
    let joined = ws.join(" ");
    assert_eq!(joined, "x yy zzz");
    assert_eq!(split_message(&joined), ws);
}

#[test]
fn command_words_are_recognised() {
    assert_eq!("!play".command_type(), CommandType::Play);
    assert_eq!("!leave".command_type(), CommandType::Leave);
    assert_eq!("!skip".command_type(), CommandType::Skip);
    assert_eq!("!help".command_type(), CommandType::Help);
}

#[test]
fn other_words_are_not_commands() {
    assert_eq!("!Play".command_type(), CommandType::NotCommand);
    assert_eq!("play".command_type(), CommandType::NotCommand);
    assert_eq!("!play!".command_type(), CommandType::NotCommand);
    assert_eq!("".command_type(), CommandType::NotCommand);
}

#[test]
fn command_labels_match_debug_output() {
    for c in [
        CommandType::Play,
        CommandType::Leave,
        CommandType::Skip,
        CommandType::Help,
        CommandType::NotCommand,
    ] {
        assert_eq!(c.label(), format!("{:#?}", c));
    }
}

#[test]
fn same_text_compares_characters() {
    assert!(same_text("abc", "abc"));
    assert!(!same_text("abc", "abd"));
    assert!(!same_text("abc", "ab"));
}
