use ds_thread_player::command::CommandType;
use ds_thread_player::config::{
    config_from_documents, return_prompt, YamlDocument, YamlEntry,
};
use ds_thread_player::dispatch::{plan_message, requested_link, Step, HELP_TEXT};
use ds_thread_player::error::ErrorHandling;
use ds_thread_player::voice::VoiceState;

#[test]
fn settings_are_read_from_yaml() {
    let text = "host: localhost\nusername: bot\npassword: SECRET-REDACTED\n";
    let cfg = return_prompt("config.yaml", Some(text.to_string())).unwrap().unwrap();
    assert_eq!(cfg.host, "localhost");
    assert_eq!(cfg.username, "bot");
    assert_eq!(cfg.password, "SECRET-REDACTED");
}

#[test]
fn missing_or_non_string_settings_are_empty() {
    let text = "host: 5432\nusername: bot\n";
    let cfg = return_prompt("config.yaml", Some(text.to_string())).unwrap().unwrap();
    assert_eq!(cfg.host, "");
    assert_eq!(cfg.username, "bot");
    assert_eq!(cfg.password, "");
}

#[test]
fn only_the_first_document_counts() {
    let text = "username: first\n---\nusername: second\n";
    let cfg = return_prompt("c", Some(text.to_string())).unwrap().unwrap();
    assert_eq!(cfg.username, "first");
}

#[test]
fn non_mapping_or_empty_file_gives_none() {
    assert!(return_prompt("c", Some("- a\n- b\n".to_string())).unwrap().is_none());
    assert!(return_prompt("c", Some("".to_string())).unwrap().is_none());
}

#[test]
fn unreadable_or_invalid_files_are_errors() {
    match return_prompt("config.yaml", None) {
        Err(ErrorHandling::IoOperation { path }) => assert_eq!(path, "config.yaml"),
        other => panic!("unexpected {:?}", other),
    }
    match return_prompt("c", Some("key: [unclosed".to_string())) {
        Err(ErrorHandling::YamlScan) => {}
        other => panic!("unexpected {:?}", other),
    }
}

#[test]
fn settings_from_given_documents() {
    let docs = vec![YamlDocument::Mapping(vec![
        YamlEntry { key: Some("host".to_string()), value: Some("h".to_string()) },
        YamlEntry { key: None, value: Some("ignored".to_string()) },
        YamlEntry { key: Some("password".to_string()), value: None },
    ])];
    let cfg = config_from_documents(&docs);
    assert_eq!(cfg.host, "h");
    assert_eq!(cfg.username, "");
    assert_eq!(cfg.password, "");
}

#[test]
fn play_with_database() {
    assert_eq!(
        plan_message("!play https://youtube.com/watch?v=a", true),
        vec![
            Step::LogMessage(CommandType::Play),
            Step::RecordVoiceState(VoiceState::Occupied),
            Step::StartVoiceSession
        ]
    );
}

#[test]
fn play_without_database() {
    assert_eq!(plan_message("!play x", false), vec![Step::StartVoiceSession]);
}

#[test]
fn other_commands() {
    assert_eq!(plan_message("!help", false), vec![Step::SendHelp]);
    assert_eq!(plan_message("  !leave now", false), vec![Step::EndVoiceSession]);
    assert_eq!(
        plan_message("!skip", true),
        vec![Step::LogMessage(CommandType::Skip), Step::SkipTrack]
    );
    assert_eq!(
        plan_message("hello there", true),
        vec![Step::LogMessage(CommandType::NotCommand), Step::NotACommand]
    );
}

#[test]
fn blank_messages_get_no_answer() {
    assert!(plan_message("", true).is_empty());
    assert!(plan_message(" \n ", true).is_empty());
}

#[test]
fn requested_link_is_the_second_word() {
    assert_eq!(requested_link("!play https://a b"), Some("https://a".to_string()));
    assert_eq!(requested_link("!play"), None);
}

#[test]
fn help_text_lists_the_commands() {
    assert!(HELP_TEXT.starts_with("!play https://someurl.com"));
    assert!(HELP_TEXT.contains("!leave - Bot leaves the voice channel"));
}
