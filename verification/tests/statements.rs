use ds_thread_player::db::{
    connection_settings, connection_string, create_schema_sql, insert_typed_message_sql,
    insert_voice_state_sql, latest_voice_state, snowflake_to_i64, typed_messages_table_sql,
    voice_state_query_sql, voice_state_table_sql,
};
use ds_thread_player::decimal::{push_decimal, push_i64};
use ds_thread_player::error::ErrorHandling;
use ds_thread_player::voice::VoiceState;

#[test]
fn decimal_formatting_matches_display() {
    for x in [0i64, 7, 10, 99, 1234567890, -1, -10, i64::MAX, i64::MIN] {
        let mut s = String::from("n=");
        push_i64(&mut s, x);
        assert_eq!(s, format!("n={}", x));
    }
    let mut s = String::new();
    push_decimal(&mut s, u64::MAX);
    assert_eq!(s, u64::MAX.to_string());
}

#[test]
fn schema_statement_names_the_guild() {
    assert_eq!(
        create_schema_sql(1372577191019417784),
        "CREATE SCHEMA IF NOT EXISTS guild_1372577191019417784"
    );
    assert_eq!(create_schema_sql(-5), "CREATE SCHEMA IF NOT EXISTS guild_-5");
}

#[test]
fn statements_match_the_original_format_strings() {
    let g: i64 = 42;
    assert_eq!(
        voice_state_table_sql(g),
        format!(
            "CREATE TABLE IF NOT EXISTS guild_{}.voice_state (\n        id              SERIAL PRIMARY KEY,\n        message_id       BIGINT NOT NULL,\n        channel_id      BIGINT NOT NULL,\n        author_id       BIGINT NOT NULL,\n        state           VARCHAR NOT NULL,\n        timestamp       TIMESTAMPTZ NOT NULL\n    )",
            g
        )
    );
    assert_eq!(
        insert_voice_state_sql(g),
        format!(
            "\n            INSERT INTO guild_{}.voice_state (message_id, channel_id, author_id, state, timestamp)\n            VALUES ($1, $2, $3, $4, $5)\n            ",
            g
        )
    );
    assert_eq!(
        typed_messages_table_sql(g),
        format!(
            "CREATE TABLE IF NOT EXISTS guild_{}.typed_messages (\n        message_id       BIGINT PRIMARY KEY,\n        channel_id      BIGINT NOT NULL,\n        author_id       BIGINT NOT NULL,\n        author_insignia TEXT,\n        contents         TEXT,\n        message_type    TEXT,\n        timestamp       TIMESTAMPTZ NOT NULL\n    )",
            g
        )
    );
    assert_eq!(
        insert_typed_message_sql(g),
        format!(
            "\n            INSERT INTO guild_{}.typed_messages (message_id, channel_id, author_id, author_insignia, contents, message_type, timestamp)\n            VALUES ($1, $2, $3, $4, $5, $6, $7)\n            ON CONFLICT (message_id) DO NOTHING\n            ",
            g
        )
    );
    assert_eq!(
        voice_state_query_sql(g),
        format!("SELECT * FROM guild_{}.voice_state\n                ORDER BY timestamp DESC", g)
    );
}

#[test]
fn distinct_guilds_get_distinct_schemas() {
    assert_ne!(create_schema_sql(1), create_schema_sql(11));
    assert_ne!(create_schema_sql(-1), create_schema_sql(1));
}

#[test]
fn snowflakes_convert_like_as_i64() {
    for x in [0u64, 1, 1372577191019417784, i64::MAX as u64, i64::MAX as u64 + 1, u64::MAX] {
        assert_eq!(snowflake_to_i64(x), x as i64);
    }
    assert_eq!(snowflake_to_i64(u64::MAX), -1);
}

#[test]
fn connection_string_layout() {
    assert_eq!(
        connection_string("db", "bot", "SECRET-REDACTED"),
        "host=db user=bot password=SECRET-REDACTED"
    );
}

#[test]
fn connection_settings_report_first_missing_variable() {
    let s = |v: &str| Some(v.to_string());
    match connection_settings(None, None, None) {
        Err(ErrorHandling::StdEnv { varname }) => assert_eq!(varname, "POSTGRES_USER"),
        other => panic!("unexpected {:?}", other),
    }
    match connection_settings(s("u"), None, None) {
        Err(ErrorHandling::StdEnv { varname }) => assert_eq!(varname, "POSTGRES_PASSWORD"),
        other => panic!("unexpected {:?}", other),
    }
    match connection_settings(s("u"), s("p"), None) {
        Err(ErrorHandling::StdEnv { varname }) => assert_eq!(varname, "POSTGRES_HOST"),
        other => panic!("unexpected {:?}", other),
    }
    match connection_settings(s("u"), s("p"), s("h")) {
        Ok(c) => assert_eq!(c, "host=h user=u password=p"),
        other => panic!("unexpected {:?}", other),
    }
}

#[test]
fn voice_state_codes_roundtrip() {
    assert_eq!(VoiceState::Free.code(), "F");
    assert_eq!(VoiceState::Occupied.code(), "O");
    for s in [VoiceState::Free, VoiceState::Occupied] {
        assert_eq!(VoiceState::from_code(s.code()), s);
    }
    assert_eq!(VoiceState::from_code("X"), VoiceState::Free);
    assert_eq!(VoiceState::from_code("OO"), VoiceState::Free);
}

#[test]
fn latest_voice_state_reads_newest_code() {
    assert_eq!(latest_voice_state(&vec![]), None);
    assert_eq!(
        latest_voice_state(&vec!["O".to_string(), "F".to_string()]),
        Some(VoiceState::Occupied)
    );
    assert_eq!(latest_voice_state(&vec!["F".to_string(), "O".to_string()]), Some(VoiceState::Free));
}
