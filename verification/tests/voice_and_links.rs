use ds_thread_player::link::{check_youtube_origin, split_url, UrlError};
use ds_thread_player::voice::{
    determine_if_is_voice, playback_plan, playlist_links, session_target, VoiceEntry, YtOutput,
};

fn entry(user_id: u64, channel_id: Option<u64>) -> VoiceEntry {
    VoiceEntry { user_id, channel_id }
}

#[test]
fn author_channel_is_found() {
    let states = vec![entry(1, Some(10)), entry(2, Some(20)), entry(3, None)];
    let found = determine_if_is_voice(&states, 2);
    assert!(!found.notify_empty);
    assert_eq!(found.channel, Some(20));
}

#[test]
fn author_outside_voice_gets_nothing() {
    let states = vec![entry(1, Some(10)), entry(3, None)];
    assert_eq!(determine_if_is_voice(&states, 3).channel, None);
    assert_eq!(determine_if_is_voice(&states, 9).channel, None);
}

#[test]
fn empty_voice_states_trigger_the_notice() {
    let found = determine_if_is_voice(&vec![], 1);
    assert!(found.notify_empty);
    assert_eq!(found.channel, None);
}

#[test]
fn playlist_entries_become_links() {
    let out = YtOutput::Playlist {
        entries: Some(vec![Some("https://a".to_string()), None, Some("https://c".to_string())]),
    };
    assert_eq!(playlist_links("https://p", &out), vec!["https://a", "https://p", "https://c"]);
}

#[test]
fn single_video_and_unlisted_playlist_play_the_link() {
    assert_eq!(playlist_links("https://v", &YtOutput::SingleVideo), vec!["https://v"]);
    assert_eq!(playlist_links("https://v", &YtOutput::Playlist { entries: None }), vec!["https://v"]);
    assert!(playlist_links("https://v", &YtOutput::Playlist { entries: Some(vec![]) }).is_empty());
}

#[test]
fn session_needs_channel_and_links() {
    let links = vec!["https://a".to_string()];
    assert_eq!(session_target(Some(5), Some(links.clone())), Some((5, links.clone())));
    assert_eq!(session_target(None, Some(links)), None);
    assert_eq!(session_target(Some(5), None), None);
}

#[test]
fn every_track_schedules_a_leave() {
    let urls = vec!["a".to_string(), "b".to_string()];
    let plan = playback_plan(&urls);
    assert_eq!(plan.len(), 2);
    assert_eq!(plan[0].url, "a");
    assert_eq!(plan[1].url, "b");
    assert!(plan.iter().all(|s| s.leave_after));
}

#[test]
fn youtube_links_are_kept() {
    let link = "https://youtube.com/watch?v=vMCbJB4yNXo";
    assert_eq!(split_url(link), Ok(link.to_string()));
    // The parser lowercases the host, so this still leads to youtube.com.
    let upper = "https://YOUTUBE.com/watch?v=x";
    assert_eq!(split_url(upper), Ok(upper.to_string()));
}

#[test]
fn other_links_become_err() {
    assert_eq!(split_url("https://www.youtube.com/watch?v=x"), Ok("err".to_string()));
    assert_eq!(split_url("https://example.com/"), Ok("err".to_string()));
    assert_eq!(split_url("http://127.0.0.1/"), Ok("err".to_string()));
    assert_eq!(split_url("mailto:someone@youtube.com"), Ok("err".to_string()));
}

#[test]
fn non_urls_are_refused() {
    assert_eq!(split_url("not a url"), Err(UrlError::Parse));
    assert_eq!(split_url(""), Err(UrlError::Parse));
}

#[test]
fn origin_check_on_given_outcomes() {
    assert_eq!(check_youtube_origin("x", Err(UrlError::Parse)), Err(UrlError::Parse));
    assert_eq!(check_youtube_origin("x", Ok(Some("youtube.com".to_string()))), Ok("x".to_string()));
    assert_eq!(check_youtube_origin("x", Ok(Some("youtu.be".to_string()))), Ok("err".to_string()));
    assert_eq!(check_youtube_origin("x", Ok(None)), Ok("err".to_string()));
}
