use projbotv3::commands::{find_command, text_equal, wants_playback};

fn msgs(items: &[Option<&str>]) -> Vec<Option<String>> {
    items.iter().map(|m| m.map(|s| s.to_string())).collect()
}

#[test]
fn play_only_in_a_server() {
    assert!(wants_playback(true, "!play"));
    assert!(!wants_playback(false, "!play"));
    assert!(!wants_playback(true, "!play "));
    assert!(!wants_playback(true, "!PLAY"));
    assert!(!wants_playback(true, ""));
}

#[test]
fn text_equality() {
    assert!(text_equal("héllo", "héllo"));
    assert!(!text_equal("héllo", "hello"));
    assert!(text_equal("", ""));
    assert!(!text_equal("a", ""));
}

#[test]
fn first_matching_command_is_found() {
    let m = msgs(&[Some("hi"), Some("!stop"), Some("!stop")]);
    assert_eq!(find_command(&m, "!stop"), Ok(Some(1)));
    assert_eq!(find_command(&m, "!sync vid"), Ok(None));
    assert_eq!(find_command(&msgs(&[]), "!stop"), Ok(None));
}

#[test]
fn unreadable_message_stops_the_search() {
    let m = msgs(&[Some("hi"), None, Some("!stop")]);
    assert_eq!(find_command(&m, "!stop"), Err(1));
    let m = msgs(&[Some("!sync aud"), None]);
    assert_eq!(find_command(&m, "!sync aud"), Ok(Some(0)));
}
