use neshan_rs::{Client, ConfigurationError};

fn refused(key: &str) -> bool {
    match Client::try_new(key) {
        Ok(_) => false,
        Err(ConfigurationError::InvalidApiKey) => true,
    }
}

fn kept(key: &str) -> bool {
    match Client::try_new(key) {
        Ok(client) => client.api_key() == key,
        Err(_) => false,
    }
}

#[test]
fn a_key_with_a_line_feed_is_refused() {
    assert!(refused("service\nkey"));
    assert!(refused("\n"));
    assert!(refused("service-key\n"));
}

#[test]
fn a_key_with_a_control_character_is_refused() {
    assert!(refused("a\rb"));
    assert!(refused("a\u{0}b"));
    assert!(refused("a\u{1f}b"));
    assert!(refused("a\u{7f}b"));
}

#[test]
fn a_plain_key_is_kept() {
    assert!(kept("service.abcDEF0123456789"));
    assert!(kept(""));
    assert!(kept(" "));
    assert!(kept("~"));
}

#[test]
fn a_tab_is_allowed_in_a_key() {
    assert!(kept("a\tb"));
}

#[test]
fn characters_beyond_ascii_are_allowed_in_a_key() {
    assert!(kept("کلید"));
    assert!(kept("a\u{80}b"));
    assert!(kept("a\u{9f}b"));
}

#[test]
fn the_same_key_is_judged_the_same_way_each_time() {
    for _ in 0..3 {
        assert!(refused("bad\nkey"));
        assert!(kept("good-key"));
    }
}

#[test]
fn new_keeps_the_key() {
    let client = Client::new("service-key");
    assert_eq!(client.api_key(), "service-key");
}
