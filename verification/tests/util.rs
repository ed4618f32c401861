use metarbot::proto::Prefix;
use metarbot::util::{self, is_owner, is_public};

fn user(nick: &str, user: &str, host: &str) -> Prefix {
    Prefix::Nickname(nick.to_string(), user.to_string(), host.to_string())
}

#[test]
fn pattern_with_star_matches_prefix() {
    assert!(util::matches("alice*", "alice123"));
    assert!(!util::matches("alice*", "bob"));
}

#[test]
fn lone_star_matches_anything() {
    assert!(util::matches("*", "x"));
    assert!(util::matches("*", "irc.example.com"));
    assert!(util::matches("*", "a/b"));
    assert!(util::matches("*", ".hidden"));
}

#[test]
fn question_mark_matches_one_character() {
    assert!(util::matches("b?b", "bob"));
    assert!(!util::matches("b?b", "boob"));
}

#[test]
fn character_class_matches_its_members() {
    assert!(util::matches("[ab]lice", "alice"));
    assert!(!util::matches("[ab]lice", "clice"));
    assert!(util::matches("[!ab]lice", "clice"));
}

#[test]
fn matching_is_case_sensitive_and_whole() {
    assert!(!util::matches("alice", "Alice"));
    assert!(!util::matches("alice", "alice123"));
    assert!(util::matches("alice", "alice"));
}

#[test]
fn broken_pattern_matches_nothing() {
    assert!(!util::matches("[", "["));
    assert!(!util::matches("[abc", "a"));
    assert!(!util::matches("a***", "a"));
}

#[test]
fn pattern_is_not_taken_for_the_value() {
    assert!(!util::matches("a*", "b*"));
    assert!(util::matches("a*", "a*"));
}

#[test]
fn inert_rules_grant_nothing() {
    let owners = vec![user("", "", ""), user("", "", ""), user("", "", "")];
    assert!(!is_owner(&user("alice", "al", "example.com"), &owners));
    assert!(!is_owner(&user("", "", ""), &owners));
}

#[test]
fn no_rules_grant_nothing() {
    assert!(!is_owner(&user("alice", "al", "example.com"), &Vec::new()));
}

#[test]
fn server_is_never_owner() {
    let owners = vec![user("*", "*", "*"), user("*", "", "")];
    assert!(!is_owner(&Prefix::ServerName("irc.example.com".to_string()), &owners));
}

#[test]
fn server_rule_grants_nothing() {
    let owners = vec![Prefix::ServerName("*".to_string())];
    assert!(!is_owner(&user("alice", "al", "example.com"), &owners));
}

#[test]
fn empty_field_matches_everything() {
    let owners = vec![user("alice", "", "")];
    assert!(is_owner(&user("alice", "whoever", "wherever"), &owners));
    assert!(!is_owner(&user("bob", "whoever", "wherever"), &owners));
}

#[test]
fn every_given_field_must_match() {
    let owners = vec![user("alice*", "al", "*.example.com")];
    assert!(is_owner(&user("alice_", "al", "host.example.com"), &owners));
    assert!(!is_owner(&user("alice_", "bob", "host.example.com"), &owners));
    assert!(!is_owner(&user("alice_", "al", "example.org"), &owners));
    assert!(!is_owner(&user("bob", "al", "host.example.com"), &owners));
}

#[test]
fn any_rule_may_grant() {
    let owners = vec![user("", "", ""), user("bob", "", ""), user("", "", "*.example.com")];
    assert!(is_owner(&user("alice", "al", "host.example.com"), &owners));
    assert!(is_owner(&user("bob", "b", "elsewhere.org"), &owners));
    assert!(!is_owner(&user("carol", "c", "elsewhere.org"), &owners));
}

#[test]
fn broken_rule_grants_nothing() {
    let owners = vec![user("[", "", "")];
    assert!(!is_owner(&user("[", "al", "example.com"), &owners));
    let owners = vec![user("alice", "[", "")];
    assert!(!is_owner(&user("alice", "[", "example.com"), &owners));
}

#[test]
fn channels_are_public() {
    assert!(is_public("#chan"));
    assert!(is_public("&local"));
    assert!(is_public("+modeless"));
    assert!(is_public("!safe"));
}

#[test]
fn nicknames_are_not_public() {
    assert!(!is_public("alice"));
    assert!(!is_public(""));
    assert!(!is_public("a#b"));
}
