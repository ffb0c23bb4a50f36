use kodbot::config::{Config, Ebas, Member, MemberPermission, Permission, Welcome};
use kodbot::state::{starting_state, MemberRole, State, StateError};

fn config(text: Option<&str>, file: Option<&str>) -> Config {
    Config {
        guild: 900,
        welcome: Welcome {
            channel: 40,
            file: file.map(String::from),
            text: text.map(String::from),
        },
        ebas: Ebas { url: String::from("https://ebas.example.org/api") },
        member: Member {
            role: 77,
            permission: MemberPermission { purge: vec![Permission::User(1), Permission::Role(50)] },
        },
    }
}

#[test]
fn getters_give_what_was_configured() {
    let c = config(Some("hi"), None);
    assert_eq!(c.guild(), 900);
    assert_eq!(c.welcome().channel(), 40);
    assert_eq!(c.ebas().url(), "https://ebas.example.org/api");
    assert_eq!(c.member().role(), 77);
    assert_eq!(
        c.member().permission().purge(),
        &vec![Permission::User(1), Permission::Role(50)]
    );
}

#[test]
fn inline_text_comes_before_the_file() {
    let c = config(Some("inline"), Some("welcome.md"));
    assert_eq!(c.welcome().file_to_read(), None);
    assert_eq!(c.welcome().content(None), Some(String::from("inline")));
    assert_eq!(c.welcome().content(Some(String::from("from file"))), Some(String::from("inline")));
}

#[test]
fn without_inline_text_the_file_is_read() {
    let c = config(None, Some("welcome.md"));
    assert_eq!(c.welcome().file_to_read(), Some(&String::from("welcome.md")));
    assert_eq!(c.welcome().content(Some(String::from("from file"))), Some(String::from("from file")));
    assert_eq!(c.welcome().content(None), None);
}

#[test]
fn with_neither_no_announcement_is_wanted() {
    let c = config(None, None);
    assert_eq!(c.welcome().file_to_read(), None);
    assert_eq!(c.welcome().content(None), None);
    assert_eq!(c.welcome().content(Some(String::from("stray"))), None);
}

#[test]
fn default_paths() {
    assert_eq!(kodbot::config::DEFAULT_PATH, "config.toml");
    assert_eq!(kodbot::secrets::DEFAULT_PATH, "secrets.toml");
    assert_eq!(kodbot::state::DEFAULT_PATH, "state.toml");
}

#[test]
fn a_new_state_holds_nothing() {
    let state = State::new();
    assert_eq!(state.welcome(), None);
    assert_eq!(state.member(), None);
}

#[test]
fn records_are_set_and_changed() {
    let mut state = State::new();
    assert!(state.welcome_mut().is_none());
    state.set_welcome(kodbot::state::Welcome::new(11));
    assert_eq!(state.welcome().unwrap().message(), 11);
    assert_eq!(state.member(), None);
    state.welcome_mut().unwrap().set_message(12);
    assert_eq!(state.welcome().unwrap().message(), 12);
    state.set_member(MemberRole::new(77));
    assert_eq!(state.member().unwrap().role(), 77);
    assert_eq!(state.welcome().unwrap().message(), 12);
    state.set_welcome(kodbot::state::Welcome::new(13));
    assert_eq!(state.welcome().unwrap().message(), 13);
    assert_eq!(state.member().unwrap().role(), 77);
}

#[test]
fn a_missing_file_is_told_from_other_failures() {
    let gone = std::io::Error::from(std::io::ErrorKind::NotFound);
    assert_eq!(StateError::from(gone), StateError::NotFound);
    let denied = std::io::Error::from(std::io::ErrorKind::PermissionDenied);
    assert_eq!(StateError::from(denied), StateError::Other);
    let other = std::io::Error::new(std::io::ErrorKind::Other, "not found");
    assert_eq!(StateError::from(other), StateError::Other);
}

#[test]
fn a_state_that_cannot_be_parsed_or_written_is_another_failure() {
    let broken = toml::from_str::<toml::Table>("welcome = ").unwrap_err();
    assert_eq!(StateError::from(broken), StateError::Other);
    let unwritable = toml::to_string(&7u8).unwrap_err();
    assert_eq!(StateError::from(unwritable), StateError::Other);
}

#[test]
fn a_missing_state_starts_empty_and_a_broken_one_does_not_start() {
    let mut stored = State::new();
    stored.set_welcome(kodbot::state::Welcome::new(5));
    assert_eq!(starting_state(Ok(stored)), Ok(stored));
    assert_eq!(starting_state(Err(StateError::NotFound)), Ok(State::new()));
    assert_eq!(starting_state(Err(StateError::Other)), Err(StateError::Other));
}

#[test]
fn the_managed_role_is_noted_once() {
    let mut state = State::new();
    state.set_welcome(kodbot::state::Welcome::new(5));
    assert!(state.record_role(77));
    assert_eq!(state.member().unwrap().role(), 77);
    assert_eq!(state.welcome().unwrap().message(), 5);
    assert!(!state.record_role(77));
    assert_eq!(state.member().unwrap().role(), 77);
    assert!(state.record_role(78));
    assert_eq!(state.member().unwrap().role(), 78);
    assert_eq!(state.welcome().unwrap().message(), 5);
}
