use kodbot::config::{Config, Ebas, Member, MemberPermission, Welcome};
use kodbot::state::State;
use kodbot::secrets::{Discord, Secrets};
use kodbot::welcome::{
    desired, fetched, handle_welcome_message, validate_welcome_message, DesiredAnnouncement,
    Fetched, ReconcileAction, ReconcileEvent, ReconcileStage, Reconciled, WelcomeError, NOT_FOUND,
};
use kodbot::Context;
use std::collections::BTreeMap;

const CHANNEL: u64 = 40;

/// A stand-in for the platform: the messages of one channel, and a count
/// of what was asked of it.
struct Platform {
    messages: BTreeMap<u64, String>,
    next_id: u64,
    posts: usize,
    edits: usize,
    fetches: usize,
    saves: usize,
    saving_works: bool,
}

fn platform() -> Platform {
    Platform {
        messages: BTreeMap::new(),
        next_id: 1000,
        posts: 0,
        edits: 0,
        fetches: 0,
        saves: 0,
        saving_works: true,
    }
}

fn wanted(content: &str) -> Option<DesiredAnnouncement> {
    Some(DesiredAnnouncement { channel: CHANNEL, content: String::from(content) })
}

/// Runs one pass of the reconciler against the stand-in.
fn run(
    desired: &Option<DesiredAnnouncement>,
    state: &mut State,
    platform: &mut Platform,
) -> Reconciled {
    let (mut stage, mut action) =
        handle_welcome_message(desired, state, ReconcileStage::Idle, &ReconcileEvent::Start);
    loop {
        let event = match action {
            ReconcileAction::Fetch { channel, message } => {
                assert_eq!(channel, CHANNEL);
                platform.fetches += 1;
                match platform.messages.get(&message) {
                    Some(content) => ReconcileEvent::Fetched(Fetched::Found(content.clone())),
                    None => ReconcileEvent::Fetched(Fetched::Refused),
                }
            }
            ReconcileAction::Post { channel } => {
                assert_eq!(channel, CHANNEL);
                platform.posts += 1;
                platform.next_id += 1;
                let content = desired.as_ref().unwrap().content.clone();
                platform.messages.insert(platform.next_id, content);
                ReconcileEvent::Posted(platform.next_id)
            }
            ReconcileAction::Edit { channel, message } => {
                assert_eq!(channel, CHANNEL);
                platform.edits += 1;
                let content = desired.as_ref().unwrap().content.clone();
                platform.messages.insert(message, content);
                ReconcileEvent::Edited
            }
            ReconcileAction::Save => {
                platform.saves += 1;
                ReconcileEvent::Saved(platform.saving_works)
            }
            ReconcileAction::Stop(outcome) => {
                assert_eq!(stage, ReconcileStage::Done);
                return outcome;
            }
            ReconcileAction::Ignore => panic!("the reconciler was fed what it asked for"),
        };
        let next = handle_welcome_message(desired, state, stage, &event);
        stage = next.0;
        action = next.1;
    }
}

#[test]
fn nothing_wanted_asks_nothing() {
    let mut state = State::new();
    let mut p = platform();
    assert_eq!(run(&None, &mut state, &mut p), Reconciled::NothingWanted);
    assert_eq!(p.posts + p.edits + p.fetches + p.saves, 0);
    assert_eq!(state, State::new());

    state.set_welcome(kodbot::state::Welcome::new(5));
    assert_eq!(run(&None, &mut state, &mut p), Reconciled::NothingWanted);
    assert_eq!(p.posts + p.edits + p.fetches + p.saves, 0);
    assert_eq!(state.welcome().unwrap().message(), 5);
}

#[test]
fn first_run_posts_once_and_second_run_does_nothing() {
    let desired = wanted("Welcome!");
    let mut state = State::new();
    let mut p = platform();
    assert_eq!(run(&desired, &mut state, &mut p), Reconciled::Posted);
    assert_eq!((p.posts, p.edits, p.fetches, p.saves), (1, 0, 0, 1));
    let message = state.welcome().unwrap().message();
    assert_eq!(message, 1001);
    assert_eq!(p.messages.get(&message).unwrap(), "Welcome!");

    assert_eq!(run(&desired, &mut state, &mut p), Reconciled::Kept);
    assert_eq!((p.posts, p.edits, p.fetches, p.saves), (1, 0, 1, 1));
    assert_eq!(state.welcome().unwrap().message(), message);
    assert_eq!(p.messages.len(), 1);
}

#[test]
fn a_deleted_message_is_posted_anew() {
    let desired = wanted("Welcome!");
    let mut state = State::new();
    state.set_welcome(kodbot::state::Welcome::new(5));
    let mut p = platform();
    assert_eq!(run(&desired, &mut state, &mut p), Reconciled::Posted);
    assert_eq!((p.posts, p.edits, p.fetches, p.saves), (1, 0, 1, 1));
    let message = state.welcome().unwrap().message();
    assert_ne!(message, 5);
    assert_eq!(p.messages.get(&message).unwrap(), "Welcome!");
    assert_eq!(run(&desired, &mut state, &mut p), Reconciled::Kept);
    assert_eq!((p.posts, p.edits), (1, 0));
}

#[test]
fn a_stale_message_is_edited_in_place() {
    let desired = wanted("Welcome!");
    let mut state = State::new();
    state.set_welcome(kodbot::state::Welcome::new(5));
    let mut p = platform();
    p.messages.insert(5, String::from("Welcome?"));
    assert_eq!(run(&desired, &mut state, &mut p), Reconciled::Edited);
    assert_eq!((p.posts, p.edits, p.fetches, p.saves), (0, 1, 1, 0));
    assert_eq!(state.welcome().unwrap().message(), 5);
    assert_eq!(p.messages.get(&5).unwrap(), "Welcome!");
    assert_eq!(run(&desired, &mut state, &mut p), Reconciled::Kept);
    assert_eq!((p.posts, p.edits), (0, 1));
}

#[test]
fn a_state_that_cannot_be_written_undoes_nothing() {
    let desired = wanted("Welcome!");
    let mut state = State::new();
    let mut p = platform();
    p.saving_works = false;
    assert_eq!(run(&desired, &mut state, &mut p), Reconciled::PostedUnsaved);
    assert_eq!((p.posts, p.saves), (1, 1));
    let message = state.welcome().unwrap().message();
    assert_eq!(p.messages.get(&message).unwrap(), "Welcome!");
}

#[test]
fn a_platform_that_does_not_answer_ends_the_pass() {
    let desired = wanted("Welcome!");
    let mut state = State::new();
    state.set_welcome(kodbot::state::Welcome::new(5));
    let (stage, action) =
        handle_welcome_message(&desired, &mut state, ReconcileStage::Idle, &ReconcileEvent::Start);
    assert_eq!(action, ReconcileAction::Fetch { channel: CHANNEL, message: 5 });
    let (stage, action) = handle_welcome_message(
        &desired,
        &mut state,
        stage,
        &ReconcileEvent::Fetched(Fetched::Failed),
    );
    assert_eq!(stage, ReconcileStage::Done);
    assert_eq!(action, ReconcileAction::Stop(Reconciled::GaveUp));
    assert_eq!(state.welcome().unwrap().message(), 5);

    let mut state = State::new();
    let (stage, action) =
        handle_welcome_message(&desired, &mut state, ReconcileStage::Idle, &ReconcileEvent::Start);
    assert_eq!(action, ReconcileAction::Post { channel: CHANNEL });
    let (stage, action) =
        handle_welcome_message(&desired, &mut state, stage, &ReconcileEvent::Failed);
    assert_eq!(stage, ReconcileStage::Done);
    assert_eq!(action, ReconcileAction::Stop(Reconciled::GaveUp));
    assert_eq!(state, State::new());
}

#[test]
fn events_out_of_turn_change_nothing_in_a_pass() {
    let desired = wanted("Welcome!");
    let mut state = State::new();
    let (stage, action) = handle_welcome_message(
        &desired,
        &mut state,
        ReconcileStage::Idle,
        &ReconcileEvent::Posted(9),
    );
    assert_eq!((stage, action), (ReconcileStage::Idle, ReconcileAction::Ignore));
    assert_eq!(state, State::new());
    let (stage, action) = handle_welcome_message(
        &desired,
        &mut state,
        ReconcileStage::Done,
        &ReconcileEvent::Start,
    );
    assert_eq!((stage, action), (ReconcileStage::Done, ReconcileAction::Ignore));
    let (stage, action) =
        handle_welcome_message(&None, &mut state, ReconcileStage::Posting, &ReconcileEvent::Posted(9));
    assert_eq!((stage, action), (ReconcileStage::Posting, ReconcileAction::Ignore));
    assert_eq!(state, State::new());
}

#[test]
fn the_fetched_message_is_held_against_the_wanted_text() {
    let content = String::from("Welcome!");
    assert_eq!(validate_welcome_message(&Fetched::Found(String::from("Welcome!")), &content), Ok(()));
    assert_eq!(
        validate_welcome_message(&Fetched::Found(String::from("welcome!")), &content),
        Err(WelcomeError::WrongContent)
    );
    assert_eq!(
        validate_welcome_message(&Fetched::Found(String::new()), &content),
        Err(WelcomeError::WrongContent)
    );
    assert_eq!(
        validate_welcome_message(&Fetched::Refused, &content),
        Err(WelcomeError::MessageNotFound)
    );
    assert_eq!(validate_welcome_message(&Fetched::Failed, &content), Err(WelcomeError::Other));
}

#[test]
fn the_wanted_announcement_comes_from_the_configuration() {
    let mut config = Config {
        guild: 900,
        welcome: Welcome { channel: CHANNEL, file: Some(String::from("w.md")), text: None },
        ebas: Ebas { url: String::new() },
        member: Member { role: 77, permission: MemberPermission { purge: vec![] } },
    };
    let d = desired(&config, Some(String::from("from file"))).unwrap();
    assert_eq!(d.channel, CHANNEL);
    assert_eq!(d.content, "from file");
    assert!(desired(&config, None).is_none());
    config.welcome.text = Some(String::from("inline"));
    assert_eq!(desired(&config, Some(String::from("from file"))).unwrap().content, "inline");
    assert_eq!(desired(&config, None).unwrap().content, "inline");
    config.welcome.text = None;
    config.welcome.file = None;
    assert!(desired(&config, Some(String::from("from file"))).is_none());
}

fn is_found(fetched: &Fetched, text: &str) -> bool {
    match fetched {
        Fetched::Found(content) => content == text,
        _ => false,
    }
}

#[test]
fn only_not_found_says_that_the_message_is_gone() {
    assert_eq!(NOT_FOUND, 404);
    assert!(matches!(fetched(Some(404), None), Fetched::Refused));
    assert!(matches!(fetched(Some(404), Some(String::from("x"))), Fetched::Refused));
    for status in [400u16, 401, 403, 405, 410, 429, 500, 502, 503, 504, 300, 304, 199, 0, 65535] {
        assert!(matches!(fetched(Some(status), None), Fetched::Failed));
        assert!(matches!(fetched(Some(status), Some(String::from("x"))), Fetched::Failed));
    }
    assert!(matches!(fetched(None, None), Fetched::Failed));
    assert!(matches!(fetched(None, Some(String::from("x"))), Fetched::Failed));
}

#[test]
fn a_success_with_text_shows_the_message() {
    assert!(is_found(&fetched(Some(200), Some(String::from("Welcome!"))), "Welcome!"));
    assert!(is_found(&fetched(Some(299), Some(String::new())), ""));
    assert!(matches!(fetched(Some(200), None), Fetched::Failed));
    assert!(matches!(fetched(Some(204), None), Fetched::Failed));
}

#[test]
fn an_error_that_is_not_not_found_posts_nothing_and_keeps_the_record() {
    let desired = wanted("Welcome!");
    for status in [Some(500u16), Some(403), Some(429), None] {
        let mut state = State::new();
        state.set_welcome(kodbot::state::Welcome::new(5));
        let (stage, action) = handle_welcome_message(
            &desired,
            &mut state,
            ReconcileStage::Idle,
            &ReconcileEvent::Start,
        );
        assert_eq!(action, ReconcileAction::Fetch { channel: CHANNEL, message: 5 });
        let answer = fetched(status, None);
        assert_eq!(
            validate_welcome_message(&answer, &String::from("Welcome!")),
            Err(WelcomeError::Other)
        );
        let (stage, action) =
            handle_welcome_message(&desired, &mut state, stage, &ReconcileEvent::Fetched(answer));
        assert_eq!(stage, ReconcileStage::Done);
        assert_eq!(action, ReconcileAction::Stop(Reconciled::GaveUp));
        assert_eq!(state.welcome().unwrap().message(), 5);
    }
}

#[test]
fn not_found_posts_anew() {
    let desired = wanted("Welcome!");
    let mut state = State::new();
    state.set_welcome(kodbot::state::Welcome::new(5));
    let (stage, _) =
        handle_welcome_message(&desired, &mut state, ReconcileStage::Idle, &ReconcileEvent::Start);
    let answer = fetched(Some(404), None);
    assert_eq!(
        validate_welcome_message(&answer, &String::from("Welcome!")),
        Err(WelcomeError::MessageNotFound)
    );
    let (stage, action) =
        handle_welcome_message(&desired, &mut state, stage, &ReconcileEvent::Fetched(answer));
    assert_eq!(action, ReconcileAction::Post { channel: CHANNEL });
    let (_, action) =
        handle_welcome_message(&desired, &mut state, stage, &ReconcileEvent::Posted(6));
    assert_eq!(action, ReconcileAction::Save);
    assert_eq!(state.welcome().unwrap().message(), 6);
}

fn context(state: State, path: &str) -> Context {
    Context::new(
        Config {
            guild: 900,
            welcome: Welcome { channel: CHANNEL, file: None, text: Some(String::from("Welcome!")) },
            ebas: Ebas { url: String::new() },
            member: Member { role: 77, permission: MemberPermission { purge: vec![] } },
        },
        Secrets {
            discord: Discord { token: String::from("not-a-token"), application: 8 },
            ebas: kodbot::secrets::Ebas { api_key: String::new(), id: String::new() },
        },
        state,
        String::from(path),
    )
}

#[test]
fn a_post_is_written_once_to_the_file_of_the_context() {
    let mut context = context(State::new(), "/var/lib/kodbot/elsewhere.toml");
    let desired = desired(&context.config, None);
    let order = context.reconcile(&desired, ReconcileStage::Idle, &ReconcileEvent::Start);
    assert_eq!(order.action, ReconcileAction::Post { channel: CHANNEL });
    assert_eq!(order.text, Some(String::from("Welcome!")));
    assert_eq!(order.path, None);
    let order = context.reconcile(&desired, order.stage, &ReconcileEvent::Posted(41));
    assert_eq!(order.action, ReconcileAction::Save);
    assert_eq!(order.path, Some(String::from("/var/lib/kodbot/elsewhere.toml")));
    assert_eq!(order.text, None);
    assert_eq!(context.state.welcome().unwrap().message(), 41);
    let order = context.reconcile(&desired, order.stage, &ReconcileEvent::Saved(true));
    assert_eq!(order.action, ReconcileAction::Stop(Reconciled::Posted));
    assert_eq!(order.path, None);
    assert_eq!(order.text, None);
    assert_eq!(context.state_path, "/var/lib/kodbot/elsewhere.toml");
    assert_eq!(context.sessions.len(), 0);
}

#[test]
fn an_edit_and_a_match_write_nothing() {
    let mut stored = State::new();
    stored.set_welcome(kodbot::state::Welcome::new(5));
    let mut context = context(stored, "state.toml");
    let desired = desired(&context.config, None);
    let order = context.reconcile(&desired, ReconcileStage::Idle, &ReconcileEvent::Start);
    assert_eq!(order.action, ReconcileAction::Fetch { channel: CHANNEL, message: 5 });
    assert_eq!((order.text, order.path), (None, None));
    let stale = ReconcileEvent::Fetched(fetched(Some(200), Some(String::from("Welcome?"))));
    let order = context.reconcile(&desired, order.stage, &stale);
    assert_eq!(order.action, ReconcileAction::Edit { channel: CHANNEL, message: 5 });
    assert_eq!(order.text, Some(String::from("Welcome!")));
    assert_eq!(order.path, None);
    let order = context.reconcile(&desired, order.stage, &ReconcileEvent::Edited);
    assert_eq!(order.action, ReconcileAction::Stop(Reconciled::Edited));
    assert_eq!((order.text, order.path), (None, None));
    assert_eq!(context.state, stored);

    let order = context.reconcile(&desired, ReconcileStage::Idle, &ReconcileEvent::Start);
    let same = ReconcileEvent::Fetched(fetched(Some(200), Some(String::from("Welcome!"))));
    let order = context.reconcile(&desired, order.stage, &same);
    assert_eq!(order.action, ReconcileAction::Stop(Reconciled::Kept));
    assert_eq!((order.text, order.path), (None, None));
    assert_eq!(context.state, stored);
}
