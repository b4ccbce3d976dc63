use shock_log::events::handle_key;
use shock_log::events::needs_refresh;
use shock_log::events::Key;
use shock_log::model::update;
use shock_log::model::ControlledBy;
use shock_log::model::LogEntry;
use shock_log::model::LogResponse;
use shock_log::model::Message;
use shock_log::model::RunningState;
use shock_log::model::ViewModel;

fn entry(name: &str, created_on: i64, intensity: u32, duration: u32) -> LogEntry {
    LogEntry {
        id: "e1".to_owned(),
        hub_id: "h1".to_owned(),
        hub_name: "hub".to_owned(),
        shocker_id: "s1".to_owned(),
        shocker_name: name.to_owned(),
        created_on,
        typ: "Shock".to_owned(),
        controlled_by: ControlledBy {
            id: "c1".to_owned(),
            name: "alice".to_owned(),
            image: "img".to_owned(),
            custom_name: None,
        },
        intensity,
        duration,
    }
}

#[test]
fn quit_sets_done_and_keeps_the_rest() {
    let model = ViewModel {
        log: vec![entry("a", 1_000, 10, 500)],
        last_updated: 42,
        running_state: RunningState::Running,
    };
    let next = update(model, Message::Quit, 99_999);
    assert_eq!(next.running_state, RunningState::Done);
    assert_eq!(next.last_updated, 42);
    assert_eq!(next.log.len(), 1);
    assert_eq!(next.log[0].shocker_name, "a");
}

#[test]
fn quit_on_empty_model() {
    let model = ViewModel::init();
    let next = update(model, Message::Quit, 7);
    assert_eq!(next.running_state, RunningState::Done);
    assert_eq!(next.last_updated, 0);
    assert!(next.log.is_empty());
}

#[test]
fn update_log_replaces_records_and_stamps_time() {
    let model = ViewModel {
        log: vec![entry("old", 1_000, 10, 500)],
        last_updated: 42,
        running_state: RunningState::Running,
    };
    let resp = LogResponse {
        logs: vec![entry("new1", 2_000, 20, 600), entry("new2", 3_000, 30, 700)],
    };
    let now: i64 = 1_700_000_000_000;
    let next = update(model, Message::UpdateLog(resp), now);
    assert_eq!(next.running_state, RunningState::Running);
    assert_eq!(next.last_updated, now);
    assert!(next.last_updated >= 42);
    assert_eq!(next.log.len(), 2);
    assert_eq!(next.log[0].shocker_name, "new1");
    assert_eq!(next.log[1].shocker_name, "new2");
}

#[test]
fn update_log_with_empty_snapshot() {
    let model = ViewModel {
        log: vec![entry("old", 1_000, 10, 500)],
        last_updated: 42,
        running_state: RunningState::Running,
    };
    let next = update(model, Message::UpdateLog(LogResponse { logs: Vec::new() }), 50);
    assert!(next.log.is_empty());
    assert_eq!(next.last_updated, 50);
    assert_eq!(next.running_state, RunningState::Running);
}

#[test]
fn quit_key_produces_quit_message() {
    let msg = handle_key(Key::Char('q'));
    assert!(matches!(msg, Some(Message::Quit)));
}

#[test]
fn other_keys_are_ignored() {
    assert!(handle_key(Key::Char('x')).is_none());
    assert!(handle_key(Key::Char('Q')).is_none());
    assert!(handle_key(Key::Other).is_none());
}

#[test]
fn quit_key_ends_the_loop_on_the_next_check() {
    // Pressing the quit key transitions the run state to Done, which the
    // loop's exit check observes on its next iteration.
    let model = ViewModel::init();
    let msg = handle_key(Key::Char('q')).expect("quit key must produce a message");
    let next = update(model, msg, 1_000);
    assert!(next.is_done());
    assert_eq!(next.running_state, RunningState::Done);
}

#[test]
fn refresh_is_due_strictly_after_the_threshold() {
    assert!(!needs_refresh(0, 5_000));
    assert!(needs_refresh(0, 5_001));
    assert!(!needs_refresh(1_000, 1_000));
    assert!(needs_refresh(-377_705_023_201_000, 0));
}
