use config_signal::message::{ConfigAction, ConfigMessage};
use config_signal::state::{AppHandleState, AppStates, SignalError};
use config_signal::store::{
    emit_cfg_changed, emit_focus, is_valid_pid, touch_db_config, touch_focus_config, ExePath,
};

fn states_with_path() -> AppStates {
    let mut states = AppStates::new();
    assert_eq!(states.set_config_watch_path("/cfg/db.sig".to_string()), Ok(()));
    states
}

fn exe(raw: &str, canonical: Option<&str>) -> Option<ExePath> {
    Some(ExePath { raw: raw.to_string(), canonical: canonical.map(|path| path.to_string()) })
}

#[test]
fn new_states_are_blank() {
    let states = AppStates::new();
    assert!(!states.is_initialized());
    assert_eq!(states.get_config_watch_path(), None);
}

#[test]
fn set_initialized_sets_the_flag() {
    let mut states = states_with_path();
    states.set_initialized(true);
    assert!(states.is_initialized());
    assert_eq!(states.get_config_watch_path(), Some("/cfg/db.sig".to_string()));
    states.set_initialized(false);
    assert!(!states.is_initialized());
}

#[test]
fn the_path_is_set_once() {
    let mut states = states_with_path();
    assert_eq!(
        states.set_config_watch_path("/other".to_string()),
        Err(SignalError::AlreadyInitialized)
    );
    assert_eq!(states.get_config_watch_path(), Some("/cfg/db.sig".to_string()));
}

#[test]
fn nothing_is_written_before_the_path_is_set() {
    let states = AppStates::new();
    assert_eq!(states.touch_config_file().unwrap_err(), SignalError::PathUninitialized);
    assert_eq!(
        states.write_config_action(ConfigAction::focus(1)).unwrap_err(),
        SignalError::PathUninitialized
    );
    assert_eq!(states.write_focus_action(1).unwrap_err(), SignalError::PathUninitialized);
    let message = ConfigMessage::with_timestamp(ConfigAction::focus(1), 5);
    assert_eq!(states.write_message(message).unwrap_err(), SignalError::PathUninitialized);
    assert_eq!(states.read_config_message("", Some(10)), Err(SignalError::PathUninitialized));
    assert_eq!(touch_db_config(&states).unwrap_err(), SignalError::PathUninitialized);
    assert_eq!(emit_cfg_changed(&states).unwrap_err(), SignalError::PathUninitialized);
    assert_eq!(touch_focus_config(&states, 1).unwrap_err(), SignalError::PathUninitialized);
}

#[test]
fn a_touch_clears_the_file() {
    let states = states_with_path();
    let write = states.touch_config_file().unwrap();
    assert_eq!(write.path, "/cfg/db.sig");
    assert_eq!(write.content, "");
    let again = touch_db_config(&states).unwrap();
    assert_eq!(again.path, "/cfg/db.sig");
    assert_eq!(again.content, "");
    let command = emit_cfg_changed(&states).unwrap();
    assert_eq!(command.content, "");
}

#[test]
fn write_message_puts_the_envelope_into_the_file() {
    let states = states_with_path();
    let message = ConfigMessage::with_timestamp(ConfigAction::focus(99), 1_700_000_000);
    let write = states.write_message(message).unwrap();
    assert_eq!(write.path, "/cfg/db.sig");
    assert_eq!(write.content, "{\"ctime\":1700000000,\"action\":\"focus\",\"target\":99}");
}

#[test]
fn a_written_action_reads_back_with_a_current_time() {
    let states = states_with_path();
    let before = ConfigMessage::current_timestamp();
    let write = states.write_config_action(ConfigAction::focus(31)).unwrap();
    let after = ConfigMessage::current_timestamp();
    let message = ConfigMessage::from_json(&write.content).unwrap();
    assert_eq!(message.action, ConfigAction::Focus { target: 31 });
    assert!(before <= message.ctime && message.ctime <= after);
    let read = states.read_config_message(&write.content, Some(10));
    assert_eq!(read, Ok(Some(message)));
}

#[test]
fn a_focus_write_names_the_target() {
    let states = states_with_path();
    let write = touch_focus_config(&states, 555).unwrap();
    assert_eq!(write.path, "/cfg/db.sig");
    let message = ConfigMessage::from_json(&write.content).unwrap();
    assert_eq!(message.action, ConfigAction::Focus { target: 555 });
    let direct = states.write_focus_action(556).unwrap();
    let second = ConfigMessage::from_json(&direct.content).unwrap();
    assert_eq!(second.action, ConfigAction::Focus { target: 556 });
}

#[test]
fn read_config_message_drops_stale_and_empty_content() {
    let states = states_with_path();
    assert_eq!(states.read_config_message("", Some(10)), Ok(None));
    let old = ConfigMessage::with_timestamp(ConfigAction::focus(1), 1000);
    let text = old.to_json().unwrap();
    assert_eq!(states.read_config_message(&text, Some(10)), Ok(None));
    assert_eq!(states.read_config_message(&text, None), Ok(Some(old)));
}

#[test]
fn a_target_is_valid_where_the_resolved_paths_agree() {
    assert!(is_valid_pid(&exe("/opt/app/bin", None), &exe("/opt/app/bin", None)));
    assert!(is_valid_pid(
        &exe("/usr/bin/app", Some("/opt/app/bin")),
        &exe("/proc/9/exe", Some("/opt/app/bin"))
    ));
    assert!(is_valid_pid(&exe("/a", Some("/opt/app/bin")), &exe("/opt/app/bin", None)));
}

#[test]
fn a_target_is_invalid_where_the_paths_differ_or_are_unknown() {
    assert!(!is_valid_pid(&exe("/opt/app/bin", None), &exe("/usr/bin/other", None)));
    assert!(!is_valid_pid(&exe("/same", Some("/a")), &exe("/same", Some("/b"))));
    assert!(!is_valid_pid(&exe("/same", Some("/a")), &exe("/same", None)));
    assert!(!is_valid_pid(&None, &exe("/opt/app/bin", None)));
    assert!(!is_valid_pid(&exe("/opt/app/bin", None), &None));
    assert!(!is_valid_pid(&None, &None));
}

#[test]
fn a_focus_request_to_another_program_writes_nothing() {
    let states = states_with_path();
    let plan = emit_focus(&states, 77, &exe("/opt/app/bin", None), &exe("/usr/bin/other", None));
    assert!(plan.is_none());
    let unknown = emit_focus(&states, 77, &exe("/opt/app/bin", None), &None);
    assert!(unknown.is_none());
}

#[test]
fn a_focus_request_to_the_same_program_is_written() {
    let states = states_with_path();
    let plan = emit_focus(&states, 77, &exe("/opt/app/bin", None), &exe("/opt/app/bin", None));
    let write = plan.unwrap();
    assert_eq!(write.path, "/cfg/db.sig");
    let message = ConfigMessage::from_json(&write.content).unwrap();
    assert_eq!(message.action, ConfigAction::Focus { target: 77 });
}

#[test]
fn a_focus_request_without_a_path_writes_nothing() {
    let states = AppStates::new();
    let plan = emit_focus(&states, 77, &exe("/opt/app/bin", None), &exe("/opt/app/bin", None));
    assert!(plan.is_none());
}

#[test]
fn a_handle_is_set_once() {
    let mut state: AppHandleState<String> = AppHandleState::new();
    assert!(!state.is_initialized());
    assert_eq!(state.get(), None);
    assert_eq!(state.init("first".to_string()), Ok(()));
    assert!(state.is_initialized());
    assert_eq!(state.init("second".to_string()), Err(SignalError::AlreadyInitialized));
    assert_eq!(state.get(), Some(&"first".to_string()));
}
