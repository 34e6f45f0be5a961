use config_signal::args::{validate_directory, Args, DirectoryError, Level, LogPlan};
use config_signal::info::get_soft_info;
use config_signal::state::AppStates;

#[test]
fn the_default_level_goes_by_the_build() {
    assert_eq!(Args::default_log_level(true), Level::Debug);
    assert_eq!(Args::default_log_level(false), Level::Warn);
}

#[test]
fn debug_mode_overrides_the_level() {
    let quiet = Args::new(None, false, Level::Error, None);
    assert_eq!(quiet.effective_log_level(), Level::Error);
    let debug = Args::new(None, true, Level::Error, None);
    assert_eq!(debug.effective_log_level(), Level::Debug);
    let trace = Args::new(None, true, Level::Trace, None);
    assert_eq!(trace.effective_log_level(), Level::Debug);
}

#[test]
fn new_keeps_the_parsed_values() {
    let args = Args::new(Some("/prj".to_string()), true, Level::Info, Some("/log".to_string()));
    assert_eq!(args.project, Some("/prj".to_string()));
    assert!(args.debug);
    assert_eq!(args.log_level, Level::Info);
    assert_eq!(args.log_file, Some("/log".to_string()));
}

#[test]
fn verbosity_grows_from_error_to_trace() {
    assert_eq!(Level::Error.verbosity(), 1);
    assert_eq!(Level::Warn.verbosity(), 2);
    assert_eq!(Level::Info.verbosity(), 3);
    assert_eq!(Level::Debug.verbosity(), 4);
    assert_eq!(Level::Trace.verbosity(), 5);
}

#[test]
fn the_plan_without_arguments_defers_to_the_environment() {
    let args = Args::new(None, false, Level::Warn, None);
    assert_eq!(
        args.log_plan(false),
        LogPlan { level: Level::Warn, from_arguments: false, show_source: true, to_file: false }
    );
    assert_eq!(
        args.log_plan(true),
        LogPlan { level: Level::Warn, from_arguments: true, show_source: true, to_file: false }
    );
}

#[test]
fn the_plan_with_arguments() {
    let trace = Args::new(None, false, Level::Trace, Some("/log".to_string()));
    assert_eq!(
        trace.log_plan(false),
        LogPlan { level: Level::Trace, from_arguments: true, show_source: false, to_file: true }
    );
    let debug = Args::new(None, true, Level::Trace, None);
    assert_eq!(
        debug.log_plan(true),
        LogPlan { level: Level::Debug, from_arguments: true, show_source: true, to_file: false }
    );
}

#[test]
fn soft_info_falls_back_to_en_and_the_empty_project() {
    let mut states = AppStates::new();
    let args = Args::new(None, false, Level::Warn, None);
    let info = get_soft_info(&states, &args, "1.2.3".to_string(), None, 17);
    assert_eq!(info.version, "1.2.3");
    assert!(!info.initialized);
    assert_eq!(info.locale, "en");
    assert_eq!(info.prjarg, "");
    assert_eq!(info.pid, 17);
    states.set_initialized(true);
    let with = Args::new(Some("/prj".to_string()), false, Level::Warn, None);
    let full = get_soft_info(&states, &with, "1.2.3".to_string(), Some("de-DE".to_string()), 18);
    assert!(full.initialized);
    assert_eq!(full.locale, "de-DE");
    assert_eq!(full.prjarg, "/prj");
    assert_eq!(full.pid, 18);
}

#[test]
fn the_first_failing_check_decides_on_a_directory() {
    assert_eq!(validate_directory(true, true, true), Ok(()));
    assert_eq!(validate_directory(false, false, false), Err(DirectoryError::Missing));
    assert_eq!(validate_directory(false, true, true), Err(DirectoryError::Missing));
    assert_eq!(validate_directory(true, false, true), Err(DirectoryError::NotADirectory));
    assert_eq!(validate_directory(true, false, false), Err(DirectoryError::NotADirectory));
    assert_eq!(validate_directory(true, true, false), Err(DirectoryError::NotWritable));
}
