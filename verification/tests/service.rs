use logcore::level::parse_level;
use logcore::{Level, LogError, Logger};

fn initialized(level: Level, size_kb: u64, count: usize) -> Logger {
    let mut lg = Logger::new();
    let r = lg.init(level, None, Some(size_kb), Some(count), true, true);
    assert!(r.is_ok());
    lg
}

#[test]
fn refresh_level_before_init_reports_not_initialized() {
    let mut lg = Logger::new();
    let r = lg.refresh_log_level(Level::Info, None, true);
    assert_eq!(r, Err(LogError::NotInitialized));
    assert!(!lg.is_initialized());
}

#[test]
fn refresh_file_before_init_reports_not_initialized() {
    let mut lg = Logger::new();
    let r = lg.refresh_log_file(Some(1), Some(2), true, true);
    assert_eq!(r, Err(LogError::NotInitialized));
    assert!(!lg.is_initialized());
}

#[test]
fn init_installs_sink_with_configured_policy() {
    let lg = initialized(Level::Info, 1, 2);
    assert!(lg.is_initialized());
    assert_eq!(lg.sink_default_level(), Level::Info);
    assert_eq!(lg.sink_dup_threshold(), Level::Info);
    let p = lg.sink_policy();
    assert_eq!(p.max_size, 1024);
    assert_eq!(p.max_count, 2);
    assert_eq!(lg.sink_live_bytes(), 0);
    assert_eq!(lg.sink_archive_count(), 0);
}

#[test]
fn init_applies_defaults_when_config_absent() {
    let mut lg = Logger::new();
    let r = lg.init(Level::Info, None, None, None, true, true);
    assert!(r.is_ok());
    let p = lg.sink_policy();
    assert_eq!(p.max_size, 128 * 1024);
    assert_eq!(p.max_count, 8);
}

#[test]
fn init_with_unresolvable_directory_installs_nothing() {
    let mut lg = Logger::new();
    let r = lg.init(Level::Info, None, Some(1), Some(2), false, true);
    assert_eq!(r, Err(LogError::DirectoryResolutionFailure));
    assert!(!lg.is_initialized());
    let r2 = lg.init(Level::Info, None, Some(1), Some(2), true, false);
    assert_eq!(r2, Err(LogError::BackendConstructionFailure));
    assert!(!lg.is_initialized());
    let r3 = lg.init(Level::Info, None, Some(1), Some(2), true, true);
    assert!(r3.is_ok());
    assert!(lg.is_initialized());
}

#[test]
fn scenario_one_rotation_after_threshold_worth_of_records() {
    let mut lg = initialized(Level::Info, 1, 2);
    let a = lg.emit("app", Level::Info, 683, 1);
    assert!(a.to_file && !a.rotated);
    let b = lg.emit("app", Level::Info, 683, 2);
    assert!(b.to_file && b.rotated);
    let c = lg.emit("app", Level::Info, 682, 3);
    assert!(c.to_file && !c.rotated);
    assert_eq!(lg.sink_archive_count(), 1);
    assert!(lg.sink_live_bytes() < 1024);
    assert_eq!(lg.sink_live_bytes(), 682);
}

#[test]
fn records_below_threshold_never_rotate() {
    let mut lg = initialized(Level::Info, 1, 2);
    for i in 0..11u64 {
        let r = lg.emit("app", Level::Info, 100, i + 1);
        if i == 10 {
            assert!(r.rotated);
        } else {
            assert!(!r.rotated);
        }
    }
    assert_eq!(lg.sink_archive_count(), 1);
    assert_eq!(lg.sink_live_bytes(), 0);
}

#[test]
fn retention_keeps_only_most_recent_archives() {
    let mut lg = initialized(Level::Info, 1, 2);
    for stamp in [10u64, 20, 30, 40] {
        let r = lg.emit("app", Level::Info, 1024, stamp);
        assert!(r.rotated);
    }
    assert_eq!(lg.sink_archive_count(), 2);
    assert_eq!(lg.sink_archive_at(0), 30);
    assert_eq!(lg.sink_archive_at(1), 40);
}

#[test]
fn retention_of_zero_keeps_no_archives() {
    let mut lg = initialized(Level::Info, 1, 0);
    let r = lg.emit("app", Level::Info, 2000, 5);
    assert!(r.rotated);
    assert_eq!(lg.sink_archive_count(), 0);
    assert_eq!(lg.sink_live_bytes(), 0);
}

#[test]
fn scenario_debug_record_appears_only_after_level_refresh() {
    let mut lg = initialized(Level::Warn, 128, 8);
    let before = lg.emit("app::core", Level::Debug, 10, 1);
    assert!(!before.to_file);
    assert!(!before.to_console);
    let r = lg.refresh_log_level(Level::Debug, None, true);
    assert!(r.is_ok());
    let after = lg.emit("app::core", Level::Debug, 10, 2);
    assert!(after.to_file);
    assert!(after.to_console);
}

#[test]
fn noisy_modules_are_suppressed_at_every_level() {
    let mut lg = initialized(Level::Trace, 128, 8);
    assert!(!lg.emit("tungstenite::protocol::frame", Level::Error, 5, 1).to_file);
    assert!(!lg.emit("tokio_tungstenite", Level::Warn, 5, 2).to_file);
    assert!(!lg.emit("wry::webview", Level::Info, 5, 3).to_file);
    assert!(!lg.emit("tauri", Level::Error, 5, 4).to_file);
    assert!(lg.emit("tungstenite2", Level::Error, 5, 5).to_file);
    assert!(lg.emit("app::net", Level::Trace, 5, 6).to_file);
}

#[test]
fn level_refresh_leaves_rotation_state_untouched() {
    let mut lg = initialized(Level::Info, 1, 2);
    lg.emit("app", Level::Info, 500, 1);
    let r = lg.refresh_log_level(Level::Trace, None, true);
    assert!(r.is_ok());
    assert_eq!(lg.sink_default_level(), Level::Trace);
    assert_eq!(lg.sink_dup_threshold(), Level::Trace);
    assert_eq!(lg.sink_live_bytes(), 500);
    assert_eq!(lg.sink_policy().max_size, 1024);
    assert_eq!(lg.sink_policy().max_count, 2);
}

#[test]
fn repeated_level_refresh_is_idempotent() {
    let mut once = initialized(Level::Info, 1, 2);
    let mut thrice = initialized(Level::Info, 1, 2);
    assert!(once.refresh_log_level(Level::Warn, None, true).is_ok());
    for _ in 0..3 {
        assert!(thrice.refresh_log_level(Level::Warn, None, true).is_ok());
    }
    assert_eq!(once.sink_default_level(), thrice.sink_default_level());
    assert_eq!(once.sink_dup_threshold(), thrice.sink_dup_threshold());
    for module in ["app", "wry", "tungstenite::x", "other::mod"] {
        for level in [Level::Error, Level::Warn, Level::Info, Level::Debug] {
            let a = once.emit(module, level, 0, 10);
            let b = thrice.emit(module, level, 0, 10);
            assert_eq!(a, b);
        }
    }
}

#[test]
fn file_refresh_swaps_policy_and_keeps_everything_else() {
    let mut lg = initialized(Level::Info, 1, 2);
    lg.emit("app", Level::Info, 500, 1);
    let r = lg.refresh_log_file(Some(4), Some(3), true, true);
    assert!(r.is_ok());
    assert_eq!(lg.sink_policy().max_size, 4096);
    assert_eq!(lg.sink_policy().max_count, 3);
    assert_eq!(lg.sink_live_bytes(), 500);
    assert_eq!(lg.sink_default_level(), Level::Info);
}

#[test]
fn failed_file_refresh_keeps_previous_policy_governing_writes() {
    let mut lg = initialized(Level::Info, 1, 2);
    lg.emit("app", Level::Info, 500, 1);
    let r = lg.refresh_log_file(Some(4), Some(3), false, true);
    assert_eq!(r, Err(LogError::DirectoryResolutionFailure));
    assert_eq!(lg.sink_policy().max_size, 1024);
    assert_eq!(lg.sink_policy().max_count, 2);
    assert_eq!(lg.sink_live_bytes(), 500);
    let next = lg.emit("app", Level::Info, 524, 2);
    assert!(next.rotated);
    let r2 = lg.refresh_log_file(Some(4), Some(3), true, false);
    assert_eq!(r2, Err(LogError::BackendConstructionFailure));
    assert_eq!(lg.sink_policy().max_size, 1024);
}

#[test]
fn refreshes_in_either_order_agree() {
    let mut ab = initialized(Level::Info, 1, 2);
    let mut ba = initialized(Level::Info, 1, 2);
    ab.emit("app", Level::Info, 300, 1);
    ba.emit("app", Level::Info, 300, 1);
    assert!(ab.refresh_log_level(Level::Trace, None, true).is_ok());
    assert!(ab.refresh_log_file(Some(4), Some(3), true, true).is_ok());
    assert!(ba.refresh_log_file(Some(4), Some(3), true, true).is_ok());
    assert!(ba.refresh_log_level(Level::Trace, None, true).is_ok());
    assert_eq!(ab.sink_default_level(), ba.sink_default_level());
    assert_eq!(ab.sink_dup_threshold(), ba.sink_dup_threshold());
    assert_eq!(ab.sink_policy(), ba.sink_policy());
    assert_eq!(ab.sink_live_bytes(), ba.sink_live_bytes());
    assert_eq!(ab.sink_archive_count(), ba.sink_archive_count());
}

#[test]
fn failed_level_refresh_changes_nothing() {
    let mut lg = initialized(Level::Info, 1, 2);
    let r = lg.refresh_log_level(Level::Debug, None, false);
    assert_eq!(r, Err(LogError::BackendConstructionFailure));
    assert_eq!(lg.sink_default_level(), Level::Info);
    assert_eq!(lg.sink_dup_threshold(), Level::Info);
}

#[test]
fn environment_override_takes_precedence_when_it_parses() {
    let mut lg = Logger::new();
    assert!(lg.init(Level::Info, Some("DeBuG"), None, None, true, true).is_ok());
    assert_eq!(lg.sink_default_level(), Level::Debug);
    assert_eq!(lg.sink_dup_threshold(), Level::Debug);
}

#[test]
fn malformed_environment_override_falls_back_silently() {
    let mut lg = Logger::new();
    assert!(lg.init(Level::Info, Some("verbose"), None, None, true, true).is_ok());
    assert_eq!(lg.sink_default_level(), Level::Info);
}

#[test]
fn override_applies_to_level_refresh_too() {
    let mut lg = initialized(Level::Info, 1, 2);
    assert!(lg.refresh_log_level(Level::Warn, Some("TRACE"), true).is_ok());
    assert_eq!(lg.sink_default_level(), Level::Trace);
    assert!(lg.refresh_log_level(Level::Warn, Some("nonsense"), true).is_ok());
    assert_eq!(lg.sink_default_level(), Level::Warn);
}

#[test]
fn level_names_parse_without_regard_to_case() {
    assert_eq!(parse_level("off"), Some(Level::Off));
    assert_eq!(parse_level("OFF"), Some(Level::Off));
    assert_eq!(parse_level("Error"), Some(Level::Error));
    assert_eq!(parse_level("wArN"), Some(Level::Warn));
    assert_eq!(parse_level("INFO"), Some(Level::Info));
    assert_eq!(parse_level("debug"), Some(Level::Debug));
    assert_eq!(parse_level("TrAcE"), Some(Level::Trace));
    assert_eq!(parse_level(""), None);
    assert_eq!(parse_level("infoo"), None);
    assert_eq!(parse_level("warning"), None);
}

#[test]
fn emitted_records_are_mirrored_to_console() {
    let mut lg = initialized(Level::Debug, 128, 8);
    let r = lg.emit("app", Level::Debug, 5, 1);
    assert!(r.to_file);
    assert!(r.to_console);
    let e = lg.emit("app", Level::Error, 5, 2);
    assert!(e.to_file);
    assert!(e.to_console);
}

#[test]
fn emit_before_init_goes_nowhere() {
    let mut lg = Logger::new();
    let r = lg.emit("app", Level::Error, 5, 1);
    assert!(!r.to_file);
    assert!(!r.to_console);
    assert!(!r.rotated);
}
