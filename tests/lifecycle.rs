use haproxy_geoip2::db::{DatabaseHandle, ReloadMode};
use haproxy_geoip2::status::{
    check_outcome, on_check, on_load_done, on_trigger, trigger_outcome, CheckAction, DbStatus,
    StatusCell, Transition,
};

#[test]
fn first_check_starts_the_only_load() {
    let cell = StatusCell::new();
    let first = cell.check_status().expect("first check wins");
    assert_eq!(first.from, DbStatus::New);
    assert_eq!(first.to, DbStatus::Loading);
    assert_eq!(first.action, CheckAction::Load);
    for _ in 0..10 {
        assert!(cell.check_status().is_none());
    }
    cell.finish_load(true);
    assert!(cell.check_status().is_none());
}

#[test]
fn failure_is_reported_once_until_reload() {
    let cell = StatusCell::new();
    assert!(cell.check_status().is_some());
    cell.finish_load(false);
    let t = cell.check_status().expect("report");
    assert_eq!(t.action, CheckAction::ReportError);
    assert_eq!(t.to, DbStatus::Error);
    for _ in 0..10 {
        assert!(cell.check_status().is_none());
    }
    assert_eq!(cell.trigger_reload(), Some(DbStatus::Error));
    cell.finish_load(false);
    assert_eq!(cell.check_status().map(|t| t.action), Some(CheckAction::ReportError));
}

#[test]
fn reloads_never_overlap() {
    let cell = StatusCell::new();
    assert_eq!(cell.trigger_reload(), None);
    assert!(cell.check_status().is_some());
    assert_eq!(cell.trigger_reload(), None);
    cell.finish_load(true);
    assert_eq!(cell.trigger_reload(), Some(DbStatus::Loaded));
    assert_eq!(cell.trigger_reload(), None);
    cell.finish_load(false);
    assert_eq!(cell.trigger_reload(), None);
}

#[test]
fn step_functions() {
    assert_eq!(on_check(DbStatus::New), (DbStatus::Loading, CheckAction::Load));
    assert_eq!(on_check(DbStatus::ErrorNew), (DbStatus::Error, CheckAction::ReportError));
    assert_eq!(on_check(DbStatus::Loaded), (DbStatus::Loaded, CheckAction::Nothing));
    assert_eq!(on_trigger(DbStatus::Loading), (DbStatus::Loading, false));
    assert_eq!(on_trigger(DbStatus::Error), (DbStatus::Loading, true));
    assert_eq!(on_load_done(true), DbStatus::Loaded);
    assert_eq!(on_load_done(false), DbStatus::ErrorNew);
}

#[test]
fn status_codes_round_trip() {
    for s in [DbStatus::New, DbStatus::Loading, DbStatus::Loaded, DbStatus::ErrorNew, DbStatus::Error] {
        assert_eq!(DbStatus::from_code(s.to_code()), Some(s));
    }
    assert_eq!(DbStatus::from_code(5), None);
}

#[test]
fn handle_configuration_and_reload_mode() {
    let mut h = DatabaseHandle::new();
    assert_eq!(h.reload_mode(), ReloadMode::InPlace);
    h.configure("/data/GeoLite2-City.mmdb".to_string(), 86400);
    assert_eq!(h.path(), "/data/GeoLite2-City.mmdb");
    assert_eq!(h.reload_interval(), 86400);
    assert_eq!(h.reload_mode(), ReloadMode::Background);
    assert_eq!(h.check_status().map(|t| t.action), Some(CheckAction::Load));
}

#[test]
fn load_error_message_text() {
    let mut h = DatabaseHandle::new();
    h.configure("/tmp/missing.mmdb".to_string(), 0);
    assert_eq!(
        h.load_error_message("No such file"),
        "Error loading database '/tmp/missing.mmdb': No such file"
    );
}

#[test]
fn check_outcomes_per_swap_result() {
    assert_eq!(
        check_outcome(Ok(0), None),
        Some(Transition { from: DbStatus::New, to: DbStatus::Loading, action: CheckAction::Load })
    );
    assert_eq!(
        check_outcome(Err(3), Some(Ok(3))),
        Some(Transition { from: DbStatus::ErrorNew, to: DbStatus::Error, action: CheckAction::ReportError })
    );
    assert_eq!(check_outcome(Err(3), Some(Err(4))), None);
    assert_eq!(check_outcome(Err(2), None), None);
    assert_eq!(check_outcome(Err(1), None), None);
}

#[test]
fn trigger_outcomes_per_swap_result() {
    assert_eq!(trigger_outcome(Ok(2), None), Some(DbStatus::Loaded));
    assert_eq!(trigger_outcome(Err(4), Some(Ok(4))), Some(DbStatus::Error));
    assert_eq!(trigger_outcome(Err(1), Some(Err(1))), None);
}

#[test]
fn finish_load_reports_stored_status() {
    let cell = StatusCell::new();
    assert!(cell.check_status().is_some());
    assert_eq!(cell.finish_load(true), DbStatus::Loaded);
    assert_eq!(cell.trigger_reload(), Some(DbStatus::Loaded));
    assert_eq!(cell.finish_load(false), DbStatus::ErrorNew);
    let mut h = DatabaseHandle::new();
    h.configure("/x.mmdb".to_string(), 0);
    assert_eq!(h.check_status().map(|t| t.action), Some(CheckAction::Load));
    assert_eq!(h.finish_load(false), DbStatus::ErrorNew);
    assert_eq!(h.check_status().map(|t| t.action), Some(CheckAction::ReportError));
    assert!(h.check_status().is_none());
    assert_eq!(h.trigger_reload(), Some(DbStatus::Error));
    assert_eq!(h.finish_load(true), DbStatus::Loaded);
}
