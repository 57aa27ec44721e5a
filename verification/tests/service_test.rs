use scribe::config::Config;
use scribe::service::{
    generate_launchd_plist, generate_systemd_unit, parse_plist_program_arguments, parse_systemd_exec_start,
    plist_file_is_current, reminder_interval, unit_file_is_current, DaemonTimers, Diagnosis, ServiceState,
};

#[test]
fn systemd_unit_round_trips_binary() {
    let unit = generate_systemd_unit("/usr/bin/scribe");
    assert!(unit.contains("ExecStart=/usr/bin/scribe service run\n"));
    assert_eq!(parse_systemd_exec_start(&unit).as_deref(), Some("/usr/bin/scribe service run"));
    assert!(unit_file_is_current(&unit, "/usr/bin/scribe"));
    assert!(!unit_file_is_current(&unit, "/opt/scribe"));
}

#[test]
fn plist_round_trips_binary() {
    let plist = generate_launchd_plist("/usr/local/bin/scribe", "/Users/me");
    assert_eq!(parse_plist_program_arguments(&plist).as_deref(), Some("/usr/local/bin/scribe"));
    assert!(plist_file_is_current(&plist, "/usr/local/bin/scribe"));
    assert!(plist.contains("/Users/me/Library/Logs/scribe-daemon.log"));
}

#[test]
fn missing_exec_start_is_none() {
    assert_eq!(parse_systemd_exec_start("[Unit]\nDescription=x\n"), None);
    assert_eq!(parse_plist_program_arguments("<plist></plist>"), None);
}

#[test]
fn service_state_healthy_when_all_agree() {
    let mut cfg = Config::default();
    cfg.setup.daemon_service_installed = true;
    let s = ServiceState::check(&cfg, true, true);
    assert!(s.is_healthy());
    assert!(!s.has_discrepancy());
}

#[test]
fn service_state_flags_missing_file() {
    let mut cfg = Config::default();
    cfg.setup.daemon_service_installed = true;
    let s = ServiceState::check(&cfg, false, false);
    assert!(!s.is_healthy());
    assert!(s.has_discrepancy());
    assert!(!matches!(s.diagnosis(), Diagnosis::Healthy));
}

#[test]
fn daemon_timers_space_their_runs() {
    let mut t = DaemonTimers::new(30_000, 60_000, true);
    let first = t.tick(0);
    assert!(first.check_reminders && first.run_sync);
    let soon = t.tick(10_000);
    assert!(!soon.check_reminders && !soon.run_sync);
    let later = t.tick(30_000);
    assert!(later.check_reminders && !later.run_sync);
    let much_later = t.tick(60_000);
    assert!(much_later.run_sync);
    let mut off = DaemonTimers::new(30_000, 60_000, false);
    assert!(!off.tick(0).run_sync);
}

#[test]
fn reminder_interval_defaults_to_thirty() {
    assert_eq!(reminder_interval(None), 30);
    assert_eq!(reminder_interval(Some(5)), 5);
}
