use ultra_core::autonomy::SchedulerTrigger;
use ultra_core::guardian::{keys_revoked_after_spend, preflight_decision};
use ultra_core::observability::{heartbeat, heartbeat_at, LogBuffer};
use ultra_core::persistence::{expiry_threshold, scheduled_task_id, trigger_columns, trigger_from_columns, PersistenceError};
use ultra_core::text::{parse_u64, prefix_before_exec, strip_trailing_exec, u64_to_decimal};

#[test]
fn log_buffer_keeps_the_latest_entries() {
    let mut log = LogBuffer::new(2);
    log.push_at("a", "1", 1);
    log.push_at("b", "2", 2);
    log.push_at("c", "3", 3);
    let entries = log.list();
    let actions: Vec<&str> = entries.iter().map(|e| e.action.as_str()).collect();
    assert_eq!(actions, vec!["b", "c"]);
    assert_eq!(entries[1].detail, "3");
    assert_eq!(entries[1].timestamp_unix, 3);
}

#[test]
fn zero_capacity_log_keeps_one_entry() {
    let mut log = LogBuffer::default();
    log.push("a", "1");
    log.push("b", "2");
    let entries = log.list();
    assert_eq!(entries.len(), 1);
    assert_eq!(entries[0].action, "b");
}

#[test]
fn heartbeat_reports_alive() {
    let h = heartbeat_at(99);
    assert_eq!(h.service, "ultra-core");
    assert_eq!(h.status, "alive");
    assert_eq!(h.timestamp_unix, 99);
    assert!(heartbeat().timestamp_unix > 0);
}

#[test]
fn preflight_decisions() {
    let d = preflight_decision(true, false, true, "t");
    assert!(!d.allowed && !d.requires_authorization);
    assert_eq!(d.reason, "API keys are revoked due to daily budget limit");
    let d = preflight_decision(false, true, true, "t");
    assert!(!d.allowed);
    assert_eq!(d.reason, "Projected spend exceeds daily budget limit");
    let d = preflight_decision(false, false, true, "summary");
    assert!(d.allowed && d.requires_authorization);
    assert_eq!(d.reason, "Task 'summary' exceeds authorization threshold");
    let d = preflight_decision(false, false, false, "summary");
    assert!(d.allowed && !d.requires_authorization);
    assert_eq!(d.reason, "Within allowed budget");
}

#[test]
fn revocation_is_sticky() {
    assert!(keys_revoked_after_spend(true, false));
    assert!(keys_revoked_after_spend(false, true));
    assert!(!keys_revoked_after_spend(false, false));
}

#[test]
fn triggers_round_trip_through_columns() {
    let (k, e) = trigger_columns(&SchedulerTrigger::EverySeconds(30));
    assert_eq!((k.as_str(), e.as_str()), ("every_seconds", "30"));
    assert!(matches!(trigger_from_columns(&k, &e), SchedulerTrigger::EverySeconds(30)));
    let (k, e) = trigger_columns(&SchedulerTrigger::Cron("0 * * * *".to_owned()));
    assert_eq!(k, "cron");
    assert!(matches!(trigger_from_columns(&k, &e), SchedulerTrigger::Cron(c) if c == "0 * * * *"));
    assert!(matches!(trigger_from_columns("every_seconds", "soon"), SchedulerTrigger::EverySeconds(0)));
    assert!(matches!(trigger_from_columns("weekly", "x"), SchedulerTrigger::Cron(c) if c == "x"));
}

#[test]
fn scheduled_task_ids() {
    assert_eq!(scheduled_task_id("nightly-sync", 1700000000), "sched-nightly-sync-1700000000");
}

#[test]
fn decimal_parsing_matches_std() {
    for s in ["0", "42", "+7", "", "+", "-1", "18446744073709551615", "18446744073709551616", "12a", "007"] {
        assert_eq!(parse_u64(s), s.parse::<u64>().ok(), "{s}");
    }
    for n in [0u64, 9, 10, 1234567890, u64::MAX] {
        assert_eq!(u64_to_decimal(n), n.to_string());
    }
}

#[test]
fn prefix_and_suffix_helpers() {
    assert_eq!(prefix_before_exec("fs.read:/tmp", ':'), "fs.read");
    assert_eq!(prefix_before_exec("fs.read", ':'), "fs.read");
    assert_eq!(prefix_before_exec(":x", ':'), "");
    assert_eq!(strip_trailing_exec("a//", '/'), "a");
    assert_eq!(strip_trailing_exec("///", '/'), "");
}

#[test]
fn persistence_error_text() {
    assert_eq!(PersistenceError::Sqlite("locked".to_owned()).message(), "sqlite error: locked");
    assert_eq!(PersistenceError::Serialization("bad".to_owned()).message(), "serialization error: bad");
}

#[test]
fn expiry_threshold_saturates() {
    assert_eq!(expiry_threshold(100, 1000), 900);
    assert_eq!(expiry_threshold(1000, 100), 0);
}

#[test]
fn log_length_after_n_pushes() {
    for cap in [0usize, 1, 3] {
        let mut log = LogBuffer::new(cap);
        for n in 1..=6u64 {
            log.push_at("a", &n.to_string(), n);
            let entries = log.list();
            let kept = std::cmp::min(n as usize, std::cmp::max(cap, 1));
            assert_eq!(entries.len(), kept);
            assert_eq!(entries.last().unwrap().timestamp_unix, n);
            assert_eq!(entries[0].timestamp_unix, n - kept as u64 + 1);
        }
    }
}

#[test]
fn revoked_keys_stay_revoked_and_deny() {
    let mut revoked = false;
    for over in [false, true, false, false] {
        revoked = keys_revoked_after_spend(revoked, over);
    }
    assert!(revoked);
    for (exceeds, at_threshold) in [(false, false), (true, false), (false, true)] {
        let d = preflight_decision(revoked, exceeds, at_threshold, "job");
        assert!(!d.allowed);
        assert!(!d.requires_authorization);
        assert_eq!(d.reason, "API keys are revoked due to daily budget limit");
    }
}
