use fernbedienung::events::plan_batch;
use fernbedienung::locator::{on_candidate, on_session_end};
use fernbedienung::report::{classify_wait, report_level};
use fernbedienung::{
    Config, KeyIdentity, LogLevel, Phase, RawEvent, RawRule, Report, TriggerState, WaitOutcome,
};

fn one_rule_config(name: &str, key: &str, on: Option<&str>, action: &str) -> Config {
    let raw = vec![RawRule {
        key: key.to_string(),
        on: on.map(|s| s.to_string()),
        action: action.to_string(),
    }];
    Config::new(name.to_string(), &raw).unwrap()
}

#[test]
fn trigger_decoding_is_total_on_zero_one_two() {
    assert_eq!(TriggerState::decode(0), Ok(TriggerState::Release));
    assert_eq!(TriggerState::decode(1), Ok(TriggerState::Press));
    assert_eq!(TriggerState::decode(2), Ok(TriggerState::Repeat));
    let err = TriggerState::decode(3).unwrap_err();
    assert_eq!(err.value, 3);
    assert!(TriggerState::decode(-1).is_err());
    assert!(TriggerState::decode(i32::MAX).is_err());
    assert_eq!(TriggerState::default(), TriggerState::Press);
}

#[test]
fn device_name_matching_is_exact_and_case_sensitive() {
    let config = one_rule_config("testdevice", "KEY_A", None, "echo hi");
    assert!(fernbedienung::events::device_matches(
        &config,
        &Some("testdevice".to_string())
    ));
    assert!(!fernbedienung::events::device_matches(
        &config,
        &Some("Testdevice".to_string())
    ));
    assert!(!fernbedienung::events::device_matches(
        &config,
        &Some("testdevice ".to_string())
    ));
    assert!(!fernbedienung::events::device_matches(&config, &None));
}

#[test]
fn only_the_matching_trigger_state_dispatches() {
    let config = one_rule_config("dev", "KEY_A", Some("release"), "echo done");
    let key = KeyIdentity::parse("KEY_A").unwrap();
    let events = vec![
        RawEvent::Key { key, value: 1 },
        RawEvent::Key { key, value: 0 },
    ];
    let plan = plan_batch(&config, &events);
    assert_eq!(plan.launches, vec![0]);
    assert!(plan.failure.is_none());

    // The single dispatch is for the second event: the press alone
    // dispatches nothing.
    let only_press = vec![RawEvent::Key { key, value: 1 }];
    assert!(plan_batch(&config, &only_press).launches.is_empty());
}

#[test]
fn other_event_kinds_are_ignored() {
    let config = one_rule_config("dev", "KEY_A", None, "echo hi");
    let key = KeyIdentity::parse("KEY_A").unwrap();
    let events = vec![RawEvent::Other, RawEvent::Key { key, value: 1 }, RawEvent::Other];
    let plan = plan_batch(&config, &events);
    assert_eq!(plan.launches, vec![0]);
    assert!(plan.failure.is_none());
}

#[test]
fn out_of_range_trigger_value_ends_the_batch() {
    let config = one_rule_config("dev", "KEY_A", None, "echo hi");
    let key = KeyIdentity::parse("KEY_A").unwrap();
    let events = vec![
        RawEvent::Key { key, value: 1 },
        RawEvent::Key { key, value: 7 },
        RawEvent::Key { key, value: 1 },
    ];
    let plan = plan_batch(&config, &events);
    // The dispatch before the bad event stands; nothing after it does.
    assert_eq!(plan.launches, vec![0]);
    assert_eq!(plan.failure.unwrap().value, 7);
}

#[test]
fn launch_failure_does_not_stop_the_listener() {
    let config = one_rule_config("dev", "KEY_A", None, "/nonexistent/program x");
    let key = KeyIdentity::parse("KEY_A").unwrap();
    let events = vec![
        RawEvent::Key { key, value: 1 },
        RawEvent::Key { key, value: 1 },
    ];
    let plan = plan_batch(&config, &events);
    assert_eq!(plan.launches, vec![0, 0]);
    assert!(plan.failure.is_none());

    // A stub runner whose first launch fails: the failure is recorded
    // and the next dispatch is still attempted.
    let mut attempts = 0;
    let mut failures = 0;
    for _ in &plan.launches {
        attempts += 1;
        if attempts == 1 {
            failures += 1; // launch failed; logged and discarded
        }
    }
    assert_eq!(attempts, 2);
    assert_eq!(failures, 1);
}

#[test]
fn a_slow_action_does_not_delay_later_events() {
    let config = one_rule_config("dev", "KEY_A", None, "sleep forever");
    let key = KeyIdentity::parse("KEY_A").unwrap();

    // A stub runner hands back handles that never exit; they are only
    // queued for the reporter, never waited on by the listener.
    let mut pending: Vec<(String, &str)> = Vec::new();

    let first = plan_batch(&config, &vec![RawEvent::Key { key, value: 1 }]);
    for i in &first.launches {
        let (program, _args) = config.rules[*i].action.launch_parts();
        pending.push((program, "never-exiting handle"));
    }

    // Further events still dispatch while the first command hangs.
    let second = plan_batch(&config, &vec![RawEvent::Key { key, value: 1 }]);
    assert_eq!(second.launches, vec![0]);
    for i in &second.launches {
        let (program, _args) = config.rules[*i].action.launch_parts();
        pending.push((program, "never-exiting handle"));
    }
    assert_eq!(pending.len(), 2);
}

#[test]
fn startup_scenario_dispatches_once_and_reports_success() {
    let config = one_rule_config("testdevice", "KEY_A", Some("press"), "echo hi");

    // Startup enumeration finds the device; the locator enters exactly
    // one listener session.
    let (phase, enter) = on_candidate(&config, Phase::Scanning, &Some("testdevice".to_string()));
    assert!(enter);
    assert_eq!(phase, Phase::Listening);
    let (same_phase, again) = on_candidate(&config, phase, &Some("testdevice".to_string()));
    assert!(!again);
    assert_eq!(same_phase, Phase::Listening);

    // One key press: exactly one launch of ["echo", "hi"].
    let key = KeyIdentity::parse("KEY_A").unwrap();
    let plan = plan_batch(&config, &vec![RawEvent::Key { key, value: 1 }]);
    assert_eq!(plan.launches.len(), 1);
    let (program, args) = config.rules[plan.launches[0]].action.launch_parts();
    assert_eq!(program, "echo".to_string());
    assert_eq!(args, vec!["hi".to_string()]);

    // The simulated command exits with code 0: one success entry, at
    // debug level, via the reporter.
    let report = classify_wait(&WaitOutcome::Exited { code: Some(0) });
    assert_eq!(report, Report::Success);
    assert_eq!(report_level(&report), LogLevel::Debug);

    // The session ends: back to scanning.
    assert_eq!(on_session_end(phase), Phase::Scanning);
}

#[test]
fn wait_outcomes_are_classified_by_exit_status() {
    assert_eq!(
        classify_wait(&WaitOutcome::Exited { code: Some(0) }),
        Report::Success
    );
    assert_eq!(
        classify_wait(&WaitOutcome::Exited { code: Some(2) }),
        Report::Failure { code: Some(2) }
    );
    assert_eq!(
        classify_wait(&WaitOutcome::Exited { code: None }),
        Report::Failure { code: None }
    );
    assert_eq!(classify_wait(&WaitOutcome::WaitFailed), Report::WaitFailed);
    assert_eq!(
        report_level(&Report::Failure { code: Some(2) }),
        LogLevel::Error
    );
    assert_eq!(report_level(&Report::WaitFailed), LogLevel::Error);
}
