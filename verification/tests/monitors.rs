use sentry_ops::checkin::{
    finish_run, start_run, CheckInOutcome, CheckInStatus, ExitInfo, RunOutcome,
};
use sentry_ops::checkin::duration_millis;
use sentry_ops::error::CliError;
use sentry_ops::ids::MonitorId;
use sentry_ops::monitors::{monitor_row, sort_monitors_by_name, Monitor, MonitorContext};

fn mon(name: &str) -> Monitor {
    Monitor {
        id: format!("id-{}", name),
        name: name.to_string(),
        status: "ok".to_string(),
    }
}

#[test]
fn valid_uuid_starts_run_with_in_progress_checkin() {
    let r = start_run("550e8400-e29b-41d4-a716-446655440000");
    let (id, create) = r.unwrap();
    assert_eq!(id.as_str(), "550e8400-e29b-41d4-a716-446655440000");
    assert_eq!(create.status, CheckInStatus::InProgress);
}

#[test]
fn simple_form_uuid_is_accepted() {
    let r = MonitorId::parse("550e8400e29b41d4a716446655440000");
    assert!(r.is_ok());
}

#[test]
fn invalid_monitor_id_fails_before_anything_else() {
    let r = start_run("not-a-uuid");
    match r {
        Err(e) => {
            assert_eq!(e, CliError::InvalidMonitorId);
            assert_eq!(e.message(), "invalid monitor ID");
        }
        Ok(_) => panic!("invalid monitor ID was accepted"),
    }
}

#[test]
fn created_checkin_is_updated_with_terminal_status_and_duration() {
    let checkin = CheckInOutcome::Created {
        checkin_id: "c1".to_string(),
    };
    let exit = ExitInfo {
        success: true,
        code: Some(0),
    };
    let (update, outcome) = finish_run(checkin, false, &exit, 250);
    let u = update.unwrap();
    assert_eq!(u.status, Some(CheckInStatus::Success));
    assert_eq!(u.duration, Some(250));
    assert!(matches!(outcome, RunOutcome::Success));
    assert_eq!(outcome.exit_code(), 0);
}

#[test]
fn failed_child_is_a_quiet_exit_with_its_own_code() {
    let checkin = CheckInOutcome::Created {
        checkin_id: "c1".to_string(),
    };
    let exit = ExitInfo {
        success: false,
        code: Some(3),
    };
    let (update, outcome) = finish_run(checkin, false, &exit, 10);
    assert_eq!(update.unwrap().status, Some(CheckInStatus::Error));
    match outcome {
        RunOutcome::QuietExit { code } => assert_eq!(code, 3),
        _ => panic!("expected a quiet exit"),
    }
    assert_eq!(outcome.exit_code(), 3);
}

#[test]
fn signal_killed_child_exits_one() {
    let checkin = CheckInOutcome::Created {
        checkin_id: "c1".to_string(),
    };
    let exit = ExitInfo {
        success: false,
        code: None,
    };
    let (_, outcome) = finish_run(checkin, false, &exit, 10);
    assert_eq!(outcome.exit_code(), 1);
}

#[test]
fn checkin_failure_without_allowance_is_fatal_and_not_updated() {
    let checkin = CheckInOutcome::Failed {
        message: "connection refused".to_string(),
    };
    let exit = ExitInfo {
        success: true,
        code: Some(0),
    };
    let (update, outcome) = finish_run(checkin, false, &exit, 10);
    assert!(update.is_none());
    match outcome {
        RunOutcome::FatalCheckIn { message } => assert_eq!(message, "connection refused"),
        _ => panic!("expected a fatal check-in failure"),
    }
}

#[test]
fn checkin_failure_with_allowance_keeps_child_exit_code() {
    let checkin = CheckInOutcome::Failed {
        message: "connection refused".to_string(),
    };
    let exit = ExitInfo {
        success: false,
        code: Some(7),
    };
    let (update, outcome) = finish_run(checkin, true, &exit, 10);
    assert!(update.is_none());
    assert_eq!(outcome.exit_code(), 7);

    let checkin = CheckInOutcome::Failed {
        message: "connection refused".to_string(),
    };
    let exit = ExitInfo {
        success: true,
        code: Some(0),
    };
    let (_, outcome) = finish_run(checkin, true, &exit, 10);
    assert_eq!(outcome.exit_code(), 0);
}

#[test]
fn duration_of_a_quarter_second_workload_is_reported_in_range() {
    let started = std::time::Instant::now();
    while started.elapsed().as_millis() < 250 {}
    let elapsed = started.elapsed();
    let d = duration_millis(elapsed.as_secs(), elapsed.subsec_millis());
    assert!(d >= 250, "duration {} ms is under the workload's runtime", d);
    assert!(d < 260, "duration {} ms leaves too much slack", d);
}

#[test]
fn duration_is_whole_milliseconds() {
    assert_eq!(duration_millis(0, 250), 250);
    assert_eq!(duration_millis(2, 5), 2005);
    assert_eq!(duration_millis(0, 0), 0);
}

#[test]
fn monitors_sort_by_name_regardless_of_input_order() {
    let input = vec![mon("zeta"), mon("alpha"), mon("mid")];
    let sorted = sort_monitors_by_name(input);
    let names: Vec<&str> = sorted.iter().map(|m| m.name.as_str()).collect();
    assert_eq!(names, vec!["alpha", "mid", "zeta"]);
}

#[test]
fn monitors_sort_keeps_duplicates() {
    let input = vec![mon("b"), mon("a"), mon("b"), mon("a")];
    let sorted = sort_monitors_by_name(input);
    let names: Vec<&str> = sorted.iter().map(|m| m.name.as_str()).collect();
    assert_eq!(names, vec!["a", "a", "b", "b"]);
}

#[test]
fn monitor_rows_are_id_name_status() {
    let m = Monitor {
        id: "u-1".to_string(),
        name: "api-health".to_string(),
        status: "ok".to_string(),
    };
    let row = monitor_row(&m);
    let row: Vec<&str> = row.iter().map(|c| c.as_str()).collect();
    assert_eq!(row, vec!["u-1", "api-health", "ok"]);
}

#[test]
fn get_org_returns_the_resolved_org() {
    let ctx = MonitorContext {
        org: "acme".to_string(),
    };
    assert_eq!(ctx.get_org().unwrap(), "acme");
}
