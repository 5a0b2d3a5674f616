use authentik_router::backend::{
    restart_poll_step, successor_pid_path, supervisor_step, Backend, BackendSpec, PollStep,
    RestartBegin, RestartFinish, SignalAttempt, SuccessorProbe, SupervisorStep,
};
use authentik_router::health::{barrier_outcome, health_probe, is_live_status, BarrierResult};
use authentik_router::pidfile::parse_pid;
use authentik_router::signal::SignalToken;

/// A PID that no process can have, so that signal delivery fails with ESRCH
/// instead of reaching anything.
const NO_SUCH_PID: i32 = i32::MAX;

#[test]
fn debug_spec_launches_the_development_server() {
    let spec = BackendSpec::for_debug();
    assert_eq!(spec.program, "./manage.py");
    assert_eq!(spec.args, vec!["dev_server".to_string()]);
    assert_eq!(spec.pid_file_path, None);
}

#[test]
fn production_spec_launches_the_runner_with_a_pid_file() {
    let spec = BackendSpec::for_production("/tmp/p.pid".to_string());
    assert_eq!(spec.program, "gunicorn");
    assert_eq!(
        spec.args,
        vec![
            "-c".to_string(),
            "./lifecycle/gunicorn.conf.py".to_string(),
            "authentik.root.asgi:application".to_string(),
            "--pid".to_string(),
            "/tmp/p.pid".to_string(),
        ]
    );
    assert_eq!(spec.pid_file_path, Some("/tmp/p.pid".to_string()));
}

#[test]
fn reload_without_a_worker_is_a_no_op() {
    let backend = Backend::new(BackendSpec::for_debug());
    assert_eq!(backend.reload(), SignalAttempt::NoWorker);
    assert_eq!(backend.quick_shutdown(), SignalAttempt::NoWorker);
    assert_eq!(backend.graceful_shutdown(), SignalAttempt::NoWorker);
}

#[test]
fn reload_sends_hangup_to_the_recorded_pid() {
    let mut backend = Backend::new(BackendSpec::for_debug());
    backend.record_started(NO_SUCH_PID);
    // The PID is stale on purpose: the OS refuses delivery, which the
    // supervisor reports without escalating.
    assert_eq!(
        backend.reload(),
        SignalAttempt::Attempted {
            signal: SignalToken::Hangup,
            pid: NO_SUCH_PID,
            delivered: false
        }
    );
}

#[test]
fn shutdowns_send_terminate_to_the_recorded_pid() {
    let mut backend = Backend::new(BackendSpec::for_debug());
    backend.record_started(NO_SUCH_PID);
    for attempt in [backend.quick_shutdown(), backend.graceful_shutdown()] {
        assert_eq!(
            attempt,
            SignalAttempt::Attempted {
                signal: SignalToken::Terminate,
                pid: NO_SUCH_PID,
                delivered: false
            }
        );
    }
}

#[test]
fn supervisor_dispatch_table() {
    assert_eq!(
        supervisor_step(SignalToken::Hangup),
        (SupervisorStep::Reload, false)
    );
    assert_eq!(
        supervisor_step(SignalToken::Interrupt),
        (SupervisorStep::QuickShutdown, true)
    );
    assert_eq!(
        supervisor_step(SignalToken::Quit),
        (SupervisorStep::QuickShutdown, true)
    );
    assert_eq!(
        supervisor_step(SignalToken::Terminate),
        (SupervisorStep::GracefulShutdown, true)
    );
    assert_eq!(
        supervisor_step(SignalToken::UserDefined2),
        (SupervisorStep::Restart, false)
    );
}

#[test]
fn successor_pid_file_is_the_pid_file_plus_two() {
    assert_eq!(successor_pid_path("/tmp/p.pid"), "/tmp/p.pid.2");
}

#[test]
fn restart_target_names_the_worker_and_the_successor_file() {
    let mut backend = Backend::new(BackendSpec::for_production("/tmp/p.pid".to_string()));
    backend.record_started(100);
    let target = backend.restart_target();
    assert_eq!(target, Some((100, "/tmp/p.pid.2".to_string())));
}

#[test]
fn restart_is_refused_without_a_pid_file() {
    let mut backend = Backend::new(BackendSpec::for_debug());
    backend.record_started(NO_SUCH_PID);
    assert_eq!(backend.restart_target(), None);
    assert!(matches!(backend.restart_begin(), RestartBegin::NotEligible));
}

#[test]
fn restart_is_refused_without_a_worker() {
    let backend = Backend::new(BackendSpec::for_production("/tmp/p.pid".to_string()));
    assert_eq!(backend.restart_target(), None);
    assert!(matches!(backend.restart_begin(), RestartBegin::NotEligible));
}

#[test]
fn restart_aborts_when_the_replacement_signal_cannot_be_delivered() {
    let mut backend = Backend::new(BackendSpec::for_production("/tmp/p.pid".to_string()));
    backend.record_started(NO_SUCH_PID);
    assert!(matches!(backend.restart_begin(), RestartBegin::SignalFailed));
    assert_eq!(backend.current_pid, Some(NO_SUCH_PID));
}

#[test]
fn restart_poll_decisions() {
    assert_eq!(restart_poll_step(SuccessorProbe::Present), PollStep::ReadSuccessor);
    assert_eq!(restart_poll_step(SuccessorProbe::Absent), PollStep::Wait);
    assert_eq!(restart_poll_step(SuccessorProbe::ProbeError), PollStep::AbortRestart);
}

#[test]
fn restart_finish_adopts_the_successor_and_retires_the_old_worker() {
    let mut backend = Backend::new(BackendSpec::for_production("/tmp/p.pid".to_string()));
    backend.record_started(NO_SUCH_PID);
    let r = backend.restart_finish("200\n");
    assert_eq!(
        r,
        RestartFinish::Completed {
            old_pid: NO_SUCH_PID,
            new_pid: 200,
            delivered: false
        }
    );
    assert_eq!(backend.current_pid, Some(200));
    // Subsequent signal forwarding targets the successor.
    assert!(matches!(
        backend.reload(),
        SignalAttempt::Attempted {
            signal: SignalToken::Hangup,
            pid: 200,
            ..
        }
    ));
}

#[test]
fn restart_finish_aborts_on_an_unreadable_pid_file() {
    let mut backend = Backend::new(BackendSpec::for_production("/tmp/p.pid".to_string()));
    backend.record_started(NO_SUCH_PID);
    let r = backend.restart_finish("not a pid");
    assert_eq!(r, RestartFinish::Aborted);
    assert_eq!(backend.current_pid, Some(NO_SUCH_PID));
}

#[test]
fn pid_files_parse_with_surrounding_whitespace() {
    assert_eq!(parse_pid("200\n"), Some(200));
    assert_eq!(parse_pid("777\n"), Some(777));
    assert_eq!(parse_pid(" 42 "), Some(42));
    assert_eq!(parse_pid("\t7\r\n"), Some(7));
    assert_eq!(parse_pid("-5"), Some(-5));
    assert_eq!(parse_pid("+9"), Some(9));
}

#[test]
fn malformed_pid_files_are_rejected() {
    assert_eq!(parse_pid(""), None);
    assert_eq!(parse_pid("   "), None);
    assert_eq!(parse_pid("abc"), None);
    assert_eq!(parse_pid("12x"), None);
    assert_eq!(parse_pid("-"), None);
    assert_eq!(parse_pid("+"), None);
    assert_eq!(parse_pid("1 2"), None);
}

#[test]
fn pids_outside_the_32_bit_range_are_rejected() {
    assert_eq!(parse_pid("2147483647"), Some(2147483647));
    assert_eq!(parse_pid("2147483648"), None);
    assert_eq!(parse_pid("-2147483648"), Some(-2147483648));
    assert_eq!(parse_pid("-2147483649"), None);
    assert_eq!(parse_pid("99999999999999999999"), None);
}

#[test]
fn liveness_probe_shape() {
    let probe = health_probe();
    assert_eq!(probe.method, "GET");
    assert_eq!(probe.path, "/-/health/live/");
    assert_eq!(probe.host_header, "localhost");
    assert_eq!(probe.user_agent, "goauthentik.io/router/healthcheck");
}

#[test]
fn any_2xx_status_is_live() {
    assert!(is_live_status(200));
    assert!(is_live_status(204));
    assert!(is_live_status(299));
    assert!(!is_live_status(199));
    assert!(!is_live_status(300));
    assert!(!is_live_status(500));
}

#[test]
fn health_barrier_gives_up_after_a_hundred_failures() {
    let outcomes = vec![false; 150];
    assert_eq!(barrier_outcome(&outcomes), BarrierResult::GivenUp);
}

#[test]
fn health_barrier_resolves_on_the_first_success() {
    let mut outcomes = vec![false; 100];
    outcomes[4] = true;
    outcomes[50] = true;
    assert_eq!(barrier_outcome(&outcomes), BarrierResult::Healthy { attempts: 5 });

    let mut immediate = vec![false; 100];
    immediate[0] = true;
    assert_eq!(barrier_outcome(&immediate), BarrierResult::Healthy { attempts: 1 });
}

#[test]
fn health_barrier_resolves_on_the_hundredth_probe_but_not_later() {
    let mut last_chance = vec![false; 100];
    last_chance[99] = true;
    assert_eq!(
        barrier_outcome(&last_chance),
        BarrierResult::Healthy { attempts: 100 }
    );

    let mut too_late = vec![false; 150];
    too_late[100] = true;
    assert_eq!(barrier_outcome(&too_late), BarrierResult::GivenUp);
}
