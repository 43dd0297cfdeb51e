use service_ready::environment::{assignments_from, decimal_text, environment_assignments, ServiceContext};
use service_ready::readiness::{start, step, Action, Outcome, Phase};

fn context(socket: &[u8], display: Option<u32>) -> ServiceContext {
    ServiceContext { socket: socket.to_vec(), xwayland_display: display }
}

/// Drives the procedure to its end, answering the query with `managed` and
/// the two calls with `environment_ok` and `ready_ok`; returns every action
/// requested, the first included.
fn drive(ctx: &ServiceContext, managed: bool, environment_ok: bool, ready_ok: bool) -> Vec<Action> {
    let (mut phase, mut action) = start();
    let mut actions = Vec::new();
    for _ in 0..10 {
        let answer = match &action {
            Action::QueryManaged => managed,
            Action::SetEnvironment(_) => environment_ok,
            Action::NotifyReady => ready_ok,
            Action::Finish(_) => {
                actions.push(action);
                return actions;
            }
        };
        let (p, a) = step(phase, answer, ctx);
        actions.push(action);
        phase = p;
        action = a;
    }
    panic!("the procedure did not finish");
}

fn count_notifications(actions: &[Action]) -> usize {
    actions.iter().filter(|a| matches!(a, Action::NotifyReady)).count()
}

fn count_environment_calls(actions: &[Action]) -> usize {
    actions.iter().filter(|a| matches!(a, Action::SetEnvironment(_))).count()
}

#[test]
fn unmanaged_process_sends_nothing() {
    let ctx = context(b"/run/user/1000/wayland-0", Some(3));
    for environment_ok in [false, true] {
        for ready_ok in [false, true] {
            let actions = drive(&ctx, false, environment_ok, ready_ok);
            assert_eq!(actions.len(), 2);
            assert!(matches!(actions[0], Action::QueryManaged));
            assert!(matches!(actions[1], Action::Finish(Outcome::Unmanaged)));
            assert_eq!(count_environment_calls(&actions), 0);
            assert_eq!(count_notifications(&actions), 0);
        }
    }
}

#[test]
fn socket_only_gives_one_entry() {
    let ctx = context(b"/run/user/1000/wayland-1", None);
    assert_eq!(environment_assignments(&ctx), vec!["WAYLAND_DISPLAY=/run/user/1000/wayland-1".to_string()]);
}

#[test]
fn socket_and_display_seven_give_two_entries() {
    let ctx = context(b"/tmp/wl", Some(7));
    assert_eq!(
        environment_assignments(&ctx),
        vec!["WAYLAND_DISPLAY=/tmp/wl".to_string(), "DISPLAY=:7".to_string()]
    );
}

#[test]
fn failed_environment_still_notifies_once() {
    let ctx = context(b"/run/user/1000/wayland-0", None);
    for ready_ok in [false, true] {
        let actions = drive(&ctx, true, false, ready_ok);
        assert_eq!(actions.len(), 4);
        assert!(matches!(actions[1], Action::SetEnvironment(_)));
        assert!(matches!(actions[2], Action::NotifyReady));
        assert_eq!(count_notifications(&actions), 1);
        match actions[3] {
            Action::Finish(o) => assert_eq!(o, Outcome::Reported { environment_set: false, ready_sent: ready_ok }),
            _ => panic!("expected the end of the procedure"),
        }
    }
}

#[test]
fn path_not_text_degrades_to_empty_value() {
    let ctx = context(&[b'/', b't', 0xff, 0xfe], Some(1));
    assert_eq!(
        environment_assignments(&ctx),
        vec!["WAYLAND_DISPLAY=".to_string(), "DISPLAY=:1".to_string()]
    );
}

#[test]
fn every_failure_combination_finishes() {
    let ctx = context(b"/run/user/1000/wayland-0", Some(0));
    for managed in [false, true] {
        for environment_ok in [false, true] {
            for ready_ok in [false, true] {
                let actions = drive(&ctx, managed, environment_ok, ready_ok);
                let expected = if managed {
                    Outcome::Reported { environment_set: environment_ok, ready_sent: ready_ok }
                } else {
                    Outcome::Unmanaged
                };
                match actions.last() {
                    Some(Action::Finish(o)) => assert_eq!(*o, expected),
                    _ => panic!("expected the end of the procedure"),
                }
            }
        }
    }
}

#[test]
fn managed_run_with_display_three() {
    let ctx = context(b"/run/user/1000/wayland-0", Some(3));
    let actions = drive(&ctx, true, true, true);
    assert_eq!(actions.len(), 4);
    assert!(matches!(actions[0], Action::QueryManaged));
    match &actions[1] {
        Action::SetEnvironment(a) => assert_eq!(
            *a,
            vec!["WAYLAND_DISPLAY=/run/user/1000/wayland-0".to_string(), "DISPLAY=:3".to_string()]
        ),
        _ => panic!("expected the environment call"),
    }
    assert!(matches!(actions[2], Action::NotifyReady));
    assert!(matches!(actions[3], Action::Finish(Outcome::Reported { environment_set: true, ready_sent: true })));
}

#[test]
fn finished_phase_stays_finished() {
    let ctx = context(b"/s", None);
    let done = Phase::Finished(Outcome::Unmanaged);
    let (p, a) = step(done, true, &ctx);
    assert_eq!(p, done);
    assert!(matches!(a, Action::Finish(Outcome::Unmanaged)));
}

#[test]
fn decimal_text_values() {
    assert_eq!(decimal_text(0), "0");
    assert_eq!(decimal_text(9), "9");
    assert_eq!(decimal_text(10), "10");
    assert_eq!(decimal_text(1024), "1024");
    assert_eq!(decimal_text(u32::MAX), "4294967295");
}

#[test]
fn assignments_from_given_text() {
    assert_eq!(assignments_from(&Some("/a b".to_string()), None), vec!["WAYLAND_DISPLAY=/a b".to_string()]);
    assert_eq!(
        assignments_from(&None, Some(42)),
        vec!["WAYLAND_DISPLAY=".to_string(), "DISPLAY=:42".to_string()]
    );
}

#[test]
fn non_ascii_path_is_decoded() {
    let ctx = context("/tmp/é".as_bytes(), None);
    assert_eq!(environment_assignments(&ctx), vec!["WAYLAND_DISPLAY=/tmp/é".to_string()]);
}

#[test]
fn empty_path_gives_empty_value() {
    let ctx = context(b"", None);
    assert_eq!(environment_assignments(&ctx), vec!["WAYLAND_DISPLAY=".to_string()]);
}
