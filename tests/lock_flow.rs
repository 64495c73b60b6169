use lockscreen::gate::{GateError, UnlockGate};
use lockscreen::lock::{InputEvent, Lock, Message};
use lockscreen::step::{AuthStep, Effect, Outcome, StepMessage};
use lockscreen::wizard::AuthSteps;

fn enter() -> Message {
    Message::EnterEvent(InputEvent::EnterPressed)
}

fn type_password(text: &str) -> Message {
    Message::Step(StepMessage::PasswordEntered(text.to_string()))
}

fn submit() -> Message {
    Message::Step(StepMessage::Submit)
}

fn answer(request: u64, outcome: Outcome) -> Message {
    Message::Step(StepMessage::Verified { request, outcome })
}

/// A lock for `user` already moved on to its auth step.
fn lock_on_auth(user: &str) -> Lock {
    let mut lock = Lock::new(user.to_string());
    assert!(matches!(lock.update(enter()), Effect::FocusPassword));
    lock
}

/// The auth step's password, error and outstanding request.
fn auth_state(lock: &Lock) -> (String, Option<String>, Option<u64>, bool) {
    match lock.steps().active() {
        AuthStep::Auth { password, auth_error, pending, unlocked, .. } => {
            (password.clone(), auth_error.clone(), *pending, *unlocked)
        }
        AuthStep::Welcome { .. } => panic!("expected the auth step"),
    }
}

fn expect_request(effect: Effect) -> (u64, String, String) {
    match effect {
        Effect::Verify(r) => (r.id, r.user, r.password),
        _ => panic!("expected a verification request"),
    }
}

#[test]
fn scenario_correct_password_unlocks_once() {
    let mut lock = lock_on_auth("alice");
    assert!(matches!(lock.update(type_password("correct")), Effect::Nothing));
    let (id, user, password) = expect_request(lock.update(submit()));
    assert_eq!(user, "alice");
    assert_eq!(password, "correct");
    assert!(matches!(lock.update(answer(id, Outcome::Success)), Effect::Unlock));
    assert!(lock.is_unlocked());
    // nothing after the release is handled
    assert!(matches!(lock.update(type_password("x")), Effect::Nothing));
    assert!(matches!(lock.update(submit()), Effect::Nothing));
    assert!(matches!(lock.update(enter()), Effect::Nothing));
    assert!(matches!(lock.update(answer(id, Outcome::Success)), Effect::Nothing));
    assert!(lock.is_unlocked());
}

#[test]
fn scenario_wrong_password_shows_error() {
    let mut lock = lock_on_auth("alice");
    lock.update(type_password("wrong"));
    let (id, user, password) = expect_request(lock.update(submit()));
    assert_eq!(user, "alice");
    assert_eq!(password, "wrong");
    let e = lock.update(answer(id, Outcome::Failure("authentication failed".to_string())));
    assert!(matches!(e, Effect::Nothing));
    let (password, error, pending, unlocked) = auth_state(&lock);
    assert_eq!(error, Some("authentication failed".to_string()));
    assert_eq!(password, "");
    assert_eq!(pending, None);
    assert!(!unlocked);
    assert!(!lock.is_unlocked());
    // submission is enabled again
    lock.update(type_password("correct"));
    let (id2, _, password2) = expect_request(lock.update(submit()));
    assert_eq!(password2, "correct");
    assert_ne!(id2, id);
}

#[test]
fn scenario_double_submit_single_request() {
    let mut lock = lock_on_auth("alice");
    lock.update(type_password("correct"));
    let mut requests = 0;
    for msg in [submit(), submit()] {
        if let Effect::Verify(_) = lock.update(msg) {
            requests += 1;
        }
    }
    assert_eq!(requests, 1);
}

#[test]
fn double_submit_by_enter_and_button_single_request() {
    let mut lock = lock_on_auth("alice");
    lock.update(type_password("pw"));
    let mut requests = 0;
    for msg in [enter(), submit(), type_password("other"), enter(), submit()] {
        if let Effect::Verify(_) = lock.update(msg) {
            requests += 1;
        }
    }
    assert_eq!(requests, 1);
}

#[test]
fn edits_then_success_unlock_once() {
    let mut lock = lock_on_auth("bob");
    for text in ["h", "hu", "hun", "hunt", "hunter2"] {
        assert!(matches!(lock.update(type_password(text)), Effect::Nothing));
    }
    let (id, _, password) = expect_request(lock.update(submit()));
    assert_eq!(password, "hunter2");
    let mut unlocks = 0;
    for msg in [answer(id, Outcome::Success), answer(id, Outcome::Success), submit()] {
        if let Effect::Unlock = lock.update(msg) {
            unlocks += 1;
        }
    }
    assert_eq!(unlocks, 1);
}

#[test]
fn bad_password_clears_buffer_and_keeps_step() {
    let mut lock = lock_on_auth("alice");
    lock.update(type_password("secret"));
    let (id, _, _) = expect_request(lock.update(submit()));
    assert_eq!(lock.steps().current(), 1);
    lock.update(answer(id, Outcome::Failure("bad password".to_string())));
    assert_eq!(lock.steps().current(), 1);
    let (password, error, pending, _) = auth_state(&lock);
    assert_eq!(password, "");
    assert_eq!(error, Some("bad password".to_string()));
    assert_eq!(pending, None);
}

#[test]
fn enter_on_welcome_moves_to_auth() {
    let mut lock = Lock::new("alice".to_string());
    assert_eq!(lock.steps().current(), 0);
    assert!(matches!(lock.steps().active(), AuthStep::Welcome { .. }));
    assert!(matches!(lock.update(enter()), Effect::FocusPassword));
    assert_eq!(lock.steps().current(), 1);
    assert!(matches!(lock.steps().active(), AuthStep::Auth { .. }));
}

#[test]
fn enter_on_auth_submits_and_stays() {
    let mut lock = lock_on_auth("alice");
    lock.update(type_password("pw"));
    let (_, user, password) = expect_request(lock.update(enter()));
    assert_eq!(user, "alice");
    assert_eq!(password, "pw");
    assert_eq!(lock.steps().current(), 1);
    assert!(matches!(lock.update(enter()), Effect::Nothing));
    assert_eq!(lock.steps().current(), 1);
}

#[test]
fn other_input_is_inert() {
    let mut lock = Lock::new("alice".to_string());
    assert!(lock.route(InputEvent::Other).is_none());
    assert!(matches!(lock.update(Message::EnterEvent(InputEvent::Other)), Effect::Nothing));
    assert_eq!(lock.steps().current(), 0);
    assert!(matches!(lock.route(InputEvent::EnterPressed), Some(Message::NextPressed)));
    lock.update(enter());
    assert!(matches!(
        lock.route(InputEvent::EnterPressed),
        Some(Message::Step(StepMessage::Submit))
    ));
}

#[test]
fn advance_on_auth_is_noop() {
    let mut steps = AuthSteps::new("alice".to_string());
    assert!(steps.can_continue());
    assert!(matches!(steps.advance(), Effect::FocusPassword));
    assert_eq!(steps.current(), 1);
    assert!(!steps.can_continue());
    for _ in 0..5 {
        assert!(matches!(steps.advance(), Effect::Nothing));
        assert_eq!(steps.current(), 1);
    }
    let mut lock = lock_on_auth("alice");
    assert!(matches!(lock.update(Message::NextPressed), Effect::Nothing));
    assert_eq!(lock.steps().current(), 1);
}

#[test]
fn step_messages_on_welcome_do_nothing() {
    let mut lock = Lock::new("alice".to_string());
    assert!(matches!(lock.update(type_password("pw")), Effect::Nothing));
    assert!(matches!(lock.update(submit()), Effect::Nothing));
    assert_eq!(lock.steps().current(), 0);
    lock.update(enter());
    let (password, error, pending, _) = auth_state(&lock);
    assert_eq!(password, "");
    assert_eq!(error, None);
    assert_eq!(pending, None);
}

#[test]
fn edit_clears_error() {
    let mut lock = lock_on_auth("alice");
    lock.update(type_password("wrong"));
    let (id, _, _) = expect_request(lock.update(submit()));
    lock.update(answer(id, Outcome::Failure("authentication failed".to_string())));
    assert!(auth_state(&lock).1.is_some());
    lock.update(type_password("c"));
    let (password, error, _, _) = auth_state(&lock);
    assert_eq!(password, "c");
    assert_eq!(error, None);
}

#[test]
fn submit_clears_error() {
    let mut lock = lock_on_auth("alice");
    let (id, _, _) = expect_request(lock.update(submit()));
    lock.update(answer(id, Outcome::Failure("bad password".to_string())));
    assert!(auth_state(&lock).1.is_some());
    expect_request(lock.update(submit()));
    assert_eq!(auth_state(&lock).1, None);
}

#[test]
fn empty_password_is_submitted() {
    let mut lock = lock_on_auth("alice");
    let (id, user, password) = expect_request(lock.update(submit()));
    assert_eq!(id, 0);
    assert_eq!(user, "alice");
    assert_eq!(password, "");
}

#[test]
fn edits_while_pending_do_not_touch_request() {
    let mut lock = lock_on_auth("alice");
    lock.update(type_password("first"));
    let (id, _, password) = expect_request(lock.update(submit()));
    assert_eq!(password, "first");
    lock.update(type_password("second"));
    assert_eq!(auth_state(&lock).0, "second");
    assert_eq!(auth_state(&lock).2, Some(id));
    assert!(matches!(lock.update(submit()), Effect::Nothing));
    lock.update(answer(id, Outcome::Failure("authentication failed".to_string())));
    assert_eq!(auth_state(&lock).0, "");
}

#[test]
fn stale_outcome_is_discarded() {
    let mut lock = lock_on_auth("alice");
    // no request outstanding
    assert!(matches!(lock.update(answer(0, Outcome::Success)), Effect::Stale));
    assert!(!lock.is_unlocked());
    let (id, _, _) = expect_request(lock.update(submit()));
    // an answer to some other request
    assert!(matches!(lock.update(answer(id + 7, Outcome::Success)), Effect::Stale));
    assert!(!lock.is_unlocked());
    assert_eq!(auth_state(&lock).2, Some(id));
    lock.update(answer(id, Outcome::Failure("bad password".to_string())));
    // a late duplicate of the answered request
    assert!(matches!(lock.update(answer(id, Outcome::Success)), Effect::Stale));
    assert!(!lock.is_unlocked());
}

#[test]
fn request_ids_count_up() {
    let mut lock = lock_on_auth("alice");
    let mut expected: u64 = 0;
    for _ in 0..3 {
        let (id, _, _) = expect_request(lock.update(submit()));
        assert_eq!(id, expected);
        lock.update(answer(id, Outcome::Failure("bad password".to_string())));
        expected += 1;
    }
}

#[test]
fn request_id_wraps_at_largest() {
    let mut step = AuthStep::Auth {
        name: "alice".to_string(),
        password: "pw".to_string(),
        auth_error: None,
        pending: None,
        next_request: u64::MAX,
        unlocked: false,
    };
    let (id, _, _) = expect_request(step.update(StepMessage::Submit));
    assert_eq!(id, u64::MAX);
    match &step {
        AuthStep::Auth { pending, next_request, .. } => {
            assert_eq!(*pending, Some(u64::MAX));
            assert_eq!(*next_request, 0);
        }
        AuthStep::Welcome { .. } => panic!("expected the auth step"),
    }
    assert!(matches!(
        step.update(StepMessage::Verified { request: u64::MAX, outcome: Outcome::Success }),
        Effect::Unlock
    ));
}

#[test]
fn unlocked_step_ignores_input() {
    let mut step = AuthStep::Auth {
        name: "alice".to_string(),
        password: "pw".to_string(),
        auth_error: None,
        pending: None,
        next_request: 3,
        unlocked: true,
    };
    assert!(matches!(step.update(StepMessage::PasswordEntered("x".to_string())), Effect::Nothing));
    assert!(matches!(step.update(StepMessage::Submit), Effect::Nothing));
    match &step {
        AuthStep::Auth { password, next_request, .. } => {
            assert_eq!(password, "pw");
            assert_eq!(*next_request, 3);
        }
        AuthStep::Welcome { .. } => panic!("expected the auth step"),
    }
}

#[test]
fn welcome_step_can_continue() {
    let step = AuthStep::Welcome { user_name: "alice".to_string() };
    assert!(step.can_continue());
}

#[test]
fn gate_fires_once() {
    let mut gate = UnlockGate::new();
    assert!(!gate.is_unlocked());
    assert_eq!(gate.signal(), Ok(()));
    assert!(gate.is_unlocked());
    assert_eq!(gate.signal(), Err(GateError::AlreadyUnlocked));
    assert!(gate.is_unlocked());
}
