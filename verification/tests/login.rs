use video_admin::controllers::index::{
    Account, AccountCheck, ChangePwdAction, ChangePwdError, ChangePwdEvent, ChangePwdState, Index, LoginAction, LoginError,
    LoginEvent, LoginState, ManagePage, Page, PasswordCheck, SessionRead,
};
use video_admin::controllers::{LOGIN_ERROR_MAX, LOGIN_LOCKED_TIME};

#[derive(Clone, Debug, PartialEq)]
struct Session {
    locked_time: Option<usize>,
    failure_count: Option<usize>,
    user: Option<(usize, String, usize)>,
}

fn fresh() -> Session {
    Session { locked_time: None, failure_count: None, user: None }
}

fn read(v: Option<usize>) -> SessionRead {
    match v {
        Some(n) => SessionRead::Value(n),
        None => SessionRead::Absent,
    }
}

/// Runs one login request; returns the final action's kind as text and the session after it.
fn login(session: &mut Session, now: usize, account: fn() -> AccountCheck, rows: u64) -> LoginAction {
    let (mut state, mut action) = Index::login_step(
        LoginState::Start,
        LoginEvent::Begin { locked_time: read(session.locked_time), failure_count: read(session.failure_count), now },
    );
    loop {
        let event = match action {
            LoginAction::LockOut { locked_time } => {
                session.locked_time = Some(locked_time);
                session.failure_count = Some(0);
                LoginEvent::Written(Ok(()))
            }
            LoginAction::ResetCounter => {
                session.failure_count = Some(0);
                LoginEvent::Written(Ok(()))
            }
            LoginAction::CheckForm => LoginEvent::FormChecked(Ok(())),
            LoginAction::CheckAccount => LoginEvent::AccountChecked(account()),
            LoginAction::RotateCredentials { account_id, login_count } => {
                assert_eq!((account_id, login_count), (7, 41));
                LoginEvent::Updated(rows)
            }
            LoginAction::FailCounted { failures, error } => {
                session.failure_count = Some(failures);
                return LoginAction::FailCounted { failures, error };
            }
            LoginAction::Succeed { user_id, user_name, role_id } => {
                session.failure_count = None;
                session.locked_time = None;
                session.user = Some((user_id, user_name.clone(), role_id));
                return LoginAction::Succeed { user_id, user_name, role_id };
            }
            other => return other,
        };
        let next = Index::login_step(state, event);
        state = next.0;
        action = next.1;
    }
}

fn wrong() -> AccountCheck {
    AccountCheck::WrongPassword
}
fn missing() -> AccountCheck {
    AccountCheck::NotFound
}
fn right() -> AccountCheck {
    AccountCheck::Matched(Account { id: 7, name: "admin".to_string(), role_id: 2, login_count: 41 })
}

fn stored_admin() -> Option<(usize, String, usize)> {
    Some((7, "admin".to_string(), 2))
}

fn message(a: &LoginAction) -> String {
    match a {
        LoginAction::Fail(e) => e.message(),
        LoginAction::FailCounted { error, .. } => error.message(),
        _ => String::new(),
    }
}

#[test]
fn good_login_succeeds_and_clears_counters() {
    let mut s = Session { locked_time: None, failure_count: Some(2), user: None };
    let a = login(&mut s, 1000, right, 1);
    assert!(matches!(a, LoginAction::Succeed { .. }));
    assert_eq!(s, Session { locked_time: None, failure_count: None, user: stored_admin() });
}

#[test]
fn wrong_password_counts_a_failure() {
    let mut s = fresh();
    let a = login(&mut s, 1000, wrong, 1);
    assert!(matches!(a, LoginAction::FailCounted { failures: 1, error: LoginError::BadCredentials }));
    assert_eq!(message(&a), "用户名称或密码错误");
    assert_eq!(s.failure_count, Some(1));
    let a = login(&mut s, 1000, missing, 1);
    assert!(matches!(a, LoginAction::FailCounted { failures: 2, error: LoginError::BadCredentials }));
}

#[test]
fn failed_update_counts_a_failure() {
    let mut s = fresh();
    let a = login(&mut s, 1000, right, 0);
    assert!(matches!(a, LoginAction::FailCounted { failures: 1, error: LoginError::UpdateFailed }));
    assert_eq!(message(&a), "更新用户信息失败");
    assert!(s.user.is_none());
}

#[test]
fn fifth_attempt_is_refused_even_with_the_right_password() {
    let mut s = fresh();
    for k in 1..=(LOGIN_ERROR_MAX + 1) {
        login(&mut s, 1000, wrong, 1);
        assert_eq!(s.failure_count, Some(k));
    }
    let a = login(&mut s, 1000, right, 1);
    assert!(matches!(a, LoginAction::Fail(LoginError::TooManyFailures)));
    assert_eq!(message(&a), "失败次数过多, 请稍后重试");
    assert_eq!(s.locked_time, Some(1000));
    assert!(s.user.is_none());
}

#[test]
fn limit_of_failures_still_allows_login() {
    let mut s = fresh();
    for _ in 0..LOGIN_ERROR_MAX {
        login(&mut s, 1000, wrong, 1);
    }
    assert!(matches!(login(&mut s, 1000, right, 1), LoginAction::Succeed { .. }));
}

#[test]
fn locked_session_is_refused_until_the_lock_ends() {
    let mut s = fresh();
    for _ in 0..=LOGIN_ERROR_MAX {
        login(&mut s, 1000, wrong, 1);
    }
    let a = login(&mut s, 1000, right, 1);
    assert!(matches!(a, LoginAction::Fail(LoginError::TooManyFailures)));
    assert_eq!(s.locked_time, Some(1000));
    assert_eq!(s.failure_count, Some(0));
    let a = login(&mut s, 1000 + LOGIN_LOCKED_TIME - 1, right, 1);
    assert!(matches!(a, LoginAction::Fail(LoginError::Locked)));
    assert_eq!(message(&a), "登录次败次数过多,请2小时后再次尝试");
    assert_eq!(s.locked_time, Some(1000));
    // the lock has run out: the right password logs in again
    let a = login(&mut s, 1000 + LOGIN_LOCKED_TIME, right, 1);
    assert!(matches!(a, LoginAction::Succeed { .. }));
    assert_eq!(s, Session { locked_time: None, failure_count: None, user: stored_admin() });
}

#[test]
fn expired_lock_still_counts_new_failures() {
    let mut s = Session { locked_time: Some(10), failure_count: Some(0), user: None };
    let a = login(&mut s, 10 + LOGIN_LOCKED_TIME, wrong, 1);
    assert!(matches!(a, LoginAction::FailCounted { failures: 1, error: LoginError::BadCredentials }));
    assert_eq!(s.locked_time, Some(10));
}

#[test]
fn rows_written_by_a_login_and_a_password_change() {
    let row = Index::login_update_row(4, 1700000000, "sec", "hash");
    assert!(!row.is_create);
    assert_eq!(row.build(), "login_count = '5',last_login = '1700000000',updated = '1700000000',secret = 'sec',password = 'hash'");
    let row = Index::password_update_row("hash2", "sec2", 7);
    assert_eq!(row.build(), "password = 'hash2',secret = 'sec2',updated = '7'");
    assert_eq!(Index::id_condition(42), "id = '42'");
    assert_eq!(Index::id_condition(0), "id = '0'");
}

#[test]
fn unreadable_counter_is_reset() {
    let (state, action) = Index::login_step(
        LoginState::Start,
        LoginEvent::Begin { locked_time: SessionRead::Absent, failure_count: SessionRead::Unreadable, now: 5 },
    );
    assert!(matches!(action, LoginAction::ResetCounter));
    let (state2, action2) = Index::login_step(state, LoginEvent::Written(Ok(())));
    assert!(matches!(action2, LoginAction::CheckForm));
    assert!(matches!(state2, LoginState::CheckingForm { failures: 0 }));
}

#[test]
fn session_write_error_is_reported() {
    let (state, _) = Index::login_step(
        LoginState::Start,
        LoginEvent::Begin { locked_time: SessionRead::Unreadable, failure_count: SessionRead::Unreadable, now: 5 },
    );
    let (_, action) = Index::login_step(state, LoginEvent::Written(Err("boom".to_string())));
    match action {
        LoginAction::Fail(LoginError::Session(m)) => assert_eq!(m, "boom"),
        _ => panic!("expected a session error"),
    }
}

#[test]
fn form_error_is_reported() {
    let (_, action) = Index::login_step(LoginState::CheckingForm { failures: 1 }, LoginEvent::FormChecked(Err("bad form".to_string())));
    match action {
        LoginAction::Fail(e) => assert_eq!(e.message(), "bad form"),
        _ => panic!("expected a form error"),
    }
}

fn change_pwd(logged_in: bool, form: Result<(), String>, check: PasswordCheck, rows: u64) -> ChangePwdAction {
    let (mut state, mut action) =
        Index::change_pwd_step(ChangePwdState::Start, ChangePwdEvent::Begin { logged_in, user_id: Some(9) });
    let mut form = Some(form);
    let mut check = Some(check);
    loop {
        let event = match action {
            ChangePwdAction::CheckForm => ChangePwdEvent::FormChecked(form.take().unwrap()),
            ChangePwdAction::CheckAccount { user_id } => {
                assert_eq!(user_id, 9);
                ChangePwdEvent::AccountChecked(check.take().unwrap())
            }
            ChangePwdAction::StoreNewPassword { user_id } => {
                assert_eq!(user_id, 9);
                ChangePwdEvent::Updated(rows)
            }
            other => return other,
        };
        let next = Index::change_pwd_step(state, event);
        state = next.0;
        action = next.1;
    }
}

#[test]
fn change_pwd_outcomes() {
    assert!(matches!(change_pwd(true, Ok(()), PasswordCheck::Matched, 1), ChangePwdAction::Succeed));
    match change_pwd(false, Ok(()), PasswordCheck::Matched, 1) {
        ChangePwdAction::Fail(e) => {
            assert!(matches!(e, ChangePwdError::NoPermission));
            assert_eq!(e.message(), "缺少权限");
        }
        _ => panic!(),
    }
    match change_pwd(true, Err("two passwords differ".to_string()), PasswordCheck::Matched, 1) {
        ChangePwdAction::Fail(e) => assert_eq!(e.message(), "two passwords differ"),
        _ => panic!(),
    }
    match change_pwd(true, Ok(()), PasswordCheck::NotFound, 1) {
        ChangePwdAction::Fail(e) => assert_eq!(e.message(), "检测用户信息失败"),
        _ => panic!(),
    }
    match change_pwd(true, Ok(()), PasswordCheck::WrongPassword, 1) {
        ChangePwdAction::Fail(e) => assert_eq!(e.message(), "旧的密码输入错误"),
        _ => panic!(),
    }
    match change_pwd(true, Ok(()), PasswordCheck::Matched, 0) {
        ChangePwdAction::Fail(e) => assert_eq!(e.message(), "修改密码失败"),
        _ => panic!(),
    }
}

#[test]
fn pages_that_need_a_login() {
    assert!(matches!(Index::change_pwd_page(true), Page::Show));
    assert!(matches!(Index::change_pwd_page(false), Page::RedirectToError));
    assert!(matches!(Index::manage_page(false, SessionRead::Value(3)), ManagePage::RedirectToError));
    assert!(matches!(Index::manage_page(true, SessionRead::Value(3)), ManagePage::Show { role_id: 3 }));
    assert!(matches!(Index::manage_page(true, SessionRead::Absent), ManagePage::Show { role_id: 0 }));
    assert!(matches!(Index::manage_page(true, SessionRead::Unreadable), ManagePage::Show { role_id: 0 }));
    assert_eq!(Index::error_redirect_url(), "/index/error?duration=2");
}

#[test]
fn error_page_duration() {
    assert_eq!(Index::error_duration(Some("2")), 2);
    assert_eq!(Index::error_duration(Some("abc")), 0);
    assert_eq!(Index::error_duration(Some("")), 0);
    assert_eq!(Index::error_duration(None), 0);
}

#[test]
fn successful_login_stores_the_matched_account() {
    let mut s = fresh();
    match login(&mut s, 50, right, 1) {
        LoginAction::Succeed { user_id, user_name, role_id } => {
            assert_eq!((user_id, user_name.as_str(), role_id), (7, "admin", 2));
        }
        _ => panic!("expected success"),
    }
    assert_eq!(s.user, stored_admin());
}

#[test]
fn expired_lock_with_too_many_failures_starts_counting_again() {
    let mut s = Session { locked_time: Some(1000), failure_count: Some(LOGIN_ERROR_MAX + 1), user: None };
    let a = login(&mut s, 1000 + LOGIN_LOCKED_TIME, right, 1);
    assert!(matches!(a, LoginAction::Succeed { .. }));
    let mut s = Session { locked_time: Some(1000), failure_count: Some(LOGIN_ERROR_MAX + 1), user: None };
    let a = login(&mut s, 1000 + LOGIN_LOCKED_TIME, wrong, 1);
    assert!(matches!(a, LoginAction::FailCounted { failures: 1, error: LoginError::BadCredentials }));
}

#[test]
fn unknown_name_and_wrong_password_look_the_same() {
    let mut a = Session { locked_time: None, failure_count: Some(1), user: None };
    let mut b = a.clone();
    let ra = login(&mut a, 5, missing, 1);
    let rb = login(&mut b, 5, wrong, 0);
    assert_eq!(a, b);
    assert_eq!(message(&ra), message(&rb));
    assert!(matches!(ra, LoginAction::FailCounted { failures: 2, .. }));
    assert!(matches!(rb, LoginAction::FailCounted { failures: 2, .. }));
}
