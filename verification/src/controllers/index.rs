use vstd::prelude::*;
use vstd::string::*;
use crate::controllers::{LOGIN_ERROR_MAX, LOGIN_LOCKED_TIME};
use crate::numbers::{decimal, parse_usize, u64_text, usize_of, usize_text};
use crate::data::data_set::DataSet;

verus! {

/// The handlers of the start, login and account pages.
pub struct Index {}

/// What reading one value from the session gave.
pub enum SessionRead {
    Value(usize),
    Absent,
    Unreadable,
}

/// An account whose password matched: its id, the name it was looked up by, its role
/// and the number of logins on record.
pub struct Account {
    pub id: usize,
    pub name: String,
    pub role_id: usize,
    pub login_count: usize,
}

/// What looking up an account by name and comparing the hashed password gave.
pub enum AccountCheck {
    NotFound,
    WrongPassword,
    Matched(Account),
}

/// Why a login was refused.
pub enum LoginError {
    /// The session is still locked after too many failures.
    Locked,
    /// This attempt found too many recorded failures and locked the session.
    TooManyFailures,
    /// Writing to the session failed, with this message.
    Session(String),
    /// The posted form was refused, with this message.
    Form(String),
    /// No such account, or the wrong password.
    BadCredentials,
    /// The account row could not be updated.
    UpdateFailed,
}

/// Where a login request stands.
pub enum LoginState {
    /// Nothing read yet.
    Start,
    /// The lock time is being written after too many failures.
    LockingOut,
    /// The failure counter is being reset: it could not be read, or a lock it caused has run out.
    ResettingCounter,
    /// The form is being checked; `failures` failed logins are on record.
    CheckingForm { failures: usize },
    /// The account is being looked up.
    CheckingAccount { failures: usize },
    /// The matched account's secret and password hash are being renewed.
    Rotating { failures: usize, account: Account },
    /// A response has been decided.
    Done,
}

/// What the caller reports back to the login machine.
pub enum LoginEvent {
    /// The session's lock time and failure counter, and the time now, in seconds.
    Begin { locked_time: SessionRead, failure_count: SessionRead, now: usize },
    /// The result of the session write asked for.
    Written(Result<(), String>),
    /// The result of checking the posted form.
    FormChecked(Result<(), String>),
    /// The result of the account lookup.
    AccountChecked(AccountCheck),
    /// How many rows the account update changed.
    Updated(u64),
}

/// What the caller does next for a login request.
pub enum LoginAction {
    /// Write `locked_time` into the session and reset its failure counter to 0, so that
    /// the lock runs out after `LOGIN_LOCKED_TIME`; then report `Written`.
    LockOut { locked_time: usize },
    /// Write a failure counter of 0 into the session, then report `Written`.
    ResetCounter,
    /// Check the posted form, then report `FormChecked`.
    CheckForm,
    /// Look the account up, then report `AccountChecked`.
    CheckAccount,
    /// Renew the secret and password hash of the account `account_id`, which has
    /// `login_count` logins on record, then report `Updated`.
    RotateCredentials { account_id: usize, login_count: usize },
    /// Answer with this error; nothing more is written.
    Fail(LoginError),
    /// Store `failures` as the session's failure counter, then answer with `error`.
    FailCounted { failures: usize, error: LoginError },
    /// Clear the failure counter and the lock time, store this user, and answer success.
    Succeed { user_id: usize, user_name: String, role_id: usize },
}

impl LoginState {
    /// The failure counts that a login in progress carries are within the limit.
    pub open spec fn well_formed(&self) -> bool {
        match *self {
            LoginState::CheckingForm { failures } => failures <= LOGIN_ERROR_MAX,
            LoginState::CheckingAccount { failures } => failures <= LOGIN_ERROR_MAX,
            LoginState::Rotating { failures, .. } => failures <= LOGIN_ERROR_MAX,
            _ => true,
        }
    }

    /// Whether this state waits for `event`.
    pub open spec fn accepts(&self, event: LoginEvent) -> bool {
        match *self {
            LoginState::Start => event is Begin,
            LoginState::LockingOut => event is Written,
            LoginState::ResettingCounter => event is Written,
            LoginState::CheckingForm { .. } => event is FormChecked,
            LoginState::CheckingAccount { .. } => event is AccountChecked,
            LoginState::Rotating { .. } => event is Updated,
            LoginState::Done => false,
        }
    }
}

/// Whether a session locked at `locked_time` is still locked at `now`.
pub open spec fn still_locked(locked_time: usize, now: usize) -> bool {
    now - locked_time < LOGIN_LOCKED_TIME
}

/// The login machine: from a state and the event it waits for, the next state and
/// what the caller does next. A session still locked is refused; one that records too
/// many failures is locked, unless a lock it already served has run out, in which case
/// its counter starts again from 0.
pub open spec fn login_transition(state: LoginState, event: LoginEvent) -> (LoginState, LoginAction) {
    match (state, event) {
        (LoginState::Start, LoginEvent::Begin { locked_time, failure_count, now }) => {
            if locked_time matches SessionRead::Value(t) && still_locked(t, now) {
                (LoginState::Done, LoginAction::Fail(LoginError::Locked))
            } else {
                match failure_count {
                    SessionRead::Value(n) => if n > LOGIN_ERROR_MAX {
                        if locked_time is Value {
                            (LoginState::ResettingCounter, LoginAction::ResetCounter)
                        } else {
                            (LoginState::LockingOut, LoginAction::LockOut { locked_time: now })
                        }
                    } else {
                        (LoginState::CheckingForm { failures: n }, LoginAction::CheckForm)
                    },
                    SessionRead::Absent => (LoginState::CheckingForm { failures: 0 }, LoginAction::CheckForm),
                    SessionRead::Unreadable => (LoginState::ResettingCounter, LoginAction::ResetCounter),
                }
            }
        },
        (LoginState::LockingOut, LoginEvent::Written(r)) => match r {
            Ok(_) => (LoginState::Done, LoginAction::Fail(LoginError::TooManyFailures)),
            Err(m) => (LoginState::Done, LoginAction::Fail(LoginError::Session(m))),
        },
        (LoginState::ResettingCounter, LoginEvent::Written(r)) => match r {
            Ok(_) => (LoginState::CheckingForm { failures: 0 }, LoginAction::CheckForm),
            Err(m) => (LoginState::Done, LoginAction::Fail(LoginError::Session(m))),
        },
        (LoginState::CheckingForm { failures }, LoginEvent::FormChecked(r)) => match r {
            Ok(_) => (LoginState::CheckingAccount { failures }, LoginAction::CheckAccount),
            Err(m) => (LoginState::Done, LoginAction::Fail(LoginError::Form(m))),
        },
        (LoginState::CheckingAccount { failures }, LoginEvent::AccountChecked(c)) => match c {
            AccountCheck::Matched(account) => (
                LoginState::Rotating { failures, account },
                LoginAction::RotateCredentials { account_id: account.id, login_count: account.login_count },
            ),
            _ => (
                LoginState::Done,
                LoginAction::FailCounted { failures: (failures + 1) as usize, error: LoginError::BadCredentials },
            ),
        },
        (LoginState::Rotating { failures, account }, LoginEvent::Updated(rows)) => if rows == 0 {
            (
                LoginState::Done,
                LoginAction::FailCounted { failures: (failures + 1) as usize, error: LoginError::UpdateFailed },
            )
        } else {
            (
                LoginState::Done,
                LoginAction::Succeed { user_id: account.id, user_name: account.name, role_id: account.role_id },
            )
        },
        _ => (LoginState::Done, LoginAction::Fail(LoginError::BadCredentials)),
    }
}

/// The login-related part of a session: the lock time, the failure counter, and the
/// stored user (id, name and role), if any.
pub struct SessionModel {
    pub locked_time: Option<usize>,
    pub failure_count: Option<usize>,
    pub user: Option<(usize, String, usize)>,
}

/// What reading a stored value gives.
pub open spec fn read_value(v: Option<usize>) -> SessionRead {
    match v {
        Some(n) => SessionRead::Value(n),
        None => SessionRead::Absent,
    }
}

/// The session after the caller performed `action`.
pub open spec fn apply_action(session: SessionModel, action: LoginAction) -> SessionModel {
    match action {
        LoginAction::LockOut { locked_time } => SessionModel {
            locked_time: Some(locked_time),
            failure_count: Some(0),
            ..session
        },
        LoginAction::ResetCounter => SessionModel { failure_count: Some(0), ..session },
        LoginAction::FailCounted { failures, .. } => SessionModel { failure_count: Some(failures), ..session },
        LoginAction::Succeed { user_id, user_name, role_id } => SessionModel {
            locked_time: None,
            failure_count: None,
            user: Some((user_id, user_name, role_id)),
        },
        _ => session,
    }
}

/// Whether `action` answers the request.
pub open spec fn is_answer(action: LoginAction) -> bool {
    action is Fail || action is FailCounted || action is Succeed
}

/// The event that reports `action` done, where session writes succeed, the form check
/// gives `form`, the account lookup gives `account` and the update changes `rows` rows.
pub open spec fn reply(action: LoginAction, form: Result<(), String>, account: AccountCheck, rows: u64) -> LoginEvent {
    match action {
        LoginAction::CheckForm => LoginEvent::FormChecked(form),
        LoginAction::CheckAccount => LoginEvent::AccountChecked(account),
        LoginAction::RotateCredentials { .. } => LoginEvent::Updated(rows),
        _ => LoginEvent::Written(Ok(())),
    }
}

/// Runs the machine from `state`, whose pending action is `action`, for at most
/// `fuel` more steps; gives the final session and the answer.
pub open spec fn drive(
    state: LoginState,
    action: LoginAction,
    session: SessionModel,
    form: Result<(), String>,
    account: AccountCheck,
    rows: u64,
    fuel: nat,
) -> (SessionModel, LoginAction)
    decreases fuel,
{
    let session2 = apply_action(session, action);
    if is_answer(action) || fuel == 0 {
        (session2, action)
    } else {
        let next = login_transition(state, reply(action, form, account, rows));
        drive(next.0, next.1, session2, form, account, rows, (fuel - 1) as nat)
    }
}

/// One whole login request against `session` at time `now`: the session after it and
/// the answer.
pub open spec fn attempt(
    session: SessionModel,
    now: usize,
    form: Result<(), String>,
    account: AccountCheck,
    rows: u64,
) -> (SessionModel, LoginAction) {
    let first = login_transition(
        LoginState::Start,
        LoginEvent::Begin {
            locked_time: read_value(session.locked_time),
            failure_count: read_value(session.failure_count),
            now,
        },
    );
    drive(first.0, first.1, session, form, account, rows, 4)
}

/// Whether the session is locked at `now`.
pub open spec fn locked_at(session: SessionModel, now: usize) -> bool {
    session.locked_time matches Some(t) && t <= now && still_locked(t, now)
}

/// The failures on record, an absent counter counting as none.
pub open spec fn failures_of(session: SessionModel) -> nat {
    match session.failure_count {
        Some(n) => n as nat,
        None => 0,
    }
}

/// The failures that count at `now`: none once a lock has run out with too many on record.
pub open spec fn counted_failures(session: SessionModel) -> nat {
    if session.locked_time is Some && failures_of(session) > LOGIN_ERROR_MAX {
        0
    } else {
        failures_of(session)
    }
}

/// Whether a login request logs in: the session is not locked, the failures that count
/// are within the limit, the form is accepted, the password matches and the account
/// row is updated.
pub open spec fn login_allowed(
    session: SessionModel,
    now: usize,
    form: Result<(), String>,
    account: AccountCheck,
    rows: u64,
) -> bool {
    &&& !locked_at(session, now)
    &&& counted_failures(session) <= LOGIN_ERROR_MAX
    &&& form is Ok
    &&& account is Matched
    &&& rows > 0
}

/// A login succeeds exactly when every check passes, and it then stores the matched
/// account's id, the name it was looked up by, and its role, clearing the counter and the
/// lock time; a refused request leaves the stored user as it was.
pub proof fn lemma_login_succeeds_iff_allowed(
    session: SessionModel,
    now: usize,
    form: Result<(), String>,
    account: AccountCheck,
    rows: u64,
)
    requires
        session.locked_time matches Some(t) ==> t <= now,
    ensures
        (attempt(session, now, form, account, rows).1 is Succeed) == login_allowed(session, now, form, account, rows),
        login_allowed(session, now, form, account, rows) ==> attempt(session, now, form, account, rows) == (
            SessionModel {
                locked_time: None,
                failure_count: None,
                user: Some((account->Matched_0.id, account->Matched_0.name, account->Matched_0.role_id)),
            },
            LoginAction::Succeed {
                user_id: account->Matched_0.id,
                user_name: account->Matched_0.name,
                role_id: account->Matched_0.role_id,
            },
        ),
        !login_allowed(session, now, form, account, rows) ==> attempt(session, now, form, account, rows).0.user
            == session.user,
{
    reveal_with_fuel(drive, 5);
}

/// A matched password renews the credentials of the very account that matched: the
/// row to update is the matched account's id, with its own login count, whatever the
/// failures on record; and a request that did not match renews nothing.
pub proof fn lemma_renewal_targets_matched_account(failures: usize, account: Account, other: AccountCheck)
    requires
        failures <= LOGIN_ERROR_MAX,
        !(other is Matched),
    ensures
        login_transition(
            LoginState::CheckingAccount { failures },
            LoginEvent::AccountChecked(AccountCheck::Matched(account)),
        ).1 == (LoginAction::RotateCredentials { account_id: account.id, login_count: account.login_count }),
        login_transition(
            LoginState::CheckingAccount { failures },
            LoginEvent::AccountChecked(AccountCheck::Matched(account)),
        ).0 == (LoginState::Rotating { failures, account }),
        !(login_transition(LoginState::CheckingAccount { failures }, LoginEvent::AccountChecked(other)).1 is RotateCredentials),
{
}

/// The remaining answers of a login: a refused form answers with the form's message and
/// writes nothing; an account update that changes no row is refused as an update
/// failure and counts one more failure; a failure counter that cannot be read is reset
/// to 0 before the form is checked, and a failed session write is reported with its message.
pub proof fn lemma_login_other_answers(failures: usize, account: Account, message: String, now: usize, lock: SessionRead)
    requires
        failures <= LOGIN_ERROR_MAX,
        lock matches SessionRead::Value(t) ==> t <= now && !still_locked(t, now),
    ensures
        login_transition(LoginState::CheckingForm { failures }, LoginEvent::FormChecked(Err(message)))
            == (LoginState::Done, LoginAction::Fail(LoginError::Form(message))),
        login_transition(LoginState::Rotating { failures, account }, LoginEvent::Updated(0)) == (
            LoginState::Done,
            LoginAction::FailCounted { failures: (failures + 1) as usize, error: LoginError::UpdateFailed },
        ),
        login_transition(
            LoginState::Start,
            LoginEvent::Begin { locked_time: lock, failure_count: SessionRead::Unreadable, now },
        ) == (LoginState::ResettingCounter, LoginAction::ResetCounter),
        login_transition(LoginState::ResettingCounter, LoginEvent::Written(Ok(())))
            == (LoginState::CheckingForm { failures: 0 }, LoginAction::CheckForm),
        login_transition(LoginState::ResettingCounter, LoginEvent::Written(Err(message)))
            == (LoginState::Done, LoginAction::Fail(LoginError::Session(message))),
        login_transition(LoginState::LockingOut, LoginEvent::Written(Err(message)))
            == (LoginState::Done, LoginAction::Fail(LoginError::Session(message))),
{
}

/// An unknown name and a wrong password get the same answer and leave the same session,
/// and neither touches the account: the answer does not depend on the update's result,
/// so no update is made. The reply does not tell whether the name exists.
pub proof fn lemma_unknown_name_looks_like_wrong_password(
    session: SessionModel,
    now: usize,
    form: Result<(), String>,
    rows1: u64,
    rows2: u64,
)
    requires
        session.locked_time matches Some(t) ==> t <= now,
    ensures
        attempt(session, now, form, AccountCheck::NotFound, rows1)
            == attempt(session, now, form, AccountCheck::WrongPassword, rows2),
{
    reveal_with_fuel(drive, 5);
}

/// A login against a session that is locked is refused, and the session is left as it was.
pub proof fn lemma_locked_session_is_refused(
    session: SessionModel,
    now: usize,
    form: Result<(), String>,
    account: AccountCheck,
    rows: u64,
)
    requires
        locked_at(session, now),
    ensures
        attempt(session, now, form, account, rows) == (session, LoginAction::Fail(LoginError::Locked)),
{
}

/// A login against a session that has no lock and records more failures than allowed
/// is refused, whatever the password, and locks the session from `now` on, starting a
/// new count of failures.
pub proof fn lemma_too_many_failures_locks(
    session: SessionModel,
    now: usize,
    form: Result<(), String>,
    account: AccountCheck,
    rows: u64,
)
    requires
        session.locked_time is None,
        failures_of(session) > LOGIN_ERROR_MAX,
    ensures
        attempt(session, now, form, account, rows) == (
            SessionModel { locked_time: Some(now), failure_count: Some(0), user: session.user },
            LoginAction::Fail(LoginError::TooManyFailures),
        ),
{
    reveal_with_fuel(drive, 5);
}

/// A session whose lock has run out with too many failures on record starts counting
/// again: the request goes as it would with no failures on record.
pub proof fn lemma_expired_lock_resets_counter(
    session: SessionModel,
    now: usize,
    form: Result<(), String>,
    account: AccountCheck,
    rows: u64,
)
    requires
        session.locked_time matches Some(t) && t <= now && !still_locked(t, now),
        failures_of(session) > LOGIN_ERROR_MAX,
    ensures
        attempt(session, now, form, account, rows) == attempt(
            SessionModel { failure_count: Some(0), ..session },
            now,
            form,
            account,
            rows,
        ),
{
    reveal_with_fuel(drive, 5);
}

/// A wrong name or password on an unlocked session within the limit is refused and
/// records one more failure.
pub proof fn lemma_bad_credentials_count(session: SessionModel, now: usize, account: AccountCheck, rows: u64)
    requires
        !locked_at(session, now),
        session.locked_time matches Some(t) ==> t <= now,
        failures_of(session) <= LOGIN_ERROR_MAX,
        !(account is Matched),
    ensures
        attempt(session, now, Ok(()), account, rows) == (
            SessionModel { failure_count: Some((failures_of(session) + 1) as usize), ..session },
            LoginAction::FailCounted {
                failures: (failures_of(session) + 1) as usize,
                error: LoginError::BadCredentials,
            },
        ),
{
    reveal_with_fuel(drive, 5);
}

/// The right password on an unlocked session within the limit logs in, once the account
/// row is updated: the matched account is stored, and the counter and the lock time are cleared.
pub proof fn lemma_good_credentials_succeed(session: SessionModel, now: usize, account: Account, rows: u64)
    requires
        !locked_at(session, now),
        session.locked_time matches Some(t) ==> t <= now,
        failures_of(session) <= LOGIN_ERROR_MAX,
        rows > 0,
    ensures
        attempt(session, now, Ok(()), AccountCheck::Matched(account), rows) == (
            SessionModel {
                locked_time: None,
                failure_count: None,
                user: Some((account.id, account.name, account.role_id)),
            },
            LoginAction::Succeed { user_id: account.id, user_name: account.name, role_id: account.role_id },
        ),
{
    reveal_with_fuel(drive, 5);
}

/// A lock runs out: after a request that locked the session at `locked_at_time`, later
/// requests are refused for `LOGIN_LOCKED_TIME` seconds, and from then on the right
/// password logs in again.
pub proof fn lemma_lock_expires(
    session: SessionModel,
    locked_at_time: usize,
    later: usize,
    form: Result<(), String>,
    account: AccountCheck,
    rows: u64,
    user: Account,
)
    requires
        session.locked_time is None,
        failures_of(session) > LOGIN_ERROR_MAX,
        locked_at_time <= later,
    ensures
        later - locked_at_time < LOGIN_LOCKED_TIME ==> attempt(
            attempt(session, locked_at_time, form, account, rows).0,
            later,
            Ok(()),
            AccountCheck::Matched(user),
            1,
        ).1 == LoginAction::Fail(LoginError::Locked),
        later - locked_at_time >= LOGIN_LOCKED_TIME ==> attempt(
            attempt(session, locked_at_time, form, account, rows).0,
            later,
            Ok(()),
            AccountCheck::Matched(user),
            1,
        ).1 is Succeed,
{
    lemma_too_many_failures_locks(session, locked_at_time, form, account, rows);
    let locked = attempt(session, locked_at_time, form, account, rows).0;
    if later - locked_at_time < LOGIN_LOCKED_TIME {
        lemma_locked_session_is_refused(locked, later, Ok(()), AccountCheck::Matched(user), 1);
    } else {
        lemma_good_credentials_succeed(locked, later, user, 1);
    }
}

/// The session after `k` logins with a wrong password, starting from a fresh one.
pub open spec fn after_failed_logins(k: nat, now: usize) -> SessionModel
    decreases k,
{
    if k == 0 {
        SessionModel { locked_time: None, failure_count: None, user: None }
    } else {
        attempt(after_failed_logins((k - 1) as nat, now), now, Ok(()), AccountCheck::WrongPassword, 0).0
    }
}

/// A fresh session counts each failed login, up to one past the limit, and is never
/// locked on the way.
pub proof fn lemma_failures_accumulate(k: nat, now: usize)
    requires
        k <= LOGIN_ERROR_MAX + 1,
    ensures
        after_failed_logins(k, now).locked_time is None,
        after_failed_logins(k, now).user is None,
        failures_of(after_failed_logins(k, now)) == k,
    decreases k,
{
    if k > 0 {
        lemma_failures_accumulate((k - 1) as nat, now);
        lemma_bad_credentials_count(after_failed_logins((k - 1) as nat, now), now, AccountCheck::WrongPassword, 0);
    }
}

/// After as many failed logins as the limit allows, the right password still logs in.
/// One failure more, and the next request is refused whatever the password and locks
/// the session; the right password is refused until `LOGIN_LOCKED_TIME` seconds have
/// passed, and logs in from then on.
pub proof fn lemma_limit_of_failed_logins(now: usize, later: usize, user: Account, rows: u64)
    requires
        rows > 0,
        now <= later,
    ensures
        attempt(after_failed_logins(LOGIN_ERROR_MAX as nat, now), now, Ok(()), AccountCheck::Matched(user), rows).1 is Succeed,
        attempt(after_failed_logins((LOGIN_ERROR_MAX + 1) as nat, now), now, Ok(()), AccountCheck::Matched(user), rows).1
            == LoginAction::Fail(LoginError::TooManyFailures),
        later - now < LOGIN_LOCKED_TIME ==> attempt(
            attempt(after_failed_logins((LOGIN_ERROR_MAX + 1) as nat, now), now, Ok(()), AccountCheck::Matched(user), rows).0,
            later,
            Ok(()),
            AccountCheck::Matched(user),
            1,
        ).1 == LoginAction::Fail(LoginError::Locked),
        later - now >= LOGIN_LOCKED_TIME ==> attempt(
            attempt(after_failed_logins((LOGIN_ERROR_MAX + 1) as nat, now), now, Ok(()), AccountCheck::Matched(user), rows).0,
            later,
            Ok(()),
            AccountCheck::Matched(user),
            1,
        ).1 is Succeed,
{
    lemma_failures_accumulate(LOGIN_ERROR_MAX as nat, now);
    lemma_failures_accumulate((LOGIN_ERROR_MAX + 1) as nat, now);
    lemma_good_credentials_succeed(after_failed_logins(LOGIN_ERROR_MAX as nat, now), now, user, rows);
    let over = after_failed_logins((LOGIN_ERROR_MAX + 1) as nat, now);
    lemma_too_many_failures_locks(over, now, Ok(()), AccountCheck::Matched(user), rows);
    lemma_lock_expires(over, now, later, Ok(()), AccountCheck::Matched(user), rows, user);
}

/// The text a refused login answers with.
pub open spec fn login_error_text(e: LoginError) -> Seq<char> {
    match e {
        LoginError::Locked => "登录次败次数过多,请2小时后再次尝试"@,
        LoginError::TooManyFailures => "失败次数过多, 请稍后重试"@,
        LoginError::Session(m) => m@,
        LoginError::Form(m) => m@,
        LoginError::BadCredentials => "用户名称或密码错误"@,
        LoginError::UpdateFailed => "更新用户信息失败"@,
    }
}

impl LoginError {
    /// The message the error response carries.
    pub fn message(&self) -> (m: String)
        ensures
            m@ == login_error_text(*self),
    {
        match self {
            LoginError::Locked => String::from_str("登录次败次数过多,请2小时后再次尝试"),
            LoginError::TooManyFailures => String::from_str("失败次数过多, 请稍后重试"),
            LoginError::Session(m) => m.clone(),
            LoginError::Form(m) => m.clone(),
            LoginError::BadCredentials => String::from_str("用户名称或密码错误"),
            LoginError::UpdateFailed => String::from_str("更新用户信息失败"),
        }
    }
}

/// Why a password change was refused.
pub enum ChangePwdError {
    /// Nobody is logged in.
    NoPermission,
    /// The posted form was refused, with this message.
    Form(String),
    /// The logged-in user's account row was not found.
    AccountMissing,
    /// The old password does not match.
    WrongOldPassword,
    /// The account row could not be updated.
    UpdateFailed,
}

/// The text a refused password change answers with.
pub open spec fn change_pwd_error_text(e: ChangePwdError) -> Seq<char> {
    match e {
        ChangePwdError::NoPermission => "缺少权限"@,
        ChangePwdError::Form(m) => m@,
        ChangePwdError::AccountMissing => "检测用户信息失败"@,
        ChangePwdError::WrongOldPassword => "旧的密码输入错误"@,
        ChangePwdError::UpdateFailed => "修改密码失败"@,
    }
}

impl ChangePwdError {
    /// The message the error response carries.
    pub fn message(&self) -> (m: String)
        ensures
            m@ == change_pwd_error_text(*self),
    {
        match self {
            ChangePwdError::NoPermission => String::from_str("缺少权限"),
            ChangePwdError::Form(m) => m.clone(),
            ChangePwdError::AccountMissing => String::from_str("检测用户信息失败"),
            ChangePwdError::WrongOldPassword => String::from_str("旧的密码输入错误"),
            ChangePwdError::UpdateFailed => String::from_str("修改密码失败"),
        }
    }
}

/// What looking up the logged-in user's row and comparing the old password gave.
pub enum PasswordCheck {
    NotFound,
    WrongPassword,
    Matched,
}

/// Where a password change stands; `user_id` is the logged-in user's id from the session.
pub enum ChangePwdState {
    Start,
    CheckingForm { user_id: usize },
    CheckingAccount { user_id: usize },
    Updating { user_id: usize },
    Done,
}

/// What the caller reports back to the password-change machine.
pub enum ChangePwdEvent {
    /// Whether a user is logged in, and the user id the session holds.
    Begin { logged_in: bool, user_id: Option<usize> },
    /// The result of checking the posted form.
    FormChecked(Result<(), String>),
    /// The result of looking up the user's row and comparing the old password.
    AccountChecked(PasswordCheck),
    /// How many rows the update changed.
    Updated(u64),
}

/// What the caller does next for a password change.
pub enum ChangePwdAction {
    CheckForm,
    /// Look up the row of the account `user_id` and compare the old password, then report `AccountChecked`.
    CheckAccount { user_id: usize },
    /// Store a new secret and the new password's hash in the account `user_id`, then report `Updated`.
    StoreNewPassword { user_id: usize },
    Fail(ChangePwdError),
    Succeed,
}

impl ChangePwdState {
    /// Whether this state waits for `event`. A logged-in session must hold a user id.
    pub open spec fn accepts(&self, event: ChangePwdEvent) -> bool {
        match *self {
            ChangePwdState::Start => event matches ChangePwdEvent::Begin { logged_in, user_id }
                && (logged_in ==> user_id is Some),
            ChangePwdState::CheckingForm { .. } => event is FormChecked,
            ChangePwdState::CheckingAccount { .. } => event is AccountChecked,
            ChangePwdState::Updating { .. } => event is Updated,
            ChangePwdState::Done => false,
        }
    }
}

/// The password-change machine.
pub open spec fn change_pwd_transition(state: ChangePwdState, event: ChangePwdEvent) -> (ChangePwdState, ChangePwdAction) {
    match (state, event) {
        (ChangePwdState::Start, ChangePwdEvent::Begin { logged_in, user_id }) => if logged_in {
            (ChangePwdState::CheckingForm { user_id: user_id->Some_0 }, ChangePwdAction::CheckForm)
        } else {
            (ChangePwdState::Done, ChangePwdAction::Fail(ChangePwdError::NoPermission))
        },
        (ChangePwdState::CheckingForm { user_id }, ChangePwdEvent::FormChecked(r)) => match r {
            Ok(_) => (ChangePwdState::CheckingAccount { user_id }, ChangePwdAction::CheckAccount { user_id }),
            Err(m) => (ChangePwdState::Done, ChangePwdAction::Fail(ChangePwdError::Form(m))),
        },
        (ChangePwdState::CheckingAccount { user_id }, ChangePwdEvent::AccountChecked(c)) => match c {
            PasswordCheck::NotFound => (ChangePwdState::Done, ChangePwdAction::Fail(ChangePwdError::AccountMissing)),
            PasswordCheck::WrongPassword => (
                ChangePwdState::Done,
                ChangePwdAction::Fail(ChangePwdError::WrongOldPassword),
            ),
            PasswordCheck::Matched => (ChangePwdState::Updating { user_id }, ChangePwdAction::StoreNewPassword { user_id }),
        },
        (ChangePwdState::Updating { .. }, ChangePwdEvent::Updated(rows)) => if rows == 0 {
            (ChangePwdState::Done, ChangePwdAction::Fail(ChangePwdError::UpdateFailed))
        } else {
            (ChangePwdState::Done, ChangePwdAction::Succeed)
        },
        _ => (ChangePwdState::Done, ChangePwdAction::Fail(ChangePwdError::NoPermission)),
    }
}

/// A whole password change by the session's user `user_id`, where the form check gives
/// `form`, the lookup gives `check` and the update changes `rows` rows: the account the
/// new password is stored in, if any, and the answer.
pub open spec fn change_pwd_outcome(
    logged_in: bool,
    user_id: usize,
    form: Result<(), String>,
    check: PasswordCheck,
    rows: u64,
) -> (Option<usize>, ChangePwdAction) {
    let a = change_pwd_transition(ChangePwdState::Start, ChangePwdEvent::Begin { logged_in, user_id: Some(user_id) });
    if !(a.1 is CheckForm) {
        (None, a.1)
    } else {
        let b = change_pwd_transition(a.0, ChangePwdEvent::FormChecked(form));
        if !(b.1 is CheckAccount) {
            (None, b.1)
        } else {
            let c = change_pwd_transition(b.0, ChangePwdEvent::AccountChecked(check));
            match c.1 {
                ChangePwdAction::StoreNewPassword { user_id: target } => (
                    Some(target),
                    change_pwd_transition(c.0, ChangePwdEvent::Updated(rows)).1,
                ),
                _ => (None, c.1),
            }
        }
    }
}

/// A password change succeeds exactly when a user is logged in, the form is accepted,
/// the old password matches and the update changes a row; otherwise the first check
/// that fails gives the error. The old password is checked against, and the new one
/// stored in, the account of the session's user, and nothing is stored unless the
/// old password matched.
pub proof fn lemma_change_pwd_outcome(
    logged_in: bool,
    user_id: usize,
    form: Result<(), String>,
    check: PasswordCheck,
    rows: u64,
)
    ensures
        change_pwd_outcome(logged_in, user_id, form, check, rows).1 == (
            if !logged_in {
                ChangePwdAction::Fail(ChangePwdError::NoPermission)
            } else if form is Err {
                ChangePwdAction::Fail(ChangePwdError::Form(form->Err_0))
            } else if check is NotFound {
                ChangePwdAction::Fail(ChangePwdError::AccountMissing)
            } else if check is WrongPassword {
                ChangePwdAction::Fail(ChangePwdError::WrongOldPassword)
            } else if rows == 0 {
                ChangePwdAction::Fail(ChangePwdError::UpdateFailed)
            } else {
                ChangePwdAction::Succeed
            }
        ),
        change_pwd_outcome(logged_in, user_id, form, check, rows).0 == (
            if logged_in && form is Ok && check is Matched { Some(user_id) } else { None }
        ),
        logged_in && form is Ok ==> change_pwd_transition(
            change_pwd_transition(ChangePwdState::Start, (ChangePwdEvent::Begin { logged_in, user_id: Some(user_id) })).0,
            ChangePwdEvent::FormChecked(form),
        ).1 == (ChangePwdAction::CheckAccount { user_id }),
{
}

/// What a page that needs a login shows.
pub enum Page {
    /// Send the visitor to the error page.
    RedirectToError,
    Show,
}

/// What the main management page shows.
pub enum ManagePage {
    RedirectToError,
    /// Show the menus of this role.
    Show { role_id: usize },
}

impl Index {
    /// One step of the login handler. The caller reads the session, performs each
    /// action and reports its result, until the machine is `Done`.
    /// A lock time later than `now` is not accepted.
    pub fn login_step(state: LoginState, event: LoginEvent) -> (res: (LoginState, LoginAction))
        requires
            state.well_formed(),
            state.accepts(event),
            event matches LoginEvent::Begin { locked_time: SessionRead::Value(t), now, .. } ==> t <= now,
        ensures
            res == login_transition(state, event),
            res.0.well_formed(),
            (state is CheckingAccount && event is AccountChecked && event->AccountChecked_0 is Matched) ==> res.1 == (
                LoginAction::RotateCredentials {
                    account_id: event->AccountChecked_0->Matched_0.id,
                    login_count: event->AccountChecked_0->Matched_0.login_count,
                }),
            (state is Rotating && event is Updated && event->Updated_0 > 0) ==> res.1 == (LoginAction::Succeed {
                user_id: state->Rotating_account.id,
                user_name: state->Rotating_account.name,
                role_id: state->Rotating_account.role_id,
            }),
    {
        match (state, event) {
            (LoginState::Start, LoginEvent::Begin { locked_time, failure_count, now }) => {
                if let SessionRead::Value(t) = locked_time {
                    if now - t < LOGIN_LOCKED_TIME {
                        return (LoginState::Done, LoginAction::Fail(LoginError::Locked));
                    }
                }
                match failure_count {
                    SessionRead::Value(n) => if n > LOGIN_ERROR_MAX {
                        if let SessionRead::Value(_) = locked_time {
                            (LoginState::ResettingCounter, LoginAction::ResetCounter)
                        } else {
                            (LoginState::LockingOut, LoginAction::LockOut { locked_time: now })
                        }
                    } else {
                        (LoginState::CheckingForm { failures: n }, LoginAction::CheckForm)
                    },
                    SessionRead::Absent => (LoginState::CheckingForm { failures: 0 }, LoginAction::CheckForm),
                    SessionRead::Unreadable => (LoginState::ResettingCounter, LoginAction::ResetCounter),
                }
            },
            (LoginState::LockingOut, LoginEvent::Written(r)) => match r {
                Ok(_) => (LoginState::Done, LoginAction::Fail(LoginError::TooManyFailures)),
                Err(m) => (LoginState::Done, LoginAction::Fail(LoginError::Session(m))),
            },
            (LoginState::ResettingCounter, LoginEvent::Written(r)) => match r {
                Ok(_) => (LoginState::CheckingForm { failures: 0 }, LoginAction::CheckForm),
                Err(m) => (LoginState::Done, LoginAction::Fail(LoginError::Session(m))),
            },
            (LoginState::CheckingForm { failures }, LoginEvent::FormChecked(r)) => match r {
                Ok(_) => (LoginState::CheckingAccount { failures }, LoginAction::CheckAccount),
                Err(m) => (LoginState::Done, LoginAction::Fail(LoginError::Form(m))),
            },
            (LoginState::CheckingAccount { failures }, LoginEvent::AccountChecked(c)) => match c {
                AccountCheck::Matched(account) => {
                    let account_id = account.id;
                    let login_count = account.login_count;
                    (LoginState::Rotating { failures, account }, LoginAction::RotateCredentials { account_id, login_count })
                },
                _ => (
                    LoginState::Done,
                    LoginAction::FailCounted { failures: failures + 1, error: LoginError::BadCredentials },
                ),
            },
            (LoginState::Rotating { failures, account }, LoginEvent::Updated(rows)) => if rows == 0 {
                (
                    LoginState::Done,
                    LoginAction::FailCounted { failures: failures + 1, error: LoginError::UpdateFailed },
                )
            } else {
                (
                    LoginState::Done,
                    LoginAction::Succeed { user_id: account.id, user_name: account.name, role_id: account.role_id },
                )
            },
            _ => vstd::pervasive::unreached(),
        }
    }
    /// One step of the password-change handler.
    pub fn change_pwd_step(state: ChangePwdState, event: ChangePwdEvent) -> (res: (ChangePwdState, ChangePwdAction))
        requires
            state.accepts(event),
        ensures
            res == change_pwd_transition(state, event),
    {
        match (state, event) {
            (ChangePwdState::Start, ChangePwdEvent::Begin { logged_in, user_id }) => if logged_in {
                match user_id {
                    Some(user_id) => (ChangePwdState::CheckingForm { user_id }, ChangePwdAction::CheckForm),
                    None => vstd::pervasive::unreached(),
                }
            } else {
                (ChangePwdState::Done, ChangePwdAction::Fail(ChangePwdError::NoPermission))
            },
            (ChangePwdState::CheckingForm { user_id }, ChangePwdEvent::FormChecked(r)) => match r {
                Ok(_) => (ChangePwdState::CheckingAccount { user_id }, ChangePwdAction::CheckAccount { user_id }),
                Err(m) => (ChangePwdState::Done, ChangePwdAction::Fail(ChangePwdError::Form(m))),
            },
            (ChangePwdState::CheckingAccount { user_id }, ChangePwdEvent::AccountChecked(c)) => match c {
                PasswordCheck::NotFound => (
                    ChangePwdState::Done,
                    ChangePwdAction::Fail(ChangePwdError::AccountMissing),
                ),
                PasswordCheck::WrongPassword => (
                    ChangePwdState::Done,
                    ChangePwdAction::Fail(ChangePwdError::WrongOldPassword),
                ),
                PasswordCheck::Matched => (
                    ChangePwdState::Updating { user_id },
                    ChangePwdAction::StoreNewPassword { user_id },
                ),
            },
            (ChangePwdState::Updating { .. }, ChangePwdEvent::Updated(rows)) => if rows == 0 {
                (ChangePwdState::Done, ChangePwdAction::Fail(ChangePwdError::UpdateFailed))
            } else {
                (ChangePwdState::Done, ChangePwdAction::Succeed)
            },
            _ => vstd::pervasive::unreached(),
        }
    }

    /// The page to which a visitor without a login is sent.
    pub fn error_redirect_url() -> (url: &'static str)
        ensures
            url@ == "/index/error?duration=2"@,
    {
        "/index/error?duration=2"
    }

    /// The password-change page: shown to a logged-in user, else a redirect.
    pub fn change_pwd_page(logged_in: bool) -> (page: Page)
        ensures
            page == (if logged_in { Page::Show } else { Page::RedirectToError }),
    {
        if !logged_in {
            return Page::RedirectToError;
        }
        Page::Show
    }

    /// The management page: for a logged-in user, the menus of the role stored in the
    /// session, role 0 where none can be read; else a redirect.
    pub fn manage_page(logged_in: bool, role: SessionRead) -> (page: ManagePage)
        ensures
            page == (if !logged_in {
                ManagePage::RedirectToError
            } else {
                match role {
                    SessionRead::Value(n) => ManagePage::Show { role_id: n },
                    _ => ManagePage::Show { role_id: 0 },
                }
            }),
    {
        if !logged_in {
            return ManagePage::RedirectToError;
        }
        let mut role_id: usize = 0;
        if let SessionRead::Value(n) = role {
            role_id = n;
        }
        ManagePage::Show { role_id }
    }

    /// The delay shown on the error page: the `duration` query value read as a
    /// number, 0 where it is missing or not a number.
    pub fn error_duration(duration: Option<&str>) -> (seconds: usize)
        ensures
            seconds == match duration {
                Some(v) => match usize_of(v@) {
                    Some(n) => n,
                    None => 0,
                },
                None => 0,
            },
    {
        if let Some(v) = duration {
            if let Some(n) = parse_usize(v) {
                n
            } else {
                0
            }
        } else {
            0
        }
    }
    /// The row a successful login writes into the account: one more login, the login
    /// and update time `now`, the new secret and the new password hash.
    pub fn login_update_row(login_count: usize, now: u64, secret: &str, password: &str) -> (row: DataSet<'static>)
        requires
            login_count < usize::MAX,
        ensures
            !row.is_create,
            row.well_formed(),
            row.field_texts() == seq!["login_count"@, "last_login"@, "updated"@, "secret"@, "password"@],
            row.value_texts() == seq![
                decimal((login_count + 1) as nat),
                decimal(now as nat),
                decimal(now as nat),
                secret@,
                password@,
            ],
    {
        proof {
            reveal_strlit("id");
            reveal_strlit("login_count");
            reveal_strlit("last_login");
            reveal_strlit("updated");
            reveal_strlit("secret");
            reveal_strlit("password");
            assert("id"@.len() == 2 && "login_count"@.len() == 11 && "last_login"@.len() == 10);
            assert("updated"@.len() == 7 && "secret"@.len() == 6 && "password"@.len() == 8);
        }
        let count_text = usize_text(login_count + 1);
        let now_text = u64_text(now);
        let mut row = DataSet::update();
        row.set("login_count", count_text.as_str());
        row.set("last_login", now_text.as_str());
        row.set("updated", now_text.as_str());
        row.set("secret", secret);
        row.set("password", password);
        proof {
            assert(row.field_texts() =~= seq!["login_count"@, "last_login"@, "updated"@, "secret"@, "password"@]);
            assert(row.value_texts() =~= seq![
                decimal((login_count + 1) as nat),
                decimal(now as nat),
                decimal(now as nat),
                secret@,
                password@,
            ]);
        }
        row
    }

    /// The row a password change writes into the account: the new password hash, the
    /// new secret and the update time `now`.
    pub fn password_update_row(password: &str, secret: &str, now: u64) -> (row: DataSet<'static>)
        ensures
            !row.is_create,
            row.well_formed(),
            row.field_texts() == seq!["password"@, "secret"@, "updated"@],
            row.value_texts() == seq![password@, secret@, decimal(now as nat)],
    {
        proof {
            reveal_strlit("id");
            reveal_strlit("updated");
            reveal_strlit("secret");
            reveal_strlit("password");
            assert("id"@.len() == 2 && "updated"@.len() == 7);
            assert("secret"@.len() == 6 && "password"@.len() == 8);
        }
        let now_text = u64_text(now);
        let mut row = DataSet::update();
        row.set("password", password);
        row.set("secret", secret);
        row.set("updated", now_text.as_str());
        proof {
            assert(row.field_texts() =~= seq!["password"@, "secret"@, "updated"@]);
            assert(row.value_texts() =~= seq![password@, secret@, decimal(now as nat)]);
        }
        row
    }

    /// The condition that selects the account with this id: `id = '<id>'`.
    pub fn id_condition(id: usize) -> (cond: String)
        ensures
            cond@ == "id = '"@ + decimal(id as nat) + "'"@,
    {
        let mut cond = String::from_str("id = '");
        let id_text = usize_text(id);
        cond.append(id_text.as_str());
        cond.append("'");
        cond
    }
}

} // verus!
