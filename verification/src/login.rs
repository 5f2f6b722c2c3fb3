use vstd::prelude::*;

use crate::text::chars_of;

verus! {

/// How Telegram answered a sign-in with the login code.
#[derive(Clone, Copy, Debug, PartialEq, Eq, Structural)]
pub enum SignInOutcome {
    Accepted,
    /// The account has two-step verification: a password is needed.
    PasswordRequired,
    Refused,
}

/// What happened since the last step of the login.
#[derive(Clone, Copy, Debug, PartialEq, Eq, Structural)]
pub enum LoginEvent {
    Connected,
    /// Whether the loaded session is already authorized.
    Authorization(bool),
    SignIn(SignInOutcome),
    PasswordChecked,
    /// Whether the session file could be written.
    SessionSaved(bool),
}

/// Where the login stands.
#[derive(Clone, Copy, Debug, PartialEq, Eq, Structural)]
pub enum LoginStage {
    Connecting,
    Authorizing,
    SigningIn,
    CheckingPassword,
    Saving,
    Finished,
    Failed,
}

/// What the caller is to do next.
#[derive(Clone, Copy, Debug, PartialEq, Eq, Structural)]
pub enum LoginAction {
    /// Ask Telegram whether the session is authorized.
    CheckAuthorization,
    /// Ask for the phone number, request a login code, ask for it, sign in.
    SignIn,
    /// Ask for the password (showing its hint) and check it.
    AskPassword,
    /// Write the session file.
    SaveSession,
    /// Tell that the session could not be saved; the client is ready anyway.
    WarnUnsaved,
    /// The client is ready.
    Finish,
    /// Give up: the sign-in was refused or the events came out of order.
    Fail,
}

/// The login as a table: each stage and event gives the next stage and
/// what to do.
pub open spec fn login_transition(stage: LoginStage, event: LoginEvent) -> (LoginStage, LoginAction) {
    match (stage, event) {
        (LoginStage::Connecting, LoginEvent::Connected) => (LoginStage::Authorizing, LoginAction::CheckAuthorization),
        (LoginStage::Authorizing, LoginEvent::Authorization(true)) => (LoginStage::Finished, LoginAction::Finish),
        (LoginStage::Authorizing, LoginEvent::Authorization(false)) => (LoginStage::SigningIn, LoginAction::SignIn),
        (LoginStage::SigningIn, LoginEvent::SignIn(SignInOutcome::Accepted)) => (LoginStage::Saving, LoginAction::SaveSession),
        (LoginStage::SigningIn, LoginEvent::SignIn(SignInOutcome::PasswordRequired)) => (LoginStage::CheckingPassword, LoginAction::AskPassword),
        (LoginStage::CheckingPassword, LoginEvent::PasswordChecked) => (LoginStage::Saving, LoginAction::SaveSession),
        (LoginStage::Saving, LoginEvent::SessionSaved(true)) => (LoginStage::Finished, LoginAction::Finish),
        (LoginStage::Saving, LoginEvent::SessionSaved(false)) => (LoginStage::Finished, LoginAction::WarnUnsaved),
        _ => (LoginStage::Failed, LoginAction::Fail),
    }
}

/// One step of connecting to Telegram: an authorized session is used as it
/// is; otherwise the user signs in (with a password when the account asks
/// for one) and the session is saved.
pub fn login_step(stage: LoginStage, event: LoginEvent) -> (r: (LoginStage, LoginAction))
    ensures
        r == login_transition(stage, event),
{
    match (stage, event) {
        (LoginStage::Connecting, LoginEvent::Connected) => (LoginStage::Authorizing, LoginAction::CheckAuthorization),
        (LoginStage::Authorizing, LoginEvent::Authorization(true)) => (LoginStage::Finished, LoginAction::Finish),
        (LoginStage::Authorizing, LoginEvent::Authorization(false)) => (LoginStage::SigningIn, LoginAction::SignIn),
        (LoginStage::SigningIn, LoginEvent::SignIn(SignInOutcome::Accepted)) => (LoginStage::Saving, LoginAction::SaveSession),
        (LoginStage::SigningIn, LoginEvent::SignIn(SignInOutcome::PasswordRequired)) => (LoginStage::CheckingPassword, LoginAction::AskPassword),
        (LoginStage::CheckingPassword, LoginEvent::PasswordChecked) => (LoginStage::Saving, LoginAction::SaveSession),
        (LoginStage::Saving, LoginEvent::SessionSaved(true)) => (LoginStage::Finished, LoginAction::Finish),
        (LoginStage::Saving, LoginEvent::SessionSaved(false)) => (LoginStage::Finished, LoginAction::WarnUnsaved),
        _ => (LoginStage::Failed, LoginAction::Fail),
    }
}

/// The client is declared ready (`Finish` or `WarnUnsaved`) exactly when the
/// session turned out to be authorized already or when saving the signed-in
/// session was attempted, and exactly those steps end the login.
pub proof fn lemma_ready_only_when_authorized(stage: LoginStage, event: LoginEvent)
    ensures
        ({
            let (next, action) = login_transition(stage, event);
            (action == LoginAction::Finish || action == LoginAction::WarnUnsaved) <==> (
                (stage == LoginStage::Authorizing && event == LoginEvent::Authorization(true))
                || (stage == LoginStage::Saving && event is SessionSaved))
        }),
        login_transition(stage, event).0 == LoginStage::Finished
            <==> (login_transition(stage, event).1 == LoginAction::Finish
                || login_transition(stage, event).1 == LoginAction::WarnUnsaved),
{
}

/// The prompt for the password of an account with two-step verification.
pub open spec fn password_prompt_text(hint: Option<Seq<char>>) -> Seq<char> {
    "Enter the password (hint "@ + match hint {
        Some(h) => h,
        None => "None"@,
    } + "): "@
}

pub fn password_prompt(hint: Option<&str>) -> (r: String)
    ensures
        r@ == password_prompt_text(match hint {
            Some(h) => Some(h@),
            None => None,
        }),
{
    let mut text = String::from_str("Enter the password (hint ");
    match hint {
        Some(h) => text.append(h),
        None => text.append("None"),
    }
    text.append("): ");
    text
}

/// The value of a string of decimal digits.
pub open spec fn decimal_value(s: Seq<char>) -> int
    decreases s.len(),
{
    if s.len() == 0 {
        0
    } else {
        decimal_value(s.drop_last()) * 10 + (s.last() as int - '0' as int)
    }
}

/// A non-empty string of ASCII decimal digits.
pub open spec fn is_decimal(s: Seq<char>) -> bool {
    s.len() > 0 && forall|i: int| 0 <= i < s.len() ==> '0' <= #[trigger] s[i] <= '9'
}

/// What `str::parse::<i32>` gives: an optional sign ('+' or '-') followed by
/// at least one decimal digit, whose value must fit in an `i32`.
pub open spec fn parsed_i32(s: Seq<char>) -> Option<i32> {
    let negative = s.len() > 0 && s[0] == '-';
    let body = if s.len() > 0 && (s[0] == '-' || s[0] == '+') { s.drop_first() } else { s };
    let value = if negative { -decimal_value(body) } else { decimal_value(body) };
    if is_decimal(body) && i32::MIN <= value <= i32::MAX {
        Some(value as i32)
    } else {
        None
    }
}

proof fn lemma_decimal_grows(s: Seq<char>, k: int)
    requires
        0 <= k <= s.len(),
        forall|i: int| 0 <= i < s.len() ==> '0' <= #[trigger] s[i] <= '9',
    ensures
        decimal_value(s.subrange(0, k)) <= decimal_value(s),
        0 <= decimal_value(s.subrange(0, k)),
    decreases s.len() - k,
{
    if k < s.len() {
        lemma_decimal_grows(s, k + 1);
        assert(s.subrange(0, k + 1).drop_last() =~= s.subrange(0, k));
    } else {
        assert(s.subrange(0, k) =~= s);
        lemma_decimal_nonneg(s);
    }
}

proof fn lemma_decimal_nonneg(s: Seq<char>)
    requires
        forall|i: int| 0 <= i < s.len() ==> '0' <= #[trigger] s[i] <= '9',
    ensures
        0 <= decimal_value(s),
    decreases s.len(),
{
    if s.len() > 0 {
        lemma_decimal_nonneg(s.drop_last());
        assert('0' <= s[s.len() - 1] <= '9');
    }
}

/// Parses the application id of the Telegram API as `str::parse::<i32>` does.
pub fn parse_api_id(text: &str) -> (r: Option<i32>)
    ensures
        r == parsed_i32(text@),
{
    let chars = chars_of(text);
    let n = chars.len();
    let mut start: usize = 0;
    let mut negative = false;
    if n > 0 && (chars[0] == '-' || chars[0] == '+') {
        negative = chars[0] == '-';
        start = 1;
    }
    let ghost body = if start == 1 { text@.drop_first() } else { text@ };
    assert(body =~= text@.subrange(start as int, n as int));
    if start == n {
        return None;
    }
    let mut value: i64 = 0;
    let mut i: usize = start;
    while i < n
        invariant
            start <= i <= n,
            start < n,
            n == chars@.len(),
            chars@ == text@,
            body =~= text@.subrange(start as int, n as int),
            body == (if text@.len() > 0 && (text@[0] == '-' || text@[0] == '+') { text@.drop_first() } else { text@ }),
            negative == (text@.len() > 0 && text@[0] == '-'),
            forall|j: int| 0 <= j < i - start ==> '0' <= #[trigger] body[j] <= '9',
            value == decimal_value(body.subrange(0, i - start)),
            0 <= value <= 0x8000_0000,
        decreases n - i,
    {
        let c = chars[i];
        assert(body[i - start] == c);
        if c < '0' || c > '9' {
            assert(!('0' <= body[i - start] <= '9'));
            return None;
        }
        let digit = (c as u32 - '0' as u32) as i64;
        assert(body.subrange(0, i + 1 - start).drop_last() =~= body.subrange(0, i - start));
        let next = value * 10 + digit;
        if next > 0x8000_0000 {
            proof {
                if is_decimal(body) {
                    lemma_decimal_grows(body, i + 1 - start);
                }
            }
            return None;
        }
        value = next;
        i = i + 1;
    }
    assert(body.subrange(0, n - start) =~= body);
    if negative {
        Some((-value) as i32)
    } else if value <= 0x7fff_ffff {
        Some(value as i32)
    } else {
        None
    }
}

} // verus!
