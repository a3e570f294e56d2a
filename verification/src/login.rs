use vstd::prelude::*;
use crate::text::{trim_text, trimmed};

verus! {

/// Where the sign-in of the Telegram client stands.
#[derive(Debug, Clone, Copy, PartialEq, Eq)]
pub enum LoginStep {
    /// Nothing is known yet of the stored session.
    Start,
    /// A login code has been asked for.
    RequestingCode,
    /// The user is asked for the code.
    AwaitingCode,
    /// The code is being checked.
    SigningIn,
    /// The user is asked for the account's password.
    AwaitingPassword,
    /// The password is being checked.
    CheckingPassword,
    /// The client is signed in.
    Done,
    /// The sign-in cannot go on.
    Failed,
}

/// What came back from the last action.
#[derive(Debug, Clone, PartialEq, Eq)]
pub enum LoginEvent {
    /// Whether the stored session is already signed in.
    Authorized(bool),
    /// Telegram sent a login code to the phone.
    CodeSent,
    /// The line the user typed at a prompt, as it was read.
    Entered(String),
    /// The code was accepted.
    SignedIn,
    /// The account has a password; Telegram may give a hint for it.
    PasswordRequired(Option<String>),
    /// The code was refused, for the reason given.
    SignInFailed(String),
    /// The password was accepted.
    PasswordAccepted,
}

/// What to do next.
#[derive(Debug, Clone, PartialEq, Eq)]
pub enum LoginAction {
    /// Ask Telegram to send a login code to the configured phone number.
    RequestCode,
    /// Show this text and read a line.
    Prompt(String),
    /// Sign in with this code.
    SignIn(String),
    /// Check this password.
    CheckPassword(String),
    /// The client is ready.
    Finish,
    /// Stop the program with this text.
    Fail(String),
}

/// The abstract value of a [`LoginAction`].
pub enum LoginActionView {
    RequestCode,
    Prompt(Seq<char>),
    SignIn(Seq<char>),
    CheckPassword(Seq<char>),
    Finish,
    Fail(Seq<char>),
}

impl View for LoginAction {
    type V = LoginActionView;

    open spec fn view(&self) -> LoginActionView {
        match self {
            LoginAction::RequestCode => LoginActionView::RequestCode,
            LoginAction::Prompt(s) => LoginActionView::Prompt(s@),
            LoginAction::SignIn(s) => LoginActionView::SignIn(s@),
            LoginAction::CheckPassword(s) => LoginActionView::CheckPassword(s@),
            LoginAction::Finish => LoginActionView::Finish,
            LoginAction::Fail(s) => LoginActionView::Fail(s@),
        }
    }
}

/// The prompt for the login code.
pub open spec fn code_prompt_text() -> Seq<char> {
    "Enter the code you received: "@
}

/// The prompt for the account's password, showing its hint.
pub open spec fn password_prompt_text(hint: Seq<char>) -> Seq<char> {
    "Enter the password (hint "@ + hint + "): "@
}

/// Why sign-in stops when the account asks for a password without a hint.
pub open spec fn missing_hint_text() -> Seq<char> {
    "the account asks for a password but Telegram gave no hint"@
}

/// Why sign-in stops when an event comes that the step does not expect.
pub open spec fn unexpected_event_text() -> Seq<char> {
    "unexpected event during sign-in"@
}

/// The sign-in exchange: a session that is signed in is used as it is; otherwise a code is
/// asked for, read and checked, and a password is read and checked when the account has one.
/// Codes and passwords are read without white space at either end. A refused code stops the
/// program with Telegram's reason.
pub open spec fn login_step_spec(step: LoginStep, ev: LoginEvent) -> (LoginStep, LoginActionView) {
    let unexpected = (LoginStep::Failed, LoginActionView::Fail(unexpected_event_text()));
    match step {
        LoginStep::Start => match ev {
            LoginEvent::Authorized(true) => (LoginStep::Done, LoginActionView::Finish),
            LoginEvent::Authorized(false) => (LoginStep::RequestingCode, LoginActionView::RequestCode),
            _ => unexpected,
        },
        LoginStep::RequestingCode => match ev {
            LoginEvent::CodeSent => (LoginStep::AwaitingCode, LoginActionView::Prompt(code_prompt_text())),
            _ => unexpected,
        },
        LoginStep::AwaitingCode => match ev {
            LoginEvent::Entered(line) => (LoginStep::SigningIn, LoginActionView::SignIn(trimmed(line@))),
            _ => unexpected,
        },
        LoginStep::SigningIn => match ev {
            LoginEvent::SignedIn => (LoginStep::Done, LoginActionView::Finish),
            LoginEvent::PasswordRequired(Some(hint)) => (
                LoginStep::AwaitingPassword,
                LoginActionView::Prompt(password_prompt_text(hint@)),
            ),
            LoginEvent::PasswordRequired(None) => (LoginStep::Failed, LoginActionView::Fail(missing_hint_text())),
            LoginEvent::SignInFailed(reason) => (LoginStep::Failed, LoginActionView::Fail(reason@)),
            _ => unexpected,
        },
        LoginStep::AwaitingPassword => match ev {
            LoginEvent::Entered(line) => (
                LoginStep::CheckingPassword,
                LoginActionView::CheckPassword(trimmed(line@)),
            ),
            _ => unexpected,
        },
        LoginStep::CheckingPassword => match ev {
            LoginEvent::PasswordAccepted => (LoginStep::Done, LoginActionView::Finish),
            _ => unexpected,
        },
        LoginStep::Done => unexpected,
        LoginStep::Failed => unexpected,
    }
}

/// The prompt for the account's password, showing its hint.
pub fn password_prompt(hint: &str) -> (r: String)
    ensures
        r@ == password_prompt_text(hint@),
{
    let mut r = String::from_str("Enter the password (hint ");
    r.append(hint);
    r.append("): ");
    r
}

fn unexpected() -> (r: (LoginStep, LoginAction))
    ensures
        r.0 == LoginStep::Failed,
        r.1@ == LoginActionView::Fail(unexpected_event_text()),
{
    (LoginStep::Failed, LoginAction::Fail(String::from_str("unexpected event during sign-in")))
}

/// The next step of the sign-in and the action it calls for, given what the last action gave.
pub fn login_step(step: LoginStep, ev: LoginEvent) -> (r: (LoginStep, LoginAction))
    ensures
        (r.0, r.1@) == login_step_spec(step, ev),
{
    match step {
        LoginStep::Start => match ev {
            LoginEvent::Authorized(true) => (LoginStep::Done, LoginAction::Finish),
            LoginEvent::Authorized(false) => (LoginStep::RequestingCode, LoginAction::RequestCode),
            _ => unexpected(),
        },
        LoginStep::RequestingCode => match ev {
            LoginEvent::CodeSent => (
                LoginStep::AwaitingCode,
                LoginAction::Prompt(String::from_str("Enter the code you received: ")),
            ),
            _ => unexpected(),
        },
        LoginStep::AwaitingCode => match ev {
            LoginEvent::Entered(line) => (LoginStep::SigningIn, LoginAction::SignIn(trim_text(line.as_str()))),
            _ => unexpected(),
        },
        LoginStep::SigningIn => match ev {
            LoginEvent::SignedIn => (LoginStep::Done, LoginAction::Finish),
            LoginEvent::PasswordRequired(Some(hint)) => (
                LoginStep::AwaitingPassword,
                LoginAction::Prompt(password_prompt(hint.as_str())),
            ),
            LoginEvent::PasswordRequired(None) => (
                LoginStep::Failed,
                LoginAction::Fail(
                    String::from_str("the account asks for a password but Telegram gave no hint"),
                ),
            ),
            LoginEvent::SignInFailed(reason) => (LoginStep::Failed, LoginAction::Fail(reason)),
            _ => unexpected(),
        },
        LoginStep::AwaitingPassword => match ev {
            LoginEvent::Entered(line) => (
                LoginStep::CheckingPassword,
                LoginAction::CheckPassword(trim_text(line.as_str())),
            ),
            _ => unexpected(),
        },
        LoginStep::CheckingPassword => match ev {
            LoginEvent::PasswordAccepted => (LoginStep::Done, LoginAction::Finish),
            _ => unexpected(),
        },
        LoginStep::Done => unexpected(),
        LoginStep::Failed => unexpected(),
    }
}

/// The actions a sign-in takes from `step` when the given events come back in turn.
pub open spec fn login_actions(step: LoginStep, events: Seq<LoginEvent>) -> Seq<LoginActionView>
    decreases events.len(),
{
    if events.len() == 0 {
        Seq::empty()
    } else {
        let (next, action) = login_step_spec(step, events[0]);
        seq![action] + login_actions(next, events.drop_first())
    }
}

proof fn lemma_no_code_after_start(step: LoginStep, events: Seq<LoginEvent>)
    requires
        step != LoginStep::Start,
    ensures
        forall|i: int|
            0 <= i < login_actions(step, events).len() ==> !(login_actions(step, events)[i] is RequestCode),
    decreases events.len(),
{
    if events.len() > 0 {
        let (next, action) = login_step_spec(step, events[0]);
        lemma_no_code_after_start(next, events.drop_first());
        let rest = login_actions(next, events.drop_first());
        assert(login_actions(step, events) == seq![action] + rest);
        assert forall|i: int| 0 <= i < login_actions(step, events).len() implies !(login_actions(
            step,
            events,
        )[i] is RequestCode) by {
            if i > 0 {
                assert(login_actions(step, events)[i] == rest[i - 1]);
            }
        }
    }
}

/// A session that is already signed in is used as it is: no login code is ever asked for,
/// whatever comes after, and the first action is to finish. A login code is only ever asked
/// for at the start, for a session that is not signed in.
pub proof fn law_signed_in_session_is_reused(events: Seq<LoginEvent>, step: LoginStep, ev: LoginEvent)
    ensures
        events.len() > 0 && events[0] == LoginEvent::Authorized(true) ==> {
            &&& login_actions(LoginStep::Start, events)[0] == LoginActionView::Finish
            &&& forall|i: int|
                0 <= i < login_actions(LoginStep::Start, events).len() ==> !(login_actions(
                    LoginStep::Start,
                    events,
                )[i] is RequestCode)
        },
        login_step_spec(step, ev).1 is RequestCode ==> step == LoginStep::Start && ev
            == LoginEvent::Authorized(false),
        login_step_spec(step, ev).0 != LoginStep::Start,
{
    if events.len() > 0 && events[0] == LoginEvent::Authorized(true) {
        lemma_no_code_after_start(LoginStep::Done, events.drop_first());
        let rest = login_actions(LoginStep::Done, events.drop_first());
        assert(login_actions(LoginStep::Start, events) == seq![LoginActionView::Finish] + rest);
        assert forall|i: int|
            0 <= i < login_actions(LoginStep::Start, events).len() implies !(login_actions(
            LoginStep::Start,
            events,
        )[i] is RequestCode) by {
            if i > 0 {
                assert(login_actions(LoginStep::Start, events)[i] == rest[i - 1]);
            }
        }
    }
}

} // verus!
