use tg_mcp_server::collect::{effective_limit, reverse_vec, BoundedCollector};
use tg_mcp_server::config::{bind_address, parse_transport, session_path, Transport};
use tg_mcp_server::errors::TgError;
use tg_mcp_server::login::{login_step, password_prompt, LoginAction, LoginEvent, LoginStep};
use tg_mcp_server::text::{blank, decimal_i64, decimal_u64, strip_leading_at_signs, trim_text, white_space};
use tg_mcp_server::tg_structs::default_limit;

fn s(x: &str) -> String {
    x.to_string()
}

#[test]
fn default_limit_is_fifty() {
    assert_eq!(default_limit(), 50);
}

#[test]
fn white_space_matches_std() {
    for c in ['\t', '\n', '\u{b}', '\u{c}', '\r', ' ', '\u{85}', '\u{a0}', '\u{1680}', '\u{2000}',
        '\u{200a}', '\u{2028}', '\u{2029}', '\u{202f}', '\u{205f}', '\u{3000}', 'a', '&', '\u{200b}',
        '\u{feff}', '0', '\u{1f600}']
    {
        assert_eq!(white_space(c), c.is_whitespace(), "char {:?}", c);
    }
}

#[test]
fn blank_texts() {
    assert!(blank(""));
    assert!(blank("   \t\n"));
    assert!(blank("\u{3000}\u{a0}"));
    assert!(!blank(" a "));
    assert!(!blank("durov"));
    for t in ["", " ", " x", "x ", "\u{2003}y", "\u{200b}"] {
        assert_eq!(blank(t), t.trim().is_empty(), "text {:?}", t);
    }
}

#[test]
fn strip_at_signs() {
    assert_eq!(strip_leading_at_signs("@durov"), "durov");
    assert_eq!(strip_leading_at_signs("@@durov"), "durov");
    assert_eq!(strip_leading_at_signs("durov"), "durov");
    assert_eq!(strip_leading_at_signs("a@b@"), "a@b@");
    assert_eq!(strip_leading_at_signs("@"), "");
    assert_eq!(strip_leading_at_signs(""), "");
    assert_eq!(strip_leading_at_signs("&durov"), "&durov");
    for t in ["@@@x", "x@", "@", "@a@", "@é"] {
        assert_eq!(strip_leading_at_signs(t), t.trim_start_matches("@"));
    }
}

#[test]
fn strip_at_signs_twice_is_once() {
    let once = strip_leading_at_signs("@@@@name@");
    let twice = strip_leading_at_signs(&once);
    assert_eq!(once, twice);
    assert_eq!(twice, "name@");
}

#[test]
fn trimming() {
    assert_eq!(trim_text("  12345 \n"), "12345");
    assert_eq!(trim_text("\u{3000}pa ss\t"), "pa ss");
    assert_eq!(trim_text("   "), "");
    assert_eq!(trim_text(""), "");
    for t in ["x", " x", "x ", " a b ", "\r\n", "\u{200b}y\u{200b}"] {
        assert_eq!(trim_text(t), t.trim(), "text {:?}", t);
    }
}

#[test]
fn decimal_formatting() {
    assert_eq!(decimal_u64(0), "0");
    assert_eq!(decimal_u64(7), "7");
    assert_eq!(decimal_u64(120), "120");
    assert_eq!(decimal_u64(u64::MAX), u64::MAX.to_string());
    assert_eq!(decimal_i64(-5), "-5");
    assert_eq!(decimal_i64(i64::MIN), i64::MIN.to_string());
    assert_eq!(decimal_i64(i64::MAX), i64::MAX.to_string());
    assert_eq!(decimal_i64(1_000_000_007), "1000000007");
}

#[test]
fn error_messages() {
    assert_eq!(TgError::UsernameRequired.message(), "username is required when kind='username'");
    assert_eq!(TgError::IdRequired.message(), "id is required when kind='id'");
    assert_eq!(
        TgError::UnsupportedKind(s("phone")).message(),
        "unsupported peer lookup kind: phone (expected 'username' or 'id')"
    );
    assert_eq!(TgError::PeerNotFound(-1001234).message(), "peer with id -1001234 not found");
    assert_eq!(TgError::UsernameNotFound(s("&durov")).message(), "no peer with &durov username");
    assert_eq!(
        TgError::InvalidReplyTo(0).message(),
        "msg_reply_to must be a positive message id, got 0"
    );
    assert_eq!(
        TgError::InvalidReplyTo(-3).message(),
        "msg_reply_to must be a positive message id, got -3"
    );
    assert_eq!(
        TgError::DiscussionMessageMissing(42).message(),
        "failed to resolve discussion message id for 42 message id"
    );
    assert_eq!(
        TgError::DiscussionPeerMissing(42).message(),
        "failed to resolve discussion message peer for 42 message id"
    );
}

#[test]
fn effective_limit_is_the_smaller() {
    assert_eq!(effective_limit(10, 3), 3);
    assert_eq!(effective_limit(3, 10), 3);
    assert_eq!(effective_limit(0, 10), 0);
    assert_eq!(effective_limit(5, 5), 5);
}

fn walk(limit: usize, stream: &[u32]) -> Vec<u32> {
    let mut c = BoundedCollector::new(limit);
    if c.wants_more() {
        for x in stream {
            if !c.push(*x) {
                break;
            }
        }
    }
    c.into_items()
}

#[test]
fn bounded_walk_takes_a_prefix() {
    assert_eq!(walk(2, &[1, 2, 3, 4, 5]), vec![1, 2]);
    assert_eq!(walk(10, &[1, 2, 3]), vec![1, 2, 3]);
    assert_eq!(walk(3, &[]), Vec::<u32>::new());
    assert_eq!(walk(1, &[9, 8]), vec![9]);
}

#[test]
fn bounded_walk_keeps_nothing_at_limit_zero() {
    assert_eq!(walk(0, &[7, 8, 9]), Vec::<u32>::new());
    assert_eq!(walk(0, &[]), Vec::<u32>::new());
    let mut c = BoundedCollector::new(0);
    assert!(!c.wants_more());
    assert!(!c.push(1));
    assert!(c.into_items().is_empty());
}

#[test]
fn a_full_walk_keeps_no_more() {
    let mut c = BoundedCollector::new(1);
    assert!(c.wants_more());
    assert!(!c.push(1));
    assert!(!c.wants_more());
    assert!(!c.push(2));
    assert_eq!(c.into_items(), vec![1]);
}

#[test]
fn push_reports_whether_to_go_on() {
    let mut c = BoundedCollector::new(2);
    assert!(c.push("a"));
    assert!(!c.push("b"));
    assert_eq!(c.into_reversed(), vec!["b", "a"]);
}

#[test]
fn reverse_order() {
    assert_eq!(reverse_vec(vec![1, 2, 3]), vec![3, 2, 1]);
    assert_eq!(reverse_vec(Vec::<i32>::new()), Vec::<i32>::new());
}

#[test]
fn transports() {
    assert_eq!(parse_transport(&s("stdio")), Some(Transport::Stdio));
    assert_eq!(parse_transport(&s("streamable-http")), Some(Transport::Http));
    assert_eq!(parse_transport(&s("http")), Some(Transport::Http));
    assert_eq!(parse_transport(&s("STDIO")), None);
    assert_eq!(parse_transport(&s("")), None);
}

#[test]
fn bind_address_joins_host_and_port() {
    assert_eq!(bind_address(&s("127.0.0.1"), &s("9050")), "127.0.0.1:9050");
    assert_eq!(bind_address(&s("::"), &s("80")), ":::80");
}

#[test]
fn session_file_defaults() {
    assert_eq!(session_path(None), "tg_mcp_server.session");
    assert_eq!(
        session_path(Some(s("./sessions/my_account.session"))),
        "./sessions/my_account.session"
    );
}

fn run_login(events: Vec<LoginEvent>) -> Vec<LoginAction> {
    let mut step = LoginStep::Start;
    let mut actions = Vec::new();
    for ev in events {
        let (next, action) = login_step(step, ev);
        step = next;
        actions.push(action);
    }
    actions
}

#[test]
fn signed_in_session_is_reused() {
    assert_eq!(run_login(vec![LoginEvent::Authorized(true)]), vec![LoginAction::Finish]);
}

#[test]
fn first_run_asks_for_a_code() {
    let actions = run_login(vec![
        LoginEvent::Authorized(false),
        LoginEvent::CodeSent,
        LoginEvent::Entered(s(" 12345\n")),
        LoginEvent::SignedIn,
    ]);
    assert_eq!(
        actions,
        vec![
            LoginAction::RequestCode,
            LoginAction::Prompt(s("Enter the code you received: ")),
            LoginAction::SignIn(s("12345")),
            LoginAction::Finish,
        ]
    );
}

#[test]
fn password_is_asked_with_its_hint() {
    let actions = run_login(vec![
        LoginEvent::Authorized(false),
        LoginEvent::CodeSent,
        LoginEvent::Entered(s("111")),
        LoginEvent::PasswordRequired(Some(s("pet name"))),
        LoginEvent::Entered(s("rex\n")),
        LoginEvent::PasswordAccepted,
    ]);
    assert_eq!(actions[3], LoginAction::Prompt(s("Enter the password (hint pet name): ")));
    assert_eq!(actions[4], LoginAction::CheckPassword(s("rex")));
    assert_eq!(actions[5], LoginAction::Finish);
    assert_eq!(password_prompt(""), "Enter the password (hint ): ");
}

#[test]
fn sign_in_failures_stop() {
    let actions = run_login(vec![
        LoginEvent::Authorized(false),
        LoginEvent::CodeSent,
        LoginEvent::Entered(s("0")),
        LoginEvent::SignInFailed(s("invalid code")),
    ]);
    assert_eq!(actions[3], LoginAction::Fail(s("invalid code")));
    assert_eq!(
        login_step(LoginStep::SigningIn, LoginEvent::PasswordRequired(None)),
        (
            LoginStep::Failed,
            LoginAction::Fail(s("the account asks for a password but Telegram gave no hint"))
        )
    );
    assert_eq!(
        login_step(LoginStep::Done, LoginEvent::CodeSent),
        (LoginStep::Failed, LoginAction::Fail(s("unexpected event during sign-in")))
    );
}
