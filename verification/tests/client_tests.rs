use sbcli::client::{Action, Client, Event, Stage};
use sbcli::protocol::{ClientError, HttpReply, LoginData, LoginReply, Timezone, EVO};

fn expect_ask(a: Action, notice: Option<&str>, prompt: &str, hidden: bool) {
    match a {
        Action::Ask { notice: n, prompt: p, hidden: h } => {
            assert_eq!(n.as_deref(), notice);
            assert_eq!(p, prompt);
            assert_eq!(h, hidden);
        }
        _ => panic!("expected a prompt"),
    }
}

fn line(s: &str) -> Event {
    Event::Line(s.to_string())
}

fn evo() -> EVO {
    EVO {
        version: "7.1".to_string(),
        hostname: "evo-1".to_string(),
        domain: "example".to_string(),
        uuid: "u".to_string(),
        slingshot: "s".to_string(),
        timezone: Timezone { name: "UTC".to_string(), offset: "+00:00".to_string() },
    }
}

fn accepted() -> Event {
    Event::LoginAnswered(Some(HttpReply {
        status: 200,
        body: Some(LoginReply { status: "success".to_string(), data: Some(LoginData { cookie: 42 }) }),
    }))
}

/// Runs a client up to the shell prompt.
fn logged_in() -> Client {
    let mut c = Client::new();
    c.step(Event::Start);
    c.step(line("10.0.0.5\n"));
    c.step(line("admin\n"));
    c.step(line("pw\n"));
    c.step(accepted());
    c.step(Event::InfoAnswered(Some(HttpReply { status: 200, body: Some(evo()) })));
    assert_eq!(c.stage(), Stage::Shell);
    c
}

#[test]
fn a_full_session() {
    let mut c = Client::new();
    assert_eq!(c.stage(), Stage::Starting);
    expect_ask(c.step(Event::Start), None, "EVO Address: ", false);
    expect_ask(c.step(line("  10.0.0.5 \n")), None, "Username: ", false);
    expect_ask(c.step(line("admin\n")), None, "Password: ", true);
    match c.step(line(" pw\r\n")) {
        Action::Login(req) => {
            assert_eq!(req.url, "http://10.0.0.5/sb-api/api/public/v1.0/auth/session");
            assert_eq!(req.body, "{\"name\":\"admin\",\"password\":\"pw\"}");
        }
        _ => panic!("expected a login"),
    }
    assert_eq!(c.stage(), Stage::LoggingIn);
    match c.step(accepted()) {
        Action::FetchInfo(req) => {
            assert_eq!(req.url, "http://10.0.0.5//v1/evo");
            assert_eq!(req.name, "admin");
            assert_eq!(req.password, "pw");
        }
        _ => panic!("expected a fetch"),
    }
    let a = c.step(Event::InfoAnswered(Some(HttpReply { status: 200, body: Some(evo()) })));
    expect_ask(a, Some("evo-1 | v7.1        Domain: example\n"), "SBCLI: ", false);
    expect_ask(c.step(line("help\n")), Some("Unknown Command"), "SBCLI: ", false);
    assert!(matches!(c.step(line("  LOGOUT now\n")), Action::Quit));
    assert_eq!(c.stage(), Stage::Closed);
}

#[test]
fn closed_client_ignores_everything() {
    let mut c = logged_in();
    assert!(matches!(c.step(line("logout\n")), Action::Quit));
    assert!(matches!(c.step(line("logout\n")), Action::Idle));
    assert!(matches!(c.step(Event::Start), Action::Idle));
    assert_eq!(c.stage(), Stage::Closed);
}

#[test]
fn refused_login_fails() {
    let mut c = Client::new();
    c.step(Event::Start);
    c.step(line("h\n"));
    c.step(line("u\n"));
    c.step(line("p\n"));
    let a = c.step(Event::LoginAnswered(Some(HttpReply { status: 403, body: None })));
    assert!(matches!(a, Action::Fail(ClientError::LoginFailed)));
    assert_eq!(c.stage(), Stage::Closed);
}

#[test]
fn missing_description_fails() {
    let mut c = Client::new();
    c.step(Event::Start);
    c.step(line("h\n"));
    c.step(line("u\n"));
    c.step(line("p\n"));
    c.step(accepted());
    let a = c.step(Event::InfoAnswered(None));
    assert!(matches!(a, Action::Fail(ClientError::InfoUnavailable)));
    assert_eq!(c.stage(), Stage::Closed);
}

#[test]
fn unexpected_events_change_nothing() {
    let mut c = Client::new();
    assert!(matches!(c.step(line("x\n")), Action::Idle));
    assert_eq!(c.stage(), Stage::Starting);
    c.step(Event::Start);
    assert!(matches!(c.step(Event::InfoAnswered(None)), Action::Idle));
    assert_eq!(c.stage(), Stage::AskEvo);
}

#[test]
fn empty_line_at_the_shell_is_unknown() {
    let mut c = logged_in();
    expect_ask(c.step(line("")), Some("Unknown Command"), "SBCLI: ", false);
    expect_ask(c.step(line("\u{3000}\n")), Some("Unknown Command"), "SBCLI: ", false);
    assert!(matches!(c.step(line("\u{a0}logout\u{2003}")), Action::Quit));
}

#[test]
fn surrounding_white_space_is_ignored_at_the_shell() {
    let mut c = logged_in();
    expect_ask(c.step(line(" \t help \u{2028}")), Some("Unknown Command"), "SBCLI: ", false);
    assert!(matches!(c.step(line("\u{3000}\tlogout \r\n")), Action::Quit));
}
