use sbcli::protocol::{
    banner, evo_info, evo_url, info_request, login_body, login_cookie, login_request, open_session,
    Auth, ClientError, HttpReply, LoginData, LoginReply, Session, Timezone, API_EVO, API_SESSION,
    APPLICATION_JSON, EVO,
};

fn auth(name: &str, password: &str) -> Auth {
    Auth { name: name.to_string(), password: password.to_string() }
}

fn reply(status: u16, text: &str, cookie: Option<u32>) -> Option<HttpReply<LoginReply>> {
    Some(HttpReply {
        status,
        body: Some(LoginReply {
            status: text.to_string(),
            data: cookie.map(|cookie| LoginData { cookie }),
        }),
    })
}

fn evo() -> EVO {
    EVO {
        version: "7.1".to_string(),
        hostname: "evo-1".to_string(),
        domain: "example".to_string(),
        uuid: "u".to_string(),
        slingshot: "s".to_string(),
        timezone: Timezone { name: "UTC".to_string(), offset: "+00:00".to_string() },
    }
}

#[test]
fn urls_join_address_and_path() {
    assert_eq!(evo_url("127.0.0.1", API_SESSION), "http://127.0.0.1/sb-api/api/public/v1.0/auth/session");
    assert_eq!(evo_url("10.0.0.5", API_EVO), "http://10.0.0.5/v1/evo");
    assert_eq!(APPLICATION_JSON, "application/json");
}

#[test]
fn login_body_frames_the_members() {
    assert_eq!(login_body("\"a\"", "\"b\""), "{\"name\":\"a\",\"password\":\"b\"}");
}

#[test]
fn login_request_matches_the_documented_body() {
    let req = login_request("127.0.0.1", &auth("q", "q"));
    assert_eq!(req.url, "http://127.0.0.1/sb-api/api/public/v1.0/auth/session");
    assert_eq!(req.body, "{\"name\":\"q\",\"password\":\"q\"}");
}

#[test]
fn login_request_escapes_the_credentials() {
    let req = login_request("192.168.1.25", &auth("SNS-AD\\editor1", "a\"b\n\u{1}"));
    assert_eq!(req.body, "{\"name\":\"SNS-AD\\\\editor1\",\"password\":\"a\\\"b\\n\\u0001\"}");
}

#[test]
fn accepted_login_gives_the_cookie() {
    assert_eq!(login_cookie(reply(200, "success", Some(1447413700))), Some(1447413700));
}

#[test]
fn refused_logins_give_nothing() {
    assert_eq!(login_cookie(None), None);
    assert_eq!(login_cookie(reply(500, "success", Some(1))), None);
    assert_eq!(login_cookie(reply(200, "failure", Some(1))), None);
    assert_eq!(login_cookie(reply(200, "success", None)), None);
    assert_eq!(login_cookie(Some(HttpReply { status: 200, body: None })), None);
}

#[test]
fn session_id_is_the_cookie_in_decimal() {
    let s = open_session("127.0.0.1".to_string(), auth("q", "w"), reply(200, "success", Some(1447413700))).unwrap();
    assert_eq!(s.id, "1447413700");
    assert_eq!(s.evo, "127.0.0.1");
    assert_eq!(s.auth.name, "q");
    assert_eq!(s.auth.password, "w");
}

#[test]
fn refused_session_is_login_failed() {
    let r = open_session("h".to_string(), auth("q", "w"), reply(200, "error", Some(1)));
    assert!(matches!(r, Err(ClientError::LoginFailed)));
    assert_eq!(ClientError::LoginFailed.message(), "Unable to login");
}

#[test]
fn info_request_uses_the_session() {
    let s = Session { id: "1".to_string(), evo: "10.0.0.5".to_string(), auth: auth("admin", "pw") };
    let r = info_request(&s);
    assert_eq!(r.url, "http://10.0.0.5//v1/evo");
    assert_eq!(r.name, "admin");
    assert_eq!(r.password, "pw");
}

#[test]
fn info_reply_is_read() {
    let info = evo_info(Some(HttpReply { status: 200, body: Some(evo()) })).unwrap();
    assert_eq!(info.hostname, "evo-1");
    assert!(matches!(evo_info(None), Err(ClientError::InfoUnavailable)));
    assert!(matches!(evo_info(Some(HttpReply { status: 404, body: Some(evo()) })), Err(ClientError::InfoUnavailable)));
    assert!(matches!(evo_info(Some(HttpReply { status: 200, body: None })), Err(ClientError::InfoUnavailable)));
    assert_eq!(ClientError::InfoUnavailable.message(), "Unable to retrieve EVO information");
}

#[test]
fn banner_lays_out_the_description() {
    assert_eq!(banner(&evo()), "evo-1 | v7.1        Domain: example");
}

#[test]
fn login_body_reads_back_as_the_credentials() {
    for (name, password) in [("q", "q"), ("SNS-AD\\editor1", "p\"w"), ("\u{1}\u{1f}\t", "\u{e9}\u{7f}/")] {
        let req = login_request("h", &auth(name, password));
        let v: serde_json::Value = serde_json::from_str(&req.body).unwrap();
        let obj = v.as_object().unwrap();
        assert_eq!(obj.len(), 2);
        assert_eq!(obj["name"].as_str().unwrap(), name);
        assert_eq!(obj["password"].as_str().unwrap(), password);
        assert!(req.body.starts_with("{\"name\":"));
    }
}
