//! The ShareBrowser EVO public API as the client uses it: request URLs and
//! bodies, and what the server's replies mean.

use vstd::prelude::*;
use vstd::string::StringExecFns;
use vstd::pervasive::unreached;
use crate::text::{
    decimal, decimal_string, json_read_string, json_string, law_json_string_reads_back,
    to_json_string,
};

verus! {

/// Media type of the JSON bodies exchanged with the server.
pub const APPLICATION_JSON: &'static str = "application/json";

/// Path of the session endpoint (log in).
pub const API_SESSION: &'static str = "/sb-api/api/public/v1.0/auth/session";

/// Path of the endpoint that describes the EVO.
pub const API_EVO: &'static str = "/v1/evo";

/// The credentials sent to log in.
pub struct Auth {
    pub name: String,
    pub password: String,
}

/// An open session with an EVO.
pub struct Session {
    /// The session cookie, in decimal.
    pub id: String,
    /// The EVO's address.
    pub evo: String,
    /// The credentials the session was opened with.
    pub auth: Auth,
}

/// The time zone an EVO reports.
pub struct Timezone {
    pub name: String,
    pub offset: String,
}

/// What an EVO reports about itself.
pub struct EVO {
    pub version: String,
    pub hostname: String,
    pub domain: String,
    pub uuid: String,
    pub slingshot: String,
    pub timezone: Timezone,
}

/// The `data` member of a login reply.
pub struct LoginData {
    pub cookie: u32,
}

/// The body of the server's reply to a login.
pub struct LoginReply {
    pub status: String,
    pub data: Option<LoginData>,
}

/// An HTTP reply: its status code, and its body when it could be read as
/// the expected JSON document.
pub struct HttpReply<T> {
    pub status: u16,
    pub body: Option<T>,
}

/// A login request: where to post it and what to post.
pub struct LoginRequest {
    pub url: String,
    pub body: String,
}

/// A request for the EVO's description: where to get it and the basic-auth
/// credentials to send.
pub struct InfoRequest {
    pub url: String,
    pub name: String,
    pub password: String,
}

/// Why talking to the server failed.
#[derive(PartialEq, Eq, Structural, Debug, Clone, Copy)]
pub enum ClientError {
    /// The server did not accept the login.
    LoginFailed,
    /// The EVO's description could not be had.
    InfoUnavailable,
}

impl ClientError {
    /// The text reported for the error.
    pub fn message(&self) -> (m: &'static str)
        ensures
            *self == ClientError::LoginFailed ==> m@ == "Unable to login"@,
            *self == ClientError::InfoUnavailable ==> m@ == "Unable to retrieve EVO information"@,
    {
        match self {
            ClientError::LoginFailed => "Unable to login",
            ClientError::InfoUnavailable => "Unable to retrieve EVO information",
        }
    }
}

/// `http://{evo}{path}`: the URL of `path` on the EVO at `evo`.
pub open spec fn url_text(evo: Seq<char>, path: Seq<char>) -> Seq<char> {
    "http://"@ + evo + path
}

/// `{"name":<name>,"password":<password>}`, with the two members already
/// written as JSON string literals.
pub open spec fn login_body_text(name_json: Seq<char>, password_json: Seq<char>) -> Seq<char> {
    "{\"name\":"@ + name_json + ",\"password\":"@ + password_json + "}"@
}

/// A login is accepted exactly when the request went through with status
/// 200 and a body whose `status` is the text `success` and that has a
/// `data` member; the cookie is then the one in `data`.
pub proof fn law_login_accepted_exactly_when(reply: Option<HttpReply<LoginReply>>)
    ensures
        accepted_cookie(reply) is Some <==> {
            &&& reply is Some
            &&& reply.unwrap().status == 200
            &&& reply.unwrap().body is Some
            &&& reply.unwrap().body.unwrap().status@ == seq!['s', 'u', 'c', 'c', 'e', 's', 's']
            &&& reply.unwrap().body.unwrap().data is Some
        },
        accepted_cookie(reply) is Some ==> accepted_cookie(reply).unwrap()
            == reply.unwrap().body.unwrap().data.unwrap().cookie,
{
    reveal_strlit("success");
    assert("success"@ =~= seq!['s', 'u', 'c', 'c', 'e', 's', 's']);
}

/// A URL is `http://`, then the whole address, then the whole path.
pub proof fn law_url_holds_address_and_path(evo: Seq<char>, path: Seq<char>)
    ensures
        url_text(evo, path).len() == 7 + evo.len() + path.len(),
        url_text(evo, path).subrange(0, 7) == seq!['h', 't', 't', 'p', ':', '/', '/'],
        url_text(evo, path).subrange(7, 7 + evo.len() as int) == evo,
        url_text(evo, path).subrange(7 + evo.len() as int, 7 + evo.len() + path.len() as int)
            == path,
{
    reveal_strlit("http://");
    let u = url_text(evo, path);
    assert(u.subrange(0, 7) =~= seq!['h', 't', 't', 'p', ':', '/', '/']);
    assert(u.subrange(7, 7 + evo.len() as int) =~= evo);
    assert(u.subrange(7 + evo.len() as int, 7 + evo.len() + path.len() as int) =~= path);
}

/// The eight spaces and `Domain: ` between the version and the domain.
pub open spec fn domain_label() -> Seq<char> {
    seq![' ', ' ', ' ', ' ', ' ', ' ', ' ', ' ', 'D', 'o', 'm', 'a', 'i', 'n', ':', ' ']
}

/// The banner holds each field in full: the whole hostname, ` | v`, the
/// whole version, eight spaces and `Domain: `, and the whole domain.
pub proof fn law_banner_holds_every_field(info: EVO)
    ensures
        ({
            let b = banner_text(info);
            let h = info.hostname@;
            let v = info.version@;
            let d = info.domain@;
            let hl = h.len() as int;
            let vl = v.len() as int;
            &&& b.len() == hl + vl + d.len() + 20
            &&& b.subrange(0, hl) == h
            &&& b.subrange(hl, hl + 4) == seq![' ', '|', ' ', 'v']
            &&& b.subrange(hl + 4, hl + 4 + vl) == v
            &&& b.subrange(hl + 4 + vl, hl + 20 + vl) == domain_label()
            &&& b.subrange(hl + 20 + vl, b.len() as int) == d
        }),
{
    reveal_strlit(" | v");
    reveal_strlit("        Domain: ");
    let b = banner_text(info);
    let h = info.hostname@;
    let v = info.version@;
    let d = info.domain@;
    let hl = h.len() as int;
    let vl = v.len() as int;
    assert(b.subrange(0, hl) =~= h);
    assert(b.subrange(hl, hl + 4) =~= seq![' ', '|', ' ', 'v']);
    assert(b.subrange(hl + 4, hl + 4 + vl) =~= v);
    assert(b.subrange(hl + 4 + vl, hl + 20 + vl) =~= domain_label());
    assert(b.subrange(hl + 20 + vl, b.len() as int) =~= d);
}

/// Reads a login body back: the name and password of
/// `{"name":<string>,"password":<string>}`, written without white space,
/// with exactly these two members in this order.
pub open spec fn login_body_fields(b: Seq<char>) -> Option<(Seq<char>, Seq<char>)> {
    let p1 = "{\"name\":"@;
    let p2 = ",\"password\":"@;
    if b.len() >= p1.len() && b.take(p1.len() as int) == p1 {
        match json_read_string(b.skip(p1.len() as int)) {
            Some((name, n1)) => {
                let r = b.skip(p1.len() + n1);
                if r.len() >= p2.len() && r.take(p2.len() as int) == p2 {
                    match json_read_string(r.skip(p2.len() as int)) {
                        Some((password, n2)) => if r.skip(p2.len() + n2) == "}"@ {
                            Some((name, password))
                        } else {
                            None
                        },
                        None => None,
                    }
                } else {
                    None
                }
            },
            None => None,
        }
    } else {
        None
    }
}

/// The body of a login request reads back as the credentials it was made
/// from.
pub proof fn law_login_body_reads_back(name: Seq<char>, password: Seq<char>)
    ensures
        login_body_fields(login_body_text(json_string(name), json_string(password))) == Some(
            (name, password),
        ),
{
    let p1 = "{\"name\":"@;
    let p2 = ",\"password\":"@;
    let p3 = "}"@;
    let jn = json_string(name);
    let jp = json_string(password);
    let b = login_body_text(jn, jp);
    assert(b =~= p1 + (jn + (p2 + jp + p3)));
    assert(b.take(p1.len() as int) =~= p1);
    assert(b.skip(p1.len() as int) =~= jn + (p2 + jp + p3));
    law_json_string_reads_back(name, p2 + jp + p3);
    let r = b.skip((p1.len() + jn.len()) as int);
    assert(r =~= p2 + (jp + p3));
    assert(r.take(p2.len() as int) =~= p2);
    assert(r.skip(p2.len() as int) =~= jp + p3);
    law_json_string_reads_back(password, p3);
    assert(r.skip((p2.len() + jp.len()) as int) =~= p3);
}

/// `{hostname} | v{version}        Domain: {domain}`.
pub open spec fn banner_text(info: EVO) -> Seq<char> {
    info.hostname@ + " | v"@ + info.version@ + "        Domain: "@ + info.domain@
}

/// The cookie of a login reply that the server accepted: status 200, a
/// body whose `status` is `success`, and a `data` member.
pub open spec fn accepted_cookie(reply: Option<HttpReply<LoginReply>>) -> Option<u32> {
    match reply {
        Some(r) => if r.status == 200 {
            match r.body {
                Some(b) => if b.status@ == "success"@ {
                    match b.data {
                        Some(d) => Some(d.cookie),
                        None => None,
                    }
                } else {
                    None
                },
                None => None,
            }
        } else {
            None
        },
        None => None,
    }
}

/// The URL of a path on the EVO at `evo`.
pub fn evo_url(evo: &str, path: &str) -> (u: String)
    ensures
        u@ == url_text(evo@, path@),
{
    let mut u = "http://".to_owned();
    u.append(evo);
    u.append(path);
    u
}

/// The body of a login request, from the name and password already written
/// as JSON string literals.
pub fn login_body(name_json: &str, password_json: &str) -> (b: String)
    ensures
        b@ == login_body_text(name_json@, password_json@),
{
    let mut b = "{\"name\":".to_owned();
    b.append(name_json);
    b.append(",\"password\":");
    b.append(password_json);
    b.append("}");
    b
}

/// The login request for the EVO at `evo` with the credentials `auth`: a
/// POST of the credentials as a JSON object to the session endpoint.
pub fn login_request(evo: &str, auth: &Auth) -> (req: LoginRequest)
    ensures
        req.url@ == url_text(evo@, API_SESSION@),
        req.body@ == login_body_text(json_string(auth.name@), json_string(auth.password@)),
{
    let name_json = match to_json_string(auth.name.as_str()) {
        Ok(s) => s,
        Err(_) => unreached(),
    };
    let password_json = match to_json_string(auth.password.as_str()) {
        Ok(s) => s,
        Err(_) => unreached(),
    };
    let url = evo_url(evo, API_SESSION);
    let body = login_body(name_json.as_str(), password_json.as_str());
    LoginRequest { url, body }
}

/// The cookie of an accepted login, or `None` when the request failed, the
/// status was not 200, the body could not be read, its `status` was not
/// `success`, or it had no `data`.
pub fn login_cookie(reply: Option<HttpReply<LoginReply>>) -> (c: Option<u32>)
    ensures
        c == accepted_cookie(reply),
{
    match reply {
        Some(r) => {
            if r.status != 200 {
                return None;
            }
            match r.body {
                Some(b) => {
                    let success = "success".to_owned();
                    if b.status == success {
                        match b.data {
                            Some(d) => Some(d.cookie),
                            None => None,
                        }
                    } else {
                        None
                    }
                },
                None => None,
            }
        },
        None => None,
    }
}

/// The session that a login reply opens: its id is the cookie in decimal.
/// A reply the server did not accept is `LoginFailed`.
pub fn open_session(evo: String, auth: Auth, reply: Option<HttpReply<LoginReply>>) -> (r: Result<
    Session,
    ClientError,
>)
    ensures
        r is Ok <==> accepted_cookie(reply) is Some,
        r matches Ok(s) ==> {
            &&& s.id@ == decimal(accepted_cookie(reply).unwrap() as nat)
            &&& s.evo@ == evo@
            &&& s.auth.name@ == auth.name@
            &&& s.auth.password@ == auth.password@
        },
        r matches Err(e) ==> e == ClientError::LoginFailed,
{
    match login_cookie(reply) {
        Some(cookie) => Ok(Session { id: decimal_string(cookie), evo, auth }),
        None => Err(ClientError::LoginFailed),
    }
}

/// The request for the EVO's description within a session: a GET of
/// `http://{evo}//v1/evo` (the endpoint behind an extra `/`) with the
/// session's credentials.
pub fn info_request(session: &Session) -> (r: InfoRequest)
    ensures
        r.url@ == url_text(session.evo@, "/"@ + API_EVO@),
        r.name@ == session.auth.name@,
        r.password@ == session.auth.password@,
{
    let mut url = evo_url(session.evo.as_str(), "/");
    url.append(API_EVO);
    assert(url@ =~= url_text(session.evo@, "/"@ + API_EVO@));
    InfoRequest { url, name: session.auth.name.clone(), password: session.auth.password.clone() }
}

/// The EVO's description out of the reply, or `InfoUnavailable` when the
/// request failed, the status was not 200 or the body could not be read.
pub fn evo_info(reply: Option<HttpReply<EVO>>) -> (r: Result<EVO, ClientError>)
    ensures
        r is Ok <==> (reply matches Some(h) && h.status == 200 && h.body is Some),
        r matches Ok(info) ==> info == reply.unwrap().body.unwrap(),
        r matches Err(e) ==> e == ClientError::InfoUnavailable,
{
    match reply {
        Some(h) => if h.status == 200 {
            match h.body {
                Some(info) => Ok(info),
                None => Err(ClientError::InfoUnavailable),
            }
        } else {
            Err(ClientError::InfoUnavailable)
        },
        None => Err(ClientError::InfoUnavailable),
    }
}

/// The line that introduces the EVO once logged in.
pub fn banner(info: &EVO) -> (b: String)
    ensures
        b@ == banner_text(*info),
{
    let mut b = info.hostname.clone();
    b.append(" | v");
    b.append(info.version.as_str());
    b.append("        Domain: ");
    b.append(info.domain.as_str());
    b
}

} // verus!
