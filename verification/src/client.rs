//! The interactive session as a state machine: the caller performs each
//! action (prompting, reading, talking to the server) and hands back what
//! came of it; the client decides what to do next.

use vstd::prelude::*;
use crate::command::{
    ascii_lower, command_of, eq_ignore_ascii_case, is_ascii_ws, law_command_ignores_ascii_case,
    law_logout_exactly_when, parse_input, Command,
};
use crate::protocol::{
    accepted_cookie, banner, banner_text, evo_info, info_request, login_body_text, login_request,
    open_session, url_text, Auth, ClientError, HttpReply, InfoRequest, LoginReply, LoginRequest,
    Session, API_EVO, API_SESSION, EVO,
};
use crate::text::{
    all_white_space, law_trim_ignores_surrounding_white_space, trim, trimmed, json_string, decimal,
};
use vstd::string::StringExecFns;

verus! {

/// Where the session stands.
#[derive(PartialEq, Eq, Structural, Debug, Clone, Copy)]
pub enum Stage {
    /// Nothing has happened yet.
    Starting,
    /// Waiting for the EVO's address.
    AskEvo,
    /// Waiting for the user name.
    AskUsername,
    /// Waiting for the password.
    AskPassword,
    /// Waiting for the server's answer to the login.
    LoggingIn,
    /// Waiting for the EVO's description.
    FetchingInfo,
    /// Reading commands at the `SBCLI:` prompt.
    Shell,
    /// Done, after a logout or an error.
    Closed,
}

/// What happened since the last action.
pub enum Event {
    /// The program started.
    Start,
    /// A line was read from the terminal.
    Line(String),
    /// The server answered the login request (`None`: the request failed).
    LoginAnswered(Option<HttpReply<LoginReply>>),
    /// The server answered the request for the EVO's description (`None`:
    /// the request failed).
    InfoAnswered(Option<HttpReply<EVO>>),
}

/// What the caller is to do next.
pub enum Action {
    /// Print `notice`, if there is one, followed by a line break; then print
    /// `prompt`, flush, and read a line. When `hidden`, echo is off while the
    /// line is read, and a blank line is printed after it.
    Ask { notice: Option<String>, prompt: String, hidden: bool },
    /// Post the login request and report the answer.
    Login(LoginRequest),
    /// Get the EVO's description and report the answer.
    FetchInfo(InfoRequest),
    /// End the program successfully.
    Quit,
    /// End the program with the error.
    Fail(ClientError),
    /// Nothing: the event was not one the client was waiting for.
    Idle,
}

/// The command a line typed at the shell names, once trimmed.
pub open spec fn shell_command(line: Seq<char>) -> Command {
    command_of(vstd::utf8::encode_utf8(trimmed(line)))
}

/// White space typed around a command at the shell does not change it.
pub proof fn law_shell_ignores_surrounding_white_space(
    pre: Seq<char>,
    line: Seq<char>,
    post: Seq<char>,
)
    requires
        all_white_space(pre),
        all_white_space(post),
    ensures
        shell_command(pre + line + post) == shell_command(line),
{
    law_trim_ignores_surrounding_white_space(pre, line, post);
}

/// At the shell, a line ends the session exactly when, trimmed, its bytes
/// start with `logout` in any ASCII case, followed by the end of the line or
/// by ASCII whitespace.
pub proof fn law_shell_logout_exactly_when(line: Seq<char>)
    ensures
        shell_command(line) == Command::Logout <==> {
            let b = vstd::utf8::encode_utf8(trimmed(line));
            &&& b.len() >= 6
            &&& ascii_lower(b[0]) == 0x6cu8
            &&& ascii_lower(b[1]) == 0x6fu8
            &&& ascii_lower(b[2]) == 0x67u8
            &&& ascii_lower(b[3]) == 0x6fu8
            &&& ascii_lower(b[4]) == 0x75u8
            &&& ascii_lower(b[5]) == 0x74u8
            &&& (b.len() == 6 || is_ascii_ws(b[6]))
        },
{
    law_logout_exactly_when(vstd::utf8::encode_utf8(trimmed(line)));
}

/// At the shell, two lines whose trimmed bytes are equal up to ASCII case
/// name the same command.
pub proof fn law_shell_ignores_ascii_case(line1: Seq<char>, line2: Seq<char>)
    requires
        eq_ignore_ascii_case(
            vstd::utf8::encode_utf8(trimmed(line1)),
            vstd::utf8::encode_utf8(trimmed(line2)),
        ),
    ensures
        shell_command(line1) == shell_command(line2),
{
    law_command_ignores_ascii_case(
        vstd::utf8::encode_utf8(trimmed(line1)),
        vstd::utf8::encode_utf8(trimmed(line2)),
    );
}

/// `a` asks with the given notice, prompt and echo setting.
pub open spec fn asks(a: Action, notice: Option<Seq<char>>, prompt: Seq<char>, hidden: bool) -> bool {
    match a {
        Action::Ask { notice: n, prompt: p, hidden: h } => {
            &&& p@ == prompt
            &&& h == hidden
            &&& match (n, notice) {
                (None, None) => true,
                (Some(x), Some(y)) => x@ == y,
                _ => false,
            }
        },
        _ => false,
    }
}

/// The stage is waiting for this kind of event.
pub open spec fn awaits(stage: Stage, event: Event) -> bool {
    match event {
        Event::Start => stage == Stage::Starting,
        Event::Line(_) => stage == Stage::AskEvo || stage == Stage::AskUsername || stage
            == Stage::AskPassword || stage == Stage::Shell,
        Event::LoginAnswered(_) => stage == Stage::LoggingIn,
        Event::InfoAnswered(_) => stage == Stage::FetchingInfo,
    }
}

/// A closed client waits for nothing: with `step`'s contract, every later
/// event leaves it closed and unchanged, and asks for nothing.
pub proof fn law_closed_waits_for_nothing(event: Event)
    ensures
        !awaits(Stage::Closed, event),
{
}

/// The EVO's description in a reply, when the reply carries one.
pub open spec fn delivered_info(reply: Option<HttpReply<EVO>>) -> Option<EVO> {
    match reply {
        Some(h) => if h.status == 200 {
            h.body
        } else {
            None
        },
        None => None,
    }
}

/// The client's state.
pub struct Client {
    stage: Stage,
    evo: String,
    username: String,
    password: String,
    session: Option<Session>,
}

impl Client {
    pub closed spec fn stage_of(&self) -> Stage {
        self.stage
    }

    /// The EVO's address, as typed and trimmed.
    pub closed spec fn evo_of(&self) -> Seq<char> {
        self.evo@
    }

    /// The user name, as typed and trimmed.
    pub closed spec fn username_of(&self) -> Seq<char> {
        self.username@
    }

    /// The password, as typed and trimmed.
    pub closed spec fn password_of(&self) -> Seq<char> {
        self.password@
    }

    /// The open session, once logged in.
    pub closed spec fn session_of(&self) -> Option<Session> {
        self.session
    }

    /// A client that has not started.
    pub fn new() -> (c: Client)
        ensures
            c.stage_of() == Stage::Starting,
            c.evo_of() == Seq::<char>::empty(),
            c.username_of() == Seq::<char>::empty(),
            c.password_of() == Seq::<char>::empty(),
            c.session_of() is None,
    {
        Client {
            stage: Stage::Starting,
            evo: String::new(),
            username: String::new(),
            password: String::new(),
            session: None,
        }
    }

    /// Where the session stands.
    pub fn stage(&self) -> (s: Stage)
        ensures
            s == self.stage_of(),
    {
        self.stage
    }

    /// Decides what to do after `event`.
    ///
    /// The client asks for the EVO's address, the user name and the
    /// password (the last with echo off), keeping each line trimmed; logs
    /// in; fetches the EVO's description and shows it; then reads commands
    /// until `logout`. A failed login or a missing description ends it with
    /// an error. An event the client is not waiting for changes nothing.
    pub fn step(&mut self, event: Event) -> (a: Action)
        ensures
            !awaits(old(self).stage_of(), event) ==> {
                &&& a is Idle
                &&& final(self).stage_of() == old(self).stage_of()
                &&& final(self).evo_of() == old(self).evo_of()
                &&& final(self).username_of() == old(self).username_of()
                &&& final(self).password_of() == old(self).password_of()
                &&& final(self).session_of() == old(self).session_of()
            },
            old(self).stage_of() == Stage::Starting && event is Start ==> {
                &&& final(self).stage_of() == Stage::AskEvo
                &&& asks(a, None, "EVO Address: "@, false)
                &&& final(self).evo_of() == old(self).evo_of()
                &&& final(self).username_of() == old(self).username_of()
                &&& final(self).password_of() == old(self).password_of()
                &&& final(self).session_of() == old(self).session_of()
            },
            old(self).stage_of() == Stage::AskEvo && event is Line ==> {
                &&& final(self).stage_of() == Stage::AskUsername
                &&& final(self).evo_of() == trimmed(event->Line_0@)
                &&& asks(a, None, "Username: "@, false)
                &&& final(self).username_of() == old(self).username_of()
                &&& final(self).password_of() == old(self).password_of()
                &&& final(self).session_of() == old(self).session_of()
            },
            old(self).stage_of() == Stage::AskUsername && event is Line ==> {
                &&& final(self).stage_of() == Stage::AskPassword
                &&& final(self).username_of() == trimmed(event->Line_0@)
                &&& asks(a, None, "Password: "@, true)
                &&& final(self).evo_of() == old(self).evo_of()
                &&& final(self).password_of() == old(self).password_of()
                &&& final(self).session_of() == old(self).session_of()
            },
            old(self).stage_of() == Stage::AskPassword && event is Line ==> {
                &&& final(self).stage_of() == Stage::LoggingIn
                &&& final(self).password_of() == trimmed(event->Line_0@)
                &&& final(self).evo_of() == old(self).evo_of()
                &&& final(self).username_of() == old(self).username_of()
                &&& final(self).session_of() == old(self).session_of()
                &&& a is Login
                &&& a->Login_0.url@ == url_text(old(self).evo_of(), API_SESSION@)
                &&& a->Login_0.body@ == login_body_text(
                    json_string(old(self).username_of()),
                    json_string(trimmed(event->Line_0@)),
                )
            },
            old(self).stage_of() == Stage::LoggingIn && event is LoginAnswered ==> {
                &&& final(self).evo_of() == old(self).evo_of()
                &&& final(self).username_of() == old(self).username_of()
                &&& final(self).password_of() == old(self).password_of()
                &&& match accepted_cookie(event->LoginAnswered_0) {
                    Some(cookie) => {
                        &&& final(self).stage_of() == Stage::FetchingInfo
                        &&& final(self).session_of() matches Some(s) && {
                            &&& s.id@ == decimal(cookie as nat)
                            &&& s.evo@ == old(self).evo_of()
                            &&& s.auth.name@ == old(self).username_of()
                            &&& s.auth.password@ == old(self).password_of()
                        }
                        &&& a matches Action::FetchInfo(req) && {
                            &&& req.url@ == url_text(old(self).evo_of(), "/"@ + API_EVO@)
                            &&& req.name@ == old(self).username_of()
                            &&& req.password@ == old(self).password_of()
                        }
                    },
                    None => {
                        &&& final(self).stage_of() == Stage::Closed
                        &&& final(self).session_of() == old(self).session_of()
                        &&& a == Action::Fail(ClientError::LoginFailed)
                    },
                }
            },
            old(self).stage_of() == Stage::FetchingInfo && event is InfoAnswered ==> {
                &&& final(self).evo_of() == old(self).evo_of()
                &&& final(self).username_of() == old(self).username_of()
                &&& final(self).password_of() == old(self).password_of()
                &&& final(self).session_of() == old(self).session_of()
                &&& match delivered_info(event->InfoAnswered_0) {
                    Some(info) => {
                        &&& final(self).stage_of() == Stage::Shell
                        &&& asks(a, Some(banner_text(info) + "\n"@), "SBCLI: "@, false)
                    },
                    None => {
                        &&& final(self).stage_of() == Stage::Closed
                        &&& a == Action::Fail(ClientError::InfoUnavailable)
                    },
                }
            },
            old(self).stage_of() == Stage::Shell && event is Line ==> {
                &&& final(self).evo_of() == old(self).evo_of()
                &&& final(self).username_of() == old(self).username_of()
                &&& final(self).password_of() == old(self).password_of()
                &&& final(self).session_of() == old(self).session_of()
                &&& match shell_command(event->Line_0@) {
                    Command::Logout => {
                        &&& final(self).stage_of() == Stage::Closed
                        &&& a is Quit
                    },
                    Command::Unknown => {
                        &&& final(self).stage_of() == Stage::Shell
                        &&& asks(a, Some("Unknown Command"@), "SBCLI: "@, false)
                    },
                }
            },
    {
        match event {
            Event::Start => {
                if self.stage == Stage::Starting {
                    self.stage = Stage::AskEvo;
                    Self::ask(None, "EVO Address: ", false)
                } else {
                    Action::Idle
                }
            },
            Event::Line(line) => {
                if self.stage == Stage::AskEvo {
                    self.evo = trim(line.as_str()).to_owned();
                    self.stage = Stage::AskUsername;
                    Self::ask(None, "Username: ", false)
                } else if self.stage == Stage::AskUsername {
                    self.username = trim(line.as_str()).to_owned();
                    self.stage = Stage::AskPassword;
                    Self::ask(None, "Password: ", true)
                } else if self.stage == Stage::AskPassword {
                    self.password = trim(line.as_str()).to_owned();
                    let auth = Auth { name: self.username.clone(), password: self.password.clone() };
                    let req = login_request(self.evo.as_str(), &auth);
                    self.stage = Stage::LoggingIn;
                    Action::Login(req)
                } else if self.stage == Stage::Shell {
                    let (command, _rest) = parse_input(trim(line.as_str()));
                    match command {
                        Command::Logout => {
                            self.stage = Stage::Closed;
                            Action::Quit
                        },
                        Command::Unknown => {
                            Self::ask(Some("Unknown Command".to_owned()), "SBCLI: ", false)
                        },
                    }
                } else {
                    Action::Idle
                }
            },
            Event::LoginAnswered(reply) => {
                if self.stage == Stage::LoggingIn {
                    let auth = Auth { name: self.username.clone(), password: self.password.clone() };
                    match open_session(self.evo.clone(), auth, reply) {
                        Ok(session) => {
                            let req = info_request(&session);
                            self.session = Some(session);
                            self.stage = Stage::FetchingInfo;
                            Action::FetchInfo(req)
                        },
                        Err(e) => {
                            self.stage = Stage::Closed;
                            Action::Fail(e)
                        },
                    }
                } else {
                    Action::Idle
                }
            },
            Event::InfoAnswered(reply) => {
                if self.stage == Stage::FetchingInfo {
                    match evo_info(reply) {
                        Ok(info) => {
                            let mut notice = banner(&info);
                            notice.append("\n");
                            self.stage = Stage::Shell;
                            Self::ask(Some(notice), "SBCLI: ", false)
                        },
                        Err(e) => {
                            self.stage = Stage::Closed;
                            Action::Fail(e)
                        },
                    }
                } else {
                    Action::Idle
                }
            },
        }
    }

    fn ask(notice: Option<String>, prompt: &str, hidden: bool) -> (a: Action)
        ensures
            a == (Action::Ask { notice, prompt: a->prompt, hidden }),
            a->prompt@ == prompt@,
    {
        Action::Ask { notice, prompt: prompt.to_owned(), hidden }
    }
}

} // verus!
