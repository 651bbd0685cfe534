//! Enrolment, logout and key rotation, as a machine that is told what
//! happened and says what to do next. Asking the user, sending a request and
//! storing the configuration are left to the caller.

use crate::api::{credentials, url_of, with_body, Api, Method, Request, RequestView};
use crate::config::{Config, ConfigView, Token};
use crate::error::Error;
use crate::json::ScalarView;
use crate::reply::Outcome;
use crate::session::stored_form;
use crate::text::{
    chars_of, string_from, trim, trim_line_end, trimmed, without_line_breaks,
    without_trailing_line_breaks,
};
use vstd::prelude::*;

verus! {

/// The subcommands of the client.
#[derive(Clone, Copy, Debug, PartialEq, Eq, Structural)]
pub enum Command {
    NewKey,
    Logout,
    List,
    Create,
    Drop,
    Add,
    Update,
    Remove,
    Clear,
}

/// Whether the user has to enrol before `command` is carried out: on a first
/// run, before every command but the one that asks for a new key.
pub open spec fn enrols_first(command: Command, config: ConfigView) -> bool {
    config.first_run && command != Command::NewKey
}

/// Decides `enrols_first`.
pub fn needs_enrolment(command: Command, config: &Config) -> (b: bool)
    ensures
        b == enrols_first(command, config@),
{
    config.first_run && !matches!(command, Command::NewKey)
}

/// Whether `t` is `y` or `yes`, in any case of the letters.
pub open spec fn is_yes(t: Seq<char>) -> bool {
    ||| t.len() == 1 && (t[0] == 'y' || t[0] == 'Y')
    ||| t.len() == 3 && (t[0] == 'y' || t[0] == 'Y') && (t[1] == 'e' || t[1] == 'E') && (t[2]
        == 's' || t[2] == 'S')
}

/// Whether `t` is `n` or `no`, in any case of the letters.
pub open spec fn is_no(t: Seq<char>) -> bool {
    ||| t.len() == 1 && (t[0] == 'n' || t[0] == 'N')
    ||| t.len() == 2 && (t[0] == 'n' || t[0] == 'N') && (t[1] == 'o' || t[1] == 'O')
}

/// What an answer to a yes-or-no question means: the default where nothing
/// but white space was typed, and nothing where it is neither yes nor no.
pub open spec fn answer_of(input: Seq<char>, default: bool) -> Option<bool> {
    let t = trimmed(input);
    if t.len() == 0 {
        Some(default)
    } else if is_yes(t) {
        Some(true)
    } else if is_no(t) {
        Some(false)
    } else {
        None
    }
}

/// Computes `answer_of`.
pub fn parse_answer(input: &str, default: bool) -> (r: Option<bool>)
    ensures
        r == answer_of(input@, default),
{
    let t = trim(&chars_of(input));
    let n = t.len();
    if n == 0 {
        Some(default)
    } else if (n == 1 && (t[0] == 'y' || t[0] == 'Y')) || (n == 3 && (t[0] == 'y' || t[0] == 'Y')
        && (t[1] == 'e' || t[1] == 'E') && (t[2] == 's' || t[2] == 'S')) {
        Some(true)
    } else if (n == 1 && (t[0] == 'n' || t[0] == 'N')) || (n == 2 && (t[0] == 'n' || t[0] == 'N')
        && (t[1] == 'o' || t[1] == 'O')) {
        Some(false)
    } else {
        None
    }
}

/// What the user set out to do.
#[derive(Clone, Copy, Debug, PartialEq, Eq, Structural)]
pub enum Flow {
    /// Enrol on a first run: sign up unless a key is held, then log in.
    FirstRun,
    /// End the session.
    Logout,
    /// Get a new key in place of a lost one, then log in with it.
    NewKey,
}

/// How far a flow has come.
#[derive(Clone, Copy, Debug, PartialEq, Eq, Structural)]
pub enum Stage {
    /// Nothing has happened yet.
    Start,
    /// The user was asked whether a key is held already.
    AskedHasKey,
    /// The user was asked whether to log out.
    AskedConfirm,
    /// The user was asked for name and password.
    AskedCredentials,
    /// The signup is on its way.
    SentSignup,
    /// The request for a new key is on its way.
    SentLostKey,
    /// The configuration that marks the old key as given up is being stored.
    StoringRotation,
    /// The user was asked for the key.
    AskedKey,
    /// The login is on its way.
    SentLogin,
    /// The configuration with the new session is being stored.
    StoringSession,
    /// The logout is on its way.
    SentLogout,
    /// The configuration without a session is being stored.
    StoringLogout,
    /// The flow has ended.
    Done,
}

/// What happened since the last step.
#[derive(Debug)]
pub enum Event {
    /// The flow is to begin.
    Begin,
    /// The user answered yes or no.
    Answer(bool),
    /// The user gave name and password.
    Credentials { username: String, password: String },
    /// The user gave the key.
    Key(String),
    /// The request that was sent came to this.
    Reply(Outcome),
    /// The login came to this, with this session token.
    LoginReply { outcome: Outcome, token: String },
    /// The configuration was stored, or could not be.
    Stored(bool),
    /// The terminal failed.
    Failed,
}

/// What an `Event` stands for.
pub enum EventView {
    Begin,
    Answer(bool),
    Credentials { username: Seq<char>, password: Seq<char> },
    Key(Seq<char>),
    Reply(Outcome),
    LoginReply { outcome: Outcome, token: Seq<char> },
    Stored(bool),
    Failed,
}

impl View for Event {
    type V = EventView;

    open spec fn view(&self) -> EventView {
        match self {
            Event::Begin => EventView::Begin,
            Event::Answer(yes) => EventView::Answer(*yes),
            Event::Credentials { username, password } => EventView::Credentials {
                username: username@,
                password: password@,
            },
            Event::Key(key) => EventView::Key(key@),
            Event::Reply(outcome) => EventView::Reply(*outcome),
            Event::LoginReply { outcome, token } => EventView::LoginReply {
                outcome: *outcome,
                token: token@,
            },
            Event::Stored(ok) => EventView::Stored(*ok),
            Event::Failed => EventView::Failed,
        }
    }
}

/// What to do next.
#[derive(Debug)]
pub enum Action {
    /// Ask whether the user holds a key already; no is the default.
    AskHasKey,
    /// Ask whether to log out; no is the default.
    AskConfirm,
    /// Ask for name and password, the password unseen.
    AskCredentials,
    /// Ask for the key.
    AskKey,
    /// Send this request.
    Send(Request),
    /// Store this configuration.
    Store(Config),
    /// Stop, with this result.
    Finish(Result<(), Error>),
}

/// What an `Action` stands for.
pub enum ActionView {
    AskHasKey,
    AskConfirm,
    AskCredentials,
    AskKey,
    Send(RequestView),
    Store(ConfigView),
    Finish(Result<(), Error>),
}

impl View for Action {
    type V = ActionView;

    open spec fn view(&self) -> ActionView {
        match self {
            Action::AskHasKey => ActionView::AskHasKey,
            Action::AskConfirm => ActionView::AskConfirm,
            Action::AskCredentials => ActionView::AskCredentials,
            Action::AskKey => ActionView::AskKey,
            Action::Send(request) => ActionView::Send(request@),
            Action::Store(config) => ActionView::Store(config@),
            Action::Finish(result) => ActionView::Finish(*result),
        }
    }
}

/// A flow under way: what it is, how far it has come, the configuration as
/// it stands, and the key with which the login was tried.
#[derive(Debug)]
pub struct AuthFlow {
    pub flow: Flow,
    pub stage: Stage,
    pub config: Config,
    pub key: Option<String>,
}

/// What an `AuthFlow` stands for.
pub struct AuthFlowView {
    pub flow: Flow,
    pub stage: Stage,
    pub config: ConfigView,
    pub key: Option<Seq<char>>,
}

impl View for AuthFlow {
    type V = AuthFlowView;

    open spec fn view(&self) -> AuthFlowView {
        AuthFlowView {
            flow: self.flow,
            stage: self.stage,
            config: self.config@,
            key: self.key.deep_view(),
        }
    }
}

/// The request that signs a user up. It carries no session token.
pub open spec fn signup_request(username: Seq<char>, password: Seq<char>) -> RequestView {
    with_body(Method::Post, "/signup"@, Seq::empty(), credentials(username, password))
}

/// The request that asks for a new key. It carries no session token.
pub open spec fn lostkey_request(username: Seq<char>, password: Seq<char>) -> RequestView {
    with_body(Method::Post, "/lostkey"@, Seq::empty(), credentials(username, password))
}

/// The request that logs in with `key`. It carries no session token.
pub open spec fn login_request(key: Seq<char>) -> RequestView {
    with_body(
        Method::Post,
        "/login"@,
        Seq::empty(),
        seq![("key"@, ScalarView::Text(trimmed(key)))],
    )
}

/// The request that ends the session of `token`.
pub open spec fn logout_request(token: Seq<char>) -> RequestView {
    with_body(Method::Post, "/logout"@, token, seq![("logout"@, ScalarView::Bool(true))])
}

/// The configuration after a login with `key` that gave `token`: the key
/// without the line breaks at its end, the token without any, and enrolled.
pub open spec fn logged_in(key: Option<Seq<char>>, token: Seq<char>) -> ConfigView {
    ConfigView {
        key: match key {
            Some(k) => Some(without_trailing_line_breaks(k)),
            None => None,
        },
        token: Some(without_line_breaks(token)),
        first_run: false,
    }
}

/// The configuration after a logout: no key, no token, and not enrolled.
pub open spec fn logged_out() -> ConfigView {
    ConfigView { key: None, token: None, first_run: true }
}

/// The configuration after the old key was given up: no token, and not
/// enrolled until the login with the new key.
pub open spec fn rotating(config: ConfigView) -> ConfigView {
    ConfigView { key: config.key, token: None, first_run: true }
}

/// The flow `s` at its end.
pub open spec fn ended(s: AuthFlowView) -> AuthFlowView {
    AuthFlowView { stage: Stage::Done, ..s }
}

/// The flow `s` at the stage `stage`.
pub open spec fn at(s: AuthFlowView, stage: Stage) -> AuthFlowView {
    AuthFlowView { stage, ..s }
}

/// The flow ends with `result`.
pub open spec fn finish(s: AuthFlowView, result: Result<(), Error>) -> (AuthFlowView, ActionView) {
    (ended(s), ActionView::Finish(result))
}

/// The step after a request that has to succeed: `then` where the server
/// carried it out, the end with `refused` where it refused, and the end with
/// the failure where there is no answer.
pub open spec fn after_reply(
    s: AuthFlowView,
    outcome: Outcome,
    then: (AuthFlowView, ActionView),
    refused: Result<(), Error>,
) -> (AuthFlowView, ActionView) {
    match outcome {
        Outcome::Accepted => then,
        Outcome::Refused => finish(s, refused),
        Outcome::Failed(e) => finish(s, Err(e)),
    }
}

/// The step after the configuration was to be stored: `then` where it was,
/// the end with a failure where it was not.
pub open spec fn after_store(s: AuthFlowView, ok: bool, then: (AuthFlowView, ActionView)) -> (
    AuthFlowView,
    ActionView,
) {
    if ok {
        then
    } else {
        finish(s, Err(Error::FailedToUpdateConf))
    }
}

/// One step of a flow: the flow after the event `e`, and what to do next. An
/// event that the stage does not wait for ends the flow with
/// `Error::RsmFailed`.
pub open spec fn step_of(s: AuthFlowView, e: EventView) -> (AuthFlowView, ActionView) {
    match (s.stage, e) {
        (Stage::Start, EventView::Begin) => match s.flow {
            Flow::FirstRun => (at(s, Stage::AskedHasKey), ActionView::AskHasKey),
            Flow::Logout => (at(s, Stage::AskedConfirm), ActionView::AskConfirm),
            Flow::NewKey => (at(s, Stage::AskedCredentials), ActionView::AskCredentials),
        },
        (Stage::AskedHasKey, EventView::Answer(yes)) => if yes {
            (at(s, Stage::AskedKey), ActionView::AskKey)
        } else {
            (at(s, Stage::AskedCredentials), ActionView::AskCredentials)
        },
        (Stage::AskedCredentials, EventView::Credentials { username, password }) => match s.flow {
            Flow::FirstRun => (
                at(s, Stage::SentSignup),
                ActionView::Send(signup_request(username, password)),
            ),
            Flow::NewKey => (
                at(s, Stage::SentLostKey),
                ActionView::Send(lostkey_request(username, password)),
            ),
            Flow::Logout => finish(s, Err(Error::RsmFailed)),
        },
        (Stage::SentSignup, EventView::Reply(outcome)) => after_reply(
            s,
            outcome,
            (at(s, Stage::AskedKey), ActionView::AskKey),
            Err(Error::FirstRunFailed),
        ),
        (Stage::SentLostKey, EventView::Reply(outcome)) => {
            let config = rotating(s.config);
            after_reply(
                s,
                outcome,
                (
                    AuthFlowView { stage: Stage::StoringRotation, config, ..s },
                    ActionView::Store(config),
                ),
                Err(Error::FailedToUpdateKey),
            )
        },
        (Stage::StoringRotation, EventView::Stored(ok)) => after_store(
            s,
            ok,
            (at(s, Stage::AskedKey), ActionView::AskKey),
        ),
        (Stage::AskedKey, EventView::Key(key)) => (
            AuthFlowView { stage: Stage::SentLogin, key: Some(key), ..s },
            ActionView::Send(login_request(key)),
        ),
        (Stage::SentLogin, EventView::LoginReply { outcome, token }) => {
            let config = logged_in(s.key, token);
            after_reply(
                s,
                outcome,
                (
                    AuthFlowView { stage: Stage::StoringSession, config, ..s },
                    ActionView::Store(config),
                ),
                Err(Error::LoginFail),
            )
        },
        (Stage::StoringSession, EventView::Stored(ok)) => after_store(s, ok, finish(s, Ok(()))),
        (Stage::AskedConfirm, EventView::Answer(yes)) => if !yes {
            finish(s, Ok(()))
        } else {
            match s.config.token {
                Some(token) if !s.config.first_run => (
                    at(s, Stage::SentLogout),
                    ActionView::Send(logout_request(token)),
                ),
                _ => finish(s, Err(Error::NoAuth)),
            }
        },
        (Stage::SentLogout, EventView::Reply(outcome)) => match outcome {
            Outcome::Accepted => (
                AuthFlowView { stage: Stage::StoringLogout, config: logged_out(), ..s },
                ActionView::Store(logged_out()),
            ),
            Outcome::Refused => finish(s, Ok(())),
            Outcome::Failed(e) => finish(s, Err(e)),
        },
        (Stage::StoringLogout, EventView::Stored(ok)) => after_store(s, ok, finish(s, Ok(()))),
        _ => finish(s, Err(Error::RsmFailed)),
    }
}

/// Whether a flow of kind `flow` can be at the stage `stage`.
pub open spec fn fits(flow: Flow, stage: Stage) -> bool {
    match stage {
        Stage::Start | Stage::Done => true,
        Stage::AskedHasKey | Stage::SentSignup => flow == Flow::FirstRun,
        Stage::AskedCredentials | Stage::AskedKey | Stage::SentLogin | Stage::StoringSession => flow
            != Flow::Logout,
        Stage::SentLostKey | Stage::StoringRotation => flow == Flow::NewKey,
        Stage::AskedConfirm | Stage::SentLogout | Stage::StoringLogout => flow == Flow::Logout,
    }
}

/// Whether `url` is one of the three addresses at which a user can enrol.
pub open spec fn enrols(url: Seq<char>) -> bool {
    url == url_of("/signup"@) || url == url_of("/login"@) || url == url_of("/lostkey"@)
}

impl AuthFlowView {
    /// The stage is one of the flow's, and a login under way has its key.
    pub open spec fn wf(self) -> bool {
        &&& fits(self.flow, self.stage)
        &&& self.stage == Stage::SentLogin ==> self.key is Some
    }
}

/// A step leaves a flow well formed.
pub proof fn lemma_step_keeps_wf(s: AuthFlowView, e: EventView)
    requires
        s.wf(),
    ensures
        step_of(s, e).0.wf(),
        step_of(s, e).0.flow == s.flow,
{
}

/// While the user is not enrolled, nothing is sent but to the three
/// addresses at which a user can enrol.
pub proof fn lemma_unenrolled_only_enrols(s: AuthFlowView, e: EventView)
    requires
        s.config.first_run,
    ensures
        step_of(s, e).1 matches ActionView::Send(request) ==> enrols(request.url),
{
}

/// A logout changes the configuration in one case only: the server has
/// carried it out. Then key and token are gone and the user is not enrolled.
pub proof fn lemma_logout_changes_only_when_accepted(s: AuthFlowView, e: EventView)
    requires
        s.wf(),
        s.flow == Flow::Logout,
    ensures
        step_of(s, e).0.config != s.config ==> s.stage == Stage::SentLogout && e
            == EventView::Reply(Outcome::Accepted),
        s.stage == Stage::SentLogout && e == EventView::Reply(Outcome::Accepted) ==> step_of(
            s,
            e,
        ).0.config == logged_out() && step_of(s, e).1 == ActionView::Store(logged_out()),
{
}

/// Getting a new key is done in two phases, and ends well only after a
/// login. Once the server has issued the key, the configuration is stored as
/// not enrolled and without a token; once that is stored, the user is asked
/// for the key; and the flow ends well only when the configuration of the
/// login that followed is stored.
pub proof fn lemma_new_key_forces_login(s: AuthFlowView, e: EventView)
    requires
        s.wf(),
        s.flow == Flow::NewKey,
    ensures
        s.stage == Stage::SentLostKey && e == EventView::Reply(Outcome::Accepted) ==> step_of(
            s,
            e,
        ).1 == ActionView::Store(rotating(s.config)) && rotating(s.config).first_run && rotating(
            s.config,
        ).token is None,
        s.stage == Stage::StoringRotation && e == EventView::Stored(true) ==> step_of(s, e) == (
            at(s, Stage::AskedKey),
            ActionView::AskKey,
        ),
        step_of(s, e).1 == ActionView::Finish(Ok(())) ==> s.stage == Stage::StoringSession && e
            == EventView::Stored(true),
{
}

/// A login that the server accepts stores the key it was tried with, the
/// token it gave, and that the user is enrolled. A login that fails leaves
/// the configuration as it was.
pub proof fn lemma_login_stores_session(s: AuthFlowView, outcome: Outcome, token: Seq<char>)
    requires
        s.wf(),
        s.stage == Stage::SentLogin,
    ensures
        ({
            let (next, action) = step_of(s, EventView::LoginReply { outcome, token });
            if outcome == Outcome::Accepted {
                &&& action == ActionView::Store(next.config)
                &&& next.config.key == Some(without_trailing_line_breaks(s.key->0))
                &&& next.config.token == Some(without_line_breaks(token))
                &&& !next.config.first_run
            } else {
                &&& next.config == s.config
                &&& action is Finish
                &&& action != ActionView::Finish(Ok(()))
            }
        }),
{
}

impl AuthFlow {
    /// The flow `flow`, not yet begun, on the configuration `config`.
    pub fn new(flow: Flow, config: Config) -> (r: AuthFlow)
        ensures
            r@ == (AuthFlowView { flow, stage: Stage::Start, config: config@, key: None }),
            r@.wf(),
    {
        AuthFlow { flow, stage: Stage::Start, config, key: None }
    }

    /// Ends the flow with `result`.
    fn finish(&mut self, result: Result<(), Error>) -> (action: Action)
        ensures
            (final(self)@, action@) == finish(old(self)@, result),
    {
        self.stage = Stage::Done;
        Action::Finish(result)
    }

    /// Moves to `stage` and stores `config`.
    fn store(&mut self, stage: Stage, config: Config) -> (action: Action)
        ensures
            final(self)@ == (AuthFlowView { stage, config: config@, ..old(self)@ }),
            action@ == ActionView::Store(config@),
    {
        self.stage = stage;
        self.config = config.clone();
        Action::Store(config)
    }

    /// Takes one step: tells the flow what happened and learns what to do
    /// next.
    pub fn step(&mut self, event: Event) -> (action: Action)
        ensures
            (final(self)@, action@) == step_of(old(self)@, event@),
    {
        match (self.stage, event) {
            (Stage::Start, Event::Begin) => match self.flow {
                Flow::FirstRun => {
                    self.stage = Stage::AskedHasKey;
                    Action::AskHasKey
                },
                Flow::Logout => {
                    self.stage = Stage::AskedConfirm;
                    Action::AskConfirm
                },
                Flow::NewKey => {
                    self.stage = Stage::AskedCredentials;
                    Action::AskCredentials
                },
            },
            (Stage::AskedHasKey, Event::Answer(yes)) => {
                if yes {
                    self.stage = Stage::AskedKey;
                    Action::AskKey
                } else {
                    self.stage = Stage::AskedCredentials;
                    Action::AskCredentials
                }
            },
            (Stage::AskedCredentials, Event::Credentials { username, password }) => {
                let api = Api::new_without_token();
                match self.flow {
                    Flow::FirstRun => {
                        self.stage = Stage::SentSignup;
                        Action::Send(api.post_signup(username.as_str(), password.as_str()))
                    },
                    Flow::NewKey => {
                        self.stage = Stage::SentLostKey;
                        Action::Send(api.post_lostkey(username.as_str(), password.as_str()))
                    },
                    Flow::Logout => self.finish(Err(Error::RsmFailed)),
                }
            },
            (Stage::SentSignup, Event::Reply(outcome)) => match outcome {
                Outcome::Accepted => {
                    self.stage = Stage::AskedKey;
                    Action::AskKey
                },
                Outcome::Refused => self.finish(Err(Error::FirstRunFailed)),
                Outcome::Failed(e) => self.finish(Err(e)),
            },
            (Stage::SentLostKey, Event::Reply(outcome)) => match outcome {
                Outcome::Accepted => {
                    let config = Config {
                        key: self.config.key.clone(),
                        token: None,
                        first_run: true,
                    };
                    self.store(Stage::StoringRotation, config)
                },
                Outcome::Refused => self.finish(Err(Error::FailedToUpdateKey)),
                Outcome::Failed(e) => self.finish(Err(e)),
            },
            (Stage::StoringRotation, Event::Stored(ok)) => {
                if ok {
                    self.stage = Stage::AskedKey;
                    Action::AskKey
                } else {
                    self.finish(Err(Error::FailedToUpdateConf))
                }
            },
            (Stage::AskedKey, Event::Key(key)) => {
                let request = Api::new_without_token().post_login(key.as_str());
                self.stage = Stage::SentLogin;
                self.key = Some(key);
                Action::Send(request)
            },
            (Stage::SentLogin, Event::LoginReply { outcome, token }) => match outcome {
                Outcome::Accepted => {
                    let key = match &self.key {
                        Some(k) => Some(string_from(&trim_line_end(&chars_of(k.as_str())))),
                        None => None,
                    };
                    let config = Config {
                        key,
                        token: Some(stored_form(token.as_str())),
                        first_run: false,
                    };
                    self.store(Stage::StoringSession, config)
                },
                Outcome::Refused => self.finish(Err(Error::LoginFail)),
                Outcome::Failed(e) => self.finish(Err(e)),
            },
            (Stage::StoringSession, Event::Stored(ok)) => {
                if ok {
                    self.finish(Ok(()))
                } else {
                    self.finish(Err(Error::FailedToUpdateConf))
                }
            },
            (Stage::AskedConfirm, Event::Answer(yes)) => {
                if !yes {
                    return self.finish(Ok(()));
                }
                let token = match &self.config.token {
                    Some(token) if !self.config.first_run => token.clone(),
                    _ => {
                        return self.finish(Err(Error::NoAuth));
                    },
                };
                self.stage = Stage::SentLogout;
                Action::Send(Api::with_token(Token::new(token)).post_logout(true))
            },
            (Stage::SentLogout, Event::Reply(outcome)) => match outcome {
                Outcome::Accepted => {
                    self.store(
                        Stage::StoringLogout,
                        Config { key: None, token: None, first_run: true },
                    )
                },
                Outcome::Refused => self.finish(Ok(())),
                Outcome::Failed(e) => self.finish(Err(e)),
            },
            (Stage::StoringLogout, Event::Stored(ok)) => {
                if ok {
                    self.finish(Ok(()))
                } else {
                    self.finish(Err(Error::FailedToUpdateConf))
                }
            },
            _ => self.finish(Err(Error::RsmFailed)),
        }
    }
}

} // verus!
