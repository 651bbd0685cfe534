//! The credentials the client keeps between runs: a key, a session token and
//! whether the user still has to enrol. They are stored as a JSON object with
//! the members `key`, `token` and `first_run`.

use crate::error::Error;
use crate::json::{
    as_read, bool_member, get_bool, get_text, json_members, json_pretty, member, read_members,
    text_member, write_pretty, Members, ReadMembers, Scalar, ScalarView,
};
use crate::text::{chars_of, push_str, string_from, trim, trimmed};
use vstd::prelude::*;

verus! {

/// A session token, as the server issued it.
#[derive(Debug, Default)]
pub struct Token(String);

impl View for Token {
    type V = Seq<char>;

    closed spec fn view(&self) -> Seq<char> {
        self.0@
    }
}

impl Clone for Token {
    fn clone(&self) -> (r: Token)
        ensures
            r@ == self@,
    {
        Token(self.0.clone())
    }
}

impl From<String> for Token {
    fn from(value: String) -> (r: Token) {
        Token(value)
    }
}

impl vstd::std_specs::convert::FromSpecImpl<String> for Token {
    open spec fn obeys_from_spec() -> bool {
        true
    }

    open spec fn from_spec(value: String) -> Token {
        token_of(value)
    }
}

/// The token with the text `value`.
pub closed spec fn token_of(value: String) -> Token {
    Token(value)
}

/// A token made from a text has that text.
pub proof fn lemma_token_of(value: String)
    ensures
        token_of(value)@ == value@,
{
}

impl Token {
    /// The token with this text.
    pub fn new(text: String) -> (r: Token)
        ensures
            r@ == text@,
    {
        Token(text)
    }

    /// The text of the token.
    pub fn as_str(&self) -> (s: &str)
        ensures
            s@ == self@,
    {
        self.0.as_str()
    }

    /// The text of the token.
    pub fn into_string(self) -> (s: String)
        ensures
            s@ == self@,
    {
        self.0
    }
}

/// What the client keeps between runs.
#[derive(Debug)]
pub struct Config {
    /// The credential with which the user logs in.
    pub key: Option<String>,
    /// The session token of the last login.
    pub token: Option<String>,
    /// Whether the user has to enrol before anything else.
    pub first_run: bool,
}

/// What a `Config` stands for.
pub struct ConfigView {
    pub key: Option<Seq<char>>,
    pub token: Option<Seq<char>>,
    pub first_run: bool,
}

impl View for Config {
    type V = ConfigView;

    open spec fn view(&self) -> ConfigView {
        ConfigView {
            key: self.key.deep_view(),
            token: self.token.deep_view(),
            first_run: self.first_run,
        }
    }
}

impl Clone for Config {
    fn clone(&self) -> (r: Config)
        ensures
            r@ == self@,
    {
        Config { key: self.key.clone(), token: self.token.clone(), first_run: self.first_run }
    }
}

/// What was found where the configuration is kept.
#[derive(Debug)]
pub enum Stored {
    /// There is no file.
    Missing,
    /// There is a file and it could not be read.
    Unreadable,
    /// The contents of the file.
    Text(String),
}

/// A configuration that was loaded.
#[derive(Debug)]
pub struct Loaded {
    pub config: Config,
    /// The text with which the file has to be created, where there was none
    /// or an empty one.
    pub create: Option<String>,
}

/// The configuration of a client that was never used.
pub open spec fn fresh_config() -> ConfigView {
    ConfigView { key: None, token: None, first_run: true }
}

/// The member value that stands for a string that may be missing.
pub open spec fn optional_text(t: Option<Seq<char>>) -> ScalarView {
    match t {
        Some(s) => ScalarView::Text(s),
        None => ScalarView::Null,
    }
}

/// The members as which a configuration is written.
pub open spec fn config_members(c: ConfigView) -> Members {
    seq![
        ("key"@, optional_text(c.key)),
        ("first_run"@, ScalarView::Bool(c.first_run)),
        ("token"@, optional_text(c.token)),
    ]
}

/// The configuration that an object with these members stands for: `key` and
/// `token` each a string, `null` or missing, and `first_run` a truth value.
pub open spec fn config_of(members: ReadMembers) -> Option<ConfigView> {
    match (
        text_member(members, "key"@),
        text_member(members, "token"@),
        bool_member(members, "first_run"@),
    ) {
        (Ok(key), Ok(token), Some(first_run)) => Some(ConfigView { key, token, first_run }),
        _ => None,
    }
}

/// The text as which a configuration is stored, or the failure to write it.
pub open spec fn config_text(c: ConfigView) -> Result<Seq<char>, Error> {
    match json_pretty(config_members(c)) {
        Some(t) => Ok(t),
        None => Err(Error::FailedToUpdateConf),
    }
}

/// The configuration that a stored text holds.
pub open spec fn config_in(text: Seq<char>) -> Result<ConfigView, Error> {
    match json_members(text, ""@) {
        None => Err(Error::InvalidConfig),
        Some(members) => match config_of(members) {
            Some(c) => Ok(c),
            None => Err(Error::InvalidConfig),
        },
    }
}

/// What loading makes of what is stored: a missing or empty file is created
/// with the configuration of a client that was never used, and that
/// configuration is the one loaded.
pub open spec fn loaded(stored: Stored) -> Result<(ConfigView, Option<Seq<char>>), Error> {
    match stored {
        Stored::Unreadable => Err(Error::FailedToReadConfig),
        Stored::Text(t) if t@.len() > 0 => match config_in(t@) {
            Ok(c) => Ok((c, None)),
            Err(e) => Err(e),
        },
        _ => match config_text(fresh_config()) {
            Ok(t) => Ok((fresh_config(), Some(t))),
            Err(e) => Err(e),
        },
    }
}

/// The session token in what is stored.
pub open spec fn stored_token(stored: Stored) -> Result<Seq<char>, Error> {
    match stored {
        Stored::Missing => Err(Error::InvalidConfig),
        Stored::Unreadable => Err(Error::FailedToReadConfig),
        Stored::Text(t) => match config_in(t@) {
            Err(e) => Err(e),
            Ok(c) => match c.token {
                Some(token) => Ok(token),
                None => Err(Error::NoAuth),
            },
        },
    }
}

/// The path of the configuration file in the directory `found`, which may have
/// white space around it.
pub open spec fn config_path_of(found: Seq<char>) -> Seq<char> {
    trimmed(found) + "/rsm-conf.json"@
}

/// Writing a configuration as members and reading those members gives the
/// configuration back.
pub proof fn lemma_members_round_trip(c: ConfigView)
    ensures
        config_of(as_read(config_members(c))) == Some(c),
{
    reveal_strlit("key");
    reveal_strlit("first_run");
    reveal_strlit("token");
    let m = as_read(config_members(c));
    let m1 = m.drop_first();
    let m2 = m1.drop_first();
    assert(m[0].0 == "key"@);
    assert(m1[0].0 == "first_run"@);
    assert(m2[0].0 == "token"@);
    assert("key"@.len() == 3 && "first_run"@.len() == 9 && "token"@.len() == 5);
    assert(member(m, "key"@) == Some(Some(optional_text(c.key))));
    assert(member(m2, "token"@) == Some(Some(optional_text(c.token))));
    assert(member(m1, "token"@) == member(m2, "token"@));
    assert(member(m, "token"@) == member(m1, "token"@));
    assert(member(m1, "first_run"@) == Some(Some(ScalarView::Bool(c.first_run))));
    assert(member(m, "first_run"@) == member(m1, "first_run"@));
}

/// The member value that stands for `t`.
fn optional_scalar(t: &Option<String>) -> (r: Scalar)
    ensures
        r.deep_view() == optional_text(t.deep_view()),
{
    match t {
        Some(s) => Scalar::Text(s.clone()),
        None => Scalar::Null,
    }
}

impl Config {
    /// The configuration of a client that was never used.
    pub fn fresh() -> (r: Config)
        ensures
            r@ == fresh_config(),
    {
        Config { key: None, token: None, first_run: true }
    }

    /// The members as which the configuration is written.
    pub fn members(&self) -> (r: Vec<(String, Scalar)>)
        ensures
            r.deep_view() == config_members(self@),
    {
        let mut r: Vec<(String, Scalar)> = Vec::new();
        r.push(("key".to_owned(), optional_scalar(&self.key)));
        r.push(("first_run".to_owned(), Scalar::Bool(self.first_run)));
        r.push(("token".to_owned(), optional_scalar(&self.token)));
        assert(r.deep_view() =~= config_members(self@));
        r
    }

    /// The configuration that an object with these members stands for.
    pub fn from_members(members: &Vec<(String, Option<Scalar>)>) -> (r: Option<Config>)
        ensures
            match r {
                Some(c) => config_of(members.deep_view()) == Some(c@),
                None => config_of(members.deep_view()) is None,
            },
    {
        let key = match get_text(members, "key") {
            Ok(key) => key,
            Err(_) => {
                return None;
            },
        };
        let token = match get_text(members, "token") {
            Ok(token) => token,
            Err(_) => {
                return None;
            },
        };
        match get_bool(members, "first_run") {
            Some(first_run) => Some(Config { key, token, first_run }),
            None => None,
        }
    }

    /// The configuration that the text `text` holds.
    pub fn parse(text: &str) -> (r: Result<Config, Error>)
        ensures
            match r {
                Ok(c) => config_in(text@) == Ok::<ConfigView, Error>(c@),
                Err(e) => config_in(text@) == Err::<ConfigView, Error>(e),
            },
    {
        match read_members(text, "") {
            None => Err(Error::InvalidConfig),
            Some(members) => match Config::from_members(&members) {
                Some(c) => Ok(c),
                None => Err(Error::InvalidConfig),
            },
        }
    }

    /// Loads the configuration from what was found where it is kept. Where
    /// the result holds a text to create the file with, the caller writes it.
    pub fn get_config(stored: &Stored) -> (r: Result<Loaded, Error>)
        ensures
            match r {
                Ok(l) => loaded(*stored) == Ok::<(ConfigView, Option<Seq<char>>), Error>(
                    (l.config@, l.create.deep_view()),
                ),
                Err(e) => loaded(*stored) == Err::<(ConfigView, Option<Seq<char>>), Error>(e),
            },
    {
        match stored {
            Stored::Unreadable => Err(Error::FailedToReadConfig),
            Stored::Text(t) if t.as_str().unicode_len() > 0 => match Config::parse(t.as_str()) {
                Ok(config) => Ok(Loaded { config, create: None }),
                Err(e) => Err(e),
            },
            _ => {
                let config = Config::fresh();
                match config.update_config() {
                    Ok(text) => Ok(Loaded { config, create: Some(text) }),
                    Err(e) => Err(e),
                }
            },
        }
    }

    /// The text as which the configuration is stored. The caller writes it in
    /// place of what was stored before.
    pub fn update_config(&self) -> (r: Result<String, Error>)
        ensures
            match r {
                Ok(t) => config_text(self@) == Ok::<Seq<char>, Error>(t@),
                Err(e) => config_text(self@) == Err::<Seq<char>, Error>(e),
            },
    {
        match write_pretty(&self.members()) {
            Some(text) => Ok(text),
            None => Err(Error::FailedToUpdateConf),
        }
    }

    /// The session token in what was found where the configuration is kept.
    pub fn load_token(stored: &Stored) -> (r: Result<Token, Error>)
        ensures
            match r {
                Ok(t) => stored_token(*stored) == Ok::<Seq<char>, Error>(t@),
                Err(e) => stored_token(*stored) == Err::<Seq<char>, Error>(e),
            },
    {
        match stored {
            Stored::Missing => Err(Error::InvalidConfig),
            Stored::Unreadable => Err(Error::FailedToReadConfig),
            Stored::Text(t) => match Config::parse(t.as_str()) {
                Err(e) => Err(e),
                Ok(config) => match config.token {
                    Some(token) => Ok(Token::new(token)),
                    None => Err(Error::NoAuth),
                },
            },
        }
    }
}

/// Computes `config_path_of`.
pub fn config_path(found: &str) -> (r: String)
    ensures
        r@ == config_path_of(found@),
{
    let mut path = trim(&chars_of(found));
    push_str(&mut path, "/rsm-conf.json");
    string_from(&path)
}

} // verus!
