//! The requests the client sends. Each operation is framed here as a plain
//! value; sending it is left to the caller.

use crate::config::{stored_token, Config, Stored, Token};
use crate::due::Due;
use crate::error::Error;
use crate::json::{json_compact, write_compact, Members, Scalar, ScalarView};
use crate::text::{chars_of, push_all, push_str, string_from, trim, trimmed};
use crate::url::{query_of, query_string};
use vstd::prelude::*;

verus! {

/// Where the server is reached.
pub const BACKEND: &'static str = "http://100.97.63.15:10001";

/// The method of a request.
#[derive(Clone, Copy, Debug, PartialEq, Eq, Structural)]
pub enum Method {
    Get,
    Post,
    Put,
    Delete,
}

/// A request, ready to be sent. A body is JSON and goes out with the content
/// type `application/json`.
#[derive(Debug)]
pub struct Request {
    pub method: Method,
    pub url: String,
    /// The value of the `Cookie` header.
    pub cookie: String,
    pub body: Option<String>,
}

/// What a `Request` stands for.
pub struct RequestView {
    pub method: Method,
    pub url: Seq<char>,
    pub cookie: Seq<char>,
    pub body: Option<Seq<char>>,
}

impl View for Request {
    type V = RequestView;

    open spec fn view(&self) -> RequestView {
        RequestView {
            method: self.method,
            url: self.url@,
            cookie: self.cookie@,
            body: self.body.deep_view(),
        }
    }
}

/// What is sent along with a task that is added or changed.
#[derive(Debug)]
pub struct TaskPayload {
    pub tablename: String,
    pub description: String,
    pub due: Option<Due>,
    pub group: Option<String>,
}

/// The address of `path` on the server.
pub open spec fn url_of(path: Seq<char>) -> Seq<char> {
    BACKEND@ + path
}

/// The address for listing: the table's, or that of the list of tables, and
/// the parameters as a query string where there are any.
pub open spec fn tasks_url(
    tablename: Option<Seq<char>>,
    opts: Seq<(Seq<char>, Seq<char>)>,
) -> Seq<char> {
    let place = match tablename {
        Some(t) => t,
        None => "list"@,
    };
    let query = if opts.len() > 0 {
        seq!['?'] + query_of(opts)
    } else {
        Seq::empty()
    };
    url_of(seq!['/'] + place + query)
}

/// Under which name a table is cleared: the tables `reminder` and `todo`
/// under their own, any other below `user/`.
pub open spec fn scoped(tablename: Seq<char>) -> Seq<char> {
    if tablename == "reminder"@ || tablename == "todo"@ {
        tablename
    } else {
        "user/"@ + tablename
    }
}

/// The path on which a table is cleared.
pub open spec fn clear_path(tablename: Seq<char>) -> Seq<char> {
    seq!['/'] + scoped(tablename) + "/clear"@
}

/// The members that hold a user's name and password, both without white
/// space around them.
pub open spec fn credentials(usr: Seq<char>, pwd: Seq<char>) -> Members {
    seq![
        ("username"@, ScalarView::Text(trimmed(usr))),
        ("password"@, ScalarView::Text(trimmed(pwd))),
    ]
}

/// The member `name` with the text `value`, where there is one.
pub open spec fn optional(name: Seq<char>, value: Option<Seq<char>>) -> Members {
    match value {
        Some(v) => seq![(name, ScalarView::Text(v))],
        None => Seq::empty(),
    }
}

/// The members that describe a task: its description, and its due time and
/// group where it has them.
pub open spec fn task_members(
    description: Seq<char>,
    due: Option<Seq<char>>,
    group: Option<Seq<char>>,
) -> Members {
    seq![("description"@, ScalarView::Text(description))] + optional("due"@, due) + optional(
        "group"@,
        group,
    )
}

/// The request of method `method` to `path` with the members `members` as
/// its body.
pub open spec fn with_body(
    method: Method,
    path: Seq<char>,
    cookie: Seq<char>,
    members: Members,
) -> RequestView {
    RequestView { method, url: url_of(path), cookie, body: Some(json_compact(members)) }
}

/// The request of method `method` to `path` without a body.
pub open spec fn without_body(method: Method, path: Seq<char>, cookie: Seq<char>) -> RequestView {
    RequestView { method, url: url_of(path), cookie, body: None }
}

/// Every request carries the cookie it was framed with.
pub proof fn lemma_request_carries_cookie(
    method: Method,
    path: Seq<char>,
    cookie: Seq<char>,
    members: Members,
)
    ensures
        with_body(method, path, cookie, members).cookie == cookie,
        without_body(method, path, cookie).cookie == cookie,
{
}

/// The member `name` with the text `value`.
fn text_member(name: &str, value: String) -> (r: (String, Scalar))
    ensures
        r.deep_view() == (name@, ScalarView::Text(value@)),
{
    (name.to_owned(), Scalar::Text(value))
}

/// `s` without the white space around it.
fn trimmed_string(s: &str) -> (r: String)
    ensures
        r@ == trimmed(s@),
{
    string_from(&trim(&chars_of(s)))
}

/// The client's view of the server: the session token, where there is one.
#[derive(Debug)]
pub struct Api {
    token: Option<Token>,
}

impl Api {
    /// The value of the `Cookie` header of every request: the session token,
    /// or nothing where there is none.
    pub closed spec fn cookie(&self) -> Seq<char> {
        match self.token {
            Some(t) => t@,
            None => Seq::empty(),
        }
    }

    /// Whether a session token is held.
    pub closed spec fn has_token(&self) -> bool {
        self.token is Some
    }

    /// A client with the session token that is stored.
    pub fn new(stored: &Stored) -> (r: Result<Api, Error>)
        ensures
            match r {
                Ok(api) => api.has_token() && stored_token(*stored) == Ok::<Seq<char>, Error>(
                    api.cookie(),
                ),
                Err(e) => stored_token(*stored) == Err::<Seq<char>, Error>(e),
            },
    {
        match Config::load_token(stored) {
            Ok(token) => Ok(Api { token: Some(token) }),
            Err(e) => Err(e),
        }
    }

    /// A client with the session token of `config`.
    pub fn for_config(config: &Config) -> (r: Result<Api, Error>)
        ensures
            match r {
                Ok(api) => api.has_token() && config@.token == Some(api.cookie()),
                Err(e) => config@.token is None && e == Error::NoAuth,
            },
    {
        match &config.token {
            Some(token) => Ok(Api { token: Some(Token::new(token.clone())) }),
            None => Err(Error::NoAuth),
        }
    }

    /// A client without a session token, for signing up, logging in and
    /// asking for a new key.
    pub fn new_without_token() -> (r: Api)
        ensures
            !r.has_token(),
            r.cookie() == Seq::<char>::empty(),
    {
        Api { token: None }
    }

    /// A client with the session token `token`.
    pub fn with_token(token: Token) -> (r: Api)
        ensures
            r.has_token(),
            r.cookie() == token@,
    {
        Api { token: Some(token) }
    }

    /// The value of the `Cookie` header.
    pub fn cookie_header(&self) -> (r: String)
        ensures
            r@ == self.cookie(),
    {
        match &self.token {
            Some(t) => t.clone().into_string(),
            None => String::new(),
        }
    }

    /// The request of method `method` to `path` without a body.
    fn plain(&self, method: Method, path: &Vec<char>) -> (r: Request)
        ensures
            r@ == without_body(method, path@, self.cookie()),
    {
        let mut url = chars_of(BACKEND);
        push_all(&mut url, path);
        Request { method, url: string_from(&url), cookie: self.cookie_header(), body: None }
    }

    /// The request of method `method` to `path` with `members` as its body.
    fn framed(
        &self,
        method: Method,
        path: &Vec<char>,
        members: &Vec<(String, Scalar)>,
    ) -> (r: Request)
        ensures
            r@ == with_body(method, path@, self.cookie(), members.deep_view()),
    {
        let mut url = chars_of(BACKEND);
        push_all(&mut url, path);
        Request {
            method,
            url: string_from(&url),
            cookie: self.cookie_header(),
            body: Some(write_compact(members)),
        }
    }

    /// Lists the tables, or the tasks of the table `tablename`, with the
    /// parameters `opts` as the query string.
    pub fn get_tasks(&self, tablename: Option<&str>, opts: &Vec<(String, String)>) -> (r: Request)
        ensures
            r@ == (RequestView {
                method: Method::Get,
                url: tasks_url(
                    match tablename {
                        Some(t) => Some(t@),
                        None => None,
                    },
                    opts.deep_view(),
                ),
                cookie: self.cookie(),
                body: None,
            }),
    {
        let mut path: Vec<char> = Vec::new();
        path.push('/');
        push_str(
            &mut path,
            match tablename {
                Some(t) => t,
                None => "list",
            },
        );
        assert(opts.deep_view().len() == opts.len());
        if opts.len() > 0 {
            path.push('?');
            push_all(&mut path, &query_string(opts));
        }
        let ghost place = match tablename {
            Some(t) => t@,
            None => "list"@,
        };
        assert(path@ == seq!['/'] + place + if opts.len() > 0 {
            seq!['?'] + query_of(opts.deep_view())
        } else {
            Seq::empty()
        });
        self.plain(Method::Get, &path)
    }

    /// Signs the user up.
    pub fn post_signup(&self, usr: &str, pwd: &str) -> (r: Request)
        ensures
            r@ == with_body(Method::Post, "/signup"@, self.cookie(), credentials(usr@, pwd@)),
    {
        let mut members: Vec<(String, Scalar)> = Vec::new();
        members.push(text_member("username", trimmed_string(usr)));
        members.push(text_member("password", trimmed_string(pwd)));
        assert(members.deep_view() =~= credentials(usr@, pwd@));
        self.framed(Method::Post, &chars_of("/signup"), &members)
    }

    /// Logs in with the key `key`, taken without the white space around it.
    pub fn post_login(&self, key: &str) -> (r: Request)
        ensures
            r@ == with_body(
                Method::Post,
                "/login"@,
                self.cookie(),
                seq![("key"@, ScalarView::Text(trimmed(key@)))],
            ),
    {
        let mut members: Vec<(String, Scalar)> = Vec::new();
        members.push(text_member("key", trimmed_string(key)));
        assert(members.deep_view() =~= seq![("key"@, ScalarView::Text(trimmed(key@)))]);
        self.framed(Method::Post, &chars_of("/login"), &members)
    }

    /// Ends the session.
    pub fn post_logout(&self, logout: bool) -> (r: Request)
        ensures
            r@ == with_body(
                Method::Post,
                "/logout"@,
                self.cookie(),
                seq![("logout"@, ScalarView::Bool(logout))],
            ),
    {
        let mut members: Vec<(String, Scalar)> = Vec::new();
        members.push(("logout".to_owned(), Scalar::Bool(logout)));
        assert(members.deep_view() =~= seq![("logout"@, ScalarView::Bool(logout))]);
        self.framed(Method::Post, &chars_of("/logout"), &members)
    }

    /// Asks for a new key in place of a lost one.
    pub fn post_lostkey(&self, usr: &str, pwd: &str) -> (r: Request)
        ensures
            r@ == with_body(Method::Post, "/lostkey"@, self.cookie(), credentials(usr@, pwd@)),
    {
        let mut members: Vec<(String, Scalar)> = Vec::new();
        members.push(text_member("username", trimmed_string(usr)));
        members.push(text_member("password", trimmed_string(pwd)));
        assert(members.deep_view() =~= credentials(usr@, pwd@));
        self.framed(Method::Post, &chars_of("/lostkey"), &members)
    }

    /// Removes every task of the table `tablename`.
    pub fn clear_table(&self, tablename: String) -> (r: Request)
        ensures
            r@ == without_body(Method::Delete, clear_path(tablename@), self.cookie()),
    {
        let name = chars_of(tablename.as_str());
        let mut path: Vec<char> = Vec::new();
        path.push('/');
        if !(tablename == "reminder".to_owned() || tablename == "todo".to_owned()) {
            push_str(&mut path, "user/");
        }
        push_all(&mut path, &name);
        push_str(&mut path, "/clear");
        assert(path@ == clear_path(tablename@));
        self.plain(Method::Delete, &path)
    }

    /// Creates the table `tablename`, with or without due times.
    pub fn create_table(&self, tablename: &str, has_due: bool) -> (r: Request)
        ensures
            r@ == with_body(
                Method::Post,
                "/create"@,
                self.cookie(),
                seq![
                    ("tablename"@, ScalarView::Text(tablename@)),
                    ("has_due"@, ScalarView::Bool(has_due)),
                ],
            ),
    {
        let mut members: Vec<(String, Scalar)> = Vec::new();
        members.push(text_member("tablename", tablename.to_owned()));
        members.push(("has_due".to_owned(), Scalar::Bool(has_due)));
        assert(members.deep_view() =~= seq![
            ("tablename"@, ScalarView::Text(tablename@)),
            ("has_due"@, ScalarView::Bool(has_due)),
        ]);
        self.framed(Method::Post, &chars_of("/create"), &members)
    }

    /// Deletes the table `tablename`.
    pub fn drop_table(&self, tablename: &str) -> (r: Request)
        ensures
            r@ == without_body(Method::Delete, seq!['/'] + tablename@, self.cookie()),
    {
        let mut path: Vec<char> = Vec::new();
        path.push('/');
        push_str(&mut path, tablename);
        self.plain(Method::Delete, &path)
    }

    /// The members that describe the task of `payload`.
    fn describe(payload: &TaskPayload, members: &mut Vec<(String, Scalar)>)
        ensures
            final(members).deep_view() == old(members).deep_view() + task_members(
                payload.description@,
                payload.due.deep_view(),
                payload.group.deep_view(),
            ),
    {
        let ghost before = members.deep_view();
        members.push(text_member("description", payload.description.clone()));
        assert(members.deep_view() =~= before + seq![
            ("description"@, ScalarView::Text(payload.description@)),
        ]);
        let ghost first = members.deep_view();
        match &payload.due {
            Some(due) => {
                members.push(text_member("due", due.as_str().to_owned()));
                assert(members.deep_view() =~= first + optional("due"@, payload.due.deep_view()));
            },
            None => {},
        }
        let ghost second = members.deep_view();
        match &payload.group {
            Some(group) => {
                members.push(text_member("group", group.clone()));
                assert(members.deep_view() =~= second + optional(
                    "group"@,
                    payload.group.deep_view(),
                ));
            },
            None => {},
        }
        assert(members.deep_view() =~= before + task_members(
            payload.description@,
            payload.due.deep_view(),
            payload.group.deep_view(),
        ));
    }

    /// Adds the task of `payload` to its table.
    pub fn add_task(&self, payload: &TaskPayload) -> (r: Request)
        ensures
            r@ == with_body(
                Method::Post,
                seq!['/'] + payload.tablename@,
                self.cookie(),
                task_members(
                    payload.description@,
                    payload.due.deep_view(),
                    payload.group.deep_view(),
                ),
            ),
    {
        let mut path: Vec<char> = Vec::new();
        path.push('/');
        push_str(&mut path, payload.tablename.as_str());
        let mut members: Vec<(String, Scalar)> = Vec::new();
        assert(members.deep_view() =~= Seq::empty());
        Api::describe(payload, &mut members);
        assert(members.deep_view() =~= task_members(
            payload.description@,
            payload.due.deep_view(),
            payload.group.deep_view(),
        ));
        self.framed(Method::Post, &path, &members)
    }

    /// Puts the task of `payload` in place of the task of its table that is
    /// described as `old_desc`.
    pub fn update_task(&self, old_desc: &str, payload: &TaskPayload) -> (r: Request)
        ensures
            r@ == with_body(
                Method::Put,
                seq!['/'] + payload.tablename@,
                self.cookie(),
                seq![("old_desc"@, ScalarView::Text(old_desc@))] + task_members(
                    payload.description@,
                    payload.due.deep_view(),
                    payload.group.deep_view(),
                ),
            ),
    {
        let mut path: Vec<char> = Vec::new();
        path.push('/');
        push_str(&mut path, payload.tablename.as_str());
        let mut members: Vec<(String, Scalar)> = Vec::new();
        members.push(text_member("old_desc", old_desc.to_owned()));
        assert(members.deep_view() =~= seq![("old_desc"@, ScalarView::Text(old_desc@))]);
        Api::describe(payload, &mut members);
        self.framed(Method::Put, &path, &members)
    }

    /// Removes the task described as `desc` from the table `tablename`.
    pub fn remove_task(&self, tablename: &str, desc: &str) -> (r: Request)
        ensures
            r@ == with_body(
                Method::Delete,
                seq!['/'] + tablename@,
                self.cookie(),
                seq![("desc"@, ScalarView::Text(desc@))],
            ),
    {
        let mut path: Vec<char> = Vec::new();
        path.push('/');
        push_str(&mut path, tablename);
        let mut members: Vec<(String, Scalar)> = Vec::new();
        members.push(text_member("desc", desc.to_owned()));
        assert(members.deep_view() =~= seq![("desc"@, ScalarView::Text(desc@))]);
        self.framed(Method::Delete, &path, &members)
    }
}

} // verus!
