use rsm::api::{Api, Method, Request, TaskPayload, BACKEND};
use rsm::config::{Config, Stored, Token};
use rsm::due::{Due, LocalTime};
use rsm::error::Error;

fn api() -> Api {
    Api::with_token(Token::new("sid=1; Path=/".to_string()))
}

fn check(r: &Request, method: Method, path: &str, cookie: &str, body: Option<&str>) {
    assert_eq!(r.method, method);
    assert_eq!(r.url, format!("http://100.97.63.15:10001{path}"));
    assert_eq!(r.cookie, cookie);
    assert_eq!(r.body.as_deref(), body);
}

fn pairs(opts: &[(&str, &str)]) -> Vec<(String, String)> {
    opts.iter().map(|(k, v)| (k.to_string(), v.to_string())).collect()
}

#[test]
fn the_server_is_where_it_is() {
    assert_eq!(BACKEND, "http://100.97.63.15:10001");
}

#[test]
fn a_client_is_made_with_the_stored_token() {
    let stored = Stored::Text(
        "{\"key\":\"k\",\"token\":\"sid=9\",\"first_run\":false}".to_string(),
    );
    let api = Api::new(&stored).unwrap();
    assert_eq!(api.cookie_header(), "sid=9");
    let stored = Stored::Text("{\"key\":\"k\",\"token\":null,\"first_run\":true}".to_string());
    assert_eq!(Api::new(&stored).unwrap_err(), Error::NoAuth);
    assert_eq!(Api::new(&Stored::Missing).unwrap_err(), Error::InvalidConfig);
    assert_eq!(Api::new(&Stored::Unreadable).unwrap_err(), Error::FailedToReadConfig);
}

#[test]
fn a_client_is_made_for_a_configuration() {
    let config = Config { key: None, token: Some("sid=3".to_string()), first_run: false };
    assert_eq!(Api::for_config(&config).unwrap().cookie_header(), "sid=3");
    let config = Config { key: Some("k".to_string()), token: None, first_run: true };
    assert_eq!(Api::for_config(&config).unwrap_err(), Error::NoAuth);
}

#[test]
fn without_a_token_the_cookie_is_empty() {
    assert_eq!(Api::new_without_token().cookie_header(), "");
    let r = Api::new_without_token().post_login("k");
    assert_eq!(r.cookie, "");
}

#[test]
fn every_request_carries_the_token() {
    let api = api();
    let token = "sid=1; Path=/";
    let payload = TaskPayload {
        tablename: "t".to_string(),
        description: "d".to_string(),
        due: None,
        group: None,
    };
    let requests = [
        api.get_tasks(None, &Vec::new()),
        api.get_tasks(Some("t"), &pairs(&[("group", "g")])),
        api.clear_table("t".to_string()),
        api.create_table("t", false),
        api.drop_table("t"),
        api.add_task(&payload),
        api.update_task("o", &payload),
        api.remove_task("t", "d"),
        api.post_logout(true),
    ];
    for r in &requests {
        assert_eq!(r.cookie, token);
    }
}

#[test]
fn tables_are_listed_at_list() {
    check(&api().get_tasks(None, &Vec::new()), Method::Get, "/list", "sid=1; Path=/", None);
}

#[test]
fn tasks_are_listed_at_the_table() {
    check(&api().get_tasks(Some("todo"), &Vec::new()), Method::Get, "/todo", "sid=1; Path=/", None);
}

#[test]
fn the_query_encodes_names_and_values_and_joins_them() {
    let r = api().get_tasks(Some("todo"), &pairs(&[("group", "g"), ("sort_by", "due")]));
    assert_eq!(r.url, "http://100.97.63.15:10001/todo?group=g&sort_by=due");
    let r = api().get_tasks(Some("todo"), &pairs(&[("sort by", "a&b=c/\u{fc}")]));
    assert_eq!(r.url, "http://100.97.63.15:10001/todo?sort%20by=a%26b%3Dc%2F%C3%BC");
    let r = api().get_tasks(Some("todo"), &pairs(&[("a", ""), ("", "b"), ("-._~", "Az09")]));
    assert_eq!(r.url, "http://100.97.63.15:10001/todo?a=&=b&-._~=Az09");
}

#[test]
fn signup_sends_name_and_password_trimmed() {
    let r = Api::new_without_token().post_signup(" user \n", "\tpass word ");
    check(
        &r,
        Method::Post,
        "/signup",
        "",
        Some("{\"password\":\"pass word\",\"username\":\"user\"}"),
    );
}

#[test]
fn login_sends_the_key_trimmed() {
    let r = Api::new_without_token().post_login("  key-1\n");
    check(&r, Method::Post, "/login", "", Some("{\"key\":\"key-1\"}"));
    let r = api().post_login("k\"q");
    check(&r, Method::Post, "/login", "sid=1; Path=/", Some("{\"key\":\"k\\\"q\"}"));
}

#[test]
fn logout_sends_the_flag() {
    check(&api().post_logout(true), Method::Post, "/logout", "sid=1; Path=/", Some("{\"logout\":true}"));
    check(&api().post_logout(false), Method::Post, "/logout", "sid=1; Path=/", Some("{\"logout\":false}"));
}

#[test]
fn lostkey_sends_name_and_password_trimmed() {
    let r = Api::new_without_token().post_lostkey("u ", " p");
    check(&r, Method::Post, "/lostkey", "", Some("{\"password\":\"p\",\"username\":\"u\"}"));
}

#[test]
fn built_in_tables_are_cleared_under_their_own_name() {
    check(&api().clear_table("reminder".to_string()), Method::Delete, "/reminder/clear", "sid=1; Path=/", None);
    check(&api().clear_table("todo".to_string()), Method::Delete, "/todo/clear", "sid=1; Path=/", None);
}

#[test]
fn other_tables_are_cleared_below_user() {
    check(&api().clear_table("my table".to_string()), Method::Delete, "/user/my table/clear", "sid=1; Path=/", None);
    check(&api().clear_table("Todo".to_string()), Method::Delete, "/user/Todo/clear", "sid=1; Path=/", None);
    check(&api().clear_table(String::new()), Method::Delete, "/user//clear", "sid=1; Path=/", None);
}

#[test]
fn a_table_is_created_with_its_name_and_whether_it_has_due_times() {
    check(
        &api().create_table("shopping", true),
        Method::Post,
        "/create",
        "sid=1; Path=/",
        Some("{\"has_due\":true,\"tablename\":\"shopping\"}"),
    );
}

#[test]
fn a_table_is_dropped_at_its_address() {
    check(&api().drop_table("shopping"), Method::Delete, "/shopping", "sid=1; Path=/", None);
}

#[test]
fn a_task_is_added_with_what_it_has() {
    let now = LocalTime::new(2024, 1, 1, 0, 0, 0, 0).unwrap();
    let full = TaskPayload {
        tablename: "todo".to_string(),
        description: "buy milk".to_string(),
        due: Some(Due::parse_at("2024-03-05 07:15", &now).unwrap()),
        group: Some("home".to_string()),
    };
    check(
        &api().add_task(&full),
        Method::Post,
        "/todo",
        "sid=1; Path=/",
        Some("{\"description\":\"buy milk\",\"due\":\"2024-03-05T07:15:00\",\"group\":\"home\"}"),
    );
    let bare = TaskPayload {
        tablename: "todo".to_string(),
        description: "buy milk\n".to_string(),
        due: None,
        group: None,
    };
    check(
        &api().add_task(&bare),
        Method::Post,
        "/todo",
        "sid=1; Path=/",
        Some("{\"description\":\"buy milk\\n\"}"),
    );
}

#[test]
fn a_task_is_updated_by_its_old_description() {
    let payload = TaskPayload {
        tablename: "todo".to_string(),
        description: "new".to_string(),
        due: None,
        group: Some("g".to_string()),
    };
    check(
        &api().update_task("old", &payload),
        Method::Put,
        "/todo",
        "sid=1; Path=/",
        Some("{\"description\":\"new\",\"group\":\"g\",\"old_desc\":\"old\"}"),
    );
}

#[test]
fn a_task_is_removed_by_its_description() {
    check(
        &api().remove_task("todo", "old"),
        Method::Delete,
        "/todo",
        "sid=1; Path=/",
        Some("{\"desc\":\"old\"}"),
    );
}
