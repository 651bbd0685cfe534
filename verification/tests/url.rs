use rsm::url::query_string;

fn query(opts: &[(&str, &str)]) -> String {
    let opts: Vec<(String, String)> =
        opts.iter().map(|(k, v)| (k.to_string(), v.to_string())).collect();
    query_string(&opts).iter().collect()
}

#[test]
fn no_parameters_make_an_empty_query() {
    assert_eq!(query(&[]), "");
}

#[test]
fn parameters_are_encoded_and_joined() {
    assert_eq!(query(&[("group", "g")]), "group=g");
    assert_eq!(query(&[("group", "g"), ("sort_by", "due")]), "group=g&sort_by=due");
    assert_eq!(query(&[("a b", "c+d"), ("e", "100%")]), "a%20b=c%2Bd&e=100%25");
}

#[test]
fn every_byte_but_the_unreserved_is_escaped_in_upper_case() {
    assert_eq!(query(&[("k", "\u{e9}\u{20ac}\n")]), "k=%C3%A9%E2%82%AC%0A");
    assert_eq!(query(&[("k", "AZaz09-._~")]), "k=AZaz09-._~");
    assert_eq!(query(&[("k", "!*'();:@&=+$,/?#[]")]), "k=%21%2A%27%28%29%3B%3A%40%26%3D%2B%24%2C%2F%3F%23%5B%5D");
}
