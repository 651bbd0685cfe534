use rsm::due::LocalTime;
use rsm::error::Error;
use rsm::listing::{read_exchange, read_listing, Listing};
use rsm::reply::Exchange;

#[test]
fn tables_are_read_with_name_and_due() {
    let body = "{\"res\": [{\"has_due\": true, \"name\": \"reminder\"}, {\"name\": \"todo\", \"has_due\": false}]}";
    match read_listing(body, false).unwrap() {
        Listing::Tables(tables) => {
            assert_eq!(tables.res.len(), 2);
            assert_eq!(tables.res[0].name, "reminder");
            assert!(tables.res[0].has_due);
            assert_eq!(tables.res[1].name, "todo");
            assert!(!tables.res[1].has_due);
        },
        _ => panic!("no tables"),
    }
}

#[test]
fn tasks_are_read_with_description_group_and_due() {
    let body = "{\"res\": [{\"description\": \"buy milk\", \"group\": \"home\", \"due\": \"2024-03-05T07:15:00\"}, {\"description\": \"call\", \"group\": \"\", \"due\": null}, {\"description\": \"x\", \"group\": \"g\"}]}";
    match read_listing(body, true).unwrap() {
        Listing::Tasks(tasks) => {
            assert_eq!(tasks.res.len(), 3);
            assert_eq!(tasks.res[0].description, "buy milk");
            assert_eq!(tasks.res[0].group, "home");
            assert_eq!(tasks.res[0].due, LocalTime::new(2024, 3, 5, 7, 15, 0, 0));
            assert_eq!(tasks.res[1].description, "call");
            assert_eq!(tasks.res[1].group, "");
            assert_eq!(tasks.res[1].due, None);
            assert_eq!(tasks.res[2].due, None);
        },
        _ => panic!("no tasks"),
    }
}

#[test]
fn an_empty_list_is_a_list() {
    assert!(matches!(read_listing("{\"res\": []}", false).unwrap(), Listing::Tables(t) if t.res.is_empty()));
    assert!(matches!(read_listing("{\"res\": []}", true).unwrap(), Listing::Tasks(t) if t.res.is_empty()));
}

#[test]
fn a_refusal_is_read_with_its_account() {
    let body = "{\"error\": {\"req_uuid\": \"7\", \"type\": \"NO_SUCH_TABLE\"}}";
    for of_table in [false, true] {
        match read_listing(body, of_table).unwrap() {
            Listing::Failure(detail) => {
                assert_eq!(detail.req_uuid, "7");
                assert_eq!(detail.error_type, "NO_SUCH_TABLE");
            },
            _ => panic!("no failure"),
        }
    }
}

#[test]
fn what_is_no_listing_cannot_be_read() {
    for (body, of_table) in [
        ("", false),
        ("{}", false),
        ("{\"res\": {}}", false),
        ("{\"res\": [1]}", false),
        ("{\"res\": [{\"name\": \"t\"}]}", false),
        ("{\"res\": [{\"name\": \"t\", \"has_due\": \"yes\"}]}", false),
        ("{\"res\": [{\"has_due\": true, \"name\": null}]}", false),
        ("{\"res\": [{\"has_due\": true, \"name\": \"t\"}]}", true),
        ("{\"res\": [{\"description\": \"d\", \"group\": \"g\", \"due\": \"tomorrow\"}]}", true),
        ("{\"res\": [{\"description\": \"d\", \"group\": \"g\", \"due\": 5}]}", true),
        ("{\"res\": [{\"description\": \"d\"}]}", true),
        ("{\"res\": [{\"description\": \"d\", \"group\": \"g\"}, {}]}", true),
        ("{\"error\": 1}", true),
    ] {
        assert_eq!(
            read_listing(body, of_table).unwrap_err(),
            Error::FailedtoReadServerResponse,
            "{body}"
        );
    }
}

#[test]
fn an_exchange_without_a_body_lists_nothing() {
    assert_eq!(read_exchange(&Exchange::Unsent, true).unwrap_err(), Error::FailedToConnectToServer);
    assert_eq!(read_exchange(&Exchange::Unread, false).unwrap_err(), Error::InvalidServerResponse);
    let body = Exchange::Body("{\"res\": []}".to_string());
    assert!(matches!(read_exchange(&body, true).unwrap(), Listing::Tasks(t) if t.res.is_empty()));
}
