use quickinject::discovery::parse_targets;
use quickinject::errors::Error;

fn listing_one_target() -> String {
    String::from(
        "[{\"description\":\"\",\"devtoolsFrontendUrl\":\"http://h/front\",\
         \"id\":\"abc\",\"title\":\"QuickAccess\",\"type\":\"page\",\
         \"url\":\"http://h/page\",\"webSocketDebuggerUrl\":\"ws://h/1\"}]",
    )
}

#[test]
fn parse_one_target_reads_all_fields() {
    let targets = parse_targets(listing_one_target().as_str()).unwrap();
    assert_eq!(targets.len(), 1);
    assert_eq!(targets[0].description, "");
    assert_eq!(targets[0].devtools_frontend_url, "http://h/front");
    assert_eq!(targets[0].id, "abc");
    assert_eq!(targets[0].title, "QuickAccess");
    assert_eq!(targets[0].kind, "page");
    assert_eq!(targets[0].url, "http://h/page");
    assert_eq!(targets[0].web_socket_debugger_url, "ws://h/1");
}

#[test]
fn parse_empty_array_is_ok() {
    let targets = parse_targets("[]").unwrap();
    assert!(targets.is_empty());
}

#[test]
fn parse_keeps_server_order() {
    let body = "[{\"description\":\"d1\",\"devtoolsFrontendUrl\":\"f1\",\"id\":\"1\",\
                \"title\":\"A\",\"type\":\"page\",\"url\":\"u1\",\"webSocketDebuggerUrl\":\"w1\"},\
                {\"description\":\"d2\",\"devtoolsFrontendUrl\":\"f2\",\"id\":\"2\",\
                \"title\":\"B\",\"type\":\"page\",\"url\":\"u2\",\"webSocketDebuggerUrl\":\"w2\"}]";
    let targets = parse_targets(body).unwrap();
    assert_eq!(targets.len(), 2);
    assert_eq!(targets[0].title, "A");
    assert_eq!(targets[1].title, "B");
}

#[test]
fn parse_ignores_unknown_fields() {
    let body = "[{\"description\":\"\",\"devtoolsFrontendUrl\":\"f\",\"id\":\"1\",\
                \"title\":\"T\",\"type\":\"page\",\"url\":\"u\",\"webSocketDebuggerUrl\":\"w\",\
                \"faviconUrl\":\"http://h/icon\",\"extra\":42}]";
    let targets = parse_targets(body).unwrap();
    assert_eq!(targets.len(), 1);
    assert_eq!(targets[0].title, "T");
}

#[test]
fn parse_malformed_json_is_a_parse_error() {
    assert_eq!(parse_targets("not json").unwrap_err(), Error::Parse);
    assert_eq!(parse_targets("[{").unwrap_err(), Error::Parse);
}

#[test]
fn parse_non_array_is_a_parse_error() {
    assert_eq!(parse_targets("{\"title\":\"QuickAccess\"}").unwrap_err(), Error::Parse);
}

#[test]
fn parse_missing_required_field_is_a_parse_error() {
    let body = "[{\"description\":\"\",\"devtoolsFrontendUrl\":\"f\",\"id\":\"1\",\
                \"title\":\"T\",\"type\":\"page\",\"url\":\"u\"}]";
    assert_eq!(parse_targets(body).unwrap_err(), Error::Parse);
}

#[test]
fn parse_non_string_required_field_is_a_parse_error() {
    let body = "[{\"description\":\"\",\"devtoolsFrontendUrl\":\"f\",\"id\":7,\
                \"title\":\"T\",\"type\":\"page\",\"url\":\"u\",\"webSocketDebuggerUrl\":\"w\"}]";
    assert_eq!(parse_targets(body).unwrap_err(), Error::Parse);
}

#[test]
fn parse_one_bad_element_fails_the_whole_listing() {
    let body = "[{\"description\":\"d1\",\"devtoolsFrontendUrl\":\"f1\",\"id\":\"1\",\
                \"title\":\"A\",\"type\":\"page\",\"url\":\"u1\",\"webSocketDebuggerUrl\":\"w1\"},\
                {\"title\":\"B\"}]";
    assert_eq!(parse_targets(body).unwrap_err(), Error::Parse);
}
