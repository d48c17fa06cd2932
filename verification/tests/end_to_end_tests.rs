use quickinject::command::encode_command;
use quickinject::discovery::parse_targets;
use quickinject::pipeline::plan_injection;

#[test]
fn end_to_end_discovery_to_command() {
    let body = "[{\"title\":\"QuickAccess\",\"webSocketDebuggerUrl\":\"ws://h/1\",\
                \"description\":\"\",\"devtoolsFrontendUrl\":\"http://h/front\",\
                \"id\":\"abc\",\"type\":\"page\",\"url\":\"http://h/page\"}]";
    let targets = parse_targets(body).unwrap();

    let listing = Some(vec![Some(String::from("Widget"))]);
    let template = "var plugins = [];{{ PLUGINS }}plugins.forEach(function (p) { p.run(); });";

    let (url, command) = plan_injection(&targets, "QuickAccess", template, &listing).unwrap();
    assert_eq!(url, "ws://h/1");
    assert_eq!(command.id, 1);
    assert_eq!(command.method, "Runtime.evaluate");
    assert!(command.params.user_gesture);
    assert!(command.params.expression.contains("plugins.push(new Widget);"));
    assert_eq!(
        command.params.expression,
        "var plugins = [];plugins.push(new Widget);plugins.forEach(function (p) { p.run(); });"
    );

    let wire = encode_command(&command);
    assert!(wire.starts_with("{\"id\":1,\"method\":\"Runtime.evaluate\","));
    assert!(wire.ends_with("\"userGesture\":true}}"));
    assert!(wire.contains("plugins.push(new Widget);"));
}

#[test]
fn end_to_end_with_missing_plugin_directory() {
    let body = "[{\"title\":\"QuickAccess\",\"webSocketDebuggerUrl\":\"ws://h/1\",\
                \"description\":\"\",\"devtoolsFrontendUrl\":\"http://h/front\",\
                \"id\":\"abc\",\"type\":\"page\",\"url\":\"http://h/page\"}]";
    let targets = parse_targets(body).unwrap();

    let (url, command) = plan_injection(&targets, "QuickAccess", "a{{ PLUGINS }}b", &None).unwrap();
    assert_eq!(url, "ws://h/1");
    assert_eq!(command.params.expression, "ab");
}
