use quickinject::command::encode_command;
use quickinject::command::evaluate_command;
use quickinject::command::Command;
use quickinject::command::CommandParams;

#[test]
fn evaluate_command_shape() {
    let command = evaluate_command(String::from("1+1"));
    assert_eq!(command.id, 1);
    assert_eq!(command.method, "Runtime.evaluate");
    assert_eq!(command.params.expression, "1+1");
    assert!(command.params.user_gesture);
}

#[test]
fn encode_simple_command_exact_wire_text() {
    let command = evaluate_command(String::from("plugins.push(new Widget);"));
    let wire = encode_command(&command);
    assert_eq!(
        wire,
        "{\"id\":1,\"method\":\"Runtime.evaluate\",\"params\":{\
         \"expression\":\"plugins.push(new Widget);\",\"userGesture\":true}}"
    );
}

#[test]
fn encode_renders_a_multi_digit_id() {
    let command = Command {
        id: 1203,
        method: String::from("Runtime.evaluate"),
        params: CommandParams { expression: String::from("x"), user_gesture: false },
    };
    let wire = encode_command(&command);
    assert_eq!(
        wire,
        "{\"id\":1203,\"method\":\"Runtime.evaluate\",\"params\":{\
         \"expression\":\"x\",\"userGesture\":false}}"
    );
}

#[test]
fn encode_escapes_quotes_and_backslashes() {
    let command = evaluate_command(String::from("say(\"hi\\\\\")"));
    let wire = encode_command(&command);
    assert_eq!(
        wire,
        "{\"id\":1,\"method\":\"Runtime.evaluate\",\"params\":{\
         \"expression\":\"say(\\\"hi\\\\\\\\\\\")\",\"userGesture\":true}}"
    );
}

#[test]
fn encode_escapes_control_characters() {
    let command = evaluate_command(String::from("a\nb\tc\u{1f}"));
    let wire = encode_command(&command);
    assert_eq!(
        wire,
        "{\"id\":1,\"method\":\"Runtime.evaluate\",\"params\":{\
         \"expression\":\"a\\u000ab\\u0009c\\u001f\",\"userGesture\":true}}"
    );
}

#[test]
fn encoded_command_is_valid_json_for_the_wire() {
    let command = evaluate_command(String::from("x = \"quoted\";\nrun(x);"));
    let wire = encode_command(&command);
    let value: serde_json::Value = serde_json::from_str(wire.as_str()).unwrap();
    assert_eq!(value["id"].as_u64().unwrap(), 1);
    assert_eq!(value["method"].as_str().unwrap(), "Runtime.evaluate");
    assert_eq!(
        value["params"]["expression"].as_str().unwrap(),
        "x = \"quoted\";\nrun(x);"
    );
    assert!(value["params"]["userGesture"].as_bool().unwrap());
}
