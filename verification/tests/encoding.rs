use aidungeon_client::client::AIDungeon;
use aidungeon_client::types::{encode_start_options, StartOptions};

fn parse(body: &[u8]) -> serde_json::Value {
    serde_json::from_slice(body).expect("every encoded body must be valid JSON")
}

fn keys(value: &serde_json::Value) -> Vec<String> {
    value
        .as_object()
        .expect("every encoded body is an object")
        .keys()
        .cloned()
        .collect()
}

#[test]
fn existence_check_carries_only_the_email() {
    let request = AIDungeon::register_existence_request("a@b.com");
    let body = request.body.expect("the existence check posts a body");
    let value = parse(&body);
    assert_eq!(keys(&value), vec!["email".to_string()]);
    assert_eq!(value["email"], serde_json::Value::String("a@b.com".to_string()));
}

#[test]
fn custom_start_omits_template_fields() {
    let options = StartOptions::Custom { custom_prompt: "You wake up...".to_string() };
    let body = encode_start_options(&options);
    let value = parse(&body);
    assert_eq!(keys(&value), vec!["customPrompt".to_string(), "storyMode".to_string()]);
    assert_eq!(value["storyMode"], serde_json::Value::String("custom".to_string()));
    assert_eq!(value["customPrompt"], serde_json::Value::String("You wake up...".to_string()));
}

#[test]
fn premade_start_omits_the_custom_prompt() {
    let options = StartOptions::Premade {
        story_mode: "fantasy".to_string(),
        name: "gandalf".to_string(),
        character_type: "wizard".to_string(),
    };
    let body = encode_start_options(&options);
    let value = parse(&body);
    assert_eq!(keys(&value), vec!["characterType".to_string(), "name".to_string(), "storyMode".to_string()]);
    assert_eq!(value["storyMode"], serde_json::Value::String("fantasy".to_string()));
    assert_eq!(value["name"], serde_json::Value::String("gandalf".to_string()));
    assert_eq!(value["characterType"], serde_json::Value::String("wizard".to_string()));
}

#[test]
fn escaping_round_trips_through_a_real_decoder() {
    let email = "quote\" backslash\\ newline\n tab\t return\r bell\u{1} unicode\u{e9}";
    let password = "plain";
    let request = AIDungeon::login_request(email, password);
    let body = request.body.expect("login posts a body");
    let value = parse(&body);
    assert_eq!(value["email"], serde_json::Value::String(email.to_string()));
    assert_eq!(value["password"], serde_json::Value::String(password.to_string()));
}

#[test]
fn escaping_produces_the_exact_bytes() {
    let request = AIDungeon::login_request("a\"b\\c\nd", "p\u{1}q");
    let body = request.body.expect("login posts a body");
    assert_eq!(
        body,
        br#"{"email":"a\"b\\c\nd","password":"p\u0001q"}"#.to_vec()
    );
}

#[test]
fn session_url_renders_large_identifiers() {
    let handle = AIDungeon {
        access_token: "tok".to_string(),
        story_id: Some(18446744073709551615),
    };
    let request = handle.send_reply("x").expect("an active session sends");
    assert_eq!(
        request.url,
        "https://api.aidungeon.io/sessions/18446744073709551615/inputs"
    );
}
