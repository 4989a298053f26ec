use session_attach::protocol::{
    auth_payload, command_envelope, extract_sid, handshake_url, probe_frame, ready_url, ws_url,
};

#[test]
fn extract_sid_returns_embedded_identifier() {
    let body = "97:0{\"sid\":\"abc123XY\",\"upgrades\":[\"websocket\"],\"pingInterval\":25000}";
    assert_eq!(extract_sid(body), Some(String::from("abc123XY")));
}

#[test]
fn extract_sid_missing_marker_fails() {
    assert_eq!(extract_sid("no session here"), None);
    assert_eq!(extract_sid(""), None);
    // `"side":"..."` does not contain the marker `"sid":"`.
    assert_eq!(extract_sid("{\"side\":\"north\"}"), None);
}

#[test]
fn extract_sid_without_closing_quote_takes_rest() {
    assert_eq!(extract_sid("xx\"sid\":\"abc"), Some(String::from("abc")));
}

#[test]
fn extract_sid_empty_identifier() {
    assert_eq!(extract_sid("{\"sid\":\"\"}"), Some(String::from("")));
}

#[test]
fn extract_sid_picks_first_occurrence() {
    let body = "{\"sid\":\"first\"} {\"sid\":\"second\"}";
    assert_eq!(extract_sid(body), Some(String::from("first")));
}

#[test]
fn ready_url_prefixes_scheme() {
    assert_eq!(ready_url("localhost:3000"), "http://localhost:3000");
}

#[test]
fn handshake_url_appends_polling_endpoint() {
    assert_eq!(
        handshake_url("localhost:3000"),
        "http://localhost:3000/socket.io/?EIO=4&transport=polling"
    );
}

#[test]
fn auth_payload_without_token_is_null() {
    assert_eq!(auth_payload(None), "{\"github_token\":null}");
}

#[test]
fn auth_payload_with_token_quotes_it() {
    assert_eq!(auth_payload(Some("tok")), "{\"github_token\":\"tok\"}");
}

#[test]
fn ws_url_embeds_sid_and_encoded_auth() {
    let url = ws_url("localhost:3000", "abc123XY", None).expect("ascii payload");
    assert_eq!(
        url,
        "ws://localhost:3000/socket.io/?EIO=4&transport=websocket&sid=abc123XY&auth=%7B%22github_token%22%3Anull%7D"
    );
}

#[test]
fn ws_url_with_token_encodes_it() {
    let url = ws_url("localhost:3000", "s", Some("a b")).expect("ascii payload");
    assert_eq!(
        url,
        "ws://localhost:3000/socket.io/?EIO=4&transport=websocket&sid=s&auth=%7B%22github_token%22%3A%22a%20b%22%7D"
    );
}

#[test]
fn envelope_exact_text() {
    assert_eq!(
        command_envelope("ls -la"),
        "42[\"message\",{\"action\":\"RUN\",\"args\":{\"command\":\"ls -la\",\"hidden\":false}}]"
    );
}

#[test]
fn envelope_round_trip() {
    let frame = command_envelope("ls -la");
    assert_eq!(&frame[..2], "42");
    let value: serde_json::Value = serde_json::from_str(&frame[2..]).expect("valid json");
    assert_eq!(value[0].as_str(), Some("message"));
    assert_eq!(value[1]["action"].as_str(), Some("RUN"));
    assert_eq!(value[1]["args"]["command"].as_str(), Some("ls -la"));
    assert_eq!(value[1]["args"]["hidden"].as_bool(), Some(false));
}

#[test]
fn envelope_escapes_the_command() {
    let frame = command_envelope("echo \"hi\"\n\\");
    assert_eq!(
        frame,
        "42[\"message\",{\"action\":\"RUN\",\"args\":{\"command\":\"echo \\\"hi\\\"\\n\\\\\",\"hidden\":false}}]"
    );
    let value: serde_json::Value = serde_json::from_str(&frame[2..]).expect("valid json");
    assert_eq!(value[1]["args"]["command"].as_str(), Some("echo \"hi\"\n\\"));
}

#[test]
fn envelope_escapes_control_characters() {
    let frame = command_envelope("a\u{1}b");
    let value: serde_json::Value = serde_json::from_str(&frame[2..]).expect("valid json");
    assert_eq!(value[1]["args"]["command"].as_str(), Some("a\u{1}b"));
    assert!(frame.contains("\\u0001"));
}

#[test]
fn probe_frame_is_fixed() {
    assert_eq!(probe_frame(), "2probe");
}
