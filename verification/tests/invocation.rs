use nyxx::api_server::{
    attachment_image_bytes, body_parse_candidates, first_clipboard_text_method,
    image_output_from_text, image_read_attempt, next_clipboard_text_method,
    parse_invoke_body, sanitize_raw_body, text_check_attempt, ClipboardTextMethod, InvokeBody,
    ReadAttempt,
};
use nyxx::json::{extract_text_from_json, JsonValue};

fn s(x: &str) -> String {
    x.to_string()
}

fn no_readings(raw: &[u8]) -> Vec<Option<InvokeBody>> {
    body_parse_candidates(&sanitize_raw_body(raw)).iter().map(|_| None).collect()
}

fn fields(b: &InvokeBody) -> (Option<String>, Option<String>, Option<String>) {
    (b.text.clone(), b.image_base64.clone(), b.attachment_path.clone())
}

#[test]
fn empty_body_reads_nothing() {
    let r = parse_invoke_body(b"", &vec![]);
    assert_eq!(fields(&r), (None, None, None));
}

#[test]
fn json_document_text_is_found() {
    let raw = b"{\"data\": {\"message\": \"  hello  \"}}";
    let r = parse_invoke_body(raw, &no_readings(raw));
    assert_eq!(fields(&r), (Some(s("hello")), None, None));
}

#[test]
fn quoted_string_document_is_found() {
    let raw = b"\"quoted\"";
    let r = parse_invoke_body(raw, &no_readings(raw));
    assert_eq!(r.text, Some(s("quoted")));
}

#[test]
fn body_reading_with_a_field_wins() {
    let raw = b"{\"imageBase64\": \"aGk=\"}";
    let mut readings = no_readings(raw);
    assert_eq!(readings.len(), 1);
    readings[0] = Some(InvokeBody { text: None, image_base64: Some(s("aGk=")), attachment_path: None });
    let r = parse_invoke_body(raw, &readings);
    assert_eq!(fields(&r), (None, Some(s("aGk=")), None));
}

#[test]
fn form_and_plain_bodies() {
    let raw = b"prompt=find+me";
    assert_eq!(parse_invoke_body(raw, &no_readings(raw)).text, Some(s("find me")));
    let raw = b"  just text ";
    assert_eq!(parse_invoke_body(raw, &no_readings(raw)).text, Some(s("just text")));
    let raw = b"  \"\"  ";
    assert_eq!(fields(&parse_invoke_body(raw, &no_readings(raw))), (None, None, None));
}

#[test]
fn json_text_is_a_trimmed_reachable_string() {
    let blank = JsonValue::Array(vec![JsonValue::String(s("  ")), JsonValue::Null]);
    assert_eq!(extract_text_from_json(&blank), None);
    let deep = JsonValue::Array(vec![
        JsonValue::Number(s("1")),
        JsonValue::Object(vec![(s("x"), JsonValue::Array(vec![JsonValue::String(s(" a b "))]))]),
    ]);
    assert_eq!(extract_text_from_json(&deep), Some(s("a b")));
}

#[test]
fn clipboard_methods_in_order() {
    let mut method = first_clipboard_text_method();
    assert_eq!(method, ClipboardTextMethod::PowerShell);
    let mut tried = vec![method];
    while let Some(next) = next_clipboard_text_method(method, false).unwrap_or(None) {
        method = next;
        tried.push(method);
    }
    assert_eq!(
        tried,
        vec![ClipboardTextMethod::PowerShell, ClipboardTextMethod::ClipExe, ClipboardTextMethod::Arboard]
    );
    assert_eq!(
        next_clipboard_text_method(ClipboardTextMethod::Arboard, false),
        Err(s("Clipboard text did not match after all methods."))
    );
    assert_eq!(next_clipboard_text_method(ClipboardTextMethod::ClipExe, true), Ok(None));
}

#[test]
fn read_back_attempts() {
    assert_eq!(image_read_attempt(0, true), ReadAttempt::Use);
    assert_eq!(image_read_attempt(0, false), ReadAttempt::Wait { pause_millis: 50, retry: true });
    assert_eq!(image_read_attempt(18, false), ReadAttempt::Wait { pause_millis: 50, retry: true });
    assert_eq!(image_read_attempt(19, false), ReadAttempt::Wait { pause_millis: 50, retry: false });
    assert_eq!(text_check_attempt(4, false), ReadAttempt::Wait { pause_millis: 15, retry: true });
    assert_eq!(text_check_attempt(5, false), ReadAttempt::Wait { pause_millis: 15, retry: false });
    assert_eq!(text_check_attempt(5, true), ReadAttempt::Use);
}

#[test]
fn attachment_bytes_come_back_unchanged() {
    assert_eq!(attachment_image_bytes(b"\x89PNG any bytes"), Ok(b"\x89PNG any bytes".to_vec()));
    assert_eq!(attachment_image_bytes(b""), Ok(vec![]));
}

#[test]
fn image_output_falls_back_to_clipboard_text() {
    assert_eq!(image_output_from_text(Some(s("data:image/png;base64,aGk="))), Ok(s("aGk=")));
    let err = Err(s("Failed to read clipboard image payload after retries."));
    assert_eq!(image_output_from_text(Some(s("no image here!"))), err);
    assert_eq!(image_output_from_text(None), err);
}
