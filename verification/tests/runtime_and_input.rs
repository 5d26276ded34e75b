use nyxx::macro_runtime::MacroRuntime;
use nyxx::modules::cognition::{
    answer_from_response, api_key_error, check_http_status, Candidate, Cognition, CognitionError,
    ContentResponse, GeminiError, GeminiResponse, PartResponse,
};
use nyxx::modules::io_controller::{char_to_key, click, string_to_button, type_string, Button, EventType, Key};

#[test]
fn one_macro_at_a_time() {
    let mut rt = MacroRuntime::new();
    assert!(rt.begin("calc".to_string()).is_ok());
    assert_eq!(rt.begin("other".to_string()).unwrap_err(), "Macro 'calc' is already running.");
    assert_eq!(rt.running.as_ref().unwrap().name, "calc");
    rt.clear();
    assert!(rt.begin("other".to_string()).is_ok());
}

#[test]
fn stop_requests() {
    let mut rt = MacroRuntime::new();
    assert_eq!(rt.stop_running(), None);
    assert_eq!(rt.stop_named("x"), Ok(None));
    rt.begin("Calc".to_string()).unwrap();
    assert!(!rt.cancel_requested());
    assert_eq!(
        rt.stop_named("notepad"),
        Err("Macro 'Calc' is running; requested stop for 'notepad'.".to_string())
    );
    assert!(!rt.cancel_requested());
    assert_eq!(rt.stop_named("cALC"), Ok(Some("Calc".to_string())));
    assert!(rt.cancel_requested());
    assert_eq!(rt.stop_running(), Some("Calc".to_string()));
}

#[test]
fn keys_for_characters() {
    assert_eq!(char_to_key('a'), Key::KeyA);
    assert_eq!(char_to_key('z'), Key::KeyZ);
    assert_eq!(char_to_key(' '), Key::Space);
    assert_eq!(char_to_key('A'), Key::Unknown(0));
    assert_eq!(
        type_string("hi"),
        vec![
            EventType::KeyPress(Key::KeyH),
            EventType::KeyRelease(Key::KeyH),
            EventType::KeyPress(Key::KeyI),
            EventType::KeyRelease(Key::KeyI),
        ]
    );
    assert!(type_string("").is_empty());
}

#[test]
fn buttons_by_name() {
    assert_eq!(string_to_button("LEFT"), Button::Left);
    assert_eq!(string_to_button("Right"), Button::Right);
    assert_eq!(string_to_button("middle"), Button::Middle);
    assert_eq!(string_to_button("wheel"), Button::Left);
    assert_eq!(click(Button::Right), vec![EventType::ButtonPress(Button::Right), EventType::ButtonRelease(Button::Right)]);
}

fn reply(text: Option<&str>) -> GeminiResponse {
    GeminiResponse {
        candidates: Some(vec![Candidate {
            content: ContentResponse {
                parts: text
                    .map(|t| vec![PartResponse { text: t.to_string() }])
                    .unwrap_or_default(),
            },
        }]),
        error: None,
    }
}

#[test]
fn gemini_replies() {
    let _ = Cognition::new();
    match answer_from_response(&reply(Some("Hello!"))) {
        Ok(t) => assert_eq!(t, "Hello!"),
        Err(_) => panic!(),
    }
    match answer_from_response(&reply(None)) {
        Err(CognitionError::ParseError(m)) => assert_eq!(m, "No text content found in API response"),
        _ => panic!(),
    }
    let with_error = GeminiResponse {
        candidates: None,
        error: Some(GeminiError { message: "quota".to_string(), code: Some(-429) }),
    };
    match answer_from_response(&with_error) {
        Err(CognitionError::ApiError(m)) => assert_eq!(m, "Gemini API error: quota (code: Some(-429))"),
        _ => panic!(),
    }
    let no_code = GeminiResponse {
        candidates: None,
        error: Some(GeminiError { message: "bad".to_string(), code: None }),
    };
    match answer_from_response(&no_code) {
        Err(e) => assert_eq!(e.message(), "API returned an error: Gemini API error: bad (code: None)"),
        _ => panic!(),
    }
}

#[test]
fn http_status_and_key_errors() {
    assert!(check_http_status(204, &"204 No Content".to_string(), &String::new()).is_ok());
    match check_http_status(404, &"404 Not Found".to_string(), &"nope".to_string()) {
        Err(CognitionError::ApiError(m)) => assert_eq!(m, "HTTP 404 Not Found: nope"),
        _ => panic!(),
    }
    assert_eq!(
        api_key_error(true, String::new()).message(),
        "API key not found. Please set your Gemini API key."
    );
    assert_eq!(
        api_key_error(false, "locked".to_string()).message(),
        "Failed to retrieve API key from keyring: locked"
    );
}

#[test]
fn gemini_call_carries_key_and_prompt() {
    let call = nyxx::modules::cognition::gemini_call("k123".to_string(), "hello");
    assert_eq!(
        call.url,
        "https://generativelanguage.googleapis.com/v1beta/models/gemini-2.5-flash:generateContent"
    );
    assert_eq!(call.key_header, "x-goog-api-key");
    assert_eq!(call.api_key, "k123");
    assert_eq!(call.body.contents.len(), 1);
    assert_eq!(call.body.contents[0].parts.len(), 1);
    assert_eq!(call.body.contents[0].parts[0].text, "hello");
}
