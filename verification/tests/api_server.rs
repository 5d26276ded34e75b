use nyxx::api_server::{
    apply_stop_recording_options, base64_from_clipboard_text, begin_macro_execution,
    body_parse_candidates, check_invoke_method, clipboard_input_plan, clipboard_readback_matches,
    clipboard_text_matches, combine_execution_results, finish_macro_execution, help_endpoints,
    help_response, image_output_base64, image_payload_bytes, decoded_payload_pixels, invoke_response,
    macro_about_from_profile, map_error_status, normalize_line_endings, parse_form_encoded_text,
    powershell_set_clipboard_command, sanitize_raw_body, select_invoke_body, stop_named_response,
    stop_signal_message, switch_to_new_desktop, CandidateParse, ClipboardInput, InvokeBody,
    StopRecordingRequest,
};
use nyxx::json::JsonValue;
use nyxx::macro_runtime::MacroRuntime;
use nyxx::modules::io_controller::{EventType, Key};
use nyxx::modules::macro_engine::{MacroConfig, MacroDataKind, MacroHttpMethod, MacroProfile};
use nyxx::orchestrator::{AppState, Orchestrator};
use nyxx::trusted::RgbaPixels;

fn s(x: &str) -> String {
    x.to_string()
}

fn profile(method: MacroHttpMethod, input: MacroDataKind, output: MacroDataKind) -> MacroProfile {
    MacroProfile {
        name: s("calc"),
        method,
        input_kind: input,
        output_kind: output,
        description: s("Runs calc"),
        use_when: s("math"),
    }
}

fn empty_body() -> InvokeBody {
    InvokeBody { text: None, image_base64: None, attachment_path: None }
}

#[test]
fn sanitize_strips_bom_forms_and_trims() {
    assert_eq!(sanitize_raw_body(b"  hello \n"), "hello");
    assert_eq!(sanitize_raw_body("\u{feff}{\"a\":1}".as_bytes()), "{\"a\":1}");
    assert_eq!(sanitize_raw_body("\u{ef}\u{bb}\u{bf} x".as_bytes()), "x");
    assert_eq!(sanitize_raw_body("\u{2229}\u{2557}\u{2510}y".as_bytes()), "y");
    assert_eq!(sanitize_raw_body(&[0x61, 0xff, 0x62]), "a\u{fffd}b");
    assert_eq!(sanitize_raw_body(b""), "");
}

#[test]
fn candidates_are_sorted_and_unique() {
    assert_eq!(body_parse_candidates("plain"), vec![s("plain")]);
    assert_eq!(
        body_parse_candidates("x {\"text\":\"hi\"} y"),
        vec![s("x {\"text\":\"hi\"} y"), s("{\"text\":\"hi\"}")]
            .into_iter()
            .collect::<std::collections::BTreeSet<_>>()
            .into_iter()
            .collect::<Vec<_>>()
    );
    let r = body_parse_candidates("\"{\\\"text\\\":\\\"hi\\\"}\"");
    assert!(r.contains(&s("{\"text\":\"hi\"}")));
    assert!(r.contains(&s("\"{\"text\":\"hi\"}\"")));
    let mut sorted = r.clone();
    sorted.sort();
    sorted.dedup();
    assert_eq!(r, sorted);
    assert_eq!(body_parse_candidates("} {"), vec![s("} {")]);
}

#[test]
fn form_text_picks_preferred_names() {
    assert_eq!(parse_form_encoded_text("a=1&Text=+hello+world+"), Some(s("hello world")));
    assert_eq!(parse_form_encoded_text("prompt=%20&query=find%20me"), Some(s("find me")));
    assert_eq!(parse_form_encoded_text("other=1"), None);
    assert_eq!(parse_form_encoded_text(""), None);
}

#[test]
fn select_prefers_struct_then_value_then_form_then_raw() {
    let with_text = InvokeBody { text: Some(s("t")), image_base64: None, attachment_path: None };
    let parses = vec![
        CandidateParse { body: Some(empty_body()), value: None },
        CandidateParse { body: Some(with_text), value: None },
    ];
    let r = select_invoke_body("ignored", &parses);
    assert_eq!(r.text, Some(s("t")));

    let obj = JsonValue::Object(vec![
        (s("a"), JsonValue::Array(vec![JsonValue::Null, JsonValue::String(s("  deep "))])),
        (s("message"), JsonValue::String(s("   "))),
    ]);
    let parses = vec![CandidateParse { body: Some(empty_body()), value: Some(obj) }];
    assert_eq!(select_invoke_body("x", &parses).text, Some(s("deep")));

    assert_eq!(select_invoke_body("input=abc", &vec![]).text, Some(s("abc")));
    assert_eq!(select_invoke_body("  \"quoted\" ", &vec![]).text, Some(s("quoted")));
    let none = select_invoke_body("\"\"", &vec![]);
    assert!(none.text.is_none() && none.image_base64.is_none() && none.attachment_path.is_none());
}

#[test]
fn preferred_member_wins_over_earlier_members() {
    let obj = JsonValue::Object(vec![
        (s("aaa"), JsonValue::String(s("first"))),
        (s("prompt"), JsonValue::String(s("preferred"))),
    ]);
    assert_eq!(nyxx::json::extract_text_from_json(&obj), Some(s("preferred")));
    let nums = JsonValue::Array(vec![JsonValue::Number(s("1")), JsonValue::Bool(true)]);
    assert_eq!(nyxx::json::extract_text_from_json(&nums), None);
}

#[test]
fn normalizes_crlf() {
    assert_eq!(normalize_line_endings("a\r\nb\r\n"), "a\nb\n");
    assert_eq!(normalize_line_endings("a\rb"), "a\rb");
    assert!(clipboard_text_matches("a\nb", "a\r\nb"));
    assert!(!clipboard_text_matches("a\nb", "a b"));
    assert!(clipboard_readback_matches("a\nb", "a\r\nb\r\n"));
}

#[test]
fn error_status_by_message() {
    assert_eq!(map_error_status(s("Invalid state transition: x")).0, 409);
    assert_eq!(map_error_status(s("agent is not idle")).0, 409);
    assert_eq!(map_error_status(s("Macro 'a' is already running.")).0, 409);
    assert_eq!(map_error_status(s("Failed to read macro file x")).0, 404);
    let (code, msg) = map_error_status(s("boom"));
    assert_eq!(code, 500);
    assert!(!msg.success);
    assert_eq!(msg.message, "boom");
}

#[test]
fn about_describes_profile() {
    let about = macro_about_from_profile(
        "calc",
        profile(MacroHttpMethod::POST, MacroDataKind::Text, MacroDataKind::Image),
    );
    assert_eq!(about.name, "calc");
    assert_eq!(about.invoke_endpoint, "/macros/calc/invoke");
    assert_eq!(about.accepts, "Accepts text payload and places it on clipboard before playback.");
    assert_eq!(about.returns_info, "Returns base64-encoded clipboard image after macro completion.");
    assert_eq!(about.description, "Runs calc");
    let about = macro_about_from_profile(
        "n",
        profile(MacroHttpMethod::GET, MacroDataKind::Nothing, MacroDataKind::Nothing),
    );
    assert_eq!(about.accepts, "No input body is required.");
    assert_eq!(about.returns_info, "No response payload expected from clipboard.");
}

#[test]
fn help_lists_routes_and_macros() {
    let eps = help_endpoints();
    assert_eq!(eps.len(), 15);
    assert_eq!(eps[0].path, "/help");
    assert_eq!(eps[12].method, "DELETE");
    let cfgs = vec![MacroConfig {
        name: s("calc"),
        profile: profile(MacroHttpMethod::GET, MacroDataKind::Nothing, MacroDataKind::Text),
    }];
    let h = help_response(&cfgs);
    assert_eq!(h.service, "nyx-macro-api");
    assert_eq!(h.base_url, "http://127.0.0.1:4777");
    assert_eq!(h.macros.len(), 1);
    assert_eq!(h.macros[0].invoke_endpoint, "/macros/calc/invoke");
}

#[test]
fn invoke_method_is_enforced() {
    assert!(check_invoke_method("m", MacroHttpMethod::POST, true).is_ok());
    assert!(check_invoke_method("m", MacroHttpMethod::GET, false).is_ok());
    let (code, msg) = check_invoke_method("m", MacroHttpMethod::GET, true).unwrap_err();
    assert_eq!(code, 405);
    assert_eq!(msg.message, "Macro 'm' only supports GET.");
    let (_, msg) = check_invoke_method("m", MacroHttpMethod::POST, false).unwrap_err();
    assert_eq!(msg.message, "Macro 'm' only supports POST.");
}

#[test]
fn get_invocation_has_no_outputs() {
    let r = invoke_response(s("m"), false, Some(s("x")), None);
    assert!(r.output_text.is_none());
    assert_eq!(r.message, "Macro executed successfully.");
    let r = invoke_response(s("m"), true, Some(s("x")), None);
    assert_eq!(r.output_text, Some(s("x")));
}

#[test]
fn stop_replies() {
    assert_eq!(stop_signal_message(&Some(s("a"))), "Stop signal sent to macro 'a'.");
    assert_eq!(stop_signal_message(&None), "No macro is currently running.");
    let (code, msg) = stop_named_response(Err(s("busy")));
    assert_eq!(code, 409);
    assert_eq!(msg.message, "busy");
    let (code, msg) = stop_named_response(Ok(None));
    assert_eq!(code, 200);
    assert!(msg.success);
}

#[test]
fn stop_recording_options_override() {
    let p = profile(MacroHttpMethod::GET, MacroDataKind::Nothing, MacroDataKind::Nothing);
    let req = StopRecordingRequest {
        name: s("calc"),
        method: Some(MacroHttpMethod::POST),
        input_kind: None,
        output_kind: Some(MacroDataKind::Text),
        description: None,
        use_when: Some(s("always")),
    };
    let r = apply_stop_recording_options(p, &req);
    assert_eq!(r.method, MacroHttpMethod::POST);
    assert_eq!(r.input_kind, MacroDataKind::Nothing);
    assert_eq!(r.output_kind, MacroDataKind::Text);
    assert_eq!(r.description, "Runs calc");
    assert_eq!(r.use_when, "always");
}

#[test]
fn macro_run_begins_and_finishes() {
    let mut rt = MacroRuntime::new();
    let mut o = Orchestrator::new();
    assert!(begin_macro_execution(&mut rt, &mut o, &s("calc")).is_ok());
    assert_eq!(o.state, AppState::EXECUTING);
    assert_eq!(o.session_context, Some(s("Playing macro: calc")));
    assert_eq!(
        begin_macro_execution(&mut rt, &mut o, &s("other")).unwrap_err(),
        "Macro 'calc' is already running."
    );
    finish_macro_execution(&mut rt, &mut o);
    assert_eq!(o.state, AppState::IDLE);
    assert!(rt.running.is_none());
    o.start_recording().unwrap();
    assert_eq!(
        begin_macro_execution(&mut rt, &mut o, &s("calc")).unwrap_err(),
        "Cannot play macro while the agent is not idle."
    );
    assert!(rt.running.is_none());
}

#[test]
fn results_combine_with_playback_first() {
    assert!(combine_execution_results(Ok(()), Ok(())).is_ok());
    assert_eq!(combine_execution_results(Err(s("a")), Err(s("b"))), Err(s("a")));
    assert_eq!(combine_execution_results(Ok(()), Err(s("b"))), Err(s("b")));
}

#[test]
fn new_desktop_keys() {
    let keys = switch_to_new_desktop();
    assert_eq!(keys.len(), 6);
    assert_eq!(keys[0], (EventType::KeyPress(Key::MetaLeft), 8));
    assert_eq!(keys[5], (EventType::KeyRelease(Key::MetaLeft), 100));
}

#[test]
fn clipboard_plans() {
    assert!(matches!(
        clipboard_input_plan(MacroDataKind::Nothing, &empty_body()),
        Ok(ClipboardInput::Untouched)
    ));
    match clipboard_input_plan(MacroDataKind::Text, &empty_body()) {
        Ok(ClipboardInput::Text(t)) => assert_eq!(t, ""),
        _ => panic!(),
    }
    let b = InvokeBody { text: None, image_base64: None, attachment_path: Some(s("/tmp/a.png")) };
    assert!(matches!(
        clipboard_input_plan(MacroDataKind::Image, &b),
        Ok(ClipboardInput::ImageFile(p)) if p == "/tmp/a.png"
    ));
    assert_eq!(
        clipboard_input_plan(MacroDataKind::Image, &empty_body()).err(),
        Some(s("Image input macro requires `image_base64` or `attachment_path`."))
    );
}

#[test]
fn powershell_command_doubles_quotes() {
    assert_eq!(powershell_set_clipboard_command("it's"), "Set-Clipboard -Value 'it''s'");
}

#[test]
fn image_round_trip_through_png_and_base64() {
    let pixels = RgbaPixels { width: 2, height: 1, bytes: vec![255, 0, 0, 255, 0, 0, 255, 128] };
    let b64 = image_output_base64(pixels).unwrap();
    let png = image_payload_bytes(&format!("data:image/png;base64,{}", b64)).unwrap();
    let back = image::load_from_memory(&png).unwrap().to_rgba8();
    assert_eq!((back.width(), back.height()), (2, 1));
    assert_eq!(back.into_raw(), vec![255, 0, 0, 255, 0, 0, 255, 128]);
    let small = RgbaPixels { width: 2, height: 2, bytes: vec![0; 15] };
    assert_eq!(image_output_base64(small).unwrap_err(), "Failed to construct RGBA image from clipboard.");
    assert!(image_payload_bytes("!!!").unwrap_err().starts_with("Invalid base64 image payload: "));
    assert_eq!(image_payload_bytes("aGVsbG8=").unwrap(), b"hello".to_vec());
    assert_eq!(
        decoded_payload_pixels(Err("bad header".to_string())).unwrap_err(),
        "Failed to decode input image payload: bad header"
    );
    let p = decoded_payload_pixels(Ok(RgbaPixels { width: 1, height: 1, bytes: vec![1, 2, 3, 4] })).unwrap();
    assert_eq!((p.width, p.height, p.bytes), (1, 1, vec![1, 2, 3, 4]));
}

#[test]
fn base64_found_in_clipboard_text() {
    assert_eq!(base64_from_clipboard_text("data:image/png;base64, aGk= "), Some(s("aGk=")));
    assert_eq!(base64_from_clipboard_text(" aGk= "), Some(s("aGk=")));
    assert_eq!(base64_from_clipboard_text("not base64!"), None);
}
