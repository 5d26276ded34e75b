//! The language-model client's decisions: what a Gemini reply means, and
//! how its failures read.
use vstd::prelude::*;
use crate::text::{append_chars, append_str, chars_of, int_text, push_int, string_of};

verus! {

/// Why asking the model failed. Errors of the key store and of the HTTP
/// client are carried as their message text.
#[derive(Debug)]
pub enum CognitionError {
    ApiKeyNotFound,
    KeyringError(String),
    HttpError(String),
    ApiError(String),
    ParseError(String),
}

/// The planning module.
#[derive(Debug)]
pub struct Cognition;

impl Cognition {
    pub fn new() -> (r: Self)
        ensures
            r == Cognition,
    {
        Cognition
    }
}

/// The text of each error, as it is shown to users.
pub open spec fn cognition_error_text(e: CognitionError) -> Seq<char> {
    match e {
        CognitionError::ApiKeyNotFound => "API key not found. Please set your Gemini API key."@,
        CognitionError::KeyringError(m) => "Failed to retrieve API key from keyring: "@ + m@,
        CognitionError::HttpError(m) => "HTTP request failed: "@ + m@,
        CognitionError::ApiError(m) => "API returned an error: "@ + m@,
        CognitionError::ParseError(m) => "Failed to parse API response: "@ + m@,
    }
}

impl CognitionError {
    /// The text of the error.
    pub fn message(&self) -> (r: String)
        ensures
            r@ == cognition_error_text(*self),
    {
        let mut out: Vec<char> = Vec::new();
        match self {
            CognitionError::ApiKeyNotFound => {
                append_str(&mut out, "API key not found. Please set your Gemini API key.");
            },
            CognitionError::KeyringError(m) => {
                append_str(&mut out, "Failed to retrieve API key from keyring: ");
                append_chars(&mut out, &chars_of(m.as_str()));
            },
            CognitionError::HttpError(m) => {
                append_str(&mut out, "HTTP request failed: ");
                append_chars(&mut out, &chars_of(m.as_str()));
            },
            CognitionError::ApiError(m) => {
                append_str(&mut out, "API returned an error: ");
                append_chars(&mut out, &chars_of(m.as_str()));
            },
            CognitionError::ParseError(m) => {
                append_str(&mut out, "Failed to parse API response: ");
                append_chars(&mut out, &chars_of(m.as_str()));
            },
        }
        string_of(&out)
    }
}

/// The error for a failed key lookup: a missing entry means no key was
/// ever stored; anything else is a key-store failure with its message.
pub fn api_key_error(no_entry: bool, detail: String) -> (r: CognitionError)
    ensures
        no_entry ==> r == CognitionError::ApiKeyNotFound,
        !no_entry ==> r == CognitionError::KeyringError(detail),
{
    if no_entry {
        CognitionError::ApiKeyNotFound
    } else {
        CognitionError::KeyringError(detail)
    }
}

/// One part of a request: text for the model.
#[derive(Debug)]
pub struct Part {
    pub text: String,
}

/// The content of a request.
#[derive(Debug)]
pub struct Content {
    pub parts: Vec<Part>,
}

/// The body of a `generateContent` request.
#[derive(Debug)]
pub struct GeminiRequest {
    pub contents: Vec<Content>,
}

/// A call of the model: the URL it is posted to, the header that carries
/// the key, the key, and the body.
#[derive(Debug)]
pub struct GeminiCall {
    pub url: String,
    pub key_header: String,
    pub api_key: String,
    pub body: GeminiRequest,
}

/// The `generateContent` endpoint of the model used.
pub open spec fn gemini_url() -> Seq<char> {
    "https://generativelanguage.googleapis.com/v1beta/models/gemini-2.5-flash:generateContent"@
}

/// The call that asks the model `prompt` with `api_key`: posted to
/// `gemini_url()`, the key in the `x-goog-api-key` header, and a body of one
/// content holding one part whose text is the prompt.
pub fn gemini_call(api_key: String, prompt: &str) -> (r: GeminiCall)
    ensures
        r.url@ == gemini_url(),
        r.key_header@ == "x-goog-api-key"@,
        r.api_key == api_key,
        r.body.contents@.len() == 1,
        r.body.contents@[0].parts@.len() == 1,
        r.body.contents@[0].parts@[0].text@ == prompt@,
{
    let mut parts: Vec<Part> = Vec::new();
    parts.push(Part { text: string_of(&chars_of(prompt)) });
    let mut contents: Vec<Content> = Vec::new();
    contents.push(Content { parts });
    GeminiCall {
        url: string_of(
            &chars_of(
                "https://generativelanguage.googleapis.com/v1beta/models/gemini-2.5-flash:generateContent",
            ),
        ),
        key_header: string_of(&chars_of("x-goog-api-key")),
        api_key,
        body: GeminiRequest { contents },
    }
}

/// One part of a candidate answer.
#[derive(Debug)]
pub struct PartResponse {
    pub text: String,
}

/// The content of a candidate answer.
#[derive(Debug)]
pub struct ContentResponse {
    pub parts: Vec<PartResponse>,
}

/// A candidate answer.
#[derive(Debug)]
pub struct Candidate {
    pub content: ContentResponse,
}

/// An error reported in the body of a reply.
#[derive(Debug)]
pub struct GeminiError {
    pub message: String,
    pub code: Option<i32>,
}

/// A reply of the `generateContent` endpoint.
#[derive(Debug)]
pub struct GeminiResponse {
    pub candidates: Option<Vec<Candidate>>,
    pub error: Option<GeminiError>,
}

/// `Debug` of an optional integer: `Some(n)` or `None`.
pub open spec fn debug_opt_int(c: Option<i32>) -> Seq<char> {
    match c {
        Some(n) => "Some("@ + int_text(n as int) + ")"@,
        None => "None"@,
    }
}

/// The message of an error reported in a reply.
pub open spec fn reply_error_text(e: GeminiError) -> Seq<char> {
    "Gemini API error: "@ + e.message@ + " (code: "@ + debug_opt_int(e.code) + ")"@
}

/// The text of the first part of the first candidate, if there is one.
pub open spec fn first_part_text(resp: GeminiResponse) -> Option<Seq<char>> {
    match resp.candidates {
        Some(c) => if c@.len() > 0 && c@[0].content.parts@.len() > 0 {
            Some(c@[0].content.parts@[0].text@)
        } else {
            None
        },
        None => None,
    }
}

/// The answer in a reply: an error reported in it wins; otherwise the text
/// of the first part of the first candidate; otherwise a parse error saying
/// that no text was found.
pub fn answer_from_response(resp: &GeminiResponse) -> (r: Result<String, CognitionError>)
    ensures
        match resp.error {
            Some(e) => r matches Err(CognitionError::ApiError(m)) && m@ == reply_error_text(e),
            None => match first_part_text(*resp) {
                Some(t) => r matches Ok(s) && s@ == t,
                None => r matches Err(CognitionError::ParseError(m))
                    && m@ == "No text content found in API response"@,
            },
        },
{
    match &resp.error {
        Some(e) => {
            let mut out: Vec<char> = Vec::new();
            append_str(&mut out, "Gemini API error: ");
            append_chars(&mut out, &chars_of(e.message.as_str()));
            append_str(&mut out, " (code: ");
            match e.code {
                Some(n) => {
                    append_str(&mut out, "Some(");
                    push_int(&mut out, n as i64);
                    append_str(&mut out, ")");
                },
                None => {
                    append_str(&mut out, "None");
                },
            }
            append_str(&mut out, ")");
            return Err(CognitionError::ApiError(string_of(&out)));
        },
        None => {},
    }
    match &resp.candidates {
        Some(c) => {
            if c.len() > 0 && c[0].content.parts.len() > 0 {
                return Ok(c[0].content.parts[0].text.clone());
            }
        },
        None => {},
    }
    let mut out: Vec<char> = Vec::new();
    append_str(&mut out, "No text content found in API response");
    Err(CognitionError::ParseError(string_of(&out)))
}

/// The error for an HTTP reply whose status is not a success (not in
/// 200 to 299): `HTTP <status>: <body>`.
pub fn check_http_status(code: u16, status_text: &String, body: &String) -> (r: Result<
    (),
    CognitionError,
>)
    ensures
        (200 <= code <= 299) ==> r is Ok,
        !(200 <= code <= 299) ==> (r matches Err(CognitionError::ApiError(m)) && m@ == "HTTP "@
            + status_text@ + ": "@ + body@),
{
    if 200 <= code && code <= 299 {
        Ok(())
    } else {
        let mut out: Vec<char> = Vec::new();
        append_str(&mut out, "HTTP ");
        append_chars(&mut out, &chars_of(status_text.as_str()));
        append_str(&mut out, ": ");
        append_chars(&mut out, &chars_of(body.as_str()));
        Err(CognitionError::ApiError(string_of(&out)))
    }
}

} // verus!
