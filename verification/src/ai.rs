//! Requests to the AI service: which provider is used and what is sent to it.
use vstd::prelude::*;
use crate::text::{copy_str, push_str};

verus! {

/// The AI service a prompt goes to.
#[derive(Debug, PartialEq, Eq, Clone, Copy, Structural)]
pub enum AiProvider {
    /// Google Gemini, chosen whenever its key is set.
    Gemini,
    /// Groq, chosen when only its key is set.
    Groq,
    /// No key is set: the engine falls back to its built-in texts.
    Offline,
}

/// Gemini is preferred; Groq is used only without a Gemini key.
pub open spec fn provider_for(gemini_key: Seq<char>, groq_key: Seq<char>) -> AiProvider {
    if gemini_key.len() > 0 {
        AiProvider::Gemini
    } else if groq_key.len() > 0 {
        AiProvider::Groq
    } else {
        AiProvider::Offline
    }
}

/// Chooses the AI service from the configured keys.
pub fn ai_provider(gemini_key: &str, groq_key: &str) -> (p: AiProvider)
    ensures
        p == provider_for(gemini_key@, groq_key@),
{
    if !gemini_key.is_empty() {
        AiProvider::Gemini
    } else if !groq_key.is_empty() {
        AiProvider::Groq
    } else {
        AiProvider::Offline
    }
}

/// A hexadecimal digit, in lower case.
pub open spec fn hex_digit(n: int) -> char {
    "0123456789abcdef"@[n]
}

/// How one character is written inside a JSON string literal: the quote,
/// the backslash and the control characters are escaped (the five with a
/// short form by it, the others as `\u00` and two hexadecimal digits in lower
/// case); any other character stands for itself.
pub open spec fn json_escaped_char(c: char) -> Seq<char> {
    if c == '"' {
        "\\\""@
    } else if c == '\\' {
        "\\\\"@
    } else if c == '\x08' {
        "\\b"@
    } else if c == '\t' {
        "\\t"@
    } else if c == '\n' {
        "\\n"@
    } else if c == '\x0c' {
        "\\f"@
    } else if c == '\r' {
        "\\r"@
    } else if (c as int) < 0x20 {
        "\\u00"@ + seq![hex_digit((c as int) / 16), hex_digit((c as int) % 16)]
    } else {
        seq![c]
    }
}

/// The characters of a text as they are written inside a JSON string literal.
pub open spec fn json_escaped(s: Seq<char>) -> Seq<char>
    decreases s.len(),
{
    if s.len() == 0 {
        Seq::empty()
    } else {
        json_escaped(s.drop_last()) + json_escaped_char(s.last())
    }
}

/// The JSON string literal that denotes a text.
pub open spec fn json_quoted(s: Seq<char>) -> Seq<char> {
    "\""@ + json_escaped(s) + "\""@
}

/// `serde_json::to_string` of a `str`: the text between double quotes, each
/// character escaped as `json_escaped_char` says (the compact formatter's
/// escaping table). Serializing a `str` cannot fail.
#[verifier::external_body]
fn json_quote(s: &str) -> (r: String)
    ensures
        r@ == json_quoted(s@),
{
    serde_json::to_string(s).unwrap_or_default()
}

/// The Gemini endpoint for a key.
pub open spec fn gemini_url(key: Seq<char>) -> Seq<char> {
    "https://generativelanguage.googleapis.com/v1beta/models/gemini-1.5-flash:generateContent?key="@
        + key
}

/// The Groq endpoint.
pub open spec fn groq_url() -> Seq<char> {
    "https://api.groq.com/openai/v1/chat/completions"@
}

/// The Gemini request body for a prompt.
pub open spec fn gemini_body(prompt: Seq<char>) -> Seq<char> {
    "{\"contents\":[{\"parts\":[{\"text\":"@ + json_quoted(prompt) + "}]}]}"@
}

/// The Groq request body for a prompt.
pub open spec fn groq_body(prompt: Seq<char>) -> Seq<char> {
    "{\"messages\":[{\"content\":"@ + json_quoted(prompt)
        + ",\"role\":\"user\"}],\"model\":\"llama-3.1-70b-versatile\",\"stream\":false}"@
}

/// An HTTP request to the AI service: where, with which extra header, and
/// the JSON body (sent as `application/json`).
pub struct AiRequest {
    pub url: String,
    pub header: Option<(String, String)>,
    pub body: String,
}

/// The request that asks `provider` about `prompt`, or `None` offline.
pub fn ai_request(provider: AiProvider, gemini_key: &str, groq_key: &str, prompt: &str) -> (r: Option<AiRequest>)
    ensures
        provider == AiProvider::Offline <==> r is None,
        provider == AiProvider::Gemini ==> {
            &&& r->Some_0.url@ == gemini_url(gemini_key@)
            &&& r->Some_0.header is None
            &&& r->Some_0.body@ == gemini_body(prompt@)
        },
        provider == AiProvider::Groq ==> {
            &&& r->Some_0.url@ == groq_url()
            &&& r->Some_0.header is Some
            &&& r->Some_0.header->Some_0.0@ == "Authorization"@
            &&& r->Some_0.header->Some_0.1@ == "Bearer "@ + groq_key@
            &&& r->Some_0.body@ == groq_body(prompt@)
        },
{
    match provider {
        AiProvider::Offline => None,
        AiProvider::Gemini => {
            let mut url = copy_str("https://generativelanguage.googleapis.com/v1beta/models/gemini-1.5-flash:generateContent?key=");
            push_str(&mut url, gemini_key);
            let mut body = copy_str("{\"contents\":[{\"parts\":[{\"text\":");
            let q = json_quote(prompt);
            push_str(&mut body, q.as_str());
            push_str(&mut body, "}]}]}");
            Some(AiRequest { url, header: None, body })
        },
        AiProvider::Groq => {
            let mut auth = copy_str("Bearer ");
            push_str(&mut auth, groq_key);
            let mut body = copy_str("{\"messages\":[{\"content\":");
            let q = json_quote(prompt);
            push_str(&mut body, q.as_str());
            push_str(&mut body, ",\"role\":\"user\"}],\"model\":\"llama-3.1-70b-versatile\",\"stream\":false}");
            Some(AiRequest { url: copy_str("https://api.groq.com/openai/v1/chat/completions"), header: Some((copy_str("Authorization"), auth)), body })
        },
    }
}

} // verus!
