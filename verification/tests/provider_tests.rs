use prai::git::GitOutput;
use prai::providers::anthropic::{AnthropicProvider, Payload};
use prai::providers::google::GoogleProvider;
use prai::providers::ollama::OllamaProvider;
use prai::providers::openai::OpenAIProvider;
use prai::providers::{handle_response, prepare_call, Provider, Request};
use prai::settings::{
    AnthropicSettings, GoogleSettings, OllamaSettings, OpenAISettings, Secret,
};

fn anthropic_settings() -> AnthropicSettings {
    AnthropicSettings {
        version: AnthropicSettings::default_version(),
        model: "fast-writer-1".to_string(),
        api_key: Secret::new("test-key-123".to_string()),
        max_tokens: AnthropicSettings::default_max_tokens(),
        temperature: Some("0.3".to_string()),
        top_p: None,
    }
}

fn openai_settings() -> OpenAISettings {
    OpenAISettings {
        model: "gpt-4o".to_string(),
        api_key: Secret::new("test-key-123".to_string()),
        base_url: OpenAISettings::default_base_url(),
        max_tokens: 500,
        temperature: OpenAISettings::default_temperature(),
        top_p: OpenAISettings::default_top_p(),
        frequency_penalty: OpenAISettings::default_frequency_penalty(),
        presence_penalty: OpenAISettings::default_presence_penalty(),
    }
}

fn google_settings() -> GoogleSettings {
    GoogleSettings {
        model: "gemini-pro".to_string(),
        api_key: Secret::new("test-key-123".to_string()),
        base_url: GoogleSettings::default_base_url(),
        max_tokens: 500,
        temperature: GoogleSettings::default_temperature(),
        top_p: GoogleSettings::default_top_p(),
    }
}

fn ollama_settings() -> OllamaSettings {
    OllamaSettings {
        url: OllamaSettings::default_url(),
        model: "llama3".to_string(),
        temperature: OllamaSettings::default_temperature(),
        top_p: OllamaSettings::default_top_p(),
        num_predict: OllamaSettings::default_num_predict(),
    }
}

const TRICKY_PROMPT: &str = "Line \"one\"\n\tTab \\ backslash\u{1}end";

#[test]
fn anthropic_body_round_trips_prompt() {
    let p = AnthropicProvider::from_config(anthropic_settings());
    let body = p.build_request_body(TRICKY_PROMPT);
    let v: serde_json::Value = serde_json::from_str(&body).unwrap();
    assert_eq!(v["model"].as_str().unwrap(), "fast-writer-1");
    assert_eq!(v["max_tokens"].as_u64().unwrap(), 500);
    assert_eq!(v["temperature"].as_f64().unwrap(), 0.3);
    assert!(v.get("top_p").is_none());
    assert_eq!(v["messages"][0]["role"].as_str().unwrap(), "user");
    assert_eq!(v["messages"][0]["content"].as_str().unwrap(), TRICKY_PROMPT);
}

#[test]
fn openai_body_round_trips_prompt() {
    let p = OpenAIProvider::from_config(openai_settings());
    let body = p.build_request_body(TRICKY_PROMPT);
    let v: serde_json::Value = serde_json::from_str(&body).unwrap();
    assert_eq!(v["model"].as_str().unwrap(), "gpt-4o");
    assert_eq!(v["messages"][0]["role"].as_str().unwrap(), "user");
    assert_eq!(v["messages"][0]["content"].as_str().unwrap(), TRICKY_PROMPT);
    assert_eq!(v["temperature"].as_f64().unwrap(), 0.3);
    assert_eq!(v["top_p"].as_f64().unwrap(), 0.9);
    assert_eq!(v["max_tokens"].as_u64().unwrap(), 500);
    assert_eq!(v["stream"].as_bool().unwrap(), false);
}

#[test]
fn google_body_round_trips_prompt() {
    let p = GoogleProvider::from_config(google_settings());
    let body = p.build_request_body(TRICKY_PROMPT);
    let v: serde_json::Value = serde_json::from_str(&body).unwrap();
    assert_eq!(
        v["contents"][0]["parts"][0]["text"].as_str().unwrap(),
        TRICKY_PROMPT
    );
    assert_eq!(v["generationConfig"]["temperature"].as_f64().unwrap(), 0.3);
    assert_eq!(v["generationConfig"]["topP"].as_f64().unwrap(), 0.9);
    assert_eq!(
        v["generationConfig"]["maxOutputTokens"].as_u64().unwrap(),
        500
    );
}

#[test]
fn ollama_body_round_trips_prompt() {
    let p = OllamaProvider::from_config(ollama_settings());
    let body = p.build_request_body(TRICKY_PROMPT);
    let v: serde_json::Value = serde_json::from_str(&body).unwrap();
    assert_eq!(v["model"].as_str().unwrap(), "llama3");
    assert_eq!(v["prompt"].as_str().unwrap(), TRICKY_PROMPT);
    assert_eq!(v["stream"].as_bool().unwrap(), false);
    assert_eq!(v["options"]["temperature"].as_f64().unwrap(), 0.3);
    assert_eq!(v["options"]["top_p"].as_f64().unwrap(), 0.9);
    assert_eq!(v["options"]["num_predict"].as_u64().unwrap(), 500);
}

#[test]
fn build_urls() {
    assert_eq!(
        AnthropicProvider::from_config(anthropic_settings()).build_url(),
        "https://api.anthropic.com/v1/messages"
    );
    assert_eq!(
        OpenAIProvider::from_config(openai_settings()).build_url(),
        "https://api.openai.com/v1/chat/completions"
    );
    assert_eq!(
        GoogleProvider::from_config(google_settings()).build_url(),
        "https://generativelanguage.googleapis.com/v1beta/models/gemini-pro:generateContent?key=test-key-123"
    );
    assert_eq!(
        OllamaProvider::from_config(ollama_settings()).build_url(),
        "http://localhost:11434/api/generate"
    );
}

#[test]
fn headers_carry_authentication() {
    let a = AnthropicProvider::from_config(anthropic_settings()).headers();
    assert_eq!(a[0], ("x-api-key".to_string(), "test-key-123".to_string()));
    assert_eq!(
        a[1],
        ("anthropic-version".to_string(), "2023-06-01".to_string())
    );
    assert_eq!(
        a[2],
        ("content-type".to_string(), "application/json".to_string())
    );
    let o = OpenAIProvider::from_config(openai_settings()).headers();
    assert_eq!(
        o[0],
        (
            "authorization".to_string(),
            "Bearer test-key-123".to_string()
        )
    );
    let g = GoogleProvider::from_config(google_settings()).headers();
    assert_eq!(g.len(), 1);
    assert_eq!(g[0].0, "content-type");
}

fn doc(s: &str) -> serde_json::Value {
    serde_json::from_str(s).unwrap()
}

#[test]
fn anthropic_parse_response_extracts_text() {
    let p = AnthropicProvider::from_config(anthropic_settings());
    let v = doc(r#"{"content":[{"type":"text","text":"Generated summary"}]}"#);
    assert_eq!(p.parse_response(&v), "Generated summary");
}

#[test]
fn anthropic_parse_response_is_lenient() {
    let p = AnthropicProvider::from_config(anthropic_settings());
    assert_eq!(p.parse_response(&doc("{}")), "");
    assert_eq!(p.parse_response(&doc(r#"{"content":[]}"#)), "");
    assert_eq!(p.parse_response(&doc(r#"{"content":"nope"}"#)), "");
    assert_eq!(p.parse_response(&doc(r#"{"content":[{"text":7}]}"#)), "");
    assert_eq!(p.parse_response(&doc("[1,2]")), "");
}

#[test]
fn openai_parse_response_extracts_text() {
    let p = OpenAIProvider::from_config(openai_settings());
    let v = doc(r#"{"choices":[{"message":{"role":"assistant","content":"Reply"}}]}"#);
    assert_eq!(p.parse_response(&v), "Reply");
}

#[test]
fn openai_parse_response_is_lenient() {
    let p = OpenAIProvider::from_config(openai_settings());
    assert_eq!(p.parse_response(&doc("{}")), "");
    assert_eq!(p.parse_response(&doc(r#"{"choices":[]}"#)), "");
    assert_eq!(p.parse_response(&doc(r#"{"choices":[{"message":{}}]}"#)), "");
    assert_eq!(p.parse_response(&doc(r#"{"choices":[{}]}"#)), "");
}

#[test]
fn google_parse_response_extracts_text() {
    let p = GoogleProvider::from_config(google_settings());
    let v = doc(
        r#"{"candidates":[{"content":{"parts":[{"text":"Answer"}],"role":"model"}}]}"#,
    );
    assert_eq!(p.parse_response(&v), "Answer");
}

#[test]
fn google_parse_response_is_lenient() {
    let p = GoogleProvider::from_config(google_settings());
    assert_eq!(p.parse_response(&doc("{}")), "");
    assert_eq!(p.parse_response(&doc(r#"{"candidates":[]}"#)), "");
    assert_eq!(
        p.parse_response(&doc(r#"{"candidates":[{"content":{}}]}"#)),
        ""
    );
    assert_eq!(
        p.parse_response(&doc(r#"{"candidates":[{"content":{"parts":[]}}]}"#)),
        ""
    );
}

#[test]
fn ollama_parse_response_extracts_text() {
    let p = OllamaProvider::from_config(ollama_settings());
    assert_eq!(p.parse_response(&doc(r#"{"response":"Done"}"#)), "Done");
    assert_eq!(p.parse_response(&doc("{}")), "");
    assert_eq!(p.parse_response(&doc(r#"{"response":3}"#)), "");
}

#[test]
fn handle_response_fails_on_non_success_status() {
    let p = OllamaProvider::from_config(ollama_settings());
    let err = handle_response(&p, 404, r#"{"error":"missing model"}"#).unwrap_err();
    assert_eq!(
        err.message(),
        "API request failed with status: 404: {\"error\":\"missing model\"}"
    );
    let err = handle_response(&p, 500, "oops").unwrap_err();
    assert_eq!(err.message(), "API request failed with status: 500: oops");
}

#[test]
fn handle_response_extracts_on_success() {
    let p = OllamaProvider::from_config(ollama_settings());
    let out = handle_response(&p, 200, r#"{"response":"All good"}"#).unwrap();
    assert_eq!(out, "All good");
    let lenient = handle_response(&p, 200, r#"{"unexpected":true}"#).unwrap();
    assert_eq!(lenient, "");
}

#[test]
fn handle_response_rejects_malformed_body() {
    let p = AnthropicProvider::from_config(anthropic_settings());
    let err = handle_response(&p, 200, "not json at all").unwrap_err();
    assert_eq!(err.message(), "API response was not valid JSON");
}

#[test]
fn prepare_call_assembles_everything() {
    let p = OllamaProvider::from_config(ollama_settings());
    let request = Request::new(
        "main".to_string(),
        "HEAD".to_string(),
        vec![":!*.lock".to_string()],
        None,
        None,
        None,
        false,
    );
    let git = GitOutput {
        success: true,
        stdout: "diff --git a/x b/x\n".to_string(),
        stderr: String::new(),
    };
    let call = prepare_call(&p, &request, git).unwrap();
    assert_eq!(call.url, "http://localhost:11434/api/generate");
    assert_eq!(call.headers.len(), 1);
    let v: serde_json::Value = serde_json::from_str(&call.body).unwrap();
    let prompt = v["prompt"].as_str().unwrap();
    assert!(prompt.starts_with("[ROLE]\n"));
    assert!(prompt.contains("diff --git a/x b/x"));
}

#[test]
fn prepare_call_propagates_no_changes() {
    let p = OllamaProvider::from_config(ollama_settings());
    let request = Request::new(
        "main".to_string(),
        "main".to_string(),
        Vec::new(),
        None,
        None,
        None,
        false,
    );
    let git = GitOutput { success: true, stdout: String::new(), stderr: String::new() };
    let err = match prepare_call(&p, &request, git) {
        Ok(_) => panic!("an empty diff must not prepare a call"),
        Err(e) => e,
    };
    assert_eq!(err.message(), "No differences between `main` and `main`");
}

#[test]
fn payload_mirrors_settings_and_prompt() {
    let payload =
        Payload::from_settings_and_prompt("Hello".to_string(), anthropic_settings());
    assert_eq!(payload.model, "fast-writer-1");
    assert_eq!(payload.max_tokens, 500);
    assert_eq!(payload.messages.len(), 1);
    assert_eq!(payload.messages[0].content, "Hello");
    let v: serde_json::Value = serde_json::from_str(&payload.to_json()).unwrap();
    assert_eq!(v["messages"][0]["content"].as_str().unwrap(), "Hello");
}
