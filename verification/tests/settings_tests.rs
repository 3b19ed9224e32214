use prai::settings::{
    serialize_secret, AnthropicSettings, GoogleSettings, OllamaSettings, OpenAISettings,
    Profile, Provider, Secret, Settings,
};
use prai::json::is_json_number;
use prai::text::u32_to_string;

fn ollama_profile(name: &str) -> Profile {
    Profile {
        name: name.to_string(),
        role: None,
        directive: None,
        provider: Provider::Ollama(OllamaSettings {
            url: OllamaSettings::default_url(),
            model: name.to_string(),
            temperature: OllamaSettings::default_temperature(),
            top_p: OllamaSettings::default_top_p(),
            num_predict: OllamaSettings::default_num_predict(),
        }),
    }
}

#[test]
fn settings_get_picks_requested_profile() {
    let settings = Settings::new(
        "work".to_string(),
        vec![ollama_profile("home"), ollama_profile("work")],
    );
    let p = settings.get(Some("home".to_string())).unwrap();
    assert_eq!(p.name, "home");
}

#[test]
fn settings_get_falls_back_to_default() {
    let settings = Settings::new(
        "work".to_string(),
        vec![ollama_profile("home"), ollama_profile("work")],
    );
    let p = settings.get(None).unwrap();
    assert_eq!(p.name, "work");
}

#[test]
fn settings_get_takes_first_match() {
    let mut first = ollama_profile("dup");
    first.role = Some("the first".to_string());
    let settings = Settings::new("dup".to_string(), vec![first, ollama_profile("dup")]);
    let p = settings.get(None).unwrap();
    assert_eq!(p.role.as_deref(), Some("the first"));
}

#[test]
fn settings_get_reports_missing_profile() {
    let settings = Settings::new("work".to_string(), vec![ollama_profile("home")]);
    let err = match settings.get(Some("nowhere".to_string())) {
        Ok(_) => panic!("an unknown profile must not resolve"),
        Err(e) => e,
    };
    assert_eq!(err.message(), "Unable to find profile `nowhere`");
}

#[test]
fn secret_exposes_only_deliberately() {
    let s = Secret::new("credential-value-42".to_string());
    assert_eq!(s.expose_secret(), "credential-value-42");
    assert_eq!(serialize_secret(&s), "[REDACTED]");
}

#[test]
fn provider_json_redacts_every_credential() {
    let key = "credential-value-42";
    let configs = vec![
        Provider::Anthropic(AnthropicSettings {
            version: AnthropicSettings::default_version(),
            model: "m".to_string(),
            api_key: Secret::new(key.to_string()),
            max_tokens: 500,
            temperature: Some("0.3".to_string()),
            top_p: None,
        }),
        Provider::OpenAI(OpenAISettings {
            model: "m".to_string(),
            api_key: Secret::new(key.to_string()),
            base_url: OpenAISettings::default_base_url(),
            max_tokens: 500,
            temperature: "0.3".to_string(),
            top_p: "0.9".to_string(),
            frequency_penalty: "0.0".to_string(),
            presence_penalty: "0.0".to_string(),
        }),
        Provider::Google(GoogleSettings {
            model: "m".to_string(),
            api_key: Secret::new(key.to_string()),
            base_url: GoogleSettings::default_base_url(),
            max_tokens: 500,
            temperature: "0.3".to_string(),
            top_p: "0.9".to_string(),
        }),
    ];
    for config in configs {
        let json = config.to_json();
        assert!(!json.contains(key));
        assert!(json.contains("[REDACTED]"));
        let v: serde_json::Value = serde_json::from_str(&json).unwrap();
        assert_eq!(v["api_key"].as_str().unwrap(), "[REDACTED]");
    }
}

#[test]
fn provider_json_carries_the_tag_and_fields() {
    let config = Provider::Ollama(OllamaSettings {
        url: "http://box:11434".to_string(),
        model: "llama3".to_string(),
        temperature: "0.7".to_string(),
        top_p: "0.9".to_string(),
        num_predict: 128,
    });
    let json = config.to_json();
    let v: serde_json::Value = serde_json::from_str(&json).unwrap();
    assert_eq!(v["provider"].as_str().unwrap(), "ollama");
    assert_eq!(v["url"].as_str().unwrap(), "http://box:11434");
    assert_eq!(v["model"].as_str().unwrap(), "llama3");
    assert_eq!(v["temperature"].as_f64().unwrap(), 0.7);
    assert_eq!(v["num_predict"].as_u64().unwrap(), 128);
}

#[test]
fn anthropic_json_omits_unset_sampling_parameters() {
    let config = Provider::Anthropic(AnthropicSettings {
        version: "2023-06-01".to_string(),
        model: "m".to_string(),
        api_key: Secret::new("k".to_string()),
        max_tokens: 7,
        temperature: None,
        top_p: None,
    });
    let v: serde_json::Value = serde_json::from_str(&config.to_json()).unwrap();
    assert!(v.get("temperature").is_none());
    assert!(v.get("top_p").is_none());
    assert_eq!(v["max_tokens"].as_u64().unwrap(), 7);
}

#[test]
fn number_token_checker_matches_the_grammar() {
    for good in ["0", "0.3", "-12.75", "1e5", "2E-3", "10", "-0.5e+10", "0.0"] {
        assert!(is_json_number(good), "{good} should be accepted");
    }
    for bad in ["", "-", "01", "1.", ".5", "1e", "1e+", "abc", "0.3.5", "+1", "NaN", "0x1", " 1"] {
        assert!(!is_json_number(bad), "{bad} should be rejected");
    }
}

#[test]
fn decimal_rendering_is_exact() {
    assert_eq!(u32_to_string(0), "0");
    assert_eq!(u32_to_string(7), "7");
    assert_eq!(u32_to_string(500), "500");
    assert_eq!(u32_to_string(4294967295), "4294967295");
}

#[test]
fn default_values_match_documentation() {
    assert_eq!(AnthropicSettings::default_version(), "2023-06-01");
    assert_eq!(AnthropicSettings::default_max_tokens(), 500);
    assert_eq!(OllamaSettings::default_url(), "http://localhost:11434");
    assert_eq!(OllamaSettings::default_temperature(), "0.3");
    assert_eq!(OllamaSettings::default_top_p(), "0.9");
    assert_eq!(OllamaSettings::default_num_predict(), 500);
    assert_eq!(OpenAISettings::default_base_url(), "https://api.openai.com/v1");
    assert_eq!(OpenAISettings::default_frequency_penalty(), "0.0");
    assert_eq!(OpenAISettings::default_presence_penalty(), "0.0");
    assert_eq!(
        GoogleSettings::default_base_url(),
        "https://generativelanguage.googleapis.com/v1beta"
    );
    assert_eq!(GoogleSettings::default_max_tokens(), 500);
}
