use pocket_sentinel::provider::{
    ollama_tags_url, switch_reply, transcript_prompt, AiClient, AiProvider, GeminiConfig, GlobalConfig, OllamaConfig,
    OpenAiConfig, ProviderConfigs,
};
use pocket_sentinel::session::{Role, SessionError, Turn};

fn configs() -> ProviderConfigs {
    ProviderConfigs {
        openai: OpenAiConfig::from_stored(Some("sk-test".to_string()), None, None).unwrap(),
        ollama: OllamaConfig::load_default(),
        gemini: GeminiConfig::load_default(),
    }
}

#[test]
fn unknown_provider_leaves_binding_unchanged() {
    let c = configs();
    let mut client = AiClient::new(AiProvider::Ollama, &c);
    let before = client.get_info();
    assert_eq!(client.set_provider("cohere", &c), Err(SessionError::UnknownProvider));
    assert_eq!(client.get_info(), before);
    assert_eq!(client.provider(), AiProvider::Ollama);
}

#[test]
fn known_provider_switch_replaces_binding() {
    let c = configs();
    let mut client = AiClient::new(AiProvider::Ollama, &c);
    assert_eq!(client.set_provider("OpenAI", &c), Ok("AI provider set to: openai".to_string()));
    assert_eq!(client.provider(), AiProvider::OpenAI);
    assert_eq!(client.get_info(), "OpenAI (Model: gpt-4o)");
    assert_eq!(client.api_key(), "sk-test");
    assert_eq!(client.endpoint(), "https://api.openai.com/v1/chat/completions");
}

#[test]
fn provider_names_resolve() {
    assert_eq!(AiProvider::from_name("gemini"), Some(AiProvider::Gemini));
    assert_eq!(AiProvider::from_name("ollama"), Some(AiProvider::Ollama));
    assert_eq!(AiProvider::from_name("OpenAI"), Some(AiProvider::OpenAI));
    assert_eq!(AiProvider::from_name("GEMINI"), Some(AiProvider::Gemini));
    assert_eq!(AiProvider::from_name("open ai"), None);
    assert_eq!(AiProvider::from_lowered("OpenAI"), None);
    assert_eq!(AiProvider::Gemini.name(), "gemini");
}

#[test]
fn ollama_defaults_and_info() {
    let c = OllamaConfig::load_default();
    assert_eq!(c.base_url, "http://localhost:11434/api");
    assert_eq!(c.model, "llama3");
    let client = AiClient::new(AiProvider::Ollama, &configs());
    assert_eq!(client.get_info(), "Ollama (Model: llama3, URL: http://localhost:11434/api)");
    assert_eq!(client.endpoint(), "http://localhost:11434/api/generate");
    assert!(client.known_models().is_none());
}

#[test]
fn stored_values_override_defaults() {
    let o = OllamaConfig::from_stored(Some("mistral".to_string()), None);
    assert_eq!(o.model, "mistral");
    assert_eq!(o.base_url, "http://localhost:11434/api");
    assert!(OpenAiConfig::from_stored(Some(String::new()), None, None).is_none());
    assert!(OpenAiConfig::from_stored(None, Some("gpt-4o-mini".to_string()), None).is_none());
    let g = GeminiConfig::from_stored(
        Some("key".to_string()),
        Some("gemini-1.5-pro".to_string()),
        Some("http://g".to_string()),
    )
    .unwrap();
    assert_eq!(g.model, "gemini-1.5-pro");
    assert_eq!(g.base_url, "http://g");
}

#[test]
fn gemini_endpoint_and_models() {
    let mut c = configs();
    c.gemini.api_key = "k1".to_string();
    let client = AiClient::new(AiProvider::Gemini, &c);
    assert_eq!(
        client.endpoint(),
        "https://generativelanguage.googleapis.com/v1beta/models/gemini-pro:generateContent?key=k1"
    );
    assert_eq!(
        client.known_models().unwrap(),
        vec!["gemini-pro".to_string(), "gemini-1.5-pro".to_string(), "gemini-1.5-flash".to_string()]
    );
    let openai = AiClient::new(AiProvider::OpenAI, &c);
    assert_eq!(openai.known_models().unwrap().len(), 5);
}

#[test]
fn global_selection_falls_back_to_ollama() {
    assert_eq!(GlobalConfig::load_default().selected(), AiProvider::Ollama);
    let g = GlobalConfig { provider: "gemini".to_string() };
    assert_eq!(g.selected(), AiProvider::Gemini);
    let g = GlobalConfig { provider: "OpenAI".to_string() };
    assert_eq!(g.selected(), AiProvider::OpenAI);
    let g = GlobalConfig { provider: "nonsense".to_string() };
    assert_eq!(g.selected(), AiProvider::Ollama);
}

#[test]
fn ollama_tags_address() {
    assert_eq!(ollama_tags_url("http://localhost:11434/api"), "http://localhost:11434/api/tags");
    assert_eq!(ollama_tags_url("http://host:11434/api/"), "http://host:11434/api/tags");
    assert_eq!(ollama_tags_url("http://host:11434"), "http://host:11434/api/tags");
}

#[test]
fn token_count_is_estimated_locally() {
    let client = AiClient::new(AiProvider::OpenAI, &configs());
    assert_eq!(client.count_tokens("hello world"), Ok(2));
    assert_eq!(client.count_tokens(""), Ok(0));
}

#[test]
fn transcript_as_single_prompt() {
    let turns = vec![
        Turn { role: Role::System, content: "be brief".into(), ordinal: 0 },
        Turn { role: Role::User, content: "disk?".into(), ordinal: 1 },
        Turn { role: Role::Assistant, content: "RUN: df -h".into(), ordinal: 2 },
    ];
    assert_eq!(
        transcript_prompt(&turns),
        "system: be brief\n\nuser: disk?\n\nassistant: RUN: df -h"
    );
    assert_eq!(transcript_prompt(&Vec::new()), "");
}

#[test]
fn switch_reply_warns_when_not_persisted() {
    assert_eq!(switch_reply("AI provider set to: gemini", Ok(())), "AI provider set to: gemini");
    assert_eq!(
        switch_reply("AI provider set to: gemini", Err("disk full".to_string())),
        "AI provider set to: gemini (warning: the choice was not saved and is lost on restart: disk full)"
    );
}

#[test]
fn token_count_for_other_backends_uses_cl100k() {
    let client = AiClient::new(AiProvider::Gemini, &configs());
    assert_eq!(client.count_tokens("hello world"), Ok(2));
}
