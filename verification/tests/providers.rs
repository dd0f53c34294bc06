use pointer_gestures::providers::{
    get_provider, provider_kind, GeminiProvider, GroqProvider, OllamaProvider, OpenAIProvider,
    ProviderEnum, ProviderKind,
};
use pointer_gestures::replies::{
    read_chat_reply, read_gemini_reply, read_ollama_reply, Provider, Reply,
};
use pointer_gestures::text::{decimal, same_text};

fn s(text: &str) -> String {
    text.to_string()
}

#[test]
fn provider_names() {
    assert_eq!(provider_kind("ollama"), Some(ProviderKind::Ollama));
    assert_eq!(provider_kind("openai"), Some(ProviderKind::OpenAI));
    assert_eq!(provider_kind("gemini"), Some(ProviderKind::Gemini));
    assert_eq!(provider_kind("groq"), Some(ProviderKind::Groq));
    assert_eq!(provider_kind("Ollama"), None);
    assert_eq!(provider_kind(""), None);
    assert_eq!(provider_kind("groq "), None);
    assert!(!ProviderKind::Ollama.needs_api_key());
    assert!(ProviderKind::OpenAI.needs_api_key());
    assert!(ProviderKind::Gemini.needs_api_key());
    assert!(ProviderKind::Groq.needs_api_key());
}

#[test]
fn decimal_numerals() {
    assert_eq!(decimal(0), "0");
    assert_eq!(decimal(7), "7");
    assert_eq!(decimal(10), "10");
    assert_eq!(decimal(11434), "11434");
    assert_eq!(decimal(65535), "65535");
    assert_eq!(decimal(40206), "40206");
    assert!(same_text("a", "a"));
    assert!(!same_text("a", "A"));
    assert!(!same_text("a", ""));
}

#[test]
fn ollama_defaults_and_endpoint() {
    let local = OllamaProvider::new(None, None, None);
    assert_eq!(local.host, "http://localhost:11434");
    assert_eq!(local.model, "gemma3");
    assert_eq!(local.endpoint(), "http://localhost:11434/api/generate");
    let remote = OllamaProvider::new(Some(s("http://box")), Some(80), Some(s("phi")));
    assert_eq!(remote.host, "http://box:80");
    assert_eq!(remote.model, "phi");
    assert_eq!(remote.endpoint(), "http://box:80/api/generate");
}

#[test]
fn hosted_provider_defaults_and_endpoints() {
    let openai = OpenAIProvider::new(None, None);
    assert_eq!(openai.api_key, "");
    assert_eq!(openai.model, "gpt-4.1-nano");
    assert_eq!(openai.endpoint(), "https://api.openai.com/v1/chat/completions");
    let groq = GroqProvider::new(Some("k"), None);
    assert_eq!(groq.api_key, "k");
    assert_eq!(groq.model, "llama-3.1-8b-instant");
    assert_eq!(groq.endpoint(), "https://api.groq.com/openai/v1/chat/completions");
    let gemini = GeminiProvider::new(None, None);
    assert_eq!(gemini.model, "gemini-2.0-flash-lite");
    assert_eq!(
        gemini.endpoint(),
        "https://generativelanguage.googleapis.com/v1beta/models/gemini-2.0-flash-lite:generateContent?key="
    );
    let keyed = GeminiProvider::new(Some("abc"), Some("pro"));
    assert_eq!(
        keyed.endpoint(),
        "https://generativelanguage.googleapis.com/v1beta/models/pro:generateContent?key=abc"
    );
}

#[test]
fn get_provider_by_name() {
    assert_eq!(
        get_provider("ollama", "phi", None),
        ProviderEnum::OllamaProvider(OllamaProvider {
            model: s("phi"),
            host: s("http://localhost:11434"),
        })
    );
    assert_eq!(
        get_provider("ollama", "phi", Some("ignored")),
        ProviderEnum::OllamaProvider(OllamaProvider {
            model: s("phi"),
            host: s("http://localhost:11434"),
        })
    );
    assert_eq!(
        get_provider("openai", "m", Some("k")),
        ProviderEnum::OpenAIProvider(OpenAIProvider { api_key: s("k"), model: s("m") })
    );
    assert_eq!(
        get_provider("gemini", "m", Some("k")),
        ProviderEnum::GeminiProvider(GeminiProvider { api_key: s("k"), model: s("m") })
    );
    assert_eq!(
        get_provider("groq", "", Some("")),
        ProviderEnum::GroqProvider(GroqProvider { api_key: s(""), model: s("") })
    );
    let made = get_provider("groq", "m", Some("k"));
    assert_eq!(made.kind(), ProviderKind::Groq);
    assert_eq!(made.endpoint(), "https://api.groq.com/openai/v1/chat/completions");
}

#[test]
fn names_that_stand_for_no_provider_are_found_out_beforehand() {
    for name in ["mistral", "", "Ollama", "OPENAI", " groq", "gemini\n"] {
        assert_eq!(provider_kind(name), None, "{name:?}");
    }
    for name in ["ollama", "openai", "gemini", "groq"] {
        let kind = provider_kind(name).unwrap();
        let key = if kind.needs_api_key() { Some("k") } else { None };
        assert_eq!(get_provider(name, "m", key).kind(), kind);
    }
}

#[test]
fn ollama_replies() {
    assert_eq!(read_ollama_reply(Reply::Parsed(s("hi"))), Ok(s("hi")));
    assert_eq!(read_ollama_reply(Reply::Unsent(s("connection refused"))), Err(s("connection refused")));
    assert_eq!(
        read_ollama_reply(Reply::Refused(s("model not found"))),
        Err(s("Ollama API request failed: model not found"))
    );
    assert_eq!(
        read_ollama_reply(Reply::Garbled(s("missing field `response`"))),
        Err(s("Failed to deserialize Ollama response: missing field `response`"))
    );
}

#[test]
fn chat_replies() {
    assert_eq!(
        read_chat_reply(ProviderKind::OpenAI, Reply::Parsed(vec![s("first"), s("second")])),
        Ok(s("first"))
    );
    assert_eq!(
        read_chat_reply(ProviderKind::OpenAI, Reply::Parsed(vec![])),
        Err(s("No content in OpenAI response"))
    );
    assert_eq!(
        read_chat_reply(ProviderKind::Groq, Reply::Parsed(vec![])),
        Err(s("No content in Groq response"))
    );
    assert_eq!(
        read_chat_reply(ProviderKind::Groq, Reply::Refused(s("rate limited"))),
        Err(s("Groq API request failed: rate limited"))
    );
    assert_eq!(
        read_chat_reply(ProviderKind::OpenAI, Reply::Garbled(s("EOF"))),
        Err(s("Failed to deserialize OpenAI response: EOF"))
    );
    assert_eq!(
        read_chat_reply(ProviderKind::OpenAI, Reply::Unsent(s("dns"))),
        Err(s("dns"))
    );
}

#[test]
fn gemini_replies() {
    assert_eq!(
        read_gemini_reply(Reply::Parsed(vec![vec![s("a"), s("b")], vec![s("c")]])),
        Ok(s("a"))
    );
    assert_eq!(
        read_gemini_reply(Reply::Parsed(vec![])),
        Err(s("Failed to parse response from Gemini API"))
    );
    assert_eq!(
        read_gemini_reply(Reply::Parsed(vec![vec![], vec![s("c")]])),
        Err(s("Failed to parse response from Gemini API"))
    );
    assert_eq!(
        read_gemini_reply(Reply::Refused(s("bad key"))),
        Err(s("Gemini API request failed: bad key"))
    );
    assert_eq!(
        read_gemini_reply(Reply::Garbled(s("x"))),
        Err(s("Failed to deserialize Gemini response: x"))
    );
    assert_eq!(read_gemini_reply(Reply::Unsent(s("y"))), Err(s("y")));
}

#[test]
fn each_provider_reads_its_own_replies() {
    let ollama = OllamaProvider::new(None, None, None);
    assert_eq!(ollama.completion(Reply::Parsed(s("hi"))), Ok(s("hi")));
    assert_eq!(
        ollama.completion(Reply::Refused(s("nope"))),
        Err(s("Ollama API request failed: nope"))
    );
    let openai = OpenAIProvider::new(None, None);
    assert_eq!(openai.completion(Reply::Parsed(vec![s("a"), s("b")])), Ok(s("a")));
    assert_eq!(
        openai.completion(Reply::Parsed(vec![])),
        Err(s("No content in OpenAI response"))
    );
    let groq = GroqProvider::new(None, None);
    assert_eq!(groq.completion(Reply::Parsed(vec![])), Err(s("No content in Groq response")));
    assert_eq!(
        groq.completion(Reply::Garbled(s("eof"))),
        Err(s("Failed to deserialize Groq response: eof"))
    );
    let gemini = GeminiProvider::new(None, None);
    assert_eq!(gemini.completion(Reply::Parsed(vec![vec![s("x")]])), Ok(s("x")));
    assert_eq!(
        gemini.completion(Reply::Parsed(vec![vec![]])),
        Err(s("Failed to parse response from Gemini API"))
    );
    assert_eq!(gemini.completion(Reply::Unsent(s("offline"))), Err(s("offline")));
}
