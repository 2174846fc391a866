use alouette::cleanup::{clean_translation_result, keep_script, trim_str, ScriptFilter};
use alouette::translation::{
    endpoint_url, ollama_translation, openai_translation, parse_provider, replace_str, system_prompt_for,
    validate_request, OllamaResponse, OpenAIChoice, OpenAIMessage, OpenAIResponse, Provider, RequestProblem,
};

#[test]
fn cleanup_removes_prefixes_suffixes_and_quotes() {
    assert_eq!(clean_translation_result("  Translation: Bonjour  ", "French"), "Bonjour");
    assert_eq!(clean_translation_result("French: \"Salut\"", "French"), "Salut");
    assert_eq!(clean_translation_result("In French: Salut", "French"), "Salut");
    assert_eq!(clean_translation_result("Hola (translation)", "Spanish"), "Hola");
    assert_eq!(clean_translation_result("'quoted'", "German"), "quoted");
    assert_eq!(clean_translation_result("a\nb  c", "German"), "a b c");
    assert_eq!(clean_translation_result("\"", "German"), "\"");
    assert_eq!(clean_translation_result("", "German"), "");
}

#[test]
fn cleanup_keeps_only_target_script() {
    assert_eq!(clean_translation_result("Привет, world!", "Russian"), "Привет, !");
    assert_eq!(clean_translation_result("안녕하세요 hello", "Korean"), "안녕하세요");
    assert_eq!(clean_translation_result("مرحبا 123 abc", "arabic"), "مرحبا 123");
    assert_eq!(keep_script("ab вг", ScriptFilter::Cyrillic), " вг");
    assert_eq!(trim_str("\u{3000} x \t"), "x");
}

#[test]
fn providers_and_requests() {
    assert_eq!(parse_provider("ollama"), Some(Provider::Ollama));
    assert_eq!(parse_provider("lmstudio"), Some(Provider::LmStudio));
    assert_eq!(parse_provider("openai"), None);
    let langs = vec!["French".to_string()];
    assert_eq!(validate_request(" ", &langs, "u", "m"), Err(RequestProblem::EmptyText));
    assert_eq!(validate_request("hi", &[], "u", "m"), Err(RequestProblem::NoTargetLanguages));
    assert_eq!(validate_request("hi", &langs, "", "m"), Err(RequestProblem::EmptyServerUrl));
    assert_eq!(validate_request("hi", &langs, "u", " "), Err(RequestProblem::EmptyModelName));
    assert_eq!(validate_request("hi", &langs, "u", "m"), Ok(()));
    assert_eq!(RequestProblem::EmptyText.message(), "Input text is empty");
}

#[test]
fn endpoints_and_prompts() {
    assert_eq!(endpoint_url("http://localhost:11434//", "/api/generate"), "http://localhost:11434/api/generate");
    assert_eq!(endpoint_url("http://h", "/v1/models"), "http://h/v1/models");
    assert_eq!(replace_str("a{x}b{x}", "{x}", "--"), "a--b--");
    assert_eq!(replace_str("aaa", "aa", "b"), "ba");
    let p = system_prompt_for("Korean");
    assert!(!p.contains("{{lang}}"));
    assert!(p.contains("Target language: Korean (한국어) - USE ONLY HANGUL CHARACTERS"));
}

#[test]
fn translations_from_responses() {
    let resp = OpenAIResponse {
        choices: vec![OpenAIChoice { message: OpenAIMessage { role: "assistant".to_string(), content: "  Translation: Hallo ".to_string() } }],
    };
    assert_eq!(openai_translation(&resp, "German").as_deref(), Some("Hallo"));
    assert_eq!(openai_translation(&OpenAIResponse { choices: Vec::new() }, "German"), None);
    assert_eq!(ollama_translation(&OllamaResponse { response: " Result: Привет ".to_string() }, "Russian").as_deref(), Some("Привет"));
    assert_eq!(ollama_translation(&OllamaResponse { response: "hello".to_string() }, "Russian"), None);
    assert_eq!(ollama_translation(&OllamaResponse { response: "  ".to_string() }, "French"), None);
}
