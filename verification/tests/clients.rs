use conexus_tools::completion_client;
use conexus_tools::completion_client::{
    resolve_chat_base_url, ChatMessage, ChatReply, CompletionClient, CompletionConfigError,
    OLLAMA_DEFAULT_BASE_URL, OLLAMA_DEFAULT_MODEL, OPENAI_DEFAULT_BASE_URL,
};
use conexus_tools::context_window::{
    budget_for, note_probe, props_url, resolve_context_window, resolve_max_context_tokens,
    resolve_subject_input_chars, subject_chars_for, Sought, WindowCache, DEFAULT_WINDOW,
    LEGACY_UNBOUNDED_BUDGET, MIN_BUDGET, SUBJECT_CHARS_CEILING,
};
use conexus_tools::embedding_client;
use conexus_tools::embedding_client::{EmbedError, EmbeddingClient};
use conexus_tools::env::parse_number;
use conexus_tools::message_suggestions::{
    subject_messages, subject_model_configured, suggest_subject, suggested, truncate,
    DEFAULT_BASE_URL, MAX_SUBJECT_LEN, SYSTEM_PROMPT,
};
use std::collections::HashMap;

fn env(pairs: &[(&str, &str)]) -> impl Fn(&str) -> Option<String> {
    let map: HashMap<String, String> = pairs
        .iter()
        .map(|(k, v)| (k.to_string(), v.to_string()))
        .collect();
    move |key| map.get(key).cloned()
}

#[test]
fn no_openai_key_resolves_to_ollama_defaults() {
    let client = completion_client::resolve(env(&[])).unwrap();
    assert_eq!(
        client,
        CompletionClient {
            base_url: OLLAMA_DEFAULT_BASE_URL.to_string(),
            api_key: "ollama".to_string(),
            model: OLLAMA_DEFAULT_MODEL.to_string(),
        }
    );
}

#[test]
fn ollama_model_env_var_overrides_the_default() {
    let client = completion_client::resolve(env(&[("OLLAMA_MODEL", "llama3:8b")])).unwrap();
    assert_eq!(client.model, "llama3:8b");
}

#[test]
fn openai_key_without_model_is_a_config_error() {
    let err = completion_client::resolve(env(&[("OPENAI_API_KEY", "sk-real")])).unwrap_err();
    assert_eq!(err, CompletionConfigError);
    assert!(err.message().starts_with("OPENAI_API_KEY is set but OPENAI_MODEL is not"));
}

#[test]
fn openai_key_and_model_resolve_to_the_cloud_default_base_url() {
    let client = completion_client::resolve(env(&[
        ("OPENAI_API_KEY", "sk-real"),
        ("OPENAI_MODEL", "gpt-4.1"),
    ]))
    .unwrap();
    assert_eq!(
        client,
        CompletionClient {
            base_url: "https://api.openai.com/v1".to_string(),
            api_key: "sk-real".to_string(),
            model: "gpt-4.1".to_string(),
        }
    );
}

#[test]
fn agent_mcp_llm_base_url_overrides_the_chat_endpoint_for_openai_too() {
    let client = completion_client::resolve(env(&[
        ("OPENAI_API_KEY", "sk-real"),
        ("OPENAI_MODEL", "gpt-4.1"),
        ("CONEXUS_LLM_BASE_URL", "http://fast-igpu:11435/v1"),
        ("OPENAI_BASE_URL", "https://ignored.example/v1"),
    ]))
    .unwrap();
    assert_eq!(client.base_url, "http://fast-igpu:11435/v1");
}

#[test]
fn openai_base_url_is_the_fallback_when_agent_mcp_llm_base_url_is_unset() {
    let client = completion_client::resolve(env(&[
        ("OPENAI_API_KEY", "sk-real"),
        ("OPENAI_MODEL", "gpt-4.1"),
        ("OPENAI_BASE_URL", "https://my-gateway.example/v1"),
    ]))
    .unwrap();
    assert_eq!(client.base_url, "https://my-gateway.example/v1");
}

#[test]
fn chat_base_url_is_none_when_nothing_is_set() {
    assert_eq!(resolve_chat_base_url(env(&[])), None);
}

#[test]
fn chat_base_url_prefers_agent_mcp_llm_base_url_over_openai_base_url() {
    assert_eq!(
        resolve_chat_base_url(env(&[
            ("CONEXUS_LLM_BASE_URL", "http://a"),
            ("OPENAI_BASE_URL", "http://b"),
        ])),
        Some("http://a".to_string())
    );
}

#[test]
fn chat_requests_carry_model_messages_and_limits() {
    let client = CompletionClient {
        base_url: "http://h/v1//".to_string(),
        api_key: "k".to_string(),
        model: "m".to_string(),
    };
    assert_eq!(client.chat_url(), "http://h/v1/chat/completions");
    let messages = vec![ChatMessage { role: "user".to_string(), content: "hi".to_string() }];
    let with = client.chat_body(&messages, Some(serde_json::Number::from(1)), Some(32));
    assert_eq!(
        with.compact(),
        "{\"max_tokens\":32,\"messages\":[{\"content\":\"hi\",\"role\":\"user\"}],\"model\":\"m\",\"temperature\":1}"
    );
    let without = client.chat_body(&messages, Some(serde_json::Number::from(1)), None);
    assert!(without.get("max_tokens").is_none());
}

#[test]
fn a_temperature_that_is_no_number_is_sent_as_null() {
    let client = CompletionClient {
        base_url: "http://h/v1".to_string(),
        api_key: "k".to_string(),
        model: "m".to_string(),
    };
    let body = client.chat_body(&vec![], serde_json::Number::from_f64(f64::NAN), None);
    assert_eq!(body.compact(), "{\"messages\":[],\"model\":\"m\",\"temperature\":null}");
    let body = client.chat_body(&vec![], serde_json::Number::from_f64(0.5), None);
    assert_eq!(body.compact(), "{\"messages\":[],\"model\":\"m\",\"temperature\":0.5}");
}

#[test]
fn a_reply_has_one_vector_for_each_text() {
    assert_eq!(EmbedError::one_each(0, 0), Ok(()));
    assert_eq!(EmbedError::one_each(3, 3), Ok(()));
    assert_eq!(
        EmbedError::one_each(3, 2).unwrap_err().message(),
        "embedding request failed: 2 vectors for 3 texts"
    );
    assert!(EmbedError::one_each(0, 1).is_err());
}

#[test]
fn chat_answers_are_the_first_choice() {
    let some = |v: Vec<Option<String>>| CompletionClient::chat(ChatReply::Choices(v));
    assert_eq!(some(vec![Some("a".to_string()), Some("b".to_string())]).unwrap(), "a");
    assert_eq!(some(vec![None]).unwrap(), "");
    assert_eq!(
        some(vec![]).unwrap_err().message(),
        "chat completion request failed: no choices in response"
    );
    assert_eq!(
        CompletionClient::chat(ChatReply::Refused("500 Internal Server Error".to_string()))
            .unwrap_err()
            .0,
        "HTTP 500 Internal Server Error"
    );
    assert_eq!(CompletionClient::chat(ChatReply::Failed("x".to_string())).unwrap_err().0, "x");
}

#[test]
fn no_openai_key_resolves_to_local_ollama_defaults() {
    let client = embedding_client::resolve(env(&[]));
    assert_eq!(
        client,
        EmbeddingClient {
            base_url: OLLAMA_DEFAULT_BASE_URL.to_string(),
            api_key: "ollama".to_string(),
            model: "qwen3-embedding:0.6b".to_string(),
            dimension: 1024,
        }
    );
}

#[test]
fn ollama_branch_honours_agent_mcp_llm_base_url_override() {
    let client =
        embedding_client::resolve(env(&[("CONEXUS_LLM_BASE_URL", "http://gpu-box:11434/v1")]));
    assert_eq!(client.base_url, "http://gpu-box:11434/v1");
}

#[test]
fn openai_key_set_resolves_to_openai_cloud_defaults() {
    let client = embedding_client::resolve(env(&[("OPENAI_API_KEY", "sk-real")]));
    assert_eq!(
        client,
        EmbeddingClient {
            base_url: OPENAI_DEFAULT_BASE_URL.to_string(),
            api_key: "sk-real".to_string(),
            model: "text-embedding-3-large".to_string(),
            dimension: 1536,
        }
    );
}

#[test]
fn openai_branch_honours_openai_base_url_override() {
    let client = embedding_client::resolve(env(&[
        ("OPENAI_API_KEY", "sk-real"),
        ("OPENAI_BASE_URL", "https://my-gateway.example/v1"),
    ]));
    assert_eq!(client.base_url, "https://my-gateway.example/v1");
}

#[test]
fn explicit_model_and_dimension_override_win_in_either_branch() {
    let ollama = embedding_client::resolve(env(&[
        ("CONEXUS_EMBEDDING_MODEL", "custom-model"),
        ("CONEXUS_EMBEDDING_DIMENSION", "768"),
    ]));
    assert_eq!(ollama.model, "custom-model");
    assert_eq!(ollama.dimension, 768);

    let openai = embedding_client::resolve(env(&[
        ("OPENAI_API_KEY", "sk-real"),
        ("CONEXUS_EMBEDDING_MODEL", "custom-model"),
        ("CONEXUS_EMBEDDING_DIMENSION", "768"),
    ]));
    assert_eq!(openai.model, "custom-model");
    assert_eq!(openai.dimension, 768);
}

#[test]
fn whitespace_only_openai_api_key_is_treated_as_unset() {
    let client = embedding_client::resolve(env(&[("OPENAI_API_KEY", "   ")]));
    assert_eq!(
        client.api_key, "ollama",
        "must fall through to the Ollama branch"
    );
}

#[test]
fn an_unparseable_dimension_override_falls_back_to_the_provider_default() {
    let client =
        embedding_client::resolve(env(&[("CONEXUS_EMBEDDING_DIMENSION", "not-a-number")]));
    assert_eq!(client.dimension, 1024);
}

#[test]
fn embedding_requests_carry_model_inputs_and_dimension() {
    let client = EmbeddingClient {
        base_url: "http://h/v1/".to_string(),
        api_key: "k".to_string(),
        model: "m".to_string(),
        dimension: 3,
    };
    assert_eq!(client.embed_url(), "http://h/v1/embeddings");
    assert_eq!(
        client.embed_body(&vec!["a".to_string()]).compact(),
        "{\"dimensions\":3,\"input\":[\"a\"],\"model\":\"m\"}"
    );
    assert_eq!(EmbedError::refused("404 Not Found").message(), "embedding request failed: HTTP 404 Not Found");
}

#[test]
fn both_clients_go_by_the_same_key() {
    for pairs in [vec![], vec![("OPENAI_API_KEY", "k"), ("OPENAI_MODEL", "m")]] {
        let c = completion_client::resolve(env(&pairs)).unwrap();
        let e = embedding_client::resolve(env(&pairs));
        assert_eq!(c.api_key, e.api_key);
    }
}

#[test]
fn numbers_are_read_as_plain_decimals() {
    assert_eq!(parse_number("0", 10), Some(0));
    assert_eq!(parse_number("+7", 10), Some(7));
    assert_eq!(parse_number("007", 10), Some(7));
    assert_eq!(parse_number("18446744073709551615", u64::MAX), Some(u64::MAX));
    assert_eq!(parse_number("18446744073709551616", u64::MAX), None);
    assert_eq!(parse_number("11", 10), None);
    for bad in ["", "+", "-1", "1.0", " 1", "++1", "٣"] {
        assert_eq!(parse_number(bad, 10), None, "{bad}");
    }
}

#[test]
fn the_window_comes_from_its_setting_or_a_probe() {
    let cache = WindowCache::new();
    assert_eq!(resolve_context_window(&env(&[]), None, &cache), Sought::Known(None));
    assert_eq!(
        resolve_context_window(&env(&[("CONEXUS_MODEL_CONTEXT_WINDOW", "8192")]), None, &cache),
        Sought::Known(Some(8192))
    );
    assert_eq!(
        resolve_context_window(
            &env(&[("CONEXUS_MODEL_CONTEXT_WINDOW", "not-a-number")]),
            Some("http://h"),
            &cache
        ),
        Sought::Known(Some(DEFAULT_WINDOW))
    );
    assert_eq!(
        resolve_context_window(&env(&[]), Some("http://h:1/v1/"), &cache),
        Sought::Probe { url: "http://h:1/props".to_string() }
    );
}

#[test]
fn probes_are_remembered_whether_they_answer_or_not() {
    let mut cache = WindowCache::new();
    assert_eq!(cache.cache_get("a"), None);
    assert_eq!(note_probe(&mut cache, "a", Some(4096)), Some(4096));
    assert_eq!(note_probe(&mut cache, "b", Some(0)), None);
    assert_eq!(note_probe(&mut cache, "c", None), None);
    assert_eq!(cache.cache_get("a"), Some(Some(4096)));
    assert_eq!(cache.cache_get("b"), Some(None));
    assert_eq!(
        resolve_context_window(&env(&[]), Some("c"), &cache),
        Sought::Known(None)
    );
    cache.cache_set("a", Some(1));
    assert_eq!(cache.cache_get("a"), Some(Some(1)));
}

#[test]
fn props_stand_at_the_servers_root() {
    assert_eq!(props_url("http://h/v1"), "http://h/props");
    assert_eq!(props_url("http://h/v1//"), "http://h/props");
    assert_eq!(props_url("http://h/api"), "http://h/api/props");
    assert_eq!(props_url("v1"), "v1/props");
}

#[test]
fn budgets_follow_the_window() {
    let cache = WindowCache::new();
    assert_eq!(budget_for(None), LEGACY_UNBOUNDED_BUDGET);
    assert_eq!(budget_for(Some(8192)), 3328);
    assert_eq!(budget_for(Some(1000)), MIN_BUDGET);
    assert_eq!(
        resolve_max_context_tokens(&env(&[("CONEXUS_MAX_CONTEXT_TOKENS", "12345")]), None, &cache),
        Sought::Known(12345)
    );
    assert_eq!(
        resolve_max_context_tokens(&env(&[("CONEXUS_MAX_CONTEXT_TOKENS", "x")]), None, &cache),
        Sought::Known(LEGACY_UNBOUNDED_BUDGET)
    );
    assert_eq!(
        resolve_max_context_tokens(
            &env(&[("CONEXUS_MODEL_CONTEXT_WINDOW", "8192")]),
            None,
            &cache
        ),
        Sought::Known(3328)
    );
    assert_eq!(
        resolve_max_context_tokens(&env(&[]), Some("http://h"), &cache),
        Sought::Probe { url: "http://h/props".to_string() }
    );
}

#[test]
fn subject_input_is_capped_at_both_ends() {
    assert_eq!(subject_chars_for(None), 4000);
    assert_eq!(subject_chars_for(Some(0)), 2);
    assert_eq!(subject_chars_for(Some(1128)), 2000);
    assert_eq!(subject_chars_for(Some(u64::MAX)), 4000);
    assert_eq!(
        resolve_subject_input_chars(&env(&[]), None, &WindowCache::new()),
        Sought::Known(4000)
    );
}

#[test]
fn model_unconfigured_by_default() {
    assert!(!subject_model_configured(&env(&[])));
}

#[test]
fn model_configured_when_set_nonempty() {
    assert!(subject_model_configured(&env(&[(
        "CONEXUS_SUBJECT_MODEL",
        "qwen2.5:3b-instruct"
    )])));
}

#[test]
fn whitespace_only_model_env_counts_as_unconfigured() {
    assert!(!subject_model_configured(&env(&[(
        "CONEXUS_SUBJECT_MODEL",
        "   "
    )])));
}

#[test]
fn truncate_trims_and_strips_matching_quotes() {
    assert_eq!(truncate("  \"Deploy failed\"  "), "Deploy failed");
}

#[test]
fn truncate_leaves_a_lone_quote_character_alone() {
    assert_eq!(truncate("\"unbalanced"), "\"unbalanced");
    assert_eq!(truncate("\""), "\"");
}

#[test]
fn truncate_collapses_internal_newlines_to_spaces() {
    assert_eq!(truncate("line one\nline two"), "line one line two");
}

#[test]
fn truncate_caps_at_the_max_length_with_an_ellipsis() {
    let long = "a".repeat(200);
    let out = truncate(&long);
    assert_eq!(out.chars().count(), MAX_SUBJECT_LEN);
    assert!(out.ends_with("..."));
}

#[test]
fn a_cut_subject_drops_the_space_before_the_ellipsis() {
    let long = format!("{} {}", "a".repeat(76), "b".repeat(20));
    assert_eq!(truncate(&long), format!("{}...", "a".repeat(76)));
}

#[test]
fn subjects_are_asked_for_with_the_head_of_the_message() {
    assert!(suggest_subject(&env(&[]), "hello world", 10).is_none());
    let e = env(&[("CONEXUS_SUBJECT_MODEL", " m ")]);
    let r = suggest_subject(&e, "hello world", 5).unwrap();
    assert_eq!(r.content, "hello");
    assert_eq!(r.client.model, "m");
    assert_eq!(r.client.api_key, "ollama");
    assert_eq!(r.client.base_url, DEFAULT_BASE_URL);
    let messages = subject_messages("x");
    assert_eq!(messages[0].content, SYSTEM_PROMPT);
    assert_eq!(messages[1].content, "x");
}

#[test]
fn empty_answers_give_no_subject() {
    assert_eq!(suggested(None), None);
    assert_eq!(suggested(Some(" \n ")), None);
    assert_eq!(suggested(Some("\"\"")), None);
    assert_eq!(suggested(Some("'ok'")), Some("ok".to_string()));
}

fn found<T>(told: Option<u64>, base_url: Option<&str>, search: impl Fn(&WindowCache) -> Sought<T>) -> T {
    let mut cache = WindowCache::new();
    match search(&cache) {
        Sought::Known(value) => value,
        Sought::Probe { .. } => {
            note_probe(&mut cache, base_url.unwrap(), told);
            match search(&cache) {
                Sought::Known(value) => value,
                Sought::Probe { url } => panic!("asked twice: {url}"),
            }
        }
    }
}

fn window_with(pairs: &[(&str, &str)]) -> Option<u64> {
    found(None, None, |cache| resolve_context_window(&env(pairs), None, cache))
}

fn budget_with(pairs: &[(&str, &str)]) -> u64 {
    found(None, None, |cache| resolve_max_context_tokens(&env(pairs), None, cache))
}

fn chars_with(pairs: &[(&str, &str)]) -> u64 {
    found(None, None, |cache| resolve_subject_input_chars(&env(pairs), None, cache))
}

#[test]
fn no_base_url_and_no_override_is_undiscoverable() {
    assert_eq!(window_with(&[]), None);
}

#[test]
fn explicit_window_override_wins_without_needing_a_base_url() {
    assert_eq!(window_with(&[("CONEXUS_MODEL_CONTEXT_WINDOW", "8192")]), Some(8192));
}

#[test]
fn a_malformed_window_override_falls_back_to_the_default() {
    let set = [("CONEXUS_MODEL_CONTEXT_WINDOW", "not-a-number")];
    assert_eq!(window_with(&set), Some(DEFAULT_WINDOW));
}

#[test]
fn undiscoverable_window_yields_the_legacy_unbounded_budget() {
    assert_eq!(budget_with(&[]), LEGACY_UNBOUNDED_BUDGET);
}

#[test]
fn explicit_max_context_tokens_override_wins_regardless_of_window() {
    assert_eq!(budget_with(&[("CONEXUS_MAX_CONTEXT_TOKENS", "12345")]), 12345);
}

#[test]
fn budget_is_derived_from_an_explicit_window_override() {
    assert_eq!(budget_with(&[("CONEXUS_MODEL_CONTEXT_WINDOW", "8192")]), 3328);
}

#[test]
fn a_degenerate_window_floors_at_the_minimum_budget() {
    assert_eq!(budget_with(&[("CONEXUS_MODEL_CONTEXT_WINDOW", "1000")]), MIN_BUDGET);
}

#[test]
fn resolve_context_window_probes_props_and_strips_the_v1_suffix() {
    let base_url = Some("http://127.0.0.1:8080/v1");
    match resolve_context_window(&env(&[]), base_url, &WindowCache::new()) {
        Sought::Probe { url } => assert_eq!(url, "http://127.0.0.1:8080/props"),
        Sought::Known(value) => panic!("{value:?}"),
    }
    let window =
        found(Some(8192), base_url, |cache| resolve_context_window(&env(&[]), base_url, cache));
    assert_eq!(window, Some(8192));
}

#[test]
fn resolve_context_window_returns_none_on_an_unreachable_endpoint() {
    let base_url = Some("http://127.0.0.1:1");
    let window = found(None, base_url, |cache| resolve_context_window(&env(&[]), base_url, cache));
    assert_eq!(window, None);
}

#[test]
fn undiscoverable_window_falls_back_to_the_ceiling() {
    assert_eq!(chars_with(&[]), SUBJECT_CHARS_CEILING);
}

#[test]
fn a_small_window_shrinks_below_the_ceiling() {
    assert_eq!(chars_with(&[("CONEXUS_MODEL_CONTEXT_WINDOW", "2048")]), 3840);
}

#[test]
fn a_huge_window_stays_capped_at_the_ceiling() {
    assert_eq!(chars_with(&[("CONEXUS_MODEL_CONTEXT_WINDOW", "1000000")]), SUBJECT_CHARS_CEILING);
}

#[test]
fn a_degenerate_window_never_yields_a_zero_or_negative_cap() {
    assert_eq!(chars_with(&[("CONEXUS_MODEL_CONTEXT_WINDOW", "1")]), 2);
}
