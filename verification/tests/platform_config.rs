use openworld_core::api::{
    chat_endpoint, delete_endpoint, models_from_tags, pull_endpoint, tags_endpoint,
};
use openworld_core::config::{config_path, get_ollama_url, AppConfig};
use openworld_core::locate::{
    choose_binary, engine_binary_name, get_ollama_bin_dir, get_ollama_bin_path, search_candidates,
};
use openworld_core::platform::{resolve_download, ArchiveKind};
use openworld_core::status::EngineError;

#[test]
fn supported_platforms_resolve() {
    let mac_arm = resolve_download("macos", "aarch64").unwrap();
    assert_eq!(
        mac_arm.url,
        "https://github.com/ollama/ollama/releases/latest/download/ollama-darwin.tgz"
    );
    assert!(matches!(mac_arm.archive, ArchiveKind::Tar));

    let mac_x86 = resolve_download("macos", "x86_64").unwrap();
    assert_eq!(mac_x86.url, mac_arm.url);

    let linux_x86 = resolve_download("linux", "x86_64").unwrap();
    assert_eq!(
        linux_x86.url,
        "https://github.com/ollama/ollama/releases/latest/download/ollama-linux-amd64.tar.zst"
    );
    assert!(matches!(linux_x86.archive, ArchiveKind::Tar));

    let linux_arm = resolve_download("linux", "aarch64").unwrap();
    assert_eq!(
        linux_arm.url,
        "https://github.com/ollama/ollama/releases/latest/download/ollama-linux-arm64.tar.zst"
    );

    let windows = resolve_download("windows", "x86_64").unwrap();
    assert!(matches!(windows.archive, ArchiveKind::Direct));
    assert!(windows.url.ends_with(".exe"));
}

#[test]
fn unsupported_platforms_are_fatal() {
    assert_eq!(
        resolve_download("freebsd", "x86_64").unwrap_err(),
        EngineError::PlatformUnsupported
    );
    assert_eq!(
        resolve_download("windows", "aarch64").unwrap_err(),
        EngineError::PlatformUnsupported
    );
    assert_eq!(resolve_download("", "").unwrap_err(), EngineError::PlatformUnsupported);
}

#[test]
fn binary_paths_are_built_from_the_data_dir() {
    assert_eq!(engine_binary_name(false), "ollama");
    assert_eq!(engine_binary_name(true), "ollama.exe");
    assert_eq!(get_ollama_bin_dir("/home/u/.openworld"), "/home/u/.openworld/bin");
    assert_eq!(get_ollama_bin_path("/home/u/.openworld", false), "/home/u/.openworld/bin/ollama");
    assert_eq!(
        get_ollama_bin_path("C:/Users/u/.openworld", true),
        "C:/Users/u/.openworld/bin/ollama.exe"
    );
}

#[test]
fn candidates_search_in_priority_order() {
    let candidates = search_candidates("/home/u/.openworld", false);
    assert_eq!(
        candidates,
        vec![
            "/home/u/.openworld/bin/ollama".to_string(),
            "/usr/local/bin/ollama".to_string(),
            "/opt/homebrew/bin/ollama".to_string(),
            "/usr/bin/ollama".to_string(),
        ]
    );
}

#[test]
fn choose_binary_picks_first_existing() {
    let paths = vec!["a".to_string(), "b".to_string(), "c".to_string()];
    let r = choose_binary(&paths, &vec![false, true, true], None, false);
    assert_eq!(r.as_deref(), Some("b"));
    let r = choose_binary(&paths, &vec![true, false, false], None, false);
    assert_eq!(r.as_deref(), Some("a"));
}

#[test]
fn choose_binary_falls_back_to_which() {
    let paths = vec!["a".to_string(), "b".to_string()];
    let none = vec![false, false];
    let r = choose_binary(&paths, &none, Some("/somewhere/ollama".to_string()), true);
    assert_eq!(r.as_deref(), Some("/somewhere/ollama"));
    // A lookup answer that names no existing file, or an empty answer, is
    // no find; absence is not an error.
    assert_eq!(choose_binary(&paths, &none, Some("/somewhere/ollama".to_string()), false), None);
    assert_eq!(choose_binary(&paths, &none, Some("".to_string()), true), None);
    assert_eq!(choose_binary(&paths, &none, None, true), None);
}

#[test]
fn default_config_values() {
    let cfg = AppConfig::default();
    assert_eq!(cfg.theme, "dark");
    assert_eq!(cfg.default_model, "llama3:8b");
    assert!(!cfg.setup_complete);
    assert_eq!(cfg.system_prompt, "");
    assert_eq!(cfg.ollama_host, "http://localhost:11434");
}

#[test]
fn config_paths_and_url() {
    assert_eq!(config_path("/home/u/.openworld"), "/home/u/.openworld/config.json");
    let cfg = AppConfig::default();
    assert_eq!(get_ollama_url(&cfg), "http://localhost:11434");
}

#[test]
fn endpoints_under_the_base_url() {
    assert_eq!(tags_endpoint("http://localhost:11434"), "http://localhost:11434/api/tags");
    assert_eq!(chat_endpoint("http://localhost:11434"), "http://localhost:11434/api/chat");
    assert_eq!(pull_endpoint("http://h:1"), "http://h:1/api/pull");
    assert_eq!(delete_endpoint("http://h:1"), "http://h:1/api/delete");
}

#[test]
fn model_listing_decodes_with_defaults() {
    let body = "{\"models\":[\
        {\"name\":\"llama3:8b\",\"size\":4700000000,\"modified_at\":\"2024-05-01T00:00:00Z\",\
         \"digest\":\"sha256:abc\",\"details\":{\"format\":\"gguf\",\"family\":\"llama\",\
         \"parameter_size\":\"8B\",\"quantization_level\":\"Q4_0\"}},\
        {\"size\":123}\
    ]}";
    let models = models_from_tags(body).unwrap();
    assert_eq!(models.len(), 2);
    assert_eq!(models[0].name, "llama3:8b");
    assert_eq!(models[0].size, 4_700_000_000);
    assert_eq!(models[0].modified_at, "2024-05-01T00:00:00Z");
    assert_eq!(models[0].digest, "sha256:abc");
    let details = models[0].details.as_ref().unwrap();
    assert_eq!(details.format.as_deref(), Some("gguf"));
    assert_eq!(details.family.as_deref(), Some("llama"));
    assert_eq!(details.parameter_size.as_deref(), Some("8B"));
    assert_eq!(details.quantization_level.as_deref(), Some("Q4_0"));
    // Absent fields take their defaults.
    assert_eq!(models[1].name, "");
    assert_eq!(models[1].size, 123);
    assert_eq!(models[1].modified_at, "");
    assert_eq!(models[1].digest, "");
    assert!(models[1].details.is_none());
}

#[test]
fn model_listing_edge_bodies() {
    // No models key, or a null one: an empty listing.
    assert_eq!(models_from_tags("{}").unwrap().len(), 0);
    assert_eq!(models_from_tags("{\"models\":null}").unwrap().len(), 0);
    // Not a listing document at all.
    assert!(models_from_tags("[1,2,3]").is_none());
    assert!(models_from_tags("not json").is_none());
}
