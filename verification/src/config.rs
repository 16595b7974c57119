//! The application configuration as the core logic reads it. Loading and
//! saving the file is the host's; the defaults, the configuration file's
//! path, and the engine base URL are fixed here.

use vstd::prelude::*;
use vstd::string::StringExecFns;

verus! {

/// The persisted application configuration.
#[derive(Debug)]
pub struct AppConfig {
    pub theme: String,
    pub default_model: String,
    pub setup_complete: bool,
    pub system_prompt: String,
    pub ollama_host: String,
}

/// The mathematical value of an [`AppConfig`].
pub struct AppConfigView {
    pub theme: Seq<char>,
    pub default_model: Seq<char>,
    pub setup_complete: bool,
    pub system_prompt: Seq<char>,
    pub ollama_host: Seq<char>,
}

impl View for AppConfig {
    type V = AppConfigView;

    open spec fn view(&self) -> AppConfigView {
        AppConfigView {
            theme: self.theme@,
            default_model: self.default_model@,
            setup_complete: self.setup_complete,
            system_prompt: self.system_prompt@,
            ollama_host: self.ollama_host@,
        }
    }
}

impl Clone for AppConfig {
    /// Clones the configuration, keeping every field.
    fn clone(&self) -> (r: Self)
        ensures
            r@ == self@,
    {
        AppConfig {
            theme: self.theme.clone(),
            default_model: self.default_model.clone(),
            setup_complete: self.setup_complete,
            system_prompt: self.system_prompt.clone(),
            ollama_host: self.ollama_host.clone(),
        }
    }
}

impl Default for AppConfig {
    /// The configuration used when none is stored: dark theme, the default
    /// model, setup not yet completed, no system prompt, and the engine's
    /// default local base URL.
    fn default() -> (r: Self)
        ensures
            r.theme@ == "dark"@,
            r.default_model@ == "llama3:8b"@,
            !r.setup_complete,
            r.system_prompt@ == Seq::<char>::empty(),
            r.ollama_host@ == "http://localhost:11434"@,
    {
        AppConfig {
            theme: String::from_str("dark"),
            default_model: String::from_str("llama3:8b"),
            setup_complete: false,
            system_prompt: String::new(),
            ollama_host: String::from_str("http://localhost:11434"),
        }
    }
}

/// The path of the configuration file inside the application's data
/// directory.
pub fn config_path(data_dir: &str) -> (r: String)
    ensures
        r@ == data_dir@ + "/config.json"@,
{
    let mut s = String::new();
    s.append(data_dir);
    s.append("/config.json");
    s
}

/// The engine's base URL, as configured.
pub fn get_ollama_url(config: &AppConfig) -> (r: String)
    ensures
        r@ == config.ollama_host@,
{
    config.ollama_host.clone()
}

} // verus!
