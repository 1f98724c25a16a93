//! The options of the service, and what they are when nothing is configured.

use vstd::prelude::*;
use crate::hardware::HardwareTier;

verus! {

/// Where the history is kept.
#[derive(Debug, Clone, PartialEq, Eq)]
pub struct DatabaseConfig {
    pub path: String,
}

/// Where the inference server is, and how long a request to it may take.
#[derive(Debug, Clone, PartialEq, Eq)]
pub struct OllamaConfig {
    pub base_url: String,
    pub timeout_seconds: u64,
}

/// The models that a machine of each tier is provided with, in the order in
/// which they are downloaded.
#[derive(Debug, Clone, PartialEq, Eq)]
pub struct ModelsConfig {
    pub light_tier: Vec<String>,
    pub medium_tier: Vec<String>,
    pub heavy_tier: Vec<String>,
    pub npu_tier: Vec<String>,
}

/// All options of the service.
#[derive(Debug, Clone, PartialEq, Eq)]
pub struct Config {
    pub database: DatabaseConfig,
    pub ollama: OllamaConfig,
    pub models: ModelsConfig,
}

/// The names of a list of strings.
pub open spec fn names(list: Seq<String>) -> Seq<Seq<char>> {
    list.map_values(|name: String| name@)
}

/// The models that a machine of `tier` is provided with where nothing is
/// configured.
pub open spec fn default_models(tier: HardwareTier) -> Seq<Seq<char>> {
    match tier {
        HardwareTier::Light => seq!["phi3:3.8b"@],
        HardwareTier::Medium => seq!["gemma2:9b"@, "deepseek-coder:6.7b"@],
        HardwareTier::Heavy => seq!["llama3.1:8b"@, "gemma2:27b"@, "deepseek-coder:33b"@],
        HardwareTier::NPU => seq!["phi3:3.8b"@, "gemma2:2b"@],
    }
}

/// The models that a machine of `tier` is provided with where nothing is
/// configured, in the order in which they are downloaded.
pub fn startup_models(tier: HardwareTier) -> (models: Vec<String>)
    ensures
        names(models@) == default_models(tier),
{
    let mut models: Vec<String> = Vec::new();
    match tier {
        HardwareTier::Light => {
            models.push("phi3:3.8b".to_owned());
        },
        HardwareTier::Medium => {
            models.push("gemma2:9b".to_owned());
            models.push("deepseek-coder:6.7b".to_owned());
        },
        HardwareTier::Heavy => {
            models.push("llama3.1:8b".to_owned());
            models.push("gemma2:27b".to_owned());
            models.push("deepseek-coder:33b".to_owned());
        },
        HardwareTier::NPU => {
            models.push("phi3:3.8b".to_owned());
            models.push("gemma2:2b".to_owned());
        },
    }
    proof {
        assert(names(models@) =~= default_models(tier));
    }
    models
}

impl ModelsConfig {
    /// The list of `tier`.
    pub open spec fn list(&self, tier: HardwareTier) -> Seq<String> {
        match tier {
            HardwareTier::Light => self.light_tier@,
            HardwareTier::Medium => self.medium_tier@,
            HardwareTier::Heavy => self.heavy_tier@,
            HardwareTier::NPU => self.npu_tier@,
        }
    }

    /// The models that a machine of `tier` is provided with.
    pub fn for_tier(&self, tier: HardwareTier) -> (models: &Vec<String>)
        ensures
            models@ == self.list(tier),
    {
        match tier {
            HardwareTier::Light => &self.light_tier,
            HardwareTier::Medium => &self.medium_tier,
            HardwareTier::Heavy => &self.heavy_tier,
            HardwareTier::NPU => &self.npu_tier,
        }
    }
}

impl Default for ModelsConfig {
    fn default() -> (config: ModelsConfig)
        ensures
            forall|tier: HardwareTier| names(#[trigger] config.list(tier)) == default_models(tier),
    {
        ModelsConfig {
            light_tier: startup_models(HardwareTier::Light),
            medium_tier: startup_models(HardwareTier::Medium),
            heavy_tier: startup_models(HardwareTier::Heavy),
            npu_tier: startup_models(HardwareTier::NPU),
        }
    }
}

impl Default for Config {
    fn default() -> (config: Config)
        ensures
            config.database.path@ == "data/assistant.db"@,
            config.ollama.base_url@ == "http://localhost:11434"@,
            config.ollama.timeout_seconds == 300,
            forall|tier: HardwareTier| names(#[trigger] config.models.list(tier)) == default_models(tier),
    {
        Config {
            database: DatabaseConfig { path: "data/assistant.db".to_owned() },
            ollama: OllamaConfig { base_url: "http://localhost:11434".to_owned(), timeout_seconds: 300 },
            models: ModelsConfig::default(),
        }
    }
}

} // verus!
