//! The settings of the tool and where its credential comes from.

use vstd::prelude::*;
use vstd::string::*;
use crate::message::opt_text;

verus! {

/// All settings.
#[derive(Debug, Clone)]
pub struct Config {
    pub ai: AIConfig,
    pub commit: CommitConfig,
}

/// The settings of the generation service.
#[derive(Debug, Clone)]
pub struct AIConfig {
    pub provider: String,
    pub model: String,
    /// The environment variable that holds the credential.
    pub api_key_env: String,
    /// The credential itself, where the settings state it.
    pub api_key: Option<String>,
    pub base_url: Option<String>,
}

/// The settings of committing.
#[derive(Debug, Clone)]
pub struct CommitConfig {
    pub format: String,
    pub include_emoji: bool,
    pub max_diff_size: usize,
    pub auto_stage: bool,
}

/// The settings of one generation: what the command line gives wins over
/// what the configuration holds.
pub struct Selection {
    pub provider: String,
    pub model: String,
    pub base_url: Option<String>,
}

impl Config {
    /// The provider, model and base address to use, given what the
    /// command line states of the last two.
    pub fn select(&self, model: Option<String>, base_url: Option<String>) -> (r: Selection)
        ensures
            r.provider@ == self.ai.provider@,
            r.model@ == match model {
                Some(given) => given@,
                None => self.ai.model@,
            },
            opt_text(r.base_url) == match base_url {
                Some(given) => Some(given@),
                None => opt_text(self.ai.base_url),
            },
    {
        let model = match model {
            Some(given) => given,
            None => self.ai.model.clone(),
        };
        let base_url = match base_url {
            Some(given) => Some(given),
            None => match &self.ai.base_url {
                Some(configured) => Some(configured.clone()),
                None => None,
            },
        };
        Selection { provider: self.ai.provider.clone(), model, base_url }
    }

    /// Whether these are the settings that hold where nothing is
    /// configured.
    pub open spec fn is_default(&self) -> bool {
        &&& self.ai.provider@ == "openai"@
        &&& self.ai.model@ == "gpt-4"@
        &&& self.ai.api_key_env@ == "OPENAI_API_KEY"@
        &&& self.ai.api_key is None
        &&& self.ai.base_url is None
        &&& self.commit.format@ == "conventional"@
        &&& !self.commit.include_emoji
        &&& self.commit.max_diff_size == 4000
        &&& !self.commit.auto_stage
    }

    /// The credential to use: the one that the settings state, else the
    /// one found in the environment variable that they name.
    pub fn get_api_key(&self, from_environment: Option<String>) -> (r: Option<String>)
        ensures
            opt_text(r) == match self.ai.api_key {
                Some(key) => Some(key@),
                None => opt_text(from_environment),
            },
    {
        match &self.ai.api_key {
            Some(key) => Some(key.clone()),
            None => from_environment,
        }
    }
}

/// Whether a configuration file may be written: an existing one is only
/// replaced when that is asked for.
pub fn may_write_config(present: bool, force: bool) -> (r: bool)
    ensures
        r == (!present || force),
{
    !present || force
}

impl Default for Config {
    fn default() -> (r: Self)
        ensures
            r.is_default(),
    {
        Config {
            ai: AIConfig {
                provider: String::from_str("openai"),
                model: String::from_str("gpt-4"),
                api_key_env: String::from_str("OPENAI_API_KEY"),
                api_key: None,
                base_url: None,
            },
            commit: CommitConfig {
                format: String::from_str("conventional"),
                include_emoji: false,
                max_diff_size: 4000,
                auto_stage: false,
            },
        }
    }
}

} // verus!
