//! Service configuration, as plain values. Reading the file, parsing and
//! validating it are the caller's concern; the crate only carries the data.

use vstd::prelude::*;

verus! {

/// Whole configuration of the service.
#[derive(Clone, Debug)]
pub struct Config {
    pub vk: Vk,
    pub telegram: Telegram,
    pub database: Database,
}

/// Settings for talking to the VK API.
#[derive(Clone, Debug)]
pub struct Vk {
    /// Base address of the API server.
    pub server: String,

    /// Language the API answers in.
    pub language: String,

    /// Service access key.
    pub service_key: String,

    /// Optional debug settings.
    pub debug: Option<VkDebug>,
}

/// Debug settings for the VK client.
#[derive(Clone, Debug)]
pub struct VkDebug {
    /// Whether responses are saved under `responses_dir_path`.
    pub save_responses: bool,

    /// Directory where responses are saved when `save_responses` is set.
    pub responses_dir_path: String,
}

/// Settings for talking to Telegram.
#[derive(Clone, Debug)]
pub struct Telegram {
    pub bot_token: String,
}

/// Where the pair records are kept.
#[derive(Clone, Debug)]
pub struct Database {
    pub path: String,
}

} // verus!
