//! Local configuration record: API keys, webhook URL and numeric limits,
//! with fixed defaults. A plain data holder; persistence is a caller's
//! concern.

use vstd::prelude::*;

verus! {

pub struct Settings {
    pub openai_api_key: Option<String>,
    pub openai_base_url: Option<String>,
    pub anthropic_api_key: Option<String>,
    pub github_token: Option<String>,
    pub slack_webhook_url: Option<String>,
    pub max_changed_files: u32,
    pub max_diff_size: u32,
    pub auto_retry: bool,
}

impl Default for Settings {
    /// The fixed defaults: no credentials, a 10-file change limit,
    /// a 5000-unit diff limit, and auto-retry on.
    fn default() -> (r: Self)
        ensures
            r.openai_api_key is None,
            r.openai_base_url is None,
            r.anthropic_api_key is None,
            r.github_token is None,
            r.slack_webhook_url is None,
            r.max_changed_files == 10u32,
            r.max_diff_size == 5000u32,
            r.auto_retry == true,
    {
        Settings {
            openai_api_key: None,
            openai_base_url: None,
            anthropic_api_key: None,
            github_token: None,
            slack_webhook_url: None,
            max_changed_files: 10,
            max_diff_size: 5000,
            auto_retry: true,
        }
    }
}

} // verus!
