//! User settings, as the orchestration rules read them: which provider is
//! active, whether usable API credentials are present, and how credentials
//! are cleared when the backend rejects them.

use vstd::prelude::*;

verus! {

use crate::strutil::str_eq;

/// How long a stored access token stays valid: ninety days, in seconds.
pub const TOKEN_LIFETIME_S: u64 = 90 * 24 * 60 * 60;

/// The persisted settings.  Reading and writing them from disk happens
/// outside the library; the rules below only inspect and rewrite the values.
#[derive(Clone, Debug)]
pub struct Settings {
    /// Active provider: `azure` or `openai`.
    pub provider: String,
    /// API key for the OpenAI provider.
    pub openai_api_key: String,
    /// Endpoint URL for the Azure provider.
    pub azure_endpoint: String,
    /// API key for the Azure provider.
    pub azure_api_key: String,
    /// Azure deployment name.
    pub azure_deployment: String,
    /// Response style: `friendly`, `formal` or `casual`.
    pub style: String,
}

impl Default for Settings {
    /// The out-of-the-box settings: Azure provider without credentials, the
    /// standard deployment, friendly style.
    fn default() -> (s: Settings)
        ensures
            s.provider@ == "azure"@,
            s.openai_api_key@ == Seq::<char>::empty(),
            s.azure_endpoint@ == Seq::<char>::empty(),
            s.azure_api_key@ == Seq::<char>::empty(),
            s.azure_deployment@ == "gpt-4o-mini"@,
            s.style@ == "friendly"@,
    {
        Settings {
            provider: "azure".to_owned(),
            openai_api_key: String::new(),
            azure_endpoint: String::new(),
            azure_api_key: String::new(),
            azure_deployment: "gpt-4o-mini".to_owned(),
            style: "friendly".to_owned(),
        }
    }
}

impl Settings {
    /// Whether usable API credentials are configured: for the Azure provider
    /// both endpoint and key, otherwise the OpenAI key.
    pub open spec fn spec_has_api_credentials(self) -> bool {
        if self.provider@ == "azure"@ {
            self.azure_endpoint@.len() > 0 && self.azure_api_key@.len() > 0
        } else {
            self.openai_api_key@.len() > 0
        }
    }

    /// Whether usable API credentials are configured.
    pub fn has_api_credentials(&self) -> (r: bool)
        ensures
            r == self.spec_has_api_credentials(),
    {
        if str_eq(self.provider.as_str(), "azure") {
            !self.azure_endpoint.as_str().is_empty() && !self.azure_api_key.as_str().is_empty()
        } else {
            !self.openai_api_key.as_str().is_empty()
        }
    }

    /// The settings with every stored API credential wiped and everything
    /// else kept, the rewrite applied when the backend reports the
    /// credentials invalid.
    pub fn clear_credentials(&self) -> (c: Settings)
        ensures
            c.provider@ == self.provider@,
            c.openai_api_key@ == Seq::<char>::empty(),
            c.azure_endpoint@ == Seq::<char>::empty(),
            c.azure_api_key@ == Seq::<char>::empty(),
            c.azure_deployment@ == self.azure_deployment@,
            c.style@ == self.style@,
            !c.spec_has_api_credentials(),
    {
        Settings {
            provider: self.provider.clone(),
            openai_api_key: String::new(),
            azure_endpoint: String::new(),
            azure_api_key: String::new(),
            azure_deployment: self.azure_deployment.clone(),
            style: self.style.clone(),
        }
    }
}

/// Whether a stored access token is older than its ninety-day lifetime.  A
/// creation time in the future does not count as expired.
pub fn token_is_expired(now_s: u64, created_at_s: u64) -> (r: bool)
    ensures
        r == (created_at_s < now_s && now_s - created_at_s > TOKEN_LIFETIME_S),
{
    created_at_s < now_s && now_s - created_at_s > TOKEN_LIFETIME_S
}

} // verus!
