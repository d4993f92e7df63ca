use vstd::prelude::*;

use crate::text::{trim, trim_seq};

verus! {

/// An action of the local AI provider settings page.
#[derive(Clone, Copy, Debug, PartialEq, Eq, Structural)]
pub enum LocalAIProviderPageAction {
    /// Store what the three inputs hold.
    SaveSettings,
}

/// The local provider settings that saving the page stores.
#[derive(Debug)]
pub struct LocalProviderSettings {
    pub enabled: bool,
    pub base_url: String,
    pub model: String,
    pub api_key: String,
}

/// The settings that saving the page stores: the provider is enabled, and each input is stored
/// without its leading and trailing whitespace.
pub fn provider_settings_from_inputs(base_url: &str, model: &str, api_key: &str) -> (settings: LocalProviderSettings)
    ensures
        settings.enabled,
        settings.base_url@ == trim_seq(base_url@),
        settings.model@ == trim_seq(model@),
        settings.api_key@ == trim_seq(api_key@),
{
    LocalProviderSettings {
        enabled: true,
        base_url: trim(base_url).to_owned(),
        model: trim(model).to_owned(),
        api_key: trim(api_key).to_owned(),
    }
}

} // verus!
