pub mod agent_api;
pub mod i18n;
pub mod json;
pub mod language_page;
pub mod local_ai_provider_page;
pub mod local_provider;
pub mod local_stream;
pub mod i18n_en_us;
pub mod i18n_zh_cn;
pub mod i18n_placeholders;
pub mod i18n_tables;
pub mod settings_dictionary;
pub mod settings_dictionary_entries;
pub mod settings_page;
pub mod settings_text;
pub mod text;
