use vstd::prelude::*;

use crate::i18n::{current_locale, message_text, set_current_locale, tr, Locale, LocaleState, MessageId};

verus! {

/// An event of the language settings page.
#[derive(Clone, Copy, Debug, PartialEq, Eq, Structural)]
pub enum LanguagePageViewEvent {
    /// The display language changed.
    LocaleChanged,
}

/// An action of the language settings page.
#[derive(Clone, Copy, Debug, PartialEq, Eq, Structural)]
pub enum LanguagePageAction {
    /// Switch the display language.
    SetLocale(Locale),
}

/// Applies an action of the language page to the current locale. When the locale changes, the
/// page reports it, and the caller persists the new locale and rebuilds the menus; choosing
/// the locale already in use changes nothing.
pub fn handle_language_page_action(state: &mut LocaleState, action: &LanguagePageAction) -> (event: Option<LanguagePageViewEvent>)
    ensures
        match *action {
            LanguagePageAction::SetLocale(locale) => {
                &&& final(state)@ == locale
                &&& event == if old(state)@ != locale {
                    Some(LanguagePageViewEvent::LocaleChanged)
                } else {
                    None
                }
            },
        },
{
    match action {
        LanguagePageAction::SetLocale(locale) => {
            if current_locale(state) != *locale {
                set_current_locale(state, *locale);
                Some(LanguagePageViewEvent::LocaleChanged)
            } else {
                None
            }
        },
    }
}

/// The texts of the language page in the locale in use: the selector's label and description,
/// the two options, and the note about reopening the window.
pub struct LanguagePageTexts {
    pub selector_label: &'static str,
    pub description: &'static str,
    pub english_option: &'static str,
    pub simplified_chinese_option: &'static str,
    pub restart_note: &'static str,
}

/// The texts of the language page in a locale.
pub fn language_page_texts(locale: Locale) -> (texts: LanguagePageTexts)
    ensures
        texts.selector_label@ == message_text(locale, MessageId::LanguagePageSelectorLabel),
        texts.description@ == message_text(locale, MessageId::LanguagePageDescription),
        texts.english_option@ == message_text(locale, MessageId::LanguagePageOptionEnglish),
        texts.simplified_chinese_option@ == message_text(
            locale,
            MessageId::LanguagePageOptionSimplifiedChinese,
        ),
        texts.restart_note@ == message_text(locale, MessageId::LanguagePageRestartNote),
{
    LanguagePageTexts {
        selector_label: tr(locale, MessageId::LanguagePageSelectorLabel),
        description: tr(locale, MessageId::LanguagePageDescription),
        english_option: tr(locale, MessageId::LanguagePageOptionEnglish),
        simplified_chinese_option: tr(locale, MessageId::LanguagePageOptionSimplifiedChinese),
        restart_note: tr(locale, MessageId::LanguagePageRestartNote),
    }
}

} // verus!
