use warp_local_ai::i18n::init_locale_from_settings;
use warp_local_ai::i18n::{
    current_locale, set_current_locale, tr, Locale, LocaleState, MessageId,
};

#[test]
fn returns_english_messages() {
    assert_eq!(
        tr(Locale::EnUs, MessageId::SettingsBillingAndUsage),
        "Billing and usage"
    );
}

#[test]
fn returns_simplified_chinese_messages() {
    assert_eq!(
        tr(Locale::ZhCn, MessageId::SettingsBillingAndUsage),
        "账单和用量"
    );
}

#[test]
fn current_default_locale_is_simplified_chinese() {
    let mut state = LocaleState::new();
    set_current_locale(&mut state, Locale::ZhCn);
    assert_eq!(current_locale(&state), Locale::ZhCn);
}

#[test]
fn current_locale_can_be_changed() {
    let mut state = LocaleState::new();
    set_current_locale(&mut state, Locale::EnUs);
    assert_eq!(current_locale(&state), Locale::EnUs);
    set_current_locale(&mut state, Locale::ZhCn);
}

#[test]
fn locale_state_starts_in_simplified_chinese() {
    let state = LocaleState::new();
    assert_eq!(current_locale(&state), Locale::ZhCn);
}

#[test]
fn locale_string_ids() {
    assert_eq!(Locale::EnUs.to_string_id(), "en-US");
    assert_eq!(Locale::ZhCn.to_string_id(), "zh-CN");
    assert_eq!(Locale::from_string_id("zh-CN"), Locale::ZhCn);
    assert_eq!(Locale::from_string_id("en-US"), Locale::EnUs);
    assert_eq!(Locale::from_string_id("fr-FR"), Locale::EnUs);
    assert_eq!(Locale::from_string_id("zh-cn"), Locale::EnUs);
    assert_eq!(Locale::from_string_id(""), Locale::EnUs);
}

#[test]
fn locale_string_id_round_trip() {
    for locale in [Locale::EnUs, Locale::ZhCn] {
        assert_eq!(Locale::from_string_id(locale.to_string_id()), locale);
    }
}

#[test]
fn locale_byte_round_trip() {
    for locale in [Locale::EnUs, Locale::ZhCn] {
        assert_eq!(Locale::from_u8(locale.to_u8()), locale);
    }
    assert_eq!(Locale::from_u8(1), Locale::ZhCn);
    assert_eq!(Locale::from_u8(0), Locale::EnUs);
    assert_eq!(Locale::from_u8(7), Locale::EnUs);
}

#[test]
fn default_locale_is_english() {
    assert_eq!(Locale::default(), Locale::EnUs);
}

#[test]
fn menu_and_settings_messages() {
    assert_eq!(tr(Locale::EnUs, MessageId::MenuFile), "File");
    assert_eq!(tr(Locale::ZhCn, MessageId::MenuFile), "文件");
    assert_eq!(tr(Locale::EnUs, MessageId::SettingsDefault), "Default");
    assert_eq!(tr(Locale::ZhCn, MessageId::SettingsDefault), "默认");
    assert_eq!(
        tr(Locale::EnUs, MessageId::ReferralsCurrentReferrals),
        "You have {count} active referrals."
    );
    assert_eq!(
        tr(Locale::ZhCn, MessageId::LanguagePageOptionSimplifiedChinese),
        "简体中文"
    );
    assert_eq!(tr(Locale::ZhCn, MessageId::LanguagePageOptionEnglish), "English");
}

#[test]
fn locale_is_initialised_from_the_stored_identifier() {
    let mut state = LocaleState::new();
    init_locale_from_settings(&mut state, "en-US");
    assert_eq!(current_locale(&state), Locale::EnUs);
    init_locale_from_settings(&mut state, "zh-CN");
    assert_eq!(current_locale(&state), Locale::ZhCn);
    init_locale_from_settings(&mut state, "fr-FR");
    assert_eq!(current_locale(&state), Locale::EnUs);
    init_locale_from_settings(&mut state, Locale::ZhCn.to_string_id());
    assert_eq!(current_locale(&state), Locale::ZhCn);
}

#[test]
fn count_placeholder_is_kept_in_chinese() {
    assert!(tr(Locale::ZhCn, MessageId::ReferralsCurrentReferrals).contains("{count}"));
    assert!(tr(Locale::EnUs, MessageId::ReferralsCurrentReferrals).contains("{count}"));
    assert!(!tr(Locale::ZhCn, MessageId::SettingsBillingAndUsage).contains("{count}"));
    assert_eq!(tr(Locale::ZhCn, MessageId::SettingsLanguage), "语言");
}
