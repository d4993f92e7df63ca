use warp_local_ai::settings_page::LocalOnlyIconState;
use warp_local_ai::i18n::{current_locale, Locale, LocaleState};
use warp_local_ai::language_page::{
    handle_language_page_action, language_page_texts, LanguagePageAction, LanguagePageViewEvent,
};
use warp_local_ai::local_ai_provider_page::provider_settings_from_inputs;
use warp_local_ai::settings_page::{
    search_terms_match, Category, FilteredPageType, MatchData, PageType, SettingsWidgetEntry,
    ToggleState,
};
use warp_local_ai::settings_text::{settings_display_text, settings_display_text_static};
use warp_local_ai::text::trim;

fn zh(text: &str) -> String {
    settings_display_text(Locale::ZhCn, text)
}

fn widget(id: &str, terms: &str, should_render: bool) -> SettingsWidgetEntry {
    SettingsWidgetEntry {
        widget_id: id.to_string(),
        search_terms: terms.to_string(),
        should_render,
    }
}

#[test]
fn english_settings_text_is_unchanged() {
    assert_eq!(settings_display_text(Locale::EnUs, "Reset to default"), "Reset to default");
    assert_eq!(settings_display_text(Locale::EnUs, "5 credits"), "5 credits");
    assert_eq!(settings_display_text_static(Locale::EnUs, "Save"), "Save");
}

#[test]
fn dictionary_entries_are_translated() {
    assert_eq!(zh("Reset to default"), "恢复默认");
    assert_eq!(zh("Features"), "功能");
    assert_eq!(zh("No settings match your search."), "没有匹配的设置。");
    assert_eq!(settings_display_text_static(Locale::ZhCn, "Save"), "保存");
    assert_eq!(settings_display_text_static(Locale::ZhCn, "Cancel"), "取消");
}

#[test]
fn the_first_dictionary_entry_wins_over_patterns() {
    assert_eq!(zh("Add-on credits"), "额外额度");
    assert_eq!(
        settings_display_text_static(Locale::ZhCn, "Add-on credits"),
        "额外额度"
    );
}

#[test]
fn sentence_patterns_are_translated() {
    assert_eq!(zh("20 credits remaining"), "剩余 20 额度");
    assert_eq!(zh("1 credit remaining"), "剩余 1 额度");
    assert_eq!(zh("300 credits"), "300 额度");
    assert_eq!(zh("1 credit"), "1 额度");
    assert_eq!(zh("4 teammates"), "4 位队友");
    assert_eq!(zh("15% off"), "15% 优惠");
    assert_eq!(zh("Usage resets on May 1"), "用量将在 May 1 重置");
    assert_eq!(zh("Resets tomorrow"), "tomorrow 重置");
    assert_eq!(zh("Open image at docker.io/x"), "打开镜像 docker.io/x");
    assert_eq!(
        zh("Allow Warp users with an @example.com email to find and join the team."),
        "允许使用 @example.com 邮箱的 Warp 用户发现并加入此团队。"
    );
    assert_eq!(zh("Discovered 42 chunks"), "已发现 42 个代码块");
    assert_eq!(zh("Syncing - 3 of 9"), "同步中 - 3 of 9");
    assert_eq!(
        zh("Setting the limit above 100k lines may impact performance. Maximum rows supported is 1000000."),
        "将限制设置为超过 10 万行可能影响性能。支持的最大行数为 1000000。"
    );
}

#[test]
fn auto_reload_sentence_names_the_amount() {
    assert_eq!(
        zh("When enabled, auto reload will automatically purchase your selected credits when your add-on credit balance reaches 100 credits remaining."),
        "启用后，当您的额外额度余额剩余 100 时，自动重新加载将自动购买 您选择的 额度。"
    );
    assert_eq!(
        zh("When enabled, auto reload will automatically purchase 500 credits when your add-on credit balance reaches 100 credits remaining."),
        "启用后，当您的额外额度余额剩余 100 时，自动重新加载将自动购买 500 额度。"
    );
}

#[test]
fn unknown_settings_text_is_unchanged() {
    assert_eq!(zh("Discovered everything"), "Discovered everything");
    assert_eq!(zh("Something else entirely"), "Something else entirely");
    assert_eq!(
        settings_display_text_static(Locale::ZhCn, "Something else entirely"),
        "Something else entirely"
    );
}

#[test]
fn search_matches_every_word_ignoring_case() {
    assert!(search_terms_match("Font size", ""));
    assert!(search_terms_match("Font size", "FONT"));
    assert!(search_terms_match("Font size editor", "size   font"));
    assert!(search_terms_match("Font size", "ont siz"));
    assert!(!search_terms_match("Font size", "font color"));
    assert!(!search_terms_match("", "font"));
    assert!(search_terms_match("anything", "   "));
}

#[test]
fn match_data_reports_counts() {
    assert!(MatchData::Countable(3).is_truthy());
    assert!(!MatchData::Countable(0).is_truthy());
    assert!(MatchData::Uncounted(true).is_truthy());
    assert!(!MatchData::Uncounted(false).is_truthy());
    assert_eq!(MatchData::Countable(3).to_display_string(), " (3)");
    assert_eq!(MatchData::Countable(120).to_display_string(), " (120)");
    assert_eq!(MatchData::Uncounted(true).to_display_string(), "");
    assert_eq!(MatchData::from(true), MatchData::Uncounted(true));
    assert_eq!(MatchData::from(7usize), MatchData::Countable(7));
}

#[test]
fn toggle_state_from_bool() {
    assert_eq!(ToggleState::from(true), ToggleState::Enabled);
    assert_eq!(ToggleState::from(false), ToggleState::Disabled);
    assert_eq!(ToggleState::default(), ToggleState::Enabled);
}

#[test]
fn monolith_pages_show_as_a_whole() {
    let mut page = PageType::new_monolith(widget("m", "Theme colors", true));
    assert!(matches!(page.get_filtered(), FilteredPageType::Monolith { shown: true }));
    assert_eq!(page.update_filter("theme"), MatchData::Uncounted(true));
    assert_eq!(page.update_filter("fonts"), MatchData::Uncounted(false));
    assert!(matches!(page.get_filtered(), FilteredPageType::Monolith { shown: false }));
    assert!(!page.scroll_to_widget("m"));

    let mut hidden = PageType::new_monolith(widget("m", "Theme colors", false));
    assert_eq!(hidden.update_filter(""), MatchData::Uncounted(false));
}

#[test]
fn uncategorized_pages_filter_their_widgets() {
    let mut page = PageType::new_uncategorized(vec![
        widget("a", "Font size", true),
        widget("b", "Font family", true),
        widget("c", "Cursor blink", true),
        widget("d", "Font weight", false),
    ]);
    match page.get_filtered() {
        FilteredPageType::Uncategorized { widgets } => assert_eq!(widgets, vec![0, 1, 2, 3]),
        other => panic!("unexpected {:?}", other),
    }
    assert_eq!(page.update_filter("font"), MatchData::Countable(2));
    match page.get_filtered() {
        FilteredPageType::Uncategorized { widgets } => assert_eq!(widgets, vec![0, 1]),
        other => panic!("unexpected {:?}", other),
    }
    assert_eq!(page.update_filter("zzz"), MatchData::Countable(0));
    assert_eq!(page.update_filter(""), MatchData::Uncounted(true));
    match page.get_filtered() {
        FilteredPageType::Uncategorized { widgets } => assert_eq!(widgets, vec![0, 1, 2]),
        other => panic!("unexpected {:?}", other),
    }
    assert!(page.scroll_to_widget("b"));
    match &page {
        PageType::Uncategorized {
            highlighted_widget_id,
            ..
        } => assert_eq!(highlighted_widget_id.as_deref(), Some("b")),
        other => panic!("unexpected {:?}", other),
    }
    page.clear_highlighted_widget();
    match &page {
        PageType::Uncategorized {
            highlighted_widget_id,
            ..
        } => assert!(highlighted_widget_id.is_none()),
        other => panic!("unexpected {:?}", other),
    }
}

#[test]
fn categorized_pages_leave_out_empty_categories() {
    let mut page = PageType::new_categorized(vec![
        Category::new(
            Locale::EnUs,
            "Text",
            vec![widget("a", "Font size", true), widget("b", "Line height", true)],
        ),
        Category::new(Locale::EnUs, "Cursor", vec![widget("c", "Cursor blink", true)]),
        Category::new(
            Locale::EnUs,
            "Misc",
            vec![widget("d", "Font ligatures", true), widget("e", "Bell", true)],
        ),
    ]);
    assert_eq!(page.update_filter("font"), MatchData::Countable(2));
    match page.get_filtered() {
        FilteredPageType::Categorized { categories } => {
            assert_eq!(categories, vec![(0, vec![0]), (2, vec![0])]);
        }
        other => panic!("unexpected {:?}", other),
    }
    assert_eq!(page.update_filter(""), MatchData::Uncounted(true));
    match page.get_filtered() {
        FilteredPageType::Categorized { categories } => {
            assert_eq!(
                categories,
                vec![(0, vec![0, 1]), (1, vec![0]), (2, vec![0, 1])]
            );
        }
        other => panic!("unexpected {:?}", other),
    }
    assert!(page.scroll_to_widget("c"));
}

#[test]
fn categories_are_titled_in_the_locale() {
    let c = Category::new(Locale::ZhCn, "Features", vec![]).with_subtitle(Locale::ZhCn, "Save");
    assert_eq!(c.title, "功能");
    assert_eq!(c.subtitle.as_deref(), Some("保存"));
    let c = Category::new(Locale::EnUs, "Features", vec![]);
    assert_eq!(c.title, "Features");
    assert!(c.subtitle.is_none());
}

#[test]
fn language_page_switches_the_locale_once() {
    let mut state = LocaleState::new();
    assert_eq!(
        handle_language_page_action(&mut state, &LanguagePageAction::SetLocale(Locale::EnUs)),
        Some(LanguagePageViewEvent::LocaleChanged)
    );
    assert_eq!(current_locale(&state), Locale::EnUs);
    assert_eq!(
        handle_language_page_action(&mut state, &LanguagePageAction::SetLocale(Locale::EnUs)),
        None
    );
    assert_eq!(current_locale(&state), Locale::EnUs);
}

#[test]
fn language_page_texts_follow_the_locale() {
    let en = language_page_texts(Locale::EnUs);
    let zh = language_page_texts(Locale::ZhCn);
    assert_eq!(en.english_option, "English");
    assert_ne!(en.selector_label, zh.selector_label);
    assert_ne!(en.restart_note, zh.restart_note);
}

#[test]
fn provider_settings_are_trimmed_and_enabled() {
    let s = provider_settings_from_inputs("  http://localhost:11434/v1 \n", "\tqwen ", " key ");
    assert!(s.enabled);
    assert_eq!(s.base_url, "http://localhost:11434/v1");
    assert_eq!(s.model, "qwen");
    assert_eq!(s.api_key, "key");
}

#[test]
fn trim_removes_unicode_whitespace() {
    assert_eq!(trim("\u{3000} a b \u{a0}"), "a b");
    assert_eq!(trim("   "), "");
    assert_eq!(trim("x"), "x");
}

#[test]
fn local_only_icon_shows_for_unsynced_settings_when_sync_is_on() {
    assert!(matches!(
        LocalOnlyIconState::for_setting(true, true),
        LocalOnlyIconState::Visible { custom_tooltip: None }
    ));
    assert!(matches!(LocalOnlyIconState::for_setting(true, false), LocalOnlyIconState::Hidden));
    assert!(matches!(LocalOnlyIconState::for_setting(false, true), LocalOnlyIconState::Hidden));
    assert!(matches!(LocalOnlyIconState::for_setting(false, false), LocalOnlyIconState::Hidden));
}

#[test]
fn word_order_and_case_do_not_change_the_filter_and_more_words_narrow_it() {
    let mut page = PageType::new_uncategorized(vec![
        widget("a", "Simplified Chinese", true),
        widget("b", "English", true),
        widget("c", "Chinese fonts", true),
    ]);
    assert_eq!(page.update_filter("Simplified CHIN"), MatchData::Countable(1));
    assert_eq!(page.update_filter("chin simplified"), MatchData::Countable(1));
    assert_eq!(page.update_filter("chinese"), MatchData::Countable(2));
    assert_eq!(page.update_filter("chinese fonts"), MatchData::Countable(1));
    assert_eq!(page.update_filter("chinese french"), MatchData::Countable(0));
}
