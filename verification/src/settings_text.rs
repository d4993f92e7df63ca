use vstd::prelude::*;

use crate::i18n::Locale;
use crate::settings_dictionary::{settings_zh_cn_literal, settings_zh_cn_literal_text};
use crate::text::{concat3, opt_str_view, seq_strip_prefix, seq_strip_suffix, str_eq, strip_prefix, strip_suffix};

verus! {

/// The middle of `s` between `prefix` and `suffix`, where `s` starts with the one and the rest
/// ends with the other.
pub open spec fn seq_between(s: Seq<char>, prefix: Seq<char>, suffix: Seq<char>) -> Option<Seq<char>> {
    match seq_strip_prefix(s, prefix) {
        Some(rest) => seq_strip_suffix(rest, suffix),
        None => None,
    }
}

/// The amount that the auto-reload sentence names, in Simplified Chinese.
pub open spec fn auto_reload_amount_text(amount: Seq<char>) -> Seq<char> {
    if amount == "your selected"@ {
        "您选择的"@
    } else {
        amount
    }
}

/// How a settings string is shown in Simplified Chinese: the dictionary's rendering if it has
/// one, else the first sentence pattern that the string fits, filled with the part that varies,
/// else the string itself.
pub open spec fn settings_zh_cn_text(t: Seq<char>) -> Seq<char> {
    if let Some(translated) = settings_zh_cn_literal_text(t) {
        translated
    } else if let Some(count) = seq_strip_suffix(t, " credits remaining"@) {
        "剩余 "@ + count + " 额度"@
    } else if let Some(count) = seq_strip_suffix(t, " credit remaining"@) {
        "剩余 "@ + count + " 额度"@
    } else if let Some(count) = seq_strip_suffix(t, " credits"@) {
        count + " 额度"@
    } else if let Some(count) = seq_strip_suffix(t, " credit"@) {
        count + " 额度"@
    } else if let Some(count) = seq_strip_suffix(t, " teammates"@) {
        count + " 位队友"@
    } else if let Some(discount) = seq_strip_suffix(t, "% off"@) {
        discount + "% 优惠"@
    } else if let Some(date) = seq_strip_prefix(t, "Usage resets on "@) {
        "用量将在 "@ + date + " 重置"@
    } else if let Some(date) = seq_strip_prefix(t, "Resets "@) {
        date + " 重置"@
    } else if let Some(url) = seq_strip_prefix(t, "Open image at "@) {
        "打开镜像 "@ + url
    } else if let Some(domain) = seq_between(
        t,
        "Allow Warp users with an @"@,
        " email to find and join the team."@,
    ) {
        "允许使用 @"@ + domain + " 邮箱的 Warp 用户发现并加入此团队。"@
    } else if let Some(amount) = seq_between(
        t,
        "When enabled, auto reload will automatically purchase "@,
        " credits when your add-on credit balance reaches 100 credits remaining."@,
    ) {
        "启用后，当您的额外额度余额剩余 100 时，自动重新加载将自动购买 "@ + auto_reload_amount_text(amount)
            + " 额度。"@
    } else if let Some(rest) = seq_strip_prefix(t, "Discovered "@) {
        if let Some(count) = seq_strip_suffix(rest, " chunks"@) {
            "已发现 "@ + count + " 个代码块"@
        } else {
            t
        }
    } else if let Some(rest) = seq_strip_prefix(t, "Syncing - "@) {
        "同步中 - "@ + rest
    } else if let Some(max_rows) = seq_between(
        t,
        "Setting the limit above 100k lines may impact performance. Maximum rows supported is "@,
        "."@,
    ) {
        "将限制设置为超过 10 万行可能影响性能。支持的最大行数为 "@ + max_rows + "。"@
    } else {
        t
    }
}

/// How a settings string is shown in a locale: unchanged unless the locale is Simplified Chinese.
pub open spec fn settings_display_text_of(locale: Locale, t: Seq<char>) -> Seq<char> {
    if locale != Locale::ZhCn {
        t
    } else {
        settings_zh_cn_text(t)
    }
}

/// How a fixed settings string is shown in a locale: the dictionary's rendering in Simplified
/// Chinese when it has one, else the string itself.
pub open spec fn settings_display_text_static_of(locale: Locale, t: Seq<char>) -> Seq<char> {
    if locale == Locale::ZhCn && settings_zh_cn_literal_text(t) is Some {
        settings_zh_cn_literal_text(t).unwrap()
    } else {
        t
    }
}

/// `s` between `prefix` and `suffix`, if it starts with the one and the rest ends with the other.
fn strip_between<'a>(s: &'a str, prefix: &str, suffix: &str) -> (res: Option<&'a str>)
    ensures
        opt_str_view(res) == seq_between(s@, prefix@, suffix@),
{
    match strip_prefix(s, prefix) {
        Some(rest) => strip_suffix(rest, suffix),
        None => None,
    }
}

/// Shows a fixed settings string in the given locale.
pub fn settings_display_text_static(locale: Locale, text: &'static str) -> (shown: &'static str)
    ensures
        shown@ == settings_display_text_static_of(locale, text@),
{
    if locale != Locale::ZhCn {
        return text;
    }
    match settings_zh_cn_literal(text) {
        Some(translated) => translated,
        None => text,
    }
}

/// Shows a settings string in the given locale.
pub fn settings_display_text(locale: Locale, text: &str) -> (shown: String)
    ensures
        shown@ == settings_display_text_of(locale, text@),
{
    if locale != Locale::ZhCn {
        return text.to_owned();
    }
    proof {
        reveal_strlit("");
        assert(""@ =~= Seq::<char>::empty());
    }
    if let Some(translated) = settings_zh_cn_literal(text) {
        translated.to_owned()
    } else if let Some(count) = strip_suffix(text, " credits remaining") {
        concat3("剩余 ", count, " 额度")
    } else if let Some(count) = strip_suffix(text, " credit remaining") {
        concat3("剩余 ", count, " 额度")
    } else if let Some(count) = strip_suffix(text, " credits") {
        concat3("", count, " 额度")
    } else if let Some(count) = strip_suffix(text, " credit") {
        concat3("", count, " 额度")
    } else if let Some(count) = strip_suffix(text, " teammates") {
        concat3("", count, " 位队友")
    } else if let Some(discount) = strip_suffix(text, "% off") {
        concat3("", discount, "% 优惠")
    } else if let Some(date) = strip_prefix(text, "Usage resets on ") {
        concat3("用量将在 ", date, " 重置")
    } else if let Some(date) = strip_prefix(text, "Resets ") {
        concat3("", date, " 重置")
    } else if let Some(url) = strip_prefix(text, "Open image at ") {
        concat3("打开镜像 ", url, "")
    } else if let Some(domain) = strip_between(
        text,
        "Allow Warp users with an @",
        " email to find and join the team.",
    ) {
        concat3("允许使用 @", domain, " 邮箱的 Warp 用户发现并加入此团队。")
    } else if let Some(amount) = strip_between(
        text,
        "When enabled, auto reload will automatically purchase ",
        " credits when your add-on credit balance reaches 100 credits remaining.",
    ) {
        let amount = if str_eq(amount, "your selected") {
            "您选择的"
        } else {
            amount
        };
        concat3("启用后，当您的额外额度余额剩余 100 时，自动重新加载将自动购买 ", amount, " 额度。")
    } else if let Some(rest) = strip_prefix(text, "Discovered ") {
        if let Some(count) = strip_suffix(rest, " chunks") {
            concat3("已发现 ", count, " 个代码块")
        } else {
            text.to_owned()
        }
    } else if let Some(rest) = strip_prefix(text, "Syncing - ") {
        concat3("同步中 - ", rest, "")
    } else if let Some(max_rows) = strip_between(
        text,
        "Setting the limit above 100k lines may impact performance. Maximum rows supported is ",
        ".",
    ) {
        concat3("将限制设置为超过 10 万行可能影响性能。支持的最大行数为 ", max_rows, "。")
    } else {
        text.to_owned()
    }
}

/// A fixed string that the dictionary renders is shown alike by both ways of showing settings
/// text, in every locale.
pub proof fn lemma_fixed_and_dynamic_text_agree(locale: Locale, t: Seq<char>)
    requires
        settings_zh_cn_literal_text(t) is Some,
    ensures
        settings_display_text_static_of(locale, t) == settings_display_text_of(locale, t),
{
}

} // verus!
