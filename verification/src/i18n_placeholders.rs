use vstd::prelude::*;

use crate::i18n::MessageId;
use crate::i18n_en_us::en_us_text;
use crate::i18n_zh_cn::zh_cn_text;
use crate::text::{occurs_at, seq_contains};

verus! {

/// Whether a text holds the `{count}` placeholder.
pub open spec fn has_count_placeholder(text: Seq<char>) -> bool {
    seq_contains(text, "{count}"@)
}

/// Whether a text holds no `{`.
pub open spec fn has_no_brace(text: Seq<char>) -> bool {
    forall|i: int| 0 <= i < text.len() ==> text[i] != '{'
}

proof fn lemma_no_brace_no_placeholder(text: Seq<char>)
    requires
        has_no_brace(text),
    ensures
        !has_count_placeholder(text),
{
    reveal_strlit("{count}");
    if has_count_placeholder(text) {
        let i = choose|i: int| #[trigger] occurs_at(text, "{count}"@, i);
        assert(text.subrange(i, i + 7)[0] == text[i]);
    }
}

proof fn lemma_placeholder_at(text: Seq<char>, i: int)
    requires
        0 <= i <= text.len() - 7,
        text.subrange(i, i + 7) == "{count}"@,
    ensures
        has_count_placeholder(text),
{
    reveal_strlit("{count}");
    assert(occurs_at(text, "{count}"@, i));
}

proof fn lemma_message_settings_about()
    ensures
        zh_cn_text(MessageId::SettingsAbout).len() > 0,
        has_count_placeholder(zh_cn_text(MessageId::SettingsAbout)) == has_count_placeholder(
            en_us_text(MessageId::SettingsAbout),
        ),
{
    reveal_strlit("关于");
    reveal_strlit("About");
    assert(has_no_brace("关于"@));
    assert(has_no_brace("About"@));
    lemma_no_brace_no_placeholder("关于"@);
    lemma_no_brace_no_placeholder("About"@);
}

proof fn lemma_message_settings_account()
    ensures
        zh_cn_text(MessageId::SettingsAccount).len() > 0,
        has_count_placeholder(zh_cn_text(MessageId::SettingsAccount)) == has_count_placeholder(
            en_us_text(MessageId::SettingsAccount),
        ),
{
    reveal_strlit("账户");
    reveal_strlit("Account");
    assert(has_no_brace("账户"@));
    assert(has_no_brace("Account"@));
    lemma_no_brace_no_placeholder("账户"@);
    lemma_no_brace_no_placeholder("Account"@);
}

proof fn lemma_message_settings_agents()
    ensures
        zh_cn_text(MessageId::SettingsAgents).len() > 0,
        has_count_placeholder(zh_cn_text(MessageId::SettingsAgents)) == has_count_placeholder(
            en_us_text(MessageId::SettingsAgents),
        ),
{
    reveal_strlit("智能体");
    reveal_strlit("Agents");
    assert(has_no_brace("智能体"@));
    assert(has_no_brace("Agents"@));
    lemma_no_brace_no_placeholder("智能体"@);
    lemma_no_brace_no_placeholder("Agents"@);
}

proof fn lemma_message_settings_appearance()
    ensures
        zh_cn_text(MessageId::SettingsAppearance).len() > 0,
        has_count_placeholder(zh_cn_text(MessageId::SettingsAppearance)) == has_count_placeholder(
            en_us_text(MessageId::SettingsAppearance),
        ),
{
    reveal_strlit("外观");
    reveal_strlit("Appearance");
    assert(has_no_brace("外观"@));
    assert(has_no_brace("Appearance"@));
    lemma_no_brace_no_placeholder("外观"@);
    lemma_no_brace_no_placeholder("Appearance"@);
}

proof fn lemma_message_settings_billing_and_usage()
    ensures
        zh_cn_text(MessageId::SettingsBillingAndUsage).len() > 0,
        has_count_placeholder(zh_cn_text(MessageId::SettingsBillingAndUsage)) == has_count_placeholder(
            en_us_text(MessageId::SettingsBillingAndUsage),
        ),
{
    reveal_strlit("账单和用量");
    reveal_strlit("Billing and usage");
    assert(has_no_brace("账单和用量"@));
    assert(has_no_brace("Billing and usage"@));
    lemma_no_brace_no_placeholder("账单和用量"@);
    lemma_no_brace_no_placeholder("Billing and usage"@);
}

proof fn lemma_message_settings_cloud_environments()
    ensures
        zh_cn_text(MessageId::SettingsCloudEnvironments).len() > 0,
        has_count_placeholder(zh_cn_text(MessageId::SettingsCloudEnvironments)) == has_count_placeholder(
            en_us_text(MessageId::SettingsCloudEnvironments),
        ),
{
    reveal_strlit("环境");
    reveal_strlit("Environments");
    assert(has_no_brace("环境"@));
    assert(has_no_brace("Environments"@));
    lemma_no_brace_no_placeholder("环境"@);
    lemma_no_brace_no_placeholder("Environments"@);
}

proof fn lemma_message_settings_cloud_platform()
    ensures
        zh_cn_text(MessageId::SettingsCloudPlatform).len() > 0,
        has_count_placeholder(zh_cn_text(MessageId::SettingsCloudPlatform)) == has_count_placeholder(
            en_us_text(MessageId::SettingsCloudPlatform),
        ),
{
    reveal_strlit("云平台");
    reveal_strlit("Cloud platform");
    assert(has_no_brace("云平台"@));
    assert(has_no_brace("Cloud platform"@));
    lemma_no_brace_no_placeholder("云平台"@);
    lemma_no_brace_no_placeholder("Cloud platform"@);
}

proof fn lemma_message_settings_code()
    ensures
        zh_cn_text(MessageId::SettingsCode).len() > 0,
        has_count_placeholder(zh_cn_text(MessageId::SettingsCode)) == has_count_placeholder(
            en_us_text(MessageId::SettingsCode),
        ),
{
    reveal_strlit("代码");
    reveal_strlit("Code");
    assert(has_no_brace("代码"@));
    assert(has_no_brace("Code"@));
    lemma_no_brace_no_placeholder("代码"@);
    lemma_no_brace_no_placeholder("Code"@);
}

proof fn lemma_message_settings_code_editor_and_code_review()
    ensures
        zh_cn_text(MessageId::SettingsCodeEditorAndCodeReview).len() > 0,
        has_count_placeholder(zh_cn_text(MessageId::SettingsCodeEditorAndCodeReview)) == has_count_placeholder(
            en_us_text(MessageId::SettingsCodeEditorAndCodeReview),
        ),
{
    reveal_strlit("编辑器和代码审查");
    reveal_strlit("Editor and Code Review");
    assert(has_no_brace("编辑器和代码审查"@));
    assert(has_no_brace("Editor and Code Review"@));
    lemma_no_brace_no_placeholder("编辑器和代码审查"@);
    lemma_no_brace_no_placeholder("Editor and Code Review"@);
}

proof fn lemma_message_settings_code_indexing()
    ensures
        zh_cn_text(MessageId::SettingsCodeIndexing).len() > 0,
        has_count_placeholder(zh_cn_text(MessageId::SettingsCodeIndexing)) == has_count_placeholder(
            en_us_text(MessageId::SettingsCodeIndexing),
        ),
{
    reveal_strlit("索引和项目");
    reveal_strlit("Indexing and projects");
    assert(has_no_brace("索引和项目"@));
    assert(has_no_brace("Indexing and projects"@));
    lemma_no_brace_no_placeholder("索引和项目"@);
    lemma_no_brace_no_placeholder("Indexing and projects"@);
}

proof fn lemma_message_settings_features()
    ensures
        zh_cn_text(MessageId::SettingsFeatures).len() > 0,
        has_count_placeholder(zh_cn_text(MessageId::SettingsFeatures)) == has_count_placeholder(
            en_us_text(MessageId::SettingsFeatures),
        ),
{
    reveal_strlit("功能");
    reveal_strlit("Features");
    assert(has_no_brace("功能"@));
    assert(has_no_brace("Features"@));
    lemma_no_brace_no_placeholder("功能"@);
    lemma_no_brace_no_placeholder("Features"@);
}

proof fn lemma_message_settings_keybindings()
    ensures
        zh_cn_text(MessageId::SettingsKeybindings).len() > 0,
        has_count_placeholder(zh_cn_text(MessageId::SettingsKeybindings)) == has_count_placeholder(
            en_us_text(MessageId::SettingsKeybindings),
        ),
{
    reveal_strlit("键盘快捷键");
    reveal_strlit("Keyboard shortcuts");
    assert(has_no_brace("键盘快捷键"@));
    assert(has_no_brace("Keyboard shortcuts"@));
    lemma_no_brace_no_placeholder("键盘快捷键"@);
    lemma_no_brace_no_placeholder("Keyboard shortcuts"@);
}

proof fn lemma_message_settings_language()
    ensures
        zh_cn_text(MessageId::SettingsLanguage).len() > 0,
        has_count_placeholder(zh_cn_text(MessageId::SettingsLanguage)) == has_count_placeholder(
            en_us_text(MessageId::SettingsLanguage),
        ),
{
    reveal_strlit("语言");
    reveal_strlit("Language");
    assert(has_no_brace("语言"@));
    assert(has_no_brace("Language"@));
    lemma_no_brace_no_placeholder("语言"@);
    lemma_no_brace_no_placeholder("Language"@);
}

proof fn lemma_message_settings_local_a_i_provider()
    ensures
        zh_cn_text(MessageId::SettingsLocalAIProvider).len() > 0,
        has_count_placeholder(zh_cn_text(MessageId::SettingsLocalAIProvider)) == has_count_placeholder(
            en_us_text(MessageId::SettingsLocalAIProvider),
        ),
{
    reveal_strlit("本地 AI Provider");
    reveal_strlit("Local AI Provider");
    assert(has_no_brace("本地 AI Provider"@));
    assert(has_no_brace("Local AI Provider"@));
    lemma_no_brace_no_placeholder("本地 AI Provider"@);
    lemma_no_brace_no_placeholder("Local AI Provider"@);
}

proof fn lemma_message_settings_knowledge()
    ensures
        zh_cn_text(MessageId::SettingsKnowledge).len() > 0,
        has_count_placeholder(zh_cn_text(MessageId::SettingsKnowledge)) == has_count_placeholder(
            en_us_text(MessageId::SettingsKnowledge),
        ),
{
    reveal_strlit("知识");
    reveal_strlit("Knowledge");
    assert(has_no_brace("知识"@));
    assert(has_no_brace("Knowledge"@));
    lemma_no_brace_no_placeholder("知识"@);
    lemma_no_brace_no_placeholder("Knowledge"@);
}

proof fn lemma_message_settings_mcp_servers()
    ensures
        zh_cn_text(MessageId::SettingsMcpServers).len() > 0,
        has_count_placeholder(zh_cn_text(MessageId::SettingsMcpServers)) == has_count_placeholder(
            en_us_text(MessageId::SettingsMcpServers),
        ),
{
    reveal_strlit("MCP 服务器");
    reveal_strlit("MCP Servers");
    assert(has_no_brace("MCP 服务器"@));
    assert(has_no_brace("MCP Servers"@));
    lemma_no_brace_no_placeholder("MCP 服务器"@);
    lemma_no_brace_no_placeholder("MCP Servers"@);
}

proof fn lemma_message_settings_oz_cloud_api_keys()
    ensures
        zh_cn_text(MessageId::SettingsOzCloudApiKeys).len() > 0,
        has_count_placeholder(zh_cn_text(MessageId::SettingsOzCloudApiKeys)) == has_count_placeholder(
            en_us_text(MessageId::SettingsOzCloudApiKeys),
        ),
{
    reveal_strlit("Oz Cloud API 密钥");
    reveal_strlit("Oz Cloud API Keys");
    assert(has_no_brace("Oz Cloud API 密钥"@));
    assert(has_no_brace("Oz Cloud API Keys"@));
    lemma_no_brace_no_placeholder("Oz Cloud API 密钥"@);
    lemma_no_brace_no_placeholder("Oz Cloud API Keys"@);
}

proof fn lemma_message_settings_privacy()
    ensures
        zh_cn_text(MessageId::SettingsPrivacy).len() > 0,
        has_count_placeholder(zh_cn_text(MessageId::SettingsPrivacy)) == has_count_placeholder(
            en_us_text(MessageId::SettingsPrivacy),
        ),
{
    reveal_strlit("隐私");
    reveal_strlit("Privacy");
    assert(has_no_brace("隐私"@));
    assert(has_no_brace("Privacy"@));
    lemma_no_brace_no_placeholder("隐私"@);
    lemma_no_brace_no_placeholder("Privacy"@);
}

proof fn lemma_message_settings_profiles()
    ensures
        zh_cn_text(MessageId::SettingsProfiles).len() > 0,
        has_count_placeholder(zh_cn_text(MessageId::SettingsProfiles)) == has_count_placeholder(
            en_us_text(MessageId::SettingsProfiles),
        ),
{
    reveal_strlit("配置文件");
    reveal_strlit("Profiles");
    assert(has_no_brace("配置文件"@));
    assert(has_no_brace("Profiles"@));
    lemma_no_brace_no_placeholder("配置文件"@);
    lemma_no_brace_no_placeholder("Profiles"@);
}

proof fn lemma_message_settings_referrals()
    ensures
        zh_cn_text(MessageId::SettingsReferrals).len() > 0,
        has_count_placeholder(zh_cn_text(MessageId::SettingsReferrals)) == has_count_placeholder(
            en_us_text(MessageId::SettingsReferrals),
        ),
{
    reveal_strlit("邀请奖励");
    reveal_strlit("Referrals");
    assert(has_no_brace("邀请奖励"@));
    assert(has_no_brace("Referrals"@));
    lemma_no_brace_no_placeholder("邀请奖励"@);
    lemma_no_brace_no_placeholder("Referrals"@);
}

proof fn lemma_message_settings_shared_blocks()
    ensures
        zh_cn_text(MessageId::SettingsSharedBlocks).len() > 0,
        has_count_placeholder(zh_cn_text(MessageId::SettingsSharedBlocks)) == has_count_placeholder(
            en_us_text(MessageId::SettingsSharedBlocks),
        ),
{
    reveal_strlit("共享块");
    reveal_strlit("Shared blocks");
    assert(has_no_brace("共享块"@));
    assert(has_no_brace("Shared blocks"@));
    lemma_no_brace_no_placeholder("共享块"@);
    lemma_no_brace_no_placeholder("Shared blocks"@);
}

proof fn lemma_message_settings_teams()
    ensures
        zh_cn_text(MessageId::SettingsTeams).len() > 0,
        has_count_placeholder(zh_cn_text(MessageId::SettingsTeams)) == has_count_placeholder(
            en_us_text(MessageId::SettingsTeams),
        ),
{
    reveal_strlit("团队");
    reveal_strlit("Teams");
    assert(has_no_brace("团队"@));
    assert(has_no_brace("Teams"@));
    lemma_no_brace_no_placeholder("团队"@);
    lemma_no_brace_no_placeholder("Teams"@);
}

proof fn lemma_message_settings_third_party_cli_agents()
    ensures
        zh_cn_text(MessageId::SettingsThirdPartyCliAgents).len() > 0,
        has_count_placeholder(zh_cn_text(MessageId::SettingsThirdPartyCliAgents)) == has_count_placeholder(
            en_us_text(MessageId::SettingsThirdPartyCliAgents),
        ),
{
    reveal_strlit("第三方 CLI 智能体");
    reveal_strlit("Third party CLI agents");
    assert(has_no_brace("第三方 CLI 智能体"@));
    assert(has_no_brace("Third party CLI agents"@));
    lemma_no_brace_no_placeholder("第三方 CLI 智能体"@);
    lemma_no_brace_no_placeholder("Third party CLI agents"@);
}

proof fn lemma_message_settings_warp_agent()
    ensures
        zh_cn_text(MessageId::SettingsWarpAgent).len() > 0,
        has_count_placeholder(zh_cn_text(MessageId::SettingsWarpAgent)) == has_count_placeholder(
            en_us_text(MessageId::SettingsWarpAgent),
        ),
{
    reveal_strlit("Warp 智能体");
    reveal_strlit("Warp Agent");
    assert(has_no_brace("Warp 智能体"@));
    assert(has_no_brace("Warp Agent"@));
    lemma_no_brace_no_placeholder("Warp 智能体"@);
    lemma_no_brace_no_placeholder("Warp Agent"@);
}

proof fn lemma_message_settings_warp_drive()
    ensures
        zh_cn_text(MessageId::SettingsWarpDrive).len() > 0,
        has_count_placeholder(zh_cn_text(MessageId::SettingsWarpDrive)) == has_count_placeholder(
            en_us_text(MessageId::SettingsWarpDrive),
        ),
{
    reveal_strlit("Warp Drive");
    reveal_strlit("Warp Drive");
    assert(has_no_brace("Warp Drive"@));
    assert(has_no_brace("Warp Drive"@));
    lemma_no_brace_no_placeholder("Warp Drive"@);
    lemma_no_brace_no_placeholder("Warp Drive"@);
}

proof fn lemma_message_settings_warpify()
    ensures
        zh_cn_text(MessageId::SettingsWarpify).len() > 0,
        has_count_placeholder(zh_cn_text(MessageId::SettingsWarpify)) == has_count_placeholder(
            en_us_text(MessageId::SettingsWarpify),
        ),
{
    reveal_strlit("Warpify");
    reveal_strlit("Warpify");
    assert(has_no_brace("Warpify"@));
    assert(has_no_brace("Warpify"@));
    lemma_no_brace_no_placeholder("Warpify"@);
    lemma_no_brace_no_placeholder("Warpify"@);
}

proof fn lemma_message_about_copyright()
    ensures
        zh_cn_text(MessageId::AboutCopyright).len() > 0,
        has_count_placeholder(zh_cn_text(MessageId::AboutCopyright)) == has_count_placeholder(
            en_us_text(MessageId::AboutCopyright),
        ),
{
    reveal_strlit("版权所有 2026 Warp");
    reveal_strlit("Copyright 2026 Warp");
    assert(has_no_brace("版权所有 2026 Warp"@));
    assert(has_no_brace("Copyright 2026 Warp"@));
    lemma_no_brace_no_placeholder("版权所有 2026 Warp"@);
    lemma_no_brace_no_placeholder("Copyright 2026 Warp"@);
}

proof fn lemma_message_language_page_description()
    ensures
        zh_cn_text(MessageId::LanguagePageDescription).len() > 0,
        has_count_placeholder(zh_cn_text(MessageId::LanguagePageDescription)) == has_count_placeholder(
            en_us_text(MessageId::LanguagePageDescription),
        ),
{
    reveal_strlit("选择 Warp 的显示语言。");
    reveal_strlit("Choose the display language for Warp.");
    assert(has_no_brace("选择 Warp 的显示语言。"@));
    assert(has_no_brace("Choose the display language for Warp."@));
    lemma_no_brace_no_placeholder("选择 Warp 的显示语言。"@);
    lemma_no_brace_no_placeholder("Choose the display language for Warp."@);
}

proof fn lemma_message_language_page_option_english()
    ensures
        zh_cn_text(MessageId::LanguagePageOptionEnglish).len() > 0,
        has_count_placeholder(zh_cn_text(MessageId::LanguagePageOptionEnglish)) == has_count_placeholder(
            en_us_text(MessageId::LanguagePageOptionEnglish),
        ),
{
    reveal_strlit("English");
    reveal_strlit("English");
    assert(has_no_brace("English"@));
    assert(has_no_brace("English"@));
    lemma_no_brace_no_placeholder("English"@);
    lemma_no_brace_no_placeholder("English"@);
}

proof fn lemma_message_language_page_option_simplified_chinese()
    ensures
        zh_cn_text(MessageId::LanguagePageOptionSimplifiedChinese).len() > 0,
        has_count_placeholder(zh_cn_text(MessageId::LanguagePageOptionSimplifiedChinese)) == has_count_placeholder(
            en_us_text(MessageId::LanguagePageOptionSimplifiedChinese),
        ),
{
    reveal_strlit("简体中文");
    reveal_strlit("Simplified Chinese");
    assert(has_no_brace("简体中文"@));
    assert(has_no_brace("Simplified Chinese"@));
    lemma_no_brace_no_placeholder("简体中文"@);
    lemma_no_brace_no_placeholder("Simplified Chinese"@);
}

proof fn lemma_message_language_page_restart_note()
    ensures
        zh_cn_text(MessageId::LanguagePageRestartNote).len() > 0,
        has_count_placeholder(zh_cn_text(MessageId::LanguagePageRestartNote)) == has_count_placeholder(
            en_us_text(MessageId::LanguagePageRestartNote),
        ),
{
    reveal_strlit("部分文字可能需要重新打开窗口后更新。");
    reveal_strlit("Some text may update after reopening the window.");
    assert(has_no_brace("部分文字可能需要重新打开窗口后更新。"@));
    assert(has_no_brace("Some text may update after reopening the window."@));
    lemma_no_brace_no_placeholder("部分文字可能需要重新打开窗口后更新。"@);
    lemma_no_brace_no_placeholder("Some text may update after reopening the window."@);
}

proof fn lemma_message_language_page_selector_label()
    ensures
        zh_cn_text(MessageId::LanguagePageSelectorLabel).len() > 0,
        has_count_placeholder(zh_cn_text(MessageId::LanguagePageSelectorLabel)) == has_count_placeholder(
            en_us_text(MessageId::LanguagePageSelectorLabel),
        ),
{
    reveal_strlit("应用语言");
    reveal_strlit("App language");
    assert(has_no_brace("应用语言"@));
    assert(has_no_brace("App language"@));
    lemma_no_brace_no_placeholder("应用语言"@);
    lemma_no_brace_no_placeholder("App language"@);
}

proof fn lemma_message_menu_ai()
    ensures
        zh_cn_text(MessageId::MenuAi).len() > 0,
        has_count_placeholder(zh_cn_text(MessageId::MenuAi)) == has_count_placeholder(
            en_us_text(MessageId::MenuAi),
        ),
{
    reveal_strlit("AI");
    reveal_strlit("AI");
    assert(has_no_brace("AI"@));
    assert(has_no_brace("AI"@));
    lemma_no_brace_no_placeholder("AI"@);
    lemma_no_brace_no_placeholder("AI"@);
}

proof fn lemma_message_menu_blocks()
    ensures
        zh_cn_text(MessageId::MenuBlocks).len() > 0,
        has_count_placeholder(zh_cn_text(MessageId::MenuBlocks)) == has_count_placeholder(
            en_us_text(MessageId::MenuBlocks),
        ),
{
    reveal_strlit("块");
    reveal_strlit("Blocks");
    assert(has_no_brace("块"@));
    assert(has_no_brace("Blocks"@));
    lemma_no_brace_no_placeholder("块"@);
    lemma_no_brace_no_placeholder("Blocks"@);
}

proof fn lemma_message_menu_drive()
    ensures
        zh_cn_text(MessageId::MenuDrive).len() > 0,
        has_count_placeholder(zh_cn_text(MessageId::MenuDrive)) == has_count_placeholder(
            en_us_text(MessageId::MenuDrive),
        ),
{
    reveal_strlit("云盘");
    reveal_strlit("Drive");
    assert(has_no_brace("云盘"@));
    assert(has_no_brace("Drive"@));
    lemma_no_brace_no_placeholder("云盘"@);
    lemma_no_brace_no_placeholder("Drive"@);
}

proof fn lemma_message_menu_edit()
    ensures
        zh_cn_text(MessageId::MenuEdit).len() > 0,
        has_count_placeholder(zh_cn_text(MessageId::MenuEdit)) == has_count_placeholder(
            en_us_text(MessageId::MenuEdit),
        ),
{
    reveal_strlit("编辑");
    reveal_strlit("Edit");
    assert(has_no_brace("编辑"@));
    assert(has_no_brace("Edit"@));
    lemma_no_brace_no_placeholder("编辑"@);
    lemma_no_brace_no_placeholder("Edit"@);
}

proof fn lemma_message_menu_file()
    ensures
        zh_cn_text(MessageId::MenuFile).len() > 0,
        has_count_placeholder(zh_cn_text(MessageId::MenuFile)) == has_count_placeholder(
            en_us_text(MessageId::MenuFile),
        ),
{
    reveal_strlit("文件");
    reveal_strlit("File");
    assert(has_no_brace("文件"@));
    assert(has_no_brace("File"@));
    lemma_no_brace_no_placeholder("文件"@);
    lemma_no_brace_no_placeholder("File"@);
}

proof fn lemma_message_menu_help()
    ensures
        zh_cn_text(MessageId::MenuHelp).len() > 0,
        has_count_placeholder(zh_cn_text(MessageId::MenuHelp)) == has_count_placeholder(
            en_us_text(MessageId::MenuHelp),
        ),
{
    reveal_strlit("帮助");
    reveal_strlit("Help");
    assert(has_no_brace("帮助"@));
    assert(has_no_brace("Help"@));
    lemma_no_brace_no_placeholder("帮助"@);
    lemma_no_brace_no_placeholder("Help"@);
}

proof fn lemma_message_menu_tab()
    ensures
        zh_cn_text(MessageId::MenuTab).len() > 0,
        has_count_placeholder(zh_cn_text(MessageId::MenuTab)) == has_count_placeholder(
            en_us_text(MessageId::MenuTab),
        ),
{
    reveal_strlit("标签页");
    reveal_strlit("Tab");
    assert(has_no_brace("标签页"@));
    assert(has_no_brace("Tab"@));
    lemma_no_brace_no_placeholder("标签页"@);
    lemma_no_brace_no_placeholder("Tab"@);
}

proof fn lemma_message_menu_view()
    ensures
        zh_cn_text(MessageId::MenuView).len() > 0,
        has_count_placeholder(zh_cn_text(MessageId::MenuView)) == has_count_placeholder(
            en_us_text(MessageId::MenuView),
        ),
{
    reveal_strlit("视图");
    reveal_strlit("View");
    assert(has_no_brace("视图"@));
    assert(has_no_brace("View"@));
    lemma_no_brace_no_placeholder("视图"@);
    lemma_no_brace_no_placeholder("View"@);
}

proof fn lemma_message_menu_window()
    ensures
        zh_cn_text(MessageId::MenuWindow).len() > 0,
        has_count_placeholder(zh_cn_text(MessageId::MenuWindow)) == has_count_placeholder(
            en_us_text(MessageId::MenuWindow),
        ),
{
    reveal_strlit("窗口");
    reveal_strlit("Window");
    assert(has_no_brace("窗口"@));
    assert(has_no_brace("Window"@));
    lemma_no_brace_no_placeholder("窗口"@);
    lemma_no_brace_no_placeholder("Window"@);
}

proof fn lemma_message_app_preferences()
    ensures
        zh_cn_text(MessageId::AppPreferences).len() > 0,
        has_count_placeholder(zh_cn_text(MessageId::AppPreferences)) == has_count_placeholder(
            en_us_text(MessageId::AppPreferences),
        ),
{
    reveal_strlit("偏好设置");
    reveal_strlit("Preferences");
    assert(has_no_brace("偏好设置"@));
    assert(has_no_brace("Preferences"@));
    lemma_no_brace_no_placeholder("偏好设置"@);
    lemma_no_brace_no_placeholder("Preferences"@);
}

proof fn lemma_message_app_privacy_policy()
    ensures
        zh_cn_text(MessageId::AppPrivacyPolicy).len() > 0,
        has_count_placeholder(zh_cn_text(MessageId::AppPrivacyPolicy)) == has_count_placeholder(
            en_us_text(MessageId::AppPrivacyPolicy),
        ),
{
    reveal_strlit("隐私政策...");
    reveal_strlit("Privacy Policy...");
    assert(has_no_brace("隐私政策..."@));
    assert(has_no_brace("Privacy Policy..."@));
    lemma_no_brace_no_placeholder("隐私政策..."@);
    lemma_no_brace_no_placeholder("Privacy Policy..."@);
}

proof fn lemma_message_app_debug()
    ensures
        zh_cn_text(MessageId::AppDebug).len() > 0,
        has_count_placeholder(zh_cn_text(MessageId::AppDebug)) == has_count_placeholder(
            en_us_text(MessageId::AppDebug),
        ),
{
    reveal_strlit("调试");
    reveal_strlit("Debug");
    assert(has_no_brace("调试"@));
    assert(has_no_brace("Debug"@));
    lemma_no_brace_no_placeholder("调试"@);
    lemma_no_brace_no_placeholder("Debug"@);
}

proof fn lemma_message_app_set_default_terminal()
    ensures
        zh_cn_text(MessageId::AppSetDefaultTerminal).len() > 0,
        has_count_placeholder(zh_cn_text(MessageId::AppSetDefaultTerminal)) == has_count_placeholder(
            en_us_text(MessageId::AppSetDefaultTerminal),
        ),
{
    reveal_strlit("将 Warp 设为默认终端");
    reveal_strlit("Set Warp as Default Terminal");
    assert(has_no_brace("将 Warp 设为默认终端"@));
    assert(has_no_brace("Set Warp as Default Terminal"@));
    lemma_no_brace_no_placeholder("将 Warp 设为默认终端"@);
    lemma_no_brace_no_placeholder("Set Warp as Default Terminal"@);
}

proof fn lemma_message_app_logout()
    ensures
        zh_cn_text(MessageId::AppLogout).len() > 0,
        has_count_placeholder(zh_cn_text(MessageId::AppLogout)) == has_count_placeholder(
            en_us_text(MessageId::AppLogout),
        ),
{
    reveal_strlit("退出登录");
    reveal_strlit("Log out");
    assert(has_no_brace("退出登录"@));
    assert(has_no_brace("Log out"@));
    lemma_no_brace_no_placeholder("退出登录"@);
    lemma_no_brace_no_placeholder("Log out"@);
}

proof fn lemma_message_file_new_window()
    ensures
        zh_cn_text(MessageId::FileNewWindow).len() > 0,
        has_count_placeholder(zh_cn_text(MessageId::FileNewWindow)) == has_count_placeholder(
            en_us_text(MessageId::FileNewWindow),
        ),
{
    reveal_strlit("新建窗口");
    reveal_strlit("New Window");
    assert(has_no_brace("新建窗口"@));
    assert(has_no_brace("New Window"@));
    lemma_no_brace_no_placeholder("新建窗口"@);
    lemma_no_brace_no_placeholder("New Window"@);
}

proof fn lemma_message_file_new_terminal_tab()
    ensures
        zh_cn_text(MessageId::FileNewTerminalTab).len() > 0,
        has_count_placeholder(zh_cn_text(MessageId::FileNewTerminalTab)) == has_count_placeholder(
            en_us_text(MessageId::FileNewTerminalTab),
        ),
{
    reveal_strlit("新建终端标签页");
    reveal_strlit("New Terminal Tab");
    assert(has_no_brace("新建终端标签页"@));
    assert(has_no_brace("New Terminal Tab"@));
    lemma_no_brace_no_placeholder("新建终端标签页"@);
    lemma_no_brace_no_placeholder("New Terminal Tab"@);
}

proof fn lemma_message_file_new_agent_tab()
    ensures
        zh_cn_text(MessageId::FileNewAgentTab).len() > 0,
        has_count_placeholder(zh_cn_text(MessageId::FileNewAgentTab)) == has_count_placeholder(
            en_us_text(MessageId::FileNewAgentTab),
        ),
{
    reveal_strlit("新建智能体标签页");
    reveal_strlit("New Agent Tab");
    assert(has_no_brace("新建智能体标签页"@));
    assert(has_no_brace("New Agent Tab"@));
    lemma_no_brace_no_placeholder("新建智能体标签页"@);
    lemma_no_brace_no_placeholder("New Agent Tab"@);
}

proof fn lemma_message_file_new_file()
    ensures
        zh_cn_text(MessageId::FileNewFile).len() > 0,
        has_count_placeholder(zh_cn_text(MessageId::FileNewFile)) == has_count_placeholder(
            en_us_text(MessageId::FileNewFile),
        ),
{
    reveal_strlit("新建文件");
    reveal_strlit("New File");
    assert(has_no_brace("新建文件"@));
    assert(has_no_brace("New File"@));
    lemma_no_brace_no_placeholder("新建文件"@);
    lemma_no_brace_no_placeholder("New File"@);
}

proof fn lemma_message_file_reopen_closed_session()
    ensures
        zh_cn_text(MessageId::FileReopenClosedSession).len() > 0,
        has_count_placeholder(zh_cn_text(MessageId::FileReopenClosedSession)) == has_count_placeholder(
            en_us_text(MessageId::FileReopenClosedSession),
        ),
{
    reveal_strlit("重新打开已关闭的会话");
    reveal_strlit("Reopen closed session");
    assert(has_no_brace("重新打开已关闭的会话"@));
    assert(has_no_brace("Reopen closed session"@));
    lemma_no_brace_no_placeholder("重新打开已关闭的会话"@);
    lemma_no_brace_no_placeholder("Reopen closed session"@);
}

proof fn lemma_message_file_launch_configurations()
    ensures
        zh_cn_text(MessageId::FileLaunchConfigurations).len() > 0,
        has_count_placeholder(zh_cn_text(MessageId::FileLaunchConfigurations)) == has_count_placeholder(
            en_us_text(MessageId::FileLaunchConfigurations),
        ),
{
    reveal_strlit("启动配置");
    reveal_strlit("Launch Configurations");
    assert(has_no_brace("启动配置"@));
    assert(has_no_brace("Launch Configurations"@));
    lemma_no_brace_no_placeholder("启动配置"@);
    lemma_no_brace_no_placeholder("Launch Configurations"@);
}

proof fn lemma_message_file_open_recent()
    ensures
        zh_cn_text(MessageId::FileOpenRecent).len() > 0,
        has_count_placeholder(zh_cn_text(MessageId::FileOpenRecent)) == has_count_placeholder(
            en_us_text(MessageId::FileOpenRecent),
        ),
{
    reveal_strlit("最近打开");
    reveal_strlit("Open Recent");
    assert(has_no_brace("最近打开"@));
    assert(has_no_brace("Open Recent"@));
    lemma_no_brace_no_placeholder("最近打开"@);
    lemma_no_brace_no_placeholder("Open Recent"@);
}

proof fn lemma_message_file_save_new()
    ensures
        zh_cn_text(MessageId::FileSaveNew).len() > 0,
        has_count_placeholder(zh_cn_text(MessageId::FileSaveNew)) == has_count_placeholder(
            en_us_text(MessageId::FileSaveNew),
        ),
{
    reveal_strlit("另存为...");
    reveal_strlit("Save New...");
    assert(has_no_brace("另存为..."@));
    assert(has_no_brace("Save New..."@));
    lemma_no_brace_no_placeholder("另存为..."@);
    lemma_no_brace_no_placeholder("Save New..."@);
}

proof fn lemma_message_file_close()
    ensures
        zh_cn_text(MessageId::FileClose).len() > 0,
        has_count_placeholder(zh_cn_text(MessageId::FileClose)) == has_count_placeholder(
            en_us_text(MessageId::FileClose),
        ),
{
    reveal_strlit("关闭当前会话");
    reveal_strlit("Close Current Session");
    assert(has_no_brace("关闭当前会话"@));
    assert(has_no_brace("Close Current Session"@));
    lemma_no_brace_no_placeholder("关闭当前会话"@);
    lemma_no_brace_no_placeholder("Close Current Session"@);
}

proof fn lemma_message_file_close_window()
    ensures
        zh_cn_text(MessageId::FileCloseWindow).len() > 0,
        has_count_placeholder(zh_cn_text(MessageId::FileCloseWindow)) == has_count_placeholder(
            en_us_text(MessageId::FileCloseWindow),
        ),
{
    reveal_strlit("关闭窗口");
    reveal_strlit("Close Window");
    assert(has_no_brace("关闭窗口"@));
    assert(has_no_brace("Close Window"@));
    lemma_no_brace_no_placeholder("关闭窗口"@);
    lemma_no_brace_no_placeholder("Close Window"@);
}

proof fn lemma_message_edit_use_warp_prompt()
    ensures
        zh_cn_text(MessageId::EditUseWarpPrompt).len() > 0,
        has_count_placeholder(zh_cn_text(MessageId::EditUseWarpPrompt)) == has_count_placeholder(
            en_us_text(MessageId::EditUseWarpPrompt),
        ),
{
    reveal_strlit("使用 Warp 提示符");
    reveal_strlit("Use Warp's Prompt");
    assert(has_no_brace("使用 Warp 提示符"@));
    assert(has_no_brace("Use Warp's Prompt"@));
    lemma_no_brace_no_placeholder("使用 Warp 提示符"@);
    lemma_no_brace_no_placeholder("Use Warp's Prompt"@);
}

proof fn lemma_message_edit_copy_on_select()
    ensures
        zh_cn_text(MessageId::EditCopyOnSelect).len() > 0,
        has_count_placeholder(zh_cn_text(MessageId::EditCopyOnSelect)) == has_count_placeholder(
            en_us_text(MessageId::EditCopyOnSelect),
        ),
{
    reveal_strlit("在终端中选中时复制");
    reveal_strlit("Copy on Select within the Terminal");
    assert(has_no_brace("在终端中选中时复制"@));
    assert(has_no_brace("Copy on Select within the Terminal"@));
    lemma_no_brace_no_placeholder("在终端中选中时复制"@);
    lemma_no_brace_no_placeholder("Copy on Select within the Terminal"@);
}

proof fn lemma_message_edit_synchronize_inputs()
    ensures
        zh_cn_text(MessageId::EditSynchronizeInputs).len() > 0,
        has_count_placeholder(zh_cn_text(MessageId::EditSynchronizeInputs)) == has_count_placeholder(
            en_us_text(MessageId::EditSynchronizeInputs),
        ),
{
    reveal_strlit("同步输入");
    reveal_strlit("Synchronize Inputs");
    assert(has_no_brace("同步输入"@));
    assert(has_no_brace("Synchronize Inputs"@));
    lemma_no_brace_no_placeholder("同步输入"@);
    lemma_no_brace_no_placeholder("Synchronize Inputs"@);
}

proof fn lemma_message_view_toggle_mouse_reporting()
    ensures
        zh_cn_text(MessageId::ViewToggleMouseReporting).len() > 0,
        has_count_placeholder(zh_cn_text(MessageId::ViewToggleMouseReporting)) == has_count_placeholder(
            en_us_text(MessageId::ViewToggleMouseReporting),
        ),
{
    reveal_strlit("切换鼠标上报");
    reveal_strlit("Toggle Mouse Reporting");
    assert(has_no_brace("切换鼠标上报"@));
    assert(has_no_brace("Toggle Mouse Reporting"@));
    lemma_no_brace_no_placeholder("切换鼠标上报"@);
    lemma_no_brace_no_placeholder("Toggle Mouse Reporting"@);
}

proof fn lemma_message_view_toggle_scroll_reporting()
    ensures
        zh_cn_text(MessageId::ViewToggleScrollReporting).len() > 0,
        has_count_placeholder(zh_cn_text(MessageId::ViewToggleScrollReporting)) == has_count_placeholder(
            en_us_text(MessageId::ViewToggleScrollReporting),
        ),
{
    reveal_strlit("切换滚动上报");
    reveal_strlit("Toggle Scroll Reporting");
    assert(has_no_brace("切换滚动上报"@));
    assert(has_no_brace("Toggle Scroll Reporting"@));
    lemma_no_brace_no_placeholder("切换滚动上报"@);
    lemma_no_brace_no_placeholder("Toggle Scroll Reporting"@);
}

proof fn lemma_message_view_toggle_focus_reporting()
    ensures
        zh_cn_text(MessageId::ViewToggleFocusReporting).len() > 0,
        has_count_placeholder(zh_cn_text(MessageId::ViewToggleFocusReporting)) == has_count_placeholder(
            en_us_text(MessageId::ViewToggleFocusReporting),
        ),
{
    reveal_strlit("切换焦点上报");
    reveal_strlit("Toggle Focus Reporting");
    assert(has_no_brace("切换焦点上报"@));
    assert(has_no_brace("Toggle Focus Reporting"@));
    lemma_no_brace_no_placeholder("切换焦点上报"@);
    lemma_no_brace_no_placeholder("Toggle Focus Reporting"@);
}

proof fn lemma_message_view_compact_mode()
    ensures
        zh_cn_text(MessageId::ViewCompactMode).len() > 0,
        has_count_placeholder(zh_cn_text(MessageId::ViewCompactMode)) == has_count_placeholder(
            en_us_text(MessageId::ViewCompactMode),
        ),
{
    reveal_strlit("紧凑模式");
    reveal_strlit("Compact Mode");
    assert(has_no_brace("紧凑模式"@));
    assert(has_no_brace("Compact Mode"@));
    lemma_no_brace_no_placeholder("紧凑模式"@);
    lemma_no_brace_no_placeholder("Compact Mode"@);
}

proof fn lemma_message_help_send_feedback()
    ensures
        zh_cn_text(MessageId::HelpSendFeedback).len() > 0,
        has_count_placeholder(zh_cn_text(MessageId::HelpSendFeedback)) == has_count_placeholder(
            en_us_text(MessageId::HelpSendFeedback),
        ),
{
    reveal_strlit("发送反馈...");
    reveal_strlit("Send Feedback...");
    assert(has_no_brace("发送反馈..."@));
    assert(has_no_brace("Send Feedback..."@));
    lemma_no_brace_no_placeholder("发送反馈..."@);
    lemma_no_brace_no_placeholder("Send Feedback..."@);
}

proof fn lemma_message_help_warp_documentation()
    ensures
        zh_cn_text(MessageId::HelpWarpDocumentation).len() > 0,
        has_count_placeholder(zh_cn_text(MessageId::HelpWarpDocumentation)) == has_count_placeholder(
            en_us_text(MessageId::HelpWarpDocumentation),
        ),
{
    reveal_strlit("Warp 文档...");
    reveal_strlit("Warp Documentation...");
    assert(has_no_brace("Warp 文档..."@));
    assert(has_no_brace("Warp Documentation..."@));
    lemma_no_brace_no_placeholder("Warp 文档..."@);
    lemma_no_brace_no_placeholder("Warp Documentation..."@);
}

proof fn lemma_message_help_git_hub_issues()
    ensures
        zh_cn_text(MessageId::HelpGitHubIssues).len() > 0,
        has_count_placeholder(zh_cn_text(MessageId::HelpGitHubIssues)) == has_count_placeholder(
            en_us_text(MessageId::HelpGitHubIssues),
        ),
{
    reveal_strlit("GitHub Issues...");
    reveal_strlit("GitHub Issues...");
    assert(has_no_brace("GitHub Issues..."@));
    assert(has_no_brace("GitHub Issues..."@));
    lemma_no_brace_no_placeholder("GitHub Issues..."@);
    lemma_no_brace_no_placeholder("GitHub Issues..."@);
}

proof fn lemma_message_help_warp_slack_community()
    ensures
        zh_cn_text(MessageId::HelpWarpSlackCommunity).len() > 0,
        has_count_placeholder(zh_cn_text(MessageId::HelpWarpSlackCommunity)) == has_count_placeholder(
            en_us_text(MessageId::HelpWarpSlackCommunity),
        ),
{
    reveal_strlit("Warp Slack 社区...");
    reveal_strlit("Warp Slack Community...");
    assert(has_no_brace("Warp Slack 社区..."@));
    assert(has_no_brace("Warp Slack Community..."@));
    lemma_no_brace_no_placeholder("Warp Slack 社区..."@);
    lemma_no_brace_no_placeholder("Warp Slack Community..."@);
}

proof fn lemma_message_dock_new_window()
    ensures
        zh_cn_text(MessageId::DockNewWindow).len() > 0,
        has_count_placeholder(zh_cn_text(MessageId::DockNewWindow)) == has_count_placeholder(
            en_us_text(MessageId::DockNewWindow),
        ),
{
    reveal_strlit("新建窗口");
    reveal_strlit("New Window");
    assert(has_no_brace("新建窗口"@));
    assert(has_no_brace("New Window"@));
    lemma_no_brace_no_placeholder("新建窗口"@);
    lemma_no_brace_no_placeholder("New Window"@);
}

proof fn lemma_message_debug_enable_shell_debug_mode()
    ensures
        zh_cn_text(MessageId::DebugEnableShellDebugMode).len() > 0,
        has_count_placeholder(zh_cn_text(MessageId::DebugEnableShellDebugMode)) == has_count_placeholder(
            en_us_text(MessageId::DebugEnableShellDebugMode),
        ),
{
    reveal_strlit("为新会话启用 Shell 调试模式 (-x)");
    reveal_strlit("Enable Shell Debug Mode (-x) for New Sessions");
    assert(has_no_brace("为新会话启用 Shell 调试模式 (-x)"@));
    assert(has_no_brace("Enable Shell Debug Mode (-x) for New Sessions"@));
    lemma_no_brace_no_placeholder("为新会话启用 Shell 调试模式 (-x)"@);
    lemma_no_brace_no_placeholder("Enable Shell Debug Mode (-x) for New Sessions"@);
}

proof fn lemma_message_debug_disable_shell_debug_mode()
    ensures
        zh_cn_text(MessageId::DebugDisableShellDebugMode).len() > 0,
        has_count_placeholder(zh_cn_text(MessageId::DebugDisableShellDebugMode)) == has_count_placeholder(
            en_us_text(MessageId::DebugDisableShellDebugMode),
        ),
{
    reveal_strlit("为新会话禁用 Shell 调试模式 (-x)");
    reveal_strlit("Disable Shell Debug Mode (-x) for New Sessions");
    assert(has_no_brace("为新会话禁用 Shell 调试模式 (-x)"@));
    assert(has_no_brace("Disable Shell Debug Mode (-x) for New Sessions"@));
    lemma_no_brace_no_placeholder("为新会话禁用 Shell 调试模式 (-x)"@);
    lemma_no_brace_no_placeholder("Disable Shell Debug Mode (-x) for New Sessions"@);
}

proof fn lemma_message_debug_enable_in_band_generators()
    ensures
        zh_cn_text(MessageId::DebugEnableInBandGenerators).len() > 0,
        has_count_placeholder(zh_cn_text(MessageId::DebugEnableInBandGenerators)) == has_count_placeholder(
            en_us_text(MessageId::DebugEnableInBandGenerators),
        ),
{
    reveal_strlit("为新会话启用带内生成器");
    reveal_strlit("Enable In-band Generators for New Sessions");
    assert(has_no_brace("为新会话启用带内生成器"@));
    assert(has_no_brace("Enable In-band Generators for New Sessions"@));
    lemma_no_brace_no_placeholder("为新会话启用带内生成器"@);
    lemma_no_brace_no_placeholder("Enable In-band Generators for New Sessions"@);
}

proof fn lemma_message_debug_disable_in_band_generators()
    ensures
        zh_cn_text(MessageId::DebugDisableInBandGenerators).len() > 0,
        has_count_placeholder(zh_cn_text(MessageId::DebugDisableInBandGenerators)) == has_count_placeholder(
            en_us_text(MessageId::DebugDisableInBandGenerators),
        ),
{
    reveal_strlit("为新会话禁用带内生成器");
    reveal_strlit("Disable in-band generators for new sessions");
    assert(has_no_brace("为新会话禁用带内生成器"@));
    assert(has_no_brace("Disable in-band generators for new sessions"@));
    lemma_no_brace_no_placeholder("为新会话禁用带内生成器"@);
    lemma_no_brace_no_placeholder("Disable in-band generators for new sessions"@);
}

proof fn lemma_message_debug_enable_pty_recording()
    ensures
        zh_cn_text(MessageId::DebugEnablePtyRecording).len() > 0,
        has_count_placeholder(zh_cn_text(MessageId::DebugEnablePtyRecording)) == has_count_placeholder(
            en_us_text(MessageId::DebugEnablePtyRecording),
        ),
{
    reveal_strlit("启用 PTY 录制模式 (warp.pty.recording)");
    reveal_strlit("Enable PTY Recording Mode (warp.pty.recording)");
    assert(has_no_brace("启用 PTY 录制模式 (warp.pty.recording)"@));
    assert(has_no_brace("Enable PTY Recording Mode (warp.pty.recording)"@));
    lemma_no_brace_no_placeholder("启用 PTY 录制模式 (warp.pty.recording)"@);
    lemma_no_brace_no_placeholder("Enable PTY Recording Mode (warp.pty.recording)"@);
}

proof fn lemma_message_debug_disable_pty_recording()
    ensures
        zh_cn_text(MessageId::DebugDisablePtyRecording).len() > 0,
        has_count_placeholder(zh_cn_text(MessageId::DebugDisablePtyRecording)) == has_count_placeholder(
            en_us_text(MessageId::DebugDisablePtyRecording),
        ),
{
    reveal_strlit("禁用 PTY 录制模式 (warp.pty.recording)");
    reveal_strlit("Disable PTY Recording Mode (warp.pty.recording)");
    assert(has_no_brace("禁用 PTY 录制模式 (warp.pty.recording)"@));
    assert(has_no_brace("Disable PTY Recording Mode (warp.pty.recording)"@));
    lemma_no_brace_no_placeholder("禁用 PTY 录制模式 (warp.pty.recording)"@);
    lemma_no_brace_no_placeholder("Disable PTY Recording Mode (warp.pty.recording)"@);
}

proof fn lemma_message_debug_show_bootstrap_block()
    ensures
        zh_cn_text(MessageId::DebugShowBootstrapBlock).len() > 0,
        has_count_placeholder(zh_cn_text(MessageId::DebugShowBootstrapBlock)) == has_count_placeholder(
            en_us_text(MessageId::DebugShowBootstrapBlock),
        ),
{
    reveal_strlit("显示初始化块");
    reveal_strlit("Show Initialization Block");
    assert(has_no_brace("显示初始化块"@));
    assert(has_no_brace("Show Initialization Block"@));
    lemma_no_brace_no_placeholder("显示初始化块"@);
    lemma_no_brace_no_placeholder("Show Initialization Block"@);
}

proof fn lemma_message_debug_hide_bootstrap_block()
    ensures
        zh_cn_text(MessageId::DebugHideBootstrapBlock).len() > 0,
        has_count_placeholder(zh_cn_text(MessageId::DebugHideBootstrapBlock)) == has_count_placeholder(
            en_us_text(MessageId::DebugHideBootstrapBlock),
        ),
{
    reveal_strlit("隐藏初始化块");
    reveal_strlit("Hide Initialization Block");
    assert(has_no_brace("隐藏初始化块"@));
    assert(has_no_brace("Hide Initialization Block"@));
    lemma_no_brace_no_placeholder("隐藏初始化块"@);
    lemma_no_brace_no_placeholder("Hide Initialization Block"@);
}

proof fn lemma_message_debug_show_in_band_command_blocks()
    ensures
        zh_cn_text(MessageId::DebugShowInBandCommandBlocks).len() > 0,
        has_count_placeholder(zh_cn_text(MessageId::DebugShowInBandCommandBlocks)) == has_count_placeholder(
            en_us_text(MessageId::DebugShowInBandCommandBlocks),
        ),
{
    reveal_strlit("显示带内命令块");
    reveal_strlit("Show In-band Command Blocks");
    assert(has_no_brace("显示带内命令块"@));
    assert(has_no_brace("Show In-band Command Blocks"@));
    lemma_no_brace_no_placeholder("显示带内命令块"@);
    lemma_no_brace_no_placeholder("Show In-band Command Blocks"@);
}

proof fn lemma_message_debug_hide_in_band_command_blocks()
    ensures
        zh_cn_text(MessageId::DebugHideInBandCommandBlocks).len() > 0,
        has_count_placeholder(zh_cn_text(MessageId::DebugHideInBandCommandBlocks)) == has_count_placeholder(
            en_us_text(MessageId::DebugHideInBandCommandBlocks),
        ),
{
    reveal_strlit("隐藏带内命令块");
    reveal_strlit("Hide In-band Command Blocks");
    assert(has_no_brace("隐藏带内命令块"@));
    assert(has_no_brace("Hide In-band Command Blocks"@));
    lemma_no_brace_no_placeholder("隐藏带内命令块"@);
    lemma_no_brace_no_placeholder("Hide In-band Command Blocks"@);
}

proof fn lemma_message_debug_show_ssh_blocks()
    ensures
        zh_cn_text(MessageId::DebugShowSshBlocks).len() > 0,
        has_count_placeholder(zh_cn_text(MessageId::DebugShowSshBlocks)) == has_count_placeholder(
            en_us_text(MessageId::DebugShowSshBlocks),
        ),
{
    reveal_strlit("显示 Warp 化的 SSH 块");
    reveal_strlit("Show Warpified SSH Blocks");
    assert(has_no_brace("显示 Warp 化的 SSH 块"@));
    assert(has_no_brace("Show Warpified SSH Blocks"@));
    lemma_no_brace_no_placeholder("显示 Warp 化的 SSH 块"@);
    lemma_no_brace_no_placeholder("Show Warpified SSH Blocks"@);
}

proof fn lemma_message_debug_hide_ssh_blocks()
    ensures
        zh_cn_text(MessageId::DebugHideSshBlocks).len() > 0,
        has_count_placeholder(zh_cn_text(MessageId::DebugHideSshBlocks)) == has_count_placeholder(
            en_us_text(MessageId::DebugHideSshBlocks),
        ),
{
    reveal_strlit("隐藏 Warp 化的 SSH 块");
    reveal_strlit("Hide Warpified SSH Blocks");
    assert(has_no_brace("隐藏 Warp 化的 SSH 块"@));
    assert(has_no_brace("Hide Warpified SSH Blocks"@));
    lemma_no_brace_no_placeholder("隐藏 Warp 化的 SSH 块"@);
    lemma_no_brace_no_placeholder("Hide Warpified SSH Blocks"@);
}

proof fn lemma_message_debug_export_default_settings_csv()
    ensures
        zh_cn_text(MessageId::DebugExportDefaultSettingsCsv).len() > 0,
        has_count_placeholder(zh_cn_text(MessageId::DebugExportDefaultSettingsCsv)) == has_count_placeholder(
            en_us_text(MessageId::DebugExportDefaultSettingsCsv),
        ),
{
    reveal_strlit("将默认设置导出为 CSV 到主目录");
    reveal_strlit("Export Default Settings as CSV to home dir");
    assert(has_no_brace("将默认设置导出为 CSV 到主目录"@));
    assert(has_no_brace("Export Default Settings as CSV to home dir"@));
    lemma_no_brace_no_placeholder("将默认设置导出为 CSV 到主目录"@);
    lemma_no_brace_no_placeholder("Export Default Settings as CSV to home dir"@);
}

proof fn lemma_message_debug_toggle_network_status()
    ensures
        zh_cn_text(MessageId::DebugToggleNetworkStatus).len() > 0,
        has_count_placeholder(zh_cn_text(MessageId::DebugToggleNetworkStatus)) == has_count_placeholder(
            en_us_text(MessageId::DebugToggleNetworkStatus),
        ),
{
    reveal_strlit("手动切换网络状态");
    reveal_strlit("Manually Toggle Network Status");
    assert(has_no_brace("手动切换网络状态"@));
    assert(has_no_brace("Manually Toggle Network Status"@));
    lemma_no_brace_no_placeholder("手动切换网络状态"@);
    lemma_no_brace_no_placeholder("Manually Toggle Network Status"@);
}

proof fn lemma_message_debug_create_anonymous_user()
    ensures
        zh_cn_text(MessageId::DebugCreateAnonymousUser).len() > 0,
        has_count_placeholder(zh_cn_text(MessageId::DebugCreateAnonymousUser)) == has_count_placeholder(
            en_us_text(MessageId::DebugCreateAnonymousUser),
        ),
{
    reveal_strlit("创建匿名用户");
    reveal_strlit("Create anonymous user");
    assert(has_no_brace("创建匿名用户"@));
    assert(has_no_brace("Create anonymous user"@));
    lemma_no_brace_no_placeholder("创建匿名用户"@);
    lemma_no_brace_no_placeholder("Create anonymous user"@);
}

proof fn lemma_message_edit_undo()
    ensures
        zh_cn_text(MessageId::EditUndo).len() > 0,
        has_count_placeholder(zh_cn_text(MessageId::EditUndo)) == has_count_placeholder(
            en_us_text(MessageId::EditUndo),
        ),
{
    reveal_strlit("撤销");
    reveal_strlit("Undo");
    assert(has_no_brace("撤销"@));
    assert(has_no_brace("Undo"@));
    lemma_no_brace_no_placeholder("撤销"@);
    lemma_no_brace_no_placeholder("Undo"@);
}

proof fn lemma_message_edit_redo()
    ensures
        zh_cn_text(MessageId::EditRedo).len() > 0,
        has_count_placeholder(zh_cn_text(MessageId::EditRedo)) == has_count_placeholder(
            en_us_text(MessageId::EditRedo),
        ),
{
    reveal_strlit("重做");
    reveal_strlit("Redo");
    assert(has_no_brace("重做"@));
    assert(has_no_brace("Redo"@));
    lemma_no_brace_no_placeholder("重做"@);
    lemma_no_brace_no_placeholder("Redo"@);
}

proof fn lemma_message_edit_cut()
    ensures
        zh_cn_text(MessageId::EditCut).len() > 0,
        has_count_placeholder(zh_cn_text(MessageId::EditCut)) == has_count_placeholder(
            en_us_text(MessageId::EditCut),
        ),
{
    reveal_strlit("剪切");
    reveal_strlit("Cut");
    assert(has_no_brace("剪切"@));
    assert(has_no_brace("Cut"@));
    lemma_no_brace_no_placeholder("剪切"@);
    lemma_no_brace_no_placeholder("Cut"@);
}

proof fn lemma_message_edit_copy()
    ensures
        zh_cn_text(MessageId::EditCopy).len() > 0,
        has_count_placeholder(zh_cn_text(MessageId::EditCopy)) == has_count_placeholder(
            en_us_text(MessageId::EditCopy),
        ),
{
    reveal_strlit("复制");
    reveal_strlit("Copy");
    assert(has_no_brace("复制"@));
    assert(has_no_brace("Copy"@));
    lemma_no_brace_no_placeholder("复制"@);
    lemma_no_brace_no_placeholder("Copy"@);
}

proof fn lemma_message_edit_paste()
    ensures
        zh_cn_text(MessageId::EditPaste).len() > 0,
        has_count_placeholder(zh_cn_text(MessageId::EditPaste)) == has_count_placeholder(
            en_us_text(MessageId::EditPaste),
        ),
{
    reveal_strlit("粘贴");
    reveal_strlit("Paste");
    assert(has_no_brace("粘贴"@));
    assert(has_no_brace("Paste"@));
    lemma_no_brace_no_placeholder("粘贴"@);
    lemma_no_brace_no_placeholder("Paste"@);
}

proof fn lemma_message_edit_select_all()
    ensures
        zh_cn_text(MessageId::EditSelectAll).len() > 0,
        has_count_placeholder(zh_cn_text(MessageId::EditSelectAll)) == has_count_placeholder(
            en_us_text(MessageId::EditSelectAll),
        ),
{
    reveal_strlit("全选");
    reveal_strlit("Select All");
    assert(has_no_brace("全选"@));
    assert(has_no_brace("Select All"@));
    lemma_no_brace_no_placeholder("全选"@);
    lemma_no_brace_no_placeholder("Select All"@);
}

proof fn lemma_message_edit_clear_editor()
    ensures
        zh_cn_text(MessageId::EditClearEditor).len() > 0,
        has_count_placeholder(zh_cn_text(MessageId::EditClearEditor)) == has_count_placeholder(
            en_us_text(MessageId::EditClearEditor),
        ),
{
    reveal_strlit("清除编辑器");
    reveal_strlit("Clear Editor");
    assert(has_no_brace("清除编辑器"@));
    assert(has_no_brace("Clear Editor"@));
    lemma_no_brace_no_placeholder("清除编辑器"@);
    lemma_no_brace_no_placeholder("Clear Editor"@);
}

proof fn lemma_message_edit_find()
    ensures
        zh_cn_text(MessageId::EditFind).len() > 0,
        has_count_placeholder(zh_cn_text(MessageId::EditFind)) == has_count_placeholder(
            en_us_text(MessageId::EditFind),
        ),
{
    reveal_strlit("在终端中查找");
    reveal_strlit("Find in Terminal");
    assert(has_no_brace("在终端中查找"@));
    assert(has_no_brace("Find in Terminal"@));
    lemma_no_brace_no_placeholder("在终端中查找"@);
    lemma_no_brace_no_placeholder("Find in Terminal"@);
}

proof fn lemma_message_edit_go_to_line()
    ensures
        zh_cn_text(MessageId::EditGoToLine).len() > 0,
        has_count_placeholder(zh_cn_text(MessageId::EditGoToLine)) == has_count_placeholder(
            en_us_text(MessageId::EditGoToLine),
        ),
{
    reveal_strlit("跳转到行");
    reveal_strlit("Go to Line");
    assert(has_no_brace("跳转到行"@));
    assert(has_no_brace("Go to Line"@));
    lemma_no_brace_no_placeholder("跳转到行"@);
    lemma_no_brace_no_placeholder("Go to Line"@);
}

proof fn lemma_message_edit_focus_input()
    ensures
        zh_cn_text(MessageId::EditFocusInput).len() > 0,
        has_count_placeholder(zh_cn_text(MessageId::EditFocusInput)) == has_count_placeholder(
            en_us_text(MessageId::EditFocusInput),
        ),
{
    reveal_strlit("聚焦输入");
    reveal_strlit("Focus Input");
    assert(has_no_brace("聚焦输入"@));
    assert(has_no_brace("Focus Input"@));
    lemma_no_brace_no_placeholder("聚焦输入"@);
    lemma_no_brace_no_placeholder("Focus Input"@);
}

proof fn lemma_message_edit_add_next_occurrence()
    ensures
        zh_cn_text(MessageId::EditAddNextOccurrence).len() > 0,
        has_count_placeholder(zh_cn_text(MessageId::EditAddNextOccurrence)) == has_count_placeholder(
            en_us_text(MessageId::EditAddNextOccurrence),
        ),
{
    reveal_strlit("添加下一个匹配项");
    reveal_strlit("Add Next Occurrence");
    assert(has_no_brace("添加下一个匹配项"@));
    assert(has_no_brace("Add Next Occurrence"@));
    lemma_no_brace_no_placeholder("添加下一个匹配项"@);
    lemma_no_brace_no_placeholder("Add Next Occurrence"@);
}

proof fn lemma_message_edit_add_cursor_above()
    ensures
        zh_cn_text(MessageId::EditAddCursorAbove).len() > 0,
        has_count_placeholder(zh_cn_text(MessageId::EditAddCursorAbove)) == has_count_placeholder(
            en_us_text(MessageId::EditAddCursorAbove),
        ),
{
    reveal_strlit("在上方添加光标");
    reveal_strlit("Add Cursor Above");
    assert(has_no_brace("在上方添加光标"@));
    assert(has_no_brace("Add Cursor Above"@));
    lemma_no_brace_no_placeholder("在上方添加光标"@);
    lemma_no_brace_no_placeholder("Add Cursor Above"@);
}

proof fn lemma_message_edit_add_cursor_below()
    ensures
        zh_cn_text(MessageId::EditAddCursorBelow).len() > 0,
        has_count_placeholder(zh_cn_text(MessageId::EditAddCursorBelow)) == has_count_placeholder(
            en_us_text(MessageId::EditAddCursorBelow),
        ),
{
    reveal_strlit("在下方添加光标");
    reveal_strlit("Add Cursor Below");
    assert(has_no_brace("在下方添加光标"@));
    assert(has_no_brace("Add Cursor Below"@));
    lemma_no_brace_no_placeholder("在下方添加光标"@);
    lemma_no_brace_no_placeholder("Add Cursor Below"@);
}

proof fn lemma_message_view_command_palette()
    ensures
        zh_cn_text(MessageId::ViewCommandPalette).len() > 0,
        has_count_placeholder(zh_cn_text(MessageId::ViewCommandPalette)) == has_count_placeholder(
            en_us_text(MessageId::ViewCommandPalette),
        ),
{
    reveal_strlit("命令面板");
    reveal_strlit("Command Palette");
    assert(has_no_brace("命令面板"@));
    assert(has_no_brace("Command Palette"@));
    lemma_no_brace_no_placeholder("命令面板"@);
    lemma_no_brace_no_placeholder("Command Palette"@);
}

proof fn lemma_message_view_navigation_palette()
    ensures
        zh_cn_text(MessageId::ViewNavigationPalette).len() > 0,
        has_count_placeholder(zh_cn_text(MessageId::ViewNavigationPalette)) == has_count_placeholder(
            en_us_text(MessageId::ViewNavigationPalette),
        ),
{
    reveal_strlit("导航面板");
    reveal_strlit("Navigation Palette");
    assert(has_no_brace("导航面板"@));
    assert(has_no_brace("Navigation Palette"@));
    lemma_no_brace_no_placeholder("导航面板"@);
    lemma_no_brace_no_placeholder("Navigation Palette"@);
}

proof fn lemma_message_view_launch_config_palette()
    ensures
        zh_cn_text(MessageId::ViewLaunchConfigPalette).len() > 0,
        has_count_placeholder(zh_cn_text(MessageId::ViewLaunchConfigPalette)) == has_count_placeholder(
            en_us_text(MessageId::ViewLaunchConfigPalette),
        ),
{
    reveal_strlit("启动配置面板");
    reveal_strlit("Launch Configuration Palette");
    assert(has_no_brace("启动配置面板"@));
    assert(has_no_brace("Launch Configuration Palette"@));
    lemma_no_brace_no_placeholder("启动配置面板"@);
    lemma_no_brace_no_placeholder("Launch Configuration Palette"@);
}

proof fn lemma_message_view_files_palette()
    ensures
        zh_cn_text(MessageId::ViewFilesPalette).len() > 0,
        has_count_placeholder(zh_cn_text(MessageId::ViewFilesPalette)) == has_count_placeholder(
            en_us_text(MessageId::ViewFilesPalette),
        ),
{
    reveal_strlit("文件面板");
    reveal_strlit("Files Palette");
    assert(has_no_brace("文件面板"@));
    assert(has_no_brace("Files Palette"@));
    lemma_no_brace_no_placeholder("文件面板"@);
    lemma_no_brace_no_placeholder("Files Palette"@);
}

proof fn lemma_message_view_toggle_conversation_list()
    ensures
        zh_cn_text(MessageId::ViewToggleConversationList).len() > 0,
        has_count_placeholder(zh_cn_text(MessageId::ViewToggleConversationList)) == has_count_placeholder(
            en_us_text(MessageId::ViewToggleConversationList),
        ),
{
    reveal_strlit("切换对话列表");
    reveal_strlit("Toggle Conversation List");
    assert(has_no_brace("切换对话列表"@));
    assert(has_no_brace("Toggle Conversation List"@));
    lemma_no_brace_no_placeholder("切换对话列表"@);
    lemma_no_brace_no_placeholder("Toggle Conversation List"@);
}

proof fn lemma_message_view_toggle_project_explorer()
    ensures
        zh_cn_text(MessageId::ViewToggleProjectExplorer).len() > 0,
        has_count_placeholder(zh_cn_text(MessageId::ViewToggleProjectExplorer)) == has_count_placeholder(
            en_us_text(MessageId::ViewToggleProjectExplorer),
        ),
{
    reveal_strlit("切换项目浏览器");
    reveal_strlit("Toggle Project Explorer");
    assert(has_no_brace("切换项目浏览器"@));
    assert(has_no_brace("Toggle Project Explorer"@));
    lemma_no_brace_no_placeholder("切换项目浏览器"@);
    lemma_no_brace_no_placeholder("Toggle Project Explorer"@);
}

proof fn lemma_message_view_toggle_global_search()
    ensures
        zh_cn_text(MessageId::ViewToggleGlobalSearch).len() > 0,
        has_count_placeholder(zh_cn_text(MessageId::ViewToggleGlobalSearch)) == has_count_placeholder(
            en_us_text(MessageId::ViewToggleGlobalSearch),
        ),
{
    reveal_strlit("切换全局搜索");
    reveal_strlit("Toggle Global Search");
    assert(has_no_brace("切换全局搜索"@));
    assert(has_no_brace("Toggle Global Search"@));
    lemma_no_brace_no_placeholder("切换全局搜索"@);
    lemma_no_brace_no_placeholder("Toggle Global Search"@);
}

proof fn lemma_message_view_history()
    ensures
        zh_cn_text(MessageId::ViewHistory).len() > 0,
        has_count_placeholder(zh_cn_text(MessageId::ViewHistory)) == has_count_placeholder(
            en_us_text(MessageId::ViewHistory),
        ),
{
    reveal_strlit("历史记录");
    reveal_strlit("History");
    assert(has_no_brace("历史记录"@));
    assert(has_no_brace("History"@));
    lemma_no_brace_no_placeholder("历史记录"@);
    lemma_no_brace_no_placeholder("History"@);
}

proof fn lemma_message_view_command_search()
    ensures
        zh_cn_text(MessageId::ViewCommandSearch).len() > 0,
        has_count_placeholder(zh_cn_text(MessageId::ViewCommandSearch)) == has_count_placeholder(
            en_us_text(MessageId::ViewCommandSearch),
        ),
{
    reveal_strlit("命令搜索");
    reveal_strlit("Command Search");
    assert(has_no_brace("命令搜索"@));
    assert(has_no_brace("Command Search"@));
    lemma_no_brace_no_placeholder("命令搜索"@);
    lemma_no_brace_no_placeholder("Command Search"@);
}

proof fn lemma_message_view_workflows()
    ensures
        zh_cn_text(MessageId::ViewWorkflows).len() > 0,
        has_count_placeholder(zh_cn_text(MessageId::ViewWorkflows)) == has_count_placeholder(
            en_us_text(MessageId::ViewWorkflows),
        ),
{
    reveal_strlit("工作流");
    reveal_strlit("Workflows");
    assert(has_no_brace("工作流"@));
    assert(has_no_brace("Workflows"@));
    lemma_no_brace_no_placeholder("工作流"@);
    lemma_no_brace_no_placeholder("Workflows"@);
}

proof fn lemma_message_view_increase_font_size()
    ensures
        zh_cn_text(MessageId::ViewIncreaseFontSize).len() > 0,
        has_count_placeholder(zh_cn_text(MessageId::ViewIncreaseFontSize)) == has_count_placeholder(
            en_us_text(MessageId::ViewIncreaseFontSize),
        ),
{
    reveal_strlit("增大字体");
    reveal_strlit("Increase Font Size");
    assert(has_no_brace("增大字体"@));
    assert(has_no_brace("Increase Font Size"@));
    lemma_no_brace_no_placeholder("增大字体"@);
    lemma_no_brace_no_placeholder("Increase Font Size"@);
}

proof fn lemma_message_view_decrease_font_size()
    ensures
        zh_cn_text(MessageId::ViewDecreaseFontSize).len() > 0,
        has_count_placeholder(zh_cn_text(MessageId::ViewDecreaseFontSize)) == has_count_placeholder(
            en_us_text(MessageId::ViewDecreaseFontSize),
        ),
{
    reveal_strlit("减小字体");
    reveal_strlit("Decrease Font Size");
    assert(has_no_brace("减小字体"@));
    assert(has_no_brace("Decrease Font Size"@));
    lemma_no_brace_no_placeholder("减小字体"@);
    lemma_no_brace_no_placeholder("Decrease Font Size"@);
}

proof fn lemma_message_view_reset_font_size()
    ensures
        zh_cn_text(MessageId::ViewResetFontSize).len() > 0,
        has_count_placeholder(zh_cn_text(MessageId::ViewResetFontSize)) == has_count_placeholder(
            en_us_text(MessageId::ViewResetFontSize),
        ),
{
    reveal_strlit("重置字体大小");
    reveal_strlit("Reset Font Size");
    assert(has_no_brace("重置字体大小"@));
    assert(has_no_brace("Reset Font Size"@));
    lemma_no_brace_no_placeholder("重置字体大小"@);
    lemma_no_brace_no_placeholder("Reset Font Size"@);
}

proof fn lemma_message_view_increase_zoom()
    ensures
        zh_cn_text(MessageId::ViewIncreaseZoom).len() > 0,
        has_count_placeholder(zh_cn_text(MessageId::ViewIncreaseZoom)) == has_count_placeholder(
            en_us_text(MessageId::ViewIncreaseZoom),
        ),
{
    reveal_strlit("放大");
    reveal_strlit("Increase Zoom");
    assert(has_no_brace("放大"@));
    assert(has_no_brace("Increase Zoom"@));
    lemma_no_brace_no_placeholder("放大"@);
    lemma_no_brace_no_placeholder("Increase Zoom"@);
}

proof fn lemma_message_view_decrease_zoom()
    ensures
        zh_cn_text(MessageId::ViewDecreaseZoom).len() > 0,
        has_count_placeholder(zh_cn_text(MessageId::ViewDecreaseZoom)) == has_count_placeholder(
            en_us_text(MessageId::ViewDecreaseZoom),
        ),
{
    reveal_strlit("缩小");
    reveal_strlit("Decrease Zoom");
    assert(has_no_brace("缩小"@));
    assert(has_no_brace("Decrease Zoom"@));
    lemma_no_brace_no_placeholder("缩小"@);
    lemma_no_brace_no_placeholder("Decrease Zoom"@);
}

proof fn lemma_message_view_reset_zoom()
    ensures
        zh_cn_text(MessageId::ViewResetZoom).len() > 0,
        has_count_placeholder(zh_cn_text(MessageId::ViewResetZoom)) == has_count_placeholder(
            en_us_text(MessageId::ViewResetZoom),
        ),
{
    reveal_strlit("重置缩放");
    reveal_strlit("Reset Zoom");
    assert(has_no_brace("重置缩放"@));
    assert(has_no_brace("Reset Zoom"@));
    lemma_no_brace_no_placeholder("重置缩放"@);
    lemma_no_brace_no_placeholder("Reset Zoom"@);
}

proof fn lemma_message_view_toggle_warp_drive()
    ensures
        zh_cn_text(MessageId::ViewToggleWarpDrive).len() > 0,
        has_count_placeholder(zh_cn_text(MessageId::ViewToggleWarpDrive)) == has_count_placeholder(
            en_us_text(MessageId::ViewToggleWarpDrive),
        ),
{
    reveal_strlit("切换 Warp Drive");
    reveal_strlit("Toggle Warp Drive");
    assert(has_no_brace("切换 Warp Drive"@));
    assert(has_no_brace("Toggle Warp Drive"@));
    lemma_no_brace_no_placeholder("切换 Warp Drive"@);
    lemma_no_brace_no_placeholder("Toggle Warp Drive"@);
}

proof fn lemma_message_tab_rename()
    ensures
        zh_cn_text(MessageId::TabRename).len() > 0,
        has_count_placeholder(zh_cn_text(MessageId::TabRename)) == has_count_placeholder(
            en_us_text(MessageId::TabRename),
        ),
{
    reveal_strlit("重命名标签页");
    reveal_strlit("Rename Tab");
    assert(has_no_brace("重命名标签页"@));
    assert(has_no_brace("Rename Tab"@));
    lemma_no_brace_no_placeholder("重命名标签页"@);
    lemma_no_brace_no_placeholder("Rename Tab"@);
}

proof fn lemma_message_tab_split_right()
    ensures
        zh_cn_text(MessageId::TabSplitRight).len() > 0,
        has_count_placeholder(zh_cn_text(MessageId::TabSplitRight)) == has_count_placeholder(
            en_us_text(MessageId::TabSplitRight),
        ),
{
    reveal_strlit("向右分屏");
    reveal_strlit("Split Right");
    assert(has_no_brace("向右分屏"@));
    assert(has_no_brace("Split Right"@));
    lemma_no_brace_no_placeholder("向右分屏"@);
    lemma_no_brace_no_placeholder("Split Right"@);
}

proof fn lemma_message_tab_split_left()
    ensures
        zh_cn_text(MessageId::TabSplitLeft).len() > 0,
        has_count_placeholder(zh_cn_text(MessageId::TabSplitLeft)) == has_count_placeholder(
            en_us_text(MessageId::TabSplitLeft),
        ),
{
    reveal_strlit("向左分屏");
    reveal_strlit("Split Left");
    assert(has_no_brace("向左分屏"@));
    assert(has_no_brace("Split Left"@));
    lemma_no_brace_no_placeholder("向左分屏"@);
    lemma_no_brace_no_placeholder("Split Left"@);
}

proof fn lemma_message_tab_split_down()
    ensures
        zh_cn_text(MessageId::TabSplitDown).len() > 0,
        has_count_placeholder(zh_cn_text(MessageId::TabSplitDown)) == has_count_placeholder(
            en_us_text(MessageId::TabSplitDown),
        ),
{
    reveal_strlit("向下分屏");
    reveal_strlit("Split Down");
    assert(has_no_brace("向下分屏"@));
    assert(has_no_brace("Split Down"@));
    lemma_no_brace_no_placeholder("向下分屏"@);
    lemma_no_brace_no_placeholder("Split Down"@);
}

proof fn lemma_message_tab_split_up()
    ensures
        zh_cn_text(MessageId::TabSplitUp).len() > 0,
        has_count_placeholder(zh_cn_text(MessageId::TabSplitUp)) == has_count_placeholder(
            en_us_text(MessageId::TabSplitUp),
        ),
{
    reveal_strlit("向上分屏");
    reveal_strlit("Split Up");
    assert(has_no_brace("向上分屏"@));
    assert(has_no_brace("Split Up"@));
    lemma_no_brace_no_placeholder("向上分屏"@);
    lemma_no_brace_no_placeholder("Split Up"@);
}

proof fn lemma_message_tab_move_left()
    ensures
        zh_cn_text(MessageId::TabMoveLeft).len() > 0,
        has_count_placeholder(zh_cn_text(MessageId::TabMoveLeft)) == has_count_placeholder(
            en_us_text(MessageId::TabMoveLeft),
        ),
{
    reveal_strlit("向左移动标签页");
    reveal_strlit("Move Tab Left");
    assert(has_no_brace("向左移动标签页"@));
    assert(has_no_brace("Move Tab Left"@));
    lemma_no_brace_no_placeholder("向左移动标签页"@);
    lemma_no_brace_no_placeholder("Move Tab Left"@);
}

proof fn lemma_message_tab_move_right()
    ensures
        zh_cn_text(MessageId::TabMoveRight).len() > 0,
        has_count_placeholder(zh_cn_text(MessageId::TabMoveRight)) == has_count_placeholder(
            en_us_text(MessageId::TabMoveRight),
        ),
{
    reveal_strlit("向右移动标签页");
    reveal_strlit("Move Tab Right");
    assert(has_no_brace("向右移动标签页"@));
    assert(has_no_brace("Move Tab Right"@));
    lemma_no_brace_no_placeholder("向右移动标签页"@);
    lemma_no_brace_no_placeholder("Move Tab Right"@);
}

proof fn lemma_message_tab_cycle_next()
    ensures
        zh_cn_text(MessageId::TabCycleNext).len() > 0,
        has_count_placeholder(zh_cn_text(MessageId::TabCycleNext)) == has_count_placeholder(
            en_us_text(MessageId::TabCycleNext),
        ),
{
    reveal_strlit("下一个标签页");
    reveal_strlit("Next Tab");
    assert(has_no_brace("下一个标签页"@));
    assert(has_no_brace("Next Tab"@));
    lemma_no_brace_no_placeholder("下一个标签页"@);
    lemma_no_brace_no_placeholder("Next Tab"@);
}

proof fn lemma_message_tab_cycle_prev()
    ensures
        zh_cn_text(MessageId::TabCyclePrev).len() > 0,
        has_count_placeholder(zh_cn_text(MessageId::TabCyclePrev)) == has_count_placeholder(
            en_us_text(MessageId::TabCyclePrev),
        ),
{
    reveal_strlit("上一个标签页");
    reveal_strlit("Previous Tab");
    assert(has_no_brace("上一个标签页"@));
    assert(has_no_brace("Previous Tab"@));
    lemma_no_brace_no_placeholder("上一个标签页"@);
    lemma_no_brace_no_placeholder("Previous Tab"@);
}

proof fn lemma_message_tab_activate_next_pane()
    ensures
        zh_cn_text(MessageId::TabActivateNextPane).len() > 0,
        has_count_placeholder(zh_cn_text(MessageId::TabActivateNextPane)) == has_count_placeholder(
            en_us_text(MessageId::TabActivateNextPane),
        ),
{
    reveal_strlit("激活下一个窗格");
    reveal_strlit("Activate Next Pane");
    assert(has_no_brace("激活下一个窗格"@));
    assert(has_no_brace("Activate Next Pane"@));
    lemma_no_brace_no_placeholder("激活下一个窗格"@);
    lemma_no_brace_no_placeholder("Activate Next Pane"@);
}

proof fn lemma_message_tab_activate_prev_pane()
    ensures
        zh_cn_text(MessageId::TabActivatePrevPane).len() > 0,
        has_count_placeholder(zh_cn_text(MessageId::TabActivatePrevPane)) == has_count_placeholder(
            en_us_text(MessageId::TabActivatePrevPane),
        ),
{
    reveal_strlit("激活上一个窗格");
    reveal_strlit("Activate Previous Pane");
    assert(has_no_brace("激活上一个窗格"@));
    assert(has_no_brace("Activate Previous Pane"@));
    lemma_no_brace_no_placeholder("激活上一个窗格"@);
    lemma_no_brace_no_placeholder("Activate Previous Pane"@);
}

proof fn lemma_message_tab_maximize_pane()
    ensures
        zh_cn_text(MessageId::TabMaximizePane).len() > 0,
        has_count_placeholder(zh_cn_text(MessageId::TabMaximizePane)) == has_count_placeholder(
            en_us_text(MessageId::TabMaximizePane),
        ),
{
    reveal_strlit("最大化窗格");
    reveal_strlit("Maximize Pane");
    assert(has_no_brace("最大化窗格"@));
    assert(has_no_brace("Maximize Pane"@));
    lemma_no_brace_no_placeholder("最大化窗格"@);
    lemma_no_brace_no_placeholder("Maximize Pane"@);
}

proof fn lemma_message_tab_close()
    ensures
        zh_cn_text(MessageId::TabClose).len() > 0,
        has_count_placeholder(zh_cn_text(MessageId::TabClose)) == has_count_placeholder(
            en_us_text(MessageId::TabClose),
        ),
{
    reveal_strlit("关闭标签页");
    reveal_strlit("Close Tab");
    assert(has_no_brace("关闭标签页"@));
    assert(has_no_brace("Close Tab"@));
    lemma_no_brace_no_placeholder("关闭标签页"@);
    lemma_no_brace_no_placeholder("Close Tab"@);
}

proof fn lemma_message_tab_close_others()
    ensures
        zh_cn_text(MessageId::TabCloseOthers).len() > 0,
        has_count_placeholder(zh_cn_text(MessageId::TabCloseOthers)) == has_count_placeholder(
            en_us_text(MessageId::TabCloseOthers),
        ),
{
    reveal_strlit("关闭其他标签页");
    reveal_strlit("Close Other Tabs");
    assert(has_no_brace("关闭其他标签页"@));
    assert(has_no_brace("Close Other Tabs"@));
    lemma_no_brace_no_placeholder("关闭其他标签页"@);
    lemma_no_brace_no_placeholder("Close Other Tabs"@);
}

proof fn lemma_message_tab_close_right()
    ensures
        zh_cn_text(MessageId::TabCloseRight).len() > 0,
        has_count_placeholder(zh_cn_text(MessageId::TabCloseRight)) == has_count_placeholder(
            en_us_text(MessageId::TabCloseRight),
        ),
{
    reveal_strlit("关闭右侧标签页");
    reveal_strlit("Close Tabs to the Right");
    assert(has_no_brace("关闭右侧标签页"@));
    assert(has_no_brace("Close Tabs to the Right"@));
    lemma_no_brace_no_placeholder("关闭右侧标签页"@);
    lemma_no_brace_no_placeholder("Close Tabs to the Right"@);
}

proof fn lemma_message_blocks_clear()
    ensures
        zh_cn_text(MessageId::BlocksClear).len() > 0,
        has_count_placeholder(zh_cn_text(MessageId::BlocksClear)) == has_count_placeholder(
            en_us_text(MessageId::BlocksClear),
        ),
{
    reveal_strlit("清除块");
    reveal_strlit("Clear Blocks");
    assert(has_no_brace("清除块"@));
    assert(has_no_brace("Clear Blocks"@));
    lemma_no_brace_no_placeholder("清除块"@);
    lemma_no_brace_no_placeholder("Clear Blocks"@);
}

proof fn lemma_message_blocks_select_above()
    ensures
        zh_cn_text(MessageId::BlocksSelectAbove).len() > 0,
        has_count_placeholder(zh_cn_text(MessageId::BlocksSelectAbove)) == has_count_placeholder(
            en_us_text(MessageId::BlocksSelectAbove),
        ),
{
    reveal_strlit("选择上方的块");
    reveal_strlit("Select Block Above");
    assert(has_no_brace("选择上方的块"@));
    assert(has_no_brace("Select Block Above"@));
    lemma_no_brace_no_placeholder("选择上方的块"@);
    lemma_no_brace_no_placeholder("Select Block Above"@);
}

proof fn lemma_message_blocks_select_below()
    ensures
        zh_cn_text(MessageId::BlocksSelectBelow).len() > 0,
        has_count_placeholder(zh_cn_text(MessageId::BlocksSelectBelow)) == has_count_placeholder(
            en_us_text(MessageId::BlocksSelectBelow),
        ),
{
    reveal_strlit("选择下方的块");
    reveal_strlit("Select Block Below");
    assert(has_no_brace("选择下方的块"@));
    assert(has_no_brace("Select Block Below"@));
    lemma_no_brace_no_placeholder("选择下方的块"@);
    lemma_no_brace_no_placeholder("Select Block Below"@);
}

proof fn lemma_message_blocks_select_all()
    ensures
        zh_cn_text(MessageId::BlocksSelectAll).len() > 0,
        has_count_placeholder(zh_cn_text(MessageId::BlocksSelectAll)) == has_count_placeholder(
            en_us_text(MessageId::BlocksSelectAll),
        ),
{
    reveal_strlit("选择所有块");
    reveal_strlit("Select All Blocks");
    assert(has_no_brace("选择所有块"@));
    assert(has_no_brace("Select All Blocks"@));
    lemma_no_brace_no_placeholder("选择所有块"@);
    lemma_no_brace_no_placeholder("Select All Blocks"@);
}

proof fn lemma_message_blocks_scroll_to_top()
    ensures
        zh_cn_text(MessageId::BlocksScrollToTop).len() > 0,
        has_count_placeholder(zh_cn_text(MessageId::BlocksScrollToTop)) == has_count_placeholder(
            en_us_text(MessageId::BlocksScrollToTop),
        ),
{
    reveal_strlit("滚动到选中块顶部");
    reveal_strlit("Scroll to Top of Selected Blocks");
    assert(has_no_brace("滚动到选中块顶部"@));
    assert(has_no_brace("Scroll to Top of Selected Blocks"@));
    lemma_no_brace_no_placeholder("滚动到选中块顶部"@);
    lemma_no_brace_no_placeholder("Scroll to Top of Selected Blocks"@);
}

proof fn lemma_message_blocks_scroll_to_bottom()
    ensures
        zh_cn_text(MessageId::BlocksScrollToBottom).len() > 0,
        has_count_placeholder(zh_cn_text(MessageId::BlocksScrollToBottom)) == has_count_placeholder(
            en_us_text(MessageId::BlocksScrollToBottom),
        ),
{
    reveal_strlit("滚动到选中块底部");
    reveal_strlit("Scroll to Bottom of Selected Blocks");
    assert(has_no_brace("滚动到选中块底部"@));
    assert(has_no_brace("Scroll to Bottom of Selected Blocks"@));
    lemma_no_brace_no_placeholder("滚动到选中块底部"@);
    lemma_no_brace_no_placeholder("Scroll to Bottom of Selected Blocks"@);
}

proof fn lemma_message_blocks_create_permalink()
    ensures
        zh_cn_text(MessageId::BlocksCreatePermalink).len() > 0,
        has_count_placeholder(zh_cn_text(MessageId::BlocksCreatePermalink)) == has_count_placeholder(
            en_us_text(MessageId::BlocksCreatePermalink),
        ),
{
    reveal_strlit("创建块永久链接");
    reveal_strlit("Create Block Permalink");
    assert(has_no_brace("创建块永久链接"@));
    assert(has_no_brace("Create Block Permalink"@));
    lemma_no_brace_no_placeholder("创建块永久链接"@);
    lemma_no_brace_no_placeholder("Create Block Permalink"@);
}

proof fn lemma_message_blocks_toggle_bookmark()
    ensures
        zh_cn_text(MessageId::BlocksToggleBookmark).len() > 0,
        has_count_placeholder(zh_cn_text(MessageId::BlocksToggleBookmark)) == has_count_placeholder(
            en_us_text(MessageId::BlocksToggleBookmark),
        ),
{
    reveal_strlit("切换书签");
    reveal_strlit("Toggle Bookmark");
    assert(has_no_brace("切换书签"@));
    assert(has_no_brace("Toggle Bookmark"@));
    lemma_no_brace_no_placeholder("切换书签"@);
    lemma_no_brace_no_placeholder("Toggle Bookmark"@);
}

proof fn lemma_message_blocks_find_within()
    ensures
        zh_cn_text(MessageId::BlocksFindWithin).len() > 0,
        has_count_placeholder(zh_cn_text(MessageId::BlocksFindWithin)) == has_count_placeholder(
            en_us_text(MessageId::BlocksFindWithin),
        ),
{
    reveal_strlit("在块内查找");
    reveal_strlit("Find Within Block");
    assert(has_no_brace("在块内查找"@));
    assert(has_no_brace("Find Within Block"@));
    lemma_no_brace_no_placeholder("在块内查找"@);
    lemma_no_brace_no_placeholder("Find Within Block"@);
}

proof fn lemma_message_blocks_copy()
    ensures
        zh_cn_text(MessageId::BlocksCopy).len() > 0,
        has_count_placeholder(zh_cn_text(MessageId::BlocksCopy)) == has_count_placeholder(
            en_us_text(MessageId::BlocksCopy),
        ),
{
    reveal_strlit("复制块");
    reveal_strlit("Copy Block");
    assert(has_no_brace("复制块"@));
    assert(has_no_brace("Copy Block"@));
    lemma_no_brace_no_placeholder("复制块"@);
    lemma_no_brace_no_placeholder("Copy Block"@);
}

proof fn lemma_message_blocks_copy_command()
    ensures
        zh_cn_text(MessageId::BlocksCopyCommand).len() > 0,
        has_count_placeholder(zh_cn_text(MessageId::BlocksCopyCommand)) == has_count_placeholder(
            en_us_text(MessageId::BlocksCopyCommand),
        ),
{
    reveal_strlit("复制块命令");
    reveal_strlit("Copy Block Command");
    assert(has_no_brace("复制块命令"@));
    assert(has_no_brace("Copy Block Command"@));
    lemma_no_brace_no_placeholder("复制块命令"@);
    lemma_no_brace_no_placeholder("Copy Block Command"@);
}

proof fn lemma_message_blocks_copy_output()
    ensures
        zh_cn_text(MessageId::BlocksCopyOutput).len() > 0,
        has_count_placeholder(zh_cn_text(MessageId::BlocksCopyOutput)) == has_count_placeholder(
            en_us_text(MessageId::BlocksCopyOutput),
        ),
{
    reveal_strlit("复制块输出");
    reveal_strlit("Copy Block Output");
    assert(has_no_brace("复制块输出"@));
    assert(has_no_brace("Copy Block Output"@));
    lemma_no_brace_no_placeholder("复制块输出"@);
    lemma_no_brace_no_placeholder("Copy Block Output"@);
}

proof fn lemma_message_blocks_view_shared()
    ensures
        zh_cn_text(MessageId::BlocksViewShared).len() > 0,
        has_count_placeholder(zh_cn_text(MessageId::BlocksViewShared)) == has_count_placeholder(
            en_us_text(MessageId::BlocksViewShared),
        ),
{
    reveal_strlit("查看共享块");
    reveal_strlit("View Shared Blocks");
    assert(has_no_brace("查看共享块"@));
    assert(has_no_brace("View Shared Blocks"@));
    lemma_no_brace_no_placeholder("查看共享块"@);
    lemma_no_brace_no_placeholder("View Shared Blocks"@);
}

proof fn lemma_message_ai_new_agent_mode()
    ensures
        zh_cn_text(MessageId::AiNewAgentMode).len() > 0,
        has_count_placeholder(zh_cn_text(MessageId::AiNewAgentMode)) == has_count_placeholder(
            en_us_text(MessageId::AiNewAgentMode),
        ),
{
    reveal_strlit("新建智能体模式窗格");
    reveal_strlit("New Agent Mode Pane");
    assert(has_no_brace("新建智能体模式窗格"@));
    assert(has_no_brace("New Agent Mode Pane"@));
    lemma_no_brace_no_placeholder("新建智能体模式窗格"@);
    lemma_no_brace_no_placeholder("New Agent Mode Pane"@);
}

proof fn lemma_message_ai_attach_selection()
    ensures
        zh_cn_text(MessageId::AiAttachSelection).len() > 0,
        has_count_placeholder(zh_cn_text(MessageId::AiAttachSelection)) == has_count_placeholder(
            en_us_text(MessageId::AiAttachSelection),
        ),
{
    reveal_strlit("附加选中内容作为上下文");
    reveal_strlit("Attach Selection as Context");
    assert(has_no_brace("附加选中内容作为上下文"@));
    assert(has_no_brace("Attach Selection as Context"@));
    lemma_no_brace_no_placeholder("附加选中内容作为上下文"@);
    lemma_no_brace_no_placeholder("Attach Selection as Context"@);
}

proof fn lemma_message_ai_search()
    ensures
        zh_cn_text(MessageId::AiSearch).len() > 0,
        has_count_placeholder(zh_cn_text(MessageId::AiSearch)) == has_count_placeholder(
            en_us_text(MessageId::AiSearch),
        ),
{
    reveal_strlit("AI 搜索");
    reveal_strlit("AI Search");
    assert(has_no_brace("AI 搜索"@));
    assert(has_no_brace("AI Search"@));
    lemma_no_brace_no_placeholder("AI 搜索"@);
    lemma_no_brace_no_placeholder("AI Search"@);
}

proof fn lemma_message_ai_open_fact_collection()
    ensures
        zh_cn_text(MessageId::AiOpenFactCollection).len() > 0,
        has_count_placeholder(zh_cn_text(MessageId::AiOpenFactCollection)) == has_count_placeholder(
            en_us_text(MessageId::AiOpenFactCollection),
        ),
{
    reveal_strlit("打开知识库");
    reveal_strlit("Open Fact Collection");
    assert(has_no_brace("打开知识库"@));
    assert(has_no_brace("Open Fact Collection"@));
    lemma_no_brace_no_placeholder("打开知识库"@);
    lemma_no_brace_no_placeholder("Open Fact Collection"@);
}

proof fn lemma_message_ai_open_mcp_servers()
    ensures
        zh_cn_text(MessageId::AiOpenMcpServers).len() > 0,
        has_count_placeholder(zh_cn_text(MessageId::AiOpenMcpServers)) == has_count_placeholder(
            en_us_text(MessageId::AiOpenMcpServers),
        ),
{
    reveal_strlit("打开 MCP 服务器");
    reveal_strlit("Open MCP Servers");
    assert(has_no_brace("打开 MCP 服务器"@));
    assert(has_no_brace("Open MCP Servers"@));
    lemma_no_brace_no_placeholder("打开 MCP 服务器"@);
    lemma_no_brace_no_placeholder("Open MCP Servers"@);
}

proof fn lemma_message_drive_new_personal_workflow()
    ensures
        zh_cn_text(MessageId::DriveNewPersonalWorkflow).len() > 0,
        has_count_placeholder(zh_cn_text(MessageId::DriveNewPersonalWorkflow)) == has_count_placeholder(
            en_us_text(MessageId::DriveNewPersonalWorkflow),
        ),
{
    reveal_strlit("新建个人工作流");
    reveal_strlit("New Personal Workflow");
    assert(has_no_brace("新建个人工作流"@));
    assert(has_no_brace("New Personal Workflow"@));
    lemma_no_brace_no_placeholder("新建个人工作流"@);
    lemma_no_brace_no_placeholder("New Personal Workflow"@);
}

proof fn lemma_message_drive_new_personal_notebook()
    ensures
        zh_cn_text(MessageId::DriveNewPersonalNotebook).len() > 0,
        has_count_placeholder(zh_cn_text(MessageId::DriveNewPersonalNotebook)) == has_count_placeholder(
            en_us_text(MessageId::DriveNewPersonalNotebook),
        ),
{
    reveal_strlit("新建个人笔记本");
    reveal_strlit("New Personal Notebook");
    assert(has_no_brace("新建个人笔记本"@));
    assert(has_no_brace("New Personal Notebook"@));
    lemma_no_brace_no_placeholder("新建个人笔记本"@);
    lemma_no_brace_no_placeholder("New Personal Notebook"@);
}

proof fn lemma_message_drive_new_personal_a_i_prompt()
    ensures
        zh_cn_text(MessageId::DriveNewPersonalAIPrompt).len() > 0,
        has_count_placeholder(zh_cn_text(MessageId::DriveNewPersonalAIPrompt)) == has_count_placeholder(
            en_us_text(MessageId::DriveNewPersonalAIPrompt),
        ),
{
    reveal_strlit("新建个人 AI 提示词");
    reveal_strlit("New Personal AI Prompt");
    assert(has_no_brace("新建个人 AI 提示词"@));
    assert(has_no_brace("New Personal AI Prompt"@));
    lemma_no_brace_no_placeholder("新建个人 AI 提示词"@);
    lemma_no_brace_no_placeholder("New Personal AI Prompt"@);
}

proof fn lemma_message_drive_new_personal_env_vars()
    ensures
        zh_cn_text(MessageId::DriveNewPersonalEnvVars).len() > 0,
        has_count_placeholder(zh_cn_text(MessageId::DriveNewPersonalEnvVars)) == has_count_placeholder(
            en_us_text(MessageId::DriveNewPersonalEnvVars),
        ),
{
    reveal_strlit("新建个人环境变量");
    reveal_strlit("New Personal Env Variables");
    assert(has_no_brace("新建个人环境变量"@));
    assert(has_no_brace("New Personal Env Variables"@));
    lemma_no_brace_no_placeholder("新建个人环境变量"@);
    lemma_no_brace_no_placeholder("New Personal Env Variables"@);
}

proof fn lemma_message_drive_new_team_workflow()
    ensures
        zh_cn_text(MessageId::DriveNewTeamWorkflow).len() > 0,
        has_count_placeholder(zh_cn_text(MessageId::DriveNewTeamWorkflow)) == has_count_placeholder(
            en_us_text(MessageId::DriveNewTeamWorkflow),
        ),
{
    reveal_strlit("新建团队工作流");
    reveal_strlit("New Team Workflow");
    assert(has_no_brace("新建团队工作流"@));
    assert(has_no_brace("New Team Workflow"@));
    lemma_no_brace_no_placeholder("新建团队工作流"@);
    lemma_no_brace_no_placeholder("New Team Workflow"@);
}

proof fn lemma_message_drive_new_team_notebook()
    ensures
        zh_cn_text(MessageId::DriveNewTeamNotebook).len() > 0,
        has_count_placeholder(zh_cn_text(MessageId::DriveNewTeamNotebook)) == has_count_placeholder(
            en_us_text(MessageId::DriveNewTeamNotebook),
        ),
{
    reveal_strlit("新建团队笔记本");
    reveal_strlit("New Team Notebook");
    assert(has_no_brace("新建团队笔记本"@));
    assert(has_no_brace("New Team Notebook"@));
    lemma_no_brace_no_placeholder("新建团队笔记本"@);
    lemma_no_brace_no_placeholder("New Team Notebook"@);
}

proof fn lemma_message_drive_new_team_a_i_prompt()
    ensures
        zh_cn_text(MessageId::DriveNewTeamAIPrompt).len() > 0,
        has_count_placeholder(zh_cn_text(MessageId::DriveNewTeamAIPrompt)) == has_count_placeholder(
            en_us_text(MessageId::DriveNewTeamAIPrompt),
        ),
{
    reveal_strlit("新建团队 AI 提示词");
    reveal_strlit("New Team AI Prompt");
    assert(has_no_brace("新建团队 AI 提示词"@));
    assert(has_no_brace("New Team AI Prompt"@));
    lemma_no_brace_no_placeholder("新建团队 AI 提示词"@);
    lemma_no_brace_no_placeholder("New Team AI Prompt"@);
}

proof fn lemma_message_drive_new_team_env_vars()
    ensures
        zh_cn_text(MessageId::DriveNewTeamEnvVars).len() > 0,
        has_count_placeholder(zh_cn_text(MessageId::DriveNewTeamEnvVars)) == has_count_placeholder(
            en_us_text(MessageId::DriveNewTeamEnvVars),
        ),
{
    reveal_strlit("新建团队环境变量");
    reveal_strlit("New Team Env Variables");
    assert(has_no_brace("新建团队环境变量"@));
    assert(has_no_brace("New Team Env Variables"@));
    lemma_no_brace_no_placeholder("新建团队环境变量"@);
    lemma_no_brace_no_placeholder("New Team Env Variables"@);
}

proof fn lemma_message_drive_search()
    ensures
        zh_cn_text(MessageId::DriveSearch).len() > 0,
        has_count_placeholder(zh_cn_text(MessageId::DriveSearch)) == has_count_placeholder(
            en_us_text(MessageId::DriveSearch),
        ),
{
    reveal_strlit("搜索云盘");
    reveal_strlit("Search Drive");
    assert(has_no_brace("搜索云盘"@));
    assert(has_no_brace("Search Drive"@));
    lemma_no_brace_no_placeholder("搜索云盘"@);
    lemma_no_brace_no_placeholder("Search Drive"@);
}

proof fn lemma_message_drive_open_team_settings()
    ensures
        zh_cn_text(MessageId::DriveOpenTeamSettings).len() > 0,
        has_count_placeholder(zh_cn_text(MessageId::DriveOpenTeamSettings)) == has_count_placeholder(
            en_us_text(MessageId::DriveOpenTeamSettings),
        ),
{
    reveal_strlit("打开团队设置");
    reveal_strlit("Open Team Settings");
    assert(has_no_brace("打开团队设置"@));
    assert(has_no_brace("Open Team Settings"@));
    lemma_no_brace_no_placeholder("打开团队设置"@);
    lemma_no_brace_no_placeholder("Open Team Settings"@);
}

proof fn lemma_message_drive_share_pane_contents()
    ensures
        zh_cn_text(MessageId::DriveSharePaneContents).len() > 0,
        has_count_placeholder(zh_cn_text(MessageId::DriveSharePaneContents)) == has_count_placeholder(
            en_us_text(MessageId::DriveSharePaneContents),
        ),
{
    reveal_strlit("分享窗格内容");
    reveal_strlit("Share Pane Contents");
    assert(has_no_brace("分享窗格内容"@));
    assert(has_no_brace("Share Pane Contents"@));
    lemma_no_brace_no_placeholder("分享窗格内容"@);
    lemma_no_brace_no_placeholder("Share Pane Contents"@);
}

proof fn lemma_message_drive_share_session()
    ensures
        zh_cn_text(MessageId::DriveShareSession).len() > 0,
        has_count_placeholder(zh_cn_text(MessageId::DriveShareSession)) == has_count_placeholder(
            en_us_text(MessageId::DriveShareSession),
        ),
{
    reveal_strlit("分享当前会话");
    reveal_strlit("Share Current Session");
    assert(has_no_brace("分享当前会话"@));
    assert(has_no_brace("Share Current Session"@));
    lemma_no_brace_no_placeholder("分享当前会话"@);
    lemma_no_brace_no_placeholder("Share Current Session"@);
}

proof fn lemma_message_app_show_about_warp()
    ensures
        zh_cn_text(MessageId::AppShowAboutWarp).len() > 0,
        has_count_placeholder(zh_cn_text(MessageId::AppShowAboutWarp)) == has_count_placeholder(
            en_us_text(MessageId::AppShowAboutWarp),
        ),
{
    reveal_strlit("关于 Warp");
    reveal_strlit("About Warp");
    assert(has_no_brace("关于 Warp"@));
    assert(has_no_brace("About Warp"@));
    lemma_no_brace_no_placeholder("关于 Warp"@);
    lemma_no_brace_no_placeholder("About Warp"@);
}

proof fn lemma_message_app_toggle_resource_center()
    ensures
        zh_cn_text(MessageId::AppToggleResourceCenter).len() > 0,
        has_count_placeholder(zh_cn_text(MessageId::AppToggleResourceCenter)) == has_count_placeholder(
            en_us_text(MessageId::AppToggleResourceCenter),
        ),
{
    reveal_strlit("资源中心");
    reveal_strlit("Resource Center");
    assert(has_no_brace("资源中心"@));
    assert(has_no_brace("Resource Center"@));
    lemma_no_brace_no_placeholder("资源中心"@);
    lemma_no_brace_no_placeholder("Resource Center"@);
}

proof fn lemma_message_app_refer_a_friend()
    ensures
        zh_cn_text(MessageId::AppReferAFriend).len() > 0,
        has_count_placeholder(zh_cn_text(MessageId::AppReferAFriend)) == has_count_placeholder(
            en_us_text(MessageId::AppReferAFriend),
        ),
{
    reveal_strlit("邀请好友");
    reveal_strlit("Refer a Friend");
    assert(has_no_brace("邀请好友"@));
    assert(has_no_brace("Refer a Friend"@));
    lemma_no_brace_no_placeholder("邀请好友"@);
    lemma_no_brace_no_placeholder("Refer a Friend"@);
}

proof fn lemma_message_app_show_settings()
    ensures
        zh_cn_text(MessageId::AppShowSettings).len() > 0,
        has_count_placeholder(zh_cn_text(MessageId::AppShowSettings)) == has_count_placeholder(
            en_us_text(MessageId::AppShowSettings),
        ),
{
    reveal_strlit("设置");
    reveal_strlit("Settings");
    assert(has_no_brace("设置"@));
    assert(has_no_brace("Settings"@));
    lemma_no_brace_no_placeholder("设置"@);
    lemma_no_brace_no_placeholder("Settings"@);
}

proof fn lemma_message_app_toggle_keybindings()
    ensures
        zh_cn_text(MessageId::AppToggleKeybindings).len() > 0,
        has_count_placeholder(zh_cn_text(MessageId::AppToggleKeybindings)) == has_count_placeholder(
            en_us_text(MessageId::AppToggleKeybindings),
        ),
{
    reveal_strlit("快捷键");
    reveal_strlit("Keybindings");
    assert(has_no_brace("快捷键"@));
    assert(has_no_brace("Keybindings"@));
    lemma_no_brace_no_placeholder("快捷键"@);
    lemma_no_brace_no_placeholder("Keybindings"@);
}

proof fn lemma_message_app_configure_keybindings()
    ensures
        zh_cn_text(MessageId::AppConfigureKeybindings).len() > 0,
        has_count_placeholder(zh_cn_text(MessageId::AppConfigureKeybindings)) == has_count_placeholder(
            en_us_text(MessageId::AppConfigureKeybindings),
        ),
{
    reveal_strlit("配置快捷键");
    reveal_strlit("Configure Keybindings");
    assert(has_no_brace("配置快捷键"@));
    assert(has_no_brace("Configure Keybindings"@));
    lemma_no_brace_no_placeholder("配置快捷键"@);
    lemma_no_brace_no_placeholder("Configure Keybindings"@);
}

proof fn lemma_message_app_show_appearance()
    ensures
        zh_cn_text(MessageId::AppShowAppearance).len() > 0,
        has_count_placeholder(zh_cn_text(MessageId::AppShowAppearance)) == has_count_placeholder(
            en_us_text(MessageId::AppShowAppearance),
        ),
{
    reveal_strlit("外观");
    reveal_strlit("Appearance");
    assert(has_no_brace("外观"@));
    assert(has_no_brace("Appearance"@));
    lemma_no_brace_no_placeholder("外观"@);
    lemma_no_brace_no_placeholder("Appearance"@);
}

proof fn lemma_message_app_view_changelog()
    ensures
        zh_cn_text(MessageId::AppViewChangelog).len() > 0,
        has_count_placeholder(zh_cn_text(MessageId::AppViewChangelog)) == has_count_placeholder(
            en_us_text(MessageId::AppViewChangelog),
        ),
{
    reveal_strlit("查看更新日志");
    reveal_strlit("View Changelog");
    assert(has_no_brace("查看更新日志"@));
    assert(has_no_brace("View Changelog"@));
    lemma_no_brace_no_placeholder("查看更新日志"@);
    lemma_no_brace_no_placeholder("View Changelog"@);
}

proof fn lemma_message_sync_all_terminal_inputs()
    ensures
        zh_cn_text(MessageId::SyncAllTerminalInputs).len() > 0,
        has_count_placeholder(zh_cn_text(MessageId::SyncAllTerminalInputs)) == has_count_placeholder(
            en_us_text(MessageId::SyncAllTerminalInputs),
        ),
{
    reveal_strlit("同步所有标签页的终端输入");
    reveal_strlit("Sync All Terminal Inputs in All Tabs");
    assert(has_no_brace("同步所有标签页的终端输入"@));
    assert(has_no_brace("Sync All Terminal Inputs in All Tabs"@));
    lemma_no_brace_no_placeholder("同步所有标签页的终端输入"@);
    lemma_no_brace_no_placeholder("Sync All Terminal Inputs in All Tabs"@);
}

proof fn lemma_message_sync_terminal_inputs_current_tab()
    ensures
        zh_cn_text(MessageId::SyncTerminalInputsCurrentTab).len() > 0,
        has_count_placeholder(zh_cn_text(MessageId::SyncTerminalInputsCurrentTab)) == has_count_placeholder(
            en_us_text(MessageId::SyncTerminalInputsCurrentTab),
        ),
{
    reveal_strlit("同步当前标签页的终端输入");
    reveal_strlit("Sync Terminal Inputs in Current Tab");
    assert(has_no_brace("同步当前标签页的终端输入"@));
    assert(has_no_brace("Sync Terminal Inputs in Current Tab"@));
    lemma_no_brace_no_placeholder("同步当前标签页的终端输入"@);
    lemma_no_brace_no_placeholder("Sync Terminal Inputs in Current Tab"@);
}

proof fn lemma_message_disable_sync_inputs()
    ensures
        zh_cn_text(MessageId::DisableSyncInputs).len() > 0,
        has_count_placeholder(zh_cn_text(MessageId::DisableSyncInputs)) == has_count_placeholder(
            en_us_text(MessageId::DisableSyncInputs),
        ),
{
    reveal_strlit("禁用同步输入");
    reveal_strlit("Disable Sync Inputs");
    assert(has_no_brace("禁用同步输入"@));
    assert(has_no_brace("Disable Sync Inputs"@));
    lemma_no_brace_no_placeholder("禁用同步输入"@);
    lemma_no_brace_no_placeholder("Disable Sync Inputs"@);
}

proof fn lemma_message_file_open_repository()
    ensures
        zh_cn_text(MessageId::FileOpenRepository).len() > 0,
        has_count_placeholder(zh_cn_text(MessageId::FileOpenRepository)) == has_count_placeholder(
            en_us_text(MessageId::FileOpenRepository),
        ),
{
    reveal_strlit("打开仓库");
    reveal_strlit("Open Repository");
    assert(has_no_brace("打开仓库"@));
    assert(has_no_brace("Open Repository"@));
    lemma_no_brace_no_placeholder("打开仓库"@);
    lemma_no_brace_no_placeholder("Open Repository"@);
}

proof fn lemma_message_add_window()
    ensures
        zh_cn_text(MessageId::AddWindow).len() > 0,
        has_count_placeholder(zh_cn_text(MessageId::AddWindow)) == has_count_placeholder(
            en_us_text(MessageId::AddWindow),
        ),
{
    reveal_strlit("新建窗口");
    reveal_strlit("Add Window");
    assert(has_no_brace("新建窗口"@));
    assert(has_no_brace("Add Window"@));
    lemma_no_brace_no_placeholder("新建窗口"@);
    lemma_no_brace_no_placeholder("Add Window"@);
}

proof fn lemma_message_settings_sign_up()
    ensures
        zh_cn_text(MessageId::SettingsSignUp).len() > 0,
        has_count_placeholder(zh_cn_text(MessageId::SettingsSignUp)) == has_count_placeholder(
            en_us_text(MessageId::SettingsSignUp),
        ),
{
    reveal_strlit("注册");
    reveal_strlit("Sign up");
    assert(has_no_brace("注册"@));
    assert(has_no_brace("Sign up"@));
    lemma_no_brace_no_placeholder("注册"@);
    lemma_no_brace_no_placeholder("Sign up"@);
}

proof fn lemma_message_settings_free()
    ensures
        zh_cn_text(MessageId::SettingsFree).len() > 0,
        has_count_placeholder(zh_cn_text(MessageId::SettingsFree)) == has_count_placeholder(
            en_us_text(MessageId::SettingsFree),
        ),
{
    reveal_strlit("免费版");
    reveal_strlit("Free");
    assert(has_no_brace("免费版"@));
    assert(has_no_brace("Free"@));
    lemma_no_brace_no_placeholder("免费版"@);
    lemma_no_brace_no_placeholder("Free"@);
}

proof fn lemma_message_settings_compare_plans()
    ensures
        zh_cn_text(MessageId::SettingsComparePlans).len() > 0,
        has_count_placeholder(zh_cn_text(MessageId::SettingsComparePlans)) == has_count_placeholder(
            en_us_text(MessageId::SettingsComparePlans),
        ),
{
    reveal_strlit("对比套餐");
    reveal_strlit("Compare plans");
    assert(has_no_brace("对比套餐"@));
    assert(has_no_brace("Compare plans"@));
    lemma_no_brace_no_placeholder("对比套餐"@);
    lemma_no_brace_no_placeholder("Compare plans"@);
}

proof fn lemma_message_settings_up_to_date()
    ensures
        zh_cn_text(MessageId::SettingsUpToDate).len() > 0,
        has_count_placeholder(zh_cn_text(MessageId::SettingsUpToDate)) == has_count_placeholder(
            en_us_text(MessageId::SettingsUpToDate),
        ),
{
    reveal_strlit("已是最新版本");
    reveal_strlit("Up to date");
    assert(has_no_brace("已是最新版本"@));
    assert(has_no_brace("Up to date"@));
    lemma_no_brace_no_placeholder("已是最新版本"@);
    lemma_no_brace_no_placeholder("Up to date"@);
}

proof fn lemma_message_settings_version()
    ensures
        zh_cn_text(MessageId::SettingsVersion).len() > 0,
        has_count_placeholder(zh_cn_text(MessageId::SettingsVersion)) == has_count_placeholder(
            en_us_text(MessageId::SettingsVersion),
        ),
{
    reveal_strlit("版本");
    reveal_strlit("Version");
    assert(has_no_brace("版本"@));
    assert(has_no_brace("Version"@));
    lemma_no_brace_no_placeholder("版本"@);
    lemma_no_brace_no_placeholder("Version"@);
}

proof fn lemma_message_settings_log_out()
    ensures
        zh_cn_text(MessageId::SettingsLogOut).len() > 0,
        has_count_placeholder(zh_cn_text(MessageId::SettingsLogOut)) == has_count_placeholder(
            en_us_text(MessageId::SettingsLogOut),
        ),
{
    reveal_strlit("退出登录");
    reveal_strlit("Log out");
    assert(has_no_brace("退出登录"@));
    assert(has_no_brace("Log out"@));
    lemma_no_brace_no_placeholder("退出登录"@);
    lemma_no_brace_no_placeholder("Log out"@);
}

proof fn lemma_message_settings_referral_cta()
    ensures
        zh_cn_text(MessageId::SettingsReferralCta).len() > 0,
        has_count_placeholder(zh_cn_text(MessageId::SettingsReferralCta)) == has_count_placeholder(
            en_us_text(MessageId::SettingsReferralCta),
        ),
{
    reveal_strlit("邀请朋友和同事使用 Warp 即可获得奖励");
    reveal_strlit("Earn rewards by sharing Warp with friends & colleagues");
    assert(has_no_brace("邀请朋友和同事使用 Warp 即可获得奖励"@));
    assert(has_no_brace("Earn rewards by sharing Warp with friends & colleagues"@));
    lemma_no_brace_no_placeholder("邀请朋友和同事使用 Warp 即可获得奖励"@);
    lemma_no_brace_no_placeholder("Earn rewards by sharing Warp with friends & colleagues"@);
}

proof fn lemma_message_settings_contact_support()
    ensures
        zh_cn_text(MessageId::SettingsContactSupport).len() > 0,
        has_count_placeholder(zh_cn_text(MessageId::SettingsContactSupport)) == has_count_placeholder(
            en_us_text(MessageId::SettingsContactSupport),
        ),
{
    reveal_strlit("联系客服");
    reveal_strlit("Contact support");
    assert(has_no_brace("联系客服"@));
    assert(has_no_brace("Contact support"@));
    lemma_no_brace_no_placeholder("联系客服"@);
    lemma_no_brace_no_placeholder("Contact support"@);
}

proof fn lemma_message_settings_manage_billing()
    ensures
        zh_cn_text(MessageId::SettingsManageBilling).len() > 0,
        has_count_placeholder(zh_cn_text(MessageId::SettingsManageBilling)) == has_count_placeholder(
            en_us_text(MessageId::SettingsManageBilling),
        ),
{
    reveal_strlit("管理账单");
    reveal_strlit("Manage billing");
    assert(has_no_brace("管理账单"@));
    assert(has_no_brace("Manage billing"@));
    lemma_no_brace_no_placeholder("管理账单"@);
    lemma_no_brace_no_placeholder("Manage billing"@);
}

proof fn lemma_message_settings_check_for_updates()
    ensures
        zh_cn_text(MessageId::SettingsCheckForUpdates).len() > 0,
        has_count_placeholder(zh_cn_text(MessageId::SettingsCheckForUpdates)) == has_count_placeholder(
            en_us_text(MessageId::SettingsCheckForUpdates),
        ),
{
    reveal_strlit("检查更新");
    reveal_strlit("Check for updates");
    assert(has_no_brace("检查更新"@));
    assert(has_no_brace("Check for updates"@));
    lemma_no_brace_no_placeholder("检查更新"@);
    lemma_no_brace_no_placeholder("Check for updates"@);
}

proof fn lemma_message_settings_relaunch_warp()
    ensures
        zh_cn_text(MessageId::SettingsRelaunchWarp).len() > 0,
        has_count_placeholder(zh_cn_text(MessageId::SettingsRelaunchWarp)) == has_count_placeholder(
            en_us_text(MessageId::SettingsRelaunchWarp),
        ),
{
    reveal_strlit("重新启动 Warp");
    reveal_strlit("Relaunch Warp");
    assert(has_no_brace("重新启动 Warp"@));
    assert(has_no_brace("Relaunch Warp"@));
    lemma_no_brace_no_placeholder("重新启动 Warp"@);
    lemma_no_brace_no_placeholder("Relaunch Warp"@);
}

proof fn lemma_message_settings_update_available()
    ensures
        zh_cn_text(MessageId::SettingsUpdateAvailable).len() > 0,
        has_count_placeholder(zh_cn_text(MessageId::SettingsUpdateAvailable)) == has_count_placeholder(
            en_us_text(MessageId::SettingsUpdateAvailable),
        ),
{
    reveal_strlit("有可用更新");
    reveal_strlit("Update available");
    assert(has_no_brace("有可用更新"@));
    assert(has_no_brace("Update available"@));
    lemma_no_brace_no_placeholder("有可用更新"@);
    lemma_no_brace_no_placeholder("Update available"@);
}

proof fn lemma_message_settings_updating()
    ensures
        zh_cn_text(MessageId::SettingsUpdating).len() > 0,
        has_count_placeholder(zh_cn_text(MessageId::SettingsUpdating)) == has_count_placeholder(
            en_us_text(MessageId::SettingsUpdating),
        ),
{
    reveal_strlit("正在更新...");
    reveal_strlit("Updating...");
    assert(has_no_brace("正在更新..."@));
    assert(has_no_brace("Updating..."@));
    lemma_no_brace_no_placeholder("正在更新..."@);
    lemma_no_brace_no_placeholder("Updating..."@);
}

proof fn lemma_message_settings_installed_update()
    ensures
        zh_cn_text(MessageId::SettingsInstalledUpdate).len() > 0,
        has_count_placeholder(zh_cn_text(MessageId::SettingsInstalledUpdate)) == has_count_placeholder(
            en_us_text(MessageId::SettingsInstalledUpdate),
        ),
{
    reveal_strlit("已安装更新");
    reveal_strlit("Installed update");
    assert(has_no_brace("已安装更新"@));
    assert(has_no_brace("Installed update"@));
    lemma_no_brace_no_placeholder("已安装更新"@);
    lemma_no_brace_no_placeholder("Installed update"@);
}

proof fn lemma_message_settings_update_manually()
    ensures
        zh_cn_text(MessageId::SettingsUpdateManually).len() > 0,
        has_count_placeholder(zh_cn_text(MessageId::SettingsUpdateManually)) == has_count_placeholder(
            en_us_text(MessageId::SettingsUpdateManually),
        ),
{
    reveal_strlit("手动更新 Warp");
    reveal_strlit("Update Warp manually");
    assert(has_no_brace("手动更新 Warp"@));
    assert(has_no_brace("Update Warp manually"@));
    lemma_no_brace_no_placeholder("手动更新 Warp"@);
    lemma_no_brace_no_placeholder("Update Warp manually"@);
}

proof fn lemma_message_settings_settings_sync()
    ensures
        zh_cn_text(MessageId::SettingsSettingsSync).len() > 0,
        has_count_placeholder(zh_cn_text(MessageId::SettingsSettingsSync)) == has_count_placeholder(
            en_us_text(MessageId::SettingsSettingsSync),
        ),
{
    reveal_strlit("设置同步");
    reveal_strlit("Settings sync");
    assert(has_no_brace("设置同步"@));
    assert(has_no_brace("Settings sync"@));
    lemma_no_brace_no_placeholder("设置同步"@);
    lemma_no_brace_no_placeholder("Settings sync"@);
}

proof fn lemma_message_appearance_category_themes()
    ensures
        zh_cn_text(MessageId::AppearanceCategoryThemes).len() > 0,
        has_count_placeholder(zh_cn_text(MessageId::AppearanceCategoryThemes)) == has_count_placeholder(
            en_us_text(MessageId::AppearanceCategoryThemes),
        ),
{
    reveal_strlit("主题");
    reveal_strlit("Themes");
    assert(has_no_brace("主题"@));
    assert(has_no_brace("Themes"@));
    lemma_no_brace_no_placeholder("主题"@);
    lemma_no_brace_no_placeholder("Themes"@);
}

proof fn lemma_message_appearance_category_icon()
    ensures
        zh_cn_text(MessageId::AppearanceCategoryIcon).len() > 0,
        has_count_placeholder(zh_cn_text(MessageId::AppearanceCategoryIcon)) == has_count_placeholder(
            en_us_text(MessageId::AppearanceCategoryIcon),
        ),
{
    reveal_strlit("图标");
    reveal_strlit("Icon");
    assert(has_no_brace("图标"@));
    assert(has_no_brace("Icon"@));
    lemma_no_brace_no_placeholder("图标"@);
    lemma_no_brace_no_placeholder("Icon"@);
}

proof fn lemma_message_appearance_category_window()
    ensures
        zh_cn_text(MessageId::AppearanceCategoryWindow).len() > 0,
        has_count_placeholder(zh_cn_text(MessageId::AppearanceCategoryWindow)) == has_count_placeholder(
            en_us_text(MessageId::AppearanceCategoryWindow),
        ),
{
    reveal_strlit("窗口");
    reveal_strlit("Window");
    assert(has_no_brace("窗口"@));
    assert(has_no_brace("Window"@));
    lemma_no_brace_no_placeholder("窗口"@);
    lemma_no_brace_no_placeholder("Window"@);
}

proof fn lemma_message_appearance_category_input()
    ensures
        zh_cn_text(MessageId::AppearanceCategoryInput).len() > 0,
        has_count_placeholder(zh_cn_text(MessageId::AppearanceCategoryInput)) == has_count_placeholder(
            en_us_text(MessageId::AppearanceCategoryInput),
        ),
{
    reveal_strlit("输入");
    reveal_strlit("Input");
    assert(has_no_brace("输入"@));
    assert(has_no_brace("Input"@));
    lemma_no_brace_no_placeholder("输入"@);
    lemma_no_brace_no_placeholder("Input"@);
}

proof fn lemma_message_appearance_category_panes()
    ensures
        zh_cn_text(MessageId::AppearanceCategoryPanes).len() > 0,
        has_count_placeholder(zh_cn_text(MessageId::AppearanceCategoryPanes)) == has_count_placeholder(
            en_us_text(MessageId::AppearanceCategoryPanes),
        ),
{
    reveal_strlit("窗格");
    reveal_strlit("Panes");
    assert(has_no_brace("窗格"@));
    assert(has_no_brace("Panes"@));
    lemma_no_brace_no_placeholder("窗格"@);
    lemma_no_brace_no_placeholder("Panes"@);
}

proof fn lemma_message_appearance_category_blocks()
    ensures
        zh_cn_text(MessageId::AppearanceCategoryBlocks).len() > 0,
        has_count_placeholder(zh_cn_text(MessageId::AppearanceCategoryBlocks)) == has_count_placeholder(
            en_us_text(MessageId::AppearanceCategoryBlocks),
        ),
{
    reveal_strlit("块");
    reveal_strlit("Blocks");
    assert(has_no_brace("块"@));
    assert(has_no_brace("Blocks"@));
    lemma_no_brace_no_placeholder("块"@);
    lemma_no_brace_no_placeholder("Blocks"@);
}

proof fn lemma_message_appearance_category_text()
    ensures
        zh_cn_text(MessageId::AppearanceCategoryText).len() > 0,
        has_count_placeholder(zh_cn_text(MessageId::AppearanceCategoryText)) == has_count_placeholder(
            en_us_text(MessageId::AppearanceCategoryText),
        ),
{
    reveal_strlit("文本");
    reveal_strlit("Text");
    assert(has_no_brace("文本"@));
    assert(has_no_brace("Text"@));
    lemma_no_brace_no_placeholder("文本"@);
    lemma_no_brace_no_placeholder("Text"@);
}

proof fn lemma_message_appearance_category_cursor()
    ensures
        zh_cn_text(MessageId::AppearanceCategoryCursor).len() > 0,
        has_count_placeholder(zh_cn_text(MessageId::AppearanceCategoryCursor)) == has_count_placeholder(
            en_us_text(MessageId::AppearanceCategoryCursor),
        ),
{
    reveal_strlit("光标");
    reveal_strlit("Cursor");
    assert(has_no_brace("光标"@));
    assert(has_no_brace("Cursor"@));
    lemma_no_brace_no_placeholder("光标"@);
    lemma_no_brace_no_placeholder("Cursor"@);
}

proof fn lemma_message_appearance_category_tabs()
    ensures
        zh_cn_text(MessageId::AppearanceCategoryTabs).len() > 0,
        has_count_placeholder(zh_cn_text(MessageId::AppearanceCategoryTabs)) == has_count_placeholder(
            en_us_text(MessageId::AppearanceCategoryTabs),
        ),
{
    reveal_strlit("标签页");
    reveal_strlit("Tabs");
    assert(has_no_brace("标签页"@));
    assert(has_no_brace("Tabs"@));
    lemma_no_brace_no_placeholder("标签页"@);
    lemma_no_brace_no_placeholder("Tabs"@);
}

proof fn lemma_message_appearance_category_fullscreen_apps()
    ensures
        zh_cn_text(MessageId::AppearanceCategoryFullscreenApps).len() > 0,
        has_count_placeholder(zh_cn_text(MessageId::AppearanceCategoryFullscreenApps)) == has_count_placeholder(
            en_us_text(MessageId::AppearanceCategoryFullscreenApps),
        ),
{
    reveal_strlit("全屏应用");
    reveal_strlit("Full-screen Apps");
    assert(has_no_brace("全屏应用"@));
    assert(has_no_brace("Full-screen Apps"@));
    lemma_no_brace_no_placeholder("全屏应用"@);
    lemma_no_brace_no_placeholder("Full-screen Apps"@);
}

proof fn lemma_message_appearance_compact_mode()
    ensures
        zh_cn_text(MessageId::AppearanceCompactMode).len() > 0,
        has_count_placeholder(zh_cn_text(MessageId::AppearanceCompactMode)) == has_count_placeholder(
            en_us_text(MessageId::AppearanceCompactMode),
        ),
{
    reveal_strlit("紧凑模式");
    reveal_strlit("compact mode");
    assert(has_no_brace("紧凑模式"@));
    assert(has_no_brace("compact mode"@));
    lemma_no_brace_no_placeholder("紧凑模式"@);
    lemma_no_brace_no_placeholder("compact mode"@);
}

proof fn lemma_message_appearance_sync_with_os()
    ensures
        zh_cn_text(MessageId::AppearanceSyncWithOs).len() > 0,
        has_count_placeholder(zh_cn_text(MessageId::AppearanceSyncWithOs)) == has_count_placeholder(
            en_us_text(MessageId::AppearanceSyncWithOs),
        ),
{
    reveal_strlit("主题：与系统同步");
    reveal_strlit("themes: sync with OS");
    assert(has_no_brace("主题：与系统同步"@));
    assert(has_no_brace("themes: sync with OS"@));
    lemma_no_brace_no_placeholder("主题：与系统同步"@);
    lemma_no_brace_no_placeholder("themes: sync with OS"@);
}

proof fn lemma_message_appearance_cursor_blink()
    ensures
        zh_cn_text(MessageId::AppearanceCursorBlink).len() > 0,
        has_count_placeholder(zh_cn_text(MessageId::AppearanceCursorBlink)) == has_count_placeholder(
            en_us_text(MessageId::AppearanceCursorBlink),
        ),
{
    reveal_strlit("光标闪烁");
    reveal_strlit("cursor blink");
    assert(has_no_brace("光标闪烁"@));
    assert(has_no_brace("cursor blink"@));
    lemma_no_brace_no_placeholder("光标闪烁"@);
    lemma_no_brace_no_placeholder("cursor blink"@);
}

proof fn lemma_message_appearance_jump_to_bottom()
    ensures
        zh_cn_text(MessageId::AppearanceJumpToBottom).len() > 0,
        has_count_placeholder(zh_cn_text(MessageId::AppearanceJumpToBottom)) == has_count_placeholder(
            en_us_text(MessageId::AppearanceJumpToBottom),
        ),
{
    reveal_strlit("跳转到块底部按钮");
    reveal_strlit("jump to bottom of block button");
    assert(has_no_brace("跳转到块底部按钮"@));
    assert(has_no_brace("jump to bottom of block button"@));
    lemma_no_brace_no_placeholder("跳转到块底部按钮"@);
    lemma_no_brace_no_placeholder("jump to bottom of block button"@);
}

proof fn lemma_message_appearance_block_dividers()
    ensures
        zh_cn_text(MessageId::AppearanceBlockDividers).len() > 0,
        has_count_placeholder(zh_cn_text(MessageId::AppearanceBlockDividers)) == has_count_placeholder(
            en_us_text(MessageId::AppearanceBlockDividers),
        ),
{
    reveal_strlit("块分隔线");
    reveal_strlit("block dividers");
    assert(has_no_brace("块分隔线"@));
    assert(has_no_brace("block dividers"@));
    lemma_no_brace_no_placeholder("块分隔线"@);
    lemma_no_brace_no_placeholder("block dividers"@);
}

proof fn lemma_message_appearance_dim_inactive_panes()
    ensures
        zh_cn_text(MessageId::AppearanceDimInactivePanes).len() > 0,
        has_count_placeholder(zh_cn_text(MessageId::AppearanceDimInactivePanes)) == has_count_placeholder(
            en_us_text(MessageId::AppearanceDimInactivePanes),
        ),
{
    reveal_strlit("暗化非活动窗格");
    reveal_strlit("dim inactive panes");
    assert(has_no_brace("暗化非活动窗格"@));
    assert(has_no_brace("dim inactive panes"@));
    lemma_no_brace_no_placeholder("暗化非活动窗格"@);
    lemma_no_brace_no_placeholder("dim inactive panes"@);
}

proof fn lemma_message_appearance_tab_indicators()
    ensures
        zh_cn_text(MessageId::AppearanceTabIndicators).len() > 0,
        has_count_placeholder(zh_cn_text(MessageId::AppearanceTabIndicators)) == has_count_placeholder(
            en_us_text(MessageId::AppearanceTabIndicators),
        ),
{
    reveal_strlit("标签页指示器");
    reveal_strlit("tab indicators");
    assert(has_no_brace("标签页指示器"@));
    assert(has_no_brace("tab indicators"@));
    lemma_no_brace_no_placeholder("标签页指示器"@);
    lemma_no_brace_no_placeholder("tab indicators"@);
}

proof fn lemma_message_appearance_focus_follows_mouse()
    ensures
        zh_cn_text(MessageId::AppearanceFocusFollowsMouse).len() > 0,
        has_count_placeholder(zh_cn_text(MessageId::AppearanceFocusFollowsMouse)) == has_count_placeholder(
            en_us_text(MessageId::AppearanceFocusFollowsMouse),
        ),
{
    reveal_strlit("焦点跟随鼠标");
    reveal_strlit("focus follows mouse");
    assert(has_no_brace("焦点跟随鼠标"@));
    assert(has_no_brace("focus follows mouse"@));
    lemma_no_brace_no_placeholder("焦点跟随鼠标"@);
    lemma_no_brace_no_placeholder("focus follows mouse"@);
}

proof fn lemma_message_appearance_zen_mode()
    ensures
        zh_cn_text(MessageId::AppearanceZenMode).len() > 0,
        has_count_placeholder(zh_cn_text(MessageId::AppearanceZenMode)) == has_count_placeholder(
            en_us_text(MessageId::AppearanceZenMode),
        ),
{
    reveal_strlit("禅模式");
    reveal_strlit("zen mode");
    assert(has_no_brace("禅模式"@));
    assert(has_no_brace("zen mode"@));
    lemma_no_brace_no_placeholder("禅模式"@);
    lemma_no_brace_no_placeholder("zen mode"@);
}

proof fn lemma_message_appearance_vertical_tab_layout()
    ensures
        zh_cn_text(MessageId::AppearanceVerticalTabLayout).len() > 0,
        has_count_placeholder(zh_cn_text(MessageId::AppearanceVerticalTabLayout)) == has_count_placeholder(
            en_us_text(MessageId::AppearanceVerticalTabLayout),
        ),
{
    reveal_strlit("垂直标签页布局");
    reveal_strlit("vertical tab layout");
    assert(has_no_brace("垂直标签页布局"@));
    assert(has_no_brace("vertical tab layout"@));
    lemma_no_brace_no_placeholder("垂直标签页布局"@);
    lemma_no_brace_no_placeholder("vertical tab layout"@);
}

proof fn lemma_message_appearance_ligature_rendering()
    ensures
        zh_cn_text(MessageId::AppearanceLigatureRendering).len() > 0,
        has_count_placeholder(zh_cn_text(MessageId::AppearanceLigatureRendering)) == has_count_placeholder(
            en_us_text(MessageId::AppearanceLigatureRendering),
        ),
{
    reveal_strlit("连字渲染");
    reveal_strlit("ligature rendering");
    assert(has_no_brace("连字渲染"@));
    assert(has_no_brace("ligature rendering"@));
    lemma_no_brace_no_placeholder("连字渲染"@);
    lemma_no_brace_no_placeholder("ligature rendering"@);
}

proof fn lemma_message_appearance_start_input_top()
    ensures
        zh_cn_text(MessageId::AppearanceStartInputTop).len() > 0,
        has_count_placeholder(zh_cn_text(MessageId::AppearanceStartInputTop)) == has_count_placeholder(
            en_us_text(MessageId::AppearanceStartInputTop),
        ),
{
    reveal_strlit("在顶部开始输入");
    reveal_strlit("Start Input at the Top");
    assert(has_no_brace("在顶部开始输入"@));
    assert(has_no_brace("Start Input at the Top"@));
    lemma_no_brace_no_placeholder("在顶部开始输入"@);
    lemma_no_brace_no_placeholder("Start Input at the Top"@);
}

proof fn lemma_message_appearance_pin_input_top()
    ensures
        zh_cn_text(MessageId::AppearancePinInputTop).len() > 0,
        has_count_placeholder(zh_cn_text(MessageId::AppearancePinInputTop)) == has_count_placeholder(
            en_us_text(MessageId::AppearancePinInputTop),
        ),
{
    reveal_strlit("固定输入到顶部");
    reveal_strlit("Pin Input to the Top");
    assert(has_no_brace("固定输入到顶部"@));
    assert(has_no_brace("Pin Input to the Top"@));
    lemma_no_brace_no_placeholder("固定输入到顶部"@);
    lemma_no_brace_no_placeholder("Pin Input to the Top"@);
}

proof fn lemma_message_appearance_pin_input_bottom()
    ensures
        zh_cn_text(MessageId::AppearancePinInputBottom).len() > 0,
        has_count_placeholder(zh_cn_text(MessageId::AppearancePinInputBottom)) == has_count_placeholder(
            en_us_text(MessageId::AppearancePinInputBottom),
        ),
{
    reveal_strlit("固定输入到底部");
    reveal_strlit("Pin Input to the Bottom");
    assert(has_no_brace("固定输入到底部"@));
    assert(has_no_brace("Pin Input to the Bottom"@));
    lemma_no_brace_no_placeholder("固定输入到底部"@);
    lemma_no_brace_no_placeholder("Pin Input to the Bottom"@);
}

proof fn lemma_message_appearance_toggle_input_mode()
    ensures
        zh_cn_text(MessageId::AppearanceToggleInputMode).len() > 0,
        has_count_placeholder(zh_cn_text(MessageId::AppearanceToggleInputMode)) == has_count_placeholder(
            en_us_text(MessageId::AppearanceToggleInputMode),
        ),
{
    reveal_strlit("切换输入模式（Warp/经典）");
    reveal_strlit("Toggle Input Mode (Warp/Classic)");
    assert(has_no_brace("切换输入模式（Warp/经典）"@));
    assert(has_no_brace("Toggle Input Mode (Warp/Classic)"@));
    lemma_no_brace_no_placeholder("切换输入模式（Warp/经典）"@);
    lemma_no_brace_no_placeholder("Toggle Input Mode (Warp/Classic)"@);
}

proof fn lemma_message_appearance_always_show_tab_bar()
    ensures
        zh_cn_text(MessageId::AppearanceAlwaysShowTabBar).len() > 0,
        has_count_placeholder(zh_cn_text(MessageId::AppearanceAlwaysShowTabBar)) == has_count_placeholder(
            en_us_text(MessageId::AppearanceAlwaysShowTabBar),
        ),
{
    reveal_strlit("始终显示标签栏");
    reveal_strlit("Always show tab bar");
    assert(has_no_brace("始终显示标签栏"@));
    assert(has_no_brace("Always show tab bar"@));
    lemma_no_brace_no_placeholder("始终显示标签栏"@);
    lemma_no_brace_no_placeholder("Always show tab bar"@);
}

proof fn lemma_message_appearance_hide_tab_bar_fullscreen()
    ensures
        zh_cn_text(MessageId::AppearanceHideTabBarFullscreen).len() > 0,
        has_count_placeholder(zh_cn_text(MessageId::AppearanceHideTabBarFullscreen)) == has_count_placeholder(
            en_us_text(MessageId::AppearanceHideTabBarFullscreen),
        ),
{
    reveal_strlit("全屏时隐藏标签栏");
    reveal_strlit("Hide tab bar if fullscreen");
    assert(has_no_brace("全屏时隐藏标签栏"@));
    assert(has_no_brace("Hide tab bar if fullscreen"@));
    lemma_no_brace_no_placeholder("全屏时隐藏标签栏"@);
    lemma_no_brace_no_placeholder("Hide tab bar if fullscreen"@);
}

proof fn lemma_message_appearance_show_tab_bar_on_hover()
    ensures
        zh_cn_text(MessageId::AppearanceShowTabBarOnHover).len() > 0,
        has_count_placeholder(zh_cn_text(MessageId::AppearanceShowTabBarOnHover)) == has_count_placeholder(
            en_us_text(MessageId::AppearanceShowTabBarOnHover),
        ),
{
    reveal_strlit("悬停时显示标签栏");
    reveal_strlit("Only show tab bar on hover");
    assert(has_no_brace("悬停时显示标签栏"@));
    assert(has_no_brace("Only show tab bar on hover"@));
    lemma_no_brace_no_placeholder("悬停时显示标签栏"@);
    lemma_no_brace_no_placeholder("Only show tab bar on hover"@);
}

proof fn lemma_message_appearance_header_toolbar_layout()
    ensures
        zh_cn_text(MessageId::AppearanceHeaderToolbarLayout).len() > 0,
        has_count_placeholder(zh_cn_text(MessageId::AppearanceHeaderToolbarLayout)) == has_count_placeholder(
            en_us_text(MessageId::AppearanceHeaderToolbarLayout),
        ),
{
    reveal_strlit("顶部工具栏布局");
    reveal_strlit("Header toolbar layout");
    assert(has_no_brace("顶部工具栏布局"@));
    assert(has_no_brace("Header toolbar layout"@));
    lemma_no_brace_no_placeholder("顶部工具栏布局"@);
    lemma_no_brace_no_placeholder("Header toolbar layout"@);
}

proof fn lemma_message_appearance_create_custom_theme()
    ensures
        zh_cn_text(MessageId::AppearanceCreateCustomTheme).len() > 0,
        has_count_placeholder(zh_cn_text(MessageId::AppearanceCreateCustomTheme)) == has_count_placeholder(
            en_us_text(MessageId::AppearanceCreateCustomTheme),
        ),
{
    reveal_strlit("创建自定义主题");
    reveal_strlit("Create your own custom theme");
    assert(has_no_brace("创建自定义主题"@));
    assert(has_no_brace("Create your own custom theme"@));
    lemma_no_brace_no_placeholder("创建自定义主题"@);
    lemma_no_brace_no_placeholder("Create your own custom theme"@);
}

proof fn lemma_message_appearance_window_opacity()
    ensures
        zh_cn_text(MessageId::AppearanceWindowOpacity).len() > 0,
        has_count_placeholder(zh_cn_text(MessageId::AppearanceWindowOpacity)) == has_count_placeholder(
            en_us_text(MessageId::AppearanceWindowOpacity),
        ),
{
    reveal_strlit("窗口不透明度");
    reveal_strlit("Window Opacity");
    assert(has_no_brace("窗口不透明度"@));
    assert(has_no_brace("Window Opacity"@));
    lemma_no_brace_no_placeholder("窗口不透明度"@);
    lemma_no_brace_no_placeholder("Window Opacity"@);
}

proof fn lemma_message_appearance_window_blur()
    ensures
        zh_cn_text(MessageId::AppearanceWindowBlur).len() > 0,
        has_count_placeholder(zh_cn_text(MessageId::AppearanceWindowBlur)) == has_count_placeholder(
            en_us_text(MessageId::AppearanceWindowBlur),
        ),
{
    reveal_strlit("使用窗口模糊");
    reveal_strlit("Use Window Blur");
    assert(has_no_brace("使用窗口模糊"@));
    assert(has_no_brace("Use Window Blur"@));
    lemma_no_brace_no_placeholder("使用窗口模糊"@);
    lemma_no_brace_no_placeholder("Use Window Blur"@);
}

proof fn lemma_message_appearance_input_type()
    ensures
        zh_cn_text(MessageId::AppearanceInputType).len() > 0,
        has_count_placeholder(zh_cn_text(MessageId::AppearanceInputType)) == has_count_placeholder(
            en_us_text(MessageId::AppearanceInputType),
        ),
{
    reveal_strlit("输入类型");
    reveal_strlit("Input type");
    assert(has_no_brace("输入类型"@));
    assert(has_no_brace("Input type"@));
    lemma_no_brace_no_placeholder("输入类型"@);
    lemma_no_brace_no_placeholder("Input type"@);
}

proof fn lemma_message_appearance_show_code_review_button()
    ensures
        zh_cn_text(MessageId::AppearanceShowCodeReviewButton).len() > 0,
        has_count_placeholder(zh_cn_text(MessageId::AppearanceShowCodeReviewButton)) == has_count_placeholder(
            en_us_text(MessageId::AppearanceShowCodeReviewButton),
        ),
{
    reveal_strlit("在标签栏显示代码审查按钮");
    reveal_strlit("Show code review button in tab bar");
    assert(has_no_brace("在标签栏显示代码审查按钮"@));
    assert(has_no_brace("Show code review button in tab bar"@));
    lemma_no_brace_no_placeholder("在标签栏显示代码审查按钮"@);
    lemma_no_brace_no_placeholder("Show code review button in tab bar"@);
}

proof fn lemma_message_appearance_hide_code_review_button()
    ensures
        zh_cn_text(MessageId::AppearanceHideCodeReviewButton).len() > 0,
        has_count_placeholder(zh_cn_text(MessageId::AppearanceHideCodeReviewButton)) == has_count_placeholder(
            en_us_text(MessageId::AppearanceHideCodeReviewButton),
        ),
{
    reveal_strlit("在标签栏隐藏代码审查按钮");
    reveal_strlit("Hide code review button in tab bar");
    assert(has_no_brace("在标签栏隐藏代码审查按钮"@));
    assert(has_no_brace("Hide code review button in tab bar"@));
    lemma_no_brace_no_placeholder("在标签栏隐藏代码审查按钮"@);
    lemma_no_brace_no_placeholder("Hide code review button in tab bar"@);
}

proof fn lemma_message_appearance_input_mode_warp()
    ensures
        zh_cn_text(MessageId::AppearanceInputModeWarp).len() > 0,
        has_count_placeholder(zh_cn_text(MessageId::AppearanceInputModeWarp)) == has_count_placeholder(
            en_us_text(MessageId::AppearanceInputModeWarp),
        ),
{
    reveal_strlit("固定到底部（Warp 模式）");
    reveal_strlit("Pin to the bottom (Warp mode)");
    assert(has_no_brace("固定到底部（Warp 模式）"@));
    assert(has_no_brace("Pin to the bottom (Warp mode)"@));
    lemma_no_brace_no_placeholder("固定到底部（Warp 模式）"@);
    lemma_no_brace_no_placeholder("Pin to the bottom (Warp mode)"@);
}

proof fn lemma_message_appearance_input_mode_reverse()
    ensures
        zh_cn_text(MessageId::AppearanceInputModeReverse).len() > 0,
        has_count_placeholder(zh_cn_text(MessageId::AppearanceInputModeReverse)) == has_count_placeholder(
            en_us_text(MessageId::AppearanceInputModeReverse),
        ),
{
    reveal_strlit("固定到顶部（反向模式）");
    reveal_strlit("Pin to the top (Reverse mode)");
    assert(has_no_brace("固定到顶部（反向模式）"@));
    assert(has_no_brace("Pin to the top (Reverse mode)"@));
    lemma_no_brace_no_placeholder("固定到顶部（反向模式）"@);
    lemma_no_brace_no_placeholder("Pin to the top (Reverse mode)"@);
}

proof fn lemma_message_appearance_input_mode_classic()
    ensures
        zh_cn_text(MessageId::AppearanceInputModeClassic).len() > 0,
        has_count_placeholder(zh_cn_text(MessageId::AppearanceInputModeClassic)) == has_count_placeholder(
            en_us_text(MessageId::AppearanceInputModeClassic),
        ),
{
    reveal_strlit("在顶部开始（经典模式）");
    reveal_strlit("Start at the top (Classic mode)");
    assert(has_no_brace("在顶部开始（经典模式）"@));
    assert(has_no_brace("Start at the top (Classic mode)"@));
    lemma_no_brace_no_placeholder("在顶部开始（经典模式）"@);
    lemma_no_brace_no_placeholder("Start at the top (Classic mode)"@);
}

proof fn lemma_message_appearance_thin_strokes_never()
    ensures
        zh_cn_text(MessageId::AppearanceThinStrokesNever).len() > 0,
        has_count_placeholder(zh_cn_text(MessageId::AppearanceThinStrokesNever)) == has_count_placeholder(
            en_us_text(MessageId::AppearanceThinStrokesNever),
        ),
{
    reveal_strlit("从不");
    reveal_strlit("Never");
    assert(has_no_brace("从不"@));
    assert(has_no_brace("Never"@));
    lemma_no_brace_no_placeholder("从不"@);
    lemma_no_brace_no_placeholder("Never"@);
}

proof fn lemma_message_appearance_thin_strokes_low_dpi()
    ensures
        zh_cn_text(MessageId::AppearanceThinStrokesLowDpi).len() > 0,
        has_count_placeholder(zh_cn_text(MessageId::AppearanceThinStrokesLowDpi)) == has_count_placeholder(
            en_us_text(MessageId::AppearanceThinStrokesLowDpi),
        ),
{
    reveal_strlit("在低 DPI 显示器上");
    reveal_strlit("On low-DPI displays");
    assert(has_no_brace("在低 DPI 显示器上"@));
    assert(has_no_brace("On low-DPI displays"@));
    lemma_no_brace_no_placeholder("在低 DPI 显示器上"@);
    lemma_no_brace_no_placeholder("On low-DPI displays"@);
}

proof fn lemma_message_appearance_thin_strokes_high_dpi()
    ensures
        zh_cn_text(MessageId::AppearanceThinStrokesHighDpi).len() > 0,
        has_count_placeholder(zh_cn_text(MessageId::AppearanceThinStrokesHighDpi)) == has_count_placeholder(
            en_us_text(MessageId::AppearanceThinStrokesHighDpi),
        ),
{
    reveal_strlit("在高 DPI 显示器上");
    reveal_strlit("On high-DPI displays");
    assert(has_no_brace("在高 DPI 显示器上"@));
    assert(has_no_brace("On high-DPI displays"@));
    lemma_no_brace_no_placeholder("在高 DPI 显示器上"@);
    lemma_no_brace_no_placeholder("On high-DPI displays"@);
}

proof fn lemma_message_appearance_thin_strokes_always()
    ensures
        zh_cn_text(MessageId::AppearanceThinStrokesAlways).len() > 0,
        has_count_placeholder(zh_cn_text(MessageId::AppearanceThinStrokesAlways)) == has_count_placeholder(
            en_us_text(MessageId::AppearanceThinStrokesAlways),
        ),
{
    reveal_strlit("始终");
    reveal_strlit("Always");
    assert(has_no_brace("始终"@));
    assert(has_no_brace("Always"@));
    lemma_no_brace_no_placeholder("始终"@);
    lemma_no_brace_no_placeholder("Always"@);
}

proof fn lemma_message_appearance_contrast_always()
    ensures
        zh_cn_text(MessageId::AppearanceContrastAlways).len() > 0,
        has_count_placeholder(zh_cn_text(MessageId::AppearanceContrastAlways)) == has_count_placeholder(
            en_us_text(MessageId::AppearanceContrastAlways),
        ),
{
    reveal_strlit("始终");
    reveal_strlit("Always");
    assert(has_no_brace("始终"@));
    assert(has_no_brace("Always"@));
    lemma_no_brace_no_placeholder("始终"@);
    lemma_no_brace_no_placeholder("Always"@);
}

proof fn lemma_message_appearance_contrast_named_colors()
    ensures
        zh_cn_text(MessageId::AppearanceContrastNamedColors).len() > 0,
        has_count_placeholder(zh_cn_text(MessageId::AppearanceContrastNamedColors)) == has_count_placeholder(
            en_us_text(MessageId::AppearanceContrastNamedColors),
        ),
{
    reveal_strlit("仅命名颜色");
    reveal_strlit("Only for named colors");
    assert(has_no_brace("仅命名颜色"@));
    assert(has_no_brace("Only for named colors"@));
    lemma_no_brace_no_placeholder("仅命名颜色"@);
    lemma_no_brace_no_placeholder("Only for named colors"@);
}

proof fn lemma_message_appearance_never()
    ensures
        zh_cn_text(MessageId::AppearanceNever).len() > 0,
        has_count_placeholder(zh_cn_text(MessageId::AppearanceNever)) == has_count_placeholder(
            en_us_text(MessageId::AppearanceNever),
        ),
{
    reveal_strlit("从不");
    reveal_strlit("Never");
    assert(has_no_brace("从不"@));
    assert(has_no_brace("Never"@));
    lemma_no_brace_no_placeholder("从不"@);
    lemma_no_brace_no_placeholder("Never"@);
}

proof fn lemma_message_appearance_always()
    ensures
        zh_cn_text(MessageId::AppearanceAlways).len() > 0,
        has_count_placeholder(zh_cn_text(MessageId::AppearanceAlways)) == has_count_placeholder(
            en_us_text(MessageId::AppearanceAlways),
        ),
{
    reveal_strlit("始终");
    reveal_strlit("Always");
    assert(has_no_brace("始终"@));
    assert(has_no_brace("Always"@));
    lemma_no_brace_no_placeholder("始终"@);
    lemma_no_brace_no_placeholder("Always"@);
}

proof fn lemma_message_features_category_general()
    ensures
        zh_cn_text(MessageId::FeaturesCategoryGeneral).len() > 0,
        has_count_placeholder(zh_cn_text(MessageId::FeaturesCategoryGeneral)) == has_count_placeholder(
            en_us_text(MessageId::FeaturesCategoryGeneral),
        ),
{
    reveal_strlit("通用");
    reveal_strlit("General");
    assert(has_no_brace("通用"@));
    assert(has_no_brace("General"@));
    lemma_no_brace_no_placeholder("通用"@);
    lemma_no_brace_no_placeholder("General"@);
}

proof fn lemma_message_features_category_session()
    ensures
        zh_cn_text(MessageId::FeaturesCategorySession).len() > 0,
        has_count_placeholder(zh_cn_text(MessageId::FeaturesCategorySession)) == has_count_placeholder(
            en_us_text(MessageId::FeaturesCategorySession),
        ),
{
    reveal_strlit("会话");
    reveal_strlit("Session");
    assert(has_no_brace("会话"@));
    assert(has_no_brace("Session"@));
    lemma_no_brace_no_placeholder("会话"@);
    lemma_no_brace_no_placeholder("Session"@);
}

proof fn lemma_message_features_category_keys()
    ensures
        zh_cn_text(MessageId::FeaturesCategoryKeys).len() > 0,
        has_count_placeholder(zh_cn_text(MessageId::FeaturesCategoryKeys)) == has_count_placeholder(
            en_us_text(MessageId::FeaturesCategoryKeys),
        ),
{
    reveal_strlit("按键");
    reveal_strlit("Keys");
    assert(has_no_brace("按键"@));
    assert(has_no_brace("Keys"@));
    lemma_no_brace_no_placeholder("按键"@);
    lemma_no_brace_no_placeholder("Keys"@);
}

proof fn lemma_message_features_category_text_editing()
    ensures
        zh_cn_text(MessageId::FeaturesCategoryTextEditing).len() > 0,
        has_count_placeholder(zh_cn_text(MessageId::FeaturesCategoryTextEditing)) == has_count_placeholder(
            en_us_text(MessageId::FeaturesCategoryTextEditing),
        ),
{
    reveal_strlit("文本编辑");
    reveal_strlit("Text Editing");
    assert(has_no_brace("文本编辑"@));
    assert(has_no_brace("Text Editing"@));
    lemma_no_brace_no_placeholder("文本编辑"@);
    lemma_no_brace_no_placeholder("Text Editing"@);
}

proof fn lemma_message_features_category_terminal_input()
    ensures
        zh_cn_text(MessageId::FeaturesCategoryTerminalInput).len() > 0,
        has_count_placeholder(zh_cn_text(MessageId::FeaturesCategoryTerminalInput)) == has_count_placeholder(
            en_us_text(MessageId::FeaturesCategoryTerminalInput),
        ),
{
    reveal_strlit("终端输入");
    reveal_strlit("Terminal Input");
    assert(has_no_brace("终端输入"@));
    assert(has_no_brace("Terminal Input"@));
    lemma_no_brace_no_placeholder("终端输入"@);
    lemma_no_brace_no_placeholder("Terminal Input"@);
}

proof fn lemma_message_features_category_terminal()
    ensures
        zh_cn_text(MessageId::FeaturesCategoryTerminal).len() > 0,
        has_count_placeholder(zh_cn_text(MessageId::FeaturesCategoryTerminal)) == has_count_placeholder(
            en_us_text(MessageId::FeaturesCategoryTerminal),
        ),
{
    reveal_strlit("终端");
    reveal_strlit("Terminal");
    assert(has_no_brace("终端"@));
    assert(has_no_brace("Terminal"@));
    lemma_no_brace_no_placeholder("终端"@);
    lemma_no_brace_no_placeholder("Terminal"@);
}

proof fn lemma_message_features_category_notifications()
    ensures
        zh_cn_text(MessageId::FeaturesCategoryNotifications).len() > 0,
        has_count_placeholder(zh_cn_text(MessageId::FeaturesCategoryNotifications)) == has_count_placeholder(
            en_us_text(MessageId::FeaturesCategoryNotifications),
        ),
{
    reveal_strlit("通知");
    reveal_strlit("Notifications");
    assert(has_no_brace("通知"@));
    assert(has_no_brace("Notifications"@));
    lemma_no_brace_no_placeholder("通知"@);
    lemma_no_brace_no_placeholder("Notifications"@);
}

proof fn lemma_message_features_category_workflows()
    ensures
        zh_cn_text(MessageId::FeaturesCategoryWorkflows).len() > 0,
        has_count_placeholder(zh_cn_text(MessageId::FeaturesCategoryWorkflows)) == has_count_placeholder(
            en_us_text(MessageId::FeaturesCategoryWorkflows),
        ),
{
    reveal_strlit("工作流");
    reveal_strlit("Workflows");
    assert(has_no_brace("工作流"@));
    assert(has_no_brace("Workflows"@));
    lemma_no_brace_no_placeholder("工作流"@);
    lemma_no_brace_no_placeholder("Workflows"@);
}

proof fn lemma_message_features_category_system()
    ensures
        zh_cn_text(MessageId::FeaturesCategorySystem).len() > 0,
        has_count_placeholder(zh_cn_text(MessageId::FeaturesCategorySystem)) == has_count_placeholder(
            en_us_text(MessageId::FeaturesCategorySystem),
        ),
{
    reveal_strlit("系统");
    reveal_strlit("System");
    assert(has_no_brace("系统"@));
    assert(has_no_brace("System"@));
    lemma_no_brace_no_placeholder("系统"@);
    lemma_no_brace_no_placeholder("System"@);
}

proof fn lemma_message_features_copy_on_select()
    ensures
        zh_cn_text(MessageId::FeaturesCopyOnSelect).len() > 0,
        has_count_placeholder(zh_cn_text(MessageId::FeaturesCopyOnSelect)) == has_count_placeholder(
            en_us_text(MessageId::FeaturesCopyOnSelect),
        ),
{
    reveal_strlit("在终端中选中时复制");
    reveal_strlit("Copy on select within the terminal");
    assert(has_no_brace("在终端中选中时复制"@));
    assert(has_no_brace("Copy on select within the terminal"@));
    lemma_no_brace_no_placeholder("在终端中选中时复制"@);
    lemma_no_brace_no_placeholder("Copy on select within the terminal"@);
}

proof fn lemma_message_features_linux_selection_clipboard()
    ensures
        zh_cn_text(MessageId::FeaturesLinuxSelectionClipboard).len() > 0,
        has_count_placeholder(zh_cn_text(MessageId::FeaturesLinuxSelectionClipboard)) == has_count_placeholder(
            en_us_text(MessageId::FeaturesLinuxSelectionClipboard),
        ),
{
    reveal_strlit("Linux 选择剪贴板");
    reveal_strlit("Linux selection clipboard");
    assert(has_no_brace("Linux 选择剪贴板"@));
    assert(has_no_brace("Linux selection clipboard"@));
    lemma_no_brace_no_placeholder("Linux 选择剪贴板"@);
    lemma_no_brace_no_placeholder("Linux selection clipboard"@);
}

proof fn lemma_message_features_autocomplete_quotes()
    ensures
        zh_cn_text(MessageId::FeaturesAutocompleteQuotes).len() > 0,
        has_count_placeholder(zh_cn_text(MessageId::FeaturesAutocompleteQuotes)) == has_count_placeholder(
            en_us_text(MessageId::FeaturesAutocompleteQuotes),
        ),
{
    reveal_strlit("自动补全引号、圆括号和方括号");
    reveal_strlit("Autocomplete quotes, parentheses, and brackets");
    assert(has_no_brace("自动补全引号、圆括号和方括号"@));
    assert(has_no_brace("Autocomplete quotes, parentheses, and brackets"@));
    lemma_no_brace_no_placeholder("自动补全引号、圆括号和方括号"@);
    lemma_no_brace_no_placeholder("Autocomplete quotes, parentheses, and brackets"@);
}

proof fn lemma_message_features_restore_windows()
    ensures
        zh_cn_text(MessageId::FeaturesRestoreWindows).len() > 0,
        has_count_placeholder(zh_cn_text(MessageId::FeaturesRestoreWindows)) == has_count_placeholder(
            en_us_text(MessageId::FeaturesRestoreWindows),
        ),
{
    reveal_strlit("启动时恢复窗口、标签页和窗格");
    reveal_strlit("Restore windows, tabs, and panes on startup");
    assert(has_no_brace("启动时恢复窗口、标签页和窗格"@));
    assert(has_no_brace("Restore windows, tabs, and panes on startup"@));
    lemma_no_brace_no_placeholder("启动时恢复窗口、标签页和窗格"@);
    lemma_no_brace_no_placeholder("Restore windows, tabs, and panes on startup"@);
}

proof fn lemma_message_features_scroll_reporting()
    ensures
        zh_cn_text(MessageId::FeaturesScrollReporting).len() > 0,
        has_count_placeholder(zh_cn_text(MessageId::FeaturesScrollReporting)) == has_count_placeholder(
            en_us_text(MessageId::FeaturesScrollReporting),
        ),
{
    reveal_strlit("滚动上报");
    reveal_strlit("Scroll reporting");
    assert(has_no_brace("滚动上报"@));
    assert(has_no_brace("Scroll reporting"@));
    lemma_no_brace_no_placeholder("滚动上报"@);
    lemma_no_brace_no_placeholder("Scroll reporting"@);
}

proof fn lemma_message_features_completions_while_typing()
    ensures
        zh_cn_text(MessageId::FeaturesCompletionsWhileTyping).len() > 0,
        has_count_placeholder(zh_cn_text(MessageId::FeaturesCompletionsWhileTyping)) == has_count_placeholder(
            en_us_text(MessageId::FeaturesCompletionsWhileTyping),
        ),
{
    reveal_strlit("输入时自动补全");
    reveal_strlit("Completions while typing");
    assert(has_no_brace("输入时自动补全"@));
    assert(has_no_brace("Completions while typing"@));
    lemma_no_brace_no_placeholder("输入时自动补全"@);
    lemma_no_brace_no_placeholder("Completions while typing"@);
}

proof fn lemma_message_features_command_corrections()
    ensures
        zh_cn_text(MessageId::FeaturesCommandCorrections).len() > 0,
        has_count_placeholder(zh_cn_text(MessageId::FeaturesCommandCorrections)) == has_count_placeholder(
            en_us_text(MessageId::FeaturesCommandCorrections),
        ),
{
    reveal_strlit("命令纠错");
    reveal_strlit("Command corrections");
    assert(has_no_brace("命令纠错"@));
    assert(has_no_brace("Command corrections"@));
    lemma_no_brace_no_placeholder("命令纠错"@);
    lemma_no_brace_no_placeholder("Command corrections"@);
}

proof fn lemma_message_features_error_underlining()
    ensures
        zh_cn_text(MessageId::FeaturesErrorUnderlining).len() > 0,
        has_count_placeholder(zh_cn_text(MessageId::FeaturesErrorUnderlining)) == has_count_placeholder(
            en_us_text(MessageId::FeaturesErrorUnderlining),
        ),
{
    reveal_strlit("错误下划线");
    reveal_strlit("Error underlining");
    assert(has_no_brace("错误下划线"@));
    assert(has_no_brace("Error underlining"@));
    lemma_no_brace_no_placeholder("错误下划线"@);
    lemma_no_brace_no_placeholder("Error underlining"@);
}

proof fn lemma_message_features_syntax_highlighting()
    ensures
        zh_cn_text(MessageId::FeaturesSyntaxHighlighting).len() > 0,
        has_count_placeholder(zh_cn_text(MessageId::FeaturesSyntaxHighlighting)) == has_count_placeholder(
            en_us_text(MessageId::FeaturesSyntaxHighlighting),
        ),
{
    reveal_strlit("语法高亮");
    reveal_strlit("Syntax highlighting");
    assert(has_no_brace("语法高亮"@));
    assert(has_no_brace("Syntax highlighting"@));
    lemma_no_brace_no_placeholder("语法高亮"@);
    lemma_no_brace_no_placeholder("Syntax highlighting"@);
}

proof fn lemma_message_features_audible_terminal_bell()
    ensures
        zh_cn_text(MessageId::FeaturesAudibleTerminalBell).len() > 0,
        has_count_placeholder(zh_cn_text(MessageId::FeaturesAudibleTerminalBell)) == has_count_placeholder(
            en_us_text(MessageId::FeaturesAudibleTerminalBell),
        ),
{
    reveal_strlit("终端响铃");
    reveal_strlit("Audible terminal bell");
    assert(has_no_brace("终端响铃"@));
    assert(has_no_brace("Audible terminal bell"@));
    lemma_no_brace_no_placeholder("终端响铃"@);
    lemma_no_brace_no_placeholder("Audible terminal bell"@);
}

proof fn lemma_message_features_autosuggestions()
    ensures
        zh_cn_text(MessageId::FeaturesAutosuggestions).len() > 0,
        has_count_placeholder(zh_cn_text(MessageId::FeaturesAutosuggestions)) == has_count_placeholder(
            en_us_text(MessageId::FeaturesAutosuggestions),
        ),
{
    reveal_strlit("自动建议");
    reveal_strlit("Autosuggestions");
    assert(has_no_brace("自动建议"@));
    assert(has_no_brace("Autosuggestions"@));
    lemma_no_brace_no_placeholder("自动建议"@);
    lemma_no_brace_no_placeholder("Autosuggestions"@);
}

proof fn lemma_message_features_autosuggestion_keybinding_hint()
    ensures
        zh_cn_text(MessageId::FeaturesAutosuggestionKeybindingHint).len() > 0,
        has_count_placeholder(zh_cn_text(MessageId::FeaturesAutosuggestionKeybindingHint)) == has_count_placeholder(
            en_us_text(MessageId::FeaturesAutosuggestionKeybindingHint),
        ),
{
    reveal_strlit("自动建议快捷键提示");
    reveal_strlit("Autosuggestion keybinding hint");
    assert(has_no_brace("自动建议快捷键提示"@));
    assert(has_no_brace("Autosuggestion keybinding hint"@));
    lemma_no_brace_no_placeholder("自动建议快捷键提示"@);
    lemma_no_brace_no_placeholder("Autosuggestion keybinding hint"@);
}

proof fn lemma_message_features_ssh_wrapper()
    ensures
        zh_cn_text(MessageId::FeaturesSshWrapper).len() > 0,
        has_count_placeholder(zh_cn_text(MessageId::FeaturesSshWrapper)) == has_count_placeholder(
            en_us_text(MessageId::FeaturesSshWrapper),
        ),
{
    reveal_strlit("Warp SSH 包装器");
    reveal_strlit("Warp SSH wrapper");
    assert(has_no_brace("Warp SSH 包装器"@));
    assert(has_no_brace("Warp SSH wrapper"@));
    lemma_no_brace_no_placeholder("Warp SSH 包装器"@);
    lemma_no_brace_no_placeholder("Warp SSH wrapper"@);
}

proof fn lemma_message_features_link_tooltip()
    ensures
        zh_cn_text(MessageId::FeaturesLinkTooltip).len() > 0,
        has_count_placeholder(zh_cn_text(MessageId::FeaturesLinkTooltip)) == has_count_placeholder(
            en_us_text(MessageId::FeaturesLinkTooltip),
        ),
{
    reveal_strlit("点击链接时显示提示");
    reveal_strlit("Show tooltip on click on links");
    assert(has_no_brace("点击链接时显示提示"@));
    assert(has_no_brace("Show tooltip on click on links"@));
    lemma_no_brace_no_placeholder("点击链接时显示提示"@);
    lemma_no_brace_no_placeholder("Show tooltip on click on links"@);
}

proof fn lemma_message_features_vim_unnamed_register()
    ensures
        zh_cn_text(MessageId::FeaturesVimUnnamedRegister).len() > 0,
        has_count_placeholder(zh_cn_text(MessageId::FeaturesVimUnnamedRegister)) == has_count_placeholder(
            en_us_text(MessageId::FeaturesVimUnnamedRegister),
        ),
{
    reveal_strlit("Vim 未命名寄存器作为系统剪贴板");
    reveal_strlit("Vim unnamed register as system clipboard");
    assert(has_no_brace("Vim 未命名寄存器作为系统剪贴板"@));
    assert(has_no_brace("Vim unnamed register as system clipboard"@));
    lemma_no_brace_no_placeholder("Vim 未命名寄存器作为系统剪贴板"@);
    lemma_no_brace_no_placeholder("Vim unnamed register as system clipboard"@);
}

proof fn lemma_message_features_vim_status_bar()
    ensures
        zh_cn_text(MessageId::FeaturesVimStatusBar).len() > 0,
        has_count_placeholder(zh_cn_text(MessageId::FeaturesVimStatusBar)) == has_count_placeholder(
            en_us_text(MessageId::FeaturesVimStatusBar),
        ),
{
    reveal_strlit("Vim 状态栏");
    reveal_strlit("Vim status bar");
    assert(has_no_brace("Vim 状态栏"@));
    assert(has_no_brace("Vim status bar"@));
    lemma_no_brace_no_placeholder("Vim 状态栏"@);
    lemma_no_brace_no_placeholder("Vim status bar"@);
}

proof fn lemma_message_features_wayland_window_management()
    ensures
        zh_cn_text(MessageId::FeaturesWaylandWindowManagement).len() > 0,
        has_count_placeholder(zh_cn_text(MessageId::FeaturesWaylandWindowManagement)) == has_count_placeholder(
            en_us_text(MessageId::FeaturesWaylandWindowManagement),
        ),
{
    reveal_strlit("使用 Wayland 进行窗口管理");
    reveal_strlit("Wayland for window management");
    assert(has_no_brace("使用 Wayland 进行窗口管理"@));
    assert(has_no_brace("Wayland for window management"@));
    lemma_no_brace_no_placeholder("使用 Wayland 进行窗口管理"@);
    lemma_no_brace_no_placeholder("Wayland for window management"@);
}

proof fn lemma_message_features_configure_global_hotkey()
    ensures
        zh_cn_text(MessageId::FeaturesConfigureGlobalHotkey).len() > 0,
        has_count_placeholder(zh_cn_text(MessageId::FeaturesConfigureGlobalHotkey)) == has_count_placeholder(
            en_us_text(MessageId::FeaturesConfigureGlobalHotkey),
        ),
{
    reveal_strlit("配置全局热键");
    reveal_strlit("Configure Global Hotkey");
    assert(has_no_brace("配置全局热键"@));
    assert(has_no_brace("Configure Global Hotkey"@));
    lemma_no_brace_no_placeholder("配置全局热键"@);
    lemma_no_brace_no_placeholder("Configure Global Hotkey"@);
}

proof fn lemma_message_features_make_default_terminal()
    ensures
        zh_cn_text(MessageId::FeaturesMakeDefaultTerminal).len() > 0,
        has_count_placeholder(zh_cn_text(MessageId::FeaturesMakeDefaultTerminal)) == has_count_placeholder(
            en_us_text(MessageId::FeaturesMakeDefaultTerminal),
        ),
{
    reveal_strlit("将 Warp 设为默认终端");
    reveal_strlit("Make Warp the default terminal");
    assert(has_no_brace("将 Warp 设为默认终端"@));
    assert(has_no_brace("Make Warp the default terminal"@));
    lemma_no_brace_no_placeholder("将 Warp 设为默认终端"@);
    lemma_no_brace_no_placeholder("Make Warp the default terminal"@);
}

proof fn lemma_message_features_left_option_meta()
    ensures
        zh_cn_text(MessageId::FeaturesLeftOptionMeta).len() > 0,
        has_count_placeholder(zh_cn_text(MessageId::FeaturesLeftOptionMeta)) == has_count_placeholder(
            en_us_text(MessageId::FeaturesLeftOptionMeta),
        ),
{
    reveal_strlit("左侧 Option 键为 Meta");
    reveal_strlit("Left Option key is Meta");
    assert(has_no_brace("左侧 Option 键为 Meta"@));
    assert(has_no_brace("Left Option key is Meta"@));
    lemma_no_brace_no_placeholder("左侧 Option 键为 Meta"@);
    lemma_no_brace_no_placeholder("Left Option key is Meta"@);
}

proof fn lemma_message_features_right_option_meta()
    ensures
        zh_cn_text(MessageId::FeaturesRightOptionMeta).len() > 0,
        has_count_placeholder(zh_cn_text(MessageId::FeaturesRightOptionMeta)) == has_count_placeholder(
            en_us_text(MessageId::FeaturesRightOptionMeta),
        ),
{
    reveal_strlit("右侧 Option 键为 Meta");
    reveal_strlit("Right Option key is Meta");
    assert(has_no_brace("右侧 Option 键为 Meta"@));
    assert(has_no_brace("Right Option key is Meta"@));
    lemma_no_brace_no_placeholder("右侧 Option 键为 Meta"@);
    lemma_no_brace_no_placeholder("Right Option key is Meta"@);
}

proof fn lemma_message_features_left_alt_meta()
    ensures
        zh_cn_text(MessageId::FeaturesLeftAltMeta).len() > 0,
        has_count_placeholder(zh_cn_text(MessageId::FeaturesLeftAltMeta)) == has_count_placeholder(
            en_us_text(MessageId::FeaturesLeftAltMeta),
        ),
{
    reveal_strlit("左侧 Alt 键为 Meta");
    reveal_strlit("Left Alt key is Meta");
    assert(has_no_brace("左侧 Alt 键为 Meta"@));
    assert(has_no_brace("Left Alt key is Meta"@));
    lemma_no_brace_no_placeholder("左侧 Alt 键为 Meta"@);
    lemma_no_brace_no_placeholder("Left Alt key is Meta"@);
}

proof fn lemma_message_features_right_alt_meta()
    ensures
        zh_cn_text(MessageId::FeaturesRightAltMeta).len() > 0,
        has_count_placeholder(zh_cn_text(MessageId::FeaturesRightAltMeta)) == has_count_placeholder(
            en_us_text(MessageId::FeaturesRightAltMeta),
        ),
{
    reveal_strlit("右侧 Alt 键为 Meta");
    reveal_strlit("Right Alt key is Meta");
    assert(has_no_brace("右侧 Alt 键为 Meta"@));
    assert(has_no_brace("Right Alt key is Meta"@));
    lemma_no_brace_no_placeholder("右侧 Alt 键为 Meta"@);
    lemma_no_brace_no_placeholder("Right Alt key is Meta"@);
}

proof fn lemma_message_features_performance_warning()
    ensures
        zh_cn_text(MessageId::FeaturesPerformanceWarning).len() > 0,
        has_count_placeholder(zh_cn_text(MessageId::FeaturesPerformanceWarning)) == has_count_placeholder(
            en_us_text(MessageId::FeaturesPerformanceWarning),
        ),
{
    reveal_strlit("将限制设置为超过 10 万行可能会影响性能。");
    reveal_strlit("Setting the limit above 100k lines may impact performance.");
    assert(has_no_brace("将限制设置为超过 10 万行可能会影响性能。"@));
    assert(has_no_brace("Setting the limit above 100k lines may impact performance."@));
    lemma_no_brace_no_placeholder("将限制设置为超过 10 万行可能会影响性能。"@);
    lemma_no_brace_no_placeholder("Setting the limit above 100k lines may impact performance."@);
}

proof fn lemma_message_code_initialization_settings()
    ensures
        zh_cn_text(MessageId::CodeInitializationSettings).len() > 0,
        has_count_placeholder(zh_cn_text(MessageId::CodeInitializationSettings)) == has_count_placeholder(
            en_us_text(MessageId::CodeInitializationSettings),
        ),
{
    reveal_strlit("初始化设置");
    reveal_strlit("Initialization Settings");
    assert(has_no_brace("初始化设置"@));
    assert(has_no_brace("Initialization Settings"@));
    lemma_no_brace_no_placeholder("初始化设置"@);
    lemma_no_brace_no_placeholder("Initialization Settings"@);
}

proof fn lemma_message_code_codebase_indexing()
    ensures
        zh_cn_text(MessageId::CodeCodebaseIndexing).len() > 0,
        has_count_placeholder(zh_cn_text(MessageId::CodeCodebaseIndexing)) == has_count_placeholder(
            en_us_text(MessageId::CodeCodebaseIndexing),
        ),
{
    reveal_strlit("代码库索引");
    reveal_strlit("Codebase indexing");
    assert(has_no_brace("代码库索引"@));
    assert(has_no_brace("Codebase indexing"@));
    lemma_no_brace_no_placeholder("代码库索引"@);
    lemma_no_brace_no_placeholder("Codebase indexing"@);
}

proof fn lemma_message_code_codebase_index_description()
    ensures
        zh_cn_text(MessageId::CodeCodebaseIndexDescription).len() > 0,
        has_count_placeholder(zh_cn_text(MessageId::CodeCodebaseIndexDescription)) == has_count_placeholder(
            en_us_text(MessageId::CodeCodebaseIndexDescription),
        ),
{
    reveal_strlit("Warp 可以在您浏览代码仓库时自动建立索引，帮助智能体快速理解上下文并提供解决方案。代码永远不会存储在服务器上。");
    reveal_strlit("Warp can automatically index code repositories as you navigate them, helping agents quickly understand context and provide solutions. Code is never stored on the server.");
    assert(has_no_brace("Warp 可以在您浏览代码仓库时自动建立索引，帮助智能体快速理解上下文并提供解决方案。代码永远不会存储在服务器上。"@));
    assert(has_no_brace("Warp can automatically index code repositories as you navigate them, helping agents quickly understand context and provide solutions. Code is never stored on the server."@));
    lemma_no_brace_no_placeholder("Warp 可以在您浏览代码仓库时自动建立索引，帮助智能体快速理解上下文并提供解决方案。代码永远不会存储在服务器上。"@);
    lemma_no_brace_no_placeholder("Warp can automatically index code repositories as you navigate them, helping agents quickly understand context and provide solutions. Code is never stored on the server."@);
}

proof fn lemma_message_code_warp_indexing_ignore_description()
    ensures
        zh_cn_text(MessageId::CodeWarpIndexingIgnoreDescription).len() > 0,
        has_count_placeholder(zh_cn_text(MessageId::CodeWarpIndexingIgnoreDescription)) == has_count_placeholder(
            en_us_text(MessageId::CodeWarpIndexingIgnoreDescription),
        ),
{
    reveal_strlit("要从索引中排除特定文件或目录，请将它们添加到仓库目录中的 .warpindexingignore 文件中。");
    reveal_strlit("To exclude specific files or directories from indexing, add them to the .warpindexingignore file in your repository directory.");
    assert(has_no_brace("要从索引中排除特定文件或目录，请将它们添加到仓库目录中的 .warpindexingignore 文件中。"@));
    assert(has_no_brace("To exclude specific files or directories from indexing, add them to the .warpindexingignore file in your repository directory."@));
    lemma_no_brace_no_placeholder("要从索引中排除特定文件或目录，请将它们添加到仓库目录中的 .warpindexingignore 文件中。"@);
    lemma_no_brace_no_placeholder("To exclude specific files or directories from indexing, add them to the .warpindexingignore file in your repository directory."@);
}

proof fn lemma_message_code_auto_index_feature_name()
    ensures
        zh_cn_text(MessageId::CodeAutoIndexFeatureName).len() > 0,
        has_count_placeholder(zh_cn_text(MessageId::CodeAutoIndexFeatureName)) == has_count_placeholder(
            en_us_text(MessageId::CodeAutoIndexFeatureName),
        ),
{
    reveal_strlit("默认索引新文件夹");
    reveal_strlit("Index new folders by default");
    assert(has_no_brace("默认索引新文件夹"@));
    assert(has_no_brace("Index new folders by default"@));
    lemma_no_brace_no_placeholder("默认索引新文件夹"@);
    lemma_no_brace_no_placeholder("Index new folders by default"@);
}

proof fn lemma_message_code_auto_index_description()
    ensures
        zh_cn_text(MessageId::CodeAutoIndexDescription).len() > 0,
        has_count_placeholder(zh_cn_text(MessageId::CodeAutoIndexDescription)) == has_count_placeholder(
            en_us_text(MessageId::CodeAutoIndexDescription),
        ),
{
    reveal_strlit("启用后，Warp 将在您浏览代码仓库时自动建立索引。");
    reveal_strlit("When set to true, Warp will automatically index code repositories as you navigate them.");
    assert(has_no_brace("启用后，Warp 将在您浏览代码仓库时自动建立索引。"@));
    assert(has_no_brace("When set to true, Warp will automatically index code repositories as you navigate them."@));
    lemma_no_brace_no_placeholder("启用后，Warp 将在您浏览代码仓库时自动建立索引。"@);
    lemma_no_brace_no_placeholder("When set to true, Warp will automatically index code repositories as you navigate them."@);
}

proof fn lemma_message_code_indexing_disabled_admin()
    ensures
        zh_cn_text(MessageId::CodeIndexingDisabledAdmin).len() > 0,
        has_count_placeholder(zh_cn_text(MessageId::CodeIndexingDisabledAdmin)) == has_count_placeholder(
            en_us_text(MessageId::CodeIndexingDisabledAdmin),
        ),
{
    reveal_strlit("团队管理员已禁用代码库索引。");
    reveal_strlit("Team admins have disabled codebase indexing.");
    assert(has_no_brace("团队管理员已禁用代码库索引。"@));
    assert(has_no_brace("Team admins have disabled codebase indexing."@));
    lemma_no_brace_no_placeholder("团队管理员已禁用代码库索引。"@);
    lemma_no_brace_no_placeholder("Team admins have disabled codebase indexing."@);
}

proof fn lemma_message_code_indexing_workspace_enabled_admin()
    ensures
        zh_cn_text(MessageId::CodeIndexingWorkspaceEnabledAdmin).len() > 0,
        has_count_placeholder(zh_cn_text(MessageId::CodeIndexingWorkspaceEnabledAdmin)) == has_count_placeholder(
            en_us_text(MessageId::CodeIndexingWorkspaceEnabledAdmin),
        ),
{
    reveal_strlit("团队管理员已启用代码库索引。");
    reveal_strlit("Team admins have enabled codebase indexing.");
    assert(has_no_brace("团队管理员已启用代码库索引。"@));
    assert(has_no_brace("Team admins have enabled codebase indexing."@));
    lemma_no_brace_no_placeholder("团队管理员已启用代码库索引。"@);
    lemma_no_brace_no_placeholder("Team admins have enabled codebase indexing."@);
}

proof fn lemma_message_code_indexing_disabled_global_ai()
    ensures
        zh_cn_text(MessageId::CodeIndexingDisabledGlobalAi).len() > 0,
        has_count_placeholder(zh_cn_text(MessageId::CodeIndexingDisabledGlobalAi)) == has_count_placeholder(
            en_us_text(MessageId::CodeIndexingDisabledGlobalAi),
        ),
{
    reveal_strlit("必须启用 AI 功能才能使用代码库索引。");
    reveal_strlit("AI Features must be enabled to use codebase indexing.");
    assert(has_no_brace("必须启用 AI 功能才能使用代码库索引。"@));
    assert(has_no_brace("AI Features must be enabled to use codebase indexing."@));
    lemma_no_brace_no_placeholder("必须启用 AI 功能才能使用代码库索引。"@);
    lemma_no_brace_no_placeholder("AI Features must be enabled to use codebase indexing."@);
}

proof fn lemma_message_code_codebase_index_limit_reached()
    ensures
        zh_cn_text(MessageId::CodeCodebaseIndexLimitReached).len() > 0,
        has_count_placeholder(zh_cn_text(MessageId::CodeCodebaseIndexLimitReached)) == has_count_placeholder(
            en_us_text(MessageId::CodeCodebaseIndexLimitReached),
        ),
{
    reveal_strlit("您已达到当前套餐的最大代码库索引数量。");
    reveal_strlit("You have reached the maximum number of codebase indices for your plan.");
    assert(has_no_brace("您已达到当前套餐的最大代码库索引数量。"@));
    assert(has_no_brace("You have reached the maximum number of codebase indices for your plan."@));
    lemma_no_brace_no_placeholder("您已达到当前套餐的最大代码库索引数量。"@);
    lemma_no_brace_no_placeholder("You have reached the maximum number of codebase indices for your plan."@);
}

proof fn lemma_message_code_codebase_indexing_category()
    ensures
        zh_cn_text(MessageId::CodeCodebaseIndexingCategory).len() > 0,
        has_count_placeholder(zh_cn_text(MessageId::CodeCodebaseIndexingCategory)) == has_count_placeholder(
            en_us_text(MessageId::CodeCodebaseIndexingCategory),
        ),
{
    reveal_strlit("代码库索引");
    reveal_strlit("Codebase Indexing");
    assert(has_no_brace("代码库索引"@));
    assert(has_no_brace("Codebase Indexing"@));
    lemma_no_brace_no_placeholder("代码库索引"@);
    lemma_no_brace_no_placeholder("Codebase Indexing"@);
}

proof fn lemma_message_code_editor_and_review_category()
    ensures
        zh_cn_text(MessageId::CodeEditorAndReviewCategory).len() > 0,
        has_count_placeholder(zh_cn_text(MessageId::CodeEditorAndReviewCategory)) == has_count_placeholder(
            en_us_text(MessageId::CodeEditorAndReviewCategory),
        ),
{
    reveal_strlit("代码编辑器和审查");
    reveal_strlit("Code Editor and Review");
    assert(has_no_brace("代码编辑器和审查"@));
    assert(has_no_brace("Code Editor and Review"@));
    lemma_no_brace_no_placeholder("代码编辑器和审查"@);
    lemma_no_brace_no_placeholder("Code Editor and Review"@);
}

proof fn lemma_message_code_index_new_folder()
    ensures
        zh_cn_text(MessageId::CodeIndexNewFolder).len() > 0,
        has_count_placeholder(zh_cn_text(MessageId::CodeIndexNewFolder)) == has_count_placeholder(
            en_us_text(MessageId::CodeIndexNewFolder),
        ),
{
    reveal_strlit("索引新文件夹");
    reveal_strlit("Index new folder");
    assert(has_no_brace("索引新文件夹"@));
    assert(has_no_brace("Index new folder"@));
    lemma_no_brace_no_placeholder("索引新文件夹"@);
    lemma_no_brace_no_placeholder("Index new folder"@);
}

proof fn lemma_message_code_restart_server()
    ensures
        zh_cn_text(MessageId::CodeRestartServer).len() > 0,
        has_count_placeholder(zh_cn_text(MessageId::CodeRestartServer)) == has_count_placeholder(
            en_us_text(MessageId::CodeRestartServer),
        ),
{
    reveal_strlit("重启服务器");
    reveal_strlit("Restart server");
    assert(has_no_brace("重启服务器"@));
    assert(has_no_brace("Restart server"@));
    lemma_no_brace_no_placeholder("重启服务器"@);
    lemma_no_brace_no_placeholder("Restart server"@);
}

proof fn lemma_message_code_view_logs()
    ensures
        zh_cn_text(MessageId::CodeViewLogs).len() > 0,
        has_count_placeholder(zh_cn_text(MessageId::CodeViewLogs)) == has_count_placeholder(
            en_us_text(MessageId::CodeViewLogs),
        ),
{
    reveal_strlit("查看日志");
    reveal_strlit("View logs");
    assert(has_no_brace("查看日志"@));
    assert(has_no_brace("View logs"@));
    lemma_no_brace_no_placeholder("查看日志"@);
    lemma_no_brace_no_placeholder("View logs"@);
}

proof fn lemma_message_code_syncing()
    ensures
        zh_cn_text(MessageId::CodeSyncing).len() > 0,
        has_count_placeholder(zh_cn_text(MessageId::CodeSyncing)) == has_count_placeholder(
            en_us_text(MessageId::CodeSyncing),
        ),
{
    reveal_strlit("同步中...");
    reveal_strlit("Syncing...");
    assert(has_no_brace("同步中..."@));
    assert(has_no_brace("Syncing..."@));
    lemma_no_brace_no_placeholder("同步中..."@);
    lemma_no_brace_no_placeholder("Syncing..."@);
}

proof fn lemma_message_code_synced()
    ensures
        zh_cn_text(MessageId::CodeSynced).len() > 0,
        has_count_placeholder(zh_cn_text(MessageId::CodeSynced)) == has_count_placeholder(
            en_us_text(MessageId::CodeSynced),
        ),
{
    reveal_strlit("已同步");
    reveal_strlit("Synced");
    assert(has_no_brace("已同步"@));
    assert(has_no_brace("Synced"@));
    lemma_no_brace_no_placeholder("已同步"@);
    lemma_no_brace_no_placeholder("Synced"@);
}

proof fn lemma_message_code_codebase_too_large()
    ensures
        zh_cn_text(MessageId::CodeCodebaseTooLarge).len() > 0,
        has_count_placeholder(zh_cn_text(MessageId::CodeCodebaseTooLarge)) == has_count_placeholder(
            en_us_text(MessageId::CodeCodebaseTooLarge),
        ),
{
    reveal_strlit("代码库过大");
    reveal_strlit("Codebase too large");
    assert(has_no_brace("代码库过大"@));
    assert(has_no_brace("Codebase too large"@));
    lemma_no_brace_no_placeholder("代码库过大"@);
    lemma_no_brace_no_placeholder("Codebase too large"@);
}

proof fn lemma_message_code_installed()
    ensures
        zh_cn_text(MessageId::CodeInstalled).len() > 0,
        has_count_placeholder(zh_cn_text(MessageId::CodeInstalled)) == has_count_placeholder(
            en_us_text(MessageId::CodeInstalled),
        ),
{
    reveal_strlit("已安装");
    reveal_strlit("Installed");
    assert(has_no_brace("已安装"@));
    assert(has_no_brace("Installed"@));
    lemma_no_brace_no_placeholder("已安装"@);
    lemma_no_brace_no_placeholder("Installed"@);
}

proof fn lemma_message_code_installing()
    ensures
        zh_cn_text(MessageId::CodeInstalling).len() > 0,
        has_count_placeholder(zh_cn_text(MessageId::CodeInstalling)) == has_count_placeholder(
            en_us_text(MessageId::CodeInstalling),
        ),
{
    reveal_strlit("安装中...");
    reveal_strlit("Installing...");
    assert(has_no_brace("安装中..."@));
    assert(has_no_brace("Installing..."@));
    lemma_no_brace_no_placeholder("安装中..."@);
    lemma_no_brace_no_placeholder("Installing..."@);
}

proof fn lemma_message_code_checking()
    ensures
        zh_cn_text(MessageId::CodeChecking).len() > 0,
        has_count_placeholder(zh_cn_text(MessageId::CodeChecking)) == has_count_placeholder(
            en_us_text(MessageId::CodeChecking),
        ),
{
    reveal_strlit("检查中...");
    reveal_strlit("Checking...");
    assert(has_no_brace("检查中..."@));
    assert(has_no_brace("Checking..."@));
    lemma_no_brace_no_placeholder("检查中..."@);
    lemma_no_brace_no_placeholder("Checking..."@);
}

proof fn lemma_message_code_available_for_download()
    ensures
        zh_cn_text(MessageId::CodeAvailableForDownload).len() > 0,
        has_count_placeholder(zh_cn_text(MessageId::CodeAvailableForDownload)) == has_count_placeholder(
            en_us_text(MessageId::CodeAvailableForDownload),
        ),
{
    reveal_strlit("可下载");
    reveal_strlit("Available for download");
    assert(has_no_brace("可下载"@));
    assert(has_no_brace("Available for download"@));
    lemma_no_brace_no_placeholder("可下载"@);
    lemma_no_brace_no_placeholder("Available for download"@);
}

proof fn lemma_message_code_available()
    ensures
        zh_cn_text(MessageId::CodeAvailable).len() > 0,
        has_count_placeholder(zh_cn_text(MessageId::CodeAvailable)) == has_count_placeholder(
            en_us_text(MessageId::CodeAvailable),
        ),
{
    reveal_strlit("可用");
    reveal_strlit("Available");
    assert(has_no_brace("可用"@));
    assert(has_no_brace("Available"@));
    lemma_no_brace_no_placeholder("可用"@);
    lemma_no_brace_no_placeholder("Available"@);
}

proof fn lemma_message_code_busy()
    ensures
        zh_cn_text(MessageId::CodeBusy).len() > 0,
        has_count_placeholder(zh_cn_text(MessageId::CodeBusy)) == has_count_placeholder(
            en_us_text(MessageId::CodeBusy),
        ),
{
    reveal_strlit("忙碌");
    reveal_strlit("Busy");
    assert(has_no_brace("忙碌"@));
    assert(has_no_brace("Busy"@));
    lemma_no_brace_no_placeholder("忙碌"@);
    lemma_no_brace_no_placeholder("Busy"@);
}

proof fn lemma_message_code_failed()
    ensures
        zh_cn_text(MessageId::CodeFailed).len() > 0,
        has_count_placeholder(zh_cn_text(MessageId::CodeFailed)) == has_count_placeholder(
            en_us_text(MessageId::CodeFailed),
        ),
{
    reveal_strlit("失败");
    reveal_strlit("Failed");
    assert(has_no_brace("失败"@));
    assert(has_no_brace("Failed"@));
    lemma_no_brace_no_placeholder("失败"@);
    lemma_no_brace_no_placeholder("Failed"@);
}

proof fn lemma_message_code_stopped()
    ensures
        zh_cn_text(MessageId::CodeStopped).len() > 0,
        has_count_placeholder(zh_cn_text(MessageId::CodeStopped)) == has_count_placeholder(
            en_us_text(MessageId::CodeStopped),
        ),
{
    reveal_strlit("已停止");
    reveal_strlit("Stopped");
    assert(has_no_brace("已停止"@));
    assert(has_no_brace("Stopped"@));
    lemma_no_brace_no_placeholder("已停止"@);
    lemma_no_brace_no_placeholder("Stopped"@);
}

proof fn lemma_message_code_not_running()
    ensures
        zh_cn_text(MessageId::CodeNotRunning).len() > 0,
        has_count_placeholder(zh_cn_text(MessageId::CodeNotRunning)) == has_count_placeholder(
            en_us_text(MessageId::CodeNotRunning),
        ),
{
    reveal_strlit("未运行");
    reveal_strlit("Not running");
    assert(has_no_brace("未运行"@));
    assert(has_no_brace("Not running"@));
    lemma_no_brace_no_placeholder("未运行"@);
    lemma_no_brace_no_placeholder("Not running"@);
}

proof fn lemma_message_code_initialized_folders()
    ensures
        zh_cn_text(MessageId::CodeInitializedFolders).len() > 0,
        has_count_placeholder(zh_cn_text(MessageId::CodeInitializedFolders)) == has_count_placeholder(
            en_us_text(MessageId::CodeInitializedFolders),
        ),
{
    reveal_strlit("已初始化/索引的文件夹");
    reveal_strlit("Initialized / indexed folders");
    assert(has_no_brace("已初始化/索引的文件夹"@));
    assert(has_no_brace("Initialized / indexed folders"@));
    lemma_no_brace_no_placeholder("已初始化/索引的文件夹"@);
    lemma_no_brace_no_placeholder("Initialized / indexed folders"@);
}

proof fn lemma_message_code_no_folders_initialized()
    ensures
        zh_cn_text(MessageId::CodeNoFoldersInitialized).len() > 0,
        has_count_placeholder(zh_cn_text(MessageId::CodeNoFoldersInitialized)) == has_count_placeholder(
            en_us_text(MessageId::CodeNoFoldersInitialized),
        ),
{
    reveal_strlit("尚未初始化任何文件夹。");
    reveal_strlit("No folders have been initialized yet.");
    assert(has_no_brace("尚未初始化任何文件夹。"@));
    assert(has_no_brace("No folders have been initialized yet."@));
    lemma_no_brace_no_placeholder("尚未初始化任何文件夹。"@);
    lemma_no_brace_no_placeholder("No folders have been initialized yet."@);
}

proof fn lemma_message_code_open_project_rules()
    ensures
        zh_cn_text(MessageId::CodeOpenProjectRules).len() > 0,
        has_count_placeholder(zh_cn_text(MessageId::CodeOpenProjectRules)) == has_count_placeholder(
            en_us_text(MessageId::CodeOpenProjectRules),
        ),
{
    reveal_strlit("打开项目规则");
    reveal_strlit("Open project rules");
    assert(has_no_brace("打开项目规则"@));
    assert(has_no_brace("Open project rules"@));
    lemma_no_brace_no_placeholder("打开项目规则"@);
    lemma_no_brace_no_placeholder("Open project rules"@);
}

proof fn lemma_message_code_indexing_label()
    ensures
        zh_cn_text(MessageId::CodeIndexingLabel).len() > 0,
        has_count_placeholder(zh_cn_text(MessageId::CodeIndexingLabel)) == has_count_placeholder(
            en_us_text(MessageId::CodeIndexingLabel),
        ),
{
    reveal_strlit("索引");
    reveal_strlit("INDEXING");
    assert(has_no_brace("索引"@));
    assert(has_no_brace("INDEXING"@));
    lemma_no_brace_no_placeholder("索引"@);
    lemma_no_brace_no_placeholder("INDEXING"@);
}

proof fn lemma_message_code_no_index_created()
    ensures
        zh_cn_text(MessageId::CodeNoIndexCreated).len() > 0,
        has_count_placeholder(zh_cn_text(MessageId::CodeNoIndexCreated)) == has_count_placeholder(
            en_us_text(MessageId::CodeNoIndexCreated),
        ),
{
    reveal_strlit("未创建索引");
    reveal_strlit("No index created");
    assert(has_no_brace("未创建索引"@));
    assert(has_no_brace("No index created"@));
    lemma_no_brace_no_placeholder("未创建索引"@);
    lemma_no_brace_no_placeholder("No index created"@);
}

proof fn lemma_message_code_auto_open_code_review()
    ensures
        zh_cn_text(MessageId::CodeAutoOpenCodeReview).len() > 0,
        has_count_placeholder(zh_cn_text(MessageId::CodeAutoOpenCodeReview)) == has_count_placeholder(
            en_us_text(MessageId::CodeAutoOpenCodeReview),
        ),
{
    reveal_strlit("自动打开代码审查面板");
    reveal_strlit("Auto open code review panel");
    assert(has_no_brace("自动打开代码审查面板"@));
    assert(has_no_brace("Auto open code review panel"@));
    lemma_no_brace_no_placeholder("自动打开代码审查面板"@);
    lemma_no_brace_no_placeholder("Auto open code review panel"@);
}

proof fn lemma_message_code_auto_open_code_review_description()
    ensures
        zh_cn_text(MessageId::CodeAutoOpenCodeReviewDescription).len() > 0,
        has_count_placeholder(zh_cn_text(MessageId::CodeAutoOpenCodeReviewDescription)) == has_count_placeholder(
            en_us_text(MessageId::CodeAutoOpenCodeReviewDescription),
        ),
{
    reveal_strlit("启用此设置后，代码审查面板将在对话中接受第一个 diff 时打开");
    reveal_strlit("When this setting is on, the code review panel will open on the first accepted diff of a conversation");
    assert(has_no_brace("启用此设置后，代码审查面板将在对话中接受第一个 diff 时打开"@));
    assert(has_no_brace("When this setting is on, the code review panel will open on the first accepted diff of a conversation"@));
    lemma_no_brace_no_placeholder("启用此设置后，代码审查面板将在对话中接受第一个 diff 时打开"@);
    lemma_no_brace_no_placeholder("When this setting is on, the code review panel will open on the first accepted diff of a conversation"@);
}

proof fn lemma_message_code_show_code_review_button()
    ensures
        zh_cn_text(MessageId::CodeShowCodeReviewButton).len() > 0,
        has_count_placeholder(zh_cn_text(MessageId::CodeShowCodeReviewButton)) == has_count_placeholder(
            en_us_text(MessageId::CodeShowCodeReviewButton),
        ),
{
    reveal_strlit("显示代码审查按钮");
    reveal_strlit("Show code review button");
    assert(has_no_brace("显示代码审查按钮"@));
    assert(has_no_brace("Show code review button"@));
    lemma_no_brace_no_placeholder("显示代码审查按钮"@);
    lemma_no_brace_no_placeholder("Show code review button"@);
}

proof fn lemma_message_code_show_code_review_button_description()
    ensures
        zh_cn_text(MessageId::CodeShowCodeReviewButtonDescription).len() > 0,
        has_count_placeholder(zh_cn_text(MessageId::CodeShowCodeReviewButtonDescription)) == has_count_placeholder(
            en_us_text(MessageId::CodeShowCodeReviewButtonDescription),
        ),
{
    reveal_strlit("在窗口右上角显示一个按钮来切换代码审查面板。");
    reveal_strlit("Show a button in the top right of the window to toggle the code review panel.");
    assert(has_no_brace("在窗口右上角显示一个按钮来切换代码审查面板。"@));
    assert(has_no_brace("Show a button in the top right of the window to toggle the code review panel."@));
    lemma_no_brace_no_placeholder("在窗口右上角显示一个按钮来切换代码审查面板。"@);
    lemma_no_brace_no_placeholder("Show a button in the top right of the window to toggle the code review panel."@);
}

proof fn lemma_message_code_show_diff_stats()
    ensures
        zh_cn_text(MessageId::CodeShowDiffStats).len() > 0,
        has_count_placeholder(zh_cn_text(MessageId::CodeShowDiffStats)) == has_count_placeholder(
            en_us_text(MessageId::CodeShowDiffStats),
        ),
{
    reveal_strlit("在代码审查按钮上显示差异统计");
    reveal_strlit("Show diff stats on code review button");
    assert(has_no_brace("在代码审查按钮上显示差异统计"@));
    assert(has_no_brace("Show diff stats on code review button"@));
    lemma_no_brace_no_placeholder("在代码审查按钮上显示差异统计"@);
    lemma_no_brace_no_placeholder("Show diff stats on code review button"@);
}

proof fn lemma_message_code_show_diff_stats_description()
    ensures
        zh_cn_text(MessageId::CodeShowDiffStatsDescription).len() > 0,
        has_count_placeholder(zh_cn_text(MessageId::CodeShowDiffStatsDescription)) == has_count_placeholder(
            en_us_text(MessageId::CodeShowDiffStatsDescription),
        ),
{
    reveal_strlit("在代码审查按钮上显示添加和删除的行数。");
    reveal_strlit("Show lines added and removed counts on the code review button.");
    assert(has_no_brace("在代码审查按钮上显示添加和删除的行数。"@));
    assert(has_no_brace("Show lines added and removed counts on the code review button."@));
    lemma_no_brace_no_placeholder("在代码审查按钮上显示添加和删除的行数。"@);
    lemma_no_brace_no_placeholder("Show lines added and removed counts on the code review button."@);
}

proof fn lemma_message_code_project_explorer()
    ensures
        zh_cn_text(MessageId::CodeProjectExplorer).len() > 0,
        has_count_placeholder(zh_cn_text(MessageId::CodeProjectExplorer)) == has_count_placeholder(
            en_us_text(MessageId::CodeProjectExplorer),
        ),
{
    reveal_strlit("项目浏览器");
    reveal_strlit("Project explorer");
    assert(has_no_brace("项目浏览器"@));
    assert(has_no_brace("Project explorer"@));
    lemma_no_brace_no_placeholder("项目浏览器"@);
    lemma_no_brace_no_placeholder("Project explorer"@);
}

proof fn lemma_message_code_project_explorer_description()
    ensures
        zh_cn_text(MessageId::CodeProjectExplorerDescription).len() > 0,
        has_count_placeholder(zh_cn_text(MessageId::CodeProjectExplorerDescription)) == has_count_placeholder(
            en_us_text(MessageId::CodeProjectExplorerDescription),
        ),
{
    reveal_strlit("在左侧工具面板中添加 IDE 风格的项目浏览器/文件树。");
    reveal_strlit("Adds an IDE-style project explorer / file tree to the left side tools panel.");
    assert(has_no_brace("在左侧工具面板中添加 IDE 风格的项目浏览器/文件树。"@));
    assert(has_no_brace("Adds an IDE-style project explorer / file tree to the left side tools panel."@));
    lemma_no_brace_no_placeholder("在左侧工具面板中添加 IDE 风格的项目浏览器/文件树。"@);
    lemma_no_brace_no_placeholder("Adds an IDE-style project explorer / file tree to the left side tools panel."@);
}

proof fn lemma_message_code_global_file_search()
    ensures
        zh_cn_text(MessageId::CodeGlobalFileSearch).len() > 0,
        has_count_placeholder(zh_cn_text(MessageId::CodeGlobalFileSearch)) == has_count_placeholder(
            en_us_text(MessageId::CodeGlobalFileSearch),
        ),
{
    reveal_strlit("全局文件搜索");
    reveal_strlit("Global file search");
    assert(has_no_brace("全局文件搜索"@));
    assert(has_no_brace("Global file search"@));
    lemma_no_brace_no_placeholder("全局文件搜索"@);
    lemma_no_brace_no_placeholder("Global file search"@);
}

proof fn lemma_message_code_global_file_search_description()
    ensures
        zh_cn_text(MessageId::CodeGlobalFileSearchDescription).len() > 0,
        has_count_placeholder(zh_cn_text(MessageId::CodeGlobalFileSearchDescription)) == has_count_placeholder(
            en_us_text(MessageId::CodeGlobalFileSearchDescription),
        ),
{
    reveal_strlit("在左侧工具面板中添加全局文件搜索。");
    reveal_strlit("Adds global file search to the left side tools panel.");
    assert(has_no_brace("在左侧工具面板中添加全局文件搜索。"@));
    assert(has_no_brace("Adds global file search to the left side tools panel."@));
    lemma_no_brace_no_placeholder("在左侧工具面板中添加全局文件搜索。"@);
    lemma_no_brace_no_placeholder("Adds global file search to the left side tools panel."@);
}

proof fn lemma_message_privacy_secret_redaction()
    ensures
        zh_cn_text(MessageId::PrivacySecretRedaction).len() > 0,
        has_count_placeholder(zh_cn_text(MessageId::PrivacySecretRedaction)) == has_count_placeholder(
            en_us_text(MessageId::PrivacySecretRedaction),
        ),
{
    reveal_strlit("密钥脱敏");
    reveal_strlit("Secret redaction");
    assert(has_no_brace("密钥脱敏"@));
    assert(has_no_brace("Secret redaction"@));
    lemma_no_brace_no_placeholder("密钥脱敏"@);
    lemma_no_brace_no_placeholder("Secret redaction"@);
}

proof fn lemma_message_privacy_secret_redaction_description()
    ensures
        zh_cn_text(MessageId::PrivacySecretRedactionDescription).len() > 0,
        has_count_placeholder(zh_cn_text(MessageId::PrivacySecretRedactionDescription)) == has_count_placeholder(
            en_us_text(MessageId::PrivacySecretRedactionDescription),
        ),
{
    reveal_strlit("启用此设置后，Warp 将扫描块、Warp Drive 对象内容和 Oz 提示词中的潜在敏感信息，防止将这些数据保存或发送到任何服务器。");
    reveal_strlit("When this setting is enabled, Warp will scan blocks, the contents of Warp Drive objects, and Oz prompts for potential sensitive information and prevent saving or sending this data to any servers.");
    assert(has_no_brace("启用此设置后，Warp 将扫描块、Warp Drive 对象内容和 Oz 提示词中的潜在敏感信息，防止将这些数据保存或发送到任何服务器。"@));
    assert(has_no_brace("When this setting is enabled, Warp will scan blocks, the contents of Warp Drive objects, and Oz prompts for potential sensitive information and prevent saving or sending this data to any servers."@));
    lemma_no_brace_no_placeholder("启用此设置后，Warp 将扫描块、Warp Drive 对象内容和 Oz 提示词中的潜在敏感信息，防止将这些数据保存或发送到任何服务器。"@);
    lemma_no_brace_no_placeholder("When this setting is enabled, Warp will scan blocks, the contents of Warp Drive objects, and Oz prompts for potential sensitive information and prevent saving or sending this data to any servers."@);
}

proof fn lemma_message_privacy_custom_secret_redaction()
    ensures
        zh_cn_text(MessageId::PrivacyCustomSecretRedaction).len() > 0,
        has_count_placeholder(zh_cn_text(MessageId::PrivacyCustomSecretRedaction)) == has_count_placeholder(
            en_us_text(MessageId::PrivacyCustomSecretRedaction),
        ),
{
    reveal_strlit("自定义密钥脱敏");
    reveal_strlit("Custom secret redaction");
    assert(has_no_brace("自定义密钥脱敏"@));
    assert(has_no_brace("Custom secret redaction"@));
    lemma_no_brace_no_placeholder("自定义密钥脱敏"@);
    lemma_no_brace_no_placeholder("Custom secret redaction"@);
}

proof fn lemma_message_privacy_custom_secret_description()
    ensures
        zh_cn_text(MessageId::PrivacyCustomSecretDescription).len() > 0,
        has_count_placeholder(zh_cn_text(MessageId::PrivacyCustomSecretDescription)) == has_count_placeholder(
            en_us_text(MessageId::PrivacyCustomSecretDescription),
        ),
{
    reveal_strlit("使用正则表达式定义要脱敏的额外密钥或数据。此设置将在下一条命令运行时生效。");
    reveal_strlit("Use regex to define additional secrets or data you'd like to redact. This will take effect when the next command runs.");
    assert(has_no_brace("使用正则表达式定义要脱敏的额外密钥或数据。此设置将在下一条命令运行时生效。"@));
    assert(has_no_brace("Use regex to define additional secrets or data you'd like to redact. This will take effect when the next command runs."@));
    lemma_no_brace_no_placeholder("使用正则表达式定义要脱敏的额外密钥或数据。此设置将在下一条命令运行时生效。"@);
    lemma_no_brace_no_placeholder("Use regex to define additional secrets or data you'd like to redact. This will take effect when the next command runs."@);
}

proof fn lemma_message_privacy_telemetry_title()
    ensures
        zh_cn_text(MessageId::PrivacyTelemetryTitle).len() > 0,
        has_count_placeholder(zh_cn_text(MessageId::PrivacyTelemetryTitle)) == has_count_placeholder(
            en_us_text(MessageId::PrivacyTelemetryTitle),
        ),
{
    reveal_strlit("帮助改进 Warp");
    reveal_strlit("Help improve Warp");
    assert(has_no_brace("帮助改进 Warp"@));
    assert(has_no_brace("Help improve Warp"@));
    lemma_no_brace_no_placeholder("帮助改进 Warp"@);
    lemma_no_brace_no_placeholder("Help improve Warp"@);
}

proof fn lemma_message_privacy_telemetry_description()
    ensures
        zh_cn_text(MessageId::PrivacyTelemetryDescription).len() > 0,
        has_count_placeholder(zh_cn_text(MessageId::PrivacyTelemetryDescription)) == has_count_placeholder(
            en_us_text(MessageId::PrivacyTelemetryDescription),
        ),
{
    reveal_strlit("应用分析帮助我们为您改进产品。我们可能会收集某些控制台交互以改进 Warp 的 AI 功能。");
    reveal_strlit("App analytics help us make the product better for you. We may collect certain console interactions to improve Warp's AI capabilities.");
    assert(has_no_brace("应用分析帮助我们为您改进产品。我们可能会收集某些控制台交互以改进 Warp 的 AI 功能。"@));
    assert(has_no_brace("App analytics help us make the product better for you. We may collect certain console interactions to improve Warp's AI capabilities."@));
    lemma_no_brace_no_placeholder("应用分析帮助我们为您改进产品。我们可能会收集某些控制台交互以改进 Warp 的 AI 功能。"@);
    lemma_no_brace_no_placeholder("App analytics help us make the product better for you. We may collect certain console interactions to improve Warp's AI capabilities."@);
}

proof fn lemma_message_privacy_telemetry_free_tier_note()
    ensures
        zh_cn_text(MessageId::PrivacyTelemetryFreeTierNote).len() > 0,
        has_count_placeholder(zh_cn_text(MessageId::PrivacyTelemetryFreeTierNote)) == has_count_placeholder(
            en_us_text(MessageId::PrivacyTelemetryFreeTierNote),
        ),
{
    reveal_strlit("在免费套餐中，必须启用分析功能才能使用 AI 功能。");
    reveal_strlit("On the free tier, analytics must be enabled to use AI features.");
    assert(has_no_brace("在免费套餐中，必须启用分析功能才能使用 AI 功能。"@));
    assert(has_no_brace("On the free tier, analytics must be enabled to use AI features."@));
    lemma_no_brace_no_placeholder("在免费套餐中，必须启用分析功能才能使用 AI 功能。"@);
    lemma_no_brace_no_placeholder("On the free tier, analytics must be enabled to use AI features."@);
}

proof fn lemma_message_privacy_data_management_title()
    ensures
        zh_cn_text(MessageId::PrivacyDataManagementTitle).len() > 0,
        has_count_placeholder(zh_cn_text(MessageId::PrivacyDataManagementTitle)) == has_count_placeholder(
            en_us_text(MessageId::PrivacyDataManagementTitle),
        ),
{
    reveal_strlit("管理您的数据");
    reveal_strlit("Manage your data");
    assert(has_no_brace("管理您的数据"@));
    assert(has_no_brace("Manage your data"@));
    lemma_no_brace_no_placeholder("管理您的数据"@);
    lemma_no_brace_no_placeholder("Manage your data"@);
}

proof fn lemma_message_privacy_data_management_description()
    ensures
        zh_cn_text(MessageId::PrivacyDataManagementDescription).len() > 0,
        has_count_placeholder(zh_cn_text(MessageId::PrivacyDataManagementDescription)) == has_count_placeholder(
            en_us_text(MessageId::PrivacyDataManagementDescription),
        ),
{
    reveal_strlit("您可以随时选择永久删除您的 Warp 账户。删除后将无法再使用 Warp。");
    reveal_strlit("At any time, you may choose to delete your Warp account permanently. You will no longer be able to use Warp.");
    assert(has_no_brace("您可以随时选择永久删除您的 Warp 账户。删除后将无法再使用 Warp。"@));
    assert(has_no_brace("At any time, you may choose to delete your Warp account permanently. You will no longer be able to use Warp."@));
    lemma_no_brace_no_placeholder("您可以随时选择永久删除您的 Warp 账户。删除后将无法再使用 Warp。"@);
    lemma_no_brace_no_placeholder("At any time, you may choose to delete your Warp account permanently. You will no longer be able to use Warp."@);
}

proof fn lemma_message_privacy_data_management_link_text()
    ensures
        zh_cn_text(MessageId::PrivacyDataManagementLinkText).len() > 0,
        has_count_placeholder(zh_cn_text(MessageId::PrivacyDataManagementLinkText)) == has_count_placeholder(
            en_us_text(MessageId::PrivacyDataManagementLinkText),
        ),
{
    reveal_strlit("访问数据管理页面");
    reveal_strlit("Visit the data management page");
    assert(has_no_brace("访问数据管理页面"@));
    assert(has_no_brace("Visit the data management page"@));
    lemma_no_brace_no_placeholder("访问数据管理页面"@);
    lemma_no_brace_no_placeholder("Visit the data management page"@);
}

proof fn lemma_message_privacy_privacy_policy_title()
    ensures
        zh_cn_text(MessageId::PrivacyPrivacyPolicyTitle).len() > 0,
        has_count_placeholder(zh_cn_text(MessageId::PrivacyPrivacyPolicyTitle)) == has_count_placeholder(
            en_us_text(MessageId::PrivacyPrivacyPolicyTitle),
        ),
{
    reveal_strlit("隐私政策");
    reveal_strlit("Privacy policy");
    assert(has_no_brace("隐私政策"@));
    assert(has_no_brace("Privacy policy"@));
    lemma_no_brace_no_placeholder("隐私政策"@);
    lemma_no_brace_no_placeholder("Privacy policy"@);
}

proof fn lemma_message_privacy_privacy_policy_link_text()
    ensures
        zh_cn_text(MessageId::PrivacyPrivacyPolicyLinkText).len() > 0,
        has_count_placeholder(zh_cn_text(MessageId::PrivacyPrivacyPolicyLinkText)) == has_count_placeholder(
            en_us_text(MessageId::PrivacyPrivacyPolicyLinkText),
        ),
{
    reveal_strlit("阅读 Warp 的隐私政策");
    reveal_strlit("Read Warp's privacy policy");
    assert(has_no_brace("阅读 Warp 的隐私政策"@));
    assert(has_no_brace("Read Warp's privacy policy"@));
    lemma_no_brace_no_placeholder("阅读 Warp 的隐私政策"@);
    lemma_no_brace_no_placeholder("Read Warp's privacy policy"@);
}

proof fn lemma_message_billing_overview()
    ensures
        zh_cn_text(MessageId::BillingOverview).len() > 0,
        has_count_placeholder(zh_cn_text(MessageId::BillingOverview)) == has_count_placeholder(
            en_us_text(MessageId::BillingOverview),
        ),
{
    reveal_strlit("概览");
    reveal_strlit("Overview");
    assert(has_no_brace("概览"@));
    assert(has_no_brace("Overview"@));
    lemma_no_brace_no_placeholder("概览"@);
    lemma_no_brace_no_placeholder("Overview"@);
}

proof fn lemma_message_billing_usage_history()
    ensures
        zh_cn_text(MessageId::BillingUsageHistory).len() > 0,
        has_count_placeholder(zh_cn_text(MessageId::BillingUsageHistory)) == has_count_placeholder(
            en_us_text(MessageId::BillingUsageHistory),
        ),
{
    reveal_strlit("用量历史");
    reveal_strlit("Usage History");
    assert(has_no_brace("用量历史"@));
    assert(has_no_brace("Usage History"@));
    lemma_no_brace_no_placeholder("用量历史"@);
    lemma_no_brace_no_placeholder("Usage History"@);
}

proof fn lemma_message_billing_view_overage_details()
    ensures
        zh_cn_text(MessageId::BillingViewOverageDetails).len() > 0,
        has_count_placeholder(zh_cn_text(MessageId::BillingViewOverageDetails)) == has_count_placeholder(
            en_us_text(MessageId::BillingViewOverageDetails),
        ),
{
    reveal_strlit("查看超额详情");
    reveal_strlit("View overage details");
    assert(has_no_brace("查看超额详情"@));
    assert(has_no_brace("View overage details"@));
    lemma_no_brace_no_placeholder("查看超额详情"@);
    lemma_no_brace_no_placeholder("View overage details"@);
}

proof fn lemma_message_billing_enable_overages()
    ensures
        zh_cn_text(MessageId::BillingEnableOverages).len() > 0,
        has_count_placeholder(zh_cn_text(MessageId::BillingEnableOverages)) == has_count_placeholder(
            en_us_text(MessageId::BillingEnableOverages),
        ),
{
    reveal_strlit("启用超额");
    reveal_strlit("Enable overages");
    assert(has_no_brace("启用超额"@));
    assert(has_no_brace("Enable overages"@));
    lemma_no_brace_no_placeholder("启用超额"@);
    lemma_no_brace_no_placeholder("Enable overages"@);
}

proof fn lemma_message_billing_overages_enabled()
    ensures
        zh_cn_text(MessageId::BillingOveragesEnabled).len() > 0,
        has_count_placeholder(zh_cn_text(MessageId::BillingOveragesEnabled)) == has_count_placeholder(
            en_us_text(MessageId::BillingOveragesEnabled),
        ),
{
    reveal_strlit("超额已启用");
    reveal_strlit("Overages enabled");
    assert(has_no_brace("超额已启用"@));
    assert(has_no_brace("Overages enabled"@));
    lemma_no_brace_no_placeholder("超额已启用"@);
    lemma_no_brace_no_placeholder("Overages enabled"@);
}

proof fn lemma_message_billing_overages_not_enabled()
    ensures
        zh_cn_text(MessageId::BillingOveragesNotEnabled).len() > 0,
        has_count_placeholder(zh_cn_text(MessageId::BillingOveragesNotEnabled)) == has_count_placeholder(
            en_us_text(MessageId::BillingOveragesNotEnabled),
        ),
{
    reveal_strlit("超额未启用");
    reveal_strlit("Overages not enabled");
    assert(has_no_brace("超额未启用"@));
    assert(has_no_brace("Overages not enabled"@));
    lemma_no_brace_no_placeholder("超额未启用"@);
    lemma_no_brace_no_placeholder("Overages not enabled"@);
}

proof fn lemma_message_billing_ato_z()
    ensures
        zh_cn_text(MessageId::BillingAtoZ).len() > 0,
        has_count_placeholder(zh_cn_text(MessageId::BillingAtoZ)) == has_count_placeholder(
            en_us_text(MessageId::BillingAtoZ),
        ),
{
    reveal_strlit("A 到 Z");
    reveal_strlit("A to Z");
    assert(has_no_brace("A 到 Z"@));
    assert(has_no_brace("A to Z"@));
    lemma_no_brace_no_placeholder("A 到 Z"@);
    lemma_no_brace_no_placeholder("A to Z"@);
}

proof fn lemma_message_billing_zto_a()
    ensures
        zh_cn_text(MessageId::BillingZtoA).len() > 0,
        has_count_placeholder(zh_cn_text(MessageId::BillingZtoA)) == has_count_placeholder(
            en_us_text(MessageId::BillingZtoA),
        ),
{
    reveal_strlit("Z 到 A");
    reveal_strlit("Z to A");
    assert(has_no_brace("Z 到 A"@));
    assert(has_no_brace("Z to A"@));
    lemma_no_brace_no_placeholder("Z 到 A"@);
    lemma_no_brace_no_placeholder("Z to A"@);
}

proof fn lemma_message_billing_usage_ascending()
    ensures
        zh_cn_text(MessageId::BillingUsageAscending).len() > 0,
        has_count_placeholder(zh_cn_text(MessageId::BillingUsageAscending)) == has_count_placeholder(
            en_us_text(MessageId::BillingUsageAscending),
        ),
{
    reveal_strlit("用量升序");
    reveal_strlit("Usage ascending");
    assert(has_no_brace("用量升序"@));
    assert(has_no_brace("Usage ascending"@));
    lemma_no_brace_no_placeholder("用量升序"@);
    lemma_no_brace_no_placeholder("Usage ascending"@);
}

proof fn lemma_message_billing_usage_descending()
    ensures
        zh_cn_text(MessageId::BillingUsageDescending).len() > 0,
        has_count_placeholder(zh_cn_text(MessageId::BillingUsageDescending)) == has_count_placeholder(
            en_us_text(MessageId::BillingUsageDescending),
        ),
{
    reveal_strlit("用量降序");
    reveal_strlit("Usage descending");
    assert(has_no_brace("用量降序"@));
    assert(has_no_brace("Usage descending"@));
    lemma_no_brace_no_placeholder("用量降序"@);
    lemma_no_brace_no_placeholder("Usage descending"@);
}

proof fn lemma_message_billing_enterprise_usage_callout()
    ensures
        zh_cn_text(MessageId::BillingEnterpriseUsageCallout).len() > 0,
        has_count_placeholder(zh_cn_text(MessageId::BillingEnterpriseUsageCallout)) == has_count_placeholder(
            en_us_text(MessageId::BillingEnterpriseUsageCallout),
        ),
{
    reveal_strlit("请联系您的团队管理员获取用量详情。");
    reveal_strlit("Contact your team admin for usage details.");
    assert(has_no_brace("请联系您的团队管理员获取用量详情。"@));
    assert(has_no_brace("Contact your team admin for usage details."@));
    lemma_no_brace_no_placeholder("请联系您的团队管理员获取用量详情。"@);
    lemma_no_brace_no_placeholder("Contact your team admin for usage details."@);
}

proof fn lemma_message_teams_team_name()
    ensures
        zh_cn_text(MessageId::TeamsTeamName).len() > 0,
        has_count_placeholder(zh_cn_text(MessageId::TeamsTeamName)) == has_count_placeholder(
            en_us_text(MessageId::TeamsTeamName),
        ),
{
    reveal_strlit("团队名称");
    reveal_strlit("Team name");
    assert(has_no_brace("团队名称"@));
    assert(has_no_brace("Team name"@));
    lemma_no_brace_no_placeholder("团队名称"@);
    lemma_no_brace_no_placeholder("Team name"@);
}

proof fn lemma_message_teams_leave_team()
    ensures
        zh_cn_text(MessageId::TeamsLeaveTeam).len() > 0,
        has_count_placeholder(zh_cn_text(MessageId::TeamsLeaveTeam)) == has_count_placeholder(
            en_us_text(MessageId::TeamsLeaveTeam),
        ),
{
    reveal_strlit("离开团队");
    reveal_strlit("Leave team");
    assert(has_no_brace("离开团队"@));
    assert(has_no_brace("Leave team"@));
    lemma_no_brace_no_placeholder("离开团队"@);
    lemma_no_brace_no_placeholder("Leave team"@);
}

proof fn lemma_message_teams_delete_team()
    ensures
        zh_cn_text(MessageId::TeamsDeleteTeam).len() > 0,
        has_count_placeholder(zh_cn_text(MessageId::TeamsDeleteTeam)) == has_count_placeholder(
            en_us_text(MessageId::TeamsDeleteTeam),
        ),
{
    reveal_strlit("删除团队");
    reveal_strlit("Delete team");
    assert(has_no_brace("删除团队"@));
    assert(has_no_brace("Delete team"@));
    lemma_no_brace_no_placeholder("删除团队"@);
    lemma_no_brace_no_placeholder("Delete team"@);
}

proof fn lemma_message_teams_create()
    ensures
        zh_cn_text(MessageId::TeamsCreate).len() > 0,
        has_count_placeholder(zh_cn_text(MessageId::TeamsCreate)) == has_count_placeholder(
            en_us_text(MessageId::TeamsCreate),
        ),
{
    reveal_strlit("创建");
    reveal_strlit("Create");
    assert(has_no_brace("创建"@));
    assert(has_no_brace("Create"@));
    lemma_no_brace_no_placeholder("创建"@);
    lemma_no_brace_no_placeholder("Create"@);
}

proof fn lemma_message_teams_create_description()
    ensures
        zh_cn_text(MessageId::TeamsCreateDescription).len() > 0,
        has_count_placeholder(zh_cn_text(MessageId::TeamsCreateDescription)) == has_count_placeholder(
            en_us_text(MessageId::TeamsCreateDescription),
        ),
{
    reveal_strlit("创建一个新团队，与您的同事协作。");
    reveal_strlit("Create a new team to collaborate with your colleagues.");
    assert(has_no_brace("创建一个新团队，与您的同事协作。"@));
    assert(has_no_brace("Create a new team to collaborate with your colleagues."@));
    lemma_no_brace_no_placeholder("创建一个新团队，与您的同事协作。"@);
    lemma_no_brace_no_placeholder("Create a new team to collaborate with your colleagues."@);
}

proof fn lemma_message_teams_domains_placeholder()
    ensures
        zh_cn_text(MessageId::TeamsDomainsPlaceholder).len() > 0,
        has_count_placeholder(zh_cn_text(MessageId::TeamsDomainsPlaceholder)) == has_count_placeholder(
            en_us_text(MessageId::TeamsDomainsPlaceholder),
        ),
{
    reveal_strlit("添加域名");
    reveal_strlit("Add domains");
    assert(has_no_brace("添加域名"@));
    assert(has_no_brace("Add domains"@));
    lemma_no_brace_no_placeholder("添加域名"@);
    lemma_no_brace_no_placeholder("Add domains"@);
}

proof fn lemma_message_teams_emails_placeholder()
    ensures
        zh_cn_text(MessageId::TeamsEmailsPlaceholder).len() > 0,
        has_count_placeholder(zh_cn_text(MessageId::TeamsEmailsPlaceholder)) == has_count_placeholder(
            en_us_text(MessageId::TeamsEmailsPlaceholder),
        ),
{
    reveal_strlit("添加电子邮件地址");
    reveal_strlit("Add email addresses");
    assert(has_no_brace("添加电子邮件地址"@));
    assert(has_no_brace("Add email addresses"@));
    lemma_no_brace_no_placeholder("添加电子邮件地址"@);
    lemma_no_brace_no_placeholder("Add email addresses"@);
}

proof fn lemma_message_teams_set()
    ensures
        zh_cn_text(MessageId::TeamsSet).len() > 0,
        has_count_placeholder(zh_cn_text(MessageId::TeamsSet)) == has_count_placeholder(
            en_us_text(MessageId::TeamsSet),
        ),
{
    reveal_strlit("设置");
    reveal_strlit("Set");
    assert(has_no_brace("设置"@));
    assert(has_no_brace("Set"@));
    lemma_no_brace_no_placeholder("设置"@);
    lemma_no_brace_no_placeholder("Set"@);
}

proof fn lemma_message_teams_invite()
    ensures
        zh_cn_text(MessageId::TeamsInvite).len() > 0,
        has_count_placeholder(zh_cn_text(MessageId::TeamsInvite)) == has_count_placeholder(
            en_us_text(MessageId::TeamsInvite),
        ),
{
    reveal_strlit("邀请");
    reveal_strlit("Invite");
    assert(has_no_brace("邀请"@));
    assert(has_no_brace("Invite"@));
    lemma_no_brace_no_placeholder("邀请"@);
    lemma_no_brace_no_placeholder("Invite"@);
}

proof fn lemma_message_teams_invite_link_instructions()
    ensures
        zh_cn_text(MessageId::TeamsInviteLinkInstructions).len() > 0,
        has_count_placeholder(zh_cn_text(MessageId::TeamsInviteLinkInstructions)) == has_count_placeholder(
            en_us_text(MessageId::TeamsInviteLinkInstructions),
        ),
{
    reveal_strlit("将此链接分享给其他人以邀请他们加入您的团队。");
    reveal_strlit("Share this link with others to invite them to your team.");
    assert(has_no_brace("将此链接分享给其他人以邀请他们加入您的团队。"@));
    assert(has_no_brace("Share this link with others to invite them to your team."@));
    lemma_no_brace_no_placeholder("将此链接分享给其他人以邀请他们加入您的团队。"@);
    lemma_no_brace_no_placeholder("Share this link with others to invite them to your team."@);
}

proof fn lemma_message_teams_invite_by_email_expiry()
    ensures
        zh_cn_text(MessageId::TeamsInviteByEmailExpiry).len() > 0,
        has_count_placeholder(zh_cn_text(MessageId::TeamsInviteByEmailExpiry)) == has_count_placeholder(
            en_us_text(MessageId::TeamsInviteByEmailExpiry),
        ),
{
    reveal_strlit("邀请在 7 天后过期。");
    reveal_strlit("Invitations expire after 7 days.");
    assert(has_no_brace("邀请在 7 天后过期。"@));
    assert(has_no_brace("Invitations expire after 7 days."@));
    lemma_no_brace_no_placeholder("邀请在 7 天后过期。"@);
    lemma_no_brace_no_placeholder("Invitations expire after 7 days."@);
}

proof fn lemma_message_teams_offline()
    ensures
        zh_cn_text(MessageId::TeamsOffline).len() > 0,
        has_count_placeholder(zh_cn_text(MessageId::TeamsOffline)) == has_count_placeholder(
            en_us_text(MessageId::TeamsOffline),
        ),
{
    reveal_strlit("您似乎处于离线状态。");
    reveal_strlit("You appear to be offline.");
    assert(has_no_brace("您似乎处于离线状态。"@));
    assert(has_no_brace("You appear to be offline."@));
    lemma_no_brace_no_placeholder("您似乎处于离线状态。"@);
    lemma_no_brace_no_placeholder("You appear to be offline."@);
}

proof fn lemma_message_referrals_header()
    ensures
        zh_cn_text(MessageId::ReferralsHeader).len() > 0,
        has_count_placeholder(zh_cn_text(MessageId::ReferralsHeader)) == has_count_placeholder(
            en_us_text(MessageId::ReferralsHeader),
        ),
{
    reveal_strlit("邀请朋友使用 Warp");
    reveal_strlit("Invite a friend to Warp");
    assert(has_no_brace("邀请朋友使用 Warp"@));
    assert(has_no_brace("Invite a friend to Warp"@));
    lemma_no_brace_no_placeholder("邀请朋友使用 Warp"@);
    lemma_no_brace_no_placeholder("Invite a friend to Warp"@);
}

proof fn lemma_message_referrals_anonymous_header()
    ensures
        zh_cn_text(MessageId::ReferralsAnonymousHeader).len() > 0,
        has_count_placeholder(zh_cn_text(MessageId::ReferralsAnonymousHeader)) == has_count_placeholder(
            en_us_text(MessageId::ReferralsAnonymousHeader),
        ),
{
    reveal_strlit("创建账户以开始邀请朋友");
    reveal_strlit("Create an account to start inviting friends");
    assert(has_no_brace("创建账户以开始邀请朋友"@));
    assert(has_no_brace("Create an account to start inviting friends"@));
    lemma_no_brace_no_placeholder("创建账户以开始邀请朋友"@);
    lemma_no_brace_no_placeholder("Create an account to start inviting friends"@);
}

proof fn lemma_message_referrals_failed_load()
    ensures
        zh_cn_text(MessageId::ReferralsFailedLoad).len() > 0,
        has_count_placeholder(zh_cn_text(MessageId::ReferralsFailedLoad)) == has_count_placeholder(
            en_us_text(MessageId::ReferralsFailedLoad),
        ),
{
    reveal_strlit("加载推荐数据失败。");
    reveal_strlit("Failed to load referral data.");
    assert(has_no_brace("加载推荐数据失败。"@));
    assert(has_no_brace("Failed to load referral data."@));
    lemma_no_brace_no_placeholder("加载推荐数据失败。"@);
    lemma_no_brace_no_placeholder("Failed to load referral data."@);
}

proof fn lemma_message_referrals_copy_link()
    ensures
        zh_cn_text(MessageId::ReferralsCopyLink).len() > 0,
        has_count_placeholder(zh_cn_text(MessageId::ReferralsCopyLink)) == has_count_placeholder(
            en_us_text(MessageId::ReferralsCopyLink),
        ),
{
    reveal_strlit("复制链接");
    reveal_strlit("Copy link");
    assert(has_no_brace("复制链接"@));
    assert(has_no_brace("Copy link"@));
    lemma_no_brace_no_placeholder("复制链接"@);
    lemma_no_brace_no_placeholder("Copy link"@);
}

proof fn lemma_message_referrals_send()
    ensures
        zh_cn_text(MessageId::ReferralsSend).len() > 0,
        has_count_placeholder(zh_cn_text(MessageId::ReferralsSend)) == has_count_placeholder(
            en_us_text(MessageId::ReferralsSend),
        ),
{
    reveal_strlit("发送");
    reveal_strlit("Send");
    assert(has_no_brace("发送"@));
    assert(has_no_brace("Send"@));
    lemma_no_brace_no_placeholder("发送"@);
    lemma_no_brace_no_placeholder("Send"@);
}

proof fn lemma_message_referrals_sending()
    ensures
        zh_cn_text(MessageId::ReferralsSending).len() > 0,
        has_count_placeholder(zh_cn_text(MessageId::ReferralsSending)) == has_count_placeholder(
            en_us_text(MessageId::ReferralsSending),
        ),
{
    reveal_strlit("发送中...");
    reveal_strlit("Sending...");
    assert(has_no_brace("发送中..."@));
    assert(has_no_brace("Sending..."@));
    lemma_no_brace_no_placeholder("发送中..."@);
    lemma_no_brace_no_placeholder("Sending..."@);
}

proof fn lemma_message_referrals_loading()
    ensures
        zh_cn_text(MessageId::ReferralsLoading).len() > 0,
        has_count_placeholder(zh_cn_text(MessageId::ReferralsLoading)) == has_count_placeholder(
            en_us_text(MessageId::ReferralsLoading),
        ),
{
    reveal_strlit("加载中...");
    reveal_strlit("Loading...");
    assert(has_no_brace("加载中..."@));
    assert(has_no_brace("Loading..."@));
    lemma_no_brace_no_placeholder("加载中..."@);
    lemma_no_brace_no_placeholder("Loading..."@);
}

proof fn lemma_message_referrals_link_copied()
    ensures
        zh_cn_text(MessageId::ReferralsLinkCopied).len() > 0,
        has_count_placeholder(zh_cn_text(MessageId::ReferralsLinkCopied)) == has_count_placeholder(
            en_us_text(MessageId::ReferralsLinkCopied),
        ),
{
    reveal_strlit("链接已复制！");
    reveal_strlit("Link copied!");
    assert(has_no_brace("链接已复制！"@));
    assert(has_no_brace("Link copied!"@));
    lemma_no_brace_no_placeholder("链接已复制！"@);
    lemma_no_brace_no_placeholder("Link copied!"@);
}

proof fn lemma_message_referrals_email_success()
    ensures
        zh_cn_text(MessageId::ReferralsEmailSuccess).len() > 0,
        has_count_placeholder(zh_cn_text(MessageId::ReferralsEmailSuccess)) == has_count_placeholder(
            en_us_text(MessageId::ReferralsEmailSuccess),
        ),
{
    reveal_strlit("邀请已发送！");
    reveal_strlit("Invitation sent!");
    assert(has_no_brace("邀请已发送！"@));
    assert(has_no_brace("Invitation sent!"@));
    lemma_no_brace_no_placeholder("邀请已发送！"@);
    lemma_no_brace_no_placeholder("Invitation sent!"@);
}

proof fn lemma_message_referrals_email_failure()
    ensures
        zh_cn_text(MessageId::ReferralsEmailFailure).len() > 0,
        has_count_placeholder(zh_cn_text(MessageId::ReferralsEmailFailure)) == has_count_placeholder(
            en_us_text(MessageId::ReferralsEmailFailure),
        ),
{
    reveal_strlit("发送邀请失败。");
    reveal_strlit("Failed to send invitation.");
    assert(has_no_brace("发送邀请失败。"@));
    assert(has_no_brace("Failed to send invitation."@));
    lemma_no_brace_no_placeholder("发送邀请失败。"@);
    lemma_no_brace_no_placeholder("Failed to send invitation."@);
}

proof fn lemma_message_referrals_reward_intro()
    ensures
        zh_cn_text(MessageId::ReferralsRewardIntro).len() > 0,
        has_count_placeholder(zh_cn_text(MessageId::ReferralsRewardIntro)) == has_count_placeholder(
            en_us_text(MessageId::ReferralsRewardIntro),
        ),
{
    reveal_strlit("当您的朋友加入 Warp 后，你们都将获得奖励。");
    reveal_strlit("You'll both earn rewards when your friend joins Warp.");
    assert(has_no_brace("当您的朋友加入 Warp 后，你们都将获得奖励。"@));
    assert(has_no_brace("You'll both earn rewards when your friend joins Warp."@));
    lemma_no_brace_no_placeholder("当您的朋友加入 Warp 后，你们都将获得奖励。"@);
    lemma_no_brace_no_placeholder("You'll both earn rewards when your friend joins Warp."@);
}

proof fn lemma_message_referrals_current_referral()
    ensures
        zh_cn_text(MessageId::ReferralsCurrentReferral).len() > 0,
        has_count_placeholder(zh_cn_text(MessageId::ReferralsCurrentReferral)) == has_count_placeholder(
            en_us_text(MessageId::ReferralsCurrentReferral),
        ),
{
    reveal_strlit("您有 1 个活跃推荐。");
    reveal_strlit("You have 1 active referral.");
    assert(has_no_brace("您有 1 个活跃推荐。"@));
    assert(has_no_brace("You have 1 active referral."@));
    lemma_no_brace_no_placeholder("您有 1 个活跃推荐。"@);
    lemma_no_brace_no_placeholder("You have 1 active referral."@);
}

proof fn lemma_message_referrals_current_referrals()
    ensures
        zh_cn_text(MessageId::ReferralsCurrentReferrals).len() > 0,
        has_count_placeholder(zh_cn_text(MessageId::ReferralsCurrentReferrals)) == has_count_placeholder(
            en_us_text(MessageId::ReferralsCurrentReferrals),
        ),
{
    reveal_strlit("您有 {count} 个活跃推荐。");
    reveal_strlit("You have {count} active referrals.");
    reveal_strlit("{count}");
    assert("您有 {count} 个活跃推荐。"@.subrange(3, 10) =~= "{count}"@);
    assert("You have {count} active referrals."@.subrange(9, 16) =~= "{count}"@);
    lemma_placeholder_at("您有 {count} 个活跃推荐。"@, 3);
    lemma_placeholder_at("You have {count} active referrals."@, 9);
}

proof fn lemma_message_referrals_certain_restrictions()
    ensures
        zh_cn_text(MessageId::ReferralsCertainRestrictions).len() > 0,
        has_count_placeholder(zh_cn_text(MessageId::ReferralsCertainRestrictions)) == has_count_placeholder(
            en_us_text(MessageId::ReferralsCertainRestrictions),
        ),
{
    reveal_strlit("某些限制适用。");
    reveal_strlit("Certain restrictions apply.");
    assert(has_no_brace("某些限制适用。"@));
    assert(has_no_brace("Certain restrictions apply."@));
    lemma_no_brace_no_placeholder("某些限制适用。"@);
    lemma_no_brace_no_placeholder("Certain restrictions apply."@);
}

proof fn lemma_message_keybindings_search_placeholder()
    ensures
        zh_cn_text(MessageId::KeybindingsSearchPlaceholder).len() > 0,
        has_count_placeholder(zh_cn_text(MessageId::KeybindingsSearchPlaceholder)) == has_count_placeholder(
            en_us_text(MessageId::KeybindingsSearchPlaceholder),
        ),
{
    reveal_strlit("按名称或按键搜索");
    reveal_strlit("Search by name or by keys");
    assert(has_no_brace("按名称或按键搜索"@));
    assert(has_no_brace("Search by name or by keys"@));
    lemma_no_brace_no_placeholder("按名称或按键搜索"@);
    lemma_no_brace_no_placeholder("Search by name or by keys"@);
}

proof fn lemma_message_keybindings_conflict_warning()
    ensures
        zh_cn_text(MessageId::KeybindingsConflictWarning).len() > 0,
        has_count_placeholder(zh_cn_text(MessageId::KeybindingsConflictWarning)) == has_count_placeholder(
            en_us_text(MessageId::KeybindingsConflictWarning),
        ),
{
    reveal_strlit("此快捷键与其他快捷键冲突");
    reveal_strlit("This shortcut conflicts with other keybinds");
    assert(has_no_brace("此快捷键与其他快捷键冲突"@));
    assert(has_no_brace("This shortcut conflicts with other keybinds"@));
    lemma_no_brace_no_placeholder("此快捷键与其他快捷键冲突"@);
    lemma_no_brace_no_placeholder("This shortcut conflicts with other keybinds"@);
}

proof fn lemma_message_keybindings_default()
    ensures
        zh_cn_text(MessageId::KeybindingsDefault).len() > 0,
        has_count_placeholder(zh_cn_text(MessageId::KeybindingsDefault)) == has_count_placeholder(
            en_us_text(MessageId::KeybindingsDefault),
        ),
{
    reveal_strlit("默认");
    reveal_strlit("Default");
    assert(has_no_brace("默认"@));
    assert(has_no_brace("Default"@));
    lemma_no_brace_no_placeholder("默认"@);
    lemma_no_brace_no_placeholder("Default"@);
}

proof fn lemma_message_keybindings_cancel()
    ensures
        zh_cn_text(MessageId::KeybindingsCancel).len() > 0,
        has_count_placeholder(zh_cn_text(MessageId::KeybindingsCancel)) == has_count_placeholder(
            en_us_text(MessageId::KeybindingsCancel),
        ),
{
    reveal_strlit("取消");
    reveal_strlit("Cancel");
    assert(has_no_brace("取消"@));
    assert(has_no_brace("Cancel"@));
    lemma_no_brace_no_placeholder("取消"@);
    lemma_no_brace_no_placeholder("Cancel"@);
}

proof fn lemma_message_keybindings_clear()
    ensures
        zh_cn_text(MessageId::KeybindingsClear).len() > 0,
        has_count_placeholder(zh_cn_text(MessageId::KeybindingsClear)) == has_count_placeholder(
            en_us_text(MessageId::KeybindingsClear),
        ),
{
    reveal_strlit("清除");
    reveal_strlit("Clear");
    assert(has_no_brace("清除"@));
    assert(has_no_brace("Clear"@));
    lemma_no_brace_no_placeholder("清除"@);
    lemma_no_brace_no_placeholder("Clear"@);
}

proof fn lemma_message_keybindings_save()
    ensures
        zh_cn_text(MessageId::KeybindingsSave).len() > 0,
        has_count_placeholder(zh_cn_text(MessageId::KeybindingsSave)) == has_count_placeholder(
            en_us_text(MessageId::KeybindingsSave),
        ),
{
    reveal_strlit("保存");
    reveal_strlit("Save");
    assert(has_no_brace("保存"@));
    assert(has_no_brace("Save"@));
    lemma_no_brace_no_placeholder("保存"@);
    lemma_no_brace_no_placeholder("Save"@);
}

proof fn lemma_message_warp_drive_sign_up_required()
    ensures
        zh_cn_text(MessageId::WarpDriveSignUpRequired).len() > 0,
        has_count_placeholder(zh_cn_text(MessageId::WarpDriveSignUpRequired)) == has_count_placeholder(
            en_us_text(MessageId::WarpDriveSignUpRequired),
        ),
{
    reveal_strlit("要使用 Warp Drive，请创建账户。");
    reveal_strlit("To use Warp Drive, please create an account.");
    assert(has_no_brace("要使用 Warp Drive，请创建账户。"@));
    assert(has_no_brace("To use Warp Drive, please create an account."@));
    lemma_no_brace_no_placeholder("要使用 Warp Drive，请创建账户。"@);
    lemma_no_brace_no_placeholder("To use Warp Drive, please create an account."@);
}

proof fn lemma_message_warpify_subshells()
    ensures
        zh_cn_text(MessageId::WarpifySubshells).len() > 0,
        has_count_placeholder(zh_cn_text(MessageId::WarpifySubshells)) == has_count_placeholder(
            en_us_text(MessageId::WarpifySubshells),
        ),
{
    reveal_strlit("子 Shell");
    reveal_strlit("Subshells");
    assert(has_no_brace("子 Shell"@));
    assert(has_no_brace("Subshells"@));
    lemma_no_brace_no_placeholder("子 Shell"@);
    lemma_no_brace_no_placeholder("Subshells"@);
}

proof fn lemma_message_warpify_ssh()
    ensures
        zh_cn_text(MessageId::WarpifySsh).len() > 0,
        has_count_placeholder(zh_cn_text(MessageId::WarpifySsh)) == has_count_placeholder(
            en_us_text(MessageId::WarpifySsh),
        ),
{
    reveal_strlit("SSH");
    reveal_strlit("SSH");
    assert(has_no_brace("SSH"@));
    assert(has_no_brace("SSH"@));
    lemma_no_brace_no_placeholder("SSH"@);
    lemma_no_brace_no_placeholder("SSH"@);
}

proof fn lemma_message_mcp_servers_title()
    ensures
        zh_cn_text(MessageId::McpServersTitle).len() > 0,
        has_count_placeholder(zh_cn_text(MessageId::McpServersTitle)) == has_count_placeholder(
            en_us_text(MessageId::McpServersTitle),
        ),
{
    reveal_strlit("MCP 服务器");
    reveal_strlit("MCP Servers");
    assert(has_no_brace("MCP 服务器"@));
    assert(has_no_brace("MCP Servers"@));
    lemma_no_brace_no_placeholder("MCP 服务器"@);
    lemma_no_brace_no_placeholder("MCP Servers"@);
}

proof fn lemma_message_environments_last_edited()
    ensures
        zh_cn_text(MessageId::EnvironmentsLastEdited).len() > 0,
        has_count_placeholder(zh_cn_text(MessageId::EnvironmentsLastEdited)) == has_count_placeholder(
            en_us_text(MessageId::EnvironmentsLastEdited),
        ),
{
    reveal_strlit("上次编辑：");
    reveal_strlit("Last edited:");
    assert(has_no_brace("上次编辑："@));
    assert(has_no_brace("Last edited:"@));
    lemma_no_brace_no_placeholder("上次编辑："@);
    lemma_no_brace_no_placeholder("Last edited:"@);
}

proof fn lemma_message_environments_last_used()
    ensures
        zh_cn_text(MessageId::EnvironmentsLastUsed).len() > 0,
        has_count_placeholder(zh_cn_text(MessageId::EnvironmentsLastUsed)) == has_count_placeholder(
            en_us_text(MessageId::EnvironmentsLastUsed),
        ),
{
    reveal_strlit("上次使用：");
    reveal_strlit("Last used:");
    assert(has_no_brace("上次使用："@));
    assert(has_no_brace("Last used:"@));
    lemma_no_brace_no_placeholder("上次使用："@);
    lemma_no_brace_no_placeholder("Last used:"@);
}

proof fn lemma_message_environments_view_runs()
    ensures
        zh_cn_text(MessageId::EnvironmentsViewRuns).len() > 0,
        has_count_placeholder(zh_cn_text(MessageId::EnvironmentsViewRuns)) == has_count_placeholder(
            en_us_text(MessageId::EnvironmentsViewRuns),
        ),
{
    reveal_strlit("查看我的运行记录");
    reveal_strlit("View my runs");
    assert(has_no_brace("查看我的运行记录"@));
    assert(has_no_brace("View my runs"@));
    lemma_no_brace_no_placeholder("查看我的运行记录"@);
    lemma_no_brace_no_placeholder("View my runs"@);
}

proof fn lemma_message_platform_new_api_key()
    ensures
        zh_cn_text(MessageId::PlatformNewApiKey).len() > 0,
        has_count_placeholder(zh_cn_text(MessageId::PlatformNewApiKey)) == has_count_placeholder(
            en_us_text(MessageId::PlatformNewApiKey),
        ),
{
    reveal_strlit("新建 API 密钥");
    reveal_strlit("New API key");
    assert(has_no_brace("新建 API 密钥"@));
    assert(has_no_brace("New API key"@));
    lemma_no_brace_no_placeholder("新建 API 密钥"@);
    lemma_no_brace_no_placeholder("New API key"@);
}

proof fn lemma_message_show_blocks_copy_link()
    ensures
        zh_cn_text(MessageId::ShowBlocksCopyLink).len() > 0,
        has_count_placeholder(zh_cn_text(MessageId::ShowBlocksCopyLink)) == has_count_placeholder(
            en_us_text(MessageId::ShowBlocksCopyLink),
        ),
{
    reveal_strlit("复制链接");
    reveal_strlit("Copy link");
    assert(has_no_brace("复制链接"@));
    assert(has_no_brace("Copy link"@));
    lemma_no_brace_no_placeholder("复制链接"@);
    lemma_no_brace_no_placeholder("Copy link"@);
}

proof fn lemma_message_show_blocks_deleting()
    ensures
        zh_cn_text(MessageId::ShowBlocksDeleting).len() > 0,
        has_count_placeholder(zh_cn_text(MessageId::ShowBlocksDeleting)) == has_count_placeholder(
            en_us_text(MessageId::ShowBlocksDeleting),
        ),
{
    reveal_strlit("删除中...");
    reveal_strlit("Deleting...");
    assert(has_no_brace("删除中..."@));
    assert(has_no_brace("Deleting..."@));
    lemma_no_brace_no_placeholder("删除中..."@);
    lemma_no_brace_no_placeholder("Deleting..."@);
}

proof fn lemma_message_settings_open_settings_file()
    ensures
        zh_cn_text(MessageId::SettingsOpenSettingsFile).len() > 0,
        has_count_placeholder(zh_cn_text(MessageId::SettingsOpenSettingsFile)) == has_count_placeholder(
            en_us_text(MessageId::SettingsOpenSettingsFile),
        ),
{
    reveal_strlit("打开设置文件");
    reveal_strlit("Open settings file");
    assert(has_no_brace("打开设置文件"@));
    assert(has_no_brace("Open settings file"@));
    lemma_no_brace_no_placeholder("打开设置文件"@);
    lemma_no_brace_no_placeholder("Open settings file"@);
}

proof fn lemma_message_settings_default()
    ensures
        zh_cn_text(MessageId::SettingsDefault).len() > 0,
        has_count_placeholder(zh_cn_text(MessageId::SettingsDefault)) == has_count_placeholder(
            en_us_text(MessageId::SettingsDefault),
        ),
{
    reveal_strlit("默认");
    reveal_strlit("Default");
    assert(has_no_brace("默认"@));
    assert(has_no_brace("Default"@));
    lemma_no_brace_no_placeholder("默认"@);
    lemma_no_brace_no_placeholder("Default"@);
}

/// Every Simplified Chinese message has text, and it holds the `{count}` placeholder exactly
/// when the English message does.
pub proof fn lemma_chinese_messages_keep_placeholders(message_id: MessageId)
    ensures
        zh_cn_text(message_id).len() > 0,
        has_count_placeholder(zh_cn_text(message_id)) == has_count_placeholder(
            en_us_text(message_id),
        ),
{
    match message_id {
        MessageId::SettingsAbout => lemma_message_settings_about(),
        MessageId::SettingsAccount => lemma_message_settings_account(),
        MessageId::SettingsAgents => lemma_message_settings_agents(),
        MessageId::SettingsAppearance => lemma_message_settings_appearance(),
        MessageId::SettingsBillingAndUsage => lemma_message_settings_billing_and_usage(),
        MessageId::SettingsCloudEnvironments => lemma_message_settings_cloud_environments(),
        MessageId::SettingsCloudPlatform => lemma_message_settings_cloud_platform(),
        MessageId::SettingsCode => lemma_message_settings_code(),
        MessageId::SettingsCodeEditorAndCodeReview => lemma_message_settings_code_editor_and_code_review(),
        MessageId::SettingsCodeIndexing => lemma_message_settings_code_indexing(),
        MessageId::SettingsFeatures => lemma_message_settings_features(),
        MessageId::SettingsKeybindings => lemma_message_settings_keybindings(),
        MessageId::SettingsLanguage => lemma_message_settings_language(),
        MessageId::SettingsLocalAIProvider => lemma_message_settings_local_a_i_provider(),
        MessageId::SettingsKnowledge => lemma_message_settings_knowledge(),
        MessageId::SettingsMcpServers => lemma_message_settings_mcp_servers(),
        MessageId::SettingsOzCloudApiKeys => lemma_message_settings_oz_cloud_api_keys(),
        MessageId::SettingsPrivacy => lemma_message_settings_privacy(),
        MessageId::SettingsProfiles => lemma_message_settings_profiles(),
        MessageId::SettingsReferrals => lemma_message_settings_referrals(),
        MessageId::SettingsSharedBlocks => lemma_message_settings_shared_blocks(),
        MessageId::SettingsTeams => lemma_message_settings_teams(),
        MessageId::SettingsThirdPartyCliAgents => lemma_message_settings_third_party_cli_agents(),
        MessageId::SettingsWarpAgent => lemma_message_settings_warp_agent(),
        MessageId::SettingsWarpDrive => lemma_message_settings_warp_drive(),
        MessageId::SettingsWarpify => lemma_message_settings_warpify(),
        MessageId::AboutCopyright => lemma_message_about_copyright(),
        MessageId::LanguagePageDescription => lemma_message_language_page_description(),
        MessageId::LanguagePageOptionEnglish => lemma_message_language_page_option_english(),
        MessageId::LanguagePageOptionSimplifiedChinese => lemma_message_language_page_option_simplified_chinese(),
        MessageId::LanguagePageRestartNote => lemma_message_language_page_restart_note(),
        MessageId::LanguagePageSelectorLabel => lemma_message_language_page_selector_label(),
        MessageId::MenuAi => lemma_message_menu_ai(),
        MessageId::MenuBlocks => lemma_message_menu_blocks(),
        MessageId::MenuDrive => lemma_message_menu_drive(),
        MessageId::MenuEdit => lemma_message_menu_edit(),
        MessageId::MenuFile => lemma_message_menu_file(),
        MessageId::MenuHelp => lemma_message_menu_help(),
        MessageId::MenuTab => lemma_message_menu_tab(),
        MessageId::MenuView => lemma_message_menu_view(),
        MessageId::MenuWindow => lemma_message_menu_window(),
        MessageId::AppPreferences => lemma_message_app_preferences(),
        MessageId::AppPrivacyPolicy => lemma_message_app_privacy_policy(),
        MessageId::AppDebug => lemma_message_app_debug(),
        MessageId::AppSetDefaultTerminal => lemma_message_app_set_default_terminal(),
        MessageId::AppLogout => lemma_message_app_logout(),
        MessageId::FileNewWindow => lemma_message_file_new_window(),
        MessageId::FileNewTerminalTab => lemma_message_file_new_terminal_tab(),
        MessageId::FileNewAgentTab => lemma_message_file_new_agent_tab(),
        MessageId::FileNewFile => lemma_message_file_new_file(),
        MessageId::FileReopenClosedSession => lemma_message_file_reopen_closed_session(),
        MessageId::FileLaunchConfigurations => lemma_message_file_launch_configurations(),
        MessageId::FileOpenRecent => lemma_message_file_open_recent(),
        MessageId::FileSaveNew => lemma_message_file_save_new(),
        MessageId::FileClose => lemma_message_file_close(),
        MessageId::FileCloseWindow => lemma_message_file_close_window(),
        MessageId::EditUseWarpPrompt => lemma_message_edit_use_warp_prompt(),
        MessageId::EditCopyOnSelect => lemma_message_edit_copy_on_select(),
        MessageId::EditSynchronizeInputs => lemma_message_edit_synchronize_inputs(),
        MessageId::ViewToggleMouseReporting => lemma_message_view_toggle_mouse_reporting(),
        MessageId::ViewToggleScrollReporting => lemma_message_view_toggle_scroll_reporting(),
        MessageId::ViewToggleFocusReporting => lemma_message_view_toggle_focus_reporting(),
        MessageId::ViewCompactMode => lemma_message_view_compact_mode(),
        MessageId::HelpSendFeedback => lemma_message_help_send_feedback(),
        MessageId::HelpWarpDocumentation => lemma_message_help_warp_documentation(),
        MessageId::HelpGitHubIssues => lemma_message_help_git_hub_issues(),
        MessageId::HelpWarpSlackCommunity => lemma_message_help_warp_slack_community(),
        MessageId::DockNewWindow => lemma_message_dock_new_window(),
        MessageId::DebugEnableShellDebugMode => lemma_message_debug_enable_shell_debug_mode(),
        MessageId::DebugDisableShellDebugMode => lemma_message_debug_disable_shell_debug_mode(),
        MessageId::DebugEnableInBandGenerators => lemma_message_debug_enable_in_band_generators(),
        MessageId::DebugDisableInBandGenerators => lemma_message_debug_disable_in_band_generators(),
        MessageId::DebugEnablePtyRecording => lemma_message_debug_enable_pty_recording(),
        MessageId::DebugDisablePtyRecording => lemma_message_debug_disable_pty_recording(),
        MessageId::DebugShowBootstrapBlock => lemma_message_debug_show_bootstrap_block(),
        MessageId::DebugHideBootstrapBlock => lemma_message_debug_hide_bootstrap_block(),
        MessageId::DebugShowInBandCommandBlocks => lemma_message_debug_show_in_band_command_blocks(),
        MessageId::DebugHideInBandCommandBlocks => lemma_message_debug_hide_in_band_command_blocks(),
        MessageId::DebugShowSshBlocks => lemma_message_debug_show_ssh_blocks(),
        MessageId::DebugHideSshBlocks => lemma_message_debug_hide_ssh_blocks(),
        MessageId::DebugExportDefaultSettingsCsv => lemma_message_debug_export_default_settings_csv(),
        MessageId::DebugToggleNetworkStatus => lemma_message_debug_toggle_network_status(),
        MessageId::DebugCreateAnonymousUser => lemma_message_debug_create_anonymous_user(),
        MessageId::EditUndo => lemma_message_edit_undo(),
        MessageId::EditRedo => lemma_message_edit_redo(),
        MessageId::EditCut => lemma_message_edit_cut(),
        MessageId::EditCopy => lemma_message_edit_copy(),
        MessageId::EditPaste => lemma_message_edit_paste(),
        MessageId::EditSelectAll => lemma_message_edit_select_all(),
        MessageId::EditClearEditor => lemma_message_edit_clear_editor(),
        MessageId::EditFind => lemma_message_edit_find(),
        MessageId::EditGoToLine => lemma_message_edit_go_to_line(),
        MessageId::EditFocusInput => lemma_message_edit_focus_input(),
        MessageId::EditAddNextOccurrence => lemma_message_edit_add_next_occurrence(),
        MessageId::EditAddCursorAbove => lemma_message_edit_add_cursor_above(),
        MessageId::EditAddCursorBelow => lemma_message_edit_add_cursor_below(),
        MessageId::ViewCommandPalette => lemma_message_view_command_palette(),
        MessageId::ViewNavigationPalette => lemma_message_view_navigation_palette(),
        MessageId::ViewLaunchConfigPalette => lemma_message_view_launch_config_palette(),
        MessageId::ViewFilesPalette => lemma_message_view_files_palette(),
        MessageId::ViewToggleConversationList => lemma_message_view_toggle_conversation_list(),
        MessageId::ViewToggleProjectExplorer => lemma_message_view_toggle_project_explorer(),
        MessageId::ViewToggleGlobalSearch => lemma_message_view_toggle_global_search(),
        MessageId::ViewHistory => lemma_message_view_history(),
        MessageId::ViewCommandSearch => lemma_message_view_command_search(),
        MessageId::ViewWorkflows => lemma_message_view_workflows(),
        MessageId::ViewIncreaseFontSize => lemma_message_view_increase_font_size(),
        MessageId::ViewDecreaseFontSize => lemma_message_view_decrease_font_size(),
        MessageId::ViewResetFontSize => lemma_message_view_reset_font_size(),
        MessageId::ViewIncreaseZoom => lemma_message_view_increase_zoom(),
        MessageId::ViewDecreaseZoom => lemma_message_view_decrease_zoom(),
        MessageId::ViewResetZoom => lemma_message_view_reset_zoom(),
        MessageId::ViewToggleWarpDrive => lemma_message_view_toggle_warp_drive(),
        MessageId::TabRename => lemma_message_tab_rename(),
        MessageId::TabSplitRight => lemma_message_tab_split_right(),
        MessageId::TabSplitLeft => lemma_message_tab_split_left(),
        MessageId::TabSplitDown => lemma_message_tab_split_down(),
        MessageId::TabSplitUp => lemma_message_tab_split_up(),
        MessageId::TabMoveLeft => lemma_message_tab_move_left(),
        MessageId::TabMoveRight => lemma_message_tab_move_right(),
        MessageId::TabCycleNext => lemma_message_tab_cycle_next(),
        MessageId::TabCyclePrev => lemma_message_tab_cycle_prev(),
        MessageId::TabActivateNextPane => lemma_message_tab_activate_next_pane(),
        MessageId::TabActivatePrevPane => lemma_message_tab_activate_prev_pane(),
        MessageId::TabMaximizePane => lemma_message_tab_maximize_pane(),
        MessageId::TabClose => lemma_message_tab_close(),
        MessageId::TabCloseOthers => lemma_message_tab_close_others(),
        MessageId::TabCloseRight => lemma_message_tab_close_right(),
        MessageId::BlocksClear => lemma_message_blocks_clear(),
        MessageId::BlocksSelectAbove => lemma_message_blocks_select_above(),
        MessageId::BlocksSelectBelow => lemma_message_blocks_select_below(),
        MessageId::BlocksSelectAll => lemma_message_blocks_select_all(),
        MessageId::BlocksScrollToTop => lemma_message_blocks_scroll_to_top(),
        MessageId::BlocksScrollToBottom => lemma_message_blocks_scroll_to_bottom(),
        MessageId::BlocksCreatePermalink => lemma_message_blocks_create_permalink(),
        MessageId::BlocksToggleBookmark => lemma_message_blocks_toggle_bookmark(),
        MessageId::BlocksFindWithin => lemma_message_blocks_find_within(),
        MessageId::BlocksCopy => lemma_message_blocks_copy(),
        MessageId::BlocksCopyCommand => lemma_message_blocks_copy_command(),
        MessageId::BlocksCopyOutput => lemma_message_blocks_copy_output(),
        MessageId::BlocksViewShared => lemma_message_blocks_view_shared(),
        MessageId::AiNewAgentMode => lemma_message_ai_new_agent_mode(),
        MessageId::AiAttachSelection => lemma_message_ai_attach_selection(),
        MessageId::AiSearch => lemma_message_ai_search(),
        MessageId::AiOpenFactCollection => lemma_message_ai_open_fact_collection(),
        MessageId::AiOpenMcpServers => lemma_message_ai_open_mcp_servers(),
        MessageId::DriveNewPersonalWorkflow => lemma_message_drive_new_personal_workflow(),
        MessageId::DriveNewPersonalNotebook => lemma_message_drive_new_personal_notebook(),
        MessageId::DriveNewPersonalAIPrompt => lemma_message_drive_new_personal_a_i_prompt(),
        MessageId::DriveNewPersonalEnvVars => lemma_message_drive_new_personal_env_vars(),
        MessageId::DriveNewTeamWorkflow => lemma_message_drive_new_team_workflow(),
        MessageId::DriveNewTeamNotebook => lemma_message_drive_new_team_notebook(),
        MessageId::DriveNewTeamAIPrompt => lemma_message_drive_new_team_a_i_prompt(),
        MessageId::DriveNewTeamEnvVars => lemma_message_drive_new_team_env_vars(),
        MessageId::DriveSearch => lemma_message_drive_search(),
        MessageId::DriveOpenTeamSettings => lemma_message_drive_open_team_settings(),
        MessageId::DriveSharePaneContents => lemma_message_drive_share_pane_contents(),
        MessageId::DriveShareSession => lemma_message_drive_share_session(),
        MessageId::AppShowAboutWarp => lemma_message_app_show_about_warp(),
        MessageId::AppToggleResourceCenter => lemma_message_app_toggle_resource_center(),
        MessageId::AppReferAFriend => lemma_message_app_refer_a_friend(),
        MessageId::AppShowSettings => lemma_message_app_show_settings(),
        MessageId::AppToggleKeybindings => lemma_message_app_toggle_keybindings(),
        MessageId::AppConfigureKeybindings => lemma_message_app_configure_keybindings(),
        MessageId::AppShowAppearance => lemma_message_app_show_appearance(),
        MessageId::AppViewChangelog => lemma_message_app_view_changelog(),
        MessageId::SyncAllTerminalInputs => lemma_message_sync_all_terminal_inputs(),
        MessageId::SyncTerminalInputsCurrentTab => lemma_message_sync_terminal_inputs_current_tab(),
        MessageId::DisableSyncInputs => lemma_message_disable_sync_inputs(),
        MessageId::FileOpenRepository => lemma_message_file_open_repository(),
        MessageId::AddWindow => lemma_message_add_window(),
        MessageId::SettingsSignUp => lemma_message_settings_sign_up(),
        MessageId::SettingsFree => lemma_message_settings_free(),
        MessageId::SettingsComparePlans => lemma_message_settings_compare_plans(),
        MessageId::SettingsUpToDate => lemma_message_settings_up_to_date(),
        MessageId::SettingsVersion => lemma_message_settings_version(),
        MessageId::SettingsLogOut => lemma_message_settings_log_out(),
        MessageId::SettingsReferralCta => lemma_message_settings_referral_cta(),
        MessageId::SettingsContactSupport => lemma_message_settings_contact_support(),
        MessageId::SettingsManageBilling => lemma_message_settings_manage_billing(),
        MessageId::SettingsCheckForUpdates => lemma_message_settings_check_for_updates(),
        MessageId::SettingsRelaunchWarp => lemma_message_settings_relaunch_warp(),
        MessageId::SettingsUpdateAvailable => lemma_message_settings_update_available(),
        MessageId::SettingsUpdating => lemma_message_settings_updating(),
        MessageId::SettingsInstalledUpdate => lemma_message_settings_installed_update(),
        MessageId::SettingsUpdateManually => lemma_message_settings_update_manually(),
        MessageId::SettingsSettingsSync => lemma_message_settings_settings_sync(),
        MessageId::AppearanceCategoryThemes => lemma_message_appearance_category_themes(),
        MessageId::AppearanceCategoryIcon => lemma_message_appearance_category_icon(),
        MessageId::AppearanceCategoryWindow => lemma_message_appearance_category_window(),
        MessageId::AppearanceCategoryInput => lemma_message_appearance_category_input(),
        MessageId::AppearanceCategoryPanes => lemma_message_appearance_category_panes(),
        MessageId::AppearanceCategoryBlocks => lemma_message_appearance_category_blocks(),
        MessageId::AppearanceCategoryText => lemma_message_appearance_category_text(),
        MessageId::AppearanceCategoryCursor => lemma_message_appearance_category_cursor(),
        MessageId::AppearanceCategoryTabs => lemma_message_appearance_category_tabs(),
        MessageId::AppearanceCategoryFullscreenApps => lemma_message_appearance_category_fullscreen_apps(),
        MessageId::AppearanceCompactMode => lemma_message_appearance_compact_mode(),
        MessageId::AppearanceSyncWithOs => lemma_message_appearance_sync_with_os(),
        MessageId::AppearanceCursorBlink => lemma_message_appearance_cursor_blink(),
        MessageId::AppearanceJumpToBottom => lemma_message_appearance_jump_to_bottom(),
        MessageId::AppearanceBlockDividers => lemma_message_appearance_block_dividers(),
        MessageId::AppearanceDimInactivePanes => lemma_message_appearance_dim_inactive_panes(),
        MessageId::AppearanceTabIndicators => lemma_message_appearance_tab_indicators(),
        MessageId::AppearanceFocusFollowsMouse => lemma_message_appearance_focus_follows_mouse(),
        MessageId::AppearanceZenMode => lemma_message_appearance_zen_mode(),
        MessageId::AppearanceVerticalTabLayout => lemma_message_appearance_vertical_tab_layout(),
        MessageId::AppearanceLigatureRendering => lemma_message_appearance_ligature_rendering(),
        MessageId::AppearanceStartInputTop => lemma_message_appearance_start_input_top(),
        MessageId::AppearancePinInputTop => lemma_message_appearance_pin_input_top(),
        MessageId::AppearancePinInputBottom => lemma_message_appearance_pin_input_bottom(),
        MessageId::AppearanceToggleInputMode => lemma_message_appearance_toggle_input_mode(),
        MessageId::AppearanceAlwaysShowTabBar => lemma_message_appearance_always_show_tab_bar(),
        MessageId::AppearanceHideTabBarFullscreen => lemma_message_appearance_hide_tab_bar_fullscreen(),
        MessageId::AppearanceShowTabBarOnHover => lemma_message_appearance_show_tab_bar_on_hover(),
        MessageId::AppearanceHeaderToolbarLayout => lemma_message_appearance_header_toolbar_layout(),
        MessageId::AppearanceCreateCustomTheme => lemma_message_appearance_create_custom_theme(),
        MessageId::AppearanceWindowOpacity => lemma_message_appearance_window_opacity(),
        MessageId::AppearanceWindowBlur => lemma_message_appearance_window_blur(),
        MessageId::AppearanceInputType => lemma_message_appearance_input_type(),
        MessageId::AppearanceShowCodeReviewButton => lemma_message_appearance_show_code_review_button(),
        MessageId::AppearanceHideCodeReviewButton => lemma_message_appearance_hide_code_review_button(),
        MessageId::AppearanceInputModeWarp => lemma_message_appearance_input_mode_warp(),
        MessageId::AppearanceInputModeReverse => lemma_message_appearance_input_mode_reverse(),
        MessageId::AppearanceInputModeClassic => lemma_message_appearance_input_mode_classic(),
        MessageId::AppearanceThinStrokesNever => lemma_message_appearance_thin_strokes_never(),
        MessageId::AppearanceThinStrokesLowDpi => lemma_message_appearance_thin_strokes_low_dpi(),
        MessageId::AppearanceThinStrokesHighDpi => lemma_message_appearance_thin_strokes_high_dpi(),
        MessageId::AppearanceThinStrokesAlways => lemma_message_appearance_thin_strokes_always(),
        MessageId::AppearanceContrastAlways => lemma_message_appearance_contrast_always(),
        MessageId::AppearanceContrastNamedColors => lemma_message_appearance_contrast_named_colors(),
        MessageId::AppearanceNever => lemma_message_appearance_never(),
        MessageId::AppearanceAlways => lemma_message_appearance_always(),
        MessageId::FeaturesCategoryGeneral => lemma_message_features_category_general(),
        MessageId::FeaturesCategorySession => lemma_message_features_category_session(),
        MessageId::FeaturesCategoryKeys => lemma_message_features_category_keys(),
        MessageId::FeaturesCategoryTextEditing => lemma_message_features_category_text_editing(),
        MessageId::FeaturesCategoryTerminalInput => lemma_message_features_category_terminal_input(),
        MessageId::FeaturesCategoryTerminal => lemma_message_features_category_terminal(),
        MessageId::FeaturesCategoryNotifications => lemma_message_features_category_notifications(),
        MessageId::FeaturesCategoryWorkflows => lemma_message_features_category_workflows(),
        MessageId::FeaturesCategorySystem => lemma_message_features_category_system(),
        MessageId::FeaturesCopyOnSelect => lemma_message_features_copy_on_select(),
        MessageId::FeaturesLinuxSelectionClipboard => lemma_message_features_linux_selection_clipboard(),
        MessageId::FeaturesAutocompleteQuotes => lemma_message_features_autocomplete_quotes(),
        MessageId::FeaturesRestoreWindows => lemma_message_features_restore_windows(),
        MessageId::FeaturesScrollReporting => lemma_message_features_scroll_reporting(),
        MessageId::FeaturesCompletionsWhileTyping => lemma_message_features_completions_while_typing(),
        MessageId::FeaturesCommandCorrections => lemma_message_features_command_corrections(),
        MessageId::FeaturesErrorUnderlining => lemma_message_features_error_underlining(),
        MessageId::FeaturesSyntaxHighlighting => lemma_message_features_syntax_highlighting(),
        MessageId::FeaturesAudibleTerminalBell => lemma_message_features_audible_terminal_bell(),
        MessageId::FeaturesAutosuggestions => lemma_message_features_autosuggestions(),
        MessageId::FeaturesAutosuggestionKeybindingHint => lemma_message_features_autosuggestion_keybinding_hint(),
        MessageId::FeaturesSshWrapper => lemma_message_features_ssh_wrapper(),
        MessageId::FeaturesLinkTooltip => lemma_message_features_link_tooltip(),
        MessageId::FeaturesVimUnnamedRegister => lemma_message_features_vim_unnamed_register(),
        MessageId::FeaturesVimStatusBar => lemma_message_features_vim_status_bar(),
        MessageId::FeaturesWaylandWindowManagement => lemma_message_features_wayland_window_management(),
        MessageId::FeaturesConfigureGlobalHotkey => lemma_message_features_configure_global_hotkey(),
        MessageId::FeaturesMakeDefaultTerminal => lemma_message_features_make_default_terminal(),
        MessageId::FeaturesLeftOptionMeta => lemma_message_features_left_option_meta(),
        MessageId::FeaturesRightOptionMeta => lemma_message_features_right_option_meta(),
        MessageId::FeaturesLeftAltMeta => lemma_message_features_left_alt_meta(),
        MessageId::FeaturesRightAltMeta => lemma_message_features_right_alt_meta(),
        MessageId::FeaturesPerformanceWarning => lemma_message_features_performance_warning(),
        MessageId::CodeInitializationSettings => lemma_message_code_initialization_settings(),
        MessageId::CodeCodebaseIndexing => lemma_message_code_codebase_indexing(),
        MessageId::CodeCodebaseIndexDescription => lemma_message_code_codebase_index_description(),
        MessageId::CodeWarpIndexingIgnoreDescription => lemma_message_code_warp_indexing_ignore_description(),
        MessageId::CodeAutoIndexFeatureName => lemma_message_code_auto_index_feature_name(),
        MessageId::CodeAutoIndexDescription => lemma_message_code_auto_index_description(),
        MessageId::CodeIndexingDisabledAdmin => lemma_message_code_indexing_disabled_admin(),
        MessageId::CodeIndexingWorkspaceEnabledAdmin => lemma_message_code_indexing_workspace_enabled_admin(),
        MessageId::CodeIndexingDisabledGlobalAi => lemma_message_code_indexing_disabled_global_ai(),
        MessageId::CodeCodebaseIndexLimitReached => lemma_message_code_codebase_index_limit_reached(),
        MessageId::CodeCodebaseIndexingCategory => lemma_message_code_codebase_indexing_category(),
        MessageId::CodeEditorAndReviewCategory => lemma_message_code_editor_and_review_category(),
        MessageId::CodeIndexNewFolder => lemma_message_code_index_new_folder(),
        MessageId::CodeRestartServer => lemma_message_code_restart_server(),
        MessageId::CodeViewLogs => lemma_message_code_view_logs(),
        MessageId::CodeSyncing => lemma_message_code_syncing(),
        MessageId::CodeSynced => lemma_message_code_synced(),
        MessageId::CodeCodebaseTooLarge => lemma_message_code_codebase_too_large(),
        MessageId::CodeInstalled => lemma_message_code_installed(),
        MessageId::CodeInstalling => lemma_message_code_installing(),
        MessageId::CodeChecking => lemma_message_code_checking(),
        MessageId::CodeAvailableForDownload => lemma_message_code_available_for_download(),
        MessageId::CodeAvailable => lemma_message_code_available(),
        MessageId::CodeBusy => lemma_message_code_busy(),
        MessageId::CodeFailed => lemma_message_code_failed(),
        MessageId::CodeStopped => lemma_message_code_stopped(),
        MessageId::CodeNotRunning => lemma_message_code_not_running(),
        MessageId::CodeInitializedFolders => lemma_message_code_initialized_folders(),
        MessageId::CodeNoFoldersInitialized => lemma_message_code_no_folders_initialized(),
        MessageId::CodeOpenProjectRules => lemma_message_code_open_project_rules(),
        MessageId::CodeIndexingLabel => lemma_message_code_indexing_label(),
        MessageId::CodeNoIndexCreated => lemma_message_code_no_index_created(),
        MessageId::CodeAutoOpenCodeReview => lemma_message_code_auto_open_code_review(),
        MessageId::CodeAutoOpenCodeReviewDescription => lemma_message_code_auto_open_code_review_description(),
        MessageId::CodeShowCodeReviewButton => lemma_message_code_show_code_review_button(),
        MessageId::CodeShowCodeReviewButtonDescription => lemma_message_code_show_code_review_button_description(),
        MessageId::CodeShowDiffStats => lemma_message_code_show_diff_stats(),
        MessageId::CodeShowDiffStatsDescription => lemma_message_code_show_diff_stats_description(),
        MessageId::CodeProjectExplorer => lemma_message_code_project_explorer(),
        MessageId::CodeProjectExplorerDescription => lemma_message_code_project_explorer_description(),
        MessageId::CodeGlobalFileSearch => lemma_message_code_global_file_search(),
        MessageId::CodeGlobalFileSearchDescription => lemma_message_code_global_file_search_description(),
        MessageId::PrivacySecretRedaction => lemma_message_privacy_secret_redaction(),
        MessageId::PrivacySecretRedactionDescription => lemma_message_privacy_secret_redaction_description(),
        MessageId::PrivacyCustomSecretRedaction => lemma_message_privacy_custom_secret_redaction(),
        MessageId::PrivacyCustomSecretDescription => lemma_message_privacy_custom_secret_description(),
        MessageId::PrivacyTelemetryTitle => lemma_message_privacy_telemetry_title(),
        MessageId::PrivacyTelemetryDescription => lemma_message_privacy_telemetry_description(),
        MessageId::PrivacyTelemetryFreeTierNote => lemma_message_privacy_telemetry_free_tier_note(),
        MessageId::PrivacyDataManagementTitle => lemma_message_privacy_data_management_title(),
        MessageId::PrivacyDataManagementDescription => lemma_message_privacy_data_management_description(),
        MessageId::PrivacyDataManagementLinkText => lemma_message_privacy_data_management_link_text(),
        MessageId::PrivacyPrivacyPolicyTitle => lemma_message_privacy_privacy_policy_title(),
        MessageId::PrivacyPrivacyPolicyLinkText => lemma_message_privacy_privacy_policy_link_text(),
        MessageId::BillingOverview => lemma_message_billing_overview(),
        MessageId::BillingUsageHistory => lemma_message_billing_usage_history(),
        MessageId::BillingViewOverageDetails => lemma_message_billing_view_overage_details(),
        MessageId::BillingEnableOverages => lemma_message_billing_enable_overages(),
        MessageId::BillingOveragesEnabled => lemma_message_billing_overages_enabled(),
        MessageId::BillingOveragesNotEnabled => lemma_message_billing_overages_not_enabled(),
        MessageId::BillingAtoZ => lemma_message_billing_ato_z(),
        MessageId::BillingZtoA => lemma_message_billing_zto_a(),
        MessageId::BillingUsageAscending => lemma_message_billing_usage_ascending(),
        MessageId::BillingUsageDescending => lemma_message_billing_usage_descending(),
        MessageId::BillingEnterpriseUsageCallout => lemma_message_billing_enterprise_usage_callout(),
        MessageId::TeamsTeamName => lemma_message_teams_team_name(),
        MessageId::TeamsLeaveTeam => lemma_message_teams_leave_team(),
        MessageId::TeamsDeleteTeam => lemma_message_teams_delete_team(),
        MessageId::TeamsCreate => lemma_message_teams_create(),
        MessageId::TeamsCreateDescription => lemma_message_teams_create_description(),
        MessageId::TeamsDomainsPlaceholder => lemma_message_teams_domains_placeholder(),
        MessageId::TeamsEmailsPlaceholder => lemma_message_teams_emails_placeholder(),
        MessageId::TeamsSet => lemma_message_teams_set(),
        MessageId::TeamsInvite => lemma_message_teams_invite(),
        MessageId::TeamsInviteLinkInstructions => lemma_message_teams_invite_link_instructions(),
        MessageId::TeamsInviteByEmailExpiry => lemma_message_teams_invite_by_email_expiry(),
        MessageId::TeamsOffline => lemma_message_teams_offline(),
        MessageId::ReferralsHeader => lemma_message_referrals_header(),
        MessageId::ReferralsAnonymousHeader => lemma_message_referrals_anonymous_header(),
        MessageId::ReferralsFailedLoad => lemma_message_referrals_failed_load(),
        MessageId::ReferralsCopyLink => lemma_message_referrals_copy_link(),
        MessageId::ReferralsSend => lemma_message_referrals_send(),
        MessageId::ReferralsSending => lemma_message_referrals_sending(),
        MessageId::ReferralsLoading => lemma_message_referrals_loading(),
        MessageId::ReferralsLinkCopied => lemma_message_referrals_link_copied(),
        MessageId::ReferralsEmailSuccess => lemma_message_referrals_email_success(),
        MessageId::ReferralsEmailFailure => lemma_message_referrals_email_failure(),
        MessageId::ReferralsRewardIntro => lemma_message_referrals_reward_intro(),
        MessageId::ReferralsCurrentReferral => lemma_message_referrals_current_referral(),
        MessageId::ReferralsCurrentReferrals => lemma_message_referrals_current_referrals(),
        MessageId::ReferralsCertainRestrictions => lemma_message_referrals_certain_restrictions(),
        MessageId::KeybindingsSearchPlaceholder => lemma_message_keybindings_search_placeholder(),
        MessageId::KeybindingsConflictWarning => lemma_message_keybindings_conflict_warning(),
        MessageId::KeybindingsDefault => lemma_message_keybindings_default(),
        MessageId::KeybindingsCancel => lemma_message_keybindings_cancel(),
        MessageId::KeybindingsClear => lemma_message_keybindings_clear(),
        MessageId::KeybindingsSave => lemma_message_keybindings_save(),
        MessageId::WarpDriveSignUpRequired => lemma_message_warp_drive_sign_up_required(),
        MessageId::WarpifySubshells => lemma_message_warpify_subshells(),
        MessageId::WarpifySsh => lemma_message_warpify_ssh(),
        MessageId::McpServersTitle => lemma_message_mcp_servers_title(),
        MessageId::EnvironmentsLastEdited => lemma_message_environments_last_edited(),
        MessageId::EnvironmentsLastUsed => lemma_message_environments_last_used(),
        MessageId::EnvironmentsViewRuns => lemma_message_environments_view_runs(),
        MessageId::PlatformNewApiKey => lemma_message_platform_new_api_key(),
        MessageId::ShowBlocksCopyLink => lemma_message_show_blocks_copy_link(),
        MessageId::ShowBlocksDeleting => lemma_message_show_blocks_deleting(),
        MessageId::SettingsOpenSettingsFile => lemma_message_settings_open_settings_file(),
        MessageId::SettingsDefault => lemma_message_settings_default(),
    }
}

} // verus!
