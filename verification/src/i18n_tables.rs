use vstd::prelude::*;

use crate::i18n::MessageId;
use crate::i18n_en_us::en_us_text;
use crate::i18n_zh_cn::zh_cn_text;

verus! {

/// Whether every character of a text is ASCII.
pub open spec fn is_ascii_text(text: Seq<char>) -> bool {
    forall|i: int| 0 <= i < text.len() ==> (text[i] as u32) < 128
}

/// Whether a text holds a character outside ASCII.
pub open spec fn has_non_ascii(text: Seq<char>) -> bool {
    exists|i: int| 0 <= i < text.len() && ((#[trigger] text[i]) as u32) >= 128
}

/// Whether a message keeps its English text in Simplified Chinese: product names and the
/// name of the English option.
pub open spec fn keeps_english_text(message_id: MessageId) -> bool {

    message_id == MessageId::SettingsWarpDrive || message_id == MessageId::SettingsWarpify || message_id == MessageId::LanguagePageOptionEnglish || message_id == MessageId::MenuAi || message_id == MessageId::HelpGitHubIssues || message_id == MessageId::WarpifySsh
}

proof fn lemma_texts_settings_about()
    ensures
        en_us_text(MessageId::SettingsAbout) == "About"@,
        zh_cn_text(MessageId::SettingsAbout) == "关于"@,
        is_ascii_text(en_us_text(MessageId::SettingsAbout)),
        keeps_english_text(MessageId::SettingsAbout) ==> zh_cn_text(MessageId::SettingsAbout) == en_us_text(MessageId::SettingsAbout),
        !keeps_english_text(MessageId::SettingsAbout) ==> has_non_ascii(zh_cn_text(MessageId::SettingsAbout)),
{
    reveal_strlit("About");
    reveal_strlit("关于");
    assert(is_ascii_text("About"@));
    assert("关于"@[0] == '\u{5173}');
    assert(("关于"@[0] as u32) >= 128);
}

proof fn lemma_texts_settings_account()
    ensures
        en_us_text(MessageId::SettingsAccount) == "Account"@,
        zh_cn_text(MessageId::SettingsAccount) == "账户"@,
        is_ascii_text(en_us_text(MessageId::SettingsAccount)),
        keeps_english_text(MessageId::SettingsAccount) ==> zh_cn_text(MessageId::SettingsAccount) == en_us_text(MessageId::SettingsAccount),
        !keeps_english_text(MessageId::SettingsAccount) ==> has_non_ascii(zh_cn_text(MessageId::SettingsAccount)),
{
    reveal_strlit("Account");
    reveal_strlit("账户");
    assert(is_ascii_text("Account"@));
    assert("账户"@[0] == '\u{8d26}');
    assert(("账户"@[0] as u32) >= 128);
}

proof fn lemma_texts_settings_agents()
    ensures
        en_us_text(MessageId::SettingsAgents) == "Agents"@,
        zh_cn_text(MessageId::SettingsAgents) == "智能体"@,
        is_ascii_text(en_us_text(MessageId::SettingsAgents)),
        keeps_english_text(MessageId::SettingsAgents) ==> zh_cn_text(MessageId::SettingsAgents) == en_us_text(MessageId::SettingsAgents),
        !keeps_english_text(MessageId::SettingsAgents) ==> has_non_ascii(zh_cn_text(MessageId::SettingsAgents)),
{
    reveal_strlit("Agents");
    reveal_strlit("智能体");
    assert(is_ascii_text("Agents"@));
    assert("智能体"@[0] == '\u{667a}');
    assert(("智能体"@[0] as u32) >= 128);
}

proof fn lemma_texts_settings_appearance()
    ensures
        en_us_text(MessageId::SettingsAppearance) == "Appearance"@,
        zh_cn_text(MessageId::SettingsAppearance) == "外观"@,
        is_ascii_text(en_us_text(MessageId::SettingsAppearance)),
        keeps_english_text(MessageId::SettingsAppearance) ==> zh_cn_text(MessageId::SettingsAppearance) == en_us_text(MessageId::SettingsAppearance),
        !keeps_english_text(MessageId::SettingsAppearance) ==> has_non_ascii(zh_cn_text(MessageId::SettingsAppearance)),
{
    reveal_strlit("Appearance");
    reveal_strlit("外观");
    assert(is_ascii_text("Appearance"@));
    assert("外观"@[0] == '\u{5916}');
    assert(("外观"@[0] as u32) >= 128);
}

proof fn lemma_texts_settings_billing_and_usage()
    ensures
        en_us_text(MessageId::SettingsBillingAndUsage) == "Billing and usage"@,
        zh_cn_text(MessageId::SettingsBillingAndUsage) == "账单和用量"@,
        is_ascii_text(en_us_text(MessageId::SettingsBillingAndUsage)),
        keeps_english_text(MessageId::SettingsBillingAndUsage) ==> zh_cn_text(MessageId::SettingsBillingAndUsage) == en_us_text(MessageId::SettingsBillingAndUsage),
        !keeps_english_text(MessageId::SettingsBillingAndUsage) ==> has_non_ascii(zh_cn_text(MessageId::SettingsBillingAndUsage)),
{
    reveal_strlit("Billing and usage");
    reveal_strlit("账单和用量");
    assert(is_ascii_text("Billing and usage"@));
    assert("账单和用量"@[0] == '\u{8d26}');
    assert(("账单和用量"@[0] as u32) >= 128);
}

proof fn lemma_texts_settings_cloud_environments()
    ensures
        en_us_text(MessageId::SettingsCloudEnvironments) == "Environments"@,
        zh_cn_text(MessageId::SettingsCloudEnvironments) == "环境"@,
        is_ascii_text(en_us_text(MessageId::SettingsCloudEnvironments)),
        keeps_english_text(MessageId::SettingsCloudEnvironments) ==> zh_cn_text(MessageId::SettingsCloudEnvironments) == en_us_text(MessageId::SettingsCloudEnvironments),
        !keeps_english_text(MessageId::SettingsCloudEnvironments) ==> has_non_ascii(zh_cn_text(MessageId::SettingsCloudEnvironments)),
{
    reveal_strlit("Environments");
    reveal_strlit("环境");
    assert(is_ascii_text("Environments"@));
    assert("环境"@[0] == '\u{73af}');
    assert(("环境"@[0] as u32) >= 128);
}

proof fn lemma_texts_settings_cloud_platform()
    ensures
        en_us_text(MessageId::SettingsCloudPlatform) == "Cloud platform"@,
        zh_cn_text(MessageId::SettingsCloudPlatform) == "云平台"@,
        is_ascii_text(en_us_text(MessageId::SettingsCloudPlatform)),
        keeps_english_text(MessageId::SettingsCloudPlatform) ==> zh_cn_text(MessageId::SettingsCloudPlatform) == en_us_text(MessageId::SettingsCloudPlatform),
        !keeps_english_text(MessageId::SettingsCloudPlatform) ==> has_non_ascii(zh_cn_text(MessageId::SettingsCloudPlatform)),
{
    reveal_strlit("Cloud platform");
    reveal_strlit("云平台");
    assert(is_ascii_text("Cloud platform"@));
    assert("云平台"@[0] == '\u{4e91}');
    assert(("云平台"@[0] as u32) >= 128);
}

proof fn lemma_texts_settings_code()
    ensures
        en_us_text(MessageId::SettingsCode) == "Code"@,
        zh_cn_text(MessageId::SettingsCode) == "代码"@,
        is_ascii_text(en_us_text(MessageId::SettingsCode)),
        keeps_english_text(MessageId::SettingsCode) ==> zh_cn_text(MessageId::SettingsCode) == en_us_text(MessageId::SettingsCode),
        !keeps_english_text(MessageId::SettingsCode) ==> has_non_ascii(zh_cn_text(MessageId::SettingsCode)),
{
    reveal_strlit("Code");
    reveal_strlit("代码");
    assert(is_ascii_text("Code"@));
    assert("代码"@[0] == '\u{4ee3}');
    assert(("代码"@[0] as u32) >= 128);
}

proof fn lemma_texts_settings_code_editor_and_code_review()
    ensures
        en_us_text(MessageId::SettingsCodeEditorAndCodeReview) == "Editor and Code Review"@,
        zh_cn_text(MessageId::SettingsCodeEditorAndCodeReview) == "编辑器和代码审查"@,
        is_ascii_text(en_us_text(MessageId::SettingsCodeEditorAndCodeReview)),
        keeps_english_text(MessageId::SettingsCodeEditorAndCodeReview) ==> zh_cn_text(MessageId::SettingsCodeEditorAndCodeReview) == en_us_text(MessageId::SettingsCodeEditorAndCodeReview),
        !keeps_english_text(MessageId::SettingsCodeEditorAndCodeReview) ==> has_non_ascii(zh_cn_text(MessageId::SettingsCodeEditorAndCodeReview)),
{
    reveal_strlit("Editor and Code Review");
    reveal_strlit("编辑器和代码审查");
    assert(is_ascii_text("Editor and Code Review"@));
    assert("编辑器和代码审查"@[0] == '\u{7f16}');
    assert(("编辑器和代码审查"@[0] as u32) >= 128);
}

proof fn lemma_texts_settings_code_indexing()
    ensures
        en_us_text(MessageId::SettingsCodeIndexing) == "Indexing and projects"@,
        zh_cn_text(MessageId::SettingsCodeIndexing) == "索引和项目"@,
        is_ascii_text(en_us_text(MessageId::SettingsCodeIndexing)),
        keeps_english_text(MessageId::SettingsCodeIndexing) ==> zh_cn_text(MessageId::SettingsCodeIndexing) == en_us_text(MessageId::SettingsCodeIndexing),
        !keeps_english_text(MessageId::SettingsCodeIndexing) ==> has_non_ascii(zh_cn_text(MessageId::SettingsCodeIndexing)),
{
    reveal_strlit("Indexing and projects");
    reveal_strlit("索引和项目");
    assert(is_ascii_text("Indexing and projects"@));
    assert("索引和项目"@[0] == '\u{7d22}');
    assert(("索引和项目"@[0] as u32) >= 128);
}

proof fn lemma_texts_settings_features()
    ensures
        en_us_text(MessageId::SettingsFeatures) == "Features"@,
        zh_cn_text(MessageId::SettingsFeatures) == "功能"@,
        is_ascii_text(en_us_text(MessageId::SettingsFeatures)),
        keeps_english_text(MessageId::SettingsFeatures) ==> zh_cn_text(MessageId::SettingsFeatures) == en_us_text(MessageId::SettingsFeatures),
        !keeps_english_text(MessageId::SettingsFeatures) ==> has_non_ascii(zh_cn_text(MessageId::SettingsFeatures)),
{
    reveal_strlit("Features");
    reveal_strlit("功能");
    assert(is_ascii_text("Features"@));
    assert("功能"@[0] == '\u{529f}');
    assert(("功能"@[0] as u32) >= 128);
}

proof fn lemma_texts_settings_keybindings()
    ensures
        en_us_text(MessageId::SettingsKeybindings) == "Keyboard shortcuts"@,
        zh_cn_text(MessageId::SettingsKeybindings) == "键盘快捷键"@,
        is_ascii_text(en_us_text(MessageId::SettingsKeybindings)),
        keeps_english_text(MessageId::SettingsKeybindings) ==> zh_cn_text(MessageId::SettingsKeybindings) == en_us_text(MessageId::SettingsKeybindings),
        !keeps_english_text(MessageId::SettingsKeybindings) ==> has_non_ascii(zh_cn_text(MessageId::SettingsKeybindings)),
{
    reveal_strlit("Keyboard shortcuts");
    reveal_strlit("键盘快捷键");
    assert(is_ascii_text("Keyboard shortcuts"@));
    assert("键盘快捷键"@[0] == '\u{952e}');
    assert(("键盘快捷键"@[0] as u32) >= 128);
}

proof fn lemma_texts_settings_language()
    ensures
        en_us_text(MessageId::SettingsLanguage) == "Language"@,
        zh_cn_text(MessageId::SettingsLanguage) == "语言"@,
        is_ascii_text(en_us_text(MessageId::SettingsLanguage)),
        keeps_english_text(MessageId::SettingsLanguage) ==> zh_cn_text(MessageId::SettingsLanguage) == en_us_text(MessageId::SettingsLanguage),
        !keeps_english_text(MessageId::SettingsLanguage) ==> has_non_ascii(zh_cn_text(MessageId::SettingsLanguage)),
{
    reveal_strlit("Language");
    reveal_strlit("语言");
    assert(is_ascii_text("Language"@));
    assert("语言"@[0] == '\u{8bed}');
    assert(("语言"@[0] as u32) >= 128);
}

proof fn lemma_texts_settings_local_a_i_provider()
    ensures
        en_us_text(MessageId::SettingsLocalAIProvider) == "Local AI Provider"@,
        zh_cn_text(MessageId::SettingsLocalAIProvider) == "本地 AI Provider"@,
        is_ascii_text(en_us_text(MessageId::SettingsLocalAIProvider)),
        keeps_english_text(MessageId::SettingsLocalAIProvider) ==> zh_cn_text(MessageId::SettingsLocalAIProvider) == en_us_text(MessageId::SettingsLocalAIProvider),
        !keeps_english_text(MessageId::SettingsLocalAIProvider) ==> has_non_ascii(zh_cn_text(MessageId::SettingsLocalAIProvider)),
{
    reveal_strlit("Local AI Provider");
    reveal_strlit("本地 AI Provider");
    assert(is_ascii_text("Local AI Provider"@));
    assert("本地 AI Provider"@[0] == '\u{672c}');
    assert(("本地 AI Provider"@[0] as u32) >= 128);
}

proof fn lemma_texts_settings_knowledge()
    ensures
        en_us_text(MessageId::SettingsKnowledge) == "Knowledge"@,
        zh_cn_text(MessageId::SettingsKnowledge) == "知识"@,
        is_ascii_text(en_us_text(MessageId::SettingsKnowledge)),
        keeps_english_text(MessageId::SettingsKnowledge) ==> zh_cn_text(MessageId::SettingsKnowledge) == en_us_text(MessageId::SettingsKnowledge),
        !keeps_english_text(MessageId::SettingsKnowledge) ==> has_non_ascii(zh_cn_text(MessageId::SettingsKnowledge)),
{
    reveal_strlit("Knowledge");
    reveal_strlit("知识");
    assert(is_ascii_text("Knowledge"@));
    assert("知识"@[0] == '\u{77e5}');
    assert(("知识"@[0] as u32) >= 128);
}

proof fn lemma_texts_settings_mcp_servers()
    ensures
        en_us_text(MessageId::SettingsMcpServers) == "MCP Servers"@,
        zh_cn_text(MessageId::SettingsMcpServers) == "MCP 服务器"@,
        is_ascii_text(en_us_text(MessageId::SettingsMcpServers)),
        keeps_english_text(MessageId::SettingsMcpServers) ==> zh_cn_text(MessageId::SettingsMcpServers) == en_us_text(MessageId::SettingsMcpServers),
        !keeps_english_text(MessageId::SettingsMcpServers) ==> has_non_ascii(zh_cn_text(MessageId::SettingsMcpServers)),
{
    reveal_strlit("MCP Servers");
    reveal_strlit("MCP 服务器");
    assert(is_ascii_text("MCP Servers"@));
    assert("MCP 服务器"@[4] == '\u{670d}');
    assert(("MCP 服务器"@[4] as u32) >= 128);
}

proof fn lemma_texts_settings_oz_cloud_api_keys()
    ensures
        en_us_text(MessageId::SettingsOzCloudApiKeys) == "Oz Cloud API Keys"@,
        zh_cn_text(MessageId::SettingsOzCloudApiKeys) == "Oz Cloud API 密钥"@,
        is_ascii_text(en_us_text(MessageId::SettingsOzCloudApiKeys)),
        keeps_english_text(MessageId::SettingsOzCloudApiKeys) ==> zh_cn_text(MessageId::SettingsOzCloudApiKeys) == en_us_text(MessageId::SettingsOzCloudApiKeys),
        !keeps_english_text(MessageId::SettingsOzCloudApiKeys) ==> has_non_ascii(zh_cn_text(MessageId::SettingsOzCloudApiKeys)),
{
    reveal_strlit("Oz Cloud API Keys");
    reveal_strlit("Oz Cloud API 密钥");
    assert(is_ascii_text("Oz Cloud API Keys"@));
    assert("Oz Cloud API 密钥"@[13] == '\u{5bc6}');
    assert(("Oz Cloud API 密钥"@[13] as u32) >= 128);
}

proof fn lemma_texts_settings_privacy()
    ensures
        en_us_text(MessageId::SettingsPrivacy) == "Privacy"@,
        zh_cn_text(MessageId::SettingsPrivacy) == "隐私"@,
        is_ascii_text(en_us_text(MessageId::SettingsPrivacy)),
        keeps_english_text(MessageId::SettingsPrivacy) ==> zh_cn_text(MessageId::SettingsPrivacy) == en_us_text(MessageId::SettingsPrivacy),
        !keeps_english_text(MessageId::SettingsPrivacy) ==> has_non_ascii(zh_cn_text(MessageId::SettingsPrivacy)),
{
    reveal_strlit("Privacy");
    reveal_strlit("隐私");
    assert(is_ascii_text("Privacy"@));
    assert("隐私"@[0] == '\u{9690}');
    assert(("隐私"@[0] as u32) >= 128);
}

proof fn lemma_texts_settings_profiles()
    ensures
        en_us_text(MessageId::SettingsProfiles) == "Profiles"@,
        zh_cn_text(MessageId::SettingsProfiles) == "配置文件"@,
        is_ascii_text(en_us_text(MessageId::SettingsProfiles)),
        keeps_english_text(MessageId::SettingsProfiles) ==> zh_cn_text(MessageId::SettingsProfiles) == en_us_text(MessageId::SettingsProfiles),
        !keeps_english_text(MessageId::SettingsProfiles) ==> has_non_ascii(zh_cn_text(MessageId::SettingsProfiles)),
{
    reveal_strlit("Profiles");
    reveal_strlit("配置文件");
    assert(is_ascii_text("Profiles"@));
    assert("配置文件"@[0] == '\u{914d}');
    assert(("配置文件"@[0] as u32) >= 128);
}

proof fn lemma_texts_settings_referrals()
    ensures
        en_us_text(MessageId::SettingsReferrals) == "Referrals"@,
        zh_cn_text(MessageId::SettingsReferrals) == "邀请奖励"@,
        is_ascii_text(en_us_text(MessageId::SettingsReferrals)),
        keeps_english_text(MessageId::SettingsReferrals) ==> zh_cn_text(MessageId::SettingsReferrals) == en_us_text(MessageId::SettingsReferrals),
        !keeps_english_text(MessageId::SettingsReferrals) ==> has_non_ascii(zh_cn_text(MessageId::SettingsReferrals)),
{
    reveal_strlit("Referrals");
    reveal_strlit("邀请奖励");
    assert(is_ascii_text("Referrals"@));
    assert("邀请奖励"@[0] == '\u{9080}');
    assert(("邀请奖励"@[0] as u32) >= 128);
}

proof fn lemma_texts_settings_shared_blocks()
    ensures
        en_us_text(MessageId::SettingsSharedBlocks) == "Shared blocks"@,
        zh_cn_text(MessageId::SettingsSharedBlocks) == "共享块"@,
        is_ascii_text(en_us_text(MessageId::SettingsSharedBlocks)),
        keeps_english_text(MessageId::SettingsSharedBlocks) ==> zh_cn_text(MessageId::SettingsSharedBlocks) == en_us_text(MessageId::SettingsSharedBlocks),
        !keeps_english_text(MessageId::SettingsSharedBlocks) ==> has_non_ascii(zh_cn_text(MessageId::SettingsSharedBlocks)),
{
    reveal_strlit("Shared blocks");
    reveal_strlit("共享块");
    assert(is_ascii_text("Shared blocks"@));
    assert("共享块"@[0] == '\u{5171}');
    assert(("共享块"@[0] as u32) >= 128);
}

proof fn lemma_texts_settings_teams()
    ensures
        en_us_text(MessageId::SettingsTeams) == "Teams"@,
        zh_cn_text(MessageId::SettingsTeams) == "团队"@,
        is_ascii_text(en_us_text(MessageId::SettingsTeams)),
        keeps_english_text(MessageId::SettingsTeams) ==> zh_cn_text(MessageId::SettingsTeams) == en_us_text(MessageId::SettingsTeams),
        !keeps_english_text(MessageId::SettingsTeams) ==> has_non_ascii(zh_cn_text(MessageId::SettingsTeams)),
{
    reveal_strlit("Teams");
    reveal_strlit("团队");
    assert(is_ascii_text("Teams"@));
    assert("团队"@[0] == '\u{56e2}');
    assert(("团队"@[0] as u32) >= 128);
}

proof fn lemma_texts_settings_third_party_cli_agents()
    ensures
        en_us_text(MessageId::SettingsThirdPartyCliAgents) == "Third party CLI agents"@,
        zh_cn_text(MessageId::SettingsThirdPartyCliAgents) == "第三方 CLI 智能体"@,
        is_ascii_text(en_us_text(MessageId::SettingsThirdPartyCliAgents)),
        keeps_english_text(MessageId::SettingsThirdPartyCliAgents) ==> zh_cn_text(MessageId::SettingsThirdPartyCliAgents) == en_us_text(MessageId::SettingsThirdPartyCliAgents),
        !keeps_english_text(MessageId::SettingsThirdPartyCliAgents) ==> has_non_ascii(zh_cn_text(MessageId::SettingsThirdPartyCliAgents)),
{
    reveal_strlit("Third party CLI agents");
    reveal_strlit("第三方 CLI 智能体");
    assert(is_ascii_text("Third party CLI agents"@));
    assert("第三方 CLI 智能体"@[0] == '\u{7b2c}');
    assert(("第三方 CLI 智能体"@[0] as u32) >= 128);
}

proof fn lemma_texts_settings_warp_agent()
    ensures
        en_us_text(MessageId::SettingsWarpAgent) == "Warp Agent"@,
        zh_cn_text(MessageId::SettingsWarpAgent) == "Warp 智能体"@,
        is_ascii_text(en_us_text(MessageId::SettingsWarpAgent)),
        keeps_english_text(MessageId::SettingsWarpAgent) ==> zh_cn_text(MessageId::SettingsWarpAgent) == en_us_text(MessageId::SettingsWarpAgent),
        !keeps_english_text(MessageId::SettingsWarpAgent) ==> has_non_ascii(zh_cn_text(MessageId::SettingsWarpAgent)),
{
    reveal_strlit("Warp Agent");
    reveal_strlit("Warp 智能体");
    assert(is_ascii_text("Warp Agent"@));
    assert("Warp 智能体"@[5] == '\u{667a}');
    assert(("Warp 智能体"@[5] as u32) >= 128);
}

proof fn lemma_texts_settings_warp_drive()
    ensures
        en_us_text(MessageId::SettingsWarpDrive) == "Warp Drive"@,
        zh_cn_text(MessageId::SettingsWarpDrive) == "Warp Drive"@,
        is_ascii_text(en_us_text(MessageId::SettingsWarpDrive)),
        keeps_english_text(MessageId::SettingsWarpDrive) ==> zh_cn_text(MessageId::SettingsWarpDrive) == en_us_text(MessageId::SettingsWarpDrive),
        !keeps_english_text(MessageId::SettingsWarpDrive) ==> has_non_ascii(zh_cn_text(MessageId::SettingsWarpDrive)),
{
    reveal_strlit("Warp Drive");
    reveal_strlit("Warp Drive");
    assert(is_ascii_text("Warp Drive"@));
}

proof fn lemma_texts_settings_warpify()
    ensures
        en_us_text(MessageId::SettingsWarpify) == "Warpify"@,
        zh_cn_text(MessageId::SettingsWarpify) == "Warpify"@,
        is_ascii_text(en_us_text(MessageId::SettingsWarpify)),
        keeps_english_text(MessageId::SettingsWarpify) ==> zh_cn_text(MessageId::SettingsWarpify) == en_us_text(MessageId::SettingsWarpify),
        !keeps_english_text(MessageId::SettingsWarpify) ==> has_non_ascii(zh_cn_text(MessageId::SettingsWarpify)),
{
    reveal_strlit("Warpify");
    reveal_strlit("Warpify");
    assert(is_ascii_text("Warpify"@));
}

proof fn lemma_texts_about_copyright()
    ensures
        en_us_text(MessageId::AboutCopyright) == "Copyright 2026 Warp"@,
        zh_cn_text(MessageId::AboutCopyright) == "版权所有 2026 Warp"@,
        is_ascii_text(en_us_text(MessageId::AboutCopyright)),
        keeps_english_text(MessageId::AboutCopyright) ==> zh_cn_text(MessageId::AboutCopyright) == en_us_text(MessageId::AboutCopyright),
        !keeps_english_text(MessageId::AboutCopyright) ==> has_non_ascii(zh_cn_text(MessageId::AboutCopyright)),
{
    reveal_strlit("Copyright 2026 Warp");
    reveal_strlit("版权所有 2026 Warp");
    assert(is_ascii_text("Copyright 2026 Warp"@));
    assert("版权所有 2026 Warp"@[0] == '\u{7248}');
    assert(("版权所有 2026 Warp"@[0] as u32) >= 128);
}

proof fn lemma_texts_language_page_description()
    ensures
        en_us_text(MessageId::LanguagePageDescription) == "Choose the display language for Warp."@,
        zh_cn_text(MessageId::LanguagePageDescription) == "选择 Warp 的显示语言。"@,
        is_ascii_text(en_us_text(MessageId::LanguagePageDescription)),
        keeps_english_text(MessageId::LanguagePageDescription) ==> zh_cn_text(MessageId::LanguagePageDescription) == en_us_text(MessageId::LanguagePageDescription),
        !keeps_english_text(MessageId::LanguagePageDescription) ==> has_non_ascii(zh_cn_text(MessageId::LanguagePageDescription)),
{
    reveal_strlit("Choose the display language for Warp.");
    reveal_strlit("选择 Warp 的显示语言。");
    assert(is_ascii_text("Choose the display language for Warp."@));
    assert("选择 Warp 的显示语言。"@[0] == '\u{9009}');
    assert(("选择 Warp 的显示语言。"@[0] as u32) >= 128);
}

proof fn lemma_texts_language_page_option_english()
    ensures
        en_us_text(MessageId::LanguagePageOptionEnglish) == "English"@,
        zh_cn_text(MessageId::LanguagePageOptionEnglish) == "English"@,
        is_ascii_text(en_us_text(MessageId::LanguagePageOptionEnglish)),
        keeps_english_text(MessageId::LanguagePageOptionEnglish) ==> zh_cn_text(MessageId::LanguagePageOptionEnglish) == en_us_text(MessageId::LanguagePageOptionEnglish),
        !keeps_english_text(MessageId::LanguagePageOptionEnglish) ==> has_non_ascii(zh_cn_text(MessageId::LanguagePageOptionEnglish)),
{
    reveal_strlit("English");
    reveal_strlit("English");
    assert(is_ascii_text("English"@));
}

proof fn lemma_texts_language_page_option_simplified_chinese()
    ensures
        en_us_text(MessageId::LanguagePageOptionSimplifiedChinese) == "Simplified Chinese"@,
        zh_cn_text(MessageId::LanguagePageOptionSimplifiedChinese) == "简体中文"@,
        is_ascii_text(en_us_text(MessageId::LanguagePageOptionSimplifiedChinese)),
        keeps_english_text(MessageId::LanguagePageOptionSimplifiedChinese) ==> zh_cn_text(MessageId::LanguagePageOptionSimplifiedChinese) == en_us_text(MessageId::LanguagePageOptionSimplifiedChinese),
        !keeps_english_text(MessageId::LanguagePageOptionSimplifiedChinese) ==> has_non_ascii(zh_cn_text(MessageId::LanguagePageOptionSimplifiedChinese)),
{
    reveal_strlit("Simplified Chinese");
    reveal_strlit("简体中文");
    assert(is_ascii_text("Simplified Chinese"@));
    assert("简体中文"@[0] == '\u{7b80}');
    assert(("简体中文"@[0] as u32) >= 128);
}

proof fn lemma_texts_language_page_restart_note()
    ensures
        en_us_text(MessageId::LanguagePageRestartNote) == "Some text may update after reopening the window."@,
        zh_cn_text(MessageId::LanguagePageRestartNote) == "部分文字可能需要重新打开窗口后更新。"@,
        is_ascii_text(en_us_text(MessageId::LanguagePageRestartNote)),
        keeps_english_text(MessageId::LanguagePageRestartNote) ==> zh_cn_text(MessageId::LanguagePageRestartNote) == en_us_text(MessageId::LanguagePageRestartNote),
        !keeps_english_text(MessageId::LanguagePageRestartNote) ==> has_non_ascii(zh_cn_text(MessageId::LanguagePageRestartNote)),
{
    reveal_strlit("Some text may update after reopening the window.");
    reveal_strlit("部分文字可能需要重新打开窗口后更新。");
    assert(is_ascii_text("Some text may update after reopening the window."@));
    assert("部分文字可能需要重新打开窗口后更新。"@[0] == '\u{90e8}');
    assert(("部分文字可能需要重新打开窗口后更新。"@[0] as u32) >= 128);
}

proof fn lemma_texts_language_page_selector_label()
    ensures
        en_us_text(MessageId::LanguagePageSelectorLabel) == "App language"@,
        zh_cn_text(MessageId::LanguagePageSelectorLabel) == "应用语言"@,
        is_ascii_text(en_us_text(MessageId::LanguagePageSelectorLabel)),
        keeps_english_text(MessageId::LanguagePageSelectorLabel) ==> zh_cn_text(MessageId::LanguagePageSelectorLabel) == en_us_text(MessageId::LanguagePageSelectorLabel),
        !keeps_english_text(MessageId::LanguagePageSelectorLabel) ==> has_non_ascii(zh_cn_text(MessageId::LanguagePageSelectorLabel)),
{
    reveal_strlit("App language");
    reveal_strlit("应用语言");
    assert(is_ascii_text("App language"@));
    assert("应用语言"@[0] == '\u{5e94}');
    assert(("应用语言"@[0] as u32) >= 128);
}

proof fn lemma_texts_menu_ai()
    ensures
        en_us_text(MessageId::MenuAi) == "AI"@,
        zh_cn_text(MessageId::MenuAi) == "AI"@,
        is_ascii_text(en_us_text(MessageId::MenuAi)),
        keeps_english_text(MessageId::MenuAi) ==> zh_cn_text(MessageId::MenuAi) == en_us_text(MessageId::MenuAi),
        !keeps_english_text(MessageId::MenuAi) ==> has_non_ascii(zh_cn_text(MessageId::MenuAi)),
{
    reveal_strlit("AI");
    reveal_strlit("AI");
    assert(is_ascii_text("AI"@));
}

proof fn lemma_texts_menu_blocks()
    ensures
        en_us_text(MessageId::MenuBlocks) == "Blocks"@,
        zh_cn_text(MessageId::MenuBlocks) == "块"@,
        is_ascii_text(en_us_text(MessageId::MenuBlocks)),
        keeps_english_text(MessageId::MenuBlocks) ==> zh_cn_text(MessageId::MenuBlocks) == en_us_text(MessageId::MenuBlocks),
        !keeps_english_text(MessageId::MenuBlocks) ==> has_non_ascii(zh_cn_text(MessageId::MenuBlocks)),
{
    reveal_strlit("Blocks");
    reveal_strlit("块");
    assert(is_ascii_text("Blocks"@));
    assert("块"@[0] == '\u{5757}');
    assert(("块"@[0] as u32) >= 128);
}

proof fn lemma_texts_menu_drive()
    ensures
        en_us_text(MessageId::MenuDrive) == "Drive"@,
        zh_cn_text(MessageId::MenuDrive) == "云盘"@,
        is_ascii_text(en_us_text(MessageId::MenuDrive)),
        keeps_english_text(MessageId::MenuDrive) ==> zh_cn_text(MessageId::MenuDrive) == en_us_text(MessageId::MenuDrive),
        !keeps_english_text(MessageId::MenuDrive) ==> has_non_ascii(zh_cn_text(MessageId::MenuDrive)),
{
    reveal_strlit("Drive");
    reveal_strlit("云盘");
    assert(is_ascii_text("Drive"@));
    assert("云盘"@[0] == '\u{4e91}');
    assert(("云盘"@[0] as u32) >= 128);
}

proof fn lemma_texts_menu_edit()
    ensures
        en_us_text(MessageId::MenuEdit) == "Edit"@,
        zh_cn_text(MessageId::MenuEdit) == "编辑"@,
        is_ascii_text(en_us_text(MessageId::MenuEdit)),
        keeps_english_text(MessageId::MenuEdit) ==> zh_cn_text(MessageId::MenuEdit) == en_us_text(MessageId::MenuEdit),
        !keeps_english_text(MessageId::MenuEdit) ==> has_non_ascii(zh_cn_text(MessageId::MenuEdit)),
{
    reveal_strlit("Edit");
    reveal_strlit("编辑");
    assert(is_ascii_text("Edit"@));
    assert("编辑"@[0] == '\u{7f16}');
    assert(("编辑"@[0] as u32) >= 128);
}

proof fn lemma_texts_menu_file()
    ensures
        en_us_text(MessageId::MenuFile) == "File"@,
        zh_cn_text(MessageId::MenuFile) == "文件"@,
        is_ascii_text(en_us_text(MessageId::MenuFile)),
        keeps_english_text(MessageId::MenuFile) ==> zh_cn_text(MessageId::MenuFile) == en_us_text(MessageId::MenuFile),
        !keeps_english_text(MessageId::MenuFile) ==> has_non_ascii(zh_cn_text(MessageId::MenuFile)),
{
    reveal_strlit("File");
    reveal_strlit("文件");
    assert(is_ascii_text("File"@));
    assert("文件"@[0] == '\u{6587}');
    assert(("文件"@[0] as u32) >= 128);
}

proof fn lemma_texts_menu_help()
    ensures
        en_us_text(MessageId::MenuHelp) == "Help"@,
        zh_cn_text(MessageId::MenuHelp) == "帮助"@,
        is_ascii_text(en_us_text(MessageId::MenuHelp)),
        keeps_english_text(MessageId::MenuHelp) ==> zh_cn_text(MessageId::MenuHelp) == en_us_text(MessageId::MenuHelp),
        !keeps_english_text(MessageId::MenuHelp) ==> has_non_ascii(zh_cn_text(MessageId::MenuHelp)),
{
    reveal_strlit("Help");
    reveal_strlit("帮助");
    assert(is_ascii_text("Help"@));
    assert("帮助"@[0] == '\u{5e2e}');
    assert(("帮助"@[0] as u32) >= 128);
}

proof fn lemma_texts_menu_tab()
    ensures
        en_us_text(MessageId::MenuTab) == "Tab"@,
        zh_cn_text(MessageId::MenuTab) == "标签页"@,
        is_ascii_text(en_us_text(MessageId::MenuTab)),
        keeps_english_text(MessageId::MenuTab) ==> zh_cn_text(MessageId::MenuTab) == en_us_text(MessageId::MenuTab),
        !keeps_english_text(MessageId::MenuTab) ==> has_non_ascii(zh_cn_text(MessageId::MenuTab)),
{
    reveal_strlit("Tab");
    reveal_strlit("标签页");
    assert(is_ascii_text("Tab"@));
    assert("标签页"@[0] == '\u{6807}');
    assert(("标签页"@[0] as u32) >= 128);
}

proof fn lemma_texts_menu_view()
    ensures
        en_us_text(MessageId::MenuView) == "View"@,
        zh_cn_text(MessageId::MenuView) == "视图"@,
        is_ascii_text(en_us_text(MessageId::MenuView)),
        keeps_english_text(MessageId::MenuView) ==> zh_cn_text(MessageId::MenuView) == en_us_text(MessageId::MenuView),
        !keeps_english_text(MessageId::MenuView) ==> has_non_ascii(zh_cn_text(MessageId::MenuView)),
{
    reveal_strlit("View");
    reveal_strlit("视图");
    assert(is_ascii_text("View"@));
    assert("视图"@[0] == '\u{89c6}');
    assert(("视图"@[0] as u32) >= 128);
}

proof fn lemma_texts_menu_window()
    ensures
        en_us_text(MessageId::MenuWindow) == "Window"@,
        zh_cn_text(MessageId::MenuWindow) == "窗口"@,
        is_ascii_text(en_us_text(MessageId::MenuWindow)),
        keeps_english_text(MessageId::MenuWindow) ==> zh_cn_text(MessageId::MenuWindow) == en_us_text(MessageId::MenuWindow),
        !keeps_english_text(MessageId::MenuWindow) ==> has_non_ascii(zh_cn_text(MessageId::MenuWindow)),
{
    reveal_strlit("Window");
    reveal_strlit("窗口");
    assert(is_ascii_text("Window"@));
    assert("窗口"@[0] == '\u{7a97}');
    assert(("窗口"@[0] as u32) >= 128);
}

proof fn lemma_texts_app_preferences()
    ensures
        en_us_text(MessageId::AppPreferences) == "Preferences"@,
        zh_cn_text(MessageId::AppPreferences) == "偏好设置"@,
        is_ascii_text(en_us_text(MessageId::AppPreferences)),
        keeps_english_text(MessageId::AppPreferences) ==> zh_cn_text(MessageId::AppPreferences) == en_us_text(MessageId::AppPreferences),
        !keeps_english_text(MessageId::AppPreferences) ==> has_non_ascii(zh_cn_text(MessageId::AppPreferences)),
{
    reveal_strlit("Preferences");
    reveal_strlit("偏好设置");
    assert(is_ascii_text("Preferences"@));
    assert("偏好设置"@[0] == '\u{504f}');
    assert(("偏好设置"@[0] as u32) >= 128);
}

proof fn lemma_texts_app_privacy_policy()
    ensures
        en_us_text(MessageId::AppPrivacyPolicy) == "Privacy Policy..."@,
        zh_cn_text(MessageId::AppPrivacyPolicy) == "隐私政策..."@,
        is_ascii_text(en_us_text(MessageId::AppPrivacyPolicy)),
        keeps_english_text(MessageId::AppPrivacyPolicy) ==> zh_cn_text(MessageId::AppPrivacyPolicy) == en_us_text(MessageId::AppPrivacyPolicy),
        !keeps_english_text(MessageId::AppPrivacyPolicy) ==> has_non_ascii(zh_cn_text(MessageId::AppPrivacyPolicy)),
{
    reveal_strlit("Privacy Policy...");
    reveal_strlit("隐私政策...");
    assert(is_ascii_text("Privacy Policy..."@));
    assert("隐私政策..."@[0] == '\u{9690}');
    assert(("隐私政策..."@[0] as u32) >= 128);
}

proof fn lemma_texts_app_debug()
    ensures
        en_us_text(MessageId::AppDebug) == "Debug"@,
        zh_cn_text(MessageId::AppDebug) == "调试"@,
        is_ascii_text(en_us_text(MessageId::AppDebug)),
        keeps_english_text(MessageId::AppDebug) ==> zh_cn_text(MessageId::AppDebug) == en_us_text(MessageId::AppDebug),
        !keeps_english_text(MessageId::AppDebug) ==> has_non_ascii(zh_cn_text(MessageId::AppDebug)),
{
    reveal_strlit("Debug");
    reveal_strlit("调试");
    assert(is_ascii_text("Debug"@));
    assert("调试"@[0] == '\u{8c03}');
    assert(("调试"@[0] as u32) >= 128);
}

proof fn lemma_texts_app_set_default_terminal()
    ensures
        en_us_text(MessageId::AppSetDefaultTerminal) == "Set Warp as Default Terminal"@,
        zh_cn_text(MessageId::AppSetDefaultTerminal) == "将 Warp 设为默认终端"@,
        is_ascii_text(en_us_text(MessageId::AppSetDefaultTerminal)),
        keeps_english_text(MessageId::AppSetDefaultTerminal) ==> zh_cn_text(MessageId::AppSetDefaultTerminal) == en_us_text(MessageId::AppSetDefaultTerminal),
        !keeps_english_text(MessageId::AppSetDefaultTerminal) ==> has_non_ascii(zh_cn_text(MessageId::AppSetDefaultTerminal)),
{
    reveal_strlit("Set Warp as Default Terminal");
    reveal_strlit("将 Warp 设为默认终端");
    assert(is_ascii_text("Set Warp as Default Terminal"@));
    assert("将 Warp 设为默认终端"@[0] == '\u{5c06}');
    assert(("将 Warp 设为默认终端"@[0] as u32) >= 128);
}

proof fn lemma_texts_app_logout()
    ensures
        en_us_text(MessageId::AppLogout) == "Log out"@,
        zh_cn_text(MessageId::AppLogout) == "退出登录"@,
        is_ascii_text(en_us_text(MessageId::AppLogout)),
        keeps_english_text(MessageId::AppLogout) ==> zh_cn_text(MessageId::AppLogout) == en_us_text(MessageId::AppLogout),
        !keeps_english_text(MessageId::AppLogout) ==> has_non_ascii(zh_cn_text(MessageId::AppLogout)),
{
    reveal_strlit("Log out");
    reveal_strlit("退出登录");
    assert(is_ascii_text("Log out"@));
    assert("退出登录"@[0] == '\u{9000}');
    assert(("退出登录"@[0] as u32) >= 128);
}

proof fn lemma_texts_file_new_window()
    ensures
        en_us_text(MessageId::FileNewWindow) == "New Window"@,
        zh_cn_text(MessageId::FileNewWindow) == "新建窗口"@,
        is_ascii_text(en_us_text(MessageId::FileNewWindow)),
        keeps_english_text(MessageId::FileNewWindow) ==> zh_cn_text(MessageId::FileNewWindow) == en_us_text(MessageId::FileNewWindow),
        !keeps_english_text(MessageId::FileNewWindow) ==> has_non_ascii(zh_cn_text(MessageId::FileNewWindow)),
{
    reveal_strlit("New Window");
    reveal_strlit("新建窗口");
    assert(is_ascii_text("New Window"@));
    assert("新建窗口"@[0] == '\u{65b0}');
    assert(("新建窗口"@[0] as u32) >= 128);
}

proof fn lemma_texts_file_new_terminal_tab()
    ensures
        en_us_text(MessageId::FileNewTerminalTab) == "New Terminal Tab"@,
        zh_cn_text(MessageId::FileNewTerminalTab) == "新建终端标签页"@,
        is_ascii_text(en_us_text(MessageId::FileNewTerminalTab)),
        keeps_english_text(MessageId::FileNewTerminalTab) ==> zh_cn_text(MessageId::FileNewTerminalTab) == en_us_text(MessageId::FileNewTerminalTab),
        !keeps_english_text(MessageId::FileNewTerminalTab) ==> has_non_ascii(zh_cn_text(MessageId::FileNewTerminalTab)),
{
    reveal_strlit("New Terminal Tab");
    reveal_strlit("新建终端标签页");
    assert(is_ascii_text("New Terminal Tab"@));
    assert("新建终端标签页"@[0] == '\u{65b0}');
    assert(("新建终端标签页"@[0] as u32) >= 128);
}

proof fn lemma_texts_file_new_agent_tab()
    ensures
        en_us_text(MessageId::FileNewAgentTab) == "New Agent Tab"@,
        zh_cn_text(MessageId::FileNewAgentTab) == "新建智能体标签页"@,
        is_ascii_text(en_us_text(MessageId::FileNewAgentTab)),
        keeps_english_text(MessageId::FileNewAgentTab) ==> zh_cn_text(MessageId::FileNewAgentTab) == en_us_text(MessageId::FileNewAgentTab),
        !keeps_english_text(MessageId::FileNewAgentTab) ==> has_non_ascii(zh_cn_text(MessageId::FileNewAgentTab)),
{
    reveal_strlit("New Agent Tab");
    reveal_strlit("新建智能体标签页");
    assert(is_ascii_text("New Agent Tab"@));
    assert("新建智能体标签页"@[0] == '\u{65b0}');
    assert(("新建智能体标签页"@[0] as u32) >= 128);
}

proof fn lemma_texts_file_new_file()
    ensures
        en_us_text(MessageId::FileNewFile) == "New File"@,
        zh_cn_text(MessageId::FileNewFile) == "新建文件"@,
        is_ascii_text(en_us_text(MessageId::FileNewFile)),
        keeps_english_text(MessageId::FileNewFile) ==> zh_cn_text(MessageId::FileNewFile) == en_us_text(MessageId::FileNewFile),
        !keeps_english_text(MessageId::FileNewFile) ==> has_non_ascii(zh_cn_text(MessageId::FileNewFile)),
{
    reveal_strlit("New File");
    reveal_strlit("新建文件");
    assert(is_ascii_text("New File"@));
    assert("新建文件"@[0] == '\u{65b0}');
    assert(("新建文件"@[0] as u32) >= 128);
}

proof fn lemma_texts_file_reopen_closed_session()
    ensures
        en_us_text(MessageId::FileReopenClosedSession) == "Reopen closed session"@,
        zh_cn_text(MessageId::FileReopenClosedSession) == "重新打开已关闭的会话"@,
        is_ascii_text(en_us_text(MessageId::FileReopenClosedSession)),
        keeps_english_text(MessageId::FileReopenClosedSession) ==> zh_cn_text(MessageId::FileReopenClosedSession) == en_us_text(MessageId::FileReopenClosedSession),
        !keeps_english_text(MessageId::FileReopenClosedSession) ==> has_non_ascii(zh_cn_text(MessageId::FileReopenClosedSession)),
{
    reveal_strlit("Reopen closed session");
    reveal_strlit("重新打开已关闭的会话");
    assert(is_ascii_text("Reopen closed session"@));
    assert("重新打开已关闭的会话"@[0] == '\u{91cd}');
    assert(("重新打开已关闭的会话"@[0] as u32) >= 128);
}

proof fn lemma_texts_file_launch_configurations()
    ensures
        en_us_text(MessageId::FileLaunchConfigurations) == "Launch Configurations"@,
        zh_cn_text(MessageId::FileLaunchConfigurations) == "启动配置"@,
        is_ascii_text(en_us_text(MessageId::FileLaunchConfigurations)),
        keeps_english_text(MessageId::FileLaunchConfigurations) ==> zh_cn_text(MessageId::FileLaunchConfigurations) == en_us_text(MessageId::FileLaunchConfigurations),
        !keeps_english_text(MessageId::FileLaunchConfigurations) ==> has_non_ascii(zh_cn_text(MessageId::FileLaunchConfigurations)),
{
    reveal_strlit("Launch Configurations");
    reveal_strlit("启动配置");
    assert(is_ascii_text("Launch Configurations"@));
    assert("启动配置"@[0] == '\u{542f}');
    assert(("启动配置"@[0] as u32) >= 128);
}

proof fn lemma_texts_file_open_recent()
    ensures
        en_us_text(MessageId::FileOpenRecent) == "Open Recent"@,
        zh_cn_text(MessageId::FileOpenRecent) == "最近打开"@,
        is_ascii_text(en_us_text(MessageId::FileOpenRecent)),
        keeps_english_text(MessageId::FileOpenRecent) ==> zh_cn_text(MessageId::FileOpenRecent) == en_us_text(MessageId::FileOpenRecent),
        !keeps_english_text(MessageId::FileOpenRecent) ==> has_non_ascii(zh_cn_text(MessageId::FileOpenRecent)),
{
    reveal_strlit("Open Recent");
    reveal_strlit("最近打开");
    assert(is_ascii_text("Open Recent"@));
    assert("最近打开"@[0] == '\u{6700}');
    assert(("最近打开"@[0] as u32) >= 128);
}

proof fn lemma_texts_file_save_new()
    ensures
        en_us_text(MessageId::FileSaveNew) == "Save New..."@,
        zh_cn_text(MessageId::FileSaveNew) == "另存为..."@,
        is_ascii_text(en_us_text(MessageId::FileSaveNew)),
        keeps_english_text(MessageId::FileSaveNew) ==> zh_cn_text(MessageId::FileSaveNew) == en_us_text(MessageId::FileSaveNew),
        !keeps_english_text(MessageId::FileSaveNew) ==> has_non_ascii(zh_cn_text(MessageId::FileSaveNew)),
{
    reveal_strlit("Save New...");
    reveal_strlit("另存为...");
    assert(is_ascii_text("Save New..."@));
    assert("另存为..."@[0] == '\u{53e6}');
    assert(("另存为..."@[0] as u32) >= 128);
}

proof fn lemma_texts_file_close()
    ensures
        en_us_text(MessageId::FileClose) == "Close Current Session"@,
        zh_cn_text(MessageId::FileClose) == "关闭当前会话"@,
        is_ascii_text(en_us_text(MessageId::FileClose)),
        keeps_english_text(MessageId::FileClose) ==> zh_cn_text(MessageId::FileClose) == en_us_text(MessageId::FileClose),
        !keeps_english_text(MessageId::FileClose) ==> has_non_ascii(zh_cn_text(MessageId::FileClose)),
{
    reveal_strlit("Close Current Session");
    reveal_strlit("关闭当前会话");
    assert(is_ascii_text("Close Current Session"@));
    assert("关闭当前会话"@[0] == '\u{5173}');
    assert(("关闭当前会话"@[0] as u32) >= 128);
}

proof fn lemma_texts_file_close_window()
    ensures
        en_us_text(MessageId::FileCloseWindow) == "Close Window"@,
        zh_cn_text(MessageId::FileCloseWindow) == "关闭窗口"@,
        is_ascii_text(en_us_text(MessageId::FileCloseWindow)),
        keeps_english_text(MessageId::FileCloseWindow) ==> zh_cn_text(MessageId::FileCloseWindow) == en_us_text(MessageId::FileCloseWindow),
        !keeps_english_text(MessageId::FileCloseWindow) ==> has_non_ascii(zh_cn_text(MessageId::FileCloseWindow)),
{
    reveal_strlit("Close Window");
    reveal_strlit("关闭窗口");
    assert(is_ascii_text("Close Window"@));
    assert("关闭窗口"@[0] == '\u{5173}');
    assert(("关闭窗口"@[0] as u32) >= 128);
}

proof fn lemma_texts_edit_use_warp_prompt()
    ensures
        en_us_text(MessageId::EditUseWarpPrompt) == "Use Warp's Prompt"@,
        zh_cn_text(MessageId::EditUseWarpPrompt) == "使用 Warp 提示符"@,
        is_ascii_text(en_us_text(MessageId::EditUseWarpPrompt)),
        keeps_english_text(MessageId::EditUseWarpPrompt) ==> zh_cn_text(MessageId::EditUseWarpPrompt) == en_us_text(MessageId::EditUseWarpPrompt),
        !keeps_english_text(MessageId::EditUseWarpPrompt) ==> has_non_ascii(zh_cn_text(MessageId::EditUseWarpPrompt)),
{
    reveal_strlit("Use Warp's Prompt");
    reveal_strlit("使用 Warp 提示符");
    assert(is_ascii_text("Use Warp's Prompt"@));
    assert("使用 Warp 提示符"@[0] == '\u{4f7f}');
    assert(("使用 Warp 提示符"@[0] as u32) >= 128);
}

proof fn lemma_texts_edit_copy_on_select()
    ensures
        en_us_text(MessageId::EditCopyOnSelect) == "Copy on Select within the Terminal"@,
        zh_cn_text(MessageId::EditCopyOnSelect) == "在终端中选中时复制"@,
        is_ascii_text(en_us_text(MessageId::EditCopyOnSelect)),
        keeps_english_text(MessageId::EditCopyOnSelect) ==> zh_cn_text(MessageId::EditCopyOnSelect) == en_us_text(MessageId::EditCopyOnSelect),
        !keeps_english_text(MessageId::EditCopyOnSelect) ==> has_non_ascii(zh_cn_text(MessageId::EditCopyOnSelect)),
{
    reveal_strlit("Copy on Select within the Terminal");
    reveal_strlit("在终端中选中时复制");
    assert(is_ascii_text("Copy on Select within the Terminal"@));
    assert("在终端中选中时复制"@[0] == '\u{5728}');
    assert(("在终端中选中时复制"@[0] as u32) >= 128);
}

proof fn lemma_texts_edit_synchronize_inputs()
    ensures
        en_us_text(MessageId::EditSynchronizeInputs) == "Synchronize Inputs"@,
        zh_cn_text(MessageId::EditSynchronizeInputs) == "同步输入"@,
        is_ascii_text(en_us_text(MessageId::EditSynchronizeInputs)),
        keeps_english_text(MessageId::EditSynchronizeInputs) ==> zh_cn_text(MessageId::EditSynchronizeInputs) == en_us_text(MessageId::EditSynchronizeInputs),
        !keeps_english_text(MessageId::EditSynchronizeInputs) ==> has_non_ascii(zh_cn_text(MessageId::EditSynchronizeInputs)),
{
    reveal_strlit("Synchronize Inputs");
    reveal_strlit("同步输入");
    assert(is_ascii_text("Synchronize Inputs"@));
    assert("同步输入"@[0] == '\u{540c}');
    assert(("同步输入"@[0] as u32) >= 128);
}

proof fn lemma_texts_view_toggle_mouse_reporting()
    ensures
        en_us_text(MessageId::ViewToggleMouseReporting) == "Toggle Mouse Reporting"@,
        zh_cn_text(MessageId::ViewToggleMouseReporting) == "切换鼠标上报"@,
        is_ascii_text(en_us_text(MessageId::ViewToggleMouseReporting)),
        keeps_english_text(MessageId::ViewToggleMouseReporting) ==> zh_cn_text(MessageId::ViewToggleMouseReporting) == en_us_text(MessageId::ViewToggleMouseReporting),
        !keeps_english_text(MessageId::ViewToggleMouseReporting) ==> has_non_ascii(zh_cn_text(MessageId::ViewToggleMouseReporting)),
{
    reveal_strlit("Toggle Mouse Reporting");
    reveal_strlit("切换鼠标上报");
    assert(is_ascii_text("Toggle Mouse Reporting"@));
    assert("切换鼠标上报"@[0] == '\u{5207}');
    assert(("切换鼠标上报"@[0] as u32) >= 128);
}

proof fn lemma_texts_view_toggle_scroll_reporting()
    ensures
        en_us_text(MessageId::ViewToggleScrollReporting) == "Toggle Scroll Reporting"@,
        zh_cn_text(MessageId::ViewToggleScrollReporting) == "切换滚动上报"@,
        is_ascii_text(en_us_text(MessageId::ViewToggleScrollReporting)),
        keeps_english_text(MessageId::ViewToggleScrollReporting) ==> zh_cn_text(MessageId::ViewToggleScrollReporting) == en_us_text(MessageId::ViewToggleScrollReporting),
        !keeps_english_text(MessageId::ViewToggleScrollReporting) ==> has_non_ascii(zh_cn_text(MessageId::ViewToggleScrollReporting)),
{
    reveal_strlit("Toggle Scroll Reporting");
    reveal_strlit("切换滚动上报");
    assert(is_ascii_text("Toggle Scroll Reporting"@));
    assert("切换滚动上报"@[0] == '\u{5207}');
    assert(("切换滚动上报"@[0] as u32) >= 128);
}

proof fn lemma_texts_view_toggle_focus_reporting()
    ensures
        en_us_text(MessageId::ViewToggleFocusReporting) == "Toggle Focus Reporting"@,
        zh_cn_text(MessageId::ViewToggleFocusReporting) == "切换焦点上报"@,
        is_ascii_text(en_us_text(MessageId::ViewToggleFocusReporting)),
        keeps_english_text(MessageId::ViewToggleFocusReporting) ==> zh_cn_text(MessageId::ViewToggleFocusReporting) == en_us_text(MessageId::ViewToggleFocusReporting),
        !keeps_english_text(MessageId::ViewToggleFocusReporting) ==> has_non_ascii(zh_cn_text(MessageId::ViewToggleFocusReporting)),
{
    reveal_strlit("Toggle Focus Reporting");
    reveal_strlit("切换焦点上报");
    assert(is_ascii_text("Toggle Focus Reporting"@));
    assert("切换焦点上报"@[0] == '\u{5207}');
    assert(("切换焦点上报"@[0] as u32) >= 128);
}

proof fn lemma_texts_view_compact_mode()
    ensures
        en_us_text(MessageId::ViewCompactMode) == "Compact Mode"@,
        zh_cn_text(MessageId::ViewCompactMode) == "紧凑模式"@,
        is_ascii_text(en_us_text(MessageId::ViewCompactMode)),
        keeps_english_text(MessageId::ViewCompactMode) ==> zh_cn_text(MessageId::ViewCompactMode) == en_us_text(MessageId::ViewCompactMode),
        !keeps_english_text(MessageId::ViewCompactMode) ==> has_non_ascii(zh_cn_text(MessageId::ViewCompactMode)),
{
    reveal_strlit("Compact Mode");
    reveal_strlit("紧凑模式");
    assert(is_ascii_text("Compact Mode"@));
    assert("紧凑模式"@[0] == '\u{7d27}');
    assert(("紧凑模式"@[0] as u32) >= 128);
}

proof fn lemma_texts_help_send_feedback()
    ensures
        en_us_text(MessageId::HelpSendFeedback) == "Send Feedback..."@,
        zh_cn_text(MessageId::HelpSendFeedback) == "发送反馈..."@,
        is_ascii_text(en_us_text(MessageId::HelpSendFeedback)),
        keeps_english_text(MessageId::HelpSendFeedback) ==> zh_cn_text(MessageId::HelpSendFeedback) == en_us_text(MessageId::HelpSendFeedback),
        !keeps_english_text(MessageId::HelpSendFeedback) ==> has_non_ascii(zh_cn_text(MessageId::HelpSendFeedback)),
{
    reveal_strlit("Send Feedback...");
    reveal_strlit("发送反馈...");
    assert(is_ascii_text("Send Feedback..."@));
    assert("发送反馈..."@[0] == '\u{53d1}');
    assert(("发送反馈..."@[0] as u32) >= 128);
}

proof fn lemma_texts_help_warp_documentation()
    ensures
        en_us_text(MessageId::HelpWarpDocumentation) == "Warp Documentation..."@,
        zh_cn_text(MessageId::HelpWarpDocumentation) == "Warp 文档..."@,
        is_ascii_text(en_us_text(MessageId::HelpWarpDocumentation)),
        keeps_english_text(MessageId::HelpWarpDocumentation) ==> zh_cn_text(MessageId::HelpWarpDocumentation) == en_us_text(MessageId::HelpWarpDocumentation),
        !keeps_english_text(MessageId::HelpWarpDocumentation) ==> has_non_ascii(zh_cn_text(MessageId::HelpWarpDocumentation)),
{
    reveal_strlit("Warp Documentation...");
    reveal_strlit("Warp 文档...");
    assert(is_ascii_text("Warp Documentation..."@));
    assert("Warp 文档..."@[5] == '\u{6587}');
    assert(("Warp 文档..."@[5] as u32) >= 128);
}

proof fn lemma_texts_help_git_hub_issues()
    ensures
        en_us_text(MessageId::HelpGitHubIssues) == "GitHub Issues..."@,
        zh_cn_text(MessageId::HelpGitHubIssues) == "GitHub Issues..."@,
        is_ascii_text(en_us_text(MessageId::HelpGitHubIssues)),
        keeps_english_text(MessageId::HelpGitHubIssues) ==> zh_cn_text(MessageId::HelpGitHubIssues) == en_us_text(MessageId::HelpGitHubIssues),
        !keeps_english_text(MessageId::HelpGitHubIssues) ==> has_non_ascii(zh_cn_text(MessageId::HelpGitHubIssues)),
{
    reveal_strlit("GitHub Issues...");
    reveal_strlit("GitHub Issues...");
    assert(is_ascii_text("GitHub Issues..."@));
}

proof fn lemma_texts_help_warp_slack_community()
    ensures
        en_us_text(MessageId::HelpWarpSlackCommunity) == "Warp Slack Community..."@,
        zh_cn_text(MessageId::HelpWarpSlackCommunity) == "Warp Slack 社区..."@,
        is_ascii_text(en_us_text(MessageId::HelpWarpSlackCommunity)),
        keeps_english_text(MessageId::HelpWarpSlackCommunity) ==> zh_cn_text(MessageId::HelpWarpSlackCommunity) == en_us_text(MessageId::HelpWarpSlackCommunity),
        !keeps_english_text(MessageId::HelpWarpSlackCommunity) ==> has_non_ascii(zh_cn_text(MessageId::HelpWarpSlackCommunity)),
{
    reveal_strlit("Warp Slack Community...");
    reveal_strlit("Warp Slack 社区...");
    assert(is_ascii_text("Warp Slack Community..."@));
    assert("Warp Slack 社区..."@[11] == '\u{793e}');
    assert(("Warp Slack 社区..."@[11] as u32) >= 128);
}

proof fn lemma_texts_dock_new_window()
    ensures
        en_us_text(MessageId::DockNewWindow) == "New Window"@,
        zh_cn_text(MessageId::DockNewWindow) == "新建窗口"@,
        is_ascii_text(en_us_text(MessageId::DockNewWindow)),
        keeps_english_text(MessageId::DockNewWindow) ==> zh_cn_text(MessageId::DockNewWindow) == en_us_text(MessageId::DockNewWindow),
        !keeps_english_text(MessageId::DockNewWindow) ==> has_non_ascii(zh_cn_text(MessageId::DockNewWindow)),
{
    reveal_strlit("New Window");
    reveal_strlit("新建窗口");
    assert(is_ascii_text("New Window"@));
    assert("新建窗口"@[0] == '\u{65b0}');
    assert(("新建窗口"@[0] as u32) >= 128);
}

proof fn lemma_texts_debug_enable_shell_debug_mode()
    ensures
        en_us_text(MessageId::DebugEnableShellDebugMode) == "Enable Shell Debug Mode (-x) for New Sessions"@,
        zh_cn_text(MessageId::DebugEnableShellDebugMode) == "为新会话启用 Shell 调试模式 (-x)"@,
        is_ascii_text(en_us_text(MessageId::DebugEnableShellDebugMode)),
        keeps_english_text(MessageId::DebugEnableShellDebugMode) ==> zh_cn_text(MessageId::DebugEnableShellDebugMode) == en_us_text(MessageId::DebugEnableShellDebugMode),
        !keeps_english_text(MessageId::DebugEnableShellDebugMode) ==> has_non_ascii(zh_cn_text(MessageId::DebugEnableShellDebugMode)),
{
    reveal_strlit("Enable Shell Debug Mode (-x) for New Sessions");
    reveal_strlit("为新会话启用 Shell 调试模式 (-x)");
    assert(is_ascii_text("Enable Shell Debug Mode (-x) for New Sessions"@));
    assert("为新会话启用 Shell 调试模式 (-x)"@[0] == '\u{4e3a}');
    assert(("为新会话启用 Shell 调试模式 (-x)"@[0] as u32) >= 128);
}

proof fn lemma_texts_debug_disable_shell_debug_mode()
    ensures
        en_us_text(MessageId::DebugDisableShellDebugMode) == "Disable Shell Debug Mode (-x) for New Sessions"@,
        zh_cn_text(MessageId::DebugDisableShellDebugMode) == "为新会话禁用 Shell 调试模式 (-x)"@,
        is_ascii_text(en_us_text(MessageId::DebugDisableShellDebugMode)),
        keeps_english_text(MessageId::DebugDisableShellDebugMode) ==> zh_cn_text(MessageId::DebugDisableShellDebugMode) == en_us_text(MessageId::DebugDisableShellDebugMode),
        !keeps_english_text(MessageId::DebugDisableShellDebugMode) ==> has_non_ascii(zh_cn_text(MessageId::DebugDisableShellDebugMode)),
{
    reveal_strlit("Disable Shell Debug Mode (-x) for New Sessions");
    reveal_strlit("为新会话禁用 Shell 调试模式 (-x)");
    assert(is_ascii_text("Disable Shell Debug Mode (-x) for New Sessions"@));
    assert("为新会话禁用 Shell 调试模式 (-x)"@[0] == '\u{4e3a}');
    assert(("为新会话禁用 Shell 调试模式 (-x)"@[0] as u32) >= 128);
}

proof fn lemma_texts_debug_enable_in_band_generators()
    ensures
        en_us_text(MessageId::DebugEnableInBandGenerators) == "Enable In-band Generators for New Sessions"@,
        zh_cn_text(MessageId::DebugEnableInBandGenerators) == "为新会话启用带内生成器"@,
        is_ascii_text(en_us_text(MessageId::DebugEnableInBandGenerators)),
        keeps_english_text(MessageId::DebugEnableInBandGenerators) ==> zh_cn_text(MessageId::DebugEnableInBandGenerators) == en_us_text(MessageId::DebugEnableInBandGenerators),
        !keeps_english_text(MessageId::DebugEnableInBandGenerators) ==> has_non_ascii(zh_cn_text(MessageId::DebugEnableInBandGenerators)),
{
    reveal_strlit("Enable In-band Generators for New Sessions");
    reveal_strlit("为新会话启用带内生成器");
    assert(is_ascii_text("Enable In-band Generators for New Sessions"@));
    assert("为新会话启用带内生成器"@[0] == '\u{4e3a}');
    assert(("为新会话启用带内生成器"@[0] as u32) >= 128);
}

proof fn lemma_texts_debug_disable_in_band_generators()
    ensures
        en_us_text(MessageId::DebugDisableInBandGenerators) == "Disable in-band generators for new sessions"@,
        zh_cn_text(MessageId::DebugDisableInBandGenerators) == "为新会话禁用带内生成器"@,
        is_ascii_text(en_us_text(MessageId::DebugDisableInBandGenerators)),
        keeps_english_text(MessageId::DebugDisableInBandGenerators) ==> zh_cn_text(MessageId::DebugDisableInBandGenerators) == en_us_text(MessageId::DebugDisableInBandGenerators),
        !keeps_english_text(MessageId::DebugDisableInBandGenerators) ==> has_non_ascii(zh_cn_text(MessageId::DebugDisableInBandGenerators)),
{
    reveal_strlit("Disable in-band generators for new sessions");
    reveal_strlit("为新会话禁用带内生成器");
    assert(is_ascii_text("Disable in-band generators for new sessions"@));
    assert("为新会话禁用带内生成器"@[0] == '\u{4e3a}');
    assert(("为新会话禁用带内生成器"@[0] as u32) >= 128);
}

proof fn lemma_texts_debug_enable_pty_recording()
    ensures
        en_us_text(MessageId::DebugEnablePtyRecording) == "Enable PTY Recording Mode (warp.pty.recording)"@,
        zh_cn_text(MessageId::DebugEnablePtyRecording) == "启用 PTY 录制模式 (warp.pty.recording)"@,
        is_ascii_text(en_us_text(MessageId::DebugEnablePtyRecording)),
        keeps_english_text(MessageId::DebugEnablePtyRecording) ==> zh_cn_text(MessageId::DebugEnablePtyRecording) == en_us_text(MessageId::DebugEnablePtyRecording),
        !keeps_english_text(MessageId::DebugEnablePtyRecording) ==> has_non_ascii(zh_cn_text(MessageId::DebugEnablePtyRecording)),
{
    reveal_strlit("Enable PTY Recording Mode (warp.pty.recording)");
    reveal_strlit("启用 PTY 录制模式 (warp.pty.recording)");
    assert(is_ascii_text("Enable PTY Recording Mode (warp.pty.recording)"@));
    assert("启用 PTY 录制模式 (warp.pty.recording)"@[0] == '\u{542f}');
    assert(("启用 PTY 录制模式 (warp.pty.recording)"@[0] as u32) >= 128);
}

proof fn lemma_texts_debug_disable_pty_recording()
    ensures
        en_us_text(MessageId::DebugDisablePtyRecording) == "Disable PTY Recording Mode (warp.pty.recording)"@,
        zh_cn_text(MessageId::DebugDisablePtyRecording) == "禁用 PTY 录制模式 (warp.pty.recording)"@,
        is_ascii_text(en_us_text(MessageId::DebugDisablePtyRecording)),
        keeps_english_text(MessageId::DebugDisablePtyRecording) ==> zh_cn_text(MessageId::DebugDisablePtyRecording) == en_us_text(MessageId::DebugDisablePtyRecording),
        !keeps_english_text(MessageId::DebugDisablePtyRecording) ==> has_non_ascii(zh_cn_text(MessageId::DebugDisablePtyRecording)),
{
    reveal_strlit("Disable PTY Recording Mode (warp.pty.recording)");
    reveal_strlit("禁用 PTY 录制模式 (warp.pty.recording)");
    assert(is_ascii_text("Disable PTY Recording Mode (warp.pty.recording)"@));
    assert("禁用 PTY 录制模式 (warp.pty.recording)"@[0] == '\u{7981}');
    assert(("禁用 PTY 录制模式 (warp.pty.recording)"@[0] as u32) >= 128);
}

proof fn lemma_texts_debug_show_bootstrap_block()
    ensures
        en_us_text(MessageId::DebugShowBootstrapBlock) == "Show Initialization Block"@,
        zh_cn_text(MessageId::DebugShowBootstrapBlock) == "显示初始化块"@,
        is_ascii_text(en_us_text(MessageId::DebugShowBootstrapBlock)),
        keeps_english_text(MessageId::DebugShowBootstrapBlock) ==> zh_cn_text(MessageId::DebugShowBootstrapBlock) == en_us_text(MessageId::DebugShowBootstrapBlock),
        !keeps_english_text(MessageId::DebugShowBootstrapBlock) ==> has_non_ascii(zh_cn_text(MessageId::DebugShowBootstrapBlock)),
{
    reveal_strlit("Show Initialization Block");
    reveal_strlit("显示初始化块");
    assert(is_ascii_text("Show Initialization Block"@));
    assert("显示初始化块"@[0] == '\u{663e}');
    assert(("显示初始化块"@[0] as u32) >= 128);
}

proof fn lemma_texts_debug_hide_bootstrap_block()
    ensures
        en_us_text(MessageId::DebugHideBootstrapBlock) == "Hide Initialization Block"@,
        zh_cn_text(MessageId::DebugHideBootstrapBlock) == "隐藏初始化块"@,
        is_ascii_text(en_us_text(MessageId::DebugHideBootstrapBlock)),
        keeps_english_text(MessageId::DebugHideBootstrapBlock) ==> zh_cn_text(MessageId::DebugHideBootstrapBlock) == en_us_text(MessageId::DebugHideBootstrapBlock),
        !keeps_english_text(MessageId::DebugHideBootstrapBlock) ==> has_non_ascii(zh_cn_text(MessageId::DebugHideBootstrapBlock)),
{
    reveal_strlit("Hide Initialization Block");
    reveal_strlit("隐藏初始化块");
    assert(is_ascii_text("Hide Initialization Block"@));
    assert("隐藏初始化块"@[0] == '\u{9690}');
    assert(("隐藏初始化块"@[0] as u32) >= 128);
}

proof fn lemma_texts_debug_show_in_band_command_blocks()
    ensures
        en_us_text(MessageId::DebugShowInBandCommandBlocks) == "Show In-band Command Blocks"@,
        zh_cn_text(MessageId::DebugShowInBandCommandBlocks) == "显示带内命令块"@,
        is_ascii_text(en_us_text(MessageId::DebugShowInBandCommandBlocks)),
        keeps_english_text(MessageId::DebugShowInBandCommandBlocks) ==> zh_cn_text(MessageId::DebugShowInBandCommandBlocks) == en_us_text(MessageId::DebugShowInBandCommandBlocks),
        !keeps_english_text(MessageId::DebugShowInBandCommandBlocks) ==> has_non_ascii(zh_cn_text(MessageId::DebugShowInBandCommandBlocks)),
{
    reveal_strlit("Show In-band Command Blocks");
    reveal_strlit("显示带内命令块");
    assert(is_ascii_text("Show In-band Command Blocks"@));
    assert("显示带内命令块"@[0] == '\u{663e}');
    assert(("显示带内命令块"@[0] as u32) >= 128);
}

proof fn lemma_texts_debug_hide_in_band_command_blocks()
    ensures
        en_us_text(MessageId::DebugHideInBandCommandBlocks) == "Hide In-band Command Blocks"@,
        zh_cn_text(MessageId::DebugHideInBandCommandBlocks) == "隐藏带内命令块"@,
        is_ascii_text(en_us_text(MessageId::DebugHideInBandCommandBlocks)),
        keeps_english_text(MessageId::DebugHideInBandCommandBlocks) ==> zh_cn_text(MessageId::DebugHideInBandCommandBlocks) == en_us_text(MessageId::DebugHideInBandCommandBlocks),
        !keeps_english_text(MessageId::DebugHideInBandCommandBlocks) ==> has_non_ascii(zh_cn_text(MessageId::DebugHideInBandCommandBlocks)),
{
    reveal_strlit("Hide In-band Command Blocks");
    reveal_strlit("隐藏带内命令块");
    assert(is_ascii_text("Hide In-band Command Blocks"@));
    assert("隐藏带内命令块"@[0] == '\u{9690}');
    assert(("隐藏带内命令块"@[0] as u32) >= 128);
}

proof fn lemma_texts_debug_show_ssh_blocks()
    ensures
        en_us_text(MessageId::DebugShowSshBlocks) == "Show Warpified SSH Blocks"@,
        zh_cn_text(MessageId::DebugShowSshBlocks) == "显示 Warp 化的 SSH 块"@,
        is_ascii_text(en_us_text(MessageId::DebugShowSshBlocks)),
        keeps_english_text(MessageId::DebugShowSshBlocks) ==> zh_cn_text(MessageId::DebugShowSshBlocks) == en_us_text(MessageId::DebugShowSshBlocks),
        !keeps_english_text(MessageId::DebugShowSshBlocks) ==> has_non_ascii(zh_cn_text(MessageId::DebugShowSshBlocks)),
{
    reveal_strlit("Show Warpified SSH Blocks");
    reveal_strlit("显示 Warp 化的 SSH 块");
    assert(is_ascii_text("Show Warpified SSH Blocks"@));
    assert("显示 Warp 化的 SSH 块"@[0] == '\u{663e}');
    assert(("显示 Warp 化的 SSH 块"@[0] as u32) >= 128);
}

proof fn lemma_texts_debug_hide_ssh_blocks()
    ensures
        en_us_text(MessageId::DebugHideSshBlocks) == "Hide Warpified SSH Blocks"@,
        zh_cn_text(MessageId::DebugHideSshBlocks) == "隐藏 Warp 化的 SSH 块"@,
        is_ascii_text(en_us_text(MessageId::DebugHideSshBlocks)),
        keeps_english_text(MessageId::DebugHideSshBlocks) ==> zh_cn_text(MessageId::DebugHideSshBlocks) == en_us_text(MessageId::DebugHideSshBlocks),
        !keeps_english_text(MessageId::DebugHideSshBlocks) ==> has_non_ascii(zh_cn_text(MessageId::DebugHideSshBlocks)),
{
    reveal_strlit("Hide Warpified SSH Blocks");
    reveal_strlit("隐藏 Warp 化的 SSH 块");
    assert(is_ascii_text("Hide Warpified SSH Blocks"@));
    assert("隐藏 Warp 化的 SSH 块"@[0] == '\u{9690}');
    assert(("隐藏 Warp 化的 SSH 块"@[0] as u32) >= 128);
}

proof fn lemma_texts_debug_export_default_settings_csv()
    ensures
        en_us_text(MessageId::DebugExportDefaultSettingsCsv) == "Export Default Settings as CSV to home dir"@,
        zh_cn_text(MessageId::DebugExportDefaultSettingsCsv) == "将默认设置导出为 CSV 到主目录"@,
        is_ascii_text(en_us_text(MessageId::DebugExportDefaultSettingsCsv)),
        keeps_english_text(MessageId::DebugExportDefaultSettingsCsv) ==> zh_cn_text(MessageId::DebugExportDefaultSettingsCsv) == en_us_text(MessageId::DebugExportDefaultSettingsCsv),
        !keeps_english_text(MessageId::DebugExportDefaultSettingsCsv) ==> has_non_ascii(zh_cn_text(MessageId::DebugExportDefaultSettingsCsv)),
{
    reveal_strlit("Export Default Settings as CSV to home dir");
    reveal_strlit("将默认设置导出为 CSV 到主目录");
    assert(is_ascii_text("Export Default Settings as CSV to home dir"@));
    assert("将默认设置导出为 CSV 到主目录"@[0] == '\u{5c06}');
    assert(("将默认设置导出为 CSV 到主目录"@[0] as u32) >= 128);
}

proof fn lemma_texts_debug_toggle_network_status()
    ensures
        en_us_text(MessageId::DebugToggleNetworkStatus) == "Manually Toggle Network Status"@,
        zh_cn_text(MessageId::DebugToggleNetworkStatus) == "手动切换网络状态"@,
        is_ascii_text(en_us_text(MessageId::DebugToggleNetworkStatus)),
        keeps_english_text(MessageId::DebugToggleNetworkStatus) ==> zh_cn_text(MessageId::DebugToggleNetworkStatus) == en_us_text(MessageId::DebugToggleNetworkStatus),
        !keeps_english_text(MessageId::DebugToggleNetworkStatus) ==> has_non_ascii(zh_cn_text(MessageId::DebugToggleNetworkStatus)),
{
    reveal_strlit("Manually Toggle Network Status");
    reveal_strlit("手动切换网络状态");
    assert(is_ascii_text("Manually Toggle Network Status"@));
    assert("手动切换网络状态"@[0] == '\u{624b}');
    assert(("手动切换网络状态"@[0] as u32) >= 128);
}

proof fn lemma_texts_debug_create_anonymous_user()
    ensures
        en_us_text(MessageId::DebugCreateAnonymousUser) == "Create anonymous user"@,
        zh_cn_text(MessageId::DebugCreateAnonymousUser) == "创建匿名用户"@,
        is_ascii_text(en_us_text(MessageId::DebugCreateAnonymousUser)),
        keeps_english_text(MessageId::DebugCreateAnonymousUser) ==> zh_cn_text(MessageId::DebugCreateAnonymousUser) == en_us_text(MessageId::DebugCreateAnonymousUser),
        !keeps_english_text(MessageId::DebugCreateAnonymousUser) ==> has_non_ascii(zh_cn_text(MessageId::DebugCreateAnonymousUser)),
{
    reveal_strlit("Create anonymous user");
    reveal_strlit("创建匿名用户");
    assert(is_ascii_text("Create anonymous user"@));
    assert("创建匿名用户"@[0] == '\u{521b}');
    assert(("创建匿名用户"@[0] as u32) >= 128);
}

proof fn lemma_texts_edit_undo()
    ensures
        en_us_text(MessageId::EditUndo) == "Undo"@,
        zh_cn_text(MessageId::EditUndo) == "撤销"@,
        is_ascii_text(en_us_text(MessageId::EditUndo)),
        keeps_english_text(MessageId::EditUndo) ==> zh_cn_text(MessageId::EditUndo) == en_us_text(MessageId::EditUndo),
        !keeps_english_text(MessageId::EditUndo) ==> has_non_ascii(zh_cn_text(MessageId::EditUndo)),
{
    reveal_strlit("Undo");
    reveal_strlit("撤销");
    assert(is_ascii_text("Undo"@));
    assert("撤销"@[0] == '\u{64a4}');
    assert(("撤销"@[0] as u32) >= 128);
}

proof fn lemma_texts_edit_redo()
    ensures
        en_us_text(MessageId::EditRedo) == "Redo"@,
        zh_cn_text(MessageId::EditRedo) == "重做"@,
        is_ascii_text(en_us_text(MessageId::EditRedo)),
        keeps_english_text(MessageId::EditRedo) ==> zh_cn_text(MessageId::EditRedo) == en_us_text(MessageId::EditRedo),
        !keeps_english_text(MessageId::EditRedo) ==> has_non_ascii(zh_cn_text(MessageId::EditRedo)),
{
    reveal_strlit("Redo");
    reveal_strlit("重做");
    assert(is_ascii_text("Redo"@));
    assert("重做"@[0] == '\u{91cd}');
    assert(("重做"@[0] as u32) >= 128);
}

proof fn lemma_texts_edit_cut()
    ensures
        en_us_text(MessageId::EditCut) == "Cut"@,
        zh_cn_text(MessageId::EditCut) == "剪切"@,
        is_ascii_text(en_us_text(MessageId::EditCut)),
        keeps_english_text(MessageId::EditCut) ==> zh_cn_text(MessageId::EditCut) == en_us_text(MessageId::EditCut),
        !keeps_english_text(MessageId::EditCut) ==> has_non_ascii(zh_cn_text(MessageId::EditCut)),
{
    reveal_strlit("Cut");
    reveal_strlit("剪切");
    assert(is_ascii_text("Cut"@));
    assert("剪切"@[0] == '\u{526a}');
    assert(("剪切"@[0] as u32) >= 128);
}

proof fn lemma_texts_edit_copy()
    ensures
        en_us_text(MessageId::EditCopy) == "Copy"@,
        zh_cn_text(MessageId::EditCopy) == "复制"@,
        is_ascii_text(en_us_text(MessageId::EditCopy)),
        keeps_english_text(MessageId::EditCopy) ==> zh_cn_text(MessageId::EditCopy) == en_us_text(MessageId::EditCopy),
        !keeps_english_text(MessageId::EditCopy) ==> has_non_ascii(zh_cn_text(MessageId::EditCopy)),
{
    reveal_strlit("Copy");
    reveal_strlit("复制");
    assert(is_ascii_text("Copy"@));
    assert("复制"@[0] == '\u{590d}');
    assert(("复制"@[0] as u32) >= 128);
}

proof fn lemma_texts_edit_paste()
    ensures
        en_us_text(MessageId::EditPaste) == "Paste"@,
        zh_cn_text(MessageId::EditPaste) == "粘贴"@,
        is_ascii_text(en_us_text(MessageId::EditPaste)),
        keeps_english_text(MessageId::EditPaste) ==> zh_cn_text(MessageId::EditPaste) == en_us_text(MessageId::EditPaste),
        !keeps_english_text(MessageId::EditPaste) ==> has_non_ascii(zh_cn_text(MessageId::EditPaste)),
{
    reveal_strlit("Paste");
    reveal_strlit("粘贴");
    assert(is_ascii_text("Paste"@));
    assert("粘贴"@[0] == '\u{7c98}');
    assert(("粘贴"@[0] as u32) >= 128);
}

proof fn lemma_texts_edit_select_all()
    ensures
        en_us_text(MessageId::EditSelectAll) == "Select All"@,
        zh_cn_text(MessageId::EditSelectAll) == "全选"@,
        is_ascii_text(en_us_text(MessageId::EditSelectAll)),
        keeps_english_text(MessageId::EditSelectAll) ==> zh_cn_text(MessageId::EditSelectAll) == en_us_text(MessageId::EditSelectAll),
        !keeps_english_text(MessageId::EditSelectAll) ==> has_non_ascii(zh_cn_text(MessageId::EditSelectAll)),
{
    reveal_strlit("Select All");
    reveal_strlit("全选");
    assert(is_ascii_text("Select All"@));
    assert("全选"@[0] == '\u{5168}');
    assert(("全选"@[0] as u32) >= 128);
}

proof fn lemma_texts_edit_clear_editor()
    ensures
        en_us_text(MessageId::EditClearEditor) == "Clear Editor"@,
        zh_cn_text(MessageId::EditClearEditor) == "清除编辑器"@,
        is_ascii_text(en_us_text(MessageId::EditClearEditor)),
        keeps_english_text(MessageId::EditClearEditor) ==> zh_cn_text(MessageId::EditClearEditor) == en_us_text(MessageId::EditClearEditor),
        !keeps_english_text(MessageId::EditClearEditor) ==> has_non_ascii(zh_cn_text(MessageId::EditClearEditor)),
{
    reveal_strlit("Clear Editor");
    reveal_strlit("清除编辑器");
    assert(is_ascii_text("Clear Editor"@));
    assert("清除编辑器"@[0] == '\u{6e05}');
    assert(("清除编辑器"@[0] as u32) >= 128);
}

proof fn lemma_texts_edit_find()
    ensures
        en_us_text(MessageId::EditFind) == "Find in Terminal"@,
        zh_cn_text(MessageId::EditFind) == "在终端中查找"@,
        is_ascii_text(en_us_text(MessageId::EditFind)),
        keeps_english_text(MessageId::EditFind) ==> zh_cn_text(MessageId::EditFind) == en_us_text(MessageId::EditFind),
        !keeps_english_text(MessageId::EditFind) ==> has_non_ascii(zh_cn_text(MessageId::EditFind)),
{
    reveal_strlit("Find in Terminal");
    reveal_strlit("在终端中查找");
    assert(is_ascii_text("Find in Terminal"@));
    assert("在终端中查找"@[0] == '\u{5728}');
    assert(("在终端中查找"@[0] as u32) >= 128);
}

proof fn lemma_texts_edit_go_to_line()
    ensures
        en_us_text(MessageId::EditGoToLine) == "Go to Line"@,
        zh_cn_text(MessageId::EditGoToLine) == "跳转到行"@,
        is_ascii_text(en_us_text(MessageId::EditGoToLine)),
        keeps_english_text(MessageId::EditGoToLine) ==> zh_cn_text(MessageId::EditGoToLine) == en_us_text(MessageId::EditGoToLine),
        !keeps_english_text(MessageId::EditGoToLine) ==> has_non_ascii(zh_cn_text(MessageId::EditGoToLine)),
{
    reveal_strlit("Go to Line");
    reveal_strlit("跳转到行");
    assert(is_ascii_text("Go to Line"@));
    assert("跳转到行"@[0] == '\u{8df3}');
    assert(("跳转到行"@[0] as u32) >= 128);
}

proof fn lemma_texts_edit_focus_input()
    ensures
        en_us_text(MessageId::EditFocusInput) == "Focus Input"@,
        zh_cn_text(MessageId::EditFocusInput) == "聚焦输入"@,
        is_ascii_text(en_us_text(MessageId::EditFocusInput)),
        keeps_english_text(MessageId::EditFocusInput) ==> zh_cn_text(MessageId::EditFocusInput) == en_us_text(MessageId::EditFocusInput),
        !keeps_english_text(MessageId::EditFocusInput) ==> has_non_ascii(zh_cn_text(MessageId::EditFocusInput)),
{
    reveal_strlit("Focus Input");
    reveal_strlit("聚焦输入");
    assert(is_ascii_text("Focus Input"@));
    assert("聚焦输入"@[0] == '\u{805a}');
    assert(("聚焦输入"@[0] as u32) >= 128);
}

proof fn lemma_texts_edit_add_next_occurrence()
    ensures
        en_us_text(MessageId::EditAddNextOccurrence) == "Add Next Occurrence"@,
        zh_cn_text(MessageId::EditAddNextOccurrence) == "添加下一个匹配项"@,
        is_ascii_text(en_us_text(MessageId::EditAddNextOccurrence)),
        keeps_english_text(MessageId::EditAddNextOccurrence) ==> zh_cn_text(MessageId::EditAddNextOccurrence) == en_us_text(MessageId::EditAddNextOccurrence),
        !keeps_english_text(MessageId::EditAddNextOccurrence) ==> has_non_ascii(zh_cn_text(MessageId::EditAddNextOccurrence)),
{
    reveal_strlit("Add Next Occurrence");
    reveal_strlit("添加下一个匹配项");
    assert(is_ascii_text("Add Next Occurrence"@));
    assert("添加下一个匹配项"@[0] == '\u{6dfb}');
    assert(("添加下一个匹配项"@[0] as u32) >= 128);
}

proof fn lemma_texts_edit_add_cursor_above()
    ensures
        en_us_text(MessageId::EditAddCursorAbove) == "Add Cursor Above"@,
        zh_cn_text(MessageId::EditAddCursorAbove) == "在上方添加光标"@,
        is_ascii_text(en_us_text(MessageId::EditAddCursorAbove)),
        keeps_english_text(MessageId::EditAddCursorAbove) ==> zh_cn_text(MessageId::EditAddCursorAbove) == en_us_text(MessageId::EditAddCursorAbove),
        !keeps_english_text(MessageId::EditAddCursorAbove) ==> has_non_ascii(zh_cn_text(MessageId::EditAddCursorAbove)),
{
    reveal_strlit("Add Cursor Above");
    reveal_strlit("在上方添加光标");
    assert(is_ascii_text("Add Cursor Above"@));
    assert("在上方添加光标"@[0] == '\u{5728}');
    assert(("在上方添加光标"@[0] as u32) >= 128);
}

proof fn lemma_texts_edit_add_cursor_below()
    ensures
        en_us_text(MessageId::EditAddCursorBelow) == "Add Cursor Below"@,
        zh_cn_text(MessageId::EditAddCursorBelow) == "在下方添加光标"@,
        is_ascii_text(en_us_text(MessageId::EditAddCursorBelow)),
        keeps_english_text(MessageId::EditAddCursorBelow) ==> zh_cn_text(MessageId::EditAddCursorBelow) == en_us_text(MessageId::EditAddCursorBelow),
        !keeps_english_text(MessageId::EditAddCursorBelow) ==> has_non_ascii(zh_cn_text(MessageId::EditAddCursorBelow)),
{
    reveal_strlit("Add Cursor Below");
    reveal_strlit("在下方添加光标");
    assert(is_ascii_text("Add Cursor Below"@));
    assert("在下方添加光标"@[0] == '\u{5728}');
    assert(("在下方添加光标"@[0] as u32) >= 128);
}

proof fn lemma_texts_view_command_palette()
    ensures
        en_us_text(MessageId::ViewCommandPalette) == "Command Palette"@,
        zh_cn_text(MessageId::ViewCommandPalette) == "命令面板"@,
        is_ascii_text(en_us_text(MessageId::ViewCommandPalette)),
        keeps_english_text(MessageId::ViewCommandPalette) ==> zh_cn_text(MessageId::ViewCommandPalette) == en_us_text(MessageId::ViewCommandPalette),
        !keeps_english_text(MessageId::ViewCommandPalette) ==> has_non_ascii(zh_cn_text(MessageId::ViewCommandPalette)),
{
    reveal_strlit("Command Palette");
    reveal_strlit("命令面板");
    assert(is_ascii_text("Command Palette"@));
    assert("命令面板"@[0] == '\u{547d}');
    assert(("命令面板"@[0] as u32) >= 128);
}

proof fn lemma_texts_view_navigation_palette()
    ensures
        en_us_text(MessageId::ViewNavigationPalette) == "Navigation Palette"@,
        zh_cn_text(MessageId::ViewNavigationPalette) == "导航面板"@,
        is_ascii_text(en_us_text(MessageId::ViewNavigationPalette)),
        keeps_english_text(MessageId::ViewNavigationPalette) ==> zh_cn_text(MessageId::ViewNavigationPalette) == en_us_text(MessageId::ViewNavigationPalette),
        !keeps_english_text(MessageId::ViewNavigationPalette) ==> has_non_ascii(zh_cn_text(MessageId::ViewNavigationPalette)),
{
    reveal_strlit("Navigation Palette");
    reveal_strlit("导航面板");
    assert(is_ascii_text("Navigation Palette"@));
    assert("导航面板"@[0] == '\u{5bfc}');
    assert(("导航面板"@[0] as u32) >= 128);
}

proof fn lemma_texts_view_launch_config_palette()
    ensures
        en_us_text(MessageId::ViewLaunchConfigPalette) == "Launch Configuration Palette"@,
        zh_cn_text(MessageId::ViewLaunchConfigPalette) == "启动配置面板"@,
        is_ascii_text(en_us_text(MessageId::ViewLaunchConfigPalette)),
        keeps_english_text(MessageId::ViewLaunchConfigPalette) ==> zh_cn_text(MessageId::ViewLaunchConfigPalette) == en_us_text(MessageId::ViewLaunchConfigPalette),
        !keeps_english_text(MessageId::ViewLaunchConfigPalette) ==> has_non_ascii(zh_cn_text(MessageId::ViewLaunchConfigPalette)),
{
    reveal_strlit("Launch Configuration Palette");
    reveal_strlit("启动配置面板");
    assert(is_ascii_text("Launch Configuration Palette"@));
    assert("启动配置面板"@[0] == '\u{542f}');
    assert(("启动配置面板"@[0] as u32) >= 128);
}

proof fn lemma_texts_view_files_palette()
    ensures
        en_us_text(MessageId::ViewFilesPalette) == "Files Palette"@,
        zh_cn_text(MessageId::ViewFilesPalette) == "文件面板"@,
        is_ascii_text(en_us_text(MessageId::ViewFilesPalette)),
        keeps_english_text(MessageId::ViewFilesPalette) ==> zh_cn_text(MessageId::ViewFilesPalette) == en_us_text(MessageId::ViewFilesPalette),
        !keeps_english_text(MessageId::ViewFilesPalette) ==> has_non_ascii(zh_cn_text(MessageId::ViewFilesPalette)),
{
    reveal_strlit("Files Palette");
    reveal_strlit("文件面板");
    assert(is_ascii_text("Files Palette"@));
    assert("文件面板"@[0] == '\u{6587}');
    assert(("文件面板"@[0] as u32) >= 128);
}

proof fn lemma_texts_view_toggle_conversation_list()
    ensures
        en_us_text(MessageId::ViewToggleConversationList) == "Toggle Conversation List"@,
        zh_cn_text(MessageId::ViewToggleConversationList) == "切换对话列表"@,
        is_ascii_text(en_us_text(MessageId::ViewToggleConversationList)),
        keeps_english_text(MessageId::ViewToggleConversationList) ==> zh_cn_text(MessageId::ViewToggleConversationList) == en_us_text(MessageId::ViewToggleConversationList),
        !keeps_english_text(MessageId::ViewToggleConversationList) ==> has_non_ascii(zh_cn_text(MessageId::ViewToggleConversationList)),
{
    reveal_strlit("Toggle Conversation List");
    reveal_strlit("切换对话列表");
    assert(is_ascii_text("Toggle Conversation List"@));
    assert("切换对话列表"@[0] == '\u{5207}');
    assert(("切换对话列表"@[0] as u32) >= 128);
}

proof fn lemma_texts_view_toggle_project_explorer()
    ensures
        en_us_text(MessageId::ViewToggleProjectExplorer) == "Toggle Project Explorer"@,
        zh_cn_text(MessageId::ViewToggleProjectExplorer) == "切换项目浏览器"@,
        is_ascii_text(en_us_text(MessageId::ViewToggleProjectExplorer)),
        keeps_english_text(MessageId::ViewToggleProjectExplorer) ==> zh_cn_text(MessageId::ViewToggleProjectExplorer) == en_us_text(MessageId::ViewToggleProjectExplorer),
        !keeps_english_text(MessageId::ViewToggleProjectExplorer) ==> has_non_ascii(zh_cn_text(MessageId::ViewToggleProjectExplorer)),
{
    reveal_strlit("Toggle Project Explorer");
    reveal_strlit("切换项目浏览器");
    assert(is_ascii_text("Toggle Project Explorer"@));
    assert("切换项目浏览器"@[0] == '\u{5207}');
    assert(("切换项目浏览器"@[0] as u32) >= 128);
}

proof fn lemma_texts_view_toggle_global_search()
    ensures
        en_us_text(MessageId::ViewToggleGlobalSearch) == "Toggle Global Search"@,
        zh_cn_text(MessageId::ViewToggleGlobalSearch) == "切换全局搜索"@,
        is_ascii_text(en_us_text(MessageId::ViewToggleGlobalSearch)),
        keeps_english_text(MessageId::ViewToggleGlobalSearch) ==> zh_cn_text(MessageId::ViewToggleGlobalSearch) == en_us_text(MessageId::ViewToggleGlobalSearch),
        !keeps_english_text(MessageId::ViewToggleGlobalSearch) ==> has_non_ascii(zh_cn_text(MessageId::ViewToggleGlobalSearch)),
{
    reveal_strlit("Toggle Global Search");
    reveal_strlit("切换全局搜索");
    assert(is_ascii_text("Toggle Global Search"@));
    assert("切换全局搜索"@[0] == '\u{5207}');
    assert(("切换全局搜索"@[0] as u32) >= 128);
}

proof fn lemma_texts_view_history()
    ensures
        en_us_text(MessageId::ViewHistory) == "History"@,
        zh_cn_text(MessageId::ViewHistory) == "历史记录"@,
        is_ascii_text(en_us_text(MessageId::ViewHistory)),
        keeps_english_text(MessageId::ViewHistory) ==> zh_cn_text(MessageId::ViewHistory) == en_us_text(MessageId::ViewHistory),
        !keeps_english_text(MessageId::ViewHistory) ==> has_non_ascii(zh_cn_text(MessageId::ViewHistory)),
{
    reveal_strlit("History");
    reveal_strlit("历史记录");
    assert(is_ascii_text("History"@));
    assert("历史记录"@[0] == '\u{5386}');
    assert(("历史记录"@[0] as u32) >= 128);
}

proof fn lemma_texts_view_command_search()
    ensures
        en_us_text(MessageId::ViewCommandSearch) == "Command Search"@,
        zh_cn_text(MessageId::ViewCommandSearch) == "命令搜索"@,
        is_ascii_text(en_us_text(MessageId::ViewCommandSearch)),
        keeps_english_text(MessageId::ViewCommandSearch) ==> zh_cn_text(MessageId::ViewCommandSearch) == en_us_text(MessageId::ViewCommandSearch),
        !keeps_english_text(MessageId::ViewCommandSearch) ==> has_non_ascii(zh_cn_text(MessageId::ViewCommandSearch)),
{
    reveal_strlit("Command Search");
    reveal_strlit("命令搜索");
    assert(is_ascii_text("Command Search"@));
    assert("命令搜索"@[0] == '\u{547d}');
    assert(("命令搜索"@[0] as u32) >= 128);
}

proof fn lemma_texts_view_workflows()
    ensures
        en_us_text(MessageId::ViewWorkflows) == "Workflows"@,
        zh_cn_text(MessageId::ViewWorkflows) == "工作流"@,
        is_ascii_text(en_us_text(MessageId::ViewWorkflows)),
        keeps_english_text(MessageId::ViewWorkflows) ==> zh_cn_text(MessageId::ViewWorkflows) == en_us_text(MessageId::ViewWorkflows),
        !keeps_english_text(MessageId::ViewWorkflows) ==> has_non_ascii(zh_cn_text(MessageId::ViewWorkflows)),
{
    reveal_strlit("Workflows");
    reveal_strlit("工作流");
    assert(is_ascii_text("Workflows"@));
    assert("工作流"@[0] == '\u{5de5}');
    assert(("工作流"@[0] as u32) >= 128);
}

proof fn lemma_texts_view_increase_font_size()
    ensures
        en_us_text(MessageId::ViewIncreaseFontSize) == "Increase Font Size"@,
        zh_cn_text(MessageId::ViewIncreaseFontSize) == "增大字体"@,
        is_ascii_text(en_us_text(MessageId::ViewIncreaseFontSize)),
        keeps_english_text(MessageId::ViewIncreaseFontSize) ==> zh_cn_text(MessageId::ViewIncreaseFontSize) == en_us_text(MessageId::ViewIncreaseFontSize),
        !keeps_english_text(MessageId::ViewIncreaseFontSize) ==> has_non_ascii(zh_cn_text(MessageId::ViewIncreaseFontSize)),
{
    reveal_strlit("Increase Font Size");
    reveal_strlit("增大字体");
    assert(is_ascii_text("Increase Font Size"@));
    assert("增大字体"@[0] == '\u{589e}');
    assert(("增大字体"@[0] as u32) >= 128);
}

proof fn lemma_texts_view_decrease_font_size()
    ensures
        en_us_text(MessageId::ViewDecreaseFontSize) == "Decrease Font Size"@,
        zh_cn_text(MessageId::ViewDecreaseFontSize) == "减小字体"@,
        is_ascii_text(en_us_text(MessageId::ViewDecreaseFontSize)),
        keeps_english_text(MessageId::ViewDecreaseFontSize) ==> zh_cn_text(MessageId::ViewDecreaseFontSize) == en_us_text(MessageId::ViewDecreaseFontSize),
        !keeps_english_text(MessageId::ViewDecreaseFontSize) ==> has_non_ascii(zh_cn_text(MessageId::ViewDecreaseFontSize)),
{
    reveal_strlit("Decrease Font Size");
    reveal_strlit("减小字体");
    assert(is_ascii_text("Decrease Font Size"@));
    assert("减小字体"@[0] == '\u{51cf}');
    assert(("减小字体"@[0] as u32) >= 128);
}

proof fn lemma_texts_view_reset_font_size()
    ensures
        en_us_text(MessageId::ViewResetFontSize) == "Reset Font Size"@,
        zh_cn_text(MessageId::ViewResetFontSize) == "重置字体大小"@,
        is_ascii_text(en_us_text(MessageId::ViewResetFontSize)),
        keeps_english_text(MessageId::ViewResetFontSize) ==> zh_cn_text(MessageId::ViewResetFontSize) == en_us_text(MessageId::ViewResetFontSize),
        !keeps_english_text(MessageId::ViewResetFontSize) ==> has_non_ascii(zh_cn_text(MessageId::ViewResetFontSize)),
{
    reveal_strlit("Reset Font Size");
    reveal_strlit("重置字体大小");
    assert(is_ascii_text("Reset Font Size"@));
    assert("重置字体大小"@[0] == '\u{91cd}');
    assert(("重置字体大小"@[0] as u32) >= 128);
}

proof fn lemma_texts_view_increase_zoom()
    ensures
        en_us_text(MessageId::ViewIncreaseZoom) == "Increase Zoom"@,
        zh_cn_text(MessageId::ViewIncreaseZoom) == "放大"@,
        is_ascii_text(en_us_text(MessageId::ViewIncreaseZoom)),
        keeps_english_text(MessageId::ViewIncreaseZoom) ==> zh_cn_text(MessageId::ViewIncreaseZoom) == en_us_text(MessageId::ViewIncreaseZoom),
        !keeps_english_text(MessageId::ViewIncreaseZoom) ==> has_non_ascii(zh_cn_text(MessageId::ViewIncreaseZoom)),
{
    reveal_strlit("Increase Zoom");
    reveal_strlit("放大");
    assert(is_ascii_text("Increase Zoom"@));
    assert("放大"@[0] == '\u{653e}');
    assert(("放大"@[0] as u32) >= 128);
}

proof fn lemma_texts_view_decrease_zoom()
    ensures
        en_us_text(MessageId::ViewDecreaseZoom) == "Decrease Zoom"@,
        zh_cn_text(MessageId::ViewDecreaseZoom) == "缩小"@,
        is_ascii_text(en_us_text(MessageId::ViewDecreaseZoom)),
        keeps_english_text(MessageId::ViewDecreaseZoom) ==> zh_cn_text(MessageId::ViewDecreaseZoom) == en_us_text(MessageId::ViewDecreaseZoom),
        !keeps_english_text(MessageId::ViewDecreaseZoom) ==> has_non_ascii(zh_cn_text(MessageId::ViewDecreaseZoom)),
{
    reveal_strlit("Decrease Zoom");
    reveal_strlit("缩小");
    assert(is_ascii_text("Decrease Zoom"@));
    assert("缩小"@[0] == '\u{7f29}');
    assert(("缩小"@[0] as u32) >= 128);
}

proof fn lemma_texts_view_reset_zoom()
    ensures
        en_us_text(MessageId::ViewResetZoom) == "Reset Zoom"@,
        zh_cn_text(MessageId::ViewResetZoom) == "重置缩放"@,
        is_ascii_text(en_us_text(MessageId::ViewResetZoom)),
        keeps_english_text(MessageId::ViewResetZoom) ==> zh_cn_text(MessageId::ViewResetZoom) == en_us_text(MessageId::ViewResetZoom),
        !keeps_english_text(MessageId::ViewResetZoom) ==> has_non_ascii(zh_cn_text(MessageId::ViewResetZoom)),
{
    reveal_strlit("Reset Zoom");
    reveal_strlit("重置缩放");
    assert(is_ascii_text("Reset Zoom"@));
    assert("重置缩放"@[0] == '\u{91cd}');
    assert(("重置缩放"@[0] as u32) >= 128);
}

proof fn lemma_texts_view_toggle_warp_drive()
    ensures
        en_us_text(MessageId::ViewToggleWarpDrive) == "Toggle Warp Drive"@,
        zh_cn_text(MessageId::ViewToggleWarpDrive) == "切换 Warp Drive"@,
        is_ascii_text(en_us_text(MessageId::ViewToggleWarpDrive)),
        keeps_english_text(MessageId::ViewToggleWarpDrive) ==> zh_cn_text(MessageId::ViewToggleWarpDrive) == en_us_text(MessageId::ViewToggleWarpDrive),
        !keeps_english_text(MessageId::ViewToggleWarpDrive) ==> has_non_ascii(zh_cn_text(MessageId::ViewToggleWarpDrive)),
{
    reveal_strlit("Toggle Warp Drive");
    reveal_strlit("切换 Warp Drive");
    assert(is_ascii_text("Toggle Warp Drive"@));
    assert("切换 Warp Drive"@[0] == '\u{5207}');
    assert(("切换 Warp Drive"@[0] as u32) >= 128);
}

proof fn lemma_texts_tab_rename()
    ensures
        en_us_text(MessageId::TabRename) == "Rename Tab"@,
        zh_cn_text(MessageId::TabRename) == "重命名标签页"@,
        is_ascii_text(en_us_text(MessageId::TabRename)),
        keeps_english_text(MessageId::TabRename) ==> zh_cn_text(MessageId::TabRename) == en_us_text(MessageId::TabRename),
        !keeps_english_text(MessageId::TabRename) ==> has_non_ascii(zh_cn_text(MessageId::TabRename)),
{
    reveal_strlit("Rename Tab");
    reveal_strlit("重命名标签页");
    assert(is_ascii_text("Rename Tab"@));
    assert("重命名标签页"@[0] == '\u{91cd}');
    assert(("重命名标签页"@[0] as u32) >= 128);
}

proof fn lemma_texts_tab_split_right()
    ensures
        en_us_text(MessageId::TabSplitRight) == "Split Right"@,
        zh_cn_text(MessageId::TabSplitRight) == "向右分屏"@,
        is_ascii_text(en_us_text(MessageId::TabSplitRight)),
        keeps_english_text(MessageId::TabSplitRight) ==> zh_cn_text(MessageId::TabSplitRight) == en_us_text(MessageId::TabSplitRight),
        !keeps_english_text(MessageId::TabSplitRight) ==> has_non_ascii(zh_cn_text(MessageId::TabSplitRight)),
{
    reveal_strlit("Split Right");
    reveal_strlit("向右分屏");
    assert(is_ascii_text("Split Right"@));
    assert("向右分屏"@[0] == '\u{5411}');
    assert(("向右分屏"@[0] as u32) >= 128);
}

proof fn lemma_texts_tab_split_left()
    ensures
        en_us_text(MessageId::TabSplitLeft) == "Split Left"@,
        zh_cn_text(MessageId::TabSplitLeft) == "向左分屏"@,
        is_ascii_text(en_us_text(MessageId::TabSplitLeft)),
        keeps_english_text(MessageId::TabSplitLeft) ==> zh_cn_text(MessageId::TabSplitLeft) == en_us_text(MessageId::TabSplitLeft),
        !keeps_english_text(MessageId::TabSplitLeft) ==> has_non_ascii(zh_cn_text(MessageId::TabSplitLeft)),
{
    reveal_strlit("Split Left");
    reveal_strlit("向左分屏");
    assert(is_ascii_text("Split Left"@));
    assert("向左分屏"@[0] == '\u{5411}');
    assert(("向左分屏"@[0] as u32) >= 128);
}

proof fn lemma_texts_tab_split_down()
    ensures
        en_us_text(MessageId::TabSplitDown) == "Split Down"@,
        zh_cn_text(MessageId::TabSplitDown) == "向下分屏"@,
        is_ascii_text(en_us_text(MessageId::TabSplitDown)),
        keeps_english_text(MessageId::TabSplitDown) ==> zh_cn_text(MessageId::TabSplitDown) == en_us_text(MessageId::TabSplitDown),
        !keeps_english_text(MessageId::TabSplitDown) ==> has_non_ascii(zh_cn_text(MessageId::TabSplitDown)),
{
    reveal_strlit("Split Down");
    reveal_strlit("向下分屏");
    assert(is_ascii_text("Split Down"@));
    assert("向下分屏"@[0] == '\u{5411}');
    assert(("向下分屏"@[0] as u32) >= 128);
}

proof fn lemma_texts_tab_split_up()
    ensures
        en_us_text(MessageId::TabSplitUp) == "Split Up"@,
        zh_cn_text(MessageId::TabSplitUp) == "向上分屏"@,
        is_ascii_text(en_us_text(MessageId::TabSplitUp)),
        keeps_english_text(MessageId::TabSplitUp) ==> zh_cn_text(MessageId::TabSplitUp) == en_us_text(MessageId::TabSplitUp),
        !keeps_english_text(MessageId::TabSplitUp) ==> has_non_ascii(zh_cn_text(MessageId::TabSplitUp)),
{
    reveal_strlit("Split Up");
    reveal_strlit("向上分屏");
    assert(is_ascii_text("Split Up"@));
    assert("向上分屏"@[0] == '\u{5411}');
    assert(("向上分屏"@[0] as u32) >= 128);
}

proof fn lemma_texts_tab_move_left()
    ensures
        en_us_text(MessageId::TabMoveLeft) == "Move Tab Left"@,
        zh_cn_text(MessageId::TabMoveLeft) == "向左移动标签页"@,
        is_ascii_text(en_us_text(MessageId::TabMoveLeft)),
        keeps_english_text(MessageId::TabMoveLeft) ==> zh_cn_text(MessageId::TabMoveLeft) == en_us_text(MessageId::TabMoveLeft),
        !keeps_english_text(MessageId::TabMoveLeft) ==> has_non_ascii(zh_cn_text(MessageId::TabMoveLeft)),
{
    reveal_strlit("Move Tab Left");
    reveal_strlit("向左移动标签页");
    assert(is_ascii_text("Move Tab Left"@));
    assert("向左移动标签页"@[0] == '\u{5411}');
    assert(("向左移动标签页"@[0] as u32) >= 128);
}

proof fn lemma_texts_tab_move_right()
    ensures
        en_us_text(MessageId::TabMoveRight) == "Move Tab Right"@,
        zh_cn_text(MessageId::TabMoveRight) == "向右移动标签页"@,
        is_ascii_text(en_us_text(MessageId::TabMoveRight)),
        keeps_english_text(MessageId::TabMoveRight) ==> zh_cn_text(MessageId::TabMoveRight) == en_us_text(MessageId::TabMoveRight),
        !keeps_english_text(MessageId::TabMoveRight) ==> has_non_ascii(zh_cn_text(MessageId::TabMoveRight)),
{
    reveal_strlit("Move Tab Right");
    reveal_strlit("向右移动标签页");
    assert(is_ascii_text("Move Tab Right"@));
    assert("向右移动标签页"@[0] == '\u{5411}');
    assert(("向右移动标签页"@[0] as u32) >= 128);
}

proof fn lemma_texts_tab_cycle_next()
    ensures
        en_us_text(MessageId::TabCycleNext) == "Next Tab"@,
        zh_cn_text(MessageId::TabCycleNext) == "下一个标签页"@,
        is_ascii_text(en_us_text(MessageId::TabCycleNext)),
        keeps_english_text(MessageId::TabCycleNext) ==> zh_cn_text(MessageId::TabCycleNext) == en_us_text(MessageId::TabCycleNext),
        !keeps_english_text(MessageId::TabCycleNext) ==> has_non_ascii(zh_cn_text(MessageId::TabCycleNext)),
{
    reveal_strlit("Next Tab");
    reveal_strlit("下一个标签页");
    assert(is_ascii_text("Next Tab"@));
    assert("下一个标签页"@[0] == '\u{4e0b}');
    assert(("下一个标签页"@[0] as u32) >= 128);
}

proof fn lemma_texts_tab_cycle_prev()
    ensures
        en_us_text(MessageId::TabCyclePrev) == "Previous Tab"@,
        zh_cn_text(MessageId::TabCyclePrev) == "上一个标签页"@,
        is_ascii_text(en_us_text(MessageId::TabCyclePrev)),
        keeps_english_text(MessageId::TabCyclePrev) ==> zh_cn_text(MessageId::TabCyclePrev) == en_us_text(MessageId::TabCyclePrev),
        !keeps_english_text(MessageId::TabCyclePrev) ==> has_non_ascii(zh_cn_text(MessageId::TabCyclePrev)),
{
    reveal_strlit("Previous Tab");
    reveal_strlit("上一个标签页");
    assert(is_ascii_text("Previous Tab"@));
    assert("上一个标签页"@[0] == '\u{4e0a}');
    assert(("上一个标签页"@[0] as u32) >= 128);
}

proof fn lemma_texts_tab_activate_next_pane()
    ensures
        en_us_text(MessageId::TabActivateNextPane) == "Activate Next Pane"@,
        zh_cn_text(MessageId::TabActivateNextPane) == "激活下一个窗格"@,
        is_ascii_text(en_us_text(MessageId::TabActivateNextPane)),
        keeps_english_text(MessageId::TabActivateNextPane) ==> zh_cn_text(MessageId::TabActivateNextPane) == en_us_text(MessageId::TabActivateNextPane),
        !keeps_english_text(MessageId::TabActivateNextPane) ==> has_non_ascii(zh_cn_text(MessageId::TabActivateNextPane)),
{
    reveal_strlit("Activate Next Pane");
    reveal_strlit("激活下一个窗格");
    assert(is_ascii_text("Activate Next Pane"@));
    assert("激活下一个窗格"@[0] == '\u{6fc0}');
    assert(("激活下一个窗格"@[0] as u32) >= 128);
}

proof fn lemma_texts_tab_activate_prev_pane()
    ensures
        en_us_text(MessageId::TabActivatePrevPane) == "Activate Previous Pane"@,
        zh_cn_text(MessageId::TabActivatePrevPane) == "激活上一个窗格"@,
        is_ascii_text(en_us_text(MessageId::TabActivatePrevPane)),
        keeps_english_text(MessageId::TabActivatePrevPane) ==> zh_cn_text(MessageId::TabActivatePrevPane) == en_us_text(MessageId::TabActivatePrevPane),
        !keeps_english_text(MessageId::TabActivatePrevPane) ==> has_non_ascii(zh_cn_text(MessageId::TabActivatePrevPane)),
{
    reveal_strlit("Activate Previous Pane");
    reveal_strlit("激活上一个窗格");
    assert(is_ascii_text("Activate Previous Pane"@));
    assert("激活上一个窗格"@[0] == '\u{6fc0}');
    assert(("激活上一个窗格"@[0] as u32) >= 128);
}

proof fn lemma_texts_tab_maximize_pane()
    ensures
        en_us_text(MessageId::TabMaximizePane) == "Maximize Pane"@,
        zh_cn_text(MessageId::TabMaximizePane) == "最大化窗格"@,
        is_ascii_text(en_us_text(MessageId::TabMaximizePane)),
        keeps_english_text(MessageId::TabMaximizePane) ==> zh_cn_text(MessageId::TabMaximizePane) == en_us_text(MessageId::TabMaximizePane),
        !keeps_english_text(MessageId::TabMaximizePane) ==> has_non_ascii(zh_cn_text(MessageId::TabMaximizePane)),
{
    reveal_strlit("Maximize Pane");
    reveal_strlit("最大化窗格");
    assert(is_ascii_text("Maximize Pane"@));
    assert("最大化窗格"@[0] == '\u{6700}');
    assert(("最大化窗格"@[0] as u32) >= 128);
}

proof fn lemma_texts_tab_close()
    ensures
        en_us_text(MessageId::TabClose) == "Close Tab"@,
        zh_cn_text(MessageId::TabClose) == "关闭标签页"@,
        is_ascii_text(en_us_text(MessageId::TabClose)),
        keeps_english_text(MessageId::TabClose) ==> zh_cn_text(MessageId::TabClose) == en_us_text(MessageId::TabClose),
        !keeps_english_text(MessageId::TabClose) ==> has_non_ascii(zh_cn_text(MessageId::TabClose)),
{
    reveal_strlit("Close Tab");
    reveal_strlit("关闭标签页");
    assert(is_ascii_text("Close Tab"@));
    assert("关闭标签页"@[0] == '\u{5173}');
    assert(("关闭标签页"@[0] as u32) >= 128);
}

proof fn lemma_texts_tab_close_others()
    ensures
        en_us_text(MessageId::TabCloseOthers) == "Close Other Tabs"@,
        zh_cn_text(MessageId::TabCloseOthers) == "关闭其他标签页"@,
        is_ascii_text(en_us_text(MessageId::TabCloseOthers)),
        keeps_english_text(MessageId::TabCloseOthers) ==> zh_cn_text(MessageId::TabCloseOthers) == en_us_text(MessageId::TabCloseOthers),
        !keeps_english_text(MessageId::TabCloseOthers) ==> has_non_ascii(zh_cn_text(MessageId::TabCloseOthers)),
{
    reveal_strlit("Close Other Tabs");
    reveal_strlit("关闭其他标签页");
    assert(is_ascii_text("Close Other Tabs"@));
    assert("关闭其他标签页"@[0] == '\u{5173}');
    assert(("关闭其他标签页"@[0] as u32) >= 128);
}

proof fn lemma_texts_tab_close_right()
    ensures
        en_us_text(MessageId::TabCloseRight) == "Close Tabs to the Right"@,
        zh_cn_text(MessageId::TabCloseRight) == "关闭右侧标签页"@,
        is_ascii_text(en_us_text(MessageId::TabCloseRight)),
        keeps_english_text(MessageId::TabCloseRight) ==> zh_cn_text(MessageId::TabCloseRight) == en_us_text(MessageId::TabCloseRight),
        !keeps_english_text(MessageId::TabCloseRight) ==> has_non_ascii(zh_cn_text(MessageId::TabCloseRight)),
{
    reveal_strlit("Close Tabs to the Right");
    reveal_strlit("关闭右侧标签页");
    assert(is_ascii_text("Close Tabs to the Right"@));
    assert("关闭右侧标签页"@[0] == '\u{5173}');
    assert(("关闭右侧标签页"@[0] as u32) >= 128);
}

proof fn lemma_texts_blocks_clear()
    ensures
        en_us_text(MessageId::BlocksClear) == "Clear Blocks"@,
        zh_cn_text(MessageId::BlocksClear) == "清除块"@,
        is_ascii_text(en_us_text(MessageId::BlocksClear)),
        keeps_english_text(MessageId::BlocksClear) ==> zh_cn_text(MessageId::BlocksClear) == en_us_text(MessageId::BlocksClear),
        !keeps_english_text(MessageId::BlocksClear) ==> has_non_ascii(zh_cn_text(MessageId::BlocksClear)),
{
    reveal_strlit("Clear Blocks");
    reveal_strlit("清除块");
    assert(is_ascii_text("Clear Blocks"@));
    assert("清除块"@[0] == '\u{6e05}');
    assert(("清除块"@[0] as u32) >= 128);
}

proof fn lemma_texts_blocks_select_above()
    ensures
        en_us_text(MessageId::BlocksSelectAbove) == "Select Block Above"@,
        zh_cn_text(MessageId::BlocksSelectAbove) == "选择上方的块"@,
        is_ascii_text(en_us_text(MessageId::BlocksSelectAbove)),
        keeps_english_text(MessageId::BlocksSelectAbove) ==> zh_cn_text(MessageId::BlocksSelectAbove) == en_us_text(MessageId::BlocksSelectAbove),
        !keeps_english_text(MessageId::BlocksSelectAbove) ==> has_non_ascii(zh_cn_text(MessageId::BlocksSelectAbove)),
{
    reveal_strlit("Select Block Above");
    reveal_strlit("选择上方的块");
    assert(is_ascii_text("Select Block Above"@));
    assert("选择上方的块"@[0] == '\u{9009}');
    assert(("选择上方的块"@[0] as u32) >= 128);
}

proof fn lemma_texts_blocks_select_below()
    ensures
        en_us_text(MessageId::BlocksSelectBelow) == "Select Block Below"@,
        zh_cn_text(MessageId::BlocksSelectBelow) == "选择下方的块"@,
        is_ascii_text(en_us_text(MessageId::BlocksSelectBelow)),
        keeps_english_text(MessageId::BlocksSelectBelow) ==> zh_cn_text(MessageId::BlocksSelectBelow) == en_us_text(MessageId::BlocksSelectBelow),
        !keeps_english_text(MessageId::BlocksSelectBelow) ==> has_non_ascii(zh_cn_text(MessageId::BlocksSelectBelow)),
{
    reveal_strlit("Select Block Below");
    reveal_strlit("选择下方的块");
    assert(is_ascii_text("Select Block Below"@));
    assert("选择下方的块"@[0] == '\u{9009}');
    assert(("选择下方的块"@[0] as u32) >= 128);
}

proof fn lemma_texts_blocks_select_all()
    ensures
        en_us_text(MessageId::BlocksSelectAll) == "Select All Blocks"@,
        zh_cn_text(MessageId::BlocksSelectAll) == "选择所有块"@,
        is_ascii_text(en_us_text(MessageId::BlocksSelectAll)),
        keeps_english_text(MessageId::BlocksSelectAll) ==> zh_cn_text(MessageId::BlocksSelectAll) == en_us_text(MessageId::BlocksSelectAll),
        !keeps_english_text(MessageId::BlocksSelectAll) ==> has_non_ascii(zh_cn_text(MessageId::BlocksSelectAll)),
{
    reveal_strlit("Select All Blocks");
    reveal_strlit("选择所有块");
    assert(is_ascii_text("Select All Blocks"@));
    assert("选择所有块"@[0] == '\u{9009}');
    assert(("选择所有块"@[0] as u32) >= 128);
}

proof fn lemma_texts_blocks_scroll_to_top()
    ensures
        en_us_text(MessageId::BlocksScrollToTop) == "Scroll to Top of Selected Blocks"@,
        zh_cn_text(MessageId::BlocksScrollToTop) == "滚动到选中块顶部"@,
        is_ascii_text(en_us_text(MessageId::BlocksScrollToTop)),
        keeps_english_text(MessageId::BlocksScrollToTop) ==> zh_cn_text(MessageId::BlocksScrollToTop) == en_us_text(MessageId::BlocksScrollToTop),
        !keeps_english_text(MessageId::BlocksScrollToTop) ==> has_non_ascii(zh_cn_text(MessageId::BlocksScrollToTop)),
{
    reveal_strlit("Scroll to Top of Selected Blocks");
    reveal_strlit("滚动到选中块顶部");
    assert(is_ascii_text("Scroll to Top of Selected Blocks"@));
    assert("滚动到选中块顶部"@[0] == '\u{6eda}');
    assert(("滚动到选中块顶部"@[0] as u32) >= 128);
}

proof fn lemma_texts_blocks_scroll_to_bottom()
    ensures
        en_us_text(MessageId::BlocksScrollToBottom) == "Scroll to Bottom of Selected Blocks"@,
        zh_cn_text(MessageId::BlocksScrollToBottom) == "滚动到选中块底部"@,
        is_ascii_text(en_us_text(MessageId::BlocksScrollToBottom)),
        keeps_english_text(MessageId::BlocksScrollToBottom) ==> zh_cn_text(MessageId::BlocksScrollToBottom) == en_us_text(MessageId::BlocksScrollToBottom),
        !keeps_english_text(MessageId::BlocksScrollToBottom) ==> has_non_ascii(zh_cn_text(MessageId::BlocksScrollToBottom)),
{
    reveal_strlit("Scroll to Bottom of Selected Blocks");
    reveal_strlit("滚动到选中块底部");
    assert(is_ascii_text("Scroll to Bottom of Selected Blocks"@));
    assert("滚动到选中块底部"@[0] == '\u{6eda}');
    assert(("滚动到选中块底部"@[0] as u32) >= 128);
}

proof fn lemma_texts_blocks_create_permalink()
    ensures
        en_us_text(MessageId::BlocksCreatePermalink) == "Create Block Permalink"@,
        zh_cn_text(MessageId::BlocksCreatePermalink) == "创建块永久链接"@,
        is_ascii_text(en_us_text(MessageId::BlocksCreatePermalink)),
        keeps_english_text(MessageId::BlocksCreatePermalink) ==> zh_cn_text(MessageId::BlocksCreatePermalink) == en_us_text(MessageId::BlocksCreatePermalink),
        !keeps_english_text(MessageId::BlocksCreatePermalink) ==> has_non_ascii(zh_cn_text(MessageId::BlocksCreatePermalink)),
{
    reveal_strlit("Create Block Permalink");
    reveal_strlit("创建块永久链接");
    assert(is_ascii_text("Create Block Permalink"@));
    assert("创建块永久链接"@[0] == '\u{521b}');
    assert(("创建块永久链接"@[0] as u32) >= 128);
}

proof fn lemma_texts_blocks_toggle_bookmark()
    ensures
        en_us_text(MessageId::BlocksToggleBookmark) == "Toggle Bookmark"@,
        zh_cn_text(MessageId::BlocksToggleBookmark) == "切换书签"@,
        is_ascii_text(en_us_text(MessageId::BlocksToggleBookmark)),
        keeps_english_text(MessageId::BlocksToggleBookmark) ==> zh_cn_text(MessageId::BlocksToggleBookmark) == en_us_text(MessageId::BlocksToggleBookmark),
        !keeps_english_text(MessageId::BlocksToggleBookmark) ==> has_non_ascii(zh_cn_text(MessageId::BlocksToggleBookmark)),
{
    reveal_strlit("Toggle Bookmark");
    reveal_strlit("切换书签");
    assert(is_ascii_text("Toggle Bookmark"@));
    assert("切换书签"@[0] == '\u{5207}');
    assert(("切换书签"@[0] as u32) >= 128);
}

proof fn lemma_texts_blocks_find_within()
    ensures
        en_us_text(MessageId::BlocksFindWithin) == "Find Within Block"@,
        zh_cn_text(MessageId::BlocksFindWithin) == "在块内查找"@,
        is_ascii_text(en_us_text(MessageId::BlocksFindWithin)),
        keeps_english_text(MessageId::BlocksFindWithin) ==> zh_cn_text(MessageId::BlocksFindWithin) == en_us_text(MessageId::BlocksFindWithin),
        !keeps_english_text(MessageId::BlocksFindWithin) ==> has_non_ascii(zh_cn_text(MessageId::BlocksFindWithin)),
{
    reveal_strlit("Find Within Block");
    reveal_strlit("在块内查找");
    assert(is_ascii_text("Find Within Block"@));
    assert("在块内查找"@[0] == '\u{5728}');
    assert(("在块内查找"@[0] as u32) >= 128);
}

proof fn lemma_texts_blocks_copy()
    ensures
        en_us_text(MessageId::BlocksCopy) == "Copy Block"@,
        zh_cn_text(MessageId::BlocksCopy) == "复制块"@,
        is_ascii_text(en_us_text(MessageId::BlocksCopy)),
        keeps_english_text(MessageId::BlocksCopy) ==> zh_cn_text(MessageId::BlocksCopy) == en_us_text(MessageId::BlocksCopy),
        !keeps_english_text(MessageId::BlocksCopy) ==> has_non_ascii(zh_cn_text(MessageId::BlocksCopy)),
{
    reveal_strlit("Copy Block");
    reveal_strlit("复制块");
    assert(is_ascii_text("Copy Block"@));
    assert("复制块"@[0] == '\u{590d}');
    assert(("复制块"@[0] as u32) >= 128);
}

proof fn lemma_texts_blocks_copy_command()
    ensures
        en_us_text(MessageId::BlocksCopyCommand) == "Copy Block Command"@,
        zh_cn_text(MessageId::BlocksCopyCommand) == "复制块命令"@,
        is_ascii_text(en_us_text(MessageId::BlocksCopyCommand)),
        keeps_english_text(MessageId::BlocksCopyCommand) ==> zh_cn_text(MessageId::BlocksCopyCommand) == en_us_text(MessageId::BlocksCopyCommand),
        !keeps_english_text(MessageId::BlocksCopyCommand) ==> has_non_ascii(zh_cn_text(MessageId::BlocksCopyCommand)),
{
    reveal_strlit("Copy Block Command");
    reveal_strlit("复制块命令");
    assert(is_ascii_text("Copy Block Command"@));
    assert("复制块命令"@[0] == '\u{590d}');
    assert(("复制块命令"@[0] as u32) >= 128);
}

proof fn lemma_texts_blocks_copy_output()
    ensures
        en_us_text(MessageId::BlocksCopyOutput) == "Copy Block Output"@,
        zh_cn_text(MessageId::BlocksCopyOutput) == "复制块输出"@,
        is_ascii_text(en_us_text(MessageId::BlocksCopyOutput)),
        keeps_english_text(MessageId::BlocksCopyOutput) ==> zh_cn_text(MessageId::BlocksCopyOutput) == en_us_text(MessageId::BlocksCopyOutput),
        !keeps_english_text(MessageId::BlocksCopyOutput) ==> has_non_ascii(zh_cn_text(MessageId::BlocksCopyOutput)),
{
    reveal_strlit("Copy Block Output");
    reveal_strlit("复制块输出");
    assert(is_ascii_text("Copy Block Output"@));
    assert("复制块输出"@[0] == '\u{590d}');
    assert(("复制块输出"@[0] as u32) >= 128);
}

proof fn lemma_texts_blocks_view_shared()
    ensures
        en_us_text(MessageId::BlocksViewShared) == "View Shared Blocks"@,
        zh_cn_text(MessageId::BlocksViewShared) == "查看共享块"@,
        is_ascii_text(en_us_text(MessageId::BlocksViewShared)),
        keeps_english_text(MessageId::BlocksViewShared) ==> zh_cn_text(MessageId::BlocksViewShared) == en_us_text(MessageId::BlocksViewShared),
        !keeps_english_text(MessageId::BlocksViewShared) ==> has_non_ascii(zh_cn_text(MessageId::BlocksViewShared)),
{
    reveal_strlit("View Shared Blocks");
    reveal_strlit("查看共享块");
    assert(is_ascii_text("View Shared Blocks"@));
    assert("查看共享块"@[0] == '\u{67e5}');
    assert(("查看共享块"@[0] as u32) >= 128);
}

proof fn lemma_texts_ai_new_agent_mode()
    ensures
        en_us_text(MessageId::AiNewAgentMode) == "New Agent Mode Pane"@,
        zh_cn_text(MessageId::AiNewAgentMode) == "新建智能体模式窗格"@,
        is_ascii_text(en_us_text(MessageId::AiNewAgentMode)),
        keeps_english_text(MessageId::AiNewAgentMode) ==> zh_cn_text(MessageId::AiNewAgentMode) == en_us_text(MessageId::AiNewAgentMode),
        !keeps_english_text(MessageId::AiNewAgentMode) ==> has_non_ascii(zh_cn_text(MessageId::AiNewAgentMode)),
{
    reveal_strlit("New Agent Mode Pane");
    reveal_strlit("新建智能体模式窗格");
    assert(is_ascii_text("New Agent Mode Pane"@));
    assert("新建智能体模式窗格"@[0] == '\u{65b0}');
    assert(("新建智能体模式窗格"@[0] as u32) >= 128);
}

proof fn lemma_texts_ai_attach_selection()
    ensures
        en_us_text(MessageId::AiAttachSelection) == "Attach Selection as Context"@,
        zh_cn_text(MessageId::AiAttachSelection) == "附加选中内容作为上下文"@,
        is_ascii_text(en_us_text(MessageId::AiAttachSelection)),
        keeps_english_text(MessageId::AiAttachSelection) ==> zh_cn_text(MessageId::AiAttachSelection) == en_us_text(MessageId::AiAttachSelection),
        !keeps_english_text(MessageId::AiAttachSelection) ==> has_non_ascii(zh_cn_text(MessageId::AiAttachSelection)),
{
    reveal_strlit("Attach Selection as Context");
    reveal_strlit("附加选中内容作为上下文");
    assert(is_ascii_text("Attach Selection as Context"@));
    assert("附加选中内容作为上下文"@[0] == '\u{9644}');
    assert(("附加选中内容作为上下文"@[0] as u32) >= 128);
}

proof fn lemma_texts_ai_search()
    ensures
        en_us_text(MessageId::AiSearch) == "AI Search"@,
        zh_cn_text(MessageId::AiSearch) == "AI 搜索"@,
        is_ascii_text(en_us_text(MessageId::AiSearch)),
        keeps_english_text(MessageId::AiSearch) ==> zh_cn_text(MessageId::AiSearch) == en_us_text(MessageId::AiSearch),
        !keeps_english_text(MessageId::AiSearch) ==> has_non_ascii(zh_cn_text(MessageId::AiSearch)),
{
    reveal_strlit("AI Search");
    reveal_strlit("AI 搜索");
    assert(is_ascii_text("AI Search"@));
    assert("AI 搜索"@[3] == '\u{641c}');
    assert(("AI 搜索"@[3] as u32) >= 128);
}

proof fn lemma_texts_ai_open_fact_collection()
    ensures
        en_us_text(MessageId::AiOpenFactCollection) == "Open Fact Collection"@,
        zh_cn_text(MessageId::AiOpenFactCollection) == "打开知识库"@,
        is_ascii_text(en_us_text(MessageId::AiOpenFactCollection)),
        keeps_english_text(MessageId::AiOpenFactCollection) ==> zh_cn_text(MessageId::AiOpenFactCollection) == en_us_text(MessageId::AiOpenFactCollection),
        !keeps_english_text(MessageId::AiOpenFactCollection) ==> has_non_ascii(zh_cn_text(MessageId::AiOpenFactCollection)),
{
    reveal_strlit("Open Fact Collection");
    reveal_strlit("打开知识库");
    assert(is_ascii_text("Open Fact Collection"@));
    assert("打开知识库"@[0] == '\u{6253}');
    assert(("打开知识库"@[0] as u32) >= 128);
}

proof fn lemma_texts_ai_open_mcp_servers()
    ensures
        en_us_text(MessageId::AiOpenMcpServers) == "Open MCP Servers"@,
        zh_cn_text(MessageId::AiOpenMcpServers) == "打开 MCP 服务器"@,
        is_ascii_text(en_us_text(MessageId::AiOpenMcpServers)),
        keeps_english_text(MessageId::AiOpenMcpServers) ==> zh_cn_text(MessageId::AiOpenMcpServers) == en_us_text(MessageId::AiOpenMcpServers),
        !keeps_english_text(MessageId::AiOpenMcpServers) ==> has_non_ascii(zh_cn_text(MessageId::AiOpenMcpServers)),
{
    reveal_strlit("Open MCP Servers");
    reveal_strlit("打开 MCP 服务器");
    assert(is_ascii_text("Open MCP Servers"@));
    assert("打开 MCP 服务器"@[0] == '\u{6253}');
    assert(("打开 MCP 服务器"@[0] as u32) >= 128);
}

proof fn lemma_texts_drive_new_personal_workflow()
    ensures
        en_us_text(MessageId::DriveNewPersonalWorkflow) == "New Personal Workflow"@,
        zh_cn_text(MessageId::DriveNewPersonalWorkflow) == "新建个人工作流"@,
        is_ascii_text(en_us_text(MessageId::DriveNewPersonalWorkflow)),
        keeps_english_text(MessageId::DriveNewPersonalWorkflow) ==> zh_cn_text(MessageId::DriveNewPersonalWorkflow) == en_us_text(MessageId::DriveNewPersonalWorkflow),
        !keeps_english_text(MessageId::DriveNewPersonalWorkflow) ==> has_non_ascii(zh_cn_text(MessageId::DriveNewPersonalWorkflow)),
{
    reveal_strlit("New Personal Workflow");
    reveal_strlit("新建个人工作流");
    assert(is_ascii_text("New Personal Workflow"@));
    assert("新建个人工作流"@[0] == '\u{65b0}');
    assert(("新建个人工作流"@[0] as u32) >= 128);
}

proof fn lemma_texts_drive_new_personal_notebook()
    ensures
        en_us_text(MessageId::DriveNewPersonalNotebook) == "New Personal Notebook"@,
        zh_cn_text(MessageId::DriveNewPersonalNotebook) == "新建个人笔记本"@,
        is_ascii_text(en_us_text(MessageId::DriveNewPersonalNotebook)),
        keeps_english_text(MessageId::DriveNewPersonalNotebook) ==> zh_cn_text(MessageId::DriveNewPersonalNotebook) == en_us_text(MessageId::DriveNewPersonalNotebook),
        !keeps_english_text(MessageId::DriveNewPersonalNotebook) ==> has_non_ascii(zh_cn_text(MessageId::DriveNewPersonalNotebook)),
{
    reveal_strlit("New Personal Notebook");
    reveal_strlit("新建个人笔记本");
    assert(is_ascii_text("New Personal Notebook"@));
    assert("新建个人笔记本"@[0] == '\u{65b0}');
    assert(("新建个人笔记本"@[0] as u32) >= 128);
}

proof fn lemma_texts_drive_new_personal_a_i_prompt()
    ensures
        en_us_text(MessageId::DriveNewPersonalAIPrompt) == "New Personal AI Prompt"@,
        zh_cn_text(MessageId::DriveNewPersonalAIPrompt) == "新建个人 AI 提示词"@,
        is_ascii_text(en_us_text(MessageId::DriveNewPersonalAIPrompt)),
        keeps_english_text(MessageId::DriveNewPersonalAIPrompt) ==> zh_cn_text(MessageId::DriveNewPersonalAIPrompt) == en_us_text(MessageId::DriveNewPersonalAIPrompt),
        !keeps_english_text(MessageId::DriveNewPersonalAIPrompt) ==> has_non_ascii(zh_cn_text(MessageId::DriveNewPersonalAIPrompt)),
{
    reveal_strlit("New Personal AI Prompt");
    reveal_strlit("新建个人 AI 提示词");
    assert(is_ascii_text("New Personal AI Prompt"@));
    assert("新建个人 AI 提示词"@[0] == '\u{65b0}');
    assert(("新建个人 AI 提示词"@[0] as u32) >= 128);
}

proof fn lemma_texts_drive_new_personal_env_vars()
    ensures
        en_us_text(MessageId::DriveNewPersonalEnvVars) == "New Personal Env Variables"@,
        zh_cn_text(MessageId::DriveNewPersonalEnvVars) == "新建个人环境变量"@,
        is_ascii_text(en_us_text(MessageId::DriveNewPersonalEnvVars)),
        keeps_english_text(MessageId::DriveNewPersonalEnvVars) ==> zh_cn_text(MessageId::DriveNewPersonalEnvVars) == en_us_text(MessageId::DriveNewPersonalEnvVars),
        !keeps_english_text(MessageId::DriveNewPersonalEnvVars) ==> has_non_ascii(zh_cn_text(MessageId::DriveNewPersonalEnvVars)),
{
    reveal_strlit("New Personal Env Variables");
    reveal_strlit("新建个人环境变量");
    assert(is_ascii_text("New Personal Env Variables"@));
    assert("新建个人环境变量"@[0] == '\u{65b0}');
    assert(("新建个人环境变量"@[0] as u32) >= 128);
}

proof fn lemma_texts_drive_new_team_workflow()
    ensures
        en_us_text(MessageId::DriveNewTeamWorkflow) == "New Team Workflow"@,
        zh_cn_text(MessageId::DriveNewTeamWorkflow) == "新建团队工作流"@,
        is_ascii_text(en_us_text(MessageId::DriveNewTeamWorkflow)),
        keeps_english_text(MessageId::DriveNewTeamWorkflow) ==> zh_cn_text(MessageId::DriveNewTeamWorkflow) == en_us_text(MessageId::DriveNewTeamWorkflow),
        !keeps_english_text(MessageId::DriveNewTeamWorkflow) ==> has_non_ascii(zh_cn_text(MessageId::DriveNewTeamWorkflow)),
{
    reveal_strlit("New Team Workflow");
    reveal_strlit("新建团队工作流");
    assert(is_ascii_text("New Team Workflow"@));
    assert("新建团队工作流"@[0] == '\u{65b0}');
    assert(("新建团队工作流"@[0] as u32) >= 128);
}

proof fn lemma_texts_drive_new_team_notebook()
    ensures
        en_us_text(MessageId::DriveNewTeamNotebook) == "New Team Notebook"@,
        zh_cn_text(MessageId::DriveNewTeamNotebook) == "新建团队笔记本"@,
        is_ascii_text(en_us_text(MessageId::DriveNewTeamNotebook)),
        keeps_english_text(MessageId::DriveNewTeamNotebook) ==> zh_cn_text(MessageId::DriveNewTeamNotebook) == en_us_text(MessageId::DriveNewTeamNotebook),
        !keeps_english_text(MessageId::DriveNewTeamNotebook) ==> has_non_ascii(zh_cn_text(MessageId::DriveNewTeamNotebook)),
{
    reveal_strlit("New Team Notebook");
    reveal_strlit("新建团队笔记本");
    assert(is_ascii_text("New Team Notebook"@));
    assert("新建团队笔记本"@[0] == '\u{65b0}');
    assert(("新建团队笔记本"@[0] as u32) >= 128);
}

proof fn lemma_texts_drive_new_team_a_i_prompt()
    ensures
        en_us_text(MessageId::DriveNewTeamAIPrompt) == "New Team AI Prompt"@,
        zh_cn_text(MessageId::DriveNewTeamAIPrompt) == "新建团队 AI 提示词"@,
        is_ascii_text(en_us_text(MessageId::DriveNewTeamAIPrompt)),
        keeps_english_text(MessageId::DriveNewTeamAIPrompt) ==> zh_cn_text(MessageId::DriveNewTeamAIPrompt) == en_us_text(MessageId::DriveNewTeamAIPrompt),
        !keeps_english_text(MessageId::DriveNewTeamAIPrompt) ==> has_non_ascii(zh_cn_text(MessageId::DriveNewTeamAIPrompt)),
{
    reveal_strlit("New Team AI Prompt");
    reveal_strlit("新建团队 AI 提示词");
    assert(is_ascii_text("New Team AI Prompt"@));
    assert("新建团队 AI 提示词"@[0] == '\u{65b0}');
    assert(("新建团队 AI 提示词"@[0] as u32) >= 128);
}

proof fn lemma_texts_drive_new_team_env_vars()
    ensures
        en_us_text(MessageId::DriveNewTeamEnvVars) == "New Team Env Variables"@,
        zh_cn_text(MessageId::DriveNewTeamEnvVars) == "新建团队环境变量"@,
        is_ascii_text(en_us_text(MessageId::DriveNewTeamEnvVars)),
        keeps_english_text(MessageId::DriveNewTeamEnvVars) ==> zh_cn_text(MessageId::DriveNewTeamEnvVars) == en_us_text(MessageId::DriveNewTeamEnvVars),
        !keeps_english_text(MessageId::DriveNewTeamEnvVars) ==> has_non_ascii(zh_cn_text(MessageId::DriveNewTeamEnvVars)),
{
    reveal_strlit("New Team Env Variables");
    reveal_strlit("新建团队环境变量");
    assert(is_ascii_text("New Team Env Variables"@));
    assert("新建团队环境变量"@[0] == '\u{65b0}');
    assert(("新建团队环境变量"@[0] as u32) >= 128);
}

proof fn lemma_texts_drive_search()
    ensures
        en_us_text(MessageId::DriveSearch) == "Search Drive"@,
        zh_cn_text(MessageId::DriveSearch) == "搜索云盘"@,
        is_ascii_text(en_us_text(MessageId::DriveSearch)),
        keeps_english_text(MessageId::DriveSearch) ==> zh_cn_text(MessageId::DriveSearch) == en_us_text(MessageId::DriveSearch),
        !keeps_english_text(MessageId::DriveSearch) ==> has_non_ascii(zh_cn_text(MessageId::DriveSearch)),
{
    reveal_strlit("Search Drive");
    reveal_strlit("搜索云盘");
    assert(is_ascii_text("Search Drive"@));
    assert("搜索云盘"@[0] == '\u{641c}');
    assert(("搜索云盘"@[0] as u32) >= 128);
}

proof fn lemma_texts_drive_open_team_settings()
    ensures
        en_us_text(MessageId::DriveOpenTeamSettings) == "Open Team Settings"@,
        zh_cn_text(MessageId::DriveOpenTeamSettings) == "打开团队设置"@,
        is_ascii_text(en_us_text(MessageId::DriveOpenTeamSettings)),
        keeps_english_text(MessageId::DriveOpenTeamSettings) ==> zh_cn_text(MessageId::DriveOpenTeamSettings) == en_us_text(MessageId::DriveOpenTeamSettings),
        !keeps_english_text(MessageId::DriveOpenTeamSettings) ==> has_non_ascii(zh_cn_text(MessageId::DriveOpenTeamSettings)),
{
    reveal_strlit("Open Team Settings");
    reveal_strlit("打开团队设置");
    assert(is_ascii_text("Open Team Settings"@));
    assert("打开团队设置"@[0] == '\u{6253}');
    assert(("打开团队设置"@[0] as u32) >= 128);
}

proof fn lemma_texts_drive_share_pane_contents()
    ensures
        en_us_text(MessageId::DriveSharePaneContents) == "Share Pane Contents"@,
        zh_cn_text(MessageId::DriveSharePaneContents) == "分享窗格内容"@,
        is_ascii_text(en_us_text(MessageId::DriveSharePaneContents)),
        keeps_english_text(MessageId::DriveSharePaneContents) ==> zh_cn_text(MessageId::DriveSharePaneContents) == en_us_text(MessageId::DriveSharePaneContents),
        !keeps_english_text(MessageId::DriveSharePaneContents) ==> has_non_ascii(zh_cn_text(MessageId::DriveSharePaneContents)),
{
    reveal_strlit("Share Pane Contents");
    reveal_strlit("分享窗格内容");
    assert(is_ascii_text("Share Pane Contents"@));
    assert("分享窗格内容"@[0] == '\u{5206}');
    assert(("分享窗格内容"@[0] as u32) >= 128);
}

proof fn lemma_texts_drive_share_session()
    ensures
        en_us_text(MessageId::DriveShareSession) == "Share Current Session"@,
        zh_cn_text(MessageId::DriveShareSession) == "分享当前会话"@,
        is_ascii_text(en_us_text(MessageId::DriveShareSession)),
        keeps_english_text(MessageId::DriveShareSession) ==> zh_cn_text(MessageId::DriveShareSession) == en_us_text(MessageId::DriveShareSession),
        !keeps_english_text(MessageId::DriveShareSession) ==> has_non_ascii(zh_cn_text(MessageId::DriveShareSession)),
{
    reveal_strlit("Share Current Session");
    reveal_strlit("分享当前会话");
    assert(is_ascii_text("Share Current Session"@));
    assert("分享当前会话"@[0] == '\u{5206}');
    assert(("分享当前会话"@[0] as u32) >= 128);
}

proof fn lemma_texts_app_show_about_warp()
    ensures
        en_us_text(MessageId::AppShowAboutWarp) == "About Warp"@,
        zh_cn_text(MessageId::AppShowAboutWarp) == "关于 Warp"@,
        is_ascii_text(en_us_text(MessageId::AppShowAboutWarp)),
        keeps_english_text(MessageId::AppShowAboutWarp) ==> zh_cn_text(MessageId::AppShowAboutWarp) == en_us_text(MessageId::AppShowAboutWarp),
        !keeps_english_text(MessageId::AppShowAboutWarp) ==> has_non_ascii(zh_cn_text(MessageId::AppShowAboutWarp)),
{
    reveal_strlit("About Warp");
    reveal_strlit("关于 Warp");
    assert(is_ascii_text("About Warp"@));
    assert("关于 Warp"@[0] == '\u{5173}');
    assert(("关于 Warp"@[0] as u32) >= 128);
}

proof fn lemma_texts_app_toggle_resource_center()
    ensures
        en_us_text(MessageId::AppToggleResourceCenter) == "Resource Center"@,
        zh_cn_text(MessageId::AppToggleResourceCenter) == "资源中心"@,
        is_ascii_text(en_us_text(MessageId::AppToggleResourceCenter)),
        keeps_english_text(MessageId::AppToggleResourceCenter) ==> zh_cn_text(MessageId::AppToggleResourceCenter) == en_us_text(MessageId::AppToggleResourceCenter),
        !keeps_english_text(MessageId::AppToggleResourceCenter) ==> has_non_ascii(zh_cn_text(MessageId::AppToggleResourceCenter)),
{
    reveal_strlit("Resource Center");
    reveal_strlit("资源中心");
    assert(is_ascii_text("Resource Center"@));
    assert("资源中心"@[0] == '\u{8d44}');
    assert(("资源中心"@[0] as u32) >= 128);
}

proof fn lemma_texts_app_refer_a_friend()
    ensures
        en_us_text(MessageId::AppReferAFriend) == "Refer a Friend"@,
        zh_cn_text(MessageId::AppReferAFriend) == "邀请好友"@,
        is_ascii_text(en_us_text(MessageId::AppReferAFriend)),
        keeps_english_text(MessageId::AppReferAFriend) ==> zh_cn_text(MessageId::AppReferAFriend) == en_us_text(MessageId::AppReferAFriend),
        !keeps_english_text(MessageId::AppReferAFriend) ==> has_non_ascii(zh_cn_text(MessageId::AppReferAFriend)),
{
    reveal_strlit("Refer a Friend");
    reveal_strlit("邀请好友");
    assert(is_ascii_text("Refer a Friend"@));
    assert("邀请好友"@[0] == '\u{9080}');
    assert(("邀请好友"@[0] as u32) >= 128);
}

proof fn lemma_texts_app_show_settings()
    ensures
        en_us_text(MessageId::AppShowSettings) == "Settings"@,
        zh_cn_text(MessageId::AppShowSettings) == "设置"@,
        is_ascii_text(en_us_text(MessageId::AppShowSettings)),
        keeps_english_text(MessageId::AppShowSettings) ==> zh_cn_text(MessageId::AppShowSettings) == en_us_text(MessageId::AppShowSettings),
        !keeps_english_text(MessageId::AppShowSettings) ==> has_non_ascii(zh_cn_text(MessageId::AppShowSettings)),
{
    reveal_strlit("Settings");
    reveal_strlit("设置");
    assert(is_ascii_text("Settings"@));
    assert("设置"@[0] == '\u{8bbe}');
    assert(("设置"@[0] as u32) >= 128);
}

proof fn lemma_texts_app_toggle_keybindings()
    ensures
        en_us_text(MessageId::AppToggleKeybindings) == "Keybindings"@,
        zh_cn_text(MessageId::AppToggleKeybindings) == "快捷键"@,
        is_ascii_text(en_us_text(MessageId::AppToggleKeybindings)),
        keeps_english_text(MessageId::AppToggleKeybindings) ==> zh_cn_text(MessageId::AppToggleKeybindings) == en_us_text(MessageId::AppToggleKeybindings),
        !keeps_english_text(MessageId::AppToggleKeybindings) ==> has_non_ascii(zh_cn_text(MessageId::AppToggleKeybindings)),
{
    reveal_strlit("Keybindings");
    reveal_strlit("快捷键");
    assert(is_ascii_text("Keybindings"@));
    assert("快捷键"@[0] == '\u{5feb}');
    assert(("快捷键"@[0] as u32) >= 128);
}

proof fn lemma_texts_app_configure_keybindings()
    ensures
        en_us_text(MessageId::AppConfigureKeybindings) == "Configure Keybindings"@,
        zh_cn_text(MessageId::AppConfigureKeybindings) == "配置快捷键"@,
        is_ascii_text(en_us_text(MessageId::AppConfigureKeybindings)),
        keeps_english_text(MessageId::AppConfigureKeybindings) ==> zh_cn_text(MessageId::AppConfigureKeybindings) == en_us_text(MessageId::AppConfigureKeybindings),
        !keeps_english_text(MessageId::AppConfigureKeybindings) ==> has_non_ascii(zh_cn_text(MessageId::AppConfigureKeybindings)),
{
    reveal_strlit("Configure Keybindings");
    reveal_strlit("配置快捷键");
    assert(is_ascii_text("Configure Keybindings"@));
    assert("配置快捷键"@[0] == '\u{914d}');
    assert(("配置快捷键"@[0] as u32) >= 128);
}

proof fn lemma_texts_app_show_appearance()
    ensures
        en_us_text(MessageId::AppShowAppearance) == "Appearance"@,
        zh_cn_text(MessageId::AppShowAppearance) == "外观"@,
        is_ascii_text(en_us_text(MessageId::AppShowAppearance)),
        keeps_english_text(MessageId::AppShowAppearance) ==> zh_cn_text(MessageId::AppShowAppearance) == en_us_text(MessageId::AppShowAppearance),
        !keeps_english_text(MessageId::AppShowAppearance) ==> has_non_ascii(zh_cn_text(MessageId::AppShowAppearance)),
{
    reveal_strlit("Appearance");
    reveal_strlit("外观");
    assert(is_ascii_text("Appearance"@));
    assert("外观"@[0] == '\u{5916}');
    assert(("外观"@[0] as u32) >= 128);
}

proof fn lemma_texts_app_view_changelog()
    ensures
        en_us_text(MessageId::AppViewChangelog) == "View Changelog"@,
        zh_cn_text(MessageId::AppViewChangelog) == "查看更新日志"@,
        is_ascii_text(en_us_text(MessageId::AppViewChangelog)),
        keeps_english_text(MessageId::AppViewChangelog) ==> zh_cn_text(MessageId::AppViewChangelog) == en_us_text(MessageId::AppViewChangelog),
        !keeps_english_text(MessageId::AppViewChangelog) ==> has_non_ascii(zh_cn_text(MessageId::AppViewChangelog)),
{
    reveal_strlit("View Changelog");
    reveal_strlit("查看更新日志");
    assert(is_ascii_text("View Changelog"@));
    assert("查看更新日志"@[0] == '\u{67e5}');
    assert(("查看更新日志"@[0] as u32) >= 128);
}

proof fn lemma_texts_sync_all_terminal_inputs()
    ensures
        en_us_text(MessageId::SyncAllTerminalInputs) == "Sync All Terminal Inputs in All Tabs"@,
        zh_cn_text(MessageId::SyncAllTerminalInputs) == "同步所有标签页的终端输入"@,
        is_ascii_text(en_us_text(MessageId::SyncAllTerminalInputs)),
        keeps_english_text(MessageId::SyncAllTerminalInputs) ==> zh_cn_text(MessageId::SyncAllTerminalInputs) == en_us_text(MessageId::SyncAllTerminalInputs),
        !keeps_english_text(MessageId::SyncAllTerminalInputs) ==> has_non_ascii(zh_cn_text(MessageId::SyncAllTerminalInputs)),
{
    reveal_strlit("Sync All Terminal Inputs in All Tabs");
    reveal_strlit("同步所有标签页的终端输入");
    assert(is_ascii_text("Sync All Terminal Inputs in All Tabs"@));
    assert("同步所有标签页的终端输入"@[0] == '\u{540c}');
    assert(("同步所有标签页的终端输入"@[0] as u32) >= 128);
}

proof fn lemma_texts_sync_terminal_inputs_current_tab()
    ensures
        en_us_text(MessageId::SyncTerminalInputsCurrentTab) == "Sync Terminal Inputs in Current Tab"@,
        zh_cn_text(MessageId::SyncTerminalInputsCurrentTab) == "同步当前标签页的终端输入"@,
        is_ascii_text(en_us_text(MessageId::SyncTerminalInputsCurrentTab)),
        keeps_english_text(MessageId::SyncTerminalInputsCurrentTab) ==> zh_cn_text(MessageId::SyncTerminalInputsCurrentTab) == en_us_text(MessageId::SyncTerminalInputsCurrentTab),
        !keeps_english_text(MessageId::SyncTerminalInputsCurrentTab) ==> has_non_ascii(zh_cn_text(MessageId::SyncTerminalInputsCurrentTab)),
{
    reveal_strlit("Sync Terminal Inputs in Current Tab");
    reveal_strlit("同步当前标签页的终端输入");
    assert(is_ascii_text("Sync Terminal Inputs in Current Tab"@));
    assert("同步当前标签页的终端输入"@[0] == '\u{540c}');
    assert(("同步当前标签页的终端输入"@[0] as u32) >= 128);
}

proof fn lemma_texts_disable_sync_inputs()
    ensures
        en_us_text(MessageId::DisableSyncInputs) == "Disable Sync Inputs"@,
        zh_cn_text(MessageId::DisableSyncInputs) == "禁用同步输入"@,
        is_ascii_text(en_us_text(MessageId::DisableSyncInputs)),
        keeps_english_text(MessageId::DisableSyncInputs) ==> zh_cn_text(MessageId::DisableSyncInputs) == en_us_text(MessageId::DisableSyncInputs),
        !keeps_english_text(MessageId::DisableSyncInputs) ==> has_non_ascii(zh_cn_text(MessageId::DisableSyncInputs)),
{
    reveal_strlit("Disable Sync Inputs");
    reveal_strlit("禁用同步输入");
    assert(is_ascii_text("Disable Sync Inputs"@));
    assert("禁用同步输入"@[0] == '\u{7981}');
    assert(("禁用同步输入"@[0] as u32) >= 128);
}

proof fn lemma_texts_file_open_repository()
    ensures
        en_us_text(MessageId::FileOpenRepository) == "Open Repository"@,
        zh_cn_text(MessageId::FileOpenRepository) == "打开仓库"@,
        is_ascii_text(en_us_text(MessageId::FileOpenRepository)),
        keeps_english_text(MessageId::FileOpenRepository) ==> zh_cn_text(MessageId::FileOpenRepository) == en_us_text(MessageId::FileOpenRepository),
        !keeps_english_text(MessageId::FileOpenRepository) ==> has_non_ascii(zh_cn_text(MessageId::FileOpenRepository)),
{
    reveal_strlit("Open Repository");
    reveal_strlit("打开仓库");
    assert(is_ascii_text("Open Repository"@));
    assert("打开仓库"@[0] == '\u{6253}');
    assert(("打开仓库"@[0] as u32) >= 128);
}

proof fn lemma_texts_add_window()
    ensures
        en_us_text(MessageId::AddWindow) == "Add Window"@,
        zh_cn_text(MessageId::AddWindow) == "新建窗口"@,
        is_ascii_text(en_us_text(MessageId::AddWindow)),
        keeps_english_text(MessageId::AddWindow) ==> zh_cn_text(MessageId::AddWindow) == en_us_text(MessageId::AddWindow),
        !keeps_english_text(MessageId::AddWindow) ==> has_non_ascii(zh_cn_text(MessageId::AddWindow)),
{
    reveal_strlit("Add Window");
    reveal_strlit("新建窗口");
    assert(is_ascii_text("Add Window"@));
    assert("新建窗口"@[0] == '\u{65b0}');
    assert(("新建窗口"@[0] as u32) >= 128);
}

proof fn lemma_texts_settings_sign_up()
    ensures
        en_us_text(MessageId::SettingsSignUp) == "Sign up"@,
        zh_cn_text(MessageId::SettingsSignUp) == "注册"@,
        is_ascii_text(en_us_text(MessageId::SettingsSignUp)),
        keeps_english_text(MessageId::SettingsSignUp) ==> zh_cn_text(MessageId::SettingsSignUp) == en_us_text(MessageId::SettingsSignUp),
        !keeps_english_text(MessageId::SettingsSignUp) ==> has_non_ascii(zh_cn_text(MessageId::SettingsSignUp)),
{
    reveal_strlit("Sign up");
    reveal_strlit("注册");
    assert(is_ascii_text("Sign up"@));
    assert("注册"@[0] == '\u{6ce8}');
    assert(("注册"@[0] as u32) >= 128);
}

proof fn lemma_texts_settings_free()
    ensures
        en_us_text(MessageId::SettingsFree) == "Free"@,
        zh_cn_text(MessageId::SettingsFree) == "免费版"@,
        is_ascii_text(en_us_text(MessageId::SettingsFree)),
        keeps_english_text(MessageId::SettingsFree) ==> zh_cn_text(MessageId::SettingsFree) == en_us_text(MessageId::SettingsFree),
        !keeps_english_text(MessageId::SettingsFree) ==> has_non_ascii(zh_cn_text(MessageId::SettingsFree)),
{
    reveal_strlit("Free");
    reveal_strlit("免费版");
    assert(is_ascii_text("Free"@));
    assert("免费版"@[0] == '\u{514d}');
    assert(("免费版"@[0] as u32) >= 128);
}

proof fn lemma_texts_settings_compare_plans()
    ensures
        en_us_text(MessageId::SettingsComparePlans) == "Compare plans"@,
        zh_cn_text(MessageId::SettingsComparePlans) == "对比套餐"@,
        is_ascii_text(en_us_text(MessageId::SettingsComparePlans)),
        keeps_english_text(MessageId::SettingsComparePlans) ==> zh_cn_text(MessageId::SettingsComparePlans) == en_us_text(MessageId::SettingsComparePlans),
        !keeps_english_text(MessageId::SettingsComparePlans) ==> has_non_ascii(zh_cn_text(MessageId::SettingsComparePlans)),
{
    reveal_strlit("Compare plans");
    reveal_strlit("对比套餐");
    assert(is_ascii_text("Compare plans"@));
    assert("对比套餐"@[0] == '\u{5bf9}');
    assert(("对比套餐"@[0] as u32) >= 128);
}

proof fn lemma_texts_settings_up_to_date()
    ensures
        en_us_text(MessageId::SettingsUpToDate) == "Up to date"@,
        zh_cn_text(MessageId::SettingsUpToDate) == "已是最新版本"@,
        is_ascii_text(en_us_text(MessageId::SettingsUpToDate)),
        keeps_english_text(MessageId::SettingsUpToDate) ==> zh_cn_text(MessageId::SettingsUpToDate) == en_us_text(MessageId::SettingsUpToDate),
        !keeps_english_text(MessageId::SettingsUpToDate) ==> has_non_ascii(zh_cn_text(MessageId::SettingsUpToDate)),
{
    reveal_strlit("Up to date");
    reveal_strlit("已是最新版本");
    assert(is_ascii_text("Up to date"@));
    assert("已是最新版本"@[0] == '\u{5df2}');
    assert(("已是最新版本"@[0] as u32) >= 128);
}

proof fn lemma_texts_settings_version()
    ensures
        en_us_text(MessageId::SettingsVersion) == "Version"@,
        zh_cn_text(MessageId::SettingsVersion) == "版本"@,
        is_ascii_text(en_us_text(MessageId::SettingsVersion)),
        keeps_english_text(MessageId::SettingsVersion) ==> zh_cn_text(MessageId::SettingsVersion) == en_us_text(MessageId::SettingsVersion),
        !keeps_english_text(MessageId::SettingsVersion) ==> has_non_ascii(zh_cn_text(MessageId::SettingsVersion)),
{
    reveal_strlit("Version");
    reveal_strlit("版本");
    assert(is_ascii_text("Version"@));
    assert("版本"@[0] == '\u{7248}');
    assert(("版本"@[0] as u32) >= 128);
}

proof fn lemma_texts_settings_log_out()
    ensures
        en_us_text(MessageId::SettingsLogOut) == "Log out"@,
        zh_cn_text(MessageId::SettingsLogOut) == "退出登录"@,
        is_ascii_text(en_us_text(MessageId::SettingsLogOut)),
        keeps_english_text(MessageId::SettingsLogOut) ==> zh_cn_text(MessageId::SettingsLogOut) == en_us_text(MessageId::SettingsLogOut),
        !keeps_english_text(MessageId::SettingsLogOut) ==> has_non_ascii(zh_cn_text(MessageId::SettingsLogOut)),
{
    reveal_strlit("Log out");
    reveal_strlit("退出登录");
    assert(is_ascii_text("Log out"@));
    assert("退出登录"@[0] == '\u{9000}');
    assert(("退出登录"@[0] as u32) >= 128);
}

proof fn lemma_texts_settings_referral_cta()
    ensures
        en_us_text(MessageId::SettingsReferralCta) == "Earn rewards by sharing Warp with friends & colleagues"@,
        zh_cn_text(MessageId::SettingsReferralCta) == "邀请朋友和同事使用 Warp 即可获得奖励"@,
        is_ascii_text(en_us_text(MessageId::SettingsReferralCta)),
        keeps_english_text(MessageId::SettingsReferralCta) ==> zh_cn_text(MessageId::SettingsReferralCta) == en_us_text(MessageId::SettingsReferralCta),
        !keeps_english_text(MessageId::SettingsReferralCta) ==> has_non_ascii(zh_cn_text(MessageId::SettingsReferralCta)),
{
    reveal_strlit("Earn rewards by sharing Warp with friends & colleagues");
    reveal_strlit("邀请朋友和同事使用 Warp 即可获得奖励");
    assert(is_ascii_text("Earn rewards by sharing Warp with friends & colleagues"@));
    assert("邀请朋友和同事使用 Warp 即可获得奖励"@[0] == '\u{9080}');
    assert(("邀请朋友和同事使用 Warp 即可获得奖励"@[0] as u32) >= 128);
}

proof fn lemma_texts_settings_contact_support()
    ensures
        en_us_text(MessageId::SettingsContactSupport) == "Contact support"@,
        zh_cn_text(MessageId::SettingsContactSupport) == "联系客服"@,
        is_ascii_text(en_us_text(MessageId::SettingsContactSupport)),
        keeps_english_text(MessageId::SettingsContactSupport) ==> zh_cn_text(MessageId::SettingsContactSupport) == en_us_text(MessageId::SettingsContactSupport),
        !keeps_english_text(MessageId::SettingsContactSupport) ==> has_non_ascii(zh_cn_text(MessageId::SettingsContactSupport)),
{
    reveal_strlit("Contact support");
    reveal_strlit("联系客服");
    assert(is_ascii_text("Contact support"@));
    assert("联系客服"@[0] == '\u{8054}');
    assert(("联系客服"@[0] as u32) >= 128);
}

proof fn lemma_texts_settings_manage_billing()
    ensures
        en_us_text(MessageId::SettingsManageBilling) == "Manage billing"@,
        zh_cn_text(MessageId::SettingsManageBilling) == "管理账单"@,
        is_ascii_text(en_us_text(MessageId::SettingsManageBilling)),
        keeps_english_text(MessageId::SettingsManageBilling) ==> zh_cn_text(MessageId::SettingsManageBilling) == en_us_text(MessageId::SettingsManageBilling),
        !keeps_english_text(MessageId::SettingsManageBilling) ==> has_non_ascii(zh_cn_text(MessageId::SettingsManageBilling)),
{
    reveal_strlit("Manage billing");
    reveal_strlit("管理账单");
    assert(is_ascii_text("Manage billing"@));
    assert("管理账单"@[0] == '\u{7ba1}');
    assert(("管理账单"@[0] as u32) >= 128);
}

proof fn lemma_texts_settings_check_for_updates()
    ensures
        en_us_text(MessageId::SettingsCheckForUpdates) == "Check for updates"@,
        zh_cn_text(MessageId::SettingsCheckForUpdates) == "检查更新"@,
        is_ascii_text(en_us_text(MessageId::SettingsCheckForUpdates)),
        keeps_english_text(MessageId::SettingsCheckForUpdates) ==> zh_cn_text(MessageId::SettingsCheckForUpdates) == en_us_text(MessageId::SettingsCheckForUpdates),
        !keeps_english_text(MessageId::SettingsCheckForUpdates) ==> has_non_ascii(zh_cn_text(MessageId::SettingsCheckForUpdates)),
{
    reveal_strlit("Check for updates");
    reveal_strlit("检查更新");
    assert(is_ascii_text("Check for updates"@));
    assert("检查更新"@[0] == '\u{68c0}');
    assert(("检查更新"@[0] as u32) >= 128);
}

proof fn lemma_texts_settings_relaunch_warp()
    ensures
        en_us_text(MessageId::SettingsRelaunchWarp) == "Relaunch Warp"@,
        zh_cn_text(MessageId::SettingsRelaunchWarp) == "重新启动 Warp"@,
        is_ascii_text(en_us_text(MessageId::SettingsRelaunchWarp)),
        keeps_english_text(MessageId::SettingsRelaunchWarp) ==> zh_cn_text(MessageId::SettingsRelaunchWarp) == en_us_text(MessageId::SettingsRelaunchWarp),
        !keeps_english_text(MessageId::SettingsRelaunchWarp) ==> has_non_ascii(zh_cn_text(MessageId::SettingsRelaunchWarp)),
{
    reveal_strlit("Relaunch Warp");
    reveal_strlit("重新启动 Warp");
    assert(is_ascii_text("Relaunch Warp"@));
    assert("重新启动 Warp"@[0] == '\u{91cd}');
    assert(("重新启动 Warp"@[0] as u32) >= 128);
}

proof fn lemma_texts_settings_update_available()
    ensures
        en_us_text(MessageId::SettingsUpdateAvailable) == "Update available"@,
        zh_cn_text(MessageId::SettingsUpdateAvailable) == "有可用更新"@,
        is_ascii_text(en_us_text(MessageId::SettingsUpdateAvailable)),
        keeps_english_text(MessageId::SettingsUpdateAvailable) ==> zh_cn_text(MessageId::SettingsUpdateAvailable) == en_us_text(MessageId::SettingsUpdateAvailable),
        !keeps_english_text(MessageId::SettingsUpdateAvailable) ==> has_non_ascii(zh_cn_text(MessageId::SettingsUpdateAvailable)),
{
    reveal_strlit("Update available");
    reveal_strlit("有可用更新");
    assert(is_ascii_text("Update available"@));
    assert("有可用更新"@[0] == '\u{6709}');
    assert(("有可用更新"@[0] as u32) >= 128);
}

proof fn lemma_texts_settings_updating()
    ensures
        en_us_text(MessageId::SettingsUpdating) == "Updating..."@,
        zh_cn_text(MessageId::SettingsUpdating) == "正在更新..."@,
        is_ascii_text(en_us_text(MessageId::SettingsUpdating)),
        keeps_english_text(MessageId::SettingsUpdating) ==> zh_cn_text(MessageId::SettingsUpdating) == en_us_text(MessageId::SettingsUpdating),
        !keeps_english_text(MessageId::SettingsUpdating) ==> has_non_ascii(zh_cn_text(MessageId::SettingsUpdating)),
{
    reveal_strlit("Updating...");
    reveal_strlit("正在更新...");
    assert(is_ascii_text("Updating..."@));
    assert("正在更新..."@[0] == '\u{6b63}');
    assert(("正在更新..."@[0] as u32) >= 128);
}

proof fn lemma_texts_settings_installed_update()
    ensures
        en_us_text(MessageId::SettingsInstalledUpdate) == "Installed update"@,
        zh_cn_text(MessageId::SettingsInstalledUpdate) == "已安装更新"@,
        is_ascii_text(en_us_text(MessageId::SettingsInstalledUpdate)),
        keeps_english_text(MessageId::SettingsInstalledUpdate) ==> zh_cn_text(MessageId::SettingsInstalledUpdate) == en_us_text(MessageId::SettingsInstalledUpdate),
        !keeps_english_text(MessageId::SettingsInstalledUpdate) ==> has_non_ascii(zh_cn_text(MessageId::SettingsInstalledUpdate)),
{
    reveal_strlit("Installed update");
    reveal_strlit("已安装更新");
    assert(is_ascii_text("Installed update"@));
    assert("已安装更新"@[0] == '\u{5df2}');
    assert(("已安装更新"@[0] as u32) >= 128);
}

proof fn lemma_texts_settings_update_manually()
    ensures
        en_us_text(MessageId::SettingsUpdateManually) == "Update Warp manually"@,
        zh_cn_text(MessageId::SettingsUpdateManually) == "手动更新 Warp"@,
        is_ascii_text(en_us_text(MessageId::SettingsUpdateManually)),
        keeps_english_text(MessageId::SettingsUpdateManually) ==> zh_cn_text(MessageId::SettingsUpdateManually) == en_us_text(MessageId::SettingsUpdateManually),
        !keeps_english_text(MessageId::SettingsUpdateManually) ==> has_non_ascii(zh_cn_text(MessageId::SettingsUpdateManually)),
{
    reveal_strlit("Update Warp manually");
    reveal_strlit("手动更新 Warp");
    assert(is_ascii_text("Update Warp manually"@));
    assert("手动更新 Warp"@[0] == '\u{624b}');
    assert(("手动更新 Warp"@[0] as u32) >= 128);
}

proof fn lemma_texts_settings_settings_sync()
    ensures
        en_us_text(MessageId::SettingsSettingsSync) == "Settings sync"@,
        zh_cn_text(MessageId::SettingsSettingsSync) == "设置同步"@,
        is_ascii_text(en_us_text(MessageId::SettingsSettingsSync)),
        keeps_english_text(MessageId::SettingsSettingsSync) ==> zh_cn_text(MessageId::SettingsSettingsSync) == en_us_text(MessageId::SettingsSettingsSync),
        !keeps_english_text(MessageId::SettingsSettingsSync) ==> has_non_ascii(zh_cn_text(MessageId::SettingsSettingsSync)),
{
    reveal_strlit("Settings sync");
    reveal_strlit("设置同步");
    assert(is_ascii_text("Settings sync"@));
    assert("设置同步"@[0] == '\u{8bbe}');
    assert(("设置同步"@[0] as u32) >= 128);
}

proof fn lemma_texts_appearance_category_themes()
    ensures
        en_us_text(MessageId::AppearanceCategoryThemes) == "Themes"@,
        zh_cn_text(MessageId::AppearanceCategoryThemes) == "主题"@,
        is_ascii_text(en_us_text(MessageId::AppearanceCategoryThemes)),
        keeps_english_text(MessageId::AppearanceCategoryThemes) ==> zh_cn_text(MessageId::AppearanceCategoryThemes) == en_us_text(MessageId::AppearanceCategoryThemes),
        !keeps_english_text(MessageId::AppearanceCategoryThemes) ==> has_non_ascii(zh_cn_text(MessageId::AppearanceCategoryThemes)),
{
    reveal_strlit("Themes");
    reveal_strlit("主题");
    assert(is_ascii_text("Themes"@));
    assert("主题"@[0] == '\u{4e3b}');
    assert(("主题"@[0] as u32) >= 128);
}

proof fn lemma_texts_appearance_category_icon()
    ensures
        en_us_text(MessageId::AppearanceCategoryIcon) == "Icon"@,
        zh_cn_text(MessageId::AppearanceCategoryIcon) == "图标"@,
        is_ascii_text(en_us_text(MessageId::AppearanceCategoryIcon)),
        keeps_english_text(MessageId::AppearanceCategoryIcon) ==> zh_cn_text(MessageId::AppearanceCategoryIcon) == en_us_text(MessageId::AppearanceCategoryIcon),
        !keeps_english_text(MessageId::AppearanceCategoryIcon) ==> has_non_ascii(zh_cn_text(MessageId::AppearanceCategoryIcon)),
{
    reveal_strlit("Icon");
    reveal_strlit("图标");
    assert(is_ascii_text("Icon"@));
    assert("图标"@[0] == '\u{56fe}');
    assert(("图标"@[0] as u32) >= 128);
}

proof fn lemma_texts_appearance_category_window()
    ensures
        en_us_text(MessageId::AppearanceCategoryWindow) == "Window"@,
        zh_cn_text(MessageId::AppearanceCategoryWindow) == "窗口"@,
        is_ascii_text(en_us_text(MessageId::AppearanceCategoryWindow)),
        keeps_english_text(MessageId::AppearanceCategoryWindow) ==> zh_cn_text(MessageId::AppearanceCategoryWindow) == en_us_text(MessageId::AppearanceCategoryWindow),
        !keeps_english_text(MessageId::AppearanceCategoryWindow) ==> has_non_ascii(zh_cn_text(MessageId::AppearanceCategoryWindow)),
{
    reveal_strlit("Window");
    reveal_strlit("窗口");
    assert(is_ascii_text("Window"@));
    assert("窗口"@[0] == '\u{7a97}');
    assert(("窗口"@[0] as u32) >= 128);
}

proof fn lemma_texts_appearance_category_input()
    ensures
        en_us_text(MessageId::AppearanceCategoryInput) == "Input"@,
        zh_cn_text(MessageId::AppearanceCategoryInput) == "输入"@,
        is_ascii_text(en_us_text(MessageId::AppearanceCategoryInput)),
        keeps_english_text(MessageId::AppearanceCategoryInput) ==> zh_cn_text(MessageId::AppearanceCategoryInput) == en_us_text(MessageId::AppearanceCategoryInput),
        !keeps_english_text(MessageId::AppearanceCategoryInput) ==> has_non_ascii(zh_cn_text(MessageId::AppearanceCategoryInput)),
{
    reveal_strlit("Input");
    reveal_strlit("输入");
    assert(is_ascii_text("Input"@));
    assert("输入"@[0] == '\u{8f93}');
    assert(("输入"@[0] as u32) >= 128);
}

proof fn lemma_texts_appearance_category_panes()
    ensures
        en_us_text(MessageId::AppearanceCategoryPanes) == "Panes"@,
        zh_cn_text(MessageId::AppearanceCategoryPanes) == "窗格"@,
        is_ascii_text(en_us_text(MessageId::AppearanceCategoryPanes)),
        keeps_english_text(MessageId::AppearanceCategoryPanes) ==> zh_cn_text(MessageId::AppearanceCategoryPanes) == en_us_text(MessageId::AppearanceCategoryPanes),
        !keeps_english_text(MessageId::AppearanceCategoryPanes) ==> has_non_ascii(zh_cn_text(MessageId::AppearanceCategoryPanes)),
{
    reveal_strlit("Panes");
    reveal_strlit("窗格");
    assert(is_ascii_text("Panes"@));
    assert("窗格"@[0] == '\u{7a97}');
    assert(("窗格"@[0] as u32) >= 128);
}

proof fn lemma_texts_appearance_category_blocks()
    ensures
        en_us_text(MessageId::AppearanceCategoryBlocks) == "Blocks"@,
        zh_cn_text(MessageId::AppearanceCategoryBlocks) == "块"@,
        is_ascii_text(en_us_text(MessageId::AppearanceCategoryBlocks)),
        keeps_english_text(MessageId::AppearanceCategoryBlocks) ==> zh_cn_text(MessageId::AppearanceCategoryBlocks) == en_us_text(MessageId::AppearanceCategoryBlocks),
        !keeps_english_text(MessageId::AppearanceCategoryBlocks) ==> has_non_ascii(zh_cn_text(MessageId::AppearanceCategoryBlocks)),
{
    reveal_strlit("Blocks");
    reveal_strlit("块");
    assert(is_ascii_text("Blocks"@));
    assert("块"@[0] == '\u{5757}');
    assert(("块"@[0] as u32) >= 128);
}

proof fn lemma_texts_appearance_category_text()
    ensures
        en_us_text(MessageId::AppearanceCategoryText) == "Text"@,
        zh_cn_text(MessageId::AppearanceCategoryText) == "文本"@,
        is_ascii_text(en_us_text(MessageId::AppearanceCategoryText)),
        keeps_english_text(MessageId::AppearanceCategoryText) ==> zh_cn_text(MessageId::AppearanceCategoryText) == en_us_text(MessageId::AppearanceCategoryText),
        !keeps_english_text(MessageId::AppearanceCategoryText) ==> has_non_ascii(zh_cn_text(MessageId::AppearanceCategoryText)),
{
    reveal_strlit("Text");
    reveal_strlit("文本");
    assert(is_ascii_text("Text"@));
    assert("文本"@[0] == '\u{6587}');
    assert(("文本"@[0] as u32) >= 128);
}

proof fn lemma_texts_appearance_category_cursor()
    ensures
        en_us_text(MessageId::AppearanceCategoryCursor) == "Cursor"@,
        zh_cn_text(MessageId::AppearanceCategoryCursor) == "光标"@,
        is_ascii_text(en_us_text(MessageId::AppearanceCategoryCursor)),
        keeps_english_text(MessageId::AppearanceCategoryCursor) ==> zh_cn_text(MessageId::AppearanceCategoryCursor) == en_us_text(MessageId::AppearanceCategoryCursor),
        !keeps_english_text(MessageId::AppearanceCategoryCursor) ==> has_non_ascii(zh_cn_text(MessageId::AppearanceCategoryCursor)),
{
    reveal_strlit("Cursor");
    reveal_strlit("光标");
    assert(is_ascii_text("Cursor"@));
    assert("光标"@[0] == '\u{5149}');
    assert(("光标"@[0] as u32) >= 128);
}

proof fn lemma_texts_appearance_category_tabs()
    ensures
        en_us_text(MessageId::AppearanceCategoryTabs) == "Tabs"@,
        zh_cn_text(MessageId::AppearanceCategoryTabs) == "标签页"@,
        is_ascii_text(en_us_text(MessageId::AppearanceCategoryTabs)),
        keeps_english_text(MessageId::AppearanceCategoryTabs) ==> zh_cn_text(MessageId::AppearanceCategoryTabs) == en_us_text(MessageId::AppearanceCategoryTabs),
        !keeps_english_text(MessageId::AppearanceCategoryTabs) ==> has_non_ascii(zh_cn_text(MessageId::AppearanceCategoryTabs)),
{
    reveal_strlit("Tabs");
    reveal_strlit("标签页");
    assert(is_ascii_text("Tabs"@));
    assert("标签页"@[0] == '\u{6807}');
    assert(("标签页"@[0] as u32) >= 128);
}

proof fn lemma_texts_appearance_category_fullscreen_apps()
    ensures
        en_us_text(MessageId::AppearanceCategoryFullscreenApps) == "Full-screen Apps"@,
        zh_cn_text(MessageId::AppearanceCategoryFullscreenApps) == "全屏应用"@,
        is_ascii_text(en_us_text(MessageId::AppearanceCategoryFullscreenApps)),
        keeps_english_text(MessageId::AppearanceCategoryFullscreenApps) ==> zh_cn_text(MessageId::AppearanceCategoryFullscreenApps) == en_us_text(MessageId::AppearanceCategoryFullscreenApps),
        !keeps_english_text(MessageId::AppearanceCategoryFullscreenApps) ==> has_non_ascii(zh_cn_text(MessageId::AppearanceCategoryFullscreenApps)),
{
    reveal_strlit("Full-screen Apps");
    reveal_strlit("全屏应用");
    assert(is_ascii_text("Full-screen Apps"@));
    assert("全屏应用"@[0] == '\u{5168}');
    assert(("全屏应用"@[0] as u32) >= 128);
}

proof fn lemma_texts_appearance_compact_mode()
    ensures
        en_us_text(MessageId::AppearanceCompactMode) == "compact mode"@,
        zh_cn_text(MessageId::AppearanceCompactMode) == "紧凑模式"@,
        is_ascii_text(en_us_text(MessageId::AppearanceCompactMode)),
        keeps_english_text(MessageId::AppearanceCompactMode) ==> zh_cn_text(MessageId::AppearanceCompactMode) == en_us_text(MessageId::AppearanceCompactMode),
        !keeps_english_text(MessageId::AppearanceCompactMode) ==> has_non_ascii(zh_cn_text(MessageId::AppearanceCompactMode)),
{
    reveal_strlit("compact mode");
    reveal_strlit("紧凑模式");
    assert(is_ascii_text("compact mode"@));
    assert("紧凑模式"@[0] == '\u{7d27}');
    assert(("紧凑模式"@[0] as u32) >= 128);
}

proof fn lemma_texts_appearance_sync_with_os()
    ensures
        en_us_text(MessageId::AppearanceSyncWithOs) == "themes: sync with OS"@,
        zh_cn_text(MessageId::AppearanceSyncWithOs) == "主题：与系统同步"@,
        is_ascii_text(en_us_text(MessageId::AppearanceSyncWithOs)),
        keeps_english_text(MessageId::AppearanceSyncWithOs) ==> zh_cn_text(MessageId::AppearanceSyncWithOs) == en_us_text(MessageId::AppearanceSyncWithOs),
        !keeps_english_text(MessageId::AppearanceSyncWithOs) ==> has_non_ascii(zh_cn_text(MessageId::AppearanceSyncWithOs)),
{
    reveal_strlit("themes: sync with OS");
    reveal_strlit("主题：与系统同步");
    assert(is_ascii_text("themes: sync with OS"@));
    assert("主题：与系统同步"@[0] == '\u{4e3b}');
    assert(("主题：与系统同步"@[0] as u32) >= 128);
}

proof fn lemma_texts_appearance_cursor_blink()
    ensures
        en_us_text(MessageId::AppearanceCursorBlink) == "cursor blink"@,
        zh_cn_text(MessageId::AppearanceCursorBlink) == "光标闪烁"@,
        is_ascii_text(en_us_text(MessageId::AppearanceCursorBlink)),
        keeps_english_text(MessageId::AppearanceCursorBlink) ==> zh_cn_text(MessageId::AppearanceCursorBlink) == en_us_text(MessageId::AppearanceCursorBlink),
        !keeps_english_text(MessageId::AppearanceCursorBlink) ==> has_non_ascii(zh_cn_text(MessageId::AppearanceCursorBlink)),
{
    reveal_strlit("cursor blink");
    reveal_strlit("光标闪烁");
    assert(is_ascii_text("cursor blink"@));
    assert("光标闪烁"@[0] == '\u{5149}');
    assert(("光标闪烁"@[0] as u32) >= 128);
}

proof fn lemma_texts_appearance_jump_to_bottom()
    ensures
        en_us_text(MessageId::AppearanceJumpToBottom) == "jump to bottom of block button"@,
        zh_cn_text(MessageId::AppearanceJumpToBottom) == "跳转到块底部按钮"@,
        is_ascii_text(en_us_text(MessageId::AppearanceJumpToBottom)),
        keeps_english_text(MessageId::AppearanceJumpToBottom) ==> zh_cn_text(MessageId::AppearanceJumpToBottom) == en_us_text(MessageId::AppearanceJumpToBottom),
        !keeps_english_text(MessageId::AppearanceJumpToBottom) ==> has_non_ascii(zh_cn_text(MessageId::AppearanceJumpToBottom)),
{
    reveal_strlit("jump to bottom of block button");
    reveal_strlit("跳转到块底部按钮");
    assert(is_ascii_text("jump to bottom of block button"@));
    assert("跳转到块底部按钮"@[0] == '\u{8df3}');
    assert(("跳转到块底部按钮"@[0] as u32) >= 128);
}

proof fn lemma_texts_appearance_block_dividers()
    ensures
        en_us_text(MessageId::AppearanceBlockDividers) == "block dividers"@,
        zh_cn_text(MessageId::AppearanceBlockDividers) == "块分隔线"@,
        is_ascii_text(en_us_text(MessageId::AppearanceBlockDividers)),
        keeps_english_text(MessageId::AppearanceBlockDividers) ==> zh_cn_text(MessageId::AppearanceBlockDividers) == en_us_text(MessageId::AppearanceBlockDividers),
        !keeps_english_text(MessageId::AppearanceBlockDividers) ==> has_non_ascii(zh_cn_text(MessageId::AppearanceBlockDividers)),
{
    reveal_strlit("block dividers");
    reveal_strlit("块分隔线");
    assert(is_ascii_text("block dividers"@));
    assert("块分隔线"@[0] == '\u{5757}');
    assert(("块分隔线"@[0] as u32) >= 128);
}

proof fn lemma_texts_appearance_dim_inactive_panes()
    ensures
        en_us_text(MessageId::AppearanceDimInactivePanes) == "dim inactive panes"@,
        zh_cn_text(MessageId::AppearanceDimInactivePanes) == "暗化非活动窗格"@,
        is_ascii_text(en_us_text(MessageId::AppearanceDimInactivePanes)),
        keeps_english_text(MessageId::AppearanceDimInactivePanes) ==> zh_cn_text(MessageId::AppearanceDimInactivePanes) == en_us_text(MessageId::AppearanceDimInactivePanes),
        !keeps_english_text(MessageId::AppearanceDimInactivePanes) ==> has_non_ascii(zh_cn_text(MessageId::AppearanceDimInactivePanes)),
{
    reveal_strlit("dim inactive panes");
    reveal_strlit("暗化非活动窗格");
    assert(is_ascii_text("dim inactive panes"@));
    assert("暗化非活动窗格"@[0] == '\u{6697}');
    assert(("暗化非活动窗格"@[0] as u32) >= 128);
}

proof fn lemma_texts_appearance_tab_indicators()
    ensures
        en_us_text(MessageId::AppearanceTabIndicators) == "tab indicators"@,
        zh_cn_text(MessageId::AppearanceTabIndicators) == "标签页指示器"@,
        is_ascii_text(en_us_text(MessageId::AppearanceTabIndicators)),
        keeps_english_text(MessageId::AppearanceTabIndicators) ==> zh_cn_text(MessageId::AppearanceTabIndicators) == en_us_text(MessageId::AppearanceTabIndicators),
        !keeps_english_text(MessageId::AppearanceTabIndicators) ==> has_non_ascii(zh_cn_text(MessageId::AppearanceTabIndicators)),
{
    reveal_strlit("tab indicators");
    reveal_strlit("标签页指示器");
    assert(is_ascii_text("tab indicators"@));
    assert("标签页指示器"@[0] == '\u{6807}');
    assert(("标签页指示器"@[0] as u32) >= 128);
}

proof fn lemma_texts_appearance_focus_follows_mouse()
    ensures
        en_us_text(MessageId::AppearanceFocusFollowsMouse) == "focus follows mouse"@,
        zh_cn_text(MessageId::AppearanceFocusFollowsMouse) == "焦点跟随鼠标"@,
        is_ascii_text(en_us_text(MessageId::AppearanceFocusFollowsMouse)),
        keeps_english_text(MessageId::AppearanceFocusFollowsMouse) ==> zh_cn_text(MessageId::AppearanceFocusFollowsMouse) == en_us_text(MessageId::AppearanceFocusFollowsMouse),
        !keeps_english_text(MessageId::AppearanceFocusFollowsMouse) ==> has_non_ascii(zh_cn_text(MessageId::AppearanceFocusFollowsMouse)),
{
    reveal_strlit("focus follows mouse");
    reveal_strlit("焦点跟随鼠标");
    assert(is_ascii_text("focus follows mouse"@));
    assert("焦点跟随鼠标"@[0] == '\u{7126}');
    assert(("焦点跟随鼠标"@[0] as u32) >= 128);
}

proof fn lemma_texts_appearance_zen_mode()
    ensures
        en_us_text(MessageId::AppearanceZenMode) == "zen mode"@,
        zh_cn_text(MessageId::AppearanceZenMode) == "禅模式"@,
        is_ascii_text(en_us_text(MessageId::AppearanceZenMode)),
        keeps_english_text(MessageId::AppearanceZenMode) ==> zh_cn_text(MessageId::AppearanceZenMode) == en_us_text(MessageId::AppearanceZenMode),
        !keeps_english_text(MessageId::AppearanceZenMode) ==> has_non_ascii(zh_cn_text(MessageId::AppearanceZenMode)),
{
    reveal_strlit("zen mode");
    reveal_strlit("禅模式");
    assert(is_ascii_text("zen mode"@));
    assert("禅模式"@[0] == '\u{7985}');
    assert(("禅模式"@[0] as u32) >= 128);
}

proof fn lemma_texts_appearance_vertical_tab_layout()
    ensures
        en_us_text(MessageId::AppearanceVerticalTabLayout) == "vertical tab layout"@,
        zh_cn_text(MessageId::AppearanceVerticalTabLayout) == "垂直标签页布局"@,
        is_ascii_text(en_us_text(MessageId::AppearanceVerticalTabLayout)),
        keeps_english_text(MessageId::AppearanceVerticalTabLayout) ==> zh_cn_text(MessageId::AppearanceVerticalTabLayout) == en_us_text(MessageId::AppearanceVerticalTabLayout),
        !keeps_english_text(MessageId::AppearanceVerticalTabLayout) ==> has_non_ascii(zh_cn_text(MessageId::AppearanceVerticalTabLayout)),
{
    reveal_strlit("vertical tab layout");
    reveal_strlit("垂直标签页布局");
    assert(is_ascii_text("vertical tab layout"@));
    assert("垂直标签页布局"@[0] == '\u{5782}');
    assert(("垂直标签页布局"@[0] as u32) >= 128);
}

proof fn lemma_texts_appearance_ligature_rendering()
    ensures
        en_us_text(MessageId::AppearanceLigatureRendering) == "ligature rendering"@,
        zh_cn_text(MessageId::AppearanceLigatureRendering) == "连字渲染"@,
        is_ascii_text(en_us_text(MessageId::AppearanceLigatureRendering)),
        keeps_english_text(MessageId::AppearanceLigatureRendering) ==> zh_cn_text(MessageId::AppearanceLigatureRendering) == en_us_text(MessageId::AppearanceLigatureRendering),
        !keeps_english_text(MessageId::AppearanceLigatureRendering) ==> has_non_ascii(zh_cn_text(MessageId::AppearanceLigatureRendering)),
{
    reveal_strlit("ligature rendering");
    reveal_strlit("连字渲染");
    assert(is_ascii_text("ligature rendering"@));
    assert("连字渲染"@[0] == '\u{8fde}');
    assert(("连字渲染"@[0] as u32) >= 128);
}

proof fn lemma_texts_appearance_start_input_top()
    ensures
        en_us_text(MessageId::AppearanceStartInputTop) == "Start Input at the Top"@,
        zh_cn_text(MessageId::AppearanceStartInputTop) == "在顶部开始输入"@,
        is_ascii_text(en_us_text(MessageId::AppearanceStartInputTop)),
        keeps_english_text(MessageId::AppearanceStartInputTop) ==> zh_cn_text(MessageId::AppearanceStartInputTop) == en_us_text(MessageId::AppearanceStartInputTop),
        !keeps_english_text(MessageId::AppearanceStartInputTop) ==> has_non_ascii(zh_cn_text(MessageId::AppearanceStartInputTop)),
{
    reveal_strlit("Start Input at the Top");
    reveal_strlit("在顶部开始输入");
    assert(is_ascii_text("Start Input at the Top"@));
    assert("在顶部开始输入"@[0] == '\u{5728}');
    assert(("在顶部开始输入"@[0] as u32) >= 128);
}

proof fn lemma_texts_appearance_pin_input_top()
    ensures
        en_us_text(MessageId::AppearancePinInputTop) == "Pin Input to the Top"@,
        zh_cn_text(MessageId::AppearancePinInputTop) == "固定输入到顶部"@,
        is_ascii_text(en_us_text(MessageId::AppearancePinInputTop)),
        keeps_english_text(MessageId::AppearancePinInputTop) ==> zh_cn_text(MessageId::AppearancePinInputTop) == en_us_text(MessageId::AppearancePinInputTop),
        !keeps_english_text(MessageId::AppearancePinInputTop) ==> has_non_ascii(zh_cn_text(MessageId::AppearancePinInputTop)),
{
    reveal_strlit("Pin Input to the Top");
    reveal_strlit("固定输入到顶部");
    assert(is_ascii_text("Pin Input to the Top"@));
    assert("固定输入到顶部"@[0] == '\u{56fa}');
    assert(("固定输入到顶部"@[0] as u32) >= 128);
}

proof fn lemma_texts_appearance_pin_input_bottom()
    ensures
        en_us_text(MessageId::AppearancePinInputBottom) == "Pin Input to the Bottom"@,
        zh_cn_text(MessageId::AppearancePinInputBottom) == "固定输入到底部"@,
        is_ascii_text(en_us_text(MessageId::AppearancePinInputBottom)),
        keeps_english_text(MessageId::AppearancePinInputBottom) ==> zh_cn_text(MessageId::AppearancePinInputBottom) == en_us_text(MessageId::AppearancePinInputBottom),
        !keeps_english_text(MessageId::AppearancePinInputBottom) ==> has_non_ascii(zh_cn_text(MessageId::AppearancePinInputBottom)),
{
    reveal_strlit("Pin Input to the Bottom");
    reveal_strlit("固定输入到底部");
    assert(is_ascii_text("Pin Input to the Bottom"@));
    assert("固定输入到底部"@[0] == '\u{56fa}');
    assert(("固定输入到底部"@[0] as u32) >= 128);
}

proof fn lemma_texts_appearance_toggle_input_mode()
    ensures
        en_us_text(MessageId::AppearanceToggleInputMode) == "Toggle Input Mode (Warp/Classic)"@,
        zh_cn_text(MessageId::AppearanceToggleInputMode) == "切换输入模式（Warp/经典）"@,
        is_ascii_text(en_us_text(MessageId::AppearanceToggleInputMode)),
        keeps_english_text(MessageId::AppearanceToggleInputMode) ==> zh_cn_text(MessageId::AppearanceToggleInputMode) == en_us_text(MessageId::AppearanceToggleInputMode),
        !keeps_english_text(MessageId::AppearanceToggleInputMode) ==> has_non_ascii(zh_cn_text(MessageId::AppearanceToggleInputMode)),
{
    reveal_strlit("Toggle Input Mode (Warp/Classic)");
    reveal_strlit("切换输入模式（Warp/经典）");
    assert(is_ascii_text("Toggle Input Mode (Warp/Classic)"@));
    assert("切换输入模式（Warp/经典）"@[0] == '\u{5207}');
    assert(("切换输入模式（Warp/经典）"@[0] as u32) >= 128);
}

proof fn lemma_texts_appearance_always_show_tab_bar()
    ensures
        en_us_text(MessageId::AppearanceAlwaysShowTabBar) == "Always show tab bar"@,
        zh_cn_text(MessageId::AppearanceAlwaysShowTabBar) == "始终显示标签栏"@,
        is_ascii_text(en_us_text(MessageId::AppearanceAlwaysShowTabBar)),
        keeps_english_text(MessageId::AppearanceAlwaysShowTabBar) ==> zh_cn_text(MessageId::AppearanceAlwaysShowTabBar) == en_us_text(MessageId::AppearanceAlwaysShowTabBar),
        !keeps_english_text(MessageId::AppearanceAlwaysShowTabBar) ==> has_non_ascii(zh_cn_text(MessageId::AppearanceAlwaysShowTabBar)),
{
    reveal_strlit("Always show tab bar");
    reveal_strlit("始终显示标签栏");
    assert(is_ascii_text("Always show tab bar"@));
    assert("始终显示标签栏"@[0] == '\u{59cb}');
    assert(("始终显示标签栏"@[0] as u32) >= 128);
}

proof fn lemma_texts_appearance_hide_tab_bar_fullscreen()
    ensures
        en_us_text(MessageId::AppearanceHideTabBarFullscreen) == "Hide tab bar if fullscreen"@,
        zh_cn_text(MessageId::AppearanceHideTabBarFullscreen) == "全屏时隐藏标签栏"@,
        is_ascii_text(en_us_text(MessageId::AppearanceHideTabBarFullscreen)),
        keeps_english_text(MessageId::AppearanceHideTabBarFullscreen) ==> zh_cn_text(MessageId::AppearanceHideTabBarFullscreen) == en_us_text(MessageId::AppearanceHideTabBarFullscreen),
        !keeps_english_text(MessageId::AppearanceHideTabBarFullscreen) ==> has_non_ascii(zh_cn_text(MessageId::AppearanceHideTabBarFullscreen)),
{
    reveal_strlit("Hide tab bar if fullscreen");
    reveal_strlit("全屏时隐藏标签栏");
    assert(is_ascii_text("Hide tab bar if fullscreen"@));
    assert("全屏时隐藏标签栏"@[0] == '\u{5168}');
    assert(("全屏时隐藏标签栏"@[0] as u32) >= 128);
}

proof fn lemma_texts_appearance_show_tab_bar_on_hover()
    ensures
        en_us_text(MessageId::AppearanceShowTabBarOnHover) == "Only show tab bar on hover"@,
        zh_cn_text(MessageId::AppearanceShowTabBarOnHover) == "悬停时显示标签栏"@,
        is_ascii_text(en_us_text(MessageId::AppearanceShowTabBarOnHover)),
        keeps_english_text(MessageId::AppearanceShowTabBarOnHover) ==> zh_cn_text(MessageId::AppearanceShowTabBarOnHover) == en_us_text(MessageId::AppearanceShowTabBarOnHover),
        !keeps_english_text(MessageId::AppearanceShowTabBarOnHover) ==> has_non_ascii(zh_cn_text(MessageId::AppearanceShowTabBarOnHover)),
{
    reveal_strlit("Only show tab bar on hover");
    reveal_strlit("悬停时显示标签栏");
    assert(is_ascii_text("Only show tab bar on hover"@));
    assert("悬停时显示标签栏"@[0] == '\u{60ac}');
    assert(("悬停时显示标签栏"@[0] as u32) >= 128);
}

proof fn lemma_texts_appearance_header_toolbar_layout()
    ensures
        en_us_text(MessageId::AppearanceHeaderToolbarLayout) == "Header toolbar layout"@,
        zh_cn_text(MessageId::AppearanceHeaderToolbarLayout) == "顶部工具栏布局"@,
        is_ascii_text(en_us_text(MessageId::AppearanceHeaderToolbarLayout)),
        keeps_english_text(MessageId::AppearanceHeaderToolbarLayout) ==> zh_cn_text(MessageId::AppearanceHeaderToolbarLayout) == en_us_text(MessageId::AppearanceHeaderToolbarLayout),
        !keeps_english_text(MessageId::AppearanceHeaderToolbarLayout) ==> has_non_ascii(zh_cn_text(MessageId::AppearanceHeaderToolbarLayout)),
{
    reveal_strlit("Header toolbar layout");
    reveal_strlit("顶部工具栏布局");
    assert(is_ascii_text("Header toolbar layout"@));
    assert("顶部工具栏布局"@[0] == '\u{9876}');
    assert(("顶部工具栏布局"@[0] as u32) >= 128);
}

proof fn lemma_texts_appearance_create_custom_theme()
    ensures
        en_us_text(MessageId::AppearanceCreateCustomTheme) == "Create your own custom theme"@,
        zh_cn_text(MessageId::AppearanceCreateCustomTheme) == "创建自定义主题"@,
        is_ascii_text(en_us_text(MessageId::AppearanceCreateCustomTheme)),
        keeps_english_text(MessageId::AppearanceCreateCustomTheme) ==> zh_cn_text(MessageId::AppearanceCreateCustomTheme) == en_us_text(MessageId::AppearanceCreateCustomTheme),
        !keeps_english_text(MessageId::AppearanceCreateCustomTheme) ==> has_non_ascii(zh_cn_text(MessageId::AppearanceCreateCustomTheme)),
{
    reveal_strlit("Create your own custom theme");
    reveal_strlit("创建自定义主题");
    assert(is_ascii_text("Create your own custom theme"@));
    assert("创建自定义主题"@[0] == '\u{521b}');
    assert(("创建自定义主题"@[0] as u32) >= 128);
}

proof fn lemma_texts_appearance_window_opacity()
    ensures
        en_us_text(MessageId::AppearanceWindowOpacity) == "Window Opacity"@,
        zh_cn_text(MessageId::AppearanceWindowOpacity) == "窗口不透明度"@,
        is_ascii_text(en_us_text(MessageId::AppearanceWindowOpacity)),
        keeps_english_text(MessageId::AppearanceWindowOpacity) ==> zh_cn_text(MessageId::AppearanceWindowOpacity) == en_us_text(MessageId::AppearanceWindowOpacity),
        !keeps_english_text(MessageId::AppearanceWindowOpacity) ==> has_non_ascii(zh_cn_text(MessageId::AppearanceWindowOpacity)),
{
    reveal_strlit("Window Opacity");
    reveal_strlit("窗口不透明度");
    assert(is_ascii_text("Window Opacity"@));
    assert("窗口不透明度"@[0] == '\u{7a97}');
    assert(("窗口不透明度"@[0] as u32) >= 128);
}

proof fn lemma_texts_appearance_window_blur()
    ensures
        en_us_text(MessageId::AppearanceWindowBlur) == "Use Window Blur"@,
        zh_cn_text(MessageId::AppearanceWindowBlur) == "使用窗口模糊"@,
        is_ascii_text(en_us_text(MessageId::AppearanceWindowBlur)),
        keeps_english_text(MessageId::AppearanceWindowBlur) ==> zh_cn_text(MessageId::AppearanceWindowBlur) == en_us_text(MessageId::AppearanceWindowBlur),
        !keeps_english_text(MessageId::AppearanceWindowBlur) ==> has_non_ascii(zh_cn_text(MessageId::AppearanceWindowBlur)),
{
    reveal_strlit("Use Window Blur");
    reveal_strlit("使用窗口模糊");
    assert(is_ascii_text("Use Window Blur"@));
    assert("使用窗口模糊"@[0] == '\u{4f7f}');
    assert(("使用窗口模糊"@[0] as u32) >= 128);
}

proof fn lemma_texts_appearance_input_type()
    ensures
        en_us_text(MessageId::AppearanceInputType) == "Input type"@,
        zh_cn_text(MessageId::AppearanceInputType) == "输入类型"@,
        is_ascii_text(en_us_text(MessageId::AppearanceInputType)),
        keeps_english_text(MessageId::AppearanceInputType) ==> zh_cn_text(MessageId::AppearanceInputType) == en_us_text(MessageId::AppearanceInputType),
        !keeps_english_text(MessageId::AppearanceInputType) ==> has_non_ascii(zh_cn_text(MessageId::AppearanceInputType)),
{
    reveal_strlit("Input type");
    reveal_strlit("输入类型");
    assert(is_ascii_text("Input type"@));
    assert("输入类型"@[0] == '\u{8f93}');
    assert(("输入类型"@[0] as u32) >= 128);
}

proof fn lemma_texts_appearance_show_code_review_button()
    ensures
        en_us_text(MessageId::AppearanceShowCodeReviewButton) == "Show code review button in tab bar"@,
        zh_cn_text(MessageId::AppearanceShowCodeReviewButton) == "在标签栏显示代码审查按钮"@,
        is_ascii_text(en_us_text(MessageId::AppearanceShowCodeReviewButton)),
        keeps_english_text(MessageId::AppearanceShowCodeReviewButton) ==> zh_cn_text(MessageId::AppearanceShowCodeReviewButton) == en_us_text(MessageId::AppearanceShowCodeReviewButton),
        !keeps_english_text(MessageId::AppearanceShowCodeReviewButton) ==> has_non_ascii(zh_cn_text(MessageId::AppearanceShowCodeReviewButton)),
{
    reveal_strlit("Show code review button in tab bar");
    reveal_strlit("在标签栏显示代码审查按钮");
    assert(is_ascii_text("Show code review button in tab bar"@));
    assert("在标签栏显示代码审查按钮"@[0] == '\u{5728}');
    assert(("在标签栏显示代码审查按钮"@[0] as u32) >= 128);
}

proof fn lemma_texts_appearance_hide_code_review_button()
    ensures
        en_us_text(MessageId::AppearanceHideCodeReviewButton) == "Hide code review button in tab bar"@,
        zh_cn_text(MessageId::AppearanceHideCodeReviewButton) == "在标签栏隐藏代码审查按钮"@,
        is_ascii_text(en_us_text(MessageId::AppearanceHideCodeReviewButton)),
        keeps_english_text(MessageId::AppearanceHideCodeReviewButton) ==> zh_cn_text(MessageId::AppearanceHideCodeReviewButton) == en_us_text(MessageId::AppearanceHideCodeReviewButton),
        !keeps_english_text(MessageId::AppearanceHideCodeReviewButton) ==> has_non_ascii(zh_cn_text(MessageId::AppearanceHideCodeReviewButton)),
{
    reveal_strlit("Hide code review button in tab bar");
    reveal_strlit("在标签栏隐藏代码审查按钮");
    assert(is_ascii_text("Hide code review button in tab bar"@));
    assert("在标签栏隐藏代码审查按钮"@[0] == '\u{5728}');
    assert(("在标签栏隐藏代码审查按钮"@[0] as u32) >= 128);
}

proof fn lemma_texts_appearance_input_mode_warp()
    ensures
        en_us_text(MessageId::AppearanceInputModeWarp) == "Pin to the bottom (Warp mode)"@,
        zh_cn_text(MessageId::AppearanceInputModeWarp) == "固定到底部（Warp 模式）"@,
        is_ascii_text(en_us_text(MessageId::AppearanceInputModeWarp)),
        keeps_english_text(MessageId::AppearanceInputModeWarp) ==> zh_cn_text(MessageId::AppearanceInputModeWarp) == en_us_text(MessageId::AppearanceInputModeWarp),
        !keeps_english_text(MessageId::AppearanceInputModeWarp) ==> has_non_ascii(zh_cn_text(MessageId::AppearanceInputModeWarp)),
{
    reveal_strlit("Pin to the bottom (Warp mode)");
    reveal_strlit("固定到底部（Warp 模式）");
    assert(is_ascii_text("Pin to the bottom (Warp mode)"@));
    assert("固定到底部（Warp 模式）"@[0] == '\u{56fa}');
    assert(("固定到底部（Warp 模式）"@[0] as u32) >= 128);
}

proof fn lemma_texts_appearance_input_mode_reverse()
    ensures
        en_us_text(MessageId::AppearanceInputModeReverse) == "Pin to the top (Reverse mode)"@,
        zh_cn_text(MessageId::AppearanceInputModeReverse) == "固定到顶部（反向模式）"@,
        is_ascii_text(en_us_text(MessageId::AppearanceInputModeReverse)),
        keeps_english_text(MessageId::AppearanceInputModeReverse) ==> zh_cn_text(MessageId::AppearanceInputModeReverse) == en_us_text(MessageId::AppearanceInputModeReverse),
        !keeps_english_text(MessageId::AppearanceInputModeReverse) ==> has_non_ascii(zh_cn_text(MessageId::AppearanceInputModeReverse)),
{
    reveal_strlit("Pin to the top (Reverse mode)");
    reveal_strlit("固定到顶部（反向模式）");
    assert(is_ascii_text("Pin to the top (Reverse mode)"@));
    assert("固定到顶部（反向模式）"@[0] == '\u{56fa}');
    assert(("固定到顶部（反向模式）"@[0] as u32) >= 128);
}

proof fn lemma_texts_appearance_input_mode_classic()
    ensures
        en_us_text(MessageId::AppearanceInputModeClassic) == "Start at the top (Classic mode)"@,
        zh_cn_text(MessageId::AppearanceInputModeClassic) == "在顶部开始（经典模式）"@,
        is_ascii_text(en_us_text(MessageId::AppearanceInputModeClassic)),
        keeps_english_text(MessageId::AppearanceInputModeClassic) ==> zh_cn_text(MessageId::AppearanceInputModeClassic) == en_us_text(MessageId::AppearanceInputModeClassic),
        !keeps_english_text(MessageId::AppearanceInputModeClassic) ==> has_non_ascii(zh_cn_text(MessageId::AppearanceInputModeClassic)),
{
    reveal_strlit("Start at the top (Classic mode)");
    reveal_strlit("在顶部开始（经典模式）");
    assert(is_ascii_text("Start at the top (Classic mode)"@));
    assert("在顶部开始（经典模式）"@[0] == '\u{5728}');
    assert(("在顶部开始（经典模式）"@[0] as u32) >= 128);
}

proof fn lemma_texts_appearance_thin_strokes_never()
    ensures
        en_us_text(MessageId::AppearanceThinStrokesNever) == "Never"@,
        zh_cn_text(MessageId::AppearanceThinStrokesNever) == "从不"@,
        is_ascii_text(en_us_text(MessageId::AppearanceThinStrokesNever)),
        keeps_english_text(MessageId::AppearanceThinStrokesNever) ==> zh_cn_text(MessageId::AppearanceThinStrokesNever) == en_us_text(MessageId::AppearanceThinStrokesNever),
        !keeps_english_text(MessageId::AppearanceThinStrokesNever) ==> has_non_ascii(zh_cn_text(MessageId::AppearanceThinStrokesNever)),
{
    reveal_strlit("Never");
    reveal_strlit("从不");
    assert(is_ascii_text("Never"@));
    assert("从不"@[0] == '\u{4ece}');
    assert(("从不"@[0] as u32) >= 128);
}

proof fn lemma_texts_appearance_thin_strokes_low_dpi()
    ensures
        en_us_text(MessageId::AppearanceThinStrokesLowDpi) == "On low-DPI displays"@,
        zh_cn_text(MessageId::AppearanceThinStrokesLowDpi) == "在低 DPI 显示器上"@,
        is_ascii_text(en_us_text(MessageId::AppearanceThinStrokesLowDpi)),
        keeps_english_text(MessageId::AppearanceThinStrokesLowDpi) ==> zh_cn_text(MessageId::AppearanceThinStrokesLowDpi) == en_us_text(MessageId::AppearanceThinStrokesLowDpi),
        !keeps_english_text(MessageId::AppearanceThinStrokesLowDpi) ==> has_non_ascii(zh_cn_text(MessageId::AppearanceThinStrokesLowDpi)),
{
    reveal_strlit("On low-DPI displays");
    reveal_strlit("在低 DPI 显示器上");
    assert(is_ascii_text("On low-DPI displays"@));
    assert("在低 DPI 显示器上"@[0] == '\u{5728}');
    assert(("在低 DPI 显示器上"@[0] as u32) >= 128);
}

proof fn lemma_texts_appearance_thin_strokes_high_dpi()
    ensures
        en_us_text(MessageId::AppearanceThinStrokesHighDpi) == "On high-DPI displays"@,
        zh_cn_text(MessageId::AppearanceThinStrokesHighDpi) == "在高 DPI 显示器上"@,
        is_ascii_text(en_us_text(MessageId::AppearanceThinStrokesHighDpi)),
        keeps_english_text(MessageId::AppearanceThinStrokesHighDpi) ==> zh_cn_text(MessageId::AppearanceThinStrokesHighDpi) == en_us_text(MessageId::AppearanceThinStrokesHighDpi),
        !keeps_english_text(MessageId::AppearanceThinStrokesHighDpi) ==> has_non_ascii(zh_cn_text(MessageId::AppearanceThinStrokesHighDpi)),
{
    reveal_strlit("On high-DPI displays");
    reveal_strlit("在高 DPI 显示器上");
    assert(is_ascii_text("On high-DPI displays"@));
    assert("在高 DPI 显示器上"@[0] == '\u{5728}');
    assert(("在高 DPI 显示器上"@[0] as u32) >= 128);
}

proof fn lemma_texts_appearance_thin_strokes_always()
    ensures
        en_us_text(MessageId::AppearanceThinStrokesAlways) == "Always"@,
        zh_cn_text(MessageId::AppearanceThinStrokesAlways) == "始终"@,
        is_ascii_text(en_us_text(MessageId::AppearanceThinStrokesAlways)),
        keeps_english_text(MessageId::AppearanceThinStrokesAlways) ==> zh_cn_text(MessageId::AppearanceThinStrokesAlways) == en_us_text(MessageId::AppearanceThinStrokesAlways),
        !keeps_english_text(MessageId::AppearanceThinStrokesAlways) ==> has_non_ascii(zh_cn_text(MessageId::AppearanceThinStrokesAlways)),
{
    reveal_strlit("Always");
    reveal_strlit("始终");
    assert(is_ascii_text("Always"@));
    assert("始终"@[0] == '\u{59cb}');
    assert(("始终"@[0] as u32) >= 128);
}

proof fn lemma_texts_appearance_contrast_always()
    ensures
        en_us_text(MessageId::AppearanceContrastAlways) == "Always"@,
        zh_cn_text(MessageId::AppearanceContrastAlways) == "始终"@,
        is_ascii_text(en_us_text(MessageId::AppearanceContrastAlways)),
        keeps_english_text(MessageId::AppearanceContrastAlways) ==> zh_cn_text(MessageId::AppearanceContrastAlways) == en_us_text(MessageId::AppearanceContrastAlways),
        !keeps_english_text(MessageId::AppearanceContrastAlways) ==> has_non_ascii(zh_cn_text(MessageId::AppearanceContrastAlways)),
{
    reveal_strlit("Always");
    reveal_strlit("始终");
    assert(is_ascii_text("Always"@));
    assert("始终"@[0] == '\u{59cb}');
    assert(("始终"@[0] as u32) >= 128);
}

proof fn lemma_texts_appearance_contrast_named_colors()
    ensures
        en_us_text(MessageId::AppearanceContrastNamedColors) == "Only for named colors"@,
        zh_cn_text(MessageId::AppearanceContrastNamedColors) == "仅命名颜色"@,
        is_ascii_text(en_us_text(MessageId::AppearanceContrastNamedColors)),
        keeps_english_text(MessageId::AppearanceContrastNamedColors) ==> zh_cn_text(MessageId::AppearanceContrastNamedColors) == en_us_text(MessageId::AppearanceContrastNamedColors),
        !keeps_english_text(MessageId::AppearanceContrastNamedColors) ==> has_non_ascii(zh_cn_text(MessageId::AppearanceContrastNamedColors)),
{
    reveal_strlit("Only for named colors");
    reveal_strlit("仅命名颜色");
    assert(is_ascii_text("Only for named colors"@));
    assert("仅命名颜色"@[0] == '\u{4ec5}');
    assert(("仅命名颜色"@[0] as u32) >= 128);
}

proof fn lemma_texts_appearance_never()
    ensures
        en_us_text(MessageId::AppearanceNever) == "Never"@,
        zh_cn_text(MessageId::AppearanceNever) == "从不"@,
        is_ascii_text(en_us_text(MessageId::AppearanceNever)),
        keeps_english_text(MessageId::AppearanceNever) ==> zh_cn_text(MessageId::AppearanceNever) == en_us_text(MessageId::AppearanceNever),
        !keeps_english_text(MessageId::AppearanceNever) ==> has_non_ascii(zh_cn_text(MessageId::AppearanceNever)),
{
    reveal_strlit("Never");
    reveal_strlit("从不");
    assert(is_ascii_text("Never"@));
    assert("从不"@[0] == '\u{4ece}');
    assert(("从不"@[0] as u32) >= 128);
}

proof fn lemma_texts_appearance_always()
    ensures
        en_us_text(MessageId::AppearanceAlways) == "Always"@,
        zh_cn_text(MessageId::AppearanceAlways) == "始终"@,
        is_ascii_text(en_us_text(MessageId::AppearanceAlways)),
        keeps_english_text(MessageId::AppearanceAlways) ==> zh_cn_text(MessageId::AppearanceAlways) == en_us_text(MessageId::AppearanceAlways),
        !keeps_english_text(MessageId::AppearanceAlways) ==> has_non_ascii(zh_cn_text(MessageId::AppearanceAlways)),
{
    reveal_strlit("Always");
    reveal_strlit("始终");
    assert(is_ascii_text("Always"@));
    assert("始终"@[0] == '\u{59cb}');
    assert(("始终"@[0] as u32) >= 128);
}

proof fn lemma_texts_features_category_general()
    ensures
        en_us_text(MessageId::FeaturesCategoryGeneral) == "General"@,
        zh_cn_text(MessageId::FeaturesCategoryGeneral) == "通用"@,
        is_ascii_text(en_us_text(MessageId::FeaturesCategoryGeneral)),
        keeps_english_text(MessageId::FeaturesCategoryGeneral) ==> zh_cn_text(MessageId::FeaturesCategoryGeneral) == en_us_text(MessageId::FeaturesCategoryGeneral),
        !keeps_english_text(MessageId::FeaturesCategoryGeneral) ==> has_non_ascii(zh_cn_text(MessageId::FeaturesCategoryGeneral)),
{
    reveal_strlit("General");
    reveal_strlit("通用");
    assert(is_ascii_text("General"@));
    assert("通用"@[0] == '\u{901a}');
    assert(("通用"@[0] as u32) >= 128);
}

proof fn lemma_texts_features_category_session()
    ensures
        en_us_text(MessageId::FeaturesCategorySession) == "Session"@,
        zh_cn_text(MessageId::FeaturesCategorySession) == "会话"@,
        is_ascii_text(en_us_text(MessageId::FeaturesCategorySession)),
        keeps_english_text(MessageId::FeaturesCategorySession) ==> zh_cn_text(MessageId::FeaturesCategorySession) == en_us_text(MessageId::FeaturesCategorySession),
        !keeps_english_text(MessageId::FeaturesCategorySession) ==> has_non_ascii(zh_cn_text(MessageId::FeaturesCategorySession)),
{
    reveal_strlit("Session");
    reveal_strlit("会话");
    assert(is_ascii_text("Session"@));
    assert("会话"@[0] == '\u{4f1a}');
    assert(("会话"@[0] as u32) >= 128);
}

proof fn lemma_texts_features_category_keys()
    ensures
        en_us_text(MessageId::FeaturesCategoryKeys) == "Keys"@,
        zh_cn_text(MessageId::FeaturesCategoryKeys) == "按键"@,
        is_ascii_text(en_us_text(MessageId::FeaturesCategoryKeys)),
        keeps_english_text(MessageId::FeaturesCategoryKeys) ==> zh_cn_text(MessageId::FeaturesCategoryKeys) == en_us_text(MessageId::FeaturesCategoryKeys),
        !keeps_english_text(MessageId::FeaturesCategoryKeys) ==> has_non_ascii(zh_cn_text(MessageId::FeaturesCategoryKeys)),
{
    reveal_strlit("Keys");
    reveal_strlit("按键");
    assert(is_ascii_text("Keys"@));
    assert("按键"@[0] == '\u{6309}');
    assert(("按键"@[0] as u32) >= 128);
}

proof fn lemma_texts_features_category_text_editing()
    ensures
        en_us_text(MessageId::FeaturesCategoryTextEditing) == "Text Editing"@,
        zh_cn_text(MessageId::FeaturesCategoryTextEditing) == "文本编辑"@,
        is_ascii_text(en_us_text(MessageId::FeaturesCategoryTextEditing)),
        keeps_english_text(MessageId::FeaturesCategoryTextEditing) ==> zh_cn_text(MessageId::FeaturesCategoryTextEditing) == en_us_text(MessageId::FeaturesCategoryTextEditing),
        !keeps_english_text(MessageId::FeaturesCategoryTextEditing) ==> has_non_ascii(zh_cn_text(MessageId::FeaturesCategoryTextEditing)),
{
    reveal_strlit("Text Editing");
    reveal_strlit("文本编辑");
    assert(is_ascii_text("Text Editing"@));
    assert("文本编辑"@[0] == '\u{6587}');
    assert(("文本编辑"@[0] as u32) >= 128);
}

proof fn lemma_texts_features_category_terminal_input()
    ensures
        en_us_text(MessageId::FeaturesCategoryTerminalInput) == "Terminal Input"@,
        zh_cn_text(MessageId::FeaturesCategoryTerminalInput) == "终端输入"@,
        is_ascii_text(en_us_text(MessageId::FeaturesCategoryTerminalInput)),
        keeps_english_text(MessageId::FeaturesCategoryTerminalInput) ==> zh_cn_text(MessageId::FeaturesCategoryTerminalInput) == en_us_text(MessageId::FeaturesCategoryTerminalInput),
        !keeps_english_text(MessageId::FeaturesCategoryTerminalInput) ==> has_non_ascii(zh_cn_text(MessageId::FeaturesCategoryTerminalInput)),
{
    reveal_strlit("Terminal Input");
    reveal_strlit("终端输入");
    assert(is_ascii_text("Terminal Input"@));
    assert("终端输入"@[0] == '\u{7ec8}');
    assert(("终端输入"@[0] as u32) >= 128);
}

proof fn lemma_texts_features_category_terminal()
    ensures
        en_us_text(MessageId::FeaturesCategoryTerminal) == "Terminal"@,
        zh_cn_text(MessageId::FeaturesCategoryTerminal) == "终端"@,
        is_ascii_text(en_us_text(MessageId::FeaturesCategoryTerminal)),
        keeps_english_text(MessageId::FeaturesCategoryTerminal) ==> zh_cn_text(MessageId::FeaturesCategoryTerminal) == en_us_text(MessageId::FeaturesCategoryTerminal),
        !keeps_english_text(MessageId::FeaturesCategoryTerminal) ==> has_non_ascii(zh_cn_text(MessageId::FeaturesCategoryTerminal)),
{
    reveal_strlit("Terminal");
    reveal_strlit("终端");
    assert(is_ascii_text("Terminal"@));
    assert("终端"@[0] == '\u{7ec8}');
    assert(("终端"@[0] as u32) >= 128);
}

proof fn lemma_texts_features_category_notifications()
    ensures
        en_us_text(MessageId::FeaturesCategoryNotifications) == "Notifications"@,
        zh_cn_text(MessageId::FeaturesCategoryNotifications) == "通知"@,
        is_ascii_text(en_us_text(MessageId::FeaturesCategoryNotifications)),
        keeps_english_text(MessageId::FeaturesCategoryNotifications) ==> zh_cn_text(MessageId::FeaturesCategoryNotifications) == en_us_text(MessageId::FeaturesCategoryNotifications),
        !keeps_english_text(MessageId::FeaturesCategoryNotifications) ==> has_non_ascii(zh_cn_text(MessageId::FeaturesCategoryNotifications)),
{
    reveal_strlit("Notifications");
    reveal_strlit("通知");
    assert(is_ascii_text("Notifications"@));
    assert("通知"@[0] == '\u{901a}');
    assert(("通知"@[0] as u32) >= 128);
}

proof fn lemma_texts_features_category_workflows()
    ensures
        en_us_text(MessageId::FeaturesCategoryWorkflows) == "Workflows"@,
        zh_cn_text(MessageId::FeaturesCategoryWorkflows) == "工作流"@,
        is_ascii_text(en_us_text(MessageId::FeaturesCategoryWorkflows)),
        keeps_english_text(MessageId::FeaturesCategoryWorkflows) ==> zh_cn_text(MessageId::FeaturesCategoryWorkflows) == en_us_text(MessageId::FeaturesCategoryWorkflows),
        !keeps_english_text(MessageId::FeaturesCategoryWorkflows) ==> has_non_ascii(zh_cn_text(MessageId::FeaturesCategoryWorkflows)),
{
    reveal_strlit("Workflows");
    reveal_strlit("工作流");
    assert(is_ascii_text("Workflows"@));
    assert("工作流"@[0] == '\u{5de5}');
    assert(("工作流"@[0] as u32) >= 128);
}

proof fn lemma_texts_features_category_system()
    ensures
        en_us_text(MessageId::FeaturesCategorySystem) == "System"@,
        zh_cn_text(MessageId::FeaturesCategorySystem) == "系统"@,
        is_ascii_text(en_us_text(MessageId::FeaturesCategorySystem)),
        keeps_english_text(MessageId::FeaturesCategorySystem) ==> zh_cn_text(MessageId::FeaturesCategorySystem) == en_us_text(MessageId::FeaturesCategorySystem),
        !keeps_english_text(MessageId::FeaturesCategorySystem) ==> has_non_ascii(zh_cn_text(MessageId::FeaturesCategorySystem)),
{
    reveal_strlit("System");
    reveal_strlit("系统");
    assert(is_ascii_text("System"@));
    assert("系统"@[0] == '\u{7cfb}');
    assert(("系统"@[0] as u32) >= 128);
}

proof fn lemma_texts_features_copy_on_select()
    ensures
        en_us_text(MessageId::FeaturesCopyOnSelect) == "Copy on select within the terminal"@,
        zh_cn_text(MessageId::FeaturesCopyOnSelect) == "在终端中选中时复制"@,
        is_ascii_text(en_us_text(MessageId::FeaturesCopyOnSelect)),
        keeps_english_text(MessageId::FeaturesCopyOnSelect) ==> zh_cn_text(MessageId::FeaturesCopyOnSelect) == en_us_text(MessageId::FeaturesCopyOnSelect),
        !keeps_english_text(MessageId::FeaturesCopyOnSelect) ==> has_non_ascii(zh_cn_text(MessageId::FeaturesCopyOnSelect)),
{
    reveal_strlit("Copy on select within the terminal");
    reveal_strlit("在终端中选中时复制");
    assert(is_ascii_text("Copy on select within the terminal"@));
    assert("在终端中选中时复制"@[0] == '\u{5728}');
    assert(("在终端中选中时复制"@[0] as u32) >= 128);
}

proof fn lemma_texts_features_linux_selection_clipboard()
    ensures
        en_us_text(MessageId::FeaturesLinuxSelectionClipboard) == "Linux selection clipboard"@,
        zh_cn_text(MessageId::FeaturesLinuxSelectionClipboard) == "Linux 选择剪贴板"@,
        is_ascii_text(en_us_text(MessageId::FeaturesLinuxSelectionClipboard)),
        keeps_english_text(MessageId::FeaturesLinuxSelectionClipboard) ==> zh_cn_text(MessageId::FeaturesLinuxSelectionClipboard) == en_us_text(MessageId::FeaturesLinuxSelectionClipboard),
        !keeps_english_text(MessageId::FeaturesLinuxSelectionClipboard) ==> has_non_ascii(zh_cn_text(MessageId::FeaturesLinuxSelectionClipboard)),
{
    reveal_strlit("Linux selection clipboard");
    reveal_strlit("Linux 选择剪贴板");
    assert(is_ascii_text("Linux selection clipboard"@));
    assert("Linux 选择剪贴板"@[6] == '\u{9009}');
    assert(("Linux 选择剪贴板"@[6] as u32) >= 128);
}

proof fn lemma_texts_features_autocomplete_quotes()
    ensures
        en_us_text(MessageId::FeaturesAutocompleteQuotes) == "Autocomplete quotes, parentheses, and brackets"@,
        zh_cn_text(MessageId::FeaturesAutocompleteQuotes) == "自动补全引号、圆括号和方括号"@,
        is_ascii_text(en_us_text(MessageId::FeaturesAutocompleteQuotes)),
        keeps_english_text(MessageId::FeaturesAutocompleteQuotes) ==> zh_cn_text(MessageId::FeaturesAutocompleteQuotes) == en_us_text(MessageId::FeaturesAutocompleteQuotes),
        !keeps_english_text(MessageId::FeaturesAutocompleteQuotes) ==> has_non_ascii(zh_cn_text(MessageId::FeaturesAutocompleteQuotes)),
{
    reveal_strlit("Autocomplete quotes, parentheses, and brackets");
    reveal_strlit("自动补全引号、圆括号和方括号");
    assert(is_ascii_text("Autocomplete quotes, parentheses, and brackets"@));
    assert("自动补全引号、圆括号和方括号"@[0] == '\u{81ea}');
    assert(("自动补全引号、圆括号和方括号"@[0] as u32) >= 128);
}

proof fn lemma_texts_features_restore_windows()
    ensures
        en_us_text(MessageId::FeaturesRestoreWindows) == "Restore windows, tabs, and panes on startup"@,
        zh_cn_text(MessageId::FeaturesRestoreWindows) == "启动时恢复窗口、标签页和窗格"@,
        is_ascii_text(en_us_text(MessageId::FeaturesRestoreWindows)),
        keeps_english_text(MessageId::FeaturesRestoreWindows) ==> zh_cn_text(MessageId::FeaturesRestoreWindows) == en_us_text(MessageId::FeaturesRestoreWindows),
        !keeps_english_text(MessageId::FeaturesRestoreWindows) ==> has_non_ascii(zh_cn_text(MessageId::FeaturesRestoreWindows)),
{
    reveal_strlit("Restore windows, tabs, and panes on startup");
    reveal_strlit("启动时恢复窗口、标签页和窗格");
    assert(is_ascii_text("Restore windows, tabs, and panes on startup"@));
    assert("启动时恢复窗口、标签页和窗格"@[0] == '\u{542f}');
    assert(("启动时恢复窗口、标签页和窗格"@[0] as u32) >= 128);
}

proof fn lemma_texts_features_scroll_reporting()
    ensures
        en_us_text(MessageId::FeaturesScrollReporting) == "Scroll reporting"@,
        zh_cn_text(MessageId::FeaturesScrollReporting) == "滚动上报"@,
        is_ascii_text(en_us_text(MessageId::FeaturesScrollReporting)),
        keeps_english_text(MessageId::FeaturesScrollReporting) ==> zh_cn_text(MessageId::FeaturesScrollReporting) == en_us_text(MessageId::FeaturesScrollReporting),
        !keeps_english_text(MessageId::FeaturesScrollReporting) ==> has_non_ascii(zh_cn_text(MessageId::FeaturesScrollReporting)),
{
    reveal_strlit("Scroll reporting");
    reveal_strlit("滚动上报");
    assert(is_ascii_text("Scroll reporting"@));
    assert("滚动上报"@[0] == '\u{6eda}');
    assert(("滚动上报"@[0] as u32) >= 128);
}

proof fn lemma_texts_features_completions_while_typing()
    ensures
        en_us_text(MessageId::FeaturesCompletionsWhileTyping) == "Completions while typing"@,
        zh_cn_text(MessageId::FeaturesCompletionsWhileTyping) == "输入时自动补全"@,
        is_ascii_text(en_us_text(MessageId::FeaturesCompletionsWhileTyping)),
        keeps_english_text(MessageId::FeaturesCompletionsWhileTyping) ==> zh_cn_text(MessageId::FeaturesCompletionsWhileTyping) == en_us_text(MessageId::FeaturesCompletionsWhileTyping),
        !keeps_english_text(MessageId::FeaturesCompletionsWhileTyping) ==> has_non_ascii(zh_cn_text(MessageId::FeaturesCompletionsWhileTyping)),
{
    reveal_strlit("Completions while typing");
    reveal_strlit("输入时自动补全");
    assert(is_ascii_text("Completions while typing"@));
    assert("输入时自动补全"@[0] == '\u{8f93}');
    assert(("输入时自动补全"@[0] as u32) >= 128);
}

proof fn lemma_texts_features_command_corrections()
    ensures
        en_us_text(MessageId::FeaturesCommandCorrections) == "Command corrections"@,
        zh_cn_text(MessageId::FeaturesCommandCorrections) == "命令纠错"@,
        is_ascii_text(en_us_text(MessageId::FeaturesCommandCorrections)),
        keeps_english_text(MessageId::FeaturesCommandCorrections) ==> zh_cn_text(MessageId::FeaturesCommandCorrections) == en_us_text(MessageId::FeaturesCommandCorrections),
        !keeps_english_text(MessageId::FeaturesCommandCorrections) ==> has_non_ascii(zh_cn_text(MessageId::FeaturesCommandCorrections)),
{
    reveal_strlit("Command corrections");
    reveal_strlit("命令纠错");
    assert(is_ascii_text("Command corrections"@));
    assert("命令纠错"@[0] == '\u{547d}');
    assert(("命令纠错"@[0] as u32) >= 128);
}

proof fn lemma_texts_features_error_underlining()
    ensures
        en_us_text(MessageId::FeaturesErrorUnderlining) == "Error underlining"@,
        zh_cn_text(MessageId::FeaturesErrorUnderlining) == "错误下划线"@,
        is_ascii_text(en_us_text(MessageId::FeaturesErrorUnderlining)),
        keeps_english_text(MessageId::FeaturesErrorUnderlining) ==> zh_cn_text(MessageId::FeaturesErrorUnderlining) == en_us_text(MessageId::FeaturesErrorUnderlining),
        !keeps_english_text(MessageId::FeaturesErrorUnderlining) ==> has_non_ascii(zh_cn_text(MessageId::FeaturesErrorUnderlining)),
{
    reveal_strlit("Error underlining");
    reveal_strlit("错误下划线");
    assert(is_ascii_text("Error underlining"@));
    assert("错误下划线"@[0] == '\u{9519}');
    assert(("错误下划线"@[0] as u32) >= 128);
}

proof fn lemma_texts_features_syntax_highlighting()
    ensures
        en_us_text(MessageId::FeaturesSyntaxHighlighting) == "Syntax highlighting"@,
        zh_cn_text(MessageId::FeaturesSyntaxHighlighting) == "语法高亮"@,
        is_ascii_text(en_us_text(MessageId::FeaturesSyntaxHighlighting)),
        keeps_english_text(MessageId::FeaturesSyntaxHighlighting) ==> zh_cn_text(MessageId::FeaturesSyntaxHighlighting) == en_us_text(MessageId::FeaturesSyntaxHighlighting),
        !keeps_english_text(MessageId::FeaturesSyntaxHighlighting) ==> has_non_ascii(zh_cn_text(MessageId::FeaturesSyntaxHighlighting)),
{
    reveal_strlit("Syntax highlighting");
    reveal_strlit("语法高亮");
    assert(is_ascii_text("Syntax highlighting"@));
    assert("语法高亮"@[0] == '\u{8bed}');
    assert(("语法高亮"@[0] as u32) >= 128);
}

proof fn lemma_texts_features_audible_terminal_bell()
    ensures
        en_us_text(MessageId::FeaturesAudibleTerminalBell) == "Audible terminal bell"@,
        zh_cn_text(MessageId::FeaturesAudibleTerminalBell) == "终端响铃"@,
        is_ascii_text(en_us_text(MessageId::FeaturesAudibleTerminalBell)),
        keeps_english_text(MessageId::FeaturesAudibleTerminalBell) ==> zh_cn_text(MessageId::FeaturesAudibleTerminalBell) == en_us_text(MessageId::FeaturesAudibleTerminalBell),
        !keeps_english_text(MessageId::FeaturesAudibleTerminalBell) ==> has_non_ascii(zh_cn_text(MessageId::FeaturesAudibleTerminalBell)),
{
    reveal_strlit("Audible terminal bell");
    reveal_strlit("终端响铃");
    assert(is_ascii_text("Audible terminal bell"@));
    assert("终端响铃"@[0] == '\u{7ec8}');
    assert(("终端响铃"@[0] as u32) >= 128);
}

proof fn lemma_texts_features_autosuggestions()
    ensures
        en_us_text(MessageId::FeaturesAutosuggestions) == "Autosuggestions"@,
        zh_cn_text(MessageId::FeaturesAutosuggestions) == "自动建议"@,
        is_ascii_text(en_us_text(MessageId::FeaturesAutosuggestions)),
        keeps_english_text(MessageId::FeaturesAutosuggestions) ==> zh_cn_text(MessageId::FeaturesAutosuggestions) == en_us_text(MessageId::FeaturesAutosuggestions),
        !keeps_english_text(MessageId::FeaturesAutosuggestions) ==> has_non_ascii(zh_cn_text(MessageId::FeaturesAutosuggestions)),
{
    reveal_strlit("Autosuggestions");
    reveal_strlit("自动建议");
    assert(is_ascii_text("Autosuggestions"@));
    assert("自动建议"@[0] == '\u{81ea}');
    assert(("自动建议"@[0] as u32) >= 128);
}

proof fn lemma_texts_features_autosuggestion_keybinding_hint()
    ensures
        en_us_text(MessageId::FeaturesAutosuggestionKeybindingHint) == "Autosuggestion keybinding hint"@,
        zh_cn_text(MessageId::FeaturesAutosuggestionKeybindingHint) == "自动建议快捷键提示"@,
        is_ascii_text(en_us_text(MessageId::FeaturesAutosuggestionKeybindingHint)),
        keeps_english_text(MessageId::FeaturesAutosuggestionKeybindingHint) ==> zh_cn_text(MessageId::FeaturesAutosuggestionKeybindingHint) == en_us_text(MessageId::FeaturesAutosuggestionKeybindingHint),
        !keeps_english_text(MessageId::FeaturesAutosuggestionKeybindingHint) ==> has_non_ascii(zh_cn_text(MessageId::FeaturesAutosuggestionKeybindingHint)),
{
    reveal_strlit("Autosuggestion keybinding hint");
    reveal_strlit("自动建议快捷键提示");
    assert(is_ascii_text("Autosuggestion keybinding hint"@));
    assert("自动建议快捷键提示"@[0] == '\u{81ea}');
    assert(("自动建议快捷键提示"@[0] as u32) >= 128);
}

proof fn lemma_texts_features_ssh_wrapper()
    ensures
        en_us_text(MessageId::FeaturesSshWrapper) == "Warp SSH wrapper"@,
        zh_cn_text(MessageId::FeaturesSshWrapper) == "Warp SSH 包装器"@,
        is_ascii_text(en_us_text(MessageId::FeaturesSshWrapper)),
        keeps_english_text(MessageId::FeaturesSshWrapper) ==> zh_cn_text(MessageId::FeaturesSshWrapper) == en_us_text(MessageId::FeaturesSshWrapper),
        !keeps_english_text(MessageId::FeaturesSshWrapper) ==> has_non_ascii(zh_cn_text(MessageId::FeaturesSshWrapper)),
{
    reveal_strlit("Warp SSH wrapper");
    reveal_strlit("Warp SSH 包装器");
    assert(is_ascii_text("Warp SSH wrapper"@));
    assert("Warp SSH 包装器"@[9] == '\u{5305}');
    assert(("Warp SSH 包装器"@[9] as u32) >= 128);
}

proof fn lemma_texts_features_link_tooltip()
    ensures
        en_us_text(MessageId::FeaturesLinkTooltip) == "Show tooltip on click on links"@,
        zh_cn_text(MessageId::FeaturesLinkTooltip) == "点击链接时显示提示"@,
        is_ascii_text(en_us_text(MessageId::FeaturesLinkTooltip)),
        keeps_english_text(MessageId::FeaturesLinkTooltip) ==> zh_cn_text(MessageId::FeaturesLinkTooltip) == en_us_text(MessageId::FeaturesLinkTooltip),
        !keeps_english_text(MessageId::FeaturesLinkTooltip) ==> has_non_ascii(zh_cn_text(MessageId::FeaturesLinkTooltip)),
{
    reveal_strlit("Show tooltip on click on links");
    reveal_strlit("点击链接时显示提示");
    assert(is_ascii_text("Show tooltip on click on links"@));
    assert("点击链接时显示提示"@[0] == '\u{70b9}');
    assert(("点击链接时显示提示"@[0] as u32) >= 128);
}

proof fn lemma_texts_features_vim_unnamed_register()
    ensures
        en_us_text(MessageId::FeaturesVimUnnamedRegister) == "Vim unnamed register as system clipboard"@,
        zh_cn_text(MessageId::FeaturesVimUnnamedRegister) == "Vim 未命名寄存器作为系统剪贴板"@,
        is_ascii_text(en_us_text(MessageId::FeaturesVimUnnamedRegister)),
        keeps_english_text(MessageId::FeaturesVimUnnamedRegister) ==> zh_cn_text(MessageId::FeaturesVimUnnamedRegister) == en_us_text(MessageId::FeaturesVimUnnamedRegister),
        !keeps_english_text(MessageId::FeaturesVimUnnamedRegister) ==> has_non_ascii(zh_cn_text(MessageId::FeaturesVimUnnamedRegister)),
{
    reveal_strlit("Vim unnamed register as system clipboard");
    reveal_strlit("Vim 未命名寄存器作为系统剪贴板");
    assert(is_ascii_text("Vim unnamed register as system clipboard"@));
    assert("Vim 未命名寄存器作为系统剪贴板"@[4] == '\u{672a}');
    assert(("Vim 未命名寄存器作为系统剪贴板"@[4] as u32) >= 128);
}

proof fn lemma_texts_features_vim_status_bar()
    ensures
        en_us_text(MessageId::FeaturesVimStatusBar) == "Vim status bar"@,
        zh_cn_text(MessageId::FeaturesVimStatusBar) == "Vim 状态栏"@,
        is_ascii_text(en_us_text(MessageId::FeaturesVimStatusBar)),
        keeps_english_text(MessageId::FeaturesVimStatusBar) ==> zh_cn_text(MessageId::FeaturesVimStatusBar) == en_us_text(MessageId::FeaturesVimStatusBar),
        !keeps_english_text(MessageId::FeaturesVimStatusBar) ==> has_non_ascii(zh_cn_text(MessageId::FeaturesVimStatusBar)),
{
    reveal_strlit("Vim status bar");
    reveal_strlit("Vim 状态栏");
    assert(is_ascii_text("Vim status bar"@));
    assert("Vim 状态栏"@[4] == '\u{72b6}');
    assert(("Vim 状态栏"@[4] as u32) >= 128);
}

proof fn lemma_texts_features_wayland_window_management()
    ensures
        en_us_text(MessageId::FeaturesWaylandWindowManagement) == "Wayland for window management"@,
        zh_cn_text(MessageId::FeaturesWaylandWindowManagement) == "使用 Wayland 进行窗口管理"@,
        is_ascii_text(en_us_text(MessageId::FeaturesWaylandWindowManagement)),
        keeps_english_text(MessageId::FeaturesWaylandWindowManagement) ==> zh_cn_text(MessageId::FeaturesWaylandWindowManagement) == en_us_text(MessageId::FeaturesWaylandWindowManagement),
        !keeps_english_text(MessageId::FeaturesWaylandWindowManagement) ==> has_non_ascii(zh_cn_text(MessageId::FeaturesWaylandWindowManagement)),
{
    reveal_strlit("Wayland for window management");
    reveal_strlit("使用 Wayland 进行窗口管理");
    assert(is_ascii_text("Wayland for window management"@));
    assert("使用 Wayland 进行窗口管理"@[0] == '\u{4f7f}');
    assert(("使用 Wayland 进行窗口管理"@[0] as u32) >= 128);
}

proof fn lemma_texts_features_configure_global_hotkey()
    ensures
        en_us_text(MessageId::FeaturesConfigureGlobalHotkey) == "Configure Global Hotkey"@,
        zh_cn_text(MessageId::FeaturesConfigureGlobalHotkey) == "配置全局热键"@,
        is_ascii_text(en_us_text(MessageId::FeaturesConfigureGlobalHotkey)),
        keeps_english_text(MessageId::FeaturesConfigureGlobalHotkey) ==> zh_cn_text(MessageId::FeaturesConfigureGlobalHotkey) == en_us_text(MessageId::FeaturesConfigureGlobalHotkey),
        !keeps_english_text(MessageId::FeaturesConfigureGlobalHotkey) ==> has_non_ascii(zh_cn_text(MessageId::FeaturesConfigureGlobalHotkey)),
{
    reveal_strlit("Configure Global Hotkey");
    reveal_strlit("配置全局热键");
    assert(is_ascii_text("Configure Global Hotkey"@));
    assert("配置全局热键"@[0] == '\u{914d}');
    assert(("配置全局热键"@[0] as u32) >= 128);
}

proof fn lemma_texts_features_make_default_terminal()
    ensures
        en_us_text(MessageId::FeaturesMakeDefaultTerminal) == "Make Warp the default terminal"@,
        zh_cn_text(MessageId::FeaturesMakeDefaultTerminal) == "将 Warp 设为默认终端"@,
        is_ascii_text(en_us_text(MessageId::FeaturesMakeDefaultTerminal)),
        keeps_english_text(MessageId::FeaturesMakeDefaultTerminal) ==> zh_cn_text(MessageId::FeaturesMakeDefaultTerminal) == en_us_text(MessageId::FeaturesMakeDefaultTerminal),
        !keeps_english_text(MessageId::FeaturesMakeDefaultTerminal) ==> has_non_ascii(zh_cn_text(MessageId::FeaturesMakeDefaultTerminal)),
{
    reveal_strlit("Make Warp the default terminal");
    reveal_strlit("将 Warp 设为默认终端");
    assert(is_ascii_text("Make Warp the default terminal"@));
    assert("将 Warp 设为默认终端"@[0] == '\u{5c06}');
    assert(("将 Warp 设为默认终端"@[0] as u32) >= 128);
}

proof fn lemma_texts_features_left_option_meta()
    ensures
        en_us_text(MessageId::FeaturesLeftOptionMeta) == "Left Option key is Meta"@,
        zh_cn_text(MessageId::FeaturesLeftOptionMeta) == "左侧 Option 键为 Meta"@,
        is_ascii_text(en_us_text(MessageId::FeaturesLeftOptionMeta)),
        keeps_english_text(MessageId::FeaturesLeftOptionMeta) ==> zh_cn_text(MessageId::FeaturesLeftOptionMeta) == en_us_text(MessageId::FeaturesLeftOptionMeta),
        !keeps_english_text(MessageId::FeaturesLeftOptionMeta) ==> has_non_ascii(zh_cn_text(MessageId::FeaturesLeftOptionMeta)),
{
    reveal_strlit("Left Option key is Meta");
    reveal_strlit("左侧 Option 键为 Meta");
    assert(is_ascii_text("Left Option key is Meta"@));
    assert("左侧 Option 键为 Meta"@[0] == '\u{5de6}');
    assert(("左侧 Option 键为 Meta"@[0] as u32) >= 128);
}

proof fn lemma_texts_features_right_option_meta()
    ensures
        en_us_text(MessageId::FeaturesRightOptionMeta) == "Right Option key is Meta"@,
        zh_cn_text(MessageId::FeaturesRightOptionMeta) == "右侧 Option 键为 Meta"@,
        is_ascii_text(en_us_text(MessageId::FeaturesRightOptionMeta)),
        keeps_english_text(MessageId::FeaturesRightOptionMeta) ==> zh_cn_text(MessageId::FeaturesRightOptionMeta) == en_us_text(MessageId::FeaturesRightOptionMeta),
        !keeps_english_text(MessageId::FeaturesRightOptionMeta) ==> has_non_ascii(zh_cn_text(MessageId::FeaturesRightOptionMeta)),
{
    reveal_strlit("Right Option key is Meta");
    reveal_strlit("右侧 Option 键为 Meta");
    assert(is_ascii_text("Right Option key is Meta"@));
    assert("右侧 Option 键为 Meta"@[0] == '\u{53f3}');
    assert(("右侧 Option 键为 Meta"@[0] as u32) >= 128);
}

proof fn lemma_texts_features_left_alt_meta()
    ensures
        en_us_text(MessageId::FeaturesLeftAltMeta) == "Left Alt key is Meta"@,
        zh_cn_text(MessageId::FeaturesLeftAltMeta) == "左侧 Alt 键为 Meta"@,
        is_ascii_text(en_us_text(MessageId::FeaturesLeftAltMeta)),
        keeps_english_text(MessageId::FeaturesLeftAltMeta) ==> zh_cn_text(MessageId::FeaturesLeftAltMeta) == en_us_text(MessageId::FeaturesLeftAltMeta),
        !keeps_english_text(MessageId::FeaturesLeftAltMeta) ==> has_non_ascii(zh_cn_text(MessageId::FeaturesLeftAltMeta)),
{
    reveal_strlit("Left Alt key is Meta");
    reveal_strlit("左侧 Alt 键为 Meta");
    assert(is_ascii_text("Left Alt key is Meta"@));
    assert("左侧 Alt 键为 Meta"@[0] == '\u{5de6}');
    assert(("左侧 Alt 键为 Meta"@[0] as u32) >= 128);
}

proof fn lemma_texts_features_right_alt_meta()
    ensures
        en_us_text(MessageId::FeaturesRightAltMeta) == "Right Alt key is Meta"@,
        zh_cn_text(MessageId::FeaturesRightAltMeta) == "右侧 Alt 键为 Meta"@,
        is_ascii_text(en_us_text(MessageId::FeaturesRightAltMeta)),
        keeps_english_text(MessageId::FeaturesRightAltMeta) ==> zh_cn_text(MessageId::FeaturesRightAltMeta) == en_us_text(MessageId::FeaturesRightAltMeta),
        !keeps_english_text(MessageId::FeaturesRightAltMeta) ==> has_non_ascii(zh_cn_text(MessageId::FeaturesRightAltMeta)),
{
    reveal_strlit("Right Alt key is Meta");
    reveal_strlit("右侧 Alt 键为 Meta");
    assert(is_ascii_text("Right Alt key is Meta"@));
    assert("右侧 Alt 键为 Meta"@[0] == '\u{53f3}');
    assert(("右侧 Alt 键为 Meta"@[0] as u32) >= 128);
}

proof fn lemma_texts_features_performance_warning()
    ensures
        en_us_text(MessageId::FeaturesPerformanceWarning) == "Setting the limit above 100k lines may impact performance."@,
        zh_cn_text(MessageId::FeaturesPerformanceWarning) == "将限制设置为超过 10 万行可能会影响性能。"@,
        is_ascii_text(en_us_text(MessageId::FeaturesPerformanceWarning)),
        keeps_english_text(MessageId::FeaturesPerformanceWarning) ==> zh_cn_text(MessageId::FeaturesPerformanceWarning) == en_us_text(MessageId::FeaturesPerformanceWarning),
        !keeps_english_text(MessageId::FeaturesPerformanceWarning) ==> has_non_ascii(zh_cn_text(MessageId::FeaturesPerformanceWarning)),
{
    reveal_strlit("Setting the limit above 100k lines may impact performance.");
    reveal_strlit("将限制设置为超过 10 万行可能会影响性能。");
    assert(is_ascii_text("Setting the limit above 100k lines may impact performance."@));
    assert("将限制设置为超过 10 万行可能会影响性能。"@[0] == '\u{5c06}');
    assert(("将限制设置为超过 10 万行可能会影响性能。"@[0] as u32) >= 128);
}

proof fn lemma_texts_code_initialization_settings()
    ensures
        en_us_text(MessageId::CodeInitializationSettings) == "Initialization Settings"@,
        zh_cn_text(MessageId::CodeInitializationSettings) == "初始化设置"@,
        is_ascii_text(en_us_text(MessageId::CodeInitializationSettings)),
        keeps_english_text(MessageId::CodeInitializationSettings) ==> zh_cn_text(MessageId::CodeInitializationSettings) == en_us_text(MessageId::CodeInitializationSettings),
        !keeps_english_text(MessageId::CodeInitializationSettings) ==> has_non_ascii(zh_cn_text(MessageId::CodeInitializationSettings)),
{
    reveal_strlit("Initialization Settings");
    reveal_strlit("初始化设置");
    assert(is_ascii_text("Initialization Settings"@));
    assert("初始化设置"@[0] == '\u{521d}');
    assert(("初始化设置"@[0] as u32) >= 128);
}

proof fn lemma_texts_code_codebase_indexing()
    ensures
        en_us_text(MessageId::CodeCodebaseIndexing) == "Codebase indexing"@,
        zh_cn_text(MessageId::CodeCodebaseIndexing) == "代码库索引"@,
        is_ascii_text(en_us_text(MessageId::CodeCodebaseIndexing)),
        keeps_english_text(MessageId::CodeCodebaseIndexing) ==> zh_cn_text(MessageId::CodeCodebaseIndexing) == en_us_text(MessageId::CodeCodebaseIndexing),
        !keeps_english_text(MessageId::CodeCodebaseIndexing) ==> has_non_ascii(zh_cn_text(MessageId::CodeCodebaseIndexing)),
{
    reveal_strlit("Codebase indexing");
    reveal_strlit("代码库索引");
    assert(is_ascii_text("Codebase indexing"@));
    assert("代码库索引"@[0] == '\u{4ee3}');
    assert(("代码库索引"@[0] as u32) >= 128);
}

proof fn lemma_texts_code_codebase_index_description()
    ensures
        en_us_text(MessageId::CodeCodebaseIndexDescription) == "Warp can automatically index code repositories as you navigate them, helping agents quickly understand context and provide solutions. Code is never stored on the server."@,
        zh_cn_text(MessageId::CodeCodebaseIndexDescription) == "Warp 可以在您浏览代码仓库时自动建立索引，帮助智能体快速理解上下文并提供解决方案。代码永远不会存储在服务器上。"@,
        is_ascii_text(en_us_text(MessageId::CodeCodebaseIndexDescription)),
        keeps_english_text(MessageId::CodeCodebaseIndexDescription) ==> zh_cn_text(MessageId::CodeCodebaseIndexDescription) == en_us_text(MessageId::CodeCodebaseIndexDescription),
        !keeps_english_text(MessageId::CodeCodebaseIndexDescription) ==> has_non_ascii(zh_cn_text(MessageId::CodeCodebaseIndexDescription)),
{
    reveal_strlit("Warp can automatically index code repositories as you navigate them, helping agents quickly understand context and provide solutions. Code is never stored on the server.");
    reveal_strlit("Warp 可以在您浏览代码仓库时自动建立索引，帮助智能体快速理解上下文并提供解决方案。代码永远不会存储在服务器上。");
    assert(is_ascii_text("Warp can automatically index code repositories as you navigate them, helping agents quickly understand context and provide solutions. Code is never stored on the server."@));
    assert("Warp 可以在您浏览代码仓库时自动建立索引，帮助智能体快速理解上下文并提供解决方案。代码永远不会存储在服务器上。"@[5] == '\u{53ef}');
    assert(("Warp 可以在您浏览代码仓库时自动建立索引，帮助智能体快速理解上下文并提供解决方案。代码永远不会存储在服务器上。"@[5] as u32) >= 128);
}

proof fn lemma_texts_code_warp_indexing_ignore_description()
    ensures
        en_us_text(MessageId::CodeWarpIndexingIgnoreDescription) == "To exclude specific files or directories from indexing, add them to the .warpindexingignore file in your repository directory."@,
        zh_cn_text(MessageId::CodeWarpIndexingIgnoreDescription) == "要从索引中排除特定文件或目录，请将它们添加到仓库目录中的 .warpindexingignore 文件中。"@,
        is_ascii_text(en_us_text(MessageId::CodeWarpIndexingIgnoreDescription)),
        keeps_english_text(MessageId::CodeWarpIndexingIgnoreDescription) ==> zh_cn_text(MessageId::CodeWarpIndexingIgnoreDescription) == en_us_text(MessageId::CodeWarpIndexingIgnoreDescription),
        !keeps_english_text(MessageId::CodeWarpIndexingIgnoreDescription) ==> has_non_ascii(zh_cn_text(MessageId::CodeWarpIndexingIgnoreDescription)),
{
    reveal_strlit("To exclude specific files or directories from indexing, add them to the .warpindexingignore file in your repository directory.");
    reveal_strlit("要从索引中排除特定文件或目录，请将它们添加到仓库目录中的 .warpindexingignore 文件中。");
    assert(is_ascii_text("To exclude specific files or directories from indexing, add them to the .warpindexingignore file in your repository directory."@));
    assert("要从索引中排除特定文件或目录，请将它们添加到仓库目录中的 .warpindexingignore 文件中。"@[0] == '\u{8981}');
    assert(("要从索引中排除特定文件或目录，请将它们添加到仓库目录中的 .warpindexingignore 文件中。"@[0] as u32) >= 128);
}

proof fn lemma_texts_code_auto_index_feature_name()
    ensures
        en_us_text(MessageId::CodeAutoIndexFeatureName) == "Index new folders by default"@,
        zh_cn_text(MessageId::CodeAutoIndexFeatureName) == "默认索引新文件夹"@,
        is_ascii_text(en_us_text(MessageId::CodeAutoIndexFeatureName)),
        keeps_english_text(MessageId::CodeAutoIndexFeatureName) ==> zh_cn_text(MessageId::CodeAutoIndexFeatureName) == en_us_text(MessageId::CodeAutoIndexFeatureName),
        !keeps_english_text(MessageId::CodeAutoIndexFeatureName) ==> has_non_ascii(zh_cn_text(MessageId::CodeAutoIndexFeatureName)),
{
    reveal_strlit("Index new folders by default");
    reveal_strlit("默认索引新文件夹");
    assert(is_ascii_text("Index new folders by default"@));
    assert("默认索引新文件夹"@[0] == '\u{9ed8}');
    assert(("默认索引新文件夹"@[0] as u32) >= 128);
}

proof fn lemma_texts_code_auto_index_description()
    ensures
        en_us_text(MessageId::CodeAutoIndexDescription) == "When set to true, Warp will automatically index code repositories as you navigate them."@,
        zh_cn_text(MessageId::CodeAutoIndexDescription) == "启用后，Warp 将在您浏览代码仓库时自动建立索引。"@,
        is_ascii_text(en_us_text(MessageId::CodeAutoIndexDescription)),
        keeps_english_text(MessageId::CodeAutoIndexDescription) ==> zh_cn_text(MessageId::CodeAutoIndexDescription) == en_us_text(MessageId::CodeAutoIndexDescription),
        !keeps_english_text(MessageId::CodeAutoIndexDescription) ==> has_non_ascii(zh_cn_text(MessageId::CodeAutoIndexDescription)),
{
    reveal_strlit("When set to true, Warp will automatically index code repositories as you navigate them.");
    reveal_strlit("启用后，Warp 将在您浏览代码仓库时自动建立索引。");
    assert(is_ascii_text("When set to true, Warp will automatically index code repositories as you navigate them."@));
    assert("启用后，Warp 将在您浏览代码仓库时自动建立索引。"@[0] == '\u{542f}');
    assert(("启用后，Warp 将在您浏览代码仓库时自动建立索引。"@[0] as u32) >= 128);
}

proof fn lemma_texts_code_indexing_disabled_admin()
    ensures
        en_us_text(MessageId::CodeIndexingDisabledAdmin) == "Team admins have disabled codebase indexing."@,
        zh_cn_text(MessageId::CodeIndexingDisabledAdmin) == "团队管理员已禁用代码库索引。"@,
        is_ascii_text(en_us_text(MessageId::CodeIndexingDisabledAdmin)),
        keeps_english_text(MessageId::CodeIndexingDisabledAdmin) ==> zh_cn_text(MessageId::CodeIndexingDisabledAdmin) == en_us_text(MessageId::CodeIndexingDisabledAdmin),
        !keeps_english_text(MessageId::CodeIndexingDisabledAdmin) ==> has_non_ascii(zh_cn_text(MessageId::CodeIndexingDisabledAdmin)),
{
    reveal_strlit("Team admins have disabled codebase indexing.");
    reveal_strlit("团队管理员已禁用代码库索引。");
    assert(is_ascii_text("Team admins have disabled codebase indexing."@));
    assert("团队管理员已禁用代码库索引。"@[0] == '\u{56e2}');
    assert(("团队管理员已禁用代码库索引。"@[0] as u32) >= 128);
}

proof fn lemma_texts_code_indexing_workspace_enabled_admin()
    ensures
        en_us_text(MessageId::CodeIndexingWorkspaceEnabledAdmin) == "Team admins have enabled codebase indexing."@,
        zh_cn_text(MessageId::CodeIndexingWorkspaceEnabledAdmin) == "团队管理员已启用代码库索引。"@,
        is_ascii_text(en_us_text(MessageId::CodeIndexingWorkspaceEnabledAdmin)),
        keeps_english_text(MessageId::CodeIndexingWorkspaceEnabledAdmin) ==> zh_cn_text(MessageId::CodeIndexingWorkspaceEnabledAdmin) == en_us_text(MessageId::CodeIndexingWorkspaceEnabledAdmin),
        !keeps_english_text(MessageId::CodeIndexingWorkspaceEnabledAdmin) ==> has_non_ascii(zh_cn_text(MessageId::CodeIndexingWorkspaceEnabledAdmin)),
{
    reveal_strlit("Team admins have enabled codebase indexing.");
    reveal_strlit("团队管理员已启用代码库索引。");
    assert(is_ascii_text("Team admins have enabled codebase indexing."@));
    assert("团队管理员已启用代码库索引。"@[0] == '\u{56e2}');
    assert(("团队管理员已启用代码库索引。"@[0] as u32) >= 128);
}

proof fn lemma_texts_code_indexing_disabled_global_ai()
    ensures
        en_us_text(MessageId::CodeIndexingDisabledGlobalAi) == "AI Features must be enabled to use codebase indexing."@,
        zh_cn_text(MessageId::CodeIndexingDisabledGlobalAi) == "必须启用 AI 功能才能使用代码库索引。"@,
        is_ascii_text(en_us_text(MessageId::CodeIndexingDisabledGlobalAi)),
        keeps_english_text(MessageId::CodeIndexingDisabledGlobalAi) ==> zh_cn_text(MessageId::CodeIndexingDisabledGlobalAi) == en_us_text(MessageId::CodeIndexingDisabledGlobalAi),
        !keeps_english_text(MessageId::CodeIndexingDisabledGlobalAi) ==> has_non_ascii(zh_cn_text(MessageId::CodeIndexingDisabledGlobalAi)),
{
    reveal_strlit("AI Features must be enabled to use codebase indexing.");
    reveal_strlit("必须启用 AI 功能才能使用代码库索引。");
    assert(is_ascii_text("AI Features must be enabled to use codebase indexing."@));
    assert("必须启用 AI 功能才能使用代码库索引。"@[0] == '\u{5fc5}');
    assert(("必须启用 AI 功能才能使用代码库索引。"@[0] as u32) >= 128);
}

proof fn lemma_texts_code_codebase_index_limit_reached()
    ensures
        en_us_text(MessageId::CodeCodebaseIndexLimitReached) == "You have reached the maximum number of codebase indices for your plan."@,
        zh_cn_text(MessageId::CodeCodebaseIndexLimitReached) == "您已达到当前套餐的最大代码库索引数量。"@,
        is_ascii_text(en_us_text(MessageId::CodeCodebaseIndexLimitReached)),
        keeps_english_text(MessageId::CodeCodebaseIndexLimitReached) ==> zh_cn_text(MessageId::CodeCodebaseIndexLimitReached) == en_us_text(MessageId::CodeCodebaseIndexLimitReached),
        !keeps_english_text(MessageId::CodeCodebaseIndexLimitReached) ==> has_non_ascii(zh_cn_text(MessageId::CodeCodebaseIndexLimitReached)),
{
    reveal_strlit("You have reached the maximum number of codebase indices for your plan.");
    reveal_strlit("您已达到当前套餐的最大代码库索引数量。");
    assert(is_ascii_text("You have reached the maximum number of codebase indices for your plan."@));
    assert("您已达到当前套餐的最大代码库索引数量。"@[0] == '\u{60a8}');
    assert(("您已达到当前套餐的最大代码库索引数量。"@[0] as u32) >= 128);
}

proof fn lemma_texts_code_codebase_indexing_category()
    ensures
        en_us_text(MessageId::CodeCodebaseIndexingCategory) == "Codebase Indexing"@,
        zh_cn_text(MessageId::CodeCodebaseIndexingCategory) == "代码库索引"@,
        is_ascii_text(en_us_text(MessageId::CodeCodebaseIndexingCategory)),
        keeps_english_text(MessageId::CodeCodebaseIndexingCategory) ==> zh_cn_text(MessageId::CodeCodebaseIndexingCategory) == en_us_text(MessageId::CodeCodebaseIndexingCategory),
        !keeps_english_text(MessageId::CodeCodebaseIndexingCategory) ==> has_non_ascii(zh_cn_text(MessageId::CodeCodebaseIndexingCategory)),
{
    reveal_strlit("Codebase Indexing");
    reveal_strlit("代码库索引");
    assert(is_ascii_text("Codebase Indexing"@));
    assert("代码库索引"@[0] == '\u{4ee3}');
    assert(("代码库索引"@[0] as u32) >= 128);
}

proof fn lemma_texts_code_editor_and_review_category()
    ensures
        en_us_text(MessageId::CodeEditorAndReviewCategory) == "Code Editor and Review"@,
        zh_cn_text(MessageId::CodeEditorAndReviewCategory) == "代码编辑器和审查"@,
        is_ascii_text(en_us_text(MessageId::CodeEditorAndReviewCategory)),
        keeps_english_text(MessageId::CodeEditorAndReviewCategory) ==> zh_cn_text(MessageId::CodeEditorAndReviewCategory) == en_us_text(MessageId::CodeEditorAndReviewCategory),
        !keeps_english_text(MessageId::CodeEditorAndReviewCategory) ==> has_non_ascii(zh_cn_text(MessageId::CodeEditorAndReviewCategory)),
{
    reveal_strlit("Code Editor and Review");
    reveal_strlit("代码编辑器和审查");
    assert(is_ascii_text("Code Editor and Review"@));
    assert("代码编辑器和审查"@[0] == '\u{4ee3}');
    assert(("代码编辑器和审查"@[0] as u32) >= 128);
}

proof fn lemma_texts_code_index_new_folder()
    ensures
        en_us_text(MessageId::CodeIndexNewFolder) == "Index new folder"@,
        zh_cn_text(MessageId::CodeIndexNewFolder) == "索引新文件夹"@,
        is_ascii_text(en_us_text(MessageId::CodeIndexNewFolder)),
        keeps_english_text(MessageId::CodeIndexNewFolder) ==> zh_cn_text(MessageId::CodeIndexNewFolder) == en_us_text(MessageId::CodeIndexNewFolder),
        !keeps_english_text(MessageId::CodeIndexNewFolder) ==> has_non_ascii(zh_cn_text(MessageId::CodeIndexNewFolder)),
{
    reveal_strlit("Index new folder");
    reveal_strlit("索引新文件夹");
    assert(is_ascii_text("Index new folder"@));
    assert("索引新文件夹"@[0] == '\u{7d22}');
    assert(("索引新文件夹"@[0] as u32) >= 128);
}

proof fn lemma_texts_code_restart_server()
    ensures
        en_us_text(MessageId::CodeRestartServer) == "Restart server"@,
        zh_cn_text(MessageId::CodeRestartServer) == "重启服务器"@,
        is_ascii_text(en_us_text(MessageId::CodeRestartServer)),
        keeps_english_text(MessageId::CodeRestartServer) ==> zh_cn_text(MessageId::CodeRestartServer) == en_us_text(MessageId::CodeRestartServer),
        !keeps_english_text(MessageId::CodeRestartServer) ==> has_non_ascii(zh_cn_text(MessageId::CodeRestartServer)),
{
    reveal_strlit("Restart server");
    reveal_strlit("重启服务器");
    assert(is_ascii_text("Restart server"@));
    assert("重启服务器"@[0] == '\u{91cd}');
    assert(("重启服务器"@[0] as u32) >= 128);
}

proof fn lemma_texts_code_view_logs()
    ensures
        en_us_text(MessageId::CodeViewLogs) == "View logs"@,
        zh_cn_text(MessageId::CodeViewLogs) == "查看日志"@,
        is_ascii_text(en_us_text(MessageId::CodeViewLogs)),
        keeps_english_text(MessageId::CodeViewLogs) ==> zh_cn_text(MessageId::CodeViewLogs) == en_us_text(MessageId::CodeViewLogs),
        !keeps_english_text(MessageId::CodeViewLogs) ==> has_non_ascii(zh_cn_text(MessageId::CodeViewLogs)),
{
    reveal_strlit("View logs");
    reveal_strlit("查看日志");
    assert(is_ascii_text("View logs"@));
    assert("查看日志"@[0] == '\u{67e5}');
    assert(("查看日志"@[0] as u32) >= 128);
}

proof fn lemma_texts_code_syncing()
    ensures
        en_us_text(MessageId::CodeSyncing) == "Syncing..."@,
        zh_cn_text(MessageId::CodeSyncing) == "同步中..."@,
        is_ascii_text(en_us_text(MessageId::CodeSyncing)),
        keeps_english_text(MessageId::CodeSyncing) ==> zh_cn_text(MessageId::CodeSyncing) == en_us_text(MessageId::CodeSyncing),
        !keeps_english_text(MessageId::CodeSyncing) ==> has_non_ascii(zh_cn_text(MessageId::CodeSyncing)),
{
    reveal_strlit("Syncing...");
    reveal_strlit("同步中...");
    assert(is_ascii_text("Syncing..."@));
    assert("同步中..."@[0] == '\u{540c}');
    assert(("同步中..."@[0] as u32) >= 128);
}

proof fn lemma_texts_code_synced()
    ensures
        en_us_text(MessageId::CodeSynced) == "Synced"@,
        zh_cn_text(MessageId::CodeSynced) == "已同步"@,
        is_ascii_text(en_us_text(MessageId::CodeSynced)),
        keeps_english_text(MessageId::CodeSynced) ==> zh_cn_text(MessageId::CodeSynced) == en_us_text(MessageId::CodeSynced),
        !keeps_english_text(MessageId::CodeSynced) ==> has_non_ascii(zh_cn_text(MessageId::CodeSynced)),
{
    reveal_strlit("Synced");
    reveal_strlit("已同步");
    assert(is_ascii_text("Synced"@));
    assert("已同步"@[0] == '\u{5df2}');
    assert(("已同步"@[0] as u32) >= 128);
}

proof fn lemma_texts_code_codebase_too_large()
    ensures
        en_us_text(MessageId::CodeCodebaseTooLarge) == "Codebase too large"@,
        zh_cn_text(MessageId::CodeCodebaseTooLarge) == "代码库过大"@,
        is_ascii_text(en_us_text(MessageId::CodeCodebaseTooLarge)),
        keeps_english_text(MessageId::CodeCodebaseTooLarge) ==> zh_cn_text(MessageId::CodeCodebaseTooLarge) == en_us_text(MessageId::CodeCodebaseTooLarge),
        !keeps_english_text(MessageId::CodeCodebaseTooLarge) ==> has_non_ascii(zh_cn_text(MessageId::CodeCodebaseTooLarge)),
{
    reveal_strlit("Codebase too large");
    reveal_strlit("代码库过大");
    assert(is_ascii_text("Codebase too large"@));
    assert("代码库过大"@[0] == '\u{4ee3}');
    assert(("代码库过大"@[0] as u32) >= 128);
}

proof fn lemma_texts_code_installed()
    ensures
        en_us_text(MessageId::CodeInstalled) == "Installed"@,
        zh_cn_text(MessageId::CodeInstalled) == "已安装"@,
        is_ascii_text(en_us_text(MessageId::CodeInstalled)),
        keeps_english_text(MessageId::CodeInstalled) ==> zh_cn_text(MessageId::CodeInstalled) == en_us_text(MessageId::CodeInstalled),
        !keeps_english_text(MessageId::CodeInstalled) ==> has_non_ascii(zh_cn_text(MessageId::CodeInstalled)),
{
    reveal_strlit("Installed");
    reveal_strlit("已安装");
    assert(is_ascii_text("Installed"@));
    assert("已安装"@[0] == '\u{5df2}');
    assert(("已安装"@[0] as u32) >= 128);
}

proof fn lemma_texts_code_installing()
    ensures
        en_us_text(MessageId::CodeInstalling) == "Installing..."@,
        zh_cn_text(MessageId::CodeInstalling) == "安装中..."@,
        is_ascii_text(en_us_text(MessageId::CodeInstalling)),
        keeps_english_text(MessageId::CodeInstalling) ==> zh_cn_text(MessageId::CodeInstalling) == en_us_text(MessageId::CodeInstalling),
        !keeps_english_text(MessageId::CodeInstalling) ==> has_non_ascii(zh_cn_text(MessageId::CodeInstalling)),
{
    reveal_strlit("Installing...");
    reveal_strlit("安装中...");
    assert(is_ascii_text("Installing..."@));
    assert("安装中..."@[0] == '\u{5b89}');
    assert(("安装中..."@[0] as u32) >= 128);
}

proof fn lemma_texts_code_checking()
    ensures
        en_us_text(MessageId::CodeChecking) == "Checking..."@,
        zh_cn_text(MessageId::CodeChecking) == "检查中..."@,
        is_ascii_text(en_us_text(MessageId::CodeChecking)),
        keeps_english_text(MessageId::CodeChecking) ==> zh_cn_text(MessageId::CodeChecking) == en_us_text(MessageId::CodeChecking),
        !keeps_english_text(MessageId::CodeChecking) ==> has_non_ascii(zh_cn_text(MessageId::CodeChecking)),
{
    reveal_strlit("Checking...");
    reveal_strlit("检查中...");
    assert(is_ascii_text("Checking..."@));
    assert("检查中..."@[0] == '\u{68c0}');
    assert(("检查中..."@[0] as u32) >= 128);
}

proof fn lemma_texts_code_available_for_download()
    ensures
        en_us_text(MessageId::CodeAvailableForDownload) == "Available for download"@,
        zh_cn_text(MessageId::CodeAvailableForDownload) == "可下载"@,
        is_ascii_text(en_us_text(MessageId::CodeAvailableForDownload)),
        keeps_english_text(MessageId::CodeAvailableForDownload) ==> zh_cn_text(MessageId::CodeAvailableForDownload) == en_us_text(MessageId::CodeAvailableForDownload),
        !keeps_english_text(MessageId::CodeAvailableForDownload) ==> has_non_ascii(zh_cn_text(MessageId::CodeAvailableForDownload)),
{
    reveal_strlit("Available for download");
    reveal_strlit("可下载");
    assert(is_ascii_text("Available for download"@));
    assert("可下载"@[0] == '\u{53ef}');
    assert(("可下载"@[0] as u32) >= 128);
}

proof fn lemma_texts_code_available()
    ensures
        en_us_text(MessageId::CodeAvailable) == "Available"@,
        zh_cn_text(MessageId::CodeAvailable) == "可用"@,
        is_ascii_text(en_us_text(MessageId::CodeAvailable)),
        keeps_english_text(MessageId::CodeAvailable) ==> zh_cn_text(MessageId::CodeAvailable) == en_us_text(MessageId::CodeAvailable),
        !keeps_english_text(MessageId::CodeAvailable) ==> has_non_ascii(zh_cn_text(MessageId::CodeAvailable)),
{
    reveal_strlit("Available");
    reveal_strlit("可用");
    assert(is_ascii_text("Available"@));
    assert("可用"@[0] == '\u{53ef}');
    assert(("可用"@[0] as u32) >= 128);
}

proof fn lemma_texts_code_busy()
    ensures
        en_us_text(MessageId::CodeBusy) == "Busy"@,
        zh_cn_text(MessageId::CodeBusy) == "忙碌"@,
        is_ascii_text(en_us_text(MessageId::CodeBusy)),
        keeps_english_text(MessageId::CodeBusy) ==> zh_cn_text(MessageId::CodeBusy) == en_us_text(MessageId::CodeBusy),
        !keeps_english_text(MessageId::CodeBusy) ==> has_non_ascii(zh_cn_text(MessageId::CodeBusy)),
{
    reveal_strlit("Busy");
    reveal_strlit("忙碌");
    assert(is_ascii_text("Busy"@));
    assert("忙碌"@[0] == '\u{5fd9}');
    assert(("忙碌"@[0] as u32) >= 128);
}

proof fn lemma_texts_code_failed()
    ensures
        en_us_text(MessageId::CodeFailed) == "Failed"@,
        zh_cn_text(MessageId::CodeFailed) == "失败"@,
        is_ascii_text(en_us_text(MessageId::CodeFailed)),
        keeps_english_text(MessageId::CodeFailed) ==> zh_cn_text(MessageId::CodeFailed) == en_us_text(MessageId::CodeFailed),
        !keeps_english_text(MessageId::CodeFailed) ==> has_non_ascii(zh_cn_text(MessageId::CodeFailed)),
{
    reveal_strlit("Failed");
    reveal_strlit("失败");
    assert(is_ascii_text("Failed"@));
    assert("失败"@[0] == '\u{5931}');
    assert(("失败"@[0] as u32) >= 128);
}

proof fn lemma_texts_code_stopped()
    ensures
        en_us_text(MessageId::CodeStopped) == "Stopped"@,
        zh_cn_text(MessageId::CodeStopped) == "已停止"@,
        is_ascii_text(en_us_text(MessageId::CodeStopped)),
        keeps_english_text(MessageId::CodeStopped) ==> zh_cn_text(MessageId::CodeStopped) == en_us_text(MessageId::CodeStopped),
        !keeps_english_text(MessageId::CodeStopped) ==> has_non_ascii(zh_cn_text(MessageId::CodeStopped)),
{
    reveal_strlit("Stopped");
    reveal_strlit("已停止");
    assert(is_ascii_text("Stopped"@));
    assert("已停止"@[0] == '\u{5df2}');
    assert(("已停止"@[0] as u32) >= 128);
}

proof fn lemma_texts_code_not_running()
    ensures
        en_us_text(MessageId::CodeNotRunning) == "Not running"@,
        zh_cn_text(MessageId::CodeNotRunning) == "未运行"@,
        is_ascii_text(en_us_text(MessageId::CodeNotRunning)),
        keeps_english_text(MessageId::CodeNotRunning) ==> zh_cn_text(MessageId::CodeNotRunning) == en_us_text(MessageId::CodeNotRunning),
        !keeps_english_text(MessageId::CodeNotRunning) ==> has_non_ascii(zh_cn_text(MessageId::CodeNotRunning)),
{
    reveal_strlit("Not running");
    reveal_strlit("未运行");
    assert(is_ascii_text("Not running"@));
    assert("未运行"@[0] == '\u{672a}');
    assert(("未运行"@[0] as u32) >= 128);
}

proof fn lemma_texts_code_initialized_folders()
    ensures
        en_us_text(MessageId::CodeInitializedFolders) == "Initialized / indexed folders"@,
        zh_cn_text(MessageId::CodeInitializedFolders) == "已初始化/索引的文件夹"@,
        is_ascii_text(en_us_text(MessageId::CodeInitializedFolders)),
        keeps_english_text(MessageId::CodeInitializedFolders) ==> zh_cn_text(MessageId::CodeInitializedFolders) == en_us_text(MessageId::CodeInitializedFolders),
        !keeps_english_text(MessageId::CodeInitializedFolders) ==> has_non_ascii(zh_cn_text(MessageId::CodeInitializedFolders)),
{
    reveal_strlit("Initialized / indexed folders");
    reveal_strlit("已初始化/索引的文件夹");
    assert(is_ascii_text("Initialized / indexed folders"@));
    assert("已初始化/索引的文件夹"@[0] == '\u{5df2}');
    assert(("已初始化/索引的文件夹"@[0] as u32) >= 128);
}

proof fn lemma_texts_code_no_folders_initialized()
    ensures
        en_us_text(MessageId::CodeNoFoldersInitialized) == "No folders have been initialized yet."@,
        zh_cn_text(MessageId::CodeNoFoldersInitialized) == "尚未初始化任何文件夹。"@,
        is_ascii_text(en_us_text(MessageId::CodeNoFoldersInitialized)),
        keeps_english_text(MessageId::CodeNoFoldersInitialized) ==> zh_cn_text(MessageId::CodeNoFoldersInitialized) == en_us_text(MessageId::CodeNoFoldersInitialized),
        !keeps_english_text(MessageId::CodeNoFoldersInitialized) ==> has_non_ascii(zh_cn_text(MessageId::CodeNoFoldersInitialized)),
{
    reveal_strlit("No folders have been initialized yet.");
    reveal_strlit("尚未初始化任何文件夹。");
    assert(is_ascii_text("No folders have been initialized yet."@));
    assert("尚未初始化任何文件夹。"@[0] == '\u{5c1a}');
    assert(("尚未初始化任何文件夹。"@[0] as u32) >= 128);
}

proof fn lemma_texts_code_open_project_rules()
    ensures
        en_us_text(MessageId::CodeOpenProjectRules) == "Open project rules"@,
        zh_cn_text(MessageId::CodeOpenProjectRules) == "打开项目规则"@,
        is_ascii_text(en_us_text(MessageId::CodeOpenProjectRules)),
        keeps_english_text(MessageId::CodeOpenProjectRules) ==> zh_cn_text(MessageId::CodeOpenProjectRules) == en_us_text(MessageId::CodeOpenProjectRules),
        !keeps_english_text(MessageId::CodeOpenProjectRules) ==> has_non_ascii(zh_cn_text(MessageId::CodeOpenProjectRules)),
{
    reveal_strlit("Open project rules");
    reveal_strlit("打开项目规则");
    assert(is_ascii_text("Open project rules"@));
    assert("打开项目规则"@[0] == '\u{6253}');
    assert(("打开项目规则"@[0] as u32) >= 128);
}

proof fn lemma_texts_code_indexing_label()
    ensures
        en_us_text(MessageId::CodeIndexingLabel) == "INDEXING"@,
        zh_cn_text(MessageId::CodeIndexingLabel) == "索引"@,
        is_ascii_text(en_us_text(MessageId::CodeIndexingLabel)),
        keeps_english_text(MessageId::CodeIndexingLabel) ==> zh_cn_text(MessageId::CodeIndexingLabel) == en_us_text(MessageId::CodeIndexingLabel),
        !keeps_english_text(MessageId::CodeIndexingLabel) ==> has_non_ascii(zh_cn_text(MessageId::CodeIndexingLabel)),
{
    reveal_strlit("INDEXING");
    reveal_strlit("索引");
    assert(is_ascii_text("INDEXING"@));
    assert("索引"@[0] == '\u{7d22}');
    assert(("索引"@[0] as u32) >= 128);
}

proof fn lemma_texts_code_no_index_created()
    ensures
        en_us_text(MessageId::CodeNoIndexCreated) == "No index created"@,
        zh_cn_text(MessageId::CodeNoIndexCreated) == "未创建索引"@,
        is_ascii_text(en_us_text(MessageId::CodeNoIndexCreated)),
        keeps_english_text(MessageId::CodeNoIndexCreated) ==> zh_cn_text(MessageId::CodeNoIndexCreated) == en_us_text(MessageId::CodeNoIndexCreated),
        !keeps_english_text(MessageId::CodeNoIndexCreated) ==> has_non_ascii(zh_cn_text(MessageId::CodeNoIndexCreated)),
{
    reveal_strlit("No index created");
    reveal_strlit("未创建索引");
    assert(is_ascii_text("No index created"@));
    assert("未创建索引"@[0] == '\u{672a}');
    assert(("未创建索引"@[0] as u32) >= 128);
}

proof fn lemma_texts_code_auto_open_code_review()
    ensures
        en_us_text(MessageId::CodeAutoOpenCodeReview) == "Auto open code review panel"@,
        zh_cn_text(MessageId::CodeAutoOpenCodeReview) == "自动打开代码审查面板"@,
        is_ascii_text(en_us_text(MessageId::CodeAutoOpenCodeReview)),
        keeps_english_text(MessageId::CodeAutoOpenCodeReview) ==> zh_cn_text(MessageId::CodeAutoOpenCodeReview) == en_us_text(MessageId::CodeAutoOpenCodeReview),
        !keeps_english_text(MessageId::CodeAutoOpenCodeReview) ==> has_non_ascii(zh_cn_text(MessageId::CodeAutoOpenCodeReview)),
{
    reveal_strlit("Auto open code review panel");
    reveal_strlit("自动打开代码审查面板");
    assert(is_ascii_text("Auto open code review panel"@));
    assert("自动打开代码审查面板"@[0] == '\u{81ea}');
    assert(("自动打开代码审查面板"@[0] as u32) >= 128);
}

proof fn lemma_texts_code_auto_open_code_review_description()
    ensures
        en_us_text(MessageId::CodeAutoOpenCodeReviewDescription) == "When this setting is on, the code review panel will open on the first accepted diff of a conversation"@,
        zh_cn_text(MessageId::CodeAutoOpenCodeReviewDescription) == "启用此设置后，代码审查面板将在对话中接受第一个 diff 时打开"@,
        is_ascii_text(en_us_text(MessageId::CodeAutoOpenCodeReviewDescription)),
        keeps_english_text(MessageId::CodeAutoOpenCodeReviewDescription) ==> zh_cn_text(MessageId::CodeAutoOpenCodeReviewDescription) == en_us_text(MessageId::CodeAutoOpenCodeReviewDescription),
        !keeps_english_text(MessageId::CodeAutoOpenCodeReviewDescription) ==> has_non_ascii(zh_cn_text(MessageId::CodeAutoOpenCodeReviewDescription)),
{
    reveal_strlit("When this setting is on, the code review panel will open on the first accepted diff of a conversation");
    reveal_strlit("启用此设置后，代码审查面板将在对话中接受第一个 diff 时打开");
    assert(is_ascii_text("When this setting is on, the code review panel will open on the first accepted diff of a conversation"@));
    assert("启用此设置后，代码审查面板将在对话中接受第一个 diff 时打开"@[0] == '\u{542f}');
    assert(("启用此设置后，代码审查面板将在对话中接受第一个 diff 时打开"@[0] as u32) >= 128);
}

proof fn lemma_texts_code_show_code_review_button()
    ensures
        en_us_text(MessageId::CodeShowCodeReviewButton) == "Show code review button"@,
        zh_cn_text(MessageId::CodeShowCodeReviewButton) == "显示代码审查按钮"@,
        is_ascii_text(en_us_text(MessageId::CodeShowCodeReviewButton)),
        keeps_english_text(MessageId::CodeShowCodeReviewButton) ==> zh_cn_text(MessageId::CodeShowCodeReviewButton) == en_us_text(MessageId::CodeShowCodeReviewButton),
        !keeps_english_text(MessageId::CodeShowCodeReviewButton) ==> has_non_ascii(zh_cn_text(MessageId::CodeShowCodeReviewButton)),
{
    reveal_strlit("Show code review button");
    reveal_strlit("显示代码审查按钮");
    assert(is_ascii_text("Show code review button"@));
    assert("显示代码审查按钮"@[0] == '\u{663e}');
    assert(("显示代码审查按钮"@[0] as u32) >= 128);
}

proof fn lemma_texts_code_show_code_review_button_description()
    ensures
        en_us_text(MessageId::CodeShowCodeReviewButtonDescription) == "Show a button in the top right of the window to toggle the code review panel."@,
        zh_cn_text(MessageId::CodeShowCodeReviewButtonDescription) == "在窗口右上角显示一个按钮来切换代码审查面板。"@,
        is_ascii_text(en_us_text(MessageId::CodeShowCodeReviewButtonDescription)),
        keeps_english_text(MessageId::CodeShowCodeReviewButtonDescription) ==> zh_cn_text(MessageId::CodeShowCodeReviewButtonDescription) == en_us_text(MessageId::CodeShowCodeReviewButtonDescription),
        !keeps_english_text(MessageId::CodeShowCodeReviewButtonDescription) ==> has_non_ascii(zh_cn_text(MessageId::CodeShowCodeReviewButtonDescription)),
{
    reveal_strlit("Show a button in the top right of the window to toggle the code review panel.");
    reveal_strlit("在窗口右上角显示一个按钮来切换代码审查面板。");
    assert(is_ascii_text("Show a button in the top right of the window to toggle the code review panel."@));
    assert("在窗口右上角显示一个按钮来切换代码审查面板。"@[0] == '\u{5728}');
    assert(("在窗口右上角显示一个按钮来切换代码审查面板。"@[0] as u32) >= 128);
}

proof fn lemma_texts_code_show_diff_stats()
    ensures
        en_us_text(MessageId::CodeShowDiffStats) == "Show diff stats on code review button"@,
        zh_cn_text(MessageId::CodeShowDiffStats) == "在代码审查按钮上显示差异统计"@,
        is_ascii_text(en_us_text(MessageId::CodeShowDiffStats)),
        keeps_english_text(MessageId::CodeShowDiffStats) ==> zh_cn_text(MessageId::CodeShowDiffStats) == en_us_text(MessageId::CodeShowDiffStats),
        !keeps_english_text(MessageId::CodeShowDiffStats) ==> has_non_ascii(zh_cn_text(MessageId::CodeShowDiffStats)),
{
    reveal_strlit("Show diff stats on code review button");
    reveal_strlit("在代码审查按钮上显示差异统计");
    assert(is_ascii_text("Show diff stats on code review button"@));
    assert("在代码审查按钮上显示差异统计"@[0] == '\u{5728}');
    assert(("在代码审查按钮上显示差异统计"@[0] as u32) >= 128);
}

proof fn lemma_texts_code_show_diff_stats_description()
    ensures
        en_us_text(MessageId::CodeShowDiffStatsDescription) == "Show lines added and removed counts on the code review button."@,
        zh_cn_text(MessageId::CodeShowDiffStatsDescription) == "在代码审查按钮上显示添加和删除的行数。"@,
        is_ascii_text(en_us_text(MessageId::CodeShowDiffStatsDescription)),
        keeps_english_text(MessageId::CodeShowDiffStatsDescription) ==> zh_cn_text(MessageId::CodeShowDiffStatsDescription) == en_us_text(MessageId::CodeShowDiffStatsDescription),
        !keeps_english_text(MessageId::CodeShowDiffStatsDescription) ==> has_non_ascii(zh_cn_text(MessageId::CodeShowDiffStatsDescription)),
{
    reveal_strlit("Show lines added and removed counts on the code review button.");
    reveal_strlit("在代码审查按钮上显示添加和删除的行数。");
    assert(is_ascii_text("Show lines added and removed counts on the code review button."@));
    assert("在代码审查按钮上显示添加和删除的行数。"@[0] == '\u{5728}');
    assert(("在代码审查按钮上显示添加和删除的行数。"@[0] as u32) >= 128);
}

proof fn lemma_texts_code_project_explorer()
    ensures
        en_us_text(MessageId::CodeProjectExplorer) == "Project explorer"@,
        zh_cn_text(MessageId::CodeProjectExplorer) == "项目浏览器"@,
        is_ascii_text(en_us_text(MessageId::CodeProjectExplorer)),
        keeps_english_text(MessageId::CodeProjectExplorer) ==> zh_cn_text(MessageId::CodeProjectExplorer) == en_us_text(MessageId::CodeProjectExplorer),
        !keeps_english_text(MessageId::CodeProjectExplorer) ==> has_non_ascii(zh_cn_text(MessageId::CodeProjectExplorer)),
{
    reveal_strlit("Project explorer");
    reveal_strlit("项目浏览器");
    assert(is_ascii_text("Project explorer"@));
    assert("项目浏览器"@[0] == '\u{9879}');
    assert(("项目浏览器"@[0] as u32) >= 128);
}

proof fn lemma_texts_code_project_explorer_description()
    ensures
        en_us_text(MessageId::CodeProjectExplorerDescription) == "Adds an IDE-style project explorer / file tree to the left side tools panel."@,
        zh_cn_text(MessageId::CodeProjectExplorerDescription) == "在左侧工具面板中添加 IDE 风格的项目浏览器/文件树。"@,
        is_ascii_text(en_us_text(MessageId::CodeProjectExplorerDescription)),
        keeps_english_text(MessageId::CodeProjectExplorerDescription) ==> zh_cn_text(MessageId::CodeProjectExplorerDescription) == en_us_text(MessageId::CodeProjectExplorerDescription),
        !keeps_english_text(MessageId::CodeProjectExplorerDescription) ==> has_non_ascii(zh_cn_text(MessageId::CodeProjectExplorerDescription)),
{
    reveal_strlit("Adds an IDE-style project explorer / file tree to the left side tools panel.");
    reveal_strlit("在左侧工具面板中添加 IDE 风格的项目浏览器/文件树。");
    assert(is_ascii_text("Adds an IDE-style project explorer / file tree to the left side tools panel."@));
    assert("在左侧工具面板中添加 IDE 风格的项目浏览器/文件树。"@[0] == '\u{5728}');
    assert(("在左侧工具面板中添加 IDE 风格的项目浏览器/文件树。"@[0] as u32) >= 128);
}

proof fn lemma_texts_code_global_file_search()
    ensures
        en_us_text(MessageId::CodeGlobalFileSearch) == "Global file search"@,
        zh_cn_text(MessageId::CodeGlobalFileSearch) == "全局文件搜索"@,
        is_ascii_text(en_us_text(MessageId::CodeGlobalFileSearch)),
        keeps_english_text(MessageId::CodeGlobalFileSearch) ==> zh_cn_text(MessageId::CodeGlobalFileSearch) == en_us_text(MessageId::CodeGlobalFileSearch),
        !keeps_english_text(MessageId::CodeGlobalFileSearch) ==> has_non_ascii(zh_cn_text(MessageId::CodeGlobalFileSearch)),
{
    reveal_strlit("Global file search");
    reveal_strlit("全局文件搜索");
    assert(is_ascii_text("Global file search"@));
    assert("全局文件搜索"@[0] == '\u{5168}');
    assert(("全局文件搜索"@[0] as u32) >= 128);
}

proof fn lemma_texts_code_global_file_search_description()
    ensures
        en_us_text(MessageId::CodeGlobalFileSearchDescription) == "Adds global file search to the left side tools panel."@,
        zh_cn_text(MessageId::CodeGlobalFileSearchDescription) == "在左侧工具面板中添加全局文件搜索。"@,
        is_ascii_text(en_us_text(MessageId::CodeGlobalFileSearchDescription)),
        keeps_english_text(MessageId::CodeGlobalFileSearchDescription) ==> zh_cn_text(MessageId::CodeGlobalFileSearchDescription) == en_us_text(MessageId::CodeGlobalFileSearchDescription),
        !keeps_english_text(MessageId::CodeGlobalFileSearchDescription) ==> has_non_ascii(zh_cn_text(MessageId::CodeGlobalFileSearchDescription)),
{
    reveal_strlit("Adds global file search to the left side tools panel.");
    reveal_strlit("在左侧工具面板中添加全局文件搜索。");
    assert(is_ascii_text("Adds global file search to the left side tools panel."@));
    assert("在左侧工具面板中添加全局文件搜索。"@[0] == '\u{5728}');
    assert(("在左侧工具面板中添加全局文件搜索。"@[0] as u32) >= 128);
}

proof fn lemma_texts_privacy_secret_redaction()
    ensures
        en_us_text(MessageId::PrivacySecretRedaction) == "Secret redaction"@,
        zh_cn_text(MessageId::PrivacySecretRedaction) == "密钥脱敏"@,
        is_ascii_text(en_us_text(MessageId::PrivacySecretRedaction)),
        keeps_english_text(MessageId::PrivacySecretRedaction) ==> zh_cn_text(MessageId::PrivacySecretRedaction) == en_us_text(MessageId::PrivacySecretRedaction),
        !keeps_english_text(MessageId::PrivacySecretRedaction) ==> has_non_ascii(zh_cn_text(MessageId::PrivacySecretRedaction)),
{
    reveal_strlit("Secret redaction");
    reveal_strlit("密钥脱敏");
    assert(is_ascii_text("Secret redaction"@));
    assert("密钥脱敏"@[0] == '\u{5bc6}');
    assert(("密钥脱敏"@[0] as u32) >= 128);
}

proof fn lemma_texts_privacy_secret_redaction_description()
    ensures
        en_us_text(MessageId::PrivacySecretRedactionDescription) == "When this setting is enabled, Warp will scan blocks, the contents of Warp Drive objects, and Oz prompts for potential sensitive information and prevent saving or sending this data to any servers."@,
        zh_cn_text(MessageId::PrivacySecretRedactionDescription) == "启用此设置后，Warp 将扫描块、Warp Drive 对象内容和 Oz 提示词中的潜在敏感信息，防止将这些数据保存或发送到任何服务器。"@,
        is_ascii_text(en_us_text(MessageId::PrivacySecretRedactionDescription)),
        keeps_english_text(MessageId::PrivacySecretRedactionDescription) ==> zh_cn_text(MessageId::PrivacySecretRedactionDescription) == en_us_text(MessageId::PrivacySecretRedactionDescription),
        !keeps_english_text(MessageId::PrivacySecretRedactionDescription) ==> has_non_ascii(zh_cn_text(MessageId::PrivacySecretRedactionDescription)),
{
    reveal_strlit("When this setting is enabled, Warp will scan blocks, the contents of Warp Drive objects, and Oz prompts for potential sensitive information and prevent saving or sending this data to any servers.");
    reveal_strlit("启用此设置后，Warp 将扫描块、Warp Drive 对象内容和 Oz 提示词中的潜在敏感信息，防止将这些数据保存或发送到任何服务器。");
    assert(is_ascii_text("When this setting is enabled, Warp will scan blocks, the contents of Warp Drive objects, and Oz prompts for potential sensitive information and prevent saving or sending this data to any servers."@));
    assert("启用此设置后，Warp 将扫描块、Warp Drive 对象内容和 Oz 提示词中的潜在敏感信息，防止将这些数据保存或发送到任何服务器。"@[0] == '\u{542f}');
    assert(("启用此设置后，Warp 将扫描块、Warp Drive 对象内容和 Oz 提示词中的潜在敏感信息，防止将这些数据保存或发送到任何服务器。"@[0] as u32) >= 128);
}

proof fn lemma_texts_privacy_custom_secret_redaction()
    ensures
        en_us_text(MessageId::PrivacyCustomSecretRedaction) == "Custom secret redaction"@,
        zh_cn_text(MessageId::PrivacyCustomSecretRedaction) == "自定义密钥脱敏"@,
        is_ascii_text(en_us_text(MessageId::PrivacyCustomSecretRedaction)),
        keeps_english_text(MessageId::PrivacyCustomSecretRedaction) ==> zh_cn_text(MessageId::PrivacyCustomSecretRedaction) == en_us_text(MessageId::PrivacyCustomSecretRedaction),
        !keeps_english_text(MessageId::PrivacyCustomSecretRedaction) ==> has_non_ascii(zh_cn_text(MessageId::PrivacyCustomSecretRedaction)),
{
    reveal_strlit("Custom secret redaction");
    reveal_strlit("自定义密钥脱敏");
    assert(is_ascii_text("Custom secret redaction"@));
    assert("自定义密钥脱敏"@[0] == '\u{81ea}');
    assert(("自定义密钥脱敏"@[0] as u32) >= 128);
}

proof fn lemma_texts_privacy_custom_secret_description()
    ensures
        en_us_text(MessageId::PrivacyCustomSecretDescription) == "Use regex to define additional secrets or data you'd like to redact. This will take effect when the next command runs."@,
        zh_cn_text(MessageId::PrivacyCustomSecretDescription) == "使用正则表达式定义要脱敏的额外密钥或数据。此设置将在下一条命令运行时生效。"@,
        is_ascii_text(en_us_text(MessageId::PrivacyCustomSecretDescription)),
        keeps_english_text(MessageId::PrivacyCustomSecretDescription) ==> zh_cn_text(MessageId::PrivacyCustomSecretDescription) == en_us_text(MessageId::PrivacyCustomSecretDescription),
        !keeps_english_text(MessageId::PrivacyCustomSecretDescription) ==> has_non_ascii(zh_cn_text(MessageId::PrivacyCustomSecretDescription)),
{
    reveal_strlit("Use regex to define additional secrets or data you'd like to redact. This will take effect when the next command runs.");
    reveal_strlit("使用正则表达式定义要脱敏的额外密钥或数据。此设置将在下一条命令运行时生效。");
    assert(is_ascii_text("Use regex to define additional secrets or data you'd like to redact. This will take effect when the next command runs."@));
    assert("使用正则表达式定义要脱敏的额外密钥或数据。此设置将在下一条命令运行时生效。"@[0] == '\u{4f7f}');
    assert(("使用正则表达式定义要脱敏的额外密钥或数据。此设置将在下一条命令运行时生效。"@[0] as u32) >= 128);
}

proof fn lemma_texts_privacy_telemetry_title()
    ensures
        en_us_text(MessageId::PrivacyTelemetryTitle) == "Help improve Warp"@,
        zh_cn_text(MessageId::PrivacyTelemetryTitle) == "帮助改进 Warp"@,
        is_ascii_text(en_us_text(MessageId::PrivacyTelemetryTitle)),
        keeps_english_text(MessageId::PrivacyTelemetryTitle) ==> zh_cn_text(MessageId::PrivacyTelemetryTitle) == en_us_text(MessageId::PrivacyTelemetryTitle),
        !keeps_english_text(MessageId::PrivacyTelemetryTitle) ==> has_non_ascii(zh_cn_text(MessageId::PrivacyTelemetryTitle)),
{
    reveal_strlit("Help improve Warp");
    reveal_strlit("帮助改进 Warp");
    assert(is_ascii_text("Help improve Warp"@));
    assert("帮助改进 Warp"@[0] == '\u{5e2e}');
    assert(("帮助改进 Warp"@[0] as u32) >= 128);
}

proof fn lemma_texts_privacy_telemetry_description()
    ensures
        en_us_text(MessageId::PrivacyTelemetryDescription) == "App analytics help us make the product better for you. We may collect certain console interactions to improve Warp's AI capabilities."@,
        zh_cn_text(MessageId::PrivacyTelemetryDescription) == "应用分析帮助我们为您改进产品。我们可能会收集某些控制台交互以改进 Warp 的 AI 功能。"@,
        is_ascii_text(en_us_text(MessageId::PrivacyTelemetryDescription)),
        keeps_english_text(MessageId::PrivacyTelemetryDescription) ==> zh_cn_text(MessageId::PrivacyTelemetryDescription) == en_us_text(MessageId::PrivacyTelemetryDescription),
        !keeps_english_text(MessageId::PrivacyTelemetryDescription) ==> has_non_ascii(zh_cn_text(MessageId::PrivacyTelemetryDescription)),
{
    reveal_strlit("App analytics help us make the product better for you. We may collect certain console interactions to improve Warp's AI capabilities.");
    reveal_strlit("应用分析帮助我们为您改进产品。我们可能会收集某些控制台交互以改进 Warp 的 AI 功能。");
    assert(is_ascii_text("App analytics help us make the product better for you. We may collect certain console interactions to improve Warp's AI capabilities."@));
    assert("应用分析帮助我们为您改进产品。我们可能会收集某些控制台交互以改进 Warp 的 AI 功能。"@[0] == '\u{5e94}');
    assert(("应用分析帮助我们为您改进产品。我们可能会收集某些控制台交互以改进 Warp 的 AI 功能。"@[0] as u32) >= 128);
}

proof fn lemma_texts_privacy_telemetry_free_tier_note()
    ensures
        en_us_text(MessageId::PrivacyTelemetryFreeTierNote) == "On the free tier, analytics must be enabled to use AI features."@,
        zh_cn_text(MessageId::PrivacyTelemetryFreeTierNote) == "在免费套餐中，必须启用分析功能才能使用 AI 功能。"@,
        is_ascii_text(en_us_text(MessageId::PrivacyTelemetryFreeTierNote)),
        keeps_english_text(MessageId::PrivacyTelemetryFreeTierNote) ==> zh_cn_text(MessageId::PrivacyTelemetryFreeTierNote) == en_us_text(MessageId::PrivacyTelemetryFreeTierNote),
        !keeps_english_text(MessageId::PrivacyTelemetryFreeTierNote) ==> has_non_ascii(zh_cn_text(MessageId::PrivacyTelemetryFreeTierNote)),
{
    reveal_strlit("On the free tier, analytics must be enabled to use AI features.");
    reveal_strlit("在免费套餐中，必须启用分析功能才能使用 AI 功能。");
    assert(is_ascii_text("On the free tier, analytics must be enabled to use AI features."@));
    assert("在免费套餐中，必须启用分析功能才能使用 AI 功能。"@[0] == '\u{5728}');
    assert(("在免费套餐中，必须启用分析功能才能使用 AI 功能。"@[0] as u32) >= 128);
}

proof fn lemma_texts_privacy_data_management_title()
    ensures
        en_us_text(MessageId::PrivacyDataManagementTitle) == "Manage your data"@,
        zh_cn_text(MessageId::PrivacyDataManagementTitle) == "管理您的数据"@,
        is_ascii_text(en_us_text(MessageId::PrivacyDataManagementTitle)),
        keeps_english_text(MessageId::PrivacyDataManagementTitle) ==> zh_cn_text(MessageId::PrivacyDataManagementTitle) == en_us_text(MessageId::PrivacyDataManagementTitle),
        !keeps_english_text(MessageId::PrivacyDataManagementTitle) ==> has_non_ascii(zh_cn_text(MessageId::PrivacyDataManagementTitle)),
{
    reveal_strlit("Manage your data");
    reveal_strlit("管理您的数据");
    assert(is_ascii_text("Manage your data"@));
    assert("管理您的数据"@[0] == '\u{7ba1}');
    assert(("管理您的数据"@[0] as u32) >= 128);
}

proof fn lemma_texts_privacy_data_management_description()
    ensures
        en_us_text(MessageId::PrivacyDataManagementDescription) == "At any time, you may choose to delete your Warp account permanently. You will no longer be able to use Warp."@,
        zh_cn_text(MessageId::PrivacyDataManagementDescription) == "您可以随时选择永久删除您的 Warp 账户。删除后将无法再使用 Warp。"@,
        is_ascii_text(en_us_text(MessageId::PrivacyDataManagementDescription)),
        keeps_english_text(MessageId::PrivacyDataManagementDescription) ==> zh_cn_text(MessageId::PrivacyDataManagementDescription) == en_us_text(MessageId::PrivacyDataManagementDescription),
        !keeps_english_text(MessageId::PrivacyDataManagementDescription) ==> has_non_ascii(zh_cn_text(MessageId::PrivacyDataManagementDescription)),
{
    reveal_strlit("At any time, you may choose to delete your Warp account permanently. You will no longer be able to use Warp.");
    reveal_strlit("您可以随时选择永久删除您的 Warp 账户。删除后将无法再使用 Warp。");
    assert(is_ascii_text("At any time, you may choose to delete your Warp account permanently. You will no longer be able to use Warp."@));
    assert("您可以随时选择永久删除您的 Warp 账户。删除后将无法再使用 Warp。"@[0] == '\u{60a8}');
    assert(("您可以随时选择永久删除您的 Warp 账户。删除后将无法再使用 Warp。"@[0] as u32) >= 128);
}

proof fn lemma_texts_privacy_data_management_link_text()
    ensures
        en_us_text(MessageId::PrivacyDataManagementLinkText) == "Visit the data management page"@,
        zh_cn_text(MessageId::PrivacyDataManagementLinkText) == "访问数据管理页面"@,
        is_ascii_text(en_us_text(MessageId::PrivacyDataManagementLinkText)),
        keeps_english_text(MessageId::PrivacyDataManagementLinkText) ==> zh_cn_text(MessageId::PrivacyDataManagementLinkText) == en_us_text(MessageId::PrivacyDataManagementLinkText),
        !keeps_english_text(MessageId::PrivacyDataManagementLinkText) ==> has_non_ascii(zh_cn_text(MessageId::PrivacyDataManagementLinkText)),
{
    reveal_strlit("Visit the data management page");
    reveal_strlit("访问数据管理页面");
    assert(is_ascii_text("Visit the data management page"@));
    assert("访问数据管理页面"@[0] == '\u{8bbf}');
    assert(("访问数据管理页面"@[0] as u32) >= 128);
}

proof fn lemma_texts_privacy_privacy_policy_title()
    ensures
        en_us_text(MessageId::PrivacyPrivacyPolicyTitle) == "Privacy policy"@,
        zh_cn_text(MessageId::PrivacyPrivacyPolicyTitle) == "隐私政策"@,
        is_ascii_text(en_us_text(MessageId::PrivacyPrivacyPolicyTitle)),
        keeps_english_text(MessageId::PrivacyPrivacyPolicyTitle) ==> zh_cn_text(MessageId::PrivacyPrivacyPolicyTitle) == en_us_text(MessageId::PrivacyPrivacyPolicyTitle),
        !keeps_english_text(MessageId::PrivacyPrivacyPolicyTitle) ==> has_non_ascii(zh_cn_text(MessageId::PrivacyPrivacyPolicyTitle)),
{
    reveal_strlit("Privacy policy");
    reveal_strlit("隐私政策");
    assert(is_ascii_text("Privacy policy"@));
    assert("隐私政策"@[0] == '\u{9690}');
    assert(("隐私政策"@[0] as u32) >= 128);
}

proof fn lemma_texts_privacy_privacy_policy_link_text()
    ensures
        en_us_text(MessageId::PrivacyPrivacyPolicyLinkText) == "Read Warp's privacy policy"@,
        zh_cn_text(MessageId::PrivacyPrivacyPolicyLinkText) == "阅读 Warp 的隐私政策"@,
        is_ascii_text(en_us_text(MessageId::PrivacyPrivacyPolicyLinkText)),
        keeps_english_text(MessageId::PrivacyPrivacyPolicyLinkText) ==> zh_cn_text(MessageId::PrivacyPrivacyPolicyLinkText) == en_us_text(MessageId::PrivacyPrivacyPolicyLinkText),
        !keeps_english_text(MessageId::PrivacyPrivacyPolicyLinkText) ==> has_non_ascii(zh_cn_text(MessageId::PrivacyPrivacyPolicyLinkText)),
{
    reveal_strlit("Read Warp's privacy policy");
    reveal_strlit("阅读 Warp 的隐私政策");
    assert(is_ascii_text("Read Warp's privacy policy"@));
    assert("阅读 Warp 的隐私政策"@[0] == '\u{9605}');
    assert(("阅读 Warp 的隐私政策"@[0] as u32) >= 128);
}

proof fn lemma_texts_billing_overview()
    ensures
        en_us_text(MessageId::BillingOverview) == "Overview"@,
        zh_cn_text(MessageId::BillingOverview) == "概览"@,
        is_ascii_text(en_us_text(MessageId::BillingOverview)),
        keeps_english_text(MessageId::BillingOverview) ==> zh_cn_text(MessageId::BillingOverview) == en_us_text(MessageId::BillingOverview),
        !keeps_english_text(MessageId::BillingOverview) ==> has_non_ascii(zh_cn_text(MessageId::BillingOverview)),
{
    reveal_strlit("Overview");
    reveal_strlit("概览");
    assert(is_ascii_text("Overview"@));
    assert("概览"@[0] == '\u{6982}');
    assert(("概览"@[0] as u32) >= 128);
}

proof fn lemma_texts_billing_usage_history()
    ensures
        en_us_text(MessageId::BillingUsageHistory) == "Usage History"@,
        zh_cn_text(MessageId::BillingUsageHistory) == "用量历史"@,
        is_ascii_text(en_us_text(MessageId::BillingUsageHistory)),
        keeps_english_text(MessageId::BillingUsageHistory) ==> zh_cn_text(MessageId::BillingUsageHistory) == en_us_text(MessageId::BillingUsageHistory),
        !keeps_english_text(MessageId::BillingUsageHistory) ==> has_non_ascii(zh_cn_text(MessageId::BillingUsageHistory)),
{
    reveal_strlit("Usage History");
    reveal_strlit("用量历史");
    assert(is_ascii_text("Usage History"@));
    assert("用量历史"@[0] == '\u{7528}');
    assert(("用量历史"@[0] as u32) >= 128);
}

proof fn lemma_texts_billing_view_overage_details()
    ensures
        en_us_text(MessageId::BillingViewOverageDetails) == "View overage details"@,
        zh_cn_text(MessageId::BillingViewOverageDetails) == "查看超额详情"@,
        is_ascii_text(en_us_text(MessageId::BillingViewOverageDetails)),
        keeps_english_text(MessageId::BillingViewOverageDetails) ==> zh_cn_text(MessageId::BillingViewOverageDetails) == en_us_text(MessageId::BillingViewOverageDetails),
        !keeps_english_text(MessageId::BillingViewOverageDetails) ==> has_non_ascii(zh_cn_text(MessageId::BillingViewOverageDetails)),
{
    reveal_strlit("View overage details");
    reveal_strlit("查看超额详情");
    assert(is_ascii_text("View overage details"@));
    assert("查看超额详情"@[0] == '\u{67e5}');
    assert(("查看超额详情"@[0] as u32) >= 128);
}

proof fn lemma_texts_billing_enable_overages()
    ensures
        en_us_text(MessageId::BillingEnableOverages) == "Enable overages"@,
        zh_cn_text(MessageId::BillingEnableOverages) == "启用超额"@,
        is_ascii_text(en_us_text(MessageId::BillingEnableOverages)),
        keeps_english_text(MessageId::BillingEnableOverages) ==> zh_cn_text(MessageId::BillingEnableOverages) == en_us_text(MessageId::BillingEnableOverages),
        !keeps_english_text(MessageId::BillingEnableOverages) ==> has_non_ascii(zh_cn_text(MessageId::BillingEnableOverages)),
{
    reveal_strlit("Enable overages");
    reveal_strlit("启用超额");
    assert(is_ascii_text("Enable overages"@));
    assert("启用超额"@[0] == '\u{542f}');
    assert(("启用超额"@[0] as u32) >= 128);
}

proof fn lemma_texts_billing_overages_enabled()
    ensures
        en_us_text(MessageId::BillingOveragesEnabled) == "Overages enabled"@,
        zh_cn_text(MessageId::BillingOveragesEnabled) == "超额已启用"@,
        is_ascii_text(en_us_text(MessageId::BillingOveragesEnabled)),
        keeps_english_text(MessageId::BillingOveragesEnabled) ==> zh_cn_text(MessageId::BillingOveragesEnabled) == en_us_text(MessageId::BillingOveragesEnabled),
        !keeps_english_text(MessageId::BillingOveragesEnabled) ==> has_non_ascii(zh_cn_text(MessageId::BillingOveragesEnabled)),
{
    reveal_strlit("Overages enabled");
    reveal_strlit("超额已启用");
    assert(is_ascii_text("Overages enabled"@));
    assert("超额已启用"@[0] == '\u{8d85}');
    assert(("超额已启用"@[0] as u32) >= 128);
}

proof fn lemma_texts_billing_overages_not_enabled()
    ensures
        en_us_text(MessageId::BillingOveragesNotEnabled) == "Overages not enabled"@,
        zh_cn_text(MessageId::BillingOveragesNotEnabled) == "超额未启用"@,
        is_ascii_text(en_us_text(MessageId::BillingOveragesNotEnabled)),
        keeps_english_text(MessageId::BillingOveragesNotEnabled) ==> zh_cn_text(MessageId::BillingOveragesNotEnabled) == en_us_text(MessageId::BillingOveragesNotEnabled),
        !keeps_english_text(MessageId::BillingOveragesNotEnabled) ==> has_non_ascii(zh_cn_text(MessageId::BillingOveragesNotEnabled)),
{
    reveal_strlit("Overages not enabled");
    reveal_strlit("超额未启用");
    assert(is_ascii_text("Overages not enabled"@));
    assert("超额未启用"@[0] == '\u{8d85}');
    assert(("超额未启用"@[0] as u32) >= 128);
}

proof fn lemma_texts_billing_ato_z()
    ensures
        en_us_text(MessageId::BillingAtoZ) == "A to Z"@,
        zh_cn_text(MessageId::BillingAtoZ) == "A 到 Z"@,
        is_ascii_text(en_us_text(MessageId::BillingAtoZ)),
        keeps_english_text(MessageId::BillingAtoZ) ==> zh_cn_text(MessageId::BillingAtoZ) == en_us_text(MessageId::BillingAtoZ),
        !keeps_english_text(MessageId::BillingAtoZ) ==> has_non_ascii(zh_cn_text(MessageId::BillingAtoZ)),
{
    reveal_strlit("A to Z");
    reveal_strlit("A 到 Z");
    assert(is_ascii_text("A to Z"@));
    assert("A 到 Z"@[2] == '\u{5230}');
    assert(("A 到 Z"@[2] as u32) >= 128);
}

proof fn lemma_texts_billing_zto_a()
    ensures
        en_us_text(MessageId::BillingZtoA) == "Z to A"@,
        zh_cn_text(MessageId::BillingZtoA) == "Z 到 A"@,
        is_ascii_text(en_us_text(MessageId::BillingZtoA)),
        keeps_english_text(MessageId::BillingZtoA) ==> zh_cn_text(MessageId::BillingZtoA) == en_us_text(MessageId::BillingZtoA),
        !keeps_english_text(MessageId::BillingZtoA) ==> has_non_ascii(zh_cn_text(MessageId::BillingZtoA)),
{
    reveal_strlit("Z to A");
    reveal_strlit("Z 到 A");
    assert(is_ascii_text("Z to A"@));
    assert("Z 到 A"@[2] == '\u{5230}');
    assert(("Z 到 A"@[2] as u32) >= 128);
}

proof fn lemma_texts_billing_usage_ascending()
    ensures
        en_us_text(MessageId::BillingUsageAscending) == "Usage ascending"@,
        zh_cn_text(MessageId::BillingUsageAscending) == "用量升序"@,
        is_ascii_text(en_us_text(MessageId::BillingUsageAscending)),
        keeps_english_text(MessageId::BillingUsageAscending) ==> zh_cn_text(MessageId::BillingUsageAscending) == en_us_text(MessageId::BillingUsageAscending),
        !keeps_english_text(MessageId::BillingUsageAscending) ==> has_non_ascii(zh_cn_text(MessageId::BillingUsageAscending)),
{
    reveal_strlit("Usage ascending");
    reveal_strlit("用量升序");
    assert(is_ascii_text("Usage ascending"@));
    assert("用量升序"@[0] == '\u{7528}');
    assert(("用量升序"@[0] as u32) >= 128);
}

proof fn lemma_texts_billing_usage_descending()
    ensures
        en_us_text(MessageId::BillingUsageDescending) == "Usage descending"@,
        zh_cn_text(MessageId::BillingUsageDescending) == "用量降序"@,
        is_ascii_text(en_us_text(MessageId::BillingUsageDescending)),
        keeps_english_text(MessageId::BillingUsageDescending) ==> zh_cn_text(MessageId::BillingUsageDescending) == en_us_text(MessageId::BillingUsageDescending),
        !keeps_english_text(MessageId::BillingUsageDescending) ==> has_non_ascii(zh_cn_text(MessageId::BillingUsageDescending)),
{
    reveal_strlit("Usage descending");
    reveal_strlit("用量降序");
    assert(is_ascii_text("Usage descending"@));
    assert("用量降序"@[0] == '\u{7528}');
    assert(("用量降序"@[0] as u32) >= 128);
}

proof fn lemma_texts_billing_enterprise_usage_callout()
    ensures
        en_us_text(MessageId::BillingEnterpriseUsageCallout) == "Contact your team admin for usage details."@,
        zh_cn_text(MessageId::BillingEnterpriseUsageCallout) == "请联系您的团队管理员获取用量详情。"@,
        is_ascii_text(en_us_text(MessageId::BillingEnterpriseUsageCallout)),
        keeps_english_text(MessageId::BillingEnterpriseUsageCallout) ==> zh_cn_text(MessageId::BillingEnterpriseUsageCallout) == en_us_text(MessageId::BillingEnterpriseUsageCallout),
        !keeps_english_text(MessageId::BillingEnterpriseUsageCallout) ==> has_non_ascii(zh_cn_text(MessageId::BillingEnterpriseUsageCallout)),
{
    reveal_strlit("Contact your team admin for usage details.");
    reveal_strlit("请联系您的团队管理员获取用量详情。");
    assert(is_ascii_text("Contact your team admin for usage details."@));
    assert("请联系您的团队管理员获取用量详情。"@[0] == '\u{8bf7}');
    assert(("请联系您的团队管理员获取用量详情。"@[0] as u32) >= 128);
}

proof fn lemma_texts_teams_team_name()
    ensures
        en_us_text(MessageId::TeamsTeamName) == "Team name"@,
        zh_cn_text(MessageId::TeamsTeamName) == "团队名称"@,
        is_ascii_text(en_us_text(MessageId::TeamsTeamName)),
        keeps_english_text(MessageId::TeamsTeamName) ==> zh_cn_text(MessageId::TeamsTeamName) == en_us_text(MessageId::TeamsTeamName),
        !keeps_english_text(MessageId::TeamsTeamName) ==> has_non_ascii(zh_cn_text(MessageId::TeamsTeamName)),
{
    reveal_strlit("Team name");
    reveal_strlit("团队名称");
    assert(is_ascii_text("Team name"@));
    assert("团队名称"@[0] == '\u{56e2}');
    assert(("团队名称"@[0] as u32) >= 128);
}

proof fn lemma_texts_teams_leave_team()
    ensures
        en_us_text(MessageId::TeamsLeaveTeam) == "Leave team"@,
        zh_cn_text(MessageId::TeamsLeaveTeam) == "离开团队"@,
        is_ascii_text(en_us_text(MessageId::TeamsLeaveTeam)),
        keeps_english_text(MessageId::TeamsLeaveTeam) ==> zh_cn_text(MessageId::TeamsLeaveTeam) == en_us_text(MessageId::TeamsLeaveTeam),
        !keeps_english_text(MessageId::TeamsLeaveTeam) ==> has_non_ascii(zh_cn_text(MessageId::TeamsLeaveTeam)),
{
    reveal_strlit("Leave team");
    reveal_strlit("离开团队");
    assert(is_ascii_text("Leave team"@));
    assert("离开团队"@[0] == '\u{79bb}');
    assert(("离开团队"@[0] as u32) >= 128);
}

proof fn lemma_texts_teams_delete_team()
    ensures
        en_us_text(MessageId::TeamsDeleteTeam) == "Delete team"@,
        zh_cn_text(MessageId::TeamsDeleteTeam) == "删除团队"@,
        is_ascii_text(en_us_text(MessageId::TeamsDeleteTeam)),
        keeps_english_text(MessageId::TeamsDeleteTeam) ==> zh_cn_text(MessageId::TeamsDeleteTeam) == en_us_text(MessageId::TeamsDeleteTeam),
        !keeps_english_text(MessageId::TeamsDeleteTeam) ==> has_non_ascii(zh_cn_text(MessageId::TeamsDeleteTeam)),
{
    reveal_strlit("Delete team");
    reveal_strlit("删除团队");
    assert(is_ascii_text("Delete team"@));
    assert("删除团队"@[0] == '\u{5220}');
    assert(("删除团队"@[0] as u32) >= 128);
}

proof fn lemma_texts_teams_create()
    ensures
        en_us_text(MessageId::TeamsCreate) == "Create"@,
        zh_cn_text(MessageId::TeamsCreate) == "创建"@,
        is_ascii_text(en_us_text(MessageId::TeamsCreate)),
        keeps_english_text(MessageId::TeamsCreate) ==> zh_cn_text(MessageId::TeamsCreate) == en_us_text(MessageId::TeamsCreate),
        !keeps_english_text(MessageId::TeamsCreate) ==> has_non_ascii(zh_cn_text(MessageId::TeamsCreate)),
{
    reveal_strlit("Create");
    reveal_strlit("创建");
    assert(is_ascii_text("Create"@));
    assert("创建"@[0] == '\u{521b}');
    assert(("创建"@[0] as u32) >= 128);
}

proof fn lemma_texts_teams_create_description()
    ensures
        en_us_text(MessageId::TeamsCreateDescription) == "Create a new team to collaborate with your colleagues."@,
        zh_cn_text(MessageId::TeamsCreateDescription) == "创建一个新团队，与您的同事协作。"@,
        is_ascii_text(en_us_text(MessageId::TeamsCreateDescription)),
        keeps_english_text(MessageId::TeamsCreateDescription) ==> zh_cn_text(MessageId::TeamsCreateDescription) == en_us_text(MessageId::TeamsCreateDescription),
        !keeps_english_text(MessageId::TeamsCreateDescription) ==> has_non_ascii(zh_cn_text(MessageId::TeamsCreateDescription)),
{
    reveal_strlit("Create a new team to collaborate with your colleagues.");
    reveal_strlit("创建一个新团队，与您的同事协作。");
    assert(is_ascii_text("Create a new team to collaborate with your colleagues."@));
    assert("创建一个新团队，与您的同事协作。"@[0] == '\u{521b}');
    assert(("创建一个新团队，与您的同事协作。"@[0] as u32) >= 128);
}

proof fn lemma_texts_teams_domains_placeholder()
    ensures
        en_us_text(MessageId::TeamsDomainsPlaceholder) == "Add domains"@,
        zh_cn_text(MessageId::TeamsDomainsPlaceholder) == "添加域名"@,
        is_ascii_text(en_us_text(MessageId::TeamsDomainsPlaceholder)),
        keeps_english_text(MessageId::TeamsDomainsPlaceholder) ==> zh_cn_text(MessageId::TeamsDomainsPlaceholder) == en_us_text(MessageId::TeamsDomainsPlaceholder),
        !keeps_english_text(MessageId::TeamsDomainsPlaceholder) ==> has_non_ascii(zh_cn_text(MessageId::TeamsDomainsPlaceholder)),
{
    reveal_strlit("Add domains");
    reveal_strlit("添加域名");
    assert(is_ascii_text("Add domains"@));
    assert("添加域名"@[0] == '\u{6dfb}');
    assert(("添加域名"@[0] as u32) >= 128);
}

proof fn lemma_texts_teams_emails_placeholder()
    ensures
        en_us_text(MessageId::TeamsEmailsPlaceholder) == "Add email addresses"@,
        zh_cn_text(MessageId::TeamsEmailsPlaceholder) == "添加电子邮件地址"@,
        is_ascii_text(en_us_text(MessageId::TeamsEmailsPlaceholder)),
        keeps_english_text(MessageId::TeamsEmailsPlaceholder) ==> zh_cn_text(MessageId::TeamsEmailsPlaceholder) == en_us_text(MessageId::TeamsEmailsPlaceholder),
        !keeps_english_text(MessageId::TeamsEmailsPlaceholder) ==> has_non_ascii(zh_cn_text(MessageId::TeamsEmailsPlaceholder)),
{
    reveal_strlit("Add email addresses");
    reveal_strlit("添加电子邮件地址");
    assert(is_ascii_text("Add email addresses"@));
    assert("添加电子邮件地址"@[0] == '\u{6dfb}');
    assert(("添加电子邮件地址"@[0] as u32) >= 128);
}

proof fn lemma_texts_teams_set()
    ensures
        en_us_text(MessageId::TeamsSet) == "Set"@,
        zh_cn_text(MessageId::TeamsSet) == "设置"@,
        is_ascii_text(en_us_text(MessageId::TeamsSet)),
        keeps_english_text(MessageId::TeamsSet) ==> zh_cn_text(MessageId::TeamsSet) == en_us_text(MessageId::TeamsSet),
        !keeps_english_text(MessageId::TeamsSet) ==> has_non_ascii(zh_cn_text(MessageId::TeamsSet)),
{
    reveal_strlit("Set");
    reveal_strlit("设置");
    assert(is_ascii_text("Set"@));
    assert("设置"@[0] == '\u{8bbe}');
    assert(("设置"@[0] as u32) >= 128);
}

proof fn lemma_texts_teams_invite()
    ensures
        en_us_text(MessageId::TeamsInvite) == "Invite"@,
        zh_cn_text(MessageId::TeamsInvite) == "邀请"@,
        is_ascii_text(en_us_text(MessageId::TeamsInvite)),
        keeps_english_text(MessageId::TeamsInvite) ==> zh_cn_text(MessageId::TeamsInvite) == en_us_text(MessageId::TeamsInvite),
        !keeps_english_text(MessageId::TeamsInvite) ==> has_non_ascii(zh_cn_text(MessageId::TeamsInvite)),
{
    reveal_strlit("Invite");
    reveal_strlit("邀请");
    assert(is_ascii_text("Invite"@));
    assert("邀请"@[0] == '\u{9080}');
    assert(("邀请"@[0] as u32) >= 128);
}

proof fn lemma_texts_teams_invite_link_instructions()
    ensures
        en_us_text(MessageId::TeamsInviteLinkInstructions) == "Share this link with others to invite them to your team."@,
        zh_cn_text(MessageId::TeamsInviteLinkInstructions) == "将此链接分享给其他人以邀请他们加入您的团队。"@,
        is_ascii_text(en_us_text(MessageId::TeamsInviteLinkInstructions)),
        keeps_english_text(MessageId::TeamsInviteLinkInstructions) ==> zh_cn_text(MessageId::TeamsInviteLinkInstructions) == en_us_text(MessageId::TeamsInviteLinkInstructions),
        !keeps_english_text(MessageId::TeamsInviteLinkInstructions) ==> has_non_ascii(zh_cn_text(MessageId::TeamsInviteLinkInstructions)),
{
    reveal_strlit("Share this link with others to invite them to your team.");
    reveal_strlit("将此链接分享给其他人以邀请他们加入您的团队。");
    assert(is_ascii_text("Share this link with others to invite them to your team."@));
    assert("将此链接分享给其他人以邀请他们加入您的团队。"@[0] == '\u{5c06}');
    assert(("将此链接分享给其他人以邀请他们加入您的团队。"@[0] as u32) >= 128);
}

proof fn lemma_texts_teams_invite_by_email_expiry()
    ensures
        en_us_text(MessageId::TeamsInviteByEmailExpiry) == "Invitations expire after 7 days."@,
        zh_cn_text(MessageId::TeamsInviteByEmailExpiry) == "邀请在 7 天后过期。"@,
        is_ascii_text(en_us_text(MessageId::TeamsInviteByEmailExpiry)),
        keeps_english_text(MessageId::TeamsInviteByEmailExpiry) ==> zh_cn_text(MessageId::TeamsInviteByEmailExpiry) == en_us_text(MessageId::TeamsInviteByEmailExpiry),
        !keeps_english_text(MessageId::TeamsInviteByEmailExpiry) ==> has_non_ascii(zh_cn_text(MessageId::TeamsInviteByEmailExpiry)),
{
    reveal_strlit("Invitations expire after 7 days.");
    reveal_strlit("邀请在 7 天后过期。");
    assert(is_ascii_text("Invitations expire after 7 days."@));
    assert("邀请在 7 天后过期。"@[0] == '\u{9080}');
    assert(("邀请在 7 天后过期。"@[0] as u32) >= 128);
}

proof fn lemma_texts_teams_offline()
    ensures
        en_us_text(MessageId::TeamsOffline) == "You appear to be offline."@,
        zh_cn_text(MessageId::TeamsOffline) == "您似乎处于离线状态。"@,
        is_ascii_text(en_us_text(MessageId::TeamsOffline)),
        keeps_english_text(MessageId::TeamsOffline) ==> zh_cn_text(MessageId::TeamsOffline) == en_us_text(MessageId::TeamsOffline),
        !keeps_english_text(MessageId::TeamsOffline) ==> has_non_ascii(zh_cn_text(MessageId::TeamsOffline)),
{
    reveal_strlit("You appear to be offline.");
    reveal_strlit("您似乎处于离线状态。");
    assert(is_ascii_text("You appear to be offline."@));
    assert("您似乎处于离线状态。"@[0] == '\u{60a8}');
    assert(("您似乎处于离线状态。"@[0] as u32) >= 128);
}

proof fn lemma_texts_referrals_header()
    ensures
        en_us_text(MessageId::ReferralsHeader) == "Invite a friend to Warp"@,
        zh_cn_text(MessageId::ReferralsHeader) == "邀请朋友使用 Warp"@,
        is_ascii_text(en_us_text(MessageId::ReferralsHeader)),
        keeps_english_text(MessageId::ReferralsHeader) ==> zh_cn_text(MessageId::ReferralsHeader) == en_us_text(MessageId::ReferralsHeader),
        !keeps_english_text(MessageId::ReferralsHeader) ==> has_non_ascii(zh_cn_text(MessageId::ReferralsHeader)),
{
    reveal_strlit("Invite a friend to Warp");
    reveal_strlit("邀请朋友使用 Warp");
    assert(is_ascii_text("Invite a friend to Warp"@));
    assert("邀请朋友使用 Warp"@[0] == '\u{9080}');
    assert(("邀请朋友使用 Warp"@[0] as u32) >= 128);
}

proof fn lemma_texts_referrals_anonymous_header()
    ensures
        en_us_text(MessageId::ReferralsAnonymousHeader) == "Create an account to start inviting friends"@,
        zh_cn_text(MessageId::ReferralsAnonymousHeader) == "创建账户以开始邀请朋友"@,
        is_ascii_text(en_us_text(MessageId::ReferralsAnonymousHeader)),
        keeps_english_text(MessageId::ReferralsAnonymousHeader) ==> zh_cn_text(MessageId::ReferralsAnonymousHeader) == en_us_text(MessageId::ReferralsAnonymousHeader),
        !keeps_english_text(MessageId::ReferralsAnonymousHeader) ==> has_non_ascii(zh_cn_text(MessageId::ReferralsAnonymousHeader)),
{
    reveal_strlit("Create an account to start inviting friends");
    reveal_strlit("创建账户以开始邀请朋友");
    assert(is_ascii_text("Create an account to start inviting friends"@));
    assert("创建账户以开始邀请朋友"@[0] == '\u{521b}');
    assert(("创建账户以开始邀请朋友"@[0] as u32) >= 128);
}

proof fn lemma_texts_referrals_failed_load()
    ensures
        en_us_text(MessageId::ReferralsFailedLoad) == "Failed to load referral data."@,
        zh_cn_text(MessageId::ReferralsFailedLoad) == "加载推荐数据失败。"@,
        is_ascii_text(en_us_text(MessageId::ReferralsFailedLoad)),
        keeps_english_text(MessageId::ReferralsFailedLoad) ==> zh_cn_text(MessageId::ReferralsFailedLoad) == en_us_text(MessageId::ReferralsFailedLoad),
        !keeps_english_text(MessageId::ReferralsFailedLoad) ==> has_non_ascii(zh_cn_text(MessageId::ReferralsFailedLoad)),
{
    reveal_strlit("Failed to load referral data.");
    reveal_strlit("加载推荐数据失败。");
    assert(is_ascii_text("Failed to load referral data."@));
    assert("加载推荐数据失败。"@[0] == '\u{52a0}');
    assert(("加载推荐数据失败。"@[0] as u32) >= 128);
}

proof fn lemma_texts_referrals_copy_link()
    ensures
        en_us_text(MessageId::ReferralsCopyLink) == "Copy link"@,
        zh_cn_text(MessageId::ReferralsCopyLink) == "复制链接"@,
        is_ascii_text(en_us_text(MessageId::ReferralsCopyLink)),
        keeps_english_text(MessageId::ReferralsCopyLink) ==> zh_cn_text(MessageId::ReferralsCopyLink) == en_us_text(MessageId::ReferralsCopyLink),
        !keeps_english_text(MessageId::ReferralsCopyLink) ==> has_non_ascii(zh_cn_text(MessageId::ReferralsCopyLink)),
{
    reveal_strlit("Copy link");
    reveal_strlit("复制链接");
    assert(is_ascii_text("Copy link"@));
    assert("复制链接"@[0] == '\u{590d}');
    assert(("复制链接"@[0] as u32) >= 128);
}

proof fn lemma_texts_referrals_send()
    ensures
        en_us_text(MessageId::ReferralsSend) == "Send"@,
        zh_cn_text(MessageId::ReferralsSend) == "发送"@,
        is_ascii_text(en_us_text(MessageId::ReferralsSend)),
        keeps_english_text(MessageId::ReferralsSend) ==> zh_cn_text(MessageId::ReferralsSend) == en_us_text(MessageId::ReferralsSend),
        !keeps_english_text(MessageId::ReferralsSend) ==> has_non_ascii(zh_cn_text(MessageId::ReferralsSend)),
{
    reveal_strlit("Send");
    reveal_strlit("发送");
    assert(is_ascii_text("Send"@));
    assert("发送"@[0] == '\u{53d1}');
    assert(("发送"@[0] as u32) >= 128);
}

proof fn lemma_texts_referrals_sending()
    ensures
        en_us_text(MessageId::ReferralsSending) == "Sending..."@,
        zh_cn_text(MessageId::ReferralsSending) == "发送中..."@,
        is_ascii_text(en_us_text(MessageId::ReferralsSending)),
        keeps_english_text(MessageId::ReferralsSending) ==> zh_cn_text(MessageId::ReferralsSending) == en_us_text(MessageId::ReferralsSending),
        !keeps_english_text(MessageId::ReferralsSending) ==> has_non_ascii(zh_cn_text(MessageId::ReferralsSending)),
{
    reveal_strlit("Sending...");
    reveal_strlit("发送中...");
    assert(is_ascii_text("Sending..."@));
    assert("发送中..."@[0] == '\u{53d1}');
    assert(("发送中..."@[0] as u32) >= 128);
}

proof fn lemma_texts_referrals_loading()
    ensures
        en_us_text(MessageId::ReferralsLoading) == "Loading..."@,
        zh_cn_text(MessageId::ReferralsLoading) == "加载中..."@,
        is_ascii_text(en_us_text(MessageId::ReferralsLoading)),
        keeps_english_text(MessageId::ReferralsLoading) ==> zh_cn_text(MessageId::ReferralsLoading) == en_us_text(MessageId::ReferralsLoading),
        !keeps_english_text(MessageId::ReferralsLoading) ==> has_non_ascii(zh_cn_text(MessageId::ReferralsLoading)),
{
    reveal_strlit("Loading...");
    reveal_strlit("加载中...");
    assert(is_ascii_text("Loading..."@));
    assert("加载中..."@[0] == '\u{52a0}');
    assert(("加载中..."@[0] as u32) >= 128);
}

proof fn lemma_texts_referrals_link_copied()
    ensures
        en_us_text(MessageId::ReferralsLinkCopied) == "Link copied!"@,
        zh_cn_text(MessageId::ReferralsLinkCopied) == "链接已复制！"@,
        is_ascii_text(en_us_text(MessageId::ReferralsLinkCopied)),
        keeps_english_text(MessageId::ReferralsLinkCopied) ==> zh_cn_text(MessageId::ReferralsLinkCopied) == en_us_text(MessageId::ReferralsLinkCopied),
        !keeps_english_text(MessageId::ReferralsLinkCopied) ==> has_non_ascii(zh_cn_text(MessageId::ReferralsLinkCopied)),
{
    reveal_strlit("Link copied!");
    reveal_strlit("链接已复制！");
    assert(is_ascii_text("Link copied!"@));
    assert("链接已复制！"@[0] == '\u{94fe}');
    assert(("链接已复制！"@[0] as u32) >= 128);
}

proof fn lemma_texts_referrals_email_success()
    ensures
        en_us_text(MessageId::ReferralsEmailSuccess) == "Invitation sent!"@,
        zh_cn_text(MessageId::ReferralsEmailSuccess) == "邀请已发送！"@,
        is_ascii_text(en_us_text(MessageId::ReferralsEmailSuccess)),
        keeps_english_text(MessageId::ReferralsEmailSuccess) ==> zh_cn_text(MessageId::ReferralsEmailSuccess) == en_us_text(MessageId::ReferralsEmailSuccess),
        !keeps_english_text(MessageId::ReferralsEmailSuccess) ==> has_non_ascii(zh_cn_text(MessageId::ReferralsEmailSuccess)),
{
    reveal_strlit("Invitation sent!");
    reveal_strlit("邀请已发送！");
    assert(is_ascii_text("Invitation sent!"@));
    assert("邀请已发送！"@[0] == '\u{9080}');
    assert(("邀请已发送！"@[0] as u32) >= 128);
}

proof fn lemma_texts_referrals_email_failure()
    ensures
        en_us_text(MessageId::ReferralsEmailFailure) == "Failed to send invitation."@,
        zh_cn_text(MessageId::ReferralsEmailFailure) == "发送邀请失败。"@,
        is_ascii_text(en_us_text(MessageId::ReferralsEmailFailure)),
        keeps_english_text(MessageId::ReferralsEmailFailure) ==> zh_cn_text(MessageId::ReferralsEmailFailure) == en_us_text(MessageId::ReferralsEmailFailure),
        !keeps_english_text(MessageId::ReferralsEmailFailure) ==> has_non_ascii(zh_cn_text(MessageId::ReferralsEmailFailure)),
{
    reveal_strlit("Failed to send invitation.");
    reveal_strlit("发送邀请失败。");
    assert(is_ascii_text("Failed to send invitation."@));
    assert("发送邀请失败。"@[0] == '\u{53d1}');
    assert(("发送邀请失败。"@[0] as u32) >= 128);
}

proof fn lemma_texts_referrals_reward_intro()
    ensures
        en_us_text(MessageId::ReferralsRewardIntro) == "You'll both earn rewards when your friend joins Warp."@,
        zh_cn_text(MessageId::ReferralsRewardIntro) == "当您的朋友加入 Warp 后，你们都将获得奖励。"@,
        is_ascii_text(en_us_text(MessageId::ReferralsRewardIntro)),
        keeps_english_text(MessageId::ReferralsRewardIntro) ==> zh_cn_text(MessageId::ReferralsRewardIntro) == en_us_text(MessageId::ReferralsRewardIntro),
        !keeps_english_text(MessageId::ReferralsRewardIntro) ==> has_non_ascii(zh_cn_text(MessageId::ReferralsRewardIntro)),
{
    reveal_strlit("You'll both earn rewards when your friend joins Warp.");
    reveal_strlit("当您的朋友加入 Warp 后，你们都将获得奖励。");
    assert(is_ascii_text("You'll both earn rewards when your friend joins Warp."@));
    assert("当您的朋友加入 Warp 后，你们都将获得奖励。"@[0] == '\u{5f53}');
    assert(("当您的朋友加入 Warp 后，你们都将获得奖励。"@[0] as u32) >= 128);
}

proof fn lemma_texts_referrals_current_referral()
    ensures
        en_us_text(MessageId::ReferralsCurrentReferral) == "You have 1 active referral."@,
        zh_cn_text(MessageId::ReferralsCurrentReferral) == "您有 1 个活跃推荐。"@,
        is_ascii_text(en_us_text(MessageId::ReferralsCurrentReferral)),
        keeps_english_text(MessageId::ReferralsCurrentReferral) ==> zh_cn_text(MessageId::ReferralsCurrentReferral) == en_us_text(MessageId::ReferralsCurrentReferral),
        !keeps_english_text(MessageId::ReferralsCurrentReferral) ==> has_non_ascii(zh_cn_text(MessageId::ReferralsCurrentReferral)),
{
    reveal_strlit("You have 1 active referral.");
    reveal_strlit("您有 1 个活跃推荐。");
    assert(is_ascii_text("You have 1 active referral."@));
    assert("您有 1 个活跃推荐。"@[0] == '\u{60a8}');
    assert(("您有 1 个活跃推荐。"@[0] as u32) >= 128);
}

proof fn lemma_texts_referrals_current_referrals()
    ensures
        en_us_text(MessageId::ReferralsCurrentReferrals) == "You have {count} active referrals."@,
        zh_cn_text(MessageId::ReferralsCurrentReferrals) == "您有 {count} 个活跃推荐。"@,
        is_ascii_text(en_us_text(MessageId::ReferralsCurrentReferrals)),
        keeps_english_text(MessageId::ReferralsCurrentReferrals) ==> zh_cn_text(MessageId::ReferralsCurrentReferrals) == en_us_text(MessageId::ReferralsCurrentReferrals),
        !keeps_english_text(MessageId::ReferralsCurrentReferrals) ==> has_non_ascii(zh_cn_text(MessageId::ReferralsCurrentReferrals)),
{
    reveal_strlit("You have {count} active referrals.");
    reveal_strlit("您有 {count} 个活跃推荐。");
    assert(is_ascii_text("You have {count} active referrals."@));
    assert("您有 {count} 个活跃推荐。"@[0] == '\u{60a8}');
    assert(("您有 {count} 个活跃推荐。"@[0] as u32) >= 128);
}

proof fn lemma_texts_referrals_certain_restrictions()
    ensures
        en_us_text(MessageId::ReferralsCertainRestrictions) == "Certain restrictions apply."@,
        zh_cn_text(MessageId::ReferralsCertainRestrictions) == "某些限制适用。"@,
        is_ascii_text(en_us_text(MessageId::ReferralsCertainRestrictions)),
        keeps_english_text(MessageId::ReferralsCertainRestrictions) ==> zh_cn_text(MessageId::ReferralsCertainRestrictions) == en_us_text(MessageId::ReferralsCertainRestrictions),
        !keeps_english_text(MessageId::ReferralsCertainRestrictions) ==> has_non_ascii(zh_cn_text(MessageId::ReferralsCertainRestrictions)),
{
    reveal_strlit("Certain restrictions apply.");
    reveal_strlit("某些限制适用。");
    assert(is_ascii_text("Certain restrictions apply."@));
    assert("某些限制适用。"@[0] == '\u{67d0}');
    assert(("某些限制适用。"@[0] as u32) >= 128);
}

proof fn lemma_texts_keybindings_search_placeholder()
    ensures
        en_us_text(MessageId::KeybindingsSearchPlaceholder) == "Search by name or by keys"@,
        zh_cn_text(MessageId::KeybindingsSearchPlaceholder) == "按名称或按键搜索"@,
        is_ascii_text(en_us_text(MessageId::KeybindingsSearchPlaceholder)),
        keeps_english_text(MessageId::KeybindingsSearchPlaceholder) ==> zh_cn_text(MessageId::KeybindingsSearchPlaceholder) == en_us_text(MessageId::KeybindingsSearchPlaceholder),
        !keeps_english_text(MessageId::KeybindingsSearchPlaceholder) ==> has_non_ascii(zh_cn_text(MessageId::KeybindingsSearchPlaceholder)),
{
    reveal_strlit("Search by name or by keys");
    reveal_strlit("按名称或按键搜索");
    assert(is_ascii_text("Search by name or by keys"@));
    assert("按名称或按键搜索"@[0] == '\u{6309}');
    assert(("按名称或按键搜索"@[0] as u32) >= 128);
}

proof fn lemma_texts_keybindings_conflict_warning()
    ensures
        en_us_text(MessageId::KeybindingsConflictWarning) == "This shortcut conflicts with other keybinds"@,
        zh_cn_text(MessageId::KeybindingsConflictWarning) == "此快捷键与其他快捷键冲突"@,
        is_ascii_text(en_us_text(MessageId::KeybindingsConflictWarning)),
        keeps_english_text(MessageId::KeybindingsConflictWarning) ==> zh_cn_text(MessageId::KeybindingsConflictWarning) == en_us_text(MessageId::KeybindingsConflictWarning),
        !keeps_english_text(MessageId::KeybindingsConflictWarning) ==> has_non_ascii(zh_cn_text(MessageId::KeybindingsConflictWarning)),
{
    reveal_strlit("This shortcut conflicts with other keybinds");
    reveal_strlit("此快捷键与其他快捷键冲突");
    assert(is_ascii_text("This shortcut conflicts with other keybinds"@));
    assert("此快捷键与其他快捷键冲突"@[0] == '\u{6b64}');
    assert(("此快捷键与其他快捷键冲突"@[0] as u32) >= 128);
}

proof fn lemma_texts_keybindings_default()
    ensures
        en_us_text(MessageId::KeybindingsDefault) == "Default"@,
        zh_cn_text(MessageId::KeybindingsDefault) == "默认"@,
        is_ascii_text(en_us_text(MessageId::KeybindingsDefault)),
        keeps_english_text(MessageId::KeybindingsDefault) ==> zh_cn_text(MessageId::KeybindingsDefault) == en_us_text(MessageId::KeybindingsDefault),
        !keeps_english_text(MessageId::KeybindingsDefault) ==> has_non_ascii(zh_cn_text(MessageId::KeybindingsDefault)),
{
    reveal_strlit("Default");
    reveal_strlit("默认");
    assert(is_ascii_text("Default"@));
    assert("默认"@[0] == '\u{9ed8}');
    assert(("默认"@[0] as u32) >= 128);
}

proof fn lemma_texts_keybindings_cancel()
    ensures
        en_us_text(MessageId::KeybindingsCancel) == "Cancel"@,
        zh_cn_text(MessageId::KeybindingsCancel) == "取消"@,
        is_ascii_text(en_us_text(MessageId::KeybindingsCancel)),
        keeps_english_text(MessageId::KeybindingsCancel) ==> zh_cn_text(MessageId::KeybindingsCancel) == en_us_text(MessageId::KeybindingsCancel),
        !keeps_english_text(MessageId::KeybindingsCancel) ==> has_non_ascii(zh_cn_text(MessageId::KeybindingsCancel)),
{
    reveal_strlit("Cancel");
    reveal_strlit("取消");
    assert(is_ascii_text("Cancel"@));
    assert("取消"@[0] == '\u{53d6}');
    assert(("取消"@[0] as u32) >= 128);
}

proof fn lemma_texts_keybindings_clear()
    ensures
        en_us_text(MessageId::KeybindingsClear) == "Clear"@,
        zh_cn_text(MessageId::KeybindingsClear) == "清除"@,
        is_ascii_text(en_us_text(MessageId::KeybindingsClear)),
        keeps_english_text(MessageId::KeybindingsClear) ==> zh_cn_text(MessageId::KeybindingsClear) == en_us_text(MessageId::KeybindingsClear),
        !keeps_english_text(MessageId::KeybindingsClear) ==> has_non_ascii(zh_cn_text(MessageId::KeybindingsClear)),
{
    reveal_strlit("Clear");
    reveal_strlit("清除");
    assert(is_ascii_text("Clear"@));
    assert("清除"@[0] == '\u{6e05}');
    assert(("清除"@[0] as u32) >= 128);
}

proof fn lemma_texts_keybindings_save()
    ensures
        en_us_text(MessageId::KeybindingsSave) == "Save"@,
        zh_cn_text(MessageId::KeybindingsSave) == "保存"@,
        is_ascii_text(en_us_text(MessageId::KeybindingsSave)),
        keeps_english_text(MessageId::KeybindingsSave) ==> zh_cn_text(MessageId::KeybindingsSave) == en_us_text(MessageId::KeybindingsSave),
        !keeps_english_text(MessageId::KeybindingsSave) ==> has_non_ascii(zh_cn_text(MessageId::KeybindingsSave)),
{
    reveal_strlit("Save");
    reveal_strlit("保存");
    assert(is_ascii_text("Save"@));
    assert("保存"@[0] == '\u{4fdd}');
    assert(("保存"@[0] as u32) >= 128);
}

proof fn lemma_texts_warp_drive_sign_up_required()
    ensures
        en_us_text(MessageId::WarpDriveSignUpRequired) == "To use Warp Drive, please create an account."@,
        zh_cn_text(MessageId::WarpDriveSignUpRequired) == "要使用 Warp Drive，请创建账户。"@,
        is_ascii_text(en_us_text(MessageId::WarpDriveSignUpRequired)),
        keeps_english_text(MessageId::WarpDriveSignUpRequired) ==> zh_cn_text(MessageId::WarpDriveSignUpRequired) == en_us_text(MessageId::WarpDriveSignUpRequired),
        !keeps_english_text(MessageId::WarpDriveSignUpRequired) ==> has_non_ascii(zh_cn_text(MessageId::WarpDriveSignUpRequired)),
{
    reveal_strlit("To use Warp Drive, please create an account.");
    reveal_strlit("要使用 Warp Drive，请创建账户。");
    assert(is_ascii_text("To use Warp Drive, please create an account."@));
    assert("要使用 Warp Drive，请创建账户。"@[0] == '\u{8981}');
    assert(("要使用 Warp Drive，请创建账户。"@[0] as u32) >= 128);
}

proof fn lemma_texts_warpify_subshells()
    ensures
        en_us_text(MessageId::WarpifySubshells) == "Subshells"@,
        zh_cn_text(MessageId::WarpifySubshells) == "子 Shell"@,
        is_ascii_text(en_us_text(MessageId::WarpifySubshells)),
        keeps_english_text(MessageId::WarpifySubshells) ==> zh_cn_text(MessageId::WarpifySubshells) == en_us_text(MessageId::WarpifySubshells),
        !keeps_english_text(MessageId::WarpifySubshells) ==> has_non_ascii(zh_cn_text(MessageId::WarpifySubshells)),
{
    reveal_strlit("Subshells");
    reveal_strlit("子 Shell");
    assert(is_ascii_text("Subshells"@));
    assert("子 Shell"@[0] == '\u{5b50}');
    assert(("子 Shell"@[0] as u32) >= 128);
}

proof fn lemma_texts_warpify_ssh()
    ensures
        en_us_text(MessageId::WarpifySsh) == "SSH"@,
        zh_cn_text(MessageId::WarpifySsh) == "SSH"@,
        is_ascii_text(en_us_text(MessageId::WarpifySsh)),
        keeps_english_text(MessageId::WarpifySsh) ==> zh_cn_text(MessageId::WarpifySsh) == en_us_text(MessageId::WarpifySsh),
        !keeps_english_text(MessageId::WarpifySsh) ==> has_non_ascii(zh_cn_text(MessageId::WarpifySsh)),
{
    reveal_strlit("SSH");
    reveal_strlit("SSH");
    assert(is_ascii_text("SSH"@));
}

proof fn lemma_texts_mcp_servers_title()
    ensures
        en_us_text(MessageId::McpServersTitle) == "MCP Servers"@,
        zh_cn_text(MessageId::McpServersTitle) == "MCP 服务器"@,
        is_ascii_text(en_us_text(MessageId::McpServersTitle)),
        keeps_english_text(MessageId::McpServersTitle) ==> zh_cn_text(MessageId::McpServersTitle) == en_us_text(MessageId::McpServersTitle),
        !keeps_english_text(MessageId::McpServersTitle) ==> has_non_ascii(zh_cn_text(MessageId::McpServersTitle)),
{
    reveal_strlit("MCP Servers");
    reveal_strlit("MCP 服务器");
    assert(is_ascii_text("MCP Servers"@));
    assert("MCP 服务器"@[4] == '\u{670d}');
    assert(("MCP 服务器"@[4] as u32) >= 128);
}

proof fn lemma_texts_environments_last_edited()
    ensures
        en_us_text(MessageId::EnvironmentsLastEdited) == "Last edited:"@,
        zh_cn_text(MessageId::EnvironmentsLastEdited) == "上次编辑："@,
        is_ascii_text(en_us_text(MessageId::EnvironmentsLastEdited)),
        keeps_english_text(MessageId::EnvironmentsLastEdited) ==> zh_cn_text(MessageId::EnvironmentsLastEdited) == en_us_text(MessageId::EnvironmentsLastEdited),
        !keeps_english_text(MessageId::EnvironmentsLastEdited) ==> has_non_ascii(zh_cn_text(MessageId::EnvironmentsLastEdited)),
{
    reveal_strlit("Last edited:");
    reveal_strlit("上次编辑：");
    assert(is_ascii_text("Last edited:"@));
    assert("上次编辑："@[0] == '\u{4e0a}');
    assert(("上次编辑："@[0] as u32) >= 128);
}

proof fn lemma_texts_environments_last_used()
    ensures
        en_us_text(MessageId::EnvironmentsLastUsed) == "Last used:"@,
        zh_cn_text(MessageId::EnvironmentsLastUsed) == "上次使用："@,
        is_ascii_text(en_us_text(MessageId::EnvironmentsLastUsed)),
        keeps_english_text(MessageId::EnvironmentsLastUsed) ==> zh_cn_text(MessageId::EnvironmentsLastUsed) == en_us_text(MessageId::EnvironmentsLastUsed),
        !keeps_english_text(MessageId::EnvironmentsLastUsed) ==> has_non_ascii(zh_cn_text(MessageId::EnvironmentsLastUsed)),
{
    reveal_strlit("Last used:");
    reveal_strlit("上次使用：");
    assert(is_ascii_text("Last used:"@));
    assert("上次使用："@[0] == '\u{4e0a}');
    assert(("上次使用："@[0] as u32) >= 128);
}

proof fn lemma_texts_environments_view_runs()
    ensures
        en_us_text(MessageId::EnvironmentsViewRuns) == "View my runs"@,
        zh_cn_text(MessageId::EnvironmentsViewRuns) == "查看我的运行记录"@,
        is_ascii_text(en_us_text(MessageId::EnvironmentsViewRuns)),
        keeps_english_text(MessageId::EnvironmentsViewRuns) ==> zh_cn_text(MessageId::EnvironmentsViewRuns) == en_us_text(MessageId::EnvironmentsViewRuns),
        !keeps_english_text(MessageId::EnvironmentsViewRuns) ==> has_non_ascii(zh_cn_text(MessageId::EnvironmentsViewRuns)),
{
    reveal_strlit("View my runs");
    reveal_strlit("查看我的运行记录");
    assert(is_ascii_text("View my runs"@));
    assert("查看我的运行记录"@[0] == '\u{67e5}');
    assert(("查看我的运行记录"@[0] as u32) >= 128);
}

proof fn lemma_texts_platform_new_api_key()
    ensures
        en_us_text(MessageId::PlatformNewApiKey) == "New API key"@,
        zh_cn_text(MessageId::PlatformNewApiKey) == "新建 API 密钥"@,
        is_ascii_text(en_us_text(MessageId::PlatformNewApiKey)),
        keeps_english_text(MessageId::PlatformNewApiKey) ==> zh_cn_text(MessageId::PlatformNewApiKey) == en_us_text(MessageId::PlatformNewApiKey),
        !keeps_english_text(MessageId::PlatformNewApiKey) ==> has_non_ascii(zh_cn_text(MessageId::PlatformNewApiKey)),
{
    reveal_strlit("New API key");
    reveal_strlit("新建 API 密钥");
    assert(is_ascii_text("New API key"@));
    assert("新建 API 密钥"@[0] == '\u{65b0}');
    assert(("新建 API 密钥"@[0] as u32) >= 128);
}

proof fn lemma_texts_show_blocks_copy_link()
    ensures
        en_us_text(MessageId::ShowBlocksCopyLink) == "Copy link"@,
        zh_cn_text(MessageId::ShowBlocksCopyLink) == "复制链接"@,
        is_ascii_text(en_us_text(MessageId::ShowBlocksCopyLink)),
        keeps_english_text(MessageId::ShowBlocksCopyLink) ==> zh_cn_text(MessageId::ShowBlocksCopyLink) == en_us_text(MessageId::ShowBlocksCopyLink),
        !keeps_english_text(MessageId::ShowBlocksCopyLink) ==> has_non_ascii(zh_cn_text(MessageId::ShowBlocksCopyLink)),
{
    reveal_strlit("Copy link");
    reveal_strlit("复制链接");
    assert(is_ascii_text("Copy link"@));
    assert("复制链接"@[0] == '\u{590d}');
    assert(("复制链接"@[0] as u32) >= 128);
}

proof fn lemma_texts_show_blocks_deleting()
    ensures
        en_us_text(MessageId::ShowBlocksDeleting) == "Deleting..."@,
        zh_cn_text(MessageId::ShowBlocksDeleting) == "删除中..."@,
        is_ascii_text(en_us_text(MessageId::ShowBlocksDeleting)),
        keeps_english_text(MessageId::ShowBlocksDeleting) ==> zh_cn_text(MessageId::ShowBlocksDeleting) == en_us_text(MessageId::ShowBlocksDeleting),
        !keeps_english_text(MessageId::ShowBlocksDeleting) ==> has_non_ascii(zh_cn_text(MessageId::ShowBlocksDeleting)),
{
    reveal_strlit("Deleting...");
    reveal_strlit("删除中...");
    assert(is_ascii_text("Deleting..."@));
    assert("删除中..."@[0] == '\u{5220}');
    assert(("删除中..."@[0] as u32) >= 128);
}

proof fn lemma_texts_settings_open_settings_file()
    ensures
        en_us_text(MessageId::SettingsOpenSettingsFile) == "Open settings file"@,
        zh_cn_text(MessageId::SettingsOpenSettingsFile) == "打开设置文件"@,
        is_ascii_text(en_us_text(MessageId::SettingsOpenSettingsFile)),
        keeps_english_text(MessageId::SettingsOpenSettingsFile) ==> zh_cn_text(MessageId::SettingsOpenSettingsFile) == en_us_text(MessageId::SettingsOpenSettingsFile),
        !keeps_english_text(MessageId::SettingsOpenSettingsFile) ==> has_non_ascii(zh_cn_text(MessageId::SettingsOpenSettingsFile)),
{
    reveal_strlit("Open settings file");
    reveal_strlit("打开设置文件");
    assert(is_ascii_text("Open settings file"@));
    assert("打开设置文件"@[0] == '\u{6253}');
    assert(("打开设置文件"@[0] as u32) >= 128);
}

proof fn lemma_texts_settings_default()
    ensures
        en_us_text(MessageId::SettingsDefault) == "Default"@,
        zh_cn_text(MessageId::SettingsDefault) == "默认"@,
        is_ascii_text(en_us_text(MessageId::SettingsDefault)),
        keeps_english_text(MessageId::SettingsDefault) ==> zh_cn_text(MessageId::SettingsDefault) == en_us_text(MessageId::SettingsDefault),
        !keeps_english_text(MessageId::SettingsDefault) ==> has_non_ascii(zh_cn_text(MessageId::SettingsDefault)),
{
    reveal_strlit("Default");
    reveal_strlit("默认");
    assert(is_ascii_text("Default"@));
    assert("默认"@[0] == '\u{9ed8}');
    assert(("默认"@[0] as u32) >= 128);
}

/// Every English message is written in ASCII. Every Simplified Chinese message holds a
/// character outside ASCII, except those that keep their English text, which the two tables
/// then share.
pub proof fn lemma_message_tables_by_language(message_id: MessageId)
    ensures
        is_ascii_text(en_us_text(message_id)),
        keeps_english_text(message_id) ==> zh_cn_text(message_id) == en_us_text(message_id),
        !keeps_english_text(message_id) ==> has_non_ascii(zh_cn_text(message_id)),
{
    match message_id {
        MessageId::SettingsAbout => lemma_texts_settings_about(),
        MessageId::SettingsAccount => lemma_texts_settings_account(),
        MessageId::SettingsAgents => lemma_texts_settings_agents(),
        MessageId::SettingsAppearance => lemma_texts_settings_appearance(),
        MessageId::SettingsBillingAndUsage => lemma_texts_settings_billing_and_usage(),
        MessageId::SettingsCloudEnvironments => lemma_texts_settings_cloud_environments(),
        MessageId::SettingsCloudPlatform => lemma_texts_settings_cloud_platform(),
        MessageId::SettingsCode => lemma_texts_settings_code(),
        MessageId::SettingsCodeEditorAndCodeReview => lemma_texts_settings_code_editor_and_code_review(),
        MessageId::SettingsCodeIndexing => lemma_texts_settings_code_indexing(),
        MessageId::SettingsFeatures => lemma_texts_settings_features(),
        MessageId::SettingsKeybindings => lemma_texts_settings_keybindings(),
        MessageId::SettingsLanguage => lemma_texts_settings_language(),
        MessageId::SettingsLocalAIProvider => lemma_texts_settings_local_a_i_provider(),
        MessageId::SettingsKnowledge => lemma_texts_settings_knowledge(),
        MessageId::SettingsMcpServers => lemma_texts_settings_mcp_servers(),
        MessageId::SettingsOzCloudApiKeys => lemma_texts_settings_oz_cloud_api_keys(),
        MessageId::SettingsPrivacy => lemma_texts_settings_privacy(),
        MessageId::SettingsProfiles => lemma_texts_settings_profiles(),
        MessageId::SettingsReferrals => lemma_texts_settings_referrals(),
        MessageId::SettingsSharedBlocks => lemma_texts_settings_shared_blocks(),
        MessageId::SettingsTeams => lemma_texts_settings_teams(),
        MessageId::SettingsThirdPartyCliAgents => lemma_texts_settings_third_party_cli_agents(),
        MessageId::SettingsWarpAgent => lemma_texts_settings_warp_agent(),
        MessageId::SettingsWarpDrive => lemma_texts_settings_warp_drive(),
        MessageId::SettingsWarpify => lemma_texts_settings_warpify(),
        MessageId::AboutCopyright => lemma_texts_about_copyright(),
        MessageId::LanguagePageDescription => lemma_texts_language_page_description(),
        MessageId::LanguagePageOptionEnglish => lemma_texts_language_page_option_english(),
        MessageId::LanguagePageOptionSimplifiedChinese => lemma_texts_language_page_option_simplified_chinese(),
        MessageId::LanguagePageRestartNote => lemma_texts_language_page_restart_note(),
        MessageId::LanguagePageSelectorLabel => lemma_texts_language_page_selector_label(),
        MessageId::MenuAi => lemma_texts_menu_ai(),
        MessageId::MenuBlocks => lemma_texts_menu_blocks(),
        MessageId::MenuDrive => lemma_texts_menu_drive(),
        MessageId::MenuEdit => lemma_texts_menu_edit(),
        MessageId::MenuFile => lemma_texts_menu_file(),
        MessageId::MenuHelp => lemma_texts_menu_help(),
        MessageId::MenuTab => lemma_texts_menu_tab(),
        MessageId::MenuView => lemma_texts_menu_view(),
        MessageId::MenuWindow => lemma_texts_menu_window(),
        MessageId::AppPreferences => lemma_texts_app_preferences(),
        MessageId::AppPrivacyPolicy => lemma_texts_app_privacy_policy(),
        MessageId::AppDebug => lemma_texts_app_debug(),
        MessageId::AppSetDefaultTerminal => lemma_texts_app_set_default_terminal(),
        MessageId::AppLogout => lemma_texts_app_logout(),
        MessageId::FileNewWindow => lemma_texts_file_new_window(),
        MessageId::FileNewTerminalTab => lemma_texts_file_new_terminal_tab(),
        MessageId::FileNewAgentTab => lemma_texts_file_new_agent_tab(),
        MessageId::FileNewFile => lemma_texts_file_new_file(),
        MessageId::FileReopenClosedSession => lemma_texts_file_reopen_closed_session(),
        MessageId::FileLaunchConfigurations => lemma_texts_file_launch_configurations(),
        MessageId::FileOpenRecent => lemma_texts_file_open_recent(),
        MessageId::FileSaveNew => lemma_texts_file_save_new(),
        MessageId::FileClose => lemma_texts_file_close(),
        MessageId::FileCloseWindow => lemma_texts_file_close_window(),
        MessageId::EditUseWarpPrompt => lemma_texts_edit_use_warp_prompt(),
        MessageId::EditCopyOnSelect => lemma_texts_edit_copy_on_select(),
        MessageId::EditSynchronizeInputs => lemma_texts_edit_synchronize_inputs(),
        MessageId::ViewToggleMouseReporting => lemma_texts_view_toggle_mouse_reporting(),
        MessageId::ViewToggleScrollReporting => lemma_texts_view_toggle_scroll_reporting(),
        MessageId::ViewToggleFocusReporting => lemma_texts_view_toggle_focus_reporting(),
        MessageId::ViewCompactMode => lemma_texts_view_compact_mode(),
        MessageId::HelpSendFeedback => lemma_texts_help_send_feedback(),
        MessageId::HelpWarpDocumentation => lemma_texts_help_warp_documentation(),
        MessageId::HelpGitHubIssues => lemma_texts_help_git_hub_issues(),
        MessageId::HelpWarpSlackCommunity => lemma_texts_help_warp_slack_community(),
        MessageId::DockNewWindow => lemma_texts_dock_new_window(),
        MessageId::DebugEnableShellDebugMode => lemma_texts_debug_enable_shell_debug_mode(),
        MessageId::DebugDisableShellDebugMode => lemma_texts_debug_disable_shell_debug_mode(),
        MessageId::DebugEnableInBandGenerators => lemma_texts_debug_enable_in_band_generators(),
        MessageId::DebugDisableInBandGenerators => lemma_texts_debug_disable_in_band_generators(),
        MessageId::DebugEnablePtyRecording => lemma_texts_debug_enable_pty_recording(),
        MessageId::DebugDisablePtyRecording => lemma_texts_debug_disable_pty_recording(),
        MessageId::DebugShowBootstrapBlock => lemma_texts_debug_show_bootstrap_block(),
        MessageId::DebugHideBootstrapBlock => lemma_texts_debug_hide_bootstrap_block(),
        MessageId::DebugShowInBandCommandBlocks => lemma_texts_debug_show_in_band_command_blocks(),
        MessageId::DebugHideInBandCommandBlocks => lemma_texts_debug_hide_in_band_command_blocks(),
        MessageId::DebugShowSshBlocks => lemma_texts_debug_show_ssh_blocks(),
        MessageId::DebugHideSshBlocks => lemma_texts_debug_hide_ssh_blocks(),
        MessageId::DebugExportDefaultSettingsCsv => lemma_texts_debug_export_default_settings_csv(),
        MessageId::DebugToggleNetworkStatus => lemma_texts_debug_toggle_network_status(),
        MessageId::DebugCreateAnonymousUser => lemma_texts_debug_create_anonymous_user(),
        MessageId::EditUndo => lemma_texts_edit_undo(),
        MessageId::EditRedo => lemma_texts_edit_redo(),
        MessageId::EditCut => lemma_texts_edit_cut(),
        MessageId::EditCopy => lemma_texts_edit_copy(),
        MessageId::EditPaste => lemma_texts_edit_paste(),
        MessageId::EditSelectAll => lemma_texts_edit_select_all(),
        MessageId::EditClearEditor => lemma_texts_edit_clear_editor(),
        MessageId::EditFind => lemma_texts_edit_find(),
        MessageId::EditGoToLine => lemma_texts_edit_go_to_line(),
        MessageId::EditFocusInput => lemma_texts_edit_focus_input(),
        MessageId::EditAddNextOccurrence => lemma_texts_edit_add_next_occurrence(),
        MessageId::EditAddCursorAbove => lemma_texts_edit_add_cursor_above(),
        MessageId::EditAddCursorBelow => lemma_texts_edit_add_cursor_below(),
        MessageId::ViewCommandPalette => lemma_texts_view_command_palette(),
        MessageId::ViewNavigationPalette => lemma_texts_view_navigation_palette(),
        MessageId::ViewLaunchConfigPalette => lemma_texts_view_launch_config_palette(),
        MessageId::ViewFilesPalette => lemma_texts_view_files_palette(),
        MessageId::ViewToggleConversationList => lemma_texts_view_toggle_conversation_list(),
        MessageId::ViewToggleProjectExplorer => lemma_texts_view_toggle_project_explorer(),
        MessageId::ViewToggleGlobalSearch => lemma_texts_view_toggle_global_search(),
        MessageId::ViewHistory => lemma_texts_view_history(),
        MessageId::ViewCommandSearch => lemma_texts_view_command_search(),
        MessageId::ViewWorkflows => lemma_texts_view_workflows(),
        MessageId::ViewIncreaseFontSize => lemma_texts_view_increase_font_size(),
        MessageId::ViewDecreaseFontSize => lemma_texts_view_decrease_font_size(),
        MessageId::ViewResetFontSize => lemma_texts_view_reset_font_size(),
        MessageId::ViewIncreaseZoom => lemma_texts_view_increase_zoom(),
        MessageId::ViewDecreaseZoom => lemma_texts_view_decrease_zoom(),
        MessageId::ViewResetZoom => lemma_texts_view_reset_zoom(),
        MessageId::ViewToggleWarpDrive => lemma_texts_view_toggle_warp_drive(),
        MessageId::TabRename => lemma_texts_tab_rename(),
        MessageId::TabSplitRight => lemma_texts_tab_split_right(),
        MessageId::TabSplitLeft => lemma_texts_tab_split_left(),
        MessageId::TabSplitDown => lemma_texts_tab_split_down(),
        MessageId::TabSplitUp => lemma_texts_tab_split_up(),
        MessageId::TabMoveLeft => lemma_texts_tab_move_left(),
        MessageId::TabMoveRight => lemma_texts_tab_move_right(),
        MessageId::TabCycleNext => lemma_texts_tab_cycle_next(),
        MessageId::TabCyclePrev => lemma_texts_tab_cycle_prev(),
        MessageId::TabActivateNextPane => lemma_texts_tab_activate_next_pane(),
        MessageId::TabActivatePrevPane => lemma_texts_tab_activate_prev_pane(),
        MessageId::TabMaximizePane => lemma_texts_tab_maximize_pane(),
        MessageId::TabClose => lemma_texts_tab_close(),
        MessageId::TabCloseOthers => lemma_texts_tab_close_others(),
        MessageId::TabCloseRight => lemma_texts_tab_close_right(),
        MessageId::BlocksClear => lemma_texts_blocks_clear(),
        MessageId::BlocksSelectAbove => lemma_texts_blocks_select_above(),
        MessageId::BlocksSelectBelow => lemma_texts_blocks_select_below(),
        MessageId::BlocksSelectAll => lemma_texts_blocks_select_all(),
        MessageId::BlocksScrollToTop => lemma_texts_blocks_scroll_to_top(),
        MessageId::BlocksScrollToBottom => lemma_texts_blocks_scroll_to_bottom(),
        MessageId::BlocksCreatePermalink => lemma_texts_blocks_create_permalink(),
        MessageId::BlocksToggleBookmark => lemma_texts_blocks_toggle_bookmark(),
        MessageId::BlocksFindWithin => lemma_texts_blocks_find_within(),
        MessageId::BlocksCopy => lemma_texts_blocks_copy(),
        MessageId::BlocksCopyCommand => lemma_texts_blocks_copy_command(),
        MessageId::BlocksCopyOutput => lemma_texts_blocks_copy_output(),
        MessageId::BlocksViewShared => lemma_texts_blocks_view_shared(),
        MessageId::AiNewAgentMode => lemma_texts_ai_new_agent_mode(),
        MessageId::AiAttachSelection => lemma_texts_ai_attach_selection(),
        MessageId::AiSearch => lemma_texts_ai_search(),
        MessageId::AiOpenFactCollection => lemma_texts_ai_open_fact_collection(),
        MessageId::AiOpenMcpServers => lemma_texts_ai_open_mcp_servers(),
        MessageId::DriveNewPersonalWorkflow => lemma_texts_drive_new_personal_workflow(),
        MessageId::DriveNewPersonalNotebook => lemma_texts_drive_new_personal_notebook(),
        MessageId::DriveNewPersonalAIPrompt => lemma_texts_drive_new_personal_a_i_prompt(),
        MessageId::DriveNewPersonalEnvVars => lemma_texts_drive_new_personal_env_vars(),
        MessageId::DriveNewTeamWorkflow => lemma_texts_drive_new_team_workflow(),
        MessageId::DriveNewTeamNotebook => lemma_texts_drive_new_team_notebook(),
        MessageId::DriveNewTeamAIPrompt => lemma_texts_drive_new_team_a_i_prompt(),
        MessageId::DriveNewTeamEnvVars => lemma_texts_drive_new_team_env_vars(),
        MessageId::DriveSearch => lemma_texts_drive_search(),
        MessageId::DriveOpenTeamSettings => lemma_texts_drive_open_team_settings(),
        MessageId::DriveSharePaneContents => lemma_texts_drive_share_pane_contents(),
        MessageId::DriveShareSession => lemma_texts_drive_share_session(),
        MessageId::AppShowAboutWarp => lemma_texts_app_show_about_warp(),
        MessageId::AppToggleResourceCenter => lemma_texts_app_toggle_resource_center(),
        MessageId::AppReferAFriend => lemma_texts_app_refer_a_friend(),
        MessageId::AppShowSettings => lemma_texts_app_show_settings(),
        MessageId::AppToggleKeybindings => lemma_texts_app_toggle_keybindings(),
        MessageId::AppConfigureKeybindings => lemma_texts_app_configure_keybindings(),
        MessageId::AppShowAppearance => lemma_texts_app_show_appearance(),
        MessageId::AppViewChangelog => lemma_texts_app_view_changelog(),
        MessageId::SyncAllTerminalInputs => lemma_texts_sync_all_terminal_inputs(),
        MessageId::SyncTerminalInputsCurrentTab => lemma_texts_sync_terminal_inputs_current_tab(),
        MessageId::DisableSyncInputs => lemma_texts_disable_sync_inputs(),
        MessageId::FileOpenRepository => lemma_texts_file_open_repository(),
        MessageId::AddWindow => lemma_texts_add_window(),
        MessageId::SettingsSignUp => lemma_texts_settings_sign_up(),
        MessageId::SettingsFree => lemma_texts_settings_free(),
        MessageId::SettingsComparePlans => lemma_texts_settings_compare_plans(),
        MessageId::SettingsUpToDate => lemma_texts_settings_up_to_date(),
        MessageId::SettingsVersion => lemma_texts_settings_version(),
        MessageId::SettingsLogOut => lemma_texts_settings_log_out(),
        MessageId::SettingsReferralCta => lemma_texts_settings_referral_cta(),
        MessageId::SettingsContactSupport => lemma_texts_settings_contact_support(),
        MessageId::SettingsManageBilling => lemma_texts_settings_manage_billing(),
        MessageId::SettingsCheckForUpdates => lemma_texts_settings_check_for_updates(),
        MessageId::SettingsRelaunchWarp => lemma_texts_settings_relaunch_warp(),
        MessageId::SettingsUpdateAvailable => lemma_texts_settings_update_available(),
        MessageId::SettingsUpdating => lemma_texts_settings_updating(),
        MessageId::SettingsInstalledUpdate => lemma_texts_settings_installed_update(),
        MessageId::SettingsUpdateManually => lemma_texts_settings_update_manually(),
        MessageId::SettingsSettingsSync => lemma_texts_settings_settings_sync(),
        MessageId::AppearanceCategoryThemes => lemma_texts_appearance_category_themes(),
        MessageId::AppearanceCategoryIcon => lemma_texts_appearance_category_icon(),
        MessageId::AppearanceCategoryWindow => lemma_texts_appearance_category_window(),
        MessageId::AppearanceCategoryInput => lemma_texts_appearance_category_input(),
        MessageId::AppearanceCategoryPanes => lemma_texts_appearance_category_panes(),
        MessageId::AppearanceCategoryBlocks => lemma_texts_appearance_category_blocks(),
        MessageId::AppearanceCategoryText => lemma_texts_appearance_category_text(),
        MessageId::AppearanceCategoryCursor => lemma_texts_appearance_category_cursor(),
        MessageId::AppearanceCategoryTabs => lemma_texts_appearance_category_tabs(),
        MessageId::AppearanceCategoryFullscreenApps => lemma_texts_appearance_category_fullscreen_apps(),
        MessageId::AppearanceCompactMode => lemma_texts_appearance_compact_mode(),
        MessageId::AppearanceSyncWithOs => lemma_texts_appearance_sync_with_os(),
        MessageId::AppearanceCursorBlink => lemma_texts_appearance_cursor_blink(),
        MessageId::AppearanceJumpToBottom => lemma_texts_appearance_jump_to_bottom(),
        MessageId::AppearanceBlockDividers => lemma_texts_appearance_block_dividers(),
        MessageId::AppearanceDimInactivePanes => lemma_texts_appearance_dim_inactive_panes(),
        MessageId::AppearanceTabIndicators => lemma_texts_appearance_tab_indicators(),
        MessageId::AppearanceFocusFollowsMouse => lemma_texts_appearance_focus_follows_mouse(),
        MessageId::AppearanceZenMode => lemma_texts_appearance_zen_mode(),
        MessageId::AppearanceVerticalTabLayout => lemma_texts_appearance_vertical_tab_layout(),
        MessageId::AppearanceLigatureRendering => lemma_texts_appearance_ligature_rendering(),
        MessageId::AppearanceStartInputTop => lemma_texts_appearance_start_input_top(),
        MessageId::AppearancePinInputTop => lemma_texts_appearance_pin_input_top(),
        MessageId::AppearancePinInputBottom => lemma_texts_appearance_pin_input_bottom(),
        MessageId::AppearanceToggleInputMode => lemma_texts_appearance_toggle_input_mode(),
        MessageId::AppearanceAlwaysShowTabBar => lemma_texts_appearance_always_show_tab_bar(),
        MessageId::AppearanceHideTabBarFullscreen => lemma_texts_appearance_hide_tab_bar_fullscreen(),
        MessageId::AppearanceShowTabBarOnHover => lemma_texts_appearance_show_tab_bar_on_hover(),
        MessageId::AppearanceHeaderToolbarLayout => lemma_texts_appearance_header_toolbar_layout(),
        MessageId::AppearanceCreateCustomTheme => lemma_texts_appearance_create_custom_theme(),
        MessageId::AppearanceWindowOpacity => lemma_texts_appearance_window_opacity(),
        MessageId::AppearanceWindowBlur => lemma_texts_appearance_window_blur(),
        MessageId::AppearanceInputType => lemma_texts_appearance_input_type(),
        MessageId::AppearanceShowCodeReviewButton => lemma_texts_appearance_show_code_review_button(),
        MessageId::AppearanceHideCodeReviewButton => lemma_texts_appearance_hide_code_review_button(),
        MessageId::AppearanceInputModeWarp => lemma_texts_appearance_input_mode_warp(),
        MessageId::AppearanceInputModeReverse => lemma_texts_appearance_input_mode_reverse(),
        MessageId::AppearanceInputModeClassic => lemma_texts_appearance_input_mode_classic(),
        MessageId::AppearanceThinStrokesNever => lemma_texts_appearance_thin_strokes_never(),
        MessageId::AppearanceThinStrokesLowDpi => lemma_texts_appearance_thin_strokes_low_dpi(),
        MessageId::AppearanceThinStrokesHighDpi => lemma_texts_appearance_thin_strokes_high_dpi(),
        MessageId::AppearanceThinStrokesAlways => lemma_texts_appearance_thin_strokes_always(),
        MessageId::AppearanceContrastAlways => lemma_texts_appearance_contrast_always(),
        MessageId::AppearanceContrastNamedColors => lemma_texts_appearance_contrast_named_colors(),
        MessageId::AppearanceNever => lemma_texts_appearance_never(),
        MessageId::AppearanceAlways => lemma_texts_appearance_always(),
        MessageId::FeaturesCategoryGeneral => lemma_texts_features_category_general(),
        MessageId::FeaturesCategorySession => lemma_texts_features_category_session(),
        MessageId::FeaturesCategoryKeys => lemma_texts_features_category_keys(),
        MessageId::FeaturesCategoryTextEditing => lemma_texts_features_category_text_editing(),
        MessageId::FeaturesCategoryTerminalInput => lemma_texts_features_category_terminal_input(),
        MessageId::FeaturesCategoryTerminal => lemma_texts_features_category_terminal(),
        MessageId::FeaturesCategoryNotifications => lemma_texts_features_category_notifications(),
        MessageId::FeaturesCategoryWorkflows => lemma_texts_features_category_workflows(),
        MessageId::FeaturesCategorySystem => lemma_texts_features_category_system(),
        MessageId::FeaturesCopyOnSelect => lemma_texts_features_copy_on_select(),
        MessageId::FeaturesLinuxSelectionClipboard => lemma_texts_features_linux_selection_clipboard(),
        MessageId::FeaturesAutocompleteQuotes => lemma_texts_features_autocomplete_quotes(),
        MessageId::FeaturesRestoreWindows => lemma_texts_features_restore_windows(),
        MessageId::FeaturesScrollReporting => lemma_texts_features_scroll_reporting(),
        MessageId::FeaturesCompletionsWhileTyping => lemma_texts_features_completions_while_typing(),
        MessageId::FeaturesCommandCorrections => lemma_texts_features_command_corrections(),
        MessageId::FeaturesErrorUnderlining => lemma_texts_features_error_underlining(),
        MessageId::FeaturesSyntaxHighlighting => lemma_texts_features_syntax_highlighting(),
        MessageId::FeaturesAudibleTerminalBell => lemma_texts_features_audible_terminal_bell(),
        MessageId::FeaturesAutosuggestions => lemma_texts_features_autosuggestions(),
        MessageId::FeaturesAutosuggestionKeybindingHint => lemma_texts_features_autosuggestion_keybinding_hint(),
        MessageId::FeaturesSshWrapper => lemma_texts_features_ssh_wrapper(),
        MessageId::FeaturesLinkTooltip => lemma_texts_features_link_tooltip(),
        MessageId::FeaturesVimUnnamedRegister => lemma_texts_features_vim_unnamed_register(),
        MessageId::FeaturesVimStatusBar => lemma_texts_features_vim_status_bar(),
        MessageId::FeaturesWaylandWindowManagement => lemma_texts_features_wayland_window_management(),
        MessageId::FeaturesConfigureGlobalHotkey => lemma_texts_features_configure_global_hotkey(),
        MessageId::FeaturesMakeDefaultTerminal => lemma_texts_features_make_default_terminal(),
        MessageId::FeaturesLeftOptionMeta => lemma_texts_features_left_option_meta(),
        MessageId::FeaturesRightOptionMeta => lemma_texts_features_right_option_meta(),
        MessageId::FeaturesLeftAltMeta => lemma_texts_features_left_alt_meta(),
        MessageId::FeaturesRightAltMeta => lemma_texts_features_right_alt_meta(),
        MessageId::FeaturesPerformanceWarning => lemma_texts_features_performance_warning(),
        MessageId::CodeInitializationSettings => lemma_texts_code_initialization_settings(),
        MessageId::CodeCodebaseIndexing => lemma_texts_code_codebase_indexing(),
        MessageId::CodeCodebaseIndexDescription => lemma_texts_code_codebase_index_description(),
        MessageId::CodeWarpIndexingIgnoreDescription => lemma_texts_code_warp_indexing_ignore_description(),
        MessageId::CodeAutoIndexFeatureName => lemma_texts_code_auto_index_feature_name(),
        MessageId::CodeAutoIndexDescription => lemma_texts_code_auto_index_description(),
        MessageId::CodeIndexingDisabledAdmin => lemma_texts_code_indexing_disabled_admin(),
        MessageId::CodeIndexingWorkspaceEnabledAdmin => lemma_texts_code_indexing_workspace_enabled_admin(),
        MessageId::CodeIndexingDisabledGlobalAi => lemma_texts_code_indexing_disabled_global_ai(),
        MessageId::CodeCodebaseIndexLimitReached => lemma_texts_code_codebase_index_limit_reached(),
        MessageId::CodeCodebaseIndexingCategory => lemma_texts_code_codebase_indexing_category(),
        MessageId::CodeEditorAndReviewCategory => lemma_texts_code_editor_and_review_category(),
        MessageId::CodeIndexNewFolder => lemma_texts_code_index_new_folder(),
        MessageId::CodeRestartServer => lemma_texts_code_restart_server(),
        MessageId::CodeViewLogs => lemma_texts_code_view_logs(),
        MessageId::CodeSyncing => lemma_texts_code_syncing(),
        MessageId::CodeSynced => lemma_texts_code_synced(),
        MessageId::CodeCodebaseTooLarge => lemma_texts_code_codebase_too_large(),
        MessageId::CodeInstalled => lemma_texts_code_installed(),
        MessageId::CodeInstalling => lemma_texts_code_installing(),
        MessageId::CodeChecking => lemma_texts_code_checking(),
        MessageId::CodeAvailableForDownload => lemma_texts_code_available_for_download(),
        MessageId::CodeAvailable => lemma_texts_code_available(),
        MessageId::CodeBusy => lemma_texts_code_busy(),
        MessageId::CodeFailed => lemma_texts_code_failed(),
        MessageId::CodeStopped => lemma_texts_code_stopped(),
        MessageId::CodeNotRunning => lemma_texts_code_not_running(),
        MessageId::CodeInitializedFolders => lemma_texts_code_initialized_folders(),
        MessageId::CodeNoFoldersInitialized => lemma_texts_code_no_folders_initialized(),
        MessageId::CodeOpenProjectRules => lemma_texts_code_open_project_rules(),
        MessageId::CodeIndexingLabel => lemma_texts_code_indexing_label(),
        MessageId::CodeNoIndexCreated => lemma_texts_code_no_index_created(),
        MessageId::CodeAutoOpenCodeReview => lemma_texts_code_auto_open_code_review(),
        MessageId::CodeAutoOpenCodeReviewDescription => lemma_texts_code_auto_open_code_review_description(),
        MessageId::CodeShowCodeReviewButton => lemma_texts_code_show_code_review_button(),
        MessageId::CodeShowCodeReviewButtonDescription => lemma_texts_code_show_code_review_button_description(),
        MessageId::CodeShowDiffStats => lemma_texts_code_show_diff_stats(),
        MessageId::CodeShowDiffStatsDescription => lemma_texts_code_show_diff_stats_description(),
        MessageId::CodeProjectExplorer => lemma_texts_code_project_explorer(),
        MessageId::CodeProjectExplorerDescription => lemma_texts_code_project_explorer_description(),
        MessageId::CodeGlobalFileSearch => lemma_texts_code_global_file_search(),
        MessageId::CodeGlobalFileSearchDescription => lemma_texts_code_global_file_search_description(),
        MessageId::PrivacySecretRedaction => lemma_texts_privacy_secret_redaction(),
        MessageId::PrivacySecretRedactionDescription => lemma_texts_privacy_secret_redaction_description(),
        MessageId::PrivacyCustomSecretRedaction => lemma_texts_privacy_custom_secret_redaction(),
        MessageId::PrivacyCustomSecretDescription => lemma_texts_privacy_custom_secret_description(),
        MessageId::PrivacyTelemetryTitle => lemma_texts_privacy_telemetry_title(),
        MessageId::PrivacyTelemetryDescription => lemma_texts_privacy_telemetry_description(),
        MessageId::PrivacyTelemetryFreeTierNote => lemma_texts_privacy_telemetry_free_tier_note(),
        MessageId::PrivacyDataManagementTitle => lemma_texts_privacy_data_management_title(),
        MessageId::PrivacyDataManagementDescription => lemma_texts_privacy_data_management_description(),
        MessageId::PrivacyDataManagementLinkText => lemma_texts_privacy_data_management_link_text(),
        MessageId::PrivacyPrivacyPolicyTitle => lemma_texts_privacy_privacy_policy_title(),
        MessageId::PrivacyPrivacyPolicyLinkText => lemma_texts_privacy_privacy_policy_link_text(),
        MessageId::BillingOverview => lemma_texts_billing_overview(),
        MessageId::BillingUsageHistory => lemma_texts_billing_usage_history(),
        MessageId::BillingViewOverageDetails => lemma_texts_billing_view_overage_details(),
        MessageId::BillingEnableOverages => lemma_texts_billing_enable_overages(),
        MessageId::BillingOveragesEnabled => lemma_texts_billing_overages_enabled(),
        MessageId::BillingOveragesNotEnabled => lemma_texts_billing_overages_not_enabled(),
        MessageId::BillingAtoZ => lemma_texts_billing_ato_z(),
        MessageId::BillingZtoA => lemma_texts_billing_zto_a(),
        MessageId::BillingUsageAscending => lemma_texts_billing_usage_ascending(),
        MessageId::BillingUsageDescending => lemma_texts_billing_usage_descending(),
        MessageId::BillingEnterpriseUsageCallout => lemma_texts_billing_enterprise_usage_callout(),
        MessageId::TeamsTeamName => lemma_texts_teams_team_name(),
        MessageId::TeamsLeaveTeam => lemma_texts_teams_leave_team(),
        MessageId::TeamsDeleteTeam => lemma_texts_teams_delete_team(),
        MessageId::TeamsCreate => lemma_texts_teams_create(),
        MessageId::TeamsCreateDescription => lemma_texts_teams_create_description(),
        MessageId::TeamsDomainsPlaceholder => lemma_texts_teams_domains_placeholder(),
        MessageId::TeamsEmailsPlaceholder => lemma_texts_teams_emails_placeholder(),
        MessageId::TeamsSet => lemma_texts_teams_set(),
        MessageId::TeamsInvite => lemma_texts_teams_invite(),
        MessageId::TeamsInviteLinkInstructions => lemma_texts_teams_invite_link_instructions(),
        MessageId::TeamsInviteByEmailExpiry => lemma_texts_teams_invite_by_email_expiry(),
        MessageId::TeamsOffline => lemma_texts_teams_offline(),
        MessageId::ReferralsHeader => lemma_texts_referrals_header(),
        MessageId::ReferralsAnonymousHeader => lemma_texts_referrals_anonymous_header(),
        MessageId::ReferralsFailedLoad => lemma_texts_referrals_failed_load(),
        MessageId::ReferralsCopyLink => lemma_texts_referrals_copy_link(),
        MessageId::ReferralsSend => lemma_texts_referrals_send(),
        MessageId::ReferralsSending => lemma_texts_referrals_sending(),
        MessageId::ReferralsLoading => lemma_texts_referrals_loading(),
        MessageId::ReferralsLinkCopied => lemma_texts_referrals_link_copied(),
        MessageId::ReferralsEmailSuccess => lemma_texts_referrals_email_success(),
        MessageId::ReferralsEmailFailure => lemma_texts_referrals_email_failure(),
        MessageId::ReferralsRewardIntro => lemma_texts_referrals_reward_intro(),
        MessageId::ReferralsCurrentReferral => lemma_texts_referrals_current_referral(),
        MessageId::ReferralsCurrentReferrals => lemma_texts_referrals_current_referrals(),
        MessageId::ReferralsCertainRestrictions => lemma_texts_referrals_certain_restrictions(),
        MessageId::KeybindingsSearchPlaceholder => lemma_texts_keybindings_search_placeholder(),
        MessageId::KeybindingsConflictWarning => lemma_texts_keybindings_conflict_warning(),
        MessageId::KeybindingsDefault => lemma_texts_keybindings_default(),
        MessageId::KeybindingsCancel => lemma_texts_keybindings_cancel(),
        MessageId::KeybindingsClear => lemma_texts_keybindings_clear(),
        MessageId::KeybindingsSave => lemma_texts_keybindings_save(),
        MessageId::WarpDriveSignUpRequired => lemma_texts_warp_drive_sign_up_required(),
        MessageId::WarpifySubshells => lemma_texts_warpify_subshells(),
        MessageId::WarpifySsh => lemma_texts_warpify_ssh(),
        MessageId::McpServersTitle => lemma_texts_mcp_servers_title(),
        MessageId::EnvironmentsLastEdited => lemma_texts_environments_last_edited(),
        MessageId::EnvironmentsLastUsed => lemma_texts_environments_last_used(),
        MessageId::EnvironmentsViewRuns => lemma_texts_environments_view_runs(),
        MessageId::PlatformNewApiKey => lemma_texts_platform_new_api_key(),
        MessageId::ShowBlocksCopyLink => lemma_texts_show_blocks_copy_link(),
        MessageId::ShowBlocksDeleting => lemma_texts_show_blocks_deleting(),
        MessageId::SettingsOpenSettingsFile => lemma_texts_settings_open_settings_file(),
        MessageId::SettingsDefault => lemma_texts_settings_default(),
    }
}

} // verus!
