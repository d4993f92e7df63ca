use vstd::prelude::*;

use crate::i18n::MessageId;

verus! {
/// The Simplified Chinese text of each message.
pub open spec fn zh_cn_text(message_id: MessageId) -> Seq<char> {
    match message_id {
        MessageId::SettingsAbout => "关于"@,
        MessageId::SettingsAccount => "账户"@,
        MessageId::SettingsAgents => "智能体"@,
        MessageId::SettingsAppearance => "外观"@,
        MessageId::SettingsBillingAndUsage => "账单和用量"@,
        MessageId::SettingsCloudEnvironments => "环境"@,
        MessageId::SettingsCloudPlatform => "云平台"@,
        MessageId::SettingsCode => "代码"@,
        MessageId::SettingsCodeEditorAndCodeReview => "编辑器和代码审查"@,
        MessageId::SettingsCodeIndexing => "索引和项目"@,
        MessageId::SettingsFeatures => "功能"@,
        MessageId::SettingsKeybindings => "键盘快捷键"@,
        MessageId::SettingsLanguage => "语言"@,
        MessageId::SettingsLocalAIProvider => "本地 AI Provider"@,
        MessageId::SettingsKnowledge => "知识"@,
        MessageId::SettingsMcpServers => "MCP 服务器"@,
        MessageId::SettingsOzCloudApiKeys => "Oz Cloud API 密钥"@,
        MessageId::SettingsPrivacy => "隐私"@,
        MessageId::SettingsProfiles => "配置文件"@,
        MessageId::SettingsReferrals => "邀请奖励"@,
        MessageId::SettingsSharedBlocks => "共享块"@,
        MessageId::SettingsTeams => "团队"@,
        MessageId::SettingsThirdPartyCliAgents => "第三方 CLI 智能体"@,
        MessageId::SettingsWarpAgent => "Warp 智能体"@,
        MessageId::SettingsWarpDrive => "Warp Drive"@,
        MessageId::SettingsWarpify => "Warpify"@,
        MessageId::AboutCopyright => "版权所有 2026 Warp"@,
        MessageId::LanguagePageDescription => "选择 Warp 的显示语言。"@,
        MessageId::LanguagePageOptionEnglish => "English"@,
        MessageId::LanguagePageOptionSimplifiedChinese => "简体中文"@,
        MessageId::LanguagePageRestartNote => "部分文字可能需要重新打开窗口后更新。"@,
        MessageId::LanguagePageSelectorLabel => "应用语言"@,
        MessageId::MenuAi => "AI"@,
        MessageId::MenuBlocks => "块"@,
        MessageId::MenuDrive => "云盘"@,
        MessageId::MenuEdit => "编辑"@,
        MessageId::MenuFile => "文件"@,
        MessageId::MenuHelp => "帮助"@,
        MessageId::MenuTab => "标签页"@,
        MessageId::MenuView => "视图"@,
        MessageId::MenuWindow => "窗口"@,
        MessageId::AppPreferences => "偏好设置"@,
        MessageId::AppPrivacyPolicy => "隐私政策..."@,
        MessageId::AppDebug => "调试"@,
        MessageId::AppSetDefaultTerminal => "将 Warp 设为默认终端"@,
        MessageId::AppLogout => "退出登录"@,
        MessageId::FileNewWindow => "新建窗口"@,
        MessageId::FileNewTerminalTab => "新建终端标签页"@,
        MessageId::FileNewAgentTab => "新建智能体标签页"@,
        MessageId::FileNewFile => "新建文件"@,
        MessageId::FileReopenClosedSession => "重新打开已关闭的会话"@,
        MessageId::FileLaunchConfigurations => "启动配置"@,
        MessageId::FileOpenRecent => "最近打开"@,
        MessageId::FileSaveNew => "另存为..."@,
        MessageId::FileClose => "关闭当前会话"@,
        MessageId::FileCloseWindow => "关闭窗口"@,
        MessageId::EditUseWarpPrompt => "使用 Warp 提示符"@,
        MessageId::EditCopyOnSelect => "在终端中选中时复制"@,
        MessageId::EditSynchronizeInputs => "同步输入"@,
        MessageId::ViewToggleMouseReporting => "切换鼠标上报"@,
        MessageId::ViewToggleScrollReporting => "切换滚动上报"@,
        MessageId::ViewToggleFocusReporting => "切换焦点上报"@,
        MessageId::ViewCompactMode => "紧凑模式"@,
        MessageId::HelpSendFeedback => "发送反馈..."@,
        MessageId::HelpWarpDocumentation => "Warp 文档..."@,
        MessageId::HelpGitHubIssues => "GitHub Issues..."@,
        MessageId::HelpWarpSlackCommunity => "Warp Slack 社区..."@,
        MessageId::DockNewWindow => "新建窗口"@,
        MessageId::DebugEnableShellDebugMode => "为新会话启用 Shell 调试模式 (-x)"@,
        MessageId::DebugDisableShellDebugMode => "为新会话禁用 Shell 调试模式 (-x)"@,
        MessageId::DebugEnableInBandGenerators => "为新会话启用带内生成器"@,
        MessageId::DebugDisableInBandGenerators => "为新会话禁用带内生成器"@,
        MessageId::DebugEnablePtyRecording => "启用 PTY 录制模式 (warp.pty.recording)"@,
        MessageId::DebugDisablePtyRecording => "禁用 PTY 录制模式 (warp.pty.recording)"@,
        MessageId::DebugShowBootstrapBlock => "显示初始化块"@,
        MessageId::DebugHideBootstrapBlock => "隐藏初始化块"@,
        MessageId::DebugShowInBandCommandBlocks => "显示带内命令块"@,
        MessageId::DebugHideInBandCommandBlocks => "隐藏带内命令块"@,
        MessageId::DebugShowSshBlocks => "显示 Warp 化的 SSH 块"@,
        MessageId::DebugHideSshBlocks => "隐藏 Warp 化的 SSH 块"@,
        MessageId::DebugExportDefaultSettingsCsv => "将默认设置导出为 CSV 到主目录"@,
        MessageId::DebugToggleNetworkStatus => "手动切换网络状态"@,
        MessageId::DebugCreateAnonymousUser => "创建匿名用户"@,
        MessageId::EditUndo => "撤销"@,
        MessageId::EditRedo => "重做"@,
        MessageId::EditCut => "剪切"@,
        MessageId::EditCopy => "复制"@,
        MessageId::EditPaste => "粘贴"@,
        MessageId::EditSelectAll => "全选"@,
        MessageId::EditClearEditor => "清除编辑器"@,
        MessageId::EditFind => "在终端中查找"@,
        MessageId::EditGoToLine => "跳转到行"@,
        MessageId::EditFocusInput => "聚焦输入"@,
        MessageId::EditAddNextOccurrence => "添加下一个匹配项"@,
        MessageId::EditAddCursorAbove => "在上方添加光标"@,
        MessageId::EditAddCursorBelow => "在下方添加光标"@,
        MessageId::ViewCommandPalette => "命令面板"@,
        MessageId::ViewNavigationPalette => "导航面板"@,
        MessageId::ViewLaunchConfigPalette => "启动配置面板"@,
        MessageId::ViewFilesPalette => "文件面板"@,
        MessageId::ViewToggleConversationList => "切换对话列表"@,
        MessageId::ViewToggleProjectExplorer => "切换项目浏览器"@,
        MessageId::ViewToggleGlobalSearch => "切换全局搜索"@,
        MessageId::ViewHistory => "历史记录"@,
        MessageId::ViewCommandSearch => "命令搜索"@,
        MessageId::ViewWorkflows => "工作流"@,
        MessageId::ViewIncreaseFontSize => "增大字体"@,
        MessageId::ViewDecreaseFontSize => "减小字体"@,
        MessageId::ViewResetFontSize => "重置字体大小"@,
        MessageId::ViewIncreaseZoom => "放大"@,
        MessageId::ViewDecreaseZoom => "缩小"@,
        MessageId::ViewResetZoom => "重置缩放"@,
        MessageId::ViewToggleWarpDrive => "切换 Warp Drive"@,
        MessageId::TabRename => "重命名标签页"@,
        MessageId::TabSplitRight => "向右分屏"@,
        MessageId::TabSplitLeft => "向左分屏"@,
        MessageId::TabSplitDown => "向下分屏"@,
        MessageId::TabSplitUp => "向上分屏"@,
        MessageId::TabMoveLeft => "向左移动标签页"@,
        MessageId::TabMoveRight => "向右移动标签页"@,
        MessageId::TabCycleNext => "下一个标签页"@,
        MessageId::TabCyclePrev => "上一个标签页"@,
        MessageId::TabActivateNextPane => "激活下一个窗格"@,
        MessageId::TabActivatePrevPane => "激活上一个窗格"@,
        MessageId::TabMaximizePane => "最大化窗格"@,
        MessageId::TabClose => "关闭标签页"@,
        MessageId::TabCloseOthers => "关闭其他标签页"@,
        MessageId::TabCloseRight => "关闭右侧标签页"@,
        MessageId::BlocksClear => "清除块"@,
        MessageId::BlocksSelectAbove => "选择上方的块"@,
        MessageId::BlocksSelectBelow => "选择下方的块"@,
        MessageId::BlocksSelectAll => "选择所有块"@,
        MessageId::BlocksScrollToTop => "滚动到选中块顶部"@,
        MessageId::BlocksScrollToBottom => "滚动到选中块底部"@,
        MessageId::BlocksCreatePermalink => "创建块永久链接"@,
        MessageId::BlocksToggleBookmark => "切换书签"@,
        MessageId::BlocksFindWithin => "在块内查找"@,
        MessageId::BlocksCopy => "复制块"@,
        MessageId::BlocksCopyCommand => "复制块命令"@,
        MessageId::BlocksCopyOutput => "复制块输出"@,
        MessageId::BlocksViewShared => "查看共享块"@,
        MessageId::AiNewAgentMode => "新建智能体模式窗格"@,
        MessageId::AiAttachSelection => "附加选中内容作为上下文"@,
        MessageId::AiSearch => "AI 搜索"@,
        MessageId::AiOpenFactCollection => "打开知识库"@,
        MessageId::AiOpenMcpServers => "打开 MCP 服务器"@,
        MessageId::DriveNewPersonalWorkflow => "新建个人工作流"@,
        MessageId::DriveNewPersonalNotebook => "新建个人笔记本"@,
        MessageId::DriveNewPersonalAIPrompt => "新建个人 AI 提示词"@,
        MessageId::DriveNewPersonalEnvVars => "新建个人环境变量"@,
        MessageId::DriveNewTeamWorkflow => "新建团队工作流"@,
        MessageId::DriveNewTeamNotebook => "新建团队笔记本"@,
        MessageId::DriveNewTeamAIPrompt => "新建团队 AI 提示词"@,
        MessageId::DriveNewTeamEnvVars => "新建团队环境变量"@,
        MessageId::DriveSearch => "搜索云盘"@,
        MessageId::DriveOpenTeamSettings => "打开团队设置"@,
        MessageId::DriveSharePaneContents => "分享窗格内容"@,
        MessageId::DriveShareSession => "分享当前会话"@,
        MessageId::AppShowAboutWarp => "关于 Warp"@,
        MessageId::AppToggleResourceCenter => "资源中心"@,
        MessageId::AppReferAFriend => "邀请好友"@,
        MessageId::AppShowSettings => "设置"@,
        MessageId::AppToggleKeybindings => "快捷键"@,
        MessageId::AppConfigureKeybindings => "配置快捷键"@,
        MessageId::AppShowAppearance => "外观"@,
        MessageId::AppViewChangelog => "查看更新日志"@,
        MessageId::SyncAllTerminalInputs => "同步所有标签页的终端输入"@,
        MessageId::SyncTerminalInputsCurrentTab => "同步当前标签页的终端输入"@,
        MessageId::DisableSyncInputs => "禁用同步输入"@,
        MessageId::FileOpenRepository => "打开仓库"@,
        MessageId::AddWindow => "新建窗口"@,
        MessageId::SettingsSignUp => "注册"@,
        MessageId::SettingsFree => "免费版"@,
        MessageId::SettingsComparePlans => "对比套餐"@,
        MessageId::SettingsUpToDate => "已是最新版本"@,
        MessageId::SettingsVersion => "版本"@,
        MessageId::SettingsLogOut => "退出登录"@,
        MessageId::SettingsReferralCta => "邀请朋友和同事使用 Warp 即可获得奖励"@,
        MessageId::SettingsContactSupport => "联系客服"@,
        MessageId::SettingsManageBilling => "管理账单"@,
        MessageId::SettingsCheckForUpdates => "检查更新"@,
        MessageId::SettingsRelaunchWarp => "重新启动 Warp"@,
        MessageId::SettingsUpdateAvailable => "有可用更新"@,
        MessageId::SettingsUpdating => "正在更新..."@,
        MessageId::SettingsInstalledUpdate => "已安装更新"@,
        MessageId::SettingsUpdateManually => "手动更新 Warp"@,
        MessageId::SettingsSettingsSync => "设置同步"@,
        MessageId::AppearanceCategoryThemes => "主题"@,
        MessageId::AppearanceCategoryIcon => "图标"@,
        MessageId::AppearanceCategoryWindow => "窗口"@,
        MessageId::AppearanceCategoryInput => "输入"@,
        MessageId::AppearanceCategoryPanes => "窗格"@,
        MessageId::AppearanceCategoryBlocks => "块"@,
        MessageId::AppearanceCategoryText => "文本"@,
        MessageId::AppearanceCategoryCursor => "光标"@,
        MessageId::AppearanceCategoryTabs => "标签页"@,
        MessageId::AppearanceCategoryFullscreenApps => "全屏应用"@,
        MessageId::AppearanceCompactMode => "紧凑模式"@,
        MessageId::AppearanceSyncWithOs => "主题：与系统同步"@,
        MessageId::AppearanceCursorBlink => "光标闪烁"@,
        MessageId::AppearanceJumpToBottom => "跳转到块底部按钮"@,
        MessageId::AppearanceBlockDividers => "块分隔线"@,
        MessageId::AppearanceDimInactivePanes => "暗化非活动窗格"@,
        MessageId::AppearanceTabIndicators => "标签页指示器"@,
        MessageId::AppearanceFocusFollowsMouse => "焦点跟随鼠标"@,
        MessageId::AppearanceZenMode => "禅模式"@,
        MessageId::AppearanceVerticalTabLayout => "垂直标签页布局"@,
        MessageId::AppearanceLigatureRendering => "连字渲染"@,
        MessageId::AppearanceStartInputTop => "在顶部开始输入"@,
        MessageId::AppearancePinInputTop => "固定输入到顶部"@,
        MessageId::AppearancePinInputBottom => "固定输入到底部"@,
        MessageId::AppearanceToggleInputMode => "切换输入模式（Warp/经典）"@,
        MessageId::AppearanceAlwaysShowTabBar => "始终显示标签栏"@,
        MessageId::AppearanceHideTabBarFullscreen => "全屏时隐藏标签栏"@,
        MessageId::AppearanceShowTabBarOnHover => "悬停时显示标签栏"@,
        MessageId::AppearanceHeaderToolbarLayout => "顶部工具栏布局"@,
        MessageId::AppearanceCreateCustomTheme => "创建自定义主题"@,
        MessageId::AppearanceWindowOpacity => "窗口不透明度"@,
        MessageId::AppearanceWindowBlur => "使用窗口模糊"@,
        MessageId::AppearanceInputType => "输入类型"@,
        MessageId::AppearanceShowCodeReviewButton => "在标签栏显示代码审查按钮"@,
        MessageId::AppearanceHideCodeReviewButton => "在标签栏隐藏代码审查按钮"@,
        MessageId::AppearanceInputModeWarp => "固定到底部（Warp 模式）"@,
        MessageId::AppearanceInputModeReverse => "固定到顶部（反向模式）"@,
        MessageId::AppearanceInputModeClassic => "在顶部开始（经典模式）"@,
        MessageId::AppearanceThinStrokesNever => "从不"@,
        MessageId::AppearanceThinStrokesLowDpi => "在低 DPI 显示器上"@,
        MessageId::AppearanceThinStrokesHighDpi => "在高 DPI 显示器上"@,
        MessageId::AppearanceThinStrokesAlways => "始终"@,
        MessageId::AppearanceContrastAlways => "始终"@,
        MessageId::AppearanceContrastNamedColors => "仅命名颜色"@,
        MessageId::AppearanceNever => "从不"@,
        MessageId::AppearanceAlways => "始终"@,
        MessageId::FeaturesCategoryGeneral => "通用"@,
        MessageId::FeaturesCategorySession => "会话"@,
        MessageId::FeaturesCategoryKeys => "按键"@,
        MessageId::FeaturesCategoryTextEditing => "文本编辑"@,
        MessageId::FeaturesCategoryTerminalInput => "终端输入"@,
        MessageId::FeaturesCategoryTerminal => "终端"@,
        MessageId::FeaturesCategoryNotifications => "通知"@,
        MessageId::FeaturesCategoryWorkflows => "工作流"@,
        MessageId::FeaturesCategorySystem => "系统"@,
        MessageId::FeaturesCopyOnSelect => "在终端中选中时复制"@,
        MessageId::FeaturesLinuxSelectionClipboard => "Linux 选择剪贴板"@,
        MessageId::FeaturesAutocompleteQuotes => "自动补全引号、圆括号和方括号"@,
        MessageId::FeaturesRestoreWindows => "启动时恢复窗口、标签页和窗格"@,
        MessageId::FeaturesScrollReporting => "滚动上报"@,
        MessageId::FeaturesCompletionsWhileTyping => "输入时自动补全"@,
        MessageId::FeaturesCommandCorrections => "命令纠错"@,
        MessageId::FeaturesErrorUnderlining => "错误下划线"@,
        MessageId::FeaturesSyntaxHighlighting => "语法高亮"@,
        MessageId::FeaturesAudibleTerminalBell => "终端响铃"@,
        MessageId::FeaturesAutosuggestions => "自动建议"@,
        MessageId::FeaturesAutosuggestionKeybindingHint => "自动建议快捷键提示"@,
        MessageId::FeaturesSshWrapper => "Warp SSH 包装器"@,
        MessageId::FeaturesLinkTooltip => "点击链接时显示提示"@,
        MessageId::FeaturesVimUnnamedRegister => "Vim 未命名寄存器作为系统剪贴板"@,
        MessageId::FeaturesVimStatusBar => "Vim 状态栏"@,
        MessageId::FeaturesWaylandWindowManagement => "使用 Wayland 进行窗口管理"@,
        MessageId::FeaturesConfigureGlobalHotkey => "配置全局热键"@,
        MessageId::FeaturesMakeDefaultTerminal => "将 Warp 设为默认终端"@,
        MessageId::FeaturesLeftOptionMeta => "左侧 Option 键为 Meta"@,
        MessageId::FeaturesRightOptionMeta => "右侧 Option 键为 Meta"@,
        MessageId::FeaturesLeftAltMeta => "左侧 Alt 键为 Meta"@,
        MessageId::FeaturesRightAltMeta => "右侧 Alt 键为 Meta"@,
        MessageId::FeaturesPerformanceWarning => "将限制设置为超过 10 万行可能会影响性能。"@,
        MessageId::CodeInitializationSettings => "初始化设置"@,
        MessageId::CodeCodebaseIndexing => "代码库索引"@,
        MessageId::CodeCodebaseIndexDescription => "Warp 可以在您浏览代码仓库时自动建立索引，帮助智能体快速理解上下文并提供解决方案。代码永远不会存储在服务器上。"@,
        MessageId::CodeWarpIndexingIgnoreDescription => "要从索引中排除特定文件或目录，请将它们添加到仓库目录中的 .warpindexingignore 文件中。"@,
        MessageId::CodeAutoIndexFeatureName => "默认索引新文件夹"@,
        MessageId::CodeAutoIndexDescription => "启用后，Warp 将在您浏览代码仓库时自动建立索引。"@,
        MessageId::CodeIndexingDisabledAdmin => "团队管理员已禁用代码库索引。"@,
        MessageId::CodeIndexingWorkspaceEnabledAdmin => "团队管理员已启用代码库索引。"@,
        MessageId::CodeIndexingDisabledGlobalAi => "必须启用 AI 功能才能使用代码库索引。"@,
        MessageId::CodeCodebaseIndexLimitReached => "您已达到当前套餐的最大代码库索引数量。"@,
        MessageId::CodeCodebaseIndexingCategory => "代码库索引"@,
        MessageId::CodeEditorAndReviewCategory => "代码编辑器和审查"@,
        MessageId::CodeIndexNewFolder => "索引新文件夹"@,
        MessageId::CodeRestartServer => "重启服务器"@,
        MessageId::CodeViewLogs => "查看日志"@,
        MessageId::CodeSyncing => "同步中..."@,
        MessageId::CodeSynced => "已同步"@,
        MessageId::CodeCodebaseTooLarge => "代码库过大"@,
        MessageId::CodeInstalled => "已安装"@,
        MessageId::CodeInstalling => "安装中..."@,
        MessageId::CodeChecking => "检查中..."@,
        MessageId::CodeAvailableForDownload => "可下载"@,
        MessageId::CodeAvailable => "可用"@,
        MessageId::CodeBusy => "忙碌"@,
        MessageId::CodeFailed => "失败"@,
        MessageId::CodeStopped => "已停止"@,
        MessageId::CodeNotRunning => "未运行"@,
        MessageId::CodeInitializedFolders => "已初始化/索引的文件夹"@,
        MessageId::CodeNoFoldersInitialized => "尚未初始化任何文件夹。"@,
        MessageId::CodeOpenProjectRules => "打开项目规则"@,
        MessageId::CodeIndexingLabel => "索引"@,
        MessageId::CodeNoIndexCreated => "未创建索引"@,
        MessageId::CodeAutoOpenCodeReview => "自动打开代码审查面板"@,
        MessageId::CodeAutoOpenCodeReviewDescription => "启用此设置后，代码审查面板将在对话中接受第一个 diff 时打开"@,
        MessageId::CodeShowCodeReviewButton => "显示代码审查按钮"@,
        MessageId::CodeShowCodeReviewButtonDescription => "在窗口右上角显示一个按钮来切换代码审查面板。"@,
        MessageId::CodeShowDiffStats => "在代码审查按钮上显示差异统计"@,
        MessageId::CodeShowDiffStatsDescription => "在代码审查按钮上显示添加和删除的行数。"@,
        MessageId::CodeProjectExplorer => "项目浏览器"@,
        MessageId::CodeProjectExplorerDescription => "在左侧工具面板中添加 IDE 风格的项目浏览器/文件树。"@,
        MessageId::CodeGlobalFileSearch => "全局文件搜索"@,
        MessageId::CodeGlobalFileSearchDescription => "在左侧工具面板中添加全局文件搜索。"@,
        MessageId::PrivacySecretRedaction => "密钥脱敏"@,
        MessageId::PrivacySecretRedactionDescription => "启用此设置后，Warp 将扫描块、Warp Drive 对象内容和 Oz 提示词中的潜在敏感信息，防止将这些数据保存或发送到任何服务器。"@,
        MessageId::PrivacyCustomSecretRedaction => "自定义密钥脱敏"@,
        MessageId::PrivacyCustomSecretDescription => "使用正则表达式定义要脱敏的额外密钥或数据。此设置将在下一条命令运行时生效。"@,
        MessageId::PrivacyTelemetryTitle => "帮助改进 Warp"@,
        MessageId::PrivacyTelemetryDescription => "应用分析帮助我们为您改进产品。我们可能会收集某些控制台交互以改进 Warp 的 AI 功能。"@,
        MessageId::PrivacyTelemetryFreeTierNote => "在免费套餐中，必须启用分析功能才能使用 AI 功能。"@,
        MessageId::PrivacyDataManagementTitle => "管理您的数据"@,
        MessageId::PrivacyDataManagementDescription => "您可以随时选择永久删除您的 Warp 账户。删除后将无法再使用 Warp。"@,
        MessageId::PrivacyDataManagementLinkText => "访问数据管理页面"@,
        MessageId::PrivacyPrivacyPolicyTitle => "隐私政策"@,
        MessageId::PrivacyPrivacyPolicyLinkText => "阅读 Warp 的隐私政策"@,
        MessageId::BillingOverview => "概览"@,
        MessageId::BillingUsageHistory => "用量历史"@,
        MessageId::BillingViewOverageDetails => "查看超额详情"@,
        MessageId::BillingEnableOverages => "启用超额"@,
        MessageId::BillingOveragesEnabled => "超额已启用"@,
        MessageId::BillingOveragesNotEnabled => "超额未启用"@,
        MessageId::BillingAtoZ => "A 到 Z"@,
        MessageId::BillingZtoA => "Z 到 A"@,
        MessageId::BillingUsageAscending => "用量升序"@,
        MessageId::BillingUsageDescending => "用量降序"@,
        MessageId::BillingEnterpriseUsageCallout => "请联系您的团队管理员获取用量详情。"@,
        MessageId::TeamsTeamName => "团队名称"@,
        MessageId::TeamsLeaveTeam => "离开团队"@,
        MessageId::TeamsDeleteTeam => "删除团队"@,
        MessageId::TeamsCreate => "创建"@,
        MessageId::TeamsCreateDescription => "创建一个新团队，与您的同事协作。"@,
        MessageId::TeamsDomainsPlaceholder => "添加域名"@,
        MessageId::TeamsEmailsPlaceholder => "添加电子邮件地址"@,
        MessageId::TeamsSet => "设置"@,
        MessageId::TeamsInvite => "邀请"@,
        MessageId::TeamsInviteLinkInstructions => "将此链接分享给其他人以邀请他们加入您的团队。"@,
        MessageId::TeamsInviteByEmailExpiry => "邀请在 7 天后过期。"@,
        MessageId::TeamsOffline => "您似乎处于离线状态。"@,
        MessageId::ReferralsHeader => "邀请朋友使用 Warp"@,
        MessageId::ReferralsAnonymousHeader => "创建账户以开始邀请朋友"@,
        MessageId::ReferralsFailedLoad => "加载推荐数据失败。"@,
        MessageId::ReferralsCopyLink => "复制链接"@,
        MessageId::ReferralsSend => "发送"@,
        MessageId::ReferralsSending => "发送中..."@,
        MessageId::ReferralsLoading => "加载中..."@,
        MessageId::ReferralsLinkCopied => "链接已复制！"@,
        MessageId::ReferralsEmailSuccess => "邀请已发送！"@,
        MessageId::ReferralsEmailFailure => "发送邀请失败。"@,
        MessageId::ReferralsRewardIntro => "当您的朋友加入 Warp 后，你们都将获得奖励。"@,
        MessageId::ReferralsCurrentReferral => "您有 1 个活跃推荐。"@,
        MessageId::ReferralsCurrentReferrals => "您有 {count} 个活跃推荐。"@,
        MessageId::ReferralsCertainRestrictions => "某些限制适用。"@,
        MessageId::KeybindingsSearchPlaceholder => "按名称或按键搜索"@,
        MessageId::KeybindingsConflictWarning => "此快捷键与其他快捷键冲突"@,
        MessageId::KeybindingsDefault => "默认"@,
        MessageId::KeybindingsCancel => "取消"@,
        MessageId::KeybindingsClear => "清除"@,
        MessageId::KeybindingsSave => "保存"@,
        MessageId::WarpDriveSignUpRequired => "要使用 Warp Drive，请创建账户。"@,
        MessageId::WarpifySubshells => "子 Shell"@,
        MessageId::WarpifySsh => "SSH"@,
        MessageId::McpServersTitle => "MCP 服务器"@,
        MessageId::EnvironmentsLastEdited => "上次编辑："@,
        MessageId::EnvironmentsLastUsed => "上次使用："@,
        MessageId::EnvironmentsViewRuns => "查看我的运行记录"@,
        MessageId::PlatformNewApiKey => "新建 API 密钥"@,
        MessageId::ShowBlocksCopyLink => "复制链接"@,
        MessageId::ShowBlocksDeleting => "删除中..."@,
        MessageId::SettingsOpenSettingsFile => "打开设置文件"@,
        MessageId::SettingsDefault => "默认"@,
    }
}

/// The Simplified Chinese text of each message.
pub fn zh_cn(message_id: MessageId) -> (text: &'static str)
    ensures
        text@ == zh_cn_text(message_id),
{
    match message_id {
        MessageId::SettingsAbout => "关于",
        MessageId::SettingsAccount => "账户",
        MessageId::SettingsAgents => "智能体",
        MessageId::SettingsAppearance => "外观",
        MessageId::SettingsBillingAndUsage => "账单和用量",
        MessageId::SettingsCloudEnvironments => "环境",
        MessageId::SettingsCloudPlatform => "云平台",
        MessageId::SettingsCode => "代码",
        MessageId::SettingsCodeEditorAndCodeReview => "编辑器和代码审查",
        MessageId::SettingsCodeIndexing => "索引和项目",
        MessageId::SettingsFeatures => "功能",
        MessageId::SettingsKeybindings => "键盘快捷键",
        MessageId::SettingsLanguage => "语言",
        MessageId::SettingsLocalAIProvider => "本地 AI Provider",
        MessageId::SettingsKnowledge => "知识",
        MessageId::SettingsMcpServers => "MCP 服务器",
        MessageId::SettingsOzCloudApiKeys => "Oz Cloud API 密钥",
        MessageId::SettingsPrivacy => "隐私",
        MessageId::SettingsProfiles => "配置文件",
        MessageId::SettingsReferrals => "邀请奖励",
        MessageId::SettingsSharedBlocks => "共享块",
        MessageId::SettingsTeams => "团队",
        MessageId::SettingsThirdPartyCliAgents => "第三方 CLI 智能体",
        MessageId::SettingsWarpAgent => "Warp 智能体",
        MessageId::SettingsWarpDrive => "Warp Drive",
        MessageId::SettingsWarpify => "Warpify",
        MessageId::AboutCopyright => "版权所有 2026 Warp",
        MessageId::LanguagePageDescription => "选择 Warp 的显示语言。",
        MessageId::LanguagePageOptionEnglish => "English",
        MessageId::LanguagePageOptionSimplifiedChinese => "简体中文",
        MessageId::LanguagePageRestartNote => "部分文字可能需要重新打开窗口后更新。",
        MessageId::LanguagePageSelectorLabel => "应用语言",
        MessageId::MenuAi => "AI",
        MessageId::MenuBlocks => "块",
        MessageId::MenuDrive => "云盘",
        MessageId::MenuEdit => "编辑",
        MessageId::MenuFile => "文件",
        MessageId::MenuHelp => "帮助",
        MessageId::MenuTab => "标签页",
        MessageId::MenuView => "视图",
        MessageId::MenuWindow => "窗口",
        MessageId::AppPreferences => "偏好设置",
        MessageId::AppPrivacyPolicy => "隐私政策...",
        MessageId::AppDebug => "调试",
        MessageId::AppSetDefaultTerminal => "将 Warp 设为默认终端",
        MessageId::AppLogout => "退出登录",
        MessageId::FileNewWindow => "新建窗口",
        MessageId::FileNewTerminalTab => "新建终端标签页",
        MessageId::FileNewAgentTab => "新建智能体标签页",
        MessageId::FileNewFile => "新建文件",
        MessageId::FileReopenClosedSession => "重新打开已关闭的会话",
        MessageId::FileLaunchConfigurations => "启动配置",
        MessageId::FileOpenRecent => "最近打开",
        MessageId::FileSaveNew => "另存为...",
        MessageId::FileClose => "关闭当前会话",
        MessageId::FileCloseWindow => "关闭窗口",
        MessageId::EditUseWarpPrompt => "使用 Warp 提示符",
        MessageId::EditCopyOnSelect => "在终端中选中时复制",
        MessageId::EditSynchronizeInputs => "同步输入",
        MessageId::ViewToggleMouseReporting => "切换鼠标上报",
        MessageId::ViewToggleScrollReporting => "切换滚动上报",
        MessageId::ViewToggleFocusReporting => "切换焦点上报",
        MessageId::ViewCompactMode => "紧凑模式",
        MessageId::HelpSendFeedback => "发送反馈...",
        MessageId::HelpWarpDocumentation => "Warp 文档...",
        MessageId::HelpGitHubIssues => "GitHub Issues...",
        MessageId::HelpWarpSlackCommunity => "Warp Slack 社区...",
        MessageId::DockNewWindow => "新建窗口",
        MessageId::DebugEnableShellDebugMode => "为新会话启用 Shell 调试模式 (-x)",
        MessageId::DebugDisableShellDebugMode => "为新会话禁用 Shell 调试模式 (-x)",
        MessageId::DebugEnableInBandGenerators => "为新会话启用带内生成器",
        MessageId::DebugDisableInBandGenerators => "为新会话禁用带内生成器",
        MessageId::DebugEnablePtyRecording => "启用 PTY 录制模式 (warp.pty.recording)",
        MessageId::DebugDisablePtyRecording => "禁用 PTY 录制模式 (warp.pty.recording)",
        MessageId::DebugShowBootstrapBlock => "显示初始化块",
        MessageId::DebugHideBootstrapBlock => "隐藏初始化块",
        MessageId::DebugShowInBandCommandBlocks => "显示带内命令块",
        MessageId::DebugHideInBandCommandBlocks => "隐藏带内命令块",
        MessageId::DebugShowSshBlocks => "显示 Warp 化的 SSH 块",
        MessageId::DebugHideSshBlocks => "隐藏 Warp 化的 SSH 块",
        MessageId::DebugExportDefaultSettingsCsv => "将默认设置导出为 CSV 到主目录",
        MessageId::DebugToggleNetworkStatus => "手动切换网络状态",
        MessageId::DebugCreateAnonymousUser => "创建匿名用户",
        MessageId::EditUndo => "撤销",
        MessageId::EditRedo => "重做",
        MessageId::EditCut => "剪切",
        MessageId::EditCopy => "复制",
        MessageId::EditPaste => "粘贴",
        MessageId::EditSelectAll => "全选",
        MessageId::EditClearEditor => "清除编辑器",
        MessageId::EditFind => "在终端中查找",
        MessageId::EditGoToLine => "跳转到行",
        MessageId::EditFocusInput => "聚焦输入",
        MessageId::EditAddNextOccurrence => "添加下一个匹配项",
        MessageId::EditAddCursorAbove => "在上方添加光标",
        MessageId::EditAddCursorBelow => "在下方添加光标",
        MessageId::ViewCommandPalette => "命令面板",
        MessageId::ViewNavigationPalette => "导航面板",
        MessageId::ViewLaunchConfigPalette => "启动配置面板",
        MessageId::ViewFilesPalette => "文件面板",
        MessageId::ViewToggleConversationList => "切换对话列表",
        MessageId::ViewToggleProjectExplorer => "切换项目浏览器",
        MessageId::ViewToggleGlobalSearch => "切换全局搜索",
        MessageId::ViewHistory => "历史记录",
        MessageId::ViewCommandSearch => "命令搜索",
        MessageId::ViewWorkflows => "工作流",
        MessageId::ViewIncreaseFontSize => "增大字体",
        MessageId::ViewDecreaseFontSize => "减小字体",
        MessageId::ViewResetFontSize => "重置字体大小",
        MessageId::ViewIncreaseZoom => "放大",
        MessageId::ViewDecreaseZoom => "缩小",
        MessageId::ViewResetZoom => "重置缩放",
        MessageId::ViewToggleWarpDrive => "切换 Warp Drive",
        MessageId::TabRename => "重命名标签页",
        MessageId::TabSplitRight => "向右分屏",
        MessageId::TabSplitLeft => "向左分屏",
        MessageId::TabSplitDown => "向下分屏",
        MessageId::TabSplitUp => "向上分屏",
        MessageId::TabMoveLeft => "向左移动标签页",
        MessageId::TabMoveRight => "向右移动标签页",
        MessageId::TabCycleNext => "下一个标签页",
        MessageId::TabCyclePrev => "上一个标签页",
        MessageId::TabActivateNextPane => "激活下一个窗格",
        MessageId::TabActivatePrevPane => "激活上一个窗格",
        MessageId::TabMaximizePane => "最大化窗格",
        MessageId::TabClose => "关闭标签页",
        MessageId::TabCloseOthers => "关闭其他标签页",
        MessageId::TabCloseRight => "关闭右侧标签页",
        MessageId::BlocksClear => "清除块",
        MessageId::BlocksSelectAbove => "选择上方的块",
        MessageId::BlocksSelectBelow => "选择下方的块",
        MessageId::BlocksSelectAll => "选择所有块",
        MessageId::BlocksScrollToTop => "滚动到选中块顶部",
        MessageId::BlocksScrollToBottom => "滚动到选中块底部",
        MessageId::BlocksCreatePermalink => "创建块永久链接",
        MessageId::BlocksToggleBookmark => "切换书签",
        MessageId::BlocksFindWithin => "在块内查找",
        MessageId::BlocksCopy => "复制块",
        MessageId::BlocksCopyCommand => "复制块命令",
        MessageId::BlocksCopyOutput => "复制块输出",
        MessageId::BlocksViewShared => "查看共享块",
        MessageId::AiNewAgentMode => "新建智能体模式窗格",
        MessageId::AiAttachSelection => "附加选中内容作为上下文",
        MessageId::AiSearch => "AI 搜索",
        MessageId::AiOpenFactCollection => "打开知识库",
        MessageId::AiOpenMcpServers => "打开 MCP 服务器",
        MessageId::DriveNewPersonalWorkflow => "新建个人工作流",
        MessageId::DriveNewPersonalNotebook => "新建个人笔记本",
        MessageId::DriveNewPersonalAIPrompt => "新建个人 AI 提示词",
        MessageId::DriveNewPersonalEnvVars => "新建个人环境变量",
        MessageId::DriveNewTeamWorkflow => "新建团队工作流",
        MessageId::DriveNewTeamNotebook => "新建团队笔记本",
        MessageId::DriveNewTeamAIPrompt => "新建团队 AI 提示词",
        MessageId::DriveNewTeamEnvVars => "新建团队环境变量",
        MessageId::DriveSearch => "搜索云盘",
        MessageId::DriveOpenTeamSettings => "打开团队设置",
        MessageId::DriveSharePaneContents => "分享窗格内容",
        MessageId::DriveShareSession => "分享当前会话",
        MessageId::AppShowAboutWarp => "关于 Warp",
        MessageId::AppToggleResourceCenter => "资源中心",
        MessageId::AppReferAFriend => "邀请好友",
        MessageId::AppShowSettings => "设置",
        MessageId::AppToggleKeybindings => "快捷键",
        MessageId::AppConfigureKeybindings => "配置快捷键",
        MessageId::AppShowAppearance => "外观",
        MessageId::AppViewChangelog => "查看更新日志",
        MessageId::SyncAllTerminalInputs => "同步所有标签页的终端输入",
        MessageId::SyncTerminalInputsCurrentTab => "同步当前标签页的终端输入",
        MessageId::DisableSyncInputs => "禁用同步输入",
        MessageId::FileOpenRepository => "打开仓库",
        MessageId::AddWindow => "新建窗口",
        MessageId::SettingsSignUp => "注册",
        MessageId::SettingsFree => "免费版",
        MessageId::SettingsComparePlans => "对比套餐",
        MessageId::SettingsUpToDate => "已是最新版本",
        MessageId::SettingsVersion => "版本",
        MessageId::SettingsLogOut => "退出登录",
        MessageId::SettingsReferralCta => "邀请朋友和同事使用 Warp 即可获得奖励",
        MessageId::SettingsContactSupport => "联系客服",
        MessageId::SettingsManageBilling => "管理账单",
        MessageId::SettingsCheckForUpdates => "检查更新",
        MessageId::SettingsRelaunchWarp => "重新启动 Warp",
        MessageId::SettingsUpdateAvailable => "有可用更新",
        MessageId::SettingsUpdating => "正在更新...",
        MessageId::SettingsInstalledUpdate => "已安装更新",
        MessageId::SettingsUpdateManually => "手动更新 Warp",
        MessageId::SettingsSettingsSync => "设置同步",
        MessageId::AppearanceCategoryThemes => "主题",
        MessageId::AppearanceCategoryIcon => "图标",
        MessageId::AppearanceCategoryWindow => "窗口",
        MessageId::AppearanceCategoryInput => "输入",
        MessageId::AppearanceCategoryPanes => "窗格",
        MessageId::AppearanceCategoryBlocks => "块",
        MessageId::AppearanceCategoryText => "文本",
        MessageId::AppearanceCategoryCursor => "光标",
        MessageId::AppearanceCategoryTabs => "标签页",
        MessageId::AppearanceCategoryFullscreenApps => "全屏应用",
        MessageId::AppearanceCompactMode => "紧凑模式",
        MessageId::AppearanceSyncWithOs => "主题：与系统同步",
        MessageId::AppearanceCursorBlink => "光标闪烁",
        MessageId::AppearanceJumpToBottom => "跳转到块底部按钮",
        MessageId::AppearanceBlockDividers => "块分隔线",
        MessageId::AppearanceDimInactivePanes => "暗化非活动窗格",
        MessageId::AppearanceTabIndicators => "标签页指示器",
        MessageId::AppearanceFocusFollowsMouse => "焦点跟随鼠标",
        MessageId::AppearanceZenMode => "禅模式",
        MessageId::AppearanceVerticalTabLayout => "垂直标签页布局",
        MessageId::AppearanceLigatureRendering => "连字渲染",
        MessageId::AppearanceStartInputTop => "在顶部开始输入",
        MessageId::AppearancePinInputTop => "固定输入到顶部",
        MessageId::AppearancePinInputBottom => "固定输入到底部",
        MessageId::AppearanceToggleInputMode => "切换输入模式（Warp/经典）",
        MessageId::AppearanceAlwaysShowTabBar => "始终显示标签栏",
        MessageId::AppearanceHideTabBarFullscreen => "全屏时隐藏标签栏",
        MessageId::AppearanceShowTabBarOnHover => "悬停时显示标签栏",
        MessageId::AppearanceHeaderToolbarLayout => "顶部工具栏布局",
        MessageId::AppearanceCreateCustomTheme => "创建自定义主题",
        MessageId::AppearanceWindowOpacity => "窗口不透明度",
        MessageId::AppearanceWindowBlur => "使用窗口模糊",
        MessageId::AppearanceInputType => "输入类型",
        MessageId::AppearanceShowCodeReviewButton => "在标签栏显示代码审查按钮",
        MessageId::AppearanceHideCodeReviewButton => "在标签栏隐藏代码审查按钮",
        MessageId::AppearanceInputModeWarp => "固定到底部（Warp 模式）",
        MessageId::AppearanceInputModeReverse => "固定到顶部（反向模式）",
        MessageId::AppearanceInputModeClassic => "在顶部开始（经典模式）",
        MessageId::AppearanceThinStrokesNever => "从不",
        MessageId::AppearanceThinStrokesLowDpi => "在低 DPI 显示器上",
        MessageId::AppearanceThinStrokesHighDpi => "在高 DPI 显示器上",
        MessageId::AppearanceThinStrokesAlways => "始终",
        MessageId::AppearanceContrastAlways => "始终",
        MessageId::AppearanceContrastNamedColors => "仅命名颜色",
        MessageId::AppearanceNever => "从不",
        MessageId::AppearanceAlways => "始终",
        MessageId::FeaturesCategoryGeneral => "通用",
        MessageId::FeaturesCategorySession => "会话",
        MessageId::FeaturesCategoryKeys => "按键",
        MessageId::FeaturesCategoryTextEditing => "文本编辑",
        MessageId::FeaturesCategoryTerminalInput => "终端输入",
        MessageId::FeaturesCategoryTerminal => "终端",
        MessageId::FeaturesCategoryNotifications => "通知",
        MessageId::FeaturesCategoryWorkflows => "工作流",
        MessageId::FeaturesCategorySystem => "系统",
        MessageId::FeaturesCopyOnSelect => "在终端中选中时复制",
        MessageId::FeaturesLinuxSelectionClipboard => "Linux 选择剪贴板",
        MessageId::FeaturesAutocompleteQuotes => "自动补全引号、圆括号和方括号",
        MessageId::FeaturesRestoreWindows => "启动时恢复窗口、标签页和窗格",
        MessageId::FeaturesScrollReporting => "滚动上报",
        MessageId::FeaturesCompletionsWhileTyping => "输入时自动补全",
        MessageId::FeaturesCommandCorrections => "命令纠错",
        MessageId::FeaturesErrorUnderlining => "错误下划线",
        MessageId::FeaturesSyntaxHighlighting => "语法高亮",
        MessageId::FeaturesAudibleTerminalBell => "终端响铃",
        MessageId::FeaturesAutosuggestions => "自动建议",
        MessageId::FeaturesAutosuggestionKeybindingHint => "自动建议快捷键提示",
        MessageId::FeaturesSshWrapper => "Warp SSH 包装器",
        MessageId::FeaturesLinkTooltip => "点击链接时显示提示",
        MessageId::FeaturesVimUnnamedRegister => "Vim 未命名寄存器作为系统剪贴板",
        MessageId::FeaturesVimStatusBar => "Vim 状态栏",
        MessageId::FeaturesWaylandWindowManagement => "使用 Wayland 进行窗口管理",
        MessageId::FeaturesConfigureGlobalHotkey => "配置全局热键",
        MessageId::FeaturesMakeDefaultTerminal => "将 Warp 设为默认终端",
        MessageId::FeaturesLeftOptionMeta => "左侧 Option 键为 Meta",
        MessageId::FeaturesRightOptionMeta => "右侧 Option 键为 Meta",
        MessageId::FeaturesLeftAltMeta => "左侧 Alt 键为 Meta",
        MessageId::FeaturesRightAltMeta => "右侧 Alt 键为 Meta",
        MessageId::FeaturesPerformanceWarning => "将限制设置为超过 10 万行可能会影响性能。",
        MessageId::CodeInitializationSettings => "初始化设置",
        MessageId::CodeCodebaseIndexing => "代码库索引",
        MessageId::CodeCodebaseIndexDescription => "Warp 可以在您浏览代码仓库时自动建立索引，帮助智能体快速理解上下文并提供解决方案。代码永远不会存储在服务器上。",
        MessageId::CodeWarpIndexingIgnoreDescription => "要从索引中排除特定文件或目录，请将它们添加到仓库目录中的 .warpindexingignore 文件中。",
        MessageId::CodeAutoIndexFeatureName => "默认索引新文件夹",
        MessageId::CodeAutoIndexDescription => "启用后，Warp 将在您浏览代码仓库时自动建立索引。",
        MessageId::CodeIndexingDisabledAdmin => "团队管理员已禁用代码库索引。",
        MessageId::CodeIndexingWorkspaceEnabledAdmin => "团队管理员已启用代码库索引。",
        MessageId::CodeIndexingDisabledGlobalAi => "必须启用 AI 功能才能使用代码库索引。",
        MessageId::CodeCodebaseIndexLimitReached => "您已达到当前套餐的最大代码库索引数量。",
        MessageId::CodeCodebaseIndexingCategory => "代码库索引",
        MessageId::CodeEditorAndReviewCategory => "代码编辑器和审查",
        MessageId::CodeIndexNewFolder => "索引新文件夹",
        MessageId::CodeRestartServer => "重启服务器",
        MessageId::CodeViewLogs => "查看日志",
        MessageId::CodeSyncing => "同步中...",
        MessageId::CodeSynced => "已同步",
        MessageId::CodeCodebaseTooLarge => "代码库过大",
        MessageId::CodeInstalled => "已安装",
        MessageId::CodeInstalling => "安装中...",
        MessageId::CodeChecking => "检查中...",
        MessageId::CodeAvailableForDownload => "可下载",
        MessageId::CodeAvailable => "可用",
        MessageId::CodeBusy => "忙碌",
        MessageId::CodeFailed => "失败",
        MessageId::CodeStopped => "已停止",
        MessageId::CodeNotRunning => "未运行",
        MessageId::CodeInitializedFolders => "已初始化/索引的文件夹",
        MessageId::CodeNoFoldersInitialized => "尚未初始化任何文件夹。",
        MessageId::CodeOpenProjectRules => "打开项目规则",
        MessageId::CodeIndexingLabel => "索引",
        MessageId::CodeNoIndexCreated => "未创建索引",
        MessageId::CodeAutoOpenCodeReview => "自动打开代码审查面板",
        MessageId::CodeAutoOpenCodeReviewDescription => "启用此设置后，代码审查面板将在对话中接受第一个 diff 时打开",
        MessageId::CodeShowCodeReviewButton => "显示代码审查按钮",
        MessageId::CodeShowCodeReviewButtonDescription => "在窗口右上角显示一个按钮来切换代码审查面板。",
        MessageId::CodeShowDiffStats => "在代码审查按钮上显示差异统计",
        MessageId::CodeShowDiffStatsDescription => "在代码审查按钮上显示添加和删除的行数。",
        MessageId::CodeProjectExplorer => "项目浏览器",
        MessageId::CodeProjectExplorerDescription => "在左侧工具面板中添加 IDE 风格的项目浏览器/文件树。",
        MessageId::CodeGlobalFileSearch => "全局文件搜索",
        MessageId::CodeGlobalFileSearchDescription => "在左侧工具面板中添加全局文件搜索。",
        MessageId::PrivacySecretRedaction => "密钥脱敏",
        MessageId::PrivacySecretRedactionDescription => "启用此设置后，Warp 将扫描块、Warp Drive 对象内容和 Oz 提示词中的潜在敏感信息，防止将这些数据保存或发送到任何服务器。",
        MessageId::PrivacyCustomSecretRedaction => "自定义密钥脱敏",
        MessageId::PrivacyCustomSecretDescription => "使用正则表达式定义要脱敏的额外密钥或数据。此设置将在下一条命令运行时生效。",
        MessageId::PrivacyTelemetryTitle => "帮助改进 Warp",
        MessageId::PrivacyTelemetryDescription => "应用分析帮助我们为您改进产品。我们可能会收集某些控制台交互以改进 Warp 的 AI 功能。",
        MessageId::PrivacyTelemetryFreeTierNote => "在免费套餐中，必须启用分析功能才能使用 AI 功能。",
        MessageId::PrivacyDataManagementTitle => "管理您的数据",
        MessageId::PrivacyDataManagementDescription => "您可以随时选择永久删除您的 Warp 账户。删除后将无法再使用 Warp。",
        MessageId::PrivacyDataManagementLinkText => "访问数据管理页面",
        MessageId::PrivacyPrivacyPolicyTitle => "隐私政策",
        MessageId::PrivacyPrivacyPolicyLinkText => "阅读 Warp 的隐私政策",
        MessageId::BillingOverview => "概览",
        MessageId::BillingUsageHistory => "用量历史",
        MessageId::BillingViewOverageDetails => "查看超额详情",
        MessageId::BillingEnableOverages => "启用超额",
        MessageId::BillingOveragesEnabled => "超额已启用",
        MessageId::BillingOveragesNotEnabled => "超额未启用",
        MessageId::BillingAtoZ => "A 到 Z",
        MessageId::BillingZtoA => "Z 到 A",
        MessageId::BillingUsageAscending => "用量升序",
        MessageId::BillingUsageDescending => "用量降序",
        MessageId::BillingEnterpriseUsageCallout => "请联系您的团队管理员获取用量详情。",
        MessageId::TeamsTeamName => "团队名称",
        MessageId::TeamsLeaveTeam => "离开团队",
        MessageId::TeamsDeleteTeam => "删除团队",
        MessageId::TeamsCreate => "创建",
        MessageId::TeamsCreateDescription => "创建一个新团队，与您的同事协作。",
        MessageId::TeamsDomainsPlaceholder => "添加域名",
        MessageId::TeamsEmailsPlaceholder => "添加电子邮件地址",
        MessageId::TeamsSet => "设置",
        MessageId::TeamsInvite => "邀请",
        MessageId::TeamsInviteLinkInstructions => "将此链接分享给其他人以邀请他们加入您的团队。",
        MessageId::TeamsInviteByEmailExpiry => "邀请在 7 天后过期。",
        MessageId::TeamsOffline => "您似乎处于离线状态。",
        MessageId::ReferralsHeader => "邀请朋友使用 Warp",
        MessageId::ReferralsAnonymousHeader => "创建账户以开始邀请朋友",
        MessageId::ReferralsFailedLoad => "加载推荐数据失败。",
        MessageId::ReferralsCopyLink => "复制链接",
        MessageId::ReferralsSend => "发送",
        MessageId::ReferralsSending => "发送中...",
        MessageId::ReferralsLoading => "加载中...",
        MessageId::ReferralsLinkCopied => "链接已复制！",
        MessageId::ReferralsEmailSuccess => "邀请已发送！",
        MessageId::ReferralsEmailFailure => "发送邀请失败。",
        MessageId::ReferralsRewardIntro => "当您的朋友加入 Warp 后，你们都将获得奖励。",
        MessageId::ReferralsCurrentReferral => "您有 1 个活跃推荐。",
        MessageId::ReferralsCurrentReferrals => "您有 {count} 个活跃推荐。",
        MessageId::ReferralsCertainRestrictions => "某些限制适用。",
        MessageId::KeybindingsSearchPlaceholder => "按名称或按键搜索",
        MessageId::KeybindingsConflictWarning => "此快捷键与其他快捷键冲突",
        MessageId::KeybindingsDefault => "默认",
        MessageId::KeybindingsCancel => "取消",
        MessageId::KeybindingsClear => "清除",
        MessageId::KeybindingsSave => "保存",
        MessageId::WarpDriveSignUpRequired => "要使用 Warp Drive，请创建账户。",
        MessageId::WarpifySubshells => "子 Shell",
        MessageId::WarpifySsh => "SSH",
        MessageId::McpServersTitle => "MCP 服务器",
        MessageId::EnvironmentsLastEdited => "上次编辑：",
        MessageId::EnvironmentsLastUsed => "上次使用：",
        MessageId::EnvironmentsViewRuns => "查看我的运行记录",
        MessageId::PlatformNewApiKey => "新建 API 密钥",
        MessageId::ShowBlocksCopyLink => "复制链接",
        MessageId::ShowBlocksDeleting => "删除中...",
        MessageId::SettingsOpenSettingsFile => "打开设置文件",
        MessageId::SettingsDefault => "默认",
    }
}

} // verus!
