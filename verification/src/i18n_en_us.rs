use vstd::prelude::*;

use crate::i18n::MessageId;

verus! {
/// The English (United States) text of each message.
pub open spec fn en_us_text(message_id: MessageId) -> Seq<char> {
    match message_id {
        MessageId::SettingsAbout => "About"@,
        MessageId::SettingsAccount => "Account"@,
        MessageId::SettingsAgents => "Agents"@,
        MessageId::SettingsAppearance => "Appearance"@,
        MessageId::SettingsBillingAndUsage => "Billing and usage"@,
        MessageId::SettingsCloudEnvironments => "Environments"@,
        MessageId::SettingsCloudPlatform => "Cloud platform"@,
        MessageId::SettingsCode => "Code"@,
        MessageId::SettingsCodeEditorAndCodeReview => "Editor and Code Review"@,
        MessageId::SettingsCodeIndexing => "Indexing and projects"@,
        MessageId::SettingsFeatures => "Features"@,
        MessageId::SettingsKeybindings => "Keyboard shortcuts"@,
        MessageId::SettingsLanguage => "Language"@,
        MessageId::SettingsLocalAIProvider => "Local AI Provider"@,
        MessageId::SettingsKnowledge => "Knowledge"@,
        MessageId::SettingsMcpServers => "MCP Servers"@,
        MessageId::SettingsOzCloudApiKeys => "Oz Cloud API Keys"@,
        MessageId::SettingsPrivacy => "Privacy"@,
        MessageId::SettingsProfiles => "Profiles"@,
        MessageId::SettingsReferrals => "Referrals"@,
        MessageId::SettingsSharedBlocks => "Shared blocks"@,
        MessageId::SettingsTeams => "Teams"@,
        MessageId::SettingsThirdPartyCliAgents => "Third party CLI agents"@,
        MessageId::SettingsWarpAgent => "Warp Agent"@,
        MessageId::SettingsWarpDrive => "Warp Drive"@,
        MessageId::SettingsWarpify => "Warpify"@,
        MessageId::AboutCopyright => "Copyright 2026 Warp"@,
        MessageId::LanguagePageDescription => "Choose the display language for Warp."@,
        MessageId::LanguagePageOptionEnglish => "English"@,
        MessageId::LanguagePageOptionSimplifiedChinese => "Simplified Chinese"@,
        MessageId::LanguagePageRestartNote => "Some text may update after reopening the window."@,
        MessageId::LanguagePageSelectorLabel => "App language"@,
        MessageId::MenuAi => "AI"@,
        MessageId::MenuBlocks => "Blocks"@,
        MessageId::MenuDrive => "Drive"@,
        MessageId::MenuEdit => "Edit"@,
        MessageId::MenuFile => "File"@,
        MessageId::MenuHelp => "Help"@,
        MessageId::MenuTab => "Tab"@,
        MessageId::MenuView => "View"@,
        MessageId::MenuWindow => "Window"@,
        MessageId::AppPreferences => "Preferences"@,
        MessageId::AppPrivacyPolicy => "Privacy Policy..."@,
        MessageId::AppDebug => "Debug"@,
        MessageId::AppSetDefaultTerminal => "Set Warp as Default Terminal"@,
        MessageId::AppLogout => "Log out"@,
        MessageId::FileNewWindow => "New Window"@,
        MessageId::FileNewTerminalTab => "New Terminal Tab"@,
        MessageId::FileNewAgentTab => "New Agent Tab"@,
        MessageId::FileNewFile => "New File"@,
        MessageId::FileReopenClosedSession => "Reopen closed session"@,
        MessageId::FileLaunchConfigurations => "Launch Configurations"@,
        MessageId::FileOpenRecent => "Open Recent"@,
        MessageId::FileSaveNew => "Save New..."@,
        MessageId::FileClose => "Close Current Session"@,
        MessageId::FileCloseWindow => "Close Window"@,
        MessageId::EditUseWarpPrompt => "Use Warp's Prompt"@,
        MessageId::EditCopyOnSelect => "Copy on Select within the Terminal"@,
        MessageId::EditSynchronizeInputs => "Synchronize Inputs"@,
        MessageId::ViewToggleMouseReporting => "Toggle Mouse Reporting"@,
        MessageId::ViewToggleScrollReporting => "Toggle Scroll Reporting"@,
        MessageId::ViewToggleFocusReporting => "Toggle Focus Reporting"@,
        MessageId::ViewCompactMode => "Compact Mode"@,
        MessageId::HelpSendFeedback => "Send Feedback..."@,
        MessageId::HelpWarpDocumentation => "Warp Documentation..."@,
        MessageId::HelpGitHubIssues => "GitHub Issues..."@,
        MessageId::HelpWarpSlackCommunity => "Warp Slack Community..."@,
        MessageId::DockNewWindow => "New Window"@,
        MessageId::DebugEnableShellDebugMode => "Enable Shell Debug Mode (-x) for New Sessions"@,
        MessageId::DebugDisableShellDebugMode => "Disable Shell Debug Mode (-x) for New Sessions"@,
        MessageId::DebugEnableInBandGenerators => "Enable In-band Generators for New Sessions"@,
        MessageId::DebugDisableInBandGenerators => "Disable in-band generators for new sessions"@,
        MessageId::DebugEnablePtyRecording => "Enable PTY Recording Mode (warp.pty.recording)"@,
        MessageId::DebugDisablePtyRecording => "Disable PTY Recording Mode (warp.pty.recording)"@,
        MessageId::DebugShowBootstrapBlock => "Show Initialization Block"@,
        MessageId::DebugHideBootstrapBlock => "Hide Initialization Block"@,
        MessageId::DebugShowInBandCommandBlocks => "Show In-band Command Blocks"@,
        MessageId::DebugHideInBandCommandBlocks => "Hide In-band Command Blocks"@,
        MessageId::DebugShowSshBlocks => "Show Warpified SSH Blocks"@,
        MessageId::DebugHideSshBlocks => "Hide Warpified SSH Blocks"@,
        MessageId::DebugExportDefaultSettingsCsv => "Export Default Settings as CSV to home dir"@,
        MessageId::DebugToggleNetworkStatus => "Manually Toggle Network Status"@,
        MessageId::DebugCreateAnonymousUser => "Create anonymous user"@,
        MessageId::EditUndo => "Undo"@,
        MessageId::EditRedo => "Redo"@,
        MessageId::EditCut => "Cut"@,
        MessageId::EditCopy => "Copy"@,
        MessageId::EditPaste => "Paste"@,
        MessageId::EditSelectAll => "Select All"@,
        MessageId::EditClearEditor => "Clear Editor"@,
        MessageId::EditFind => "Find in Terminal"@,
        MessageId::EditGoToLine => "Go to Line"@,
        MessageId::EditFocusInput => "Focus Input"@,
        MessageId::EditAddNextOccurrence => "Add Next Occurrence"@,
        MessageId::EditAddCursorAbove => "Add Cursor Above"@,
        MessageId::EditAddCursorBelow => "Add Cursor Below"@,
        MessageId::ViewCommandPalette => "Command Palette"@,
        MessageId::ViewNavigationPalette => "Navigation Palette"@,
        MessageId::ViewLaunchConfigPalette => "Launch Configuration Palette"@,
        MessageId::ViewFilesPalette => "Files Palette"@,
        MessageId::ViewToggleConversationList => "Toggle Conversation List"@,
        MessageId::ViewToggleProjectExplorer => "Toggle Project Explorer"@,
        MessageId::ViewToggleGlobalSearch => "Toggle Global Search"@,
        MessageId::ViewHistory => "History"@,
        MessageId::ViewCommandSearch => "Command Search"@,
        MessageId::ViewWorkflows => "Workflows"@,
        MessageId::ViewIncreaseFontSize => "Increase Font Size"@,
        MessageId::ViewDecreaseFontSize => "Decrease Font Size"@,
        MessageId::ViewResetFontSize => "Reset Font Size"@,
        MessageId::ViewIncreaseZoom => "Increase Zoom"@,
        MessageId::ViewDecreaseZoom => "Decrease Zoom"@,
        MessageId::ViewResetZoom => "Reset Zoom"@,
        MessageId::ViewToggleWarpDrive => "Toggle Warp Drive"@,
        MessageId::TabRename => "Rename Tab"@,
        MessageId::TabSplitRight => "Split Right"@,
        MessageId::TabSplitLeft => "Split Left"@,
        MessageId::TabSplitDown => "Split Down"@,
        MessageId::TabSplitUp => "Split Up"@,
        MessageId::TabMoveLeft => "Move Tab Left"@,
        MessageId::TabMoveRight => "Move Tab Right"@,
        MessageId::TabCycleNext => "Next Tab"@,
        MessageId::TabCyclePrev => "Previous Tab"@,
        MessageId::TabActivateNextPane => "Activate Next Pane"@,
        MessageId::TabActivatePrevPane => "Activate Previous Pane"@,
        MessageId::TabMaximizePane => "Maximize Pane"@,
        MessageId::TabClose => "Close Tab"@,
        MessageId::TabCloseOthers => "Close Other Tabs"@,
        MessageId::TabCloseRight => "Close Tabs to the Right"@,
        MessageId::BlocksClear => "Clear Blocks"@,
        MessageId::BlocksSelectAbove => "Select Block Above"@,
        MessageId::BlocksSelectBelow => "Select Block Below"@,
        MessageId::BlocksSelectAll => "Select All Blocks"@,
        MessageId::BlocksScrollToTop => "Scroll to Top of Selected Blocks"@,
        MessageId::BlocksScrollToBottom => "Scroll to Bottom of Selected Blocks"@,
        MessageId::BlocksCreatePermalink => "Create Block Permalink"@,
        MessageId::BlocksToggleBookmark => "Toggle Bookmark"@,
        MessageId::BlocksFindWithin => "Find Within Block"@,
        MessageId::BlocksCopy => "Copy Block"@,
        MessageId::BlocksCopyCommand => "Copy Block Command"@,
        MessageId::BlocksCopyOutput => "Copy Block Output"@,
        MessageId::BlocksViewShared => "View Shared Blocks"@,
        MessageId::AiNewAgentMode => "New Agent Mode Pane"@,
        MessageId::AiAttachSelection => "Attach Selection as Context"@,
        MessageId::AiSearch => "AI Search"@,
        MessageId::AiOpenFactCollection => "Open Fact Collection"@,
        MessageId::AiOpenMcpServers => "Open MCP Servers"@,
        MessageId::DriveNewPersonalWorkflow => "New Personal Workflow"@,
        MessageId::DriveNewPersonalNotebook => "New Personal Notebook"@,
        MessageId::DriveNewPersonalAIPrompt => "New Personal AI Prompt"@,
        MessageId::DriveNewPersonalEnvVars => "New Personal Env Variables"@,
        MessageId::DriveNewTeamWorkflow => "New Team Workflow"@,
        MessageId::DriveNewTeamNotebook => "New Team Notebook"@,
        MessageId::DriveNewTeamAIPrompt => "New Team AI Prompt"@,
        MessageId::DriveNewTeamEnvVars => "New Team Env Variables"@,
        MessageId::DriveSearch => "Search Drive"@,
        MessageId::DriveOpenTeamSettings => "Open Team Settings"@,
        MessageId::DriveSharePaneContents => "Share Pane Contents"@,
        MessageId::DriveShareSession => "Share Current Session"@,
        MessageId::AppShowAboutWarp => "About Warp"@,
        MessageId::AppToggleResourceCenter => "Resource Center"@,
        MessageId::AppReferAFriend => "Refer a Friend"@,
        MessageId::AppShowSettings => "Settings"@,
        MessageId::AppToggleKeybindings => "Keybindings"@,
        MessageId::AppConfigureKeybindings => "Configure Keybindings"@,
        MessageId::AppShowAppearance => "Appearance"@,
        MessageId::AppViewChangelog => "View Changelog"@,
        MessageId::SyncAllTerminalInputs => "Sync All Terminal Inputs in All Tabs"@,
        MessageId::SyncTerminalInputsCurrentTab => "Sync Terminal Inputs in Current Tab"@,
        MessageId::DisableSyncInputs => "Disable Sync Inputs"@,
        MessageId::FileOpenRepository => "Open Repository"@,
        MessageId::AddWindow => "Add Window"@,
        MessageId::SettingsSignUp => "Sign up"@,
        MessageId::SettingsFree => "Free"@,
        MessageId::SettingsComparePlans => "Compare plans"@,
        MessageId::SettingsUpToDate => "Up to date"@,
        MessageId::SettingsVersion => "Version"@,
        MessageId::SettingsLogOut => "Log out"@,
        MessageId::SettingsReferralCta => "Earn rewards by sharing Warp with friends & colleagues"@,
        MessageId::SettingsContactSupport => "Contact support"@,
        MessageId::SettingsManageBilling => "Manage billing"@,
        MessageId::SettingsCheckForUpdates => "Check for updates"@,
        MessageId::SettingsRelaunchWarp => "Relaunch Warp"@,
        MessageId::SettingsUpdateAvailable => "Update available"@,
        MessageId::SettingsUpdating => "Updating..."@,
        MessageId::SettingsInstalledUpdate => "Installed update"@,
        MessageId::SettingsUpdateManually => "Update Warp manually"@,
        MessageId::SettingsSettingsSync => "Settings sync"@,
        MessageId::AppearanceCategoryThemes => "Themes"@,
        MessageId::AppearanceCategoryIcon => "Icon"@,
        MessageId::AppearanceCategoryWindow => "Window"@,
        MessageId::AppearanceCategoryInput => "Input"@,
        MessageId::AppearanceCategoryPanes => "Panes"@,
        MessageId::AppearanceCategoryBlocks => "Blocks"@,
        MessageId::AppearanceCategoryText => "Text"@,
        MessageId::AppearanceCategoryCursor => "Cursor"@,
        MessageId::AppearanceCategoryTabs => "Tabs"@,
        MessageId::AppearanceCategoryFullscreenApps => "Full-screen Apps"@,
        MessageId::AppearanceCompactMode => "compact mode"@,
        MessageId::AppearanceSyncWithOs => "themes: sync with OS"@,
        MessageId::AppearanceCursorBlink => "cursor blink"@,
        MessageId::AppearanceJumpToBottom => "jump to bottom of block button"@,
        MessageId::AppearanceBlockDividers => "block dividers"@,
        MessageId::AppearanceDimInactivePanes => "dim inactive panes"@,
        MessageId::AppearanceTabIndicators => "tab indicators"@,
        MessageId::AppearanceFocusFollowsMouse => "focus follows mouse"@,
        MessageId::AppearanceZenMode => "zen mode"@,
        MessageId::AppearanceVerticalTabLayout => "vertical tab layout"@,
        MessageId::AppearanceLigatureRendering => "ligature rendering"@,
        MessageId::AppearanceStartInputTop => "Start Input at the Top"@,
        MessageId::AppearancePinInputTop => "Pin Input to the Top"@,
        MessageId::AppearancePinInputBottom => "Pin Input to the Bottom"@,
        MessageId::AppearanceToggleInputMode => "Toggle Input Mode (Warp/Classic)"@,
        MessageId::AppearanceAlwaysShowTabBar => "Always show tab bar"@,
        MessageId::AppearanceHideTabBarFullscreen => "Hide tab bar if fullscreen"@,
        MessageId::AppearanceShowTabBarOnHover => "Only show tab bar on hover"@,
        MessageId::AppearanceHeaderToolbarLayout => "Header toolbar layout"@,
        MessageId::AppearanceCreateCustomTheme => "Create your own custom theme"@,
        MessageId::AppearanceWindowOpacity => "Window Opacity"@,
        MessageId::AppearanceWindowBlur => "Use Window Blur"@,
        MessageId::AppearanceInputType => "Input type"@,
        MessageId::AppearanceShowCodeReviewButton => "Show code review button in tab bar"@,
        MessageId::AppearanceHideCodeReviewButton => "Hide code review button in tab bar"@,
        MessageId::AppearanceInputModeWarp => "Pin to the bottom (Warp mode)"@,
        MessageId::AppearanceInputModeReverse => "Pin to the top (Reverse mode)"@,
        MessageId::AppearanceInputModeClassic => "Start at the top (Classic mode)"@,
        MessageId::AppearanceThinStrokesNever => "Never"@,
        MessageId::AppearanceThinStrokesLowDpi => "On low-DPI displays"@,
        MessageId::AppearanceThinStrokesHighDpi => "On high-DPI displays"@,
        MessageId::AppearanceThinStrokesAlways => "Always"@,
        MessageId::AppearanceContrastAlways => "Always"@,
        MessageId::AppearanceContrastNamedColors => "Only for named colors"@,
        MessageId::AppearanceNever => "Never"@,
        MessageId::AppearanceAlways => "Always"@,
        MessageId::FeaturesCategoryGeneral => "General"@,
        MessageId::FeaturesCategorySession => "Session"@,
        MessageId::FeaturesCategoryKeys => "Keys"@,
        MessageId::FeaturesCategoryTextEditing => "Text Editing"@,
        MessageId::FeaturesCategoryTerminalInput => "Terminal Input"@,
        MessageId::FeaturesCategoryTerminal => "Terminal"@,
        MessageId::FeaturesCategoryNotifications => "Notifications"@,
        MessageId::FeaturesCategoryWorkflows => "Workflows"@,
        MessageId::FeaturesCategorySystem => "System"@,
        MessageId::FeaturesCopyOnSelect => "Copy on select within the terminal"@,
        MessageId::FeaturesLinuxSelectionClipboard => "Linux selection clipboard"@,
        MessageId::FeaturesAutocompleteQuotes => "Autocomplete quotes, parentheses, and brackets"@,
        MessageId::FeaturesRestoreWindows => "Restore windows, tabs, and panes on startup"@,
        MessageId::FeaturesScrollReporting => "Scroll reporting"@,
        MessageId::FeaturesCompletionsWhileTyping => "Completions while typing"@,
        MessageId::FeaturesCommandCorrections => "Command corrections"@,
        MessageId::FeaturesErrorUnderlining => "Error underlining"@,
        MessageId::FeaturesSyntaxHighlighting => "Syntax highlighting"@,
        MessageId::FeaturesAudibleTerminalBell => "Audible terminal bell"@,
        MessageId::FeaturesAutosuggestions => "Autosuggestions"@,
        MessageId::FeaturesAutosuggestionKeybindingHint => "Autosuggestion keybinding hint"@,
        MessageId::FeaturesSshWrapper => "Warp SSH wrapper"@,
        MessageId::FeaturesLinkTooltip => "Show tooltip on click on links"@,
        MessageId::FeaturesVimUnnamedRegister => "Vim unnamed register as system clipboard"@,
        MessageId::FeaturesVimStatusBar => "Vim status bar"@,
        MessageId::FeaturesWaylandWindowManagement => "Wayland for window management"@,
        MessageId::FeaturesConfigureGlobalHotkey => "Configure Global Hotkey"@,
        MessageId::FeaturesMakeDefaultTerminal => "Make Warp the default terminal"@,
        MessageId::FeaturesLeftOptionMeta => "Left Option key is Meta"@,
        MessageId::FeaturesRightOptionMeta => "Right Option key is Meta"@,
        MessageId::FeaturesLeftAltMeta => "Left Alt key is Meta"@,
        MessageId::FeaturesRightAltMeta => "Right Alt key is Meta"@,
        MessageId::FeaturesPerformanceWarning => "Setting the limit above 100k lines may impact performance."@,
        MessageId::CodeInitializationSettings => "Initialization Settings"@,
        MessageId::CodeCodebaseIndexing => "Codebase indexing"@,
        MessageId::CodeCodebaseIndexDescription => "Warp can automatically index code repositories as you navigate them, helping agents quickly understand context and provide solutions. Code is never stored on the server."@,
        MessageId::CodeWarpIndexingIgnoreDescription => "To exclude specific files or directories from indexing, add them to the .warpindexingignore file in your repository directory."@,
        MessageId::CodeAutoIndexFeatureName => "Index new folders by default"@,
        MessageId::CodeAutoIndexDescription => "When set to true, Warp will automatically index code repositories as you navigate them."@,
        MessageId::CodeIndexingDisabledAdmin => "Team admins have disabled codebase indexing."@,
        MessageId::CodeIndexingWorkspaceEnabledAdmin => "Team admins have enabled codebase indexing."@,
        MessageId::CodeIndexingDisabledGlobalAi => "AI Features must be enabled to use codebase indexing."@,
        MessageId::CodeCodebaseIndexLimitReached => "You have reached the maximum number of codebase indices for your plan."@,
        MessageId::CodeCodebaseIndexingCategory => "Codebase Indexing"@,
        MessageId::CodeEditorAndReviewCategory => "Code Editor and Review"@,
        MessageId::CodeIndexNewFolder => "Index new folder"@,
        MessageId::CodeRestartServer => "Restart server"@,
        MessageId::CodeViewLogs => "View logs"@,
        MessageId::CodeSyncing => "Syncing..."@,
        MessageId::CodeSynced => "Synced"@,
        MessageId::CodeCodebaseTooLarge => "Codebase too large"@,
        MessageId::CodeInstalled => "Installed"@,
        MessageId::CodeInstalling => "Installing..."@,
        MessageId::CodeChecking => "Checking..."@,
        MessageId::CodeAvailableForDownload => "Available for download"@,
        MessageId::CodeAvailable => "Available"@,
        MessageId::CodeBusy => "Busy"@,
        MessageId::CodeFailed => "Failed"@,
        MessageId::CodeStopped => "Stopped"@,
        MessageId::CodeNotRunning => "Not running"@,
        MessageId::CodeInitializedFolders => "Initialized / indexed folders"@,
        MessageId::CodeNoFoldersInitialized => "No folders have been initialized yet."@,
        MessageId::CodeOpenProjectRules => "Open project rules"@,
        MessageId::CodeIndexingLabel => "INDEXING"@,
        MessageId::CodeNoIndexCreated => "No index created"@,
        MessageId::CodeAutoOpenCodeReview => "Auto open code review panel"@,
        MessageId::CodeAutoOpenCodeReviewDescription => "When this setting is on, the code review panel will open on the first accepted diff of a conversation"@,
        MessageId::CodeShowCodeReviewButton => "Show code review button"@,
        MessageId::CodeShowCodeReviewButtonDescription => "Show a button in the top right of the window to toggle the code review panel."@,
        MessageId::CodeShowDiffStats => "Show diff stats on code review button"@,
        MessageId::CodeShowDiffStatsDescription => "Show lines added and removed counts on the code review button."@,
        MessageId::CodeProjectExplorer => "Project explorer"@,
        MessageId::CodeProjectExplorerDescription => "Adds an IDE-style project explorer / file tree to the left side tools panel."@,
        MessageId::CodeGlobalFileSearch => "Global file search"@,
        MessageId::CodeGlobalFileSearchDescription => "Adds global file search to the left side tools panel."@,
        MessageId::PrivacySecretRedaction => "Secret redaction"@,
        MessageId::PrivacySecretRedactionDescription => "When this setting is enabled, Warp will scan blocks, the contents of Warp Drive objects, and Oz prompts for potential sensitive information and prevent saving or sending this data to any servers."@,
        MessageId::PrivacyCustomSecretRedaction => "Custom secret redaction"@,
        MessageId::PrivacyCustomSecretDescription => "Use regex to define additional secrets or data you'd like to redact. This will take effect when the next command runs."@,
        MessageId::PrivacyTelemetryTitle => "Help improve Warp"@,
        MessageId::PrivacyTelemetryDescription => "App analytics help us make the product better for you. We may collect certain console interactions to improve Warp's AI capabilities."@,
        MessageId::PrivacyTelemetryFreeTierNote => "On the free tier, analytics must be enabled to use AI features."@,
        MessageId::PrivacyDataManagementTitle => "Manage your data"@,
        MessageId::PrivacyDataManagementDescription => "At any time, you may choose to delete your Warp account permanently. You will no longer be able to use Warp."@,
        MessageId::PrivacyDataManagementLinkText => "Visit the data management page"@,
        MessageId::PrivacyPrivacyPolicyTitle => "Privacy policy"@,
        MessageId::PrivacyPrivacyPolicyLinkText => "Read Warp's privacy policy"@,
        MessageId::BillingOverview => "Overview"@,
        MessageId::BillingUsageHistory => "Usage History"@,
        MessageId::BillingViewOverageDetails => "View overage details"@,
        MessageId::BillingEnableOverages => "Enable overages"@,
        MessageId::BillingOveragesEnabled => "Overages enabled"@,
        MessageId::BillingOveragesNotEnabled => "Overages not enabled"@,
        MessageId::BillingAtoZ => "A to Z"@,
        MessageId::BillingZtoA => "Z to A"@,
        MessageId::BillingUsageAscending => "Usage ascending"@,
        MessageId::BillingUsageDescending => "Usage descending"@,
        MessageId::BillingEnterpriseUsageCallout => "Contact your team admin for usage details."@,
        MessageId::TeamsTeamName => "Team name"@,
        MessageId::TeamsLeaveTeam => "Leave team"@,
        MessageId::TeamsDeleteTeam => "Delete team"@,
        MessageId::TeamsCreate => "Create"@,
        MessageId::TeamsCreateDescription => "Create a new team to collaborate with your colleagues."@,
        MessageId::TeamsDomainsPlaceholder => "Add domains"@,
        MessageId::TeamsEmailsPlaceholder => "Add email addresses"@,
        MessageId::TeamsSet => "Set"@,
        MessageId::TeamsInvite => "Invite"@,
        MessageId::TeamsInviteLinkInstructions => "Share this link with others to invite them to your team."@,
        MessageId::TeamsInviteByEmailExpiry => "Invitations expire after 7 days."@,
        MessageId::TeamsOffline => "You appear to be offline."@,
        MessageId::ReferralsHeader => "Invite a friend to Warp"@,
        MessageId::ReferralsAnonymousHeader => "Create an account to start inviting friends"@,
        MessageId::ReferralsFailedLoad => "Failed to load referral data."@,
        MessageId::ReferralsCopyLink => "Copy link"@,
        MessageId::ReferralsSend => "Send"@,
        MessageId::ReferralsSending => "Sending..."@,
        MessageId::ReferralsLoading => "Loading..."@,
        MessageId::ReferralsLinkCopied => "Link copied!"@,
        MessageId::ReferralsEmailSuccess => "Invitation sent!"@,
        MessageId::ReferralsEmailFailure => "Failed to send invitation."@,
        MessageId::ReferralsRewardIntro => "You'll both earn rewards when your friend joins Warp."@,
        MessageId::ReferralsCurrentReferral => "You have 1 active referral."@,
        MessageId::ReferralsCurrentReferrals => "You have {count} active referrals."@,
        MessageId::ReferralsCertainRestrictions => "Certain restrictions apply."@,
        MessageId::KeybindingsSearchPlaceholder => "Search by name or by keys"@,
        MessageId::KeybindingsConflictWarning => "This shortcut conflicts with other keybinds"@,
        MessageId::KeybindingsDefault => "Default"@,
        MessageId::KeybindingsCancel => "Cancel"@,
        MessageId::KeybindingsClear => "Clear"@,
        MessageId::KeybindingsSave => "Save"@,
        MessageId::WarpDriveSignUpRequired => "To use Warp Drive, please create an account."@,
        MessageId::WarpifySubshells => "Subshells"@,
        MessageId::WarpifySsh => "SSH"@,
        MessageId::McpServersTitle => "MCP Servers"@,
        MessageId::EnvironmentsLastEdited => "Last edited:"@,
        MessageId::EnvironmentsLastUsed => "Last used:"@,
        MessageId::EnvironmentsViewRuns => "View my runs"@,
        MessageId::PlatformNewApiKey => "New API key"@,
        MessageId::ShowBlocksCopyLink => "Copy link"@,
        MessageId::ShowBlocksDeleting => "Deleting..."@,
        MessageId::SettingsOpenSettingsFile => "Open settings file"@,
        MessageId::SettingsDefault => "Default"@,
    }
}

/// The English (United States) text of each message.
pub fn en_us(message_id: MessageId) -> (text: &'static str)
    ensures
        text@ == en_us_text(message_id),
{
    match message_id {
        MessageId::SettingsAbout => "About",
        MessageId::SettingsAccount => "Account",
        MessageId::SettingsAgents => "Agents",
        MessageId::SettingsAppearance => "Appearance",
        MessageId::SettingsBillingAndUsage => "Billing and usage",
        MessageId::SettingsCloudEnvironments => "Environments",
        MessageId::SettingsCloudPlatform => "Cloud platform",
        MessageId::SettingsCode => "Code",
        MessageId::SettingsCodeEditorAndCodeReview => "Editor and Code Review",
        MessageId::SettingsCodeIndexing => "Indexing and projects",
        MessageId::SettingsFeatures => "Features",
        MessageId::SettingsKeybindings => "Keyboard shortcuts",
        MessageId::SettingsLanguage => "Language",
        MessageId::SettingsLocalAIProvider => "Local AI Provider",
        MessageId::SettingsKnowledge => "Knowledge",
        MessageId::SettingsMcpServers => "MCP Servers",
        MessageId::SettingsOzCloudApiKeys => "Oz Cloud API Keys",
        MessageId::SettingsPrivacy => "Privacy",
        MessageId::SettingsProfiles => "Profiles",
        MessageId::SettingsReferrals => "Referrals",
        MessageId::SettingsSharedBlocks => "Shared blocks",
        MessageId::SettingsTeams => "Teams",
        MessageId::SettingsThirdPartyCliAgents => "Third party CLI agents",
        MessageId::SettingsWarpAgent => "Warp Agent",
        MessageId::SettingsWarpDrive => "Warp Drive",
        MessageId::SettingsWarpify => "Warpify",
        MessageId::AboutCopyright => "Copyright 2026 Warp",
        MessageId::LanguagePageDescription => "Choose the display language for Warp.",
        MessageId::LanguagePageOptionEnglish => "English",
        MessageId::LanguagePageOptionSimplifiedChinese => "Simplified Chinese",
        MessageId::LanguagePageRestartNote => "Some text may update after reopening the window.",
        MessageId::LanguagePageSelectorLabel => "App language",
        MessageId::MenuAi => "AI",
        MessageId::MenuBlocks => "Blocks",
        MessageId::MenuDrive => "Drive",
        MessageId::MenuEdit => "Edit",
        MessageId::MenuFile => "File",
        MessageId::MenuHelp => "Help",
        MessageId::MenuTab => "Tab",
        MessageId::MenuView => "View",
        MessageId::MenuWindow => "Window",
        MessageId::AppPreferences => "Preferences",
        MessageId::AppPrivacyPolicy => "Privacy Policy...",
        MessageId::AppDebug => "Debug",
        MessageId::AppSetDefaultTerminal => "Set Warp as Default Terminal",
        MessageId::AppLogout => "Log out",
        MessageId::FileNewWindow => "New Window",
        MessageId::FileNewTerminalTab => "New Terminal Tab",
        MessageId::FileNewAgentTab => "New Agent Tab",
        MessageId::FileNewFile => "New File",
        MessageId::FileReopenClosedSession => "Reopen closed session",
        MessageId::FileLaunchConfigurations => "Launch Configurations",
        MessageId::FileOpenRecent => "Open Recent",
        MessageId::FileSaveNew => "Save New...",
        MessageId::FileClose => "Close Current Session",
        MessageId::FileCloseWindow => "Close Window",
        MessageId::EditUseWarpPrompt => "Use Warp's Prompt",
        MessageId::EditCopyOnSelect => "Copy on Select within the Terminal",
        MessageId::EditSynchronizeInputs => "Synchronize Inputs",
        MessageId::ViewToggleMouseReporting => "Toggle Mouse Reporting",
        MessageId::ViewToggleScrollReporting => "Toggle Scroll Reporting",
        MessageId::ViewToggleFocusReporting => "Toggle Focus Reporting",
        MessageId::ViewCompactMode => "Compact Mode",
        MessageId::HelpSendFeedback => "Send Feedback...",
        MessageId::HelpWarpDocumentation => "Warp Documentation...",
        MessageId::HelpGitHubIssues => "GitHub Issues...",
        MessageId::HelpWarpSlackCommunity => "Warp Slack Community...",
        MessageId::DockNewWindow => "New Window",
        MessageId::DebugEnableShellDebugMode => "Enable Shell Debug Mode (-x) for New Sessions",
        MessageId::DebugDisableShellDebugMode => "Disable Shell Debug Mode (-x) for New Sessions",
        MessageId::DebugEnableInBandGenerators => "Enable In-band Generators for New Sessions",
        MessageId::DebugDisableInBandGenerators => "Disable in-band generators for new sessions",
        MessageId::DebugEnablePtyRecording => "Enable PTY Recording Mode (warp.pty.recording)",
        MessageId::DebugDisablePtyRecording => "Disable PTY Recording Mode (warp.pty.recording)",
        MessageId::DebugShowBootstrapBlock => "Show Initialization Block",
        MessageId::DebugHideBootstrapBlock => "Hide Initialization Block",
        MessageId::DebugShowInBandCommandBlocks => "Show In-band Command Blocks",
        MessageId::DebugHideInBandCommandBlocks => "Hide In-band Command Blocks",
        MessageId::DebugShowSshBlocks => "Show Warpified SSH Blocks",
        MessageId::DebugHideSshBlocks => "Hide Warpified SSH Blocks",
        MessageId::DebugExportDefaultSettingsCsv => "Export Default Settings as CSV to home dir",
        MessageId::DebugToggleNetworkStatus => "Manually Toggle Network Status",
        MessageId::DebugCreateAnonymousUser => "Create anonymous user",
        MessageId::EditUndo => "Undo",
        MessageId::EditRedo => "Redo",
        MessageId::EditCut => "Cut",
        MessageId::EditCopy => "Copy",
        MessageId::EditPaste => "Paste",
        MessageId::EditSelectAll => "Select All",
        MessageId::EditClearEditor => "Clear Editor",
        MessageId::EditFind => "Find in Terminal",
        MessageId::EditGoToLine => "Go to Line",
        MessageId::EditFocusInput => "Focus Input",
        MessageId::EditAddNextOccurrence => "Add Next Occurrence",
        MessageId::EditAddCursorAbove => "Add Cursor Above",
        MessageId::EditAddCursorBelow => "Add Cursor Below",
        MessageId::ViewCommandPalette => "Command Palette",
        MessageId::ViewNavigationPalette => "Navigation Palette",
        MessageId::ViewLaunchConfigPalette => "Launch Configuration Palette",
        MessageId::ViewFilesPalette => "Files Palette",
        MessageId::ViewToggleConversationList => "Toggle Conversation List",
        MessageId::ViewToggleProjectExplorer => "Toggle Project Explorer",
        MessageId::ViewToggleGlobalSearch => "Toggle Global Search",
        MessageId::ViewHistory => "History",
        MessageId::ViewCommandSearch => "Command Search",
        MessageId::ViewWorkflows => "Workflows",
        MessageId::ViewIncreaseFontSize => "Increase Font Size",
        MessageId::ViewDecreaseFontSize => "Decrease Font Size",
        MessageId::ViewResetFontSize => "Reset Font Size",
        MessageId::ViewIncreaseZoom => "Increase Zoom",
        MessageId::ViewDecreaseZoom => "Decrease Zoom",
        MessageId::ViewResetZoom => "Reset Zoom",
        MessageId::ViewToggleWarpDrive => "Toggle Warp Drive",
        MessageId::TabRename => "Rename Tab",
        MessageId::TabSplitRight => "Split Right",
        MessageId::TabSplitLeft => "Split Left",
        MessageId::TabSplitDown => "Split Down",
        MessageId::TabSplitUp => "Split Up",
        MessageId::TabMoveLeft => "Move Tab Left",
        MessageId::TabMoveRight => "Move Tab Right",
        MessageId::TabCycleNext => "Next Tab",
        MessageId::TabCyclePrev => "Previous Tab",
        MessageId::TabActivateNextPane => "Activate Next Pane",
        MessageId::TabActivatePrevPane => "Activate Previous Pane",
        MessageId::TabMaximizePane => "Maximize Pane",
        MessageId::TabClose => "Close Tab",
        MessageId::TabCloseOthers => "Close Other Tabs",
        MessageId::TabCloseRight => "Close Tabs to the Right",
        MessageId::BlocksClear => "Clear Blocks",
        MessageId::BlocksSelectAbove => "Select Block Above",
        MessageId::BlocksSelectBelow => "Select Block Below",
        MessageId::BlocksSelectAll => "Select All Blocks",
        MessageId::BlocksScrollToTop => "Scroll to Top of Selected Blocks",
        MessageId::BlocksScrollToBottom => "Scroll to Bottom of Selected Blocks",
        MessageId::BlocksCreatePermalink => "Create Block Permalink",
        MessageId::BlocksToggleBookmark => "Toggle Bookmark",
        MessageId::BlocksFindWithin => "Find Within Block",
        MessageId::BlocksCopy => "Copy Block",
        MessageId::BlocksCopyCommand => "Copy Block Command",
        MessageId::BlocksCopyOutput => "Copy Block Output",
        MessageId::BlocksViewShared => "View Shared Blocks",
        MessageId::AiNewAgentMode => "New Agent Mode Pane",
        MessageId::AiAttachSelection => "Attach Selection as Context",
        MessageId::AiSearch => "AI Search",
        MessageId::AiOpenFactCollection => "Open Fact Collection",
        MessageId::AiOpenMcpServers => "Open MCP Servers",
        MessageId::DriveNewPersonalWorkflow => "New Personal Workflow",
        MessageId::DriveNewPersonalNotebook => "New Personal Notebook",
        MessageId::DriveNewPersonalAIPrompt => "New Personal AI Prompt",
        MessageId::DriveNewPersonalEnvVars => "New Personal Env Variables",
        MessageId::DriveNewTeamWorkflow => "New Team Workflow",
        MessageId::DriveNewTeamNotebook => "New Team Notebook",
        MessageId::DriveNewTeamAIPrompt => "New Team AI Prompt",
        MessageId::DriveNewTeamEnvVars => "New Team Env Variables",
        MessageId::DriveSearch => "Search Drive",
        MessageId::DriveOpenTeamSettings => "Open Team Settings",
        MessageId::DriveSharePaneContents => "Share Pane Contents",
        MessageId::DriveShareSession => "Share Current Session",
        MessageId::AppShowAboutWarp => "About Warp",
        MessageId::AppToggleResourceCenter => "Resource Center",
        MessageId::AppReferAFriend => "Refer a Friend",
        MessageId::AppShowSettings => "Settings",
        MessageId::AppToggleKeybindings => "Keybindings",
        MessageId::AppConfigureKeybindings => "Configure Keybindings",
        MessageId::AppShowAppearance => "Appearance",
        MessageId::AppViewChangelog => "View Changelog",
        MessageId::SyncAllTerminalInputs => "Sync All Terminal Inputs in All Tabs",
        MessageId::SyncTerminalInputsCurrentTab => "Sync Terminal Inputs in Current Tab",
        MessageId::DisableSyncInputs => "Disable Sync Inputs",
        MessageId::FileOpenRepository => "Open Repository",
        MessageId::AddWindow => "Add Window",
        MessageId::SettingsSignUp => "Sign up",
        MessageId::SettingsFree => "Free",
        MessageId::SettingsComparePlans => "Compare plans",
        MessageId::SettingsUpToDate => "Up to date",
        MessageId::SettingsVersion => "Version",
        MessageId::SettingsLogOut => "Log out",
        MessageId::SettingsReferralCta => "Earn rewards by sharing Warp with friends & colleagues",
        MessageId::SettingsContactSupport => "Contact support",
        MessageId::SettingsManageBilling => "Manage billing",
        MessageId::SettingsCheckForUpdates => "Check for updates",
        MessageId::SettingsRelaunchWarp => "Relaunch Warp",
        MessageId::SettingsUpdateAvailable => "Update available",
        MessageId::SettingsUpdating => "Updating...",
        MessageId::SettingsInstalledUpdate => "Installed update",
        MessageId::SettingsUpdateManually => "Update Warp manually",
        MessageId::SettingsSettingsSync => "Settings sync",
        MessageId::AppearanceCategoryThemes => "Themes",
        MessageId::AppearanceCategoryIcon => "Icon",
        MessageId::AppearanceCategoryWindow => "Window",
        MessageId::AppearanceCategoryInput => "Input",
        MessageId::AppearanceCategoryPanes => "Panes",
        MessageId::AppearanceCategoryBlocks => "Blocks",
        MessageId::AppearanceCategoryText => "Text",
        MessageId::AppearanceCategoryCursor => "Cursor",
        MessageId::AppearanceCategoryTabs => "Tabs",
        MessageId::AppearanceCategoryFullscreenApps => "Full-screen Apps",
        MessageId::AppearanceCompactMode => "compact mode",
        MessageId::AppearanceSyncWithOs => "themes: sync with OS",
        MessageId::AppearanceCursorBlink => "cursor blink",
        MessageId::AppearanceJumpToBottom => "jump to bottom of block button",
        MessageId::AppearanceBlockDividers => "block dividers",
        MessageId::AppearanceDimInactivePanes => "dim inactive panes",
        MessageId::AppearanceTabIndicators => "tab indicators",
        MessageId::AppearanceFocusFollowsMouse => "focus follows mouse",
        MessageId::AppearanceZenMode => "zen mode",
        MessageId::AppearanceVerticalTabLayout => "vertical tab layout",
        MessageId::AppearanceLigatureRendering => "ligature rendering",
        MessageId::AppearanceStartInputTop => "Start Input at the Top",
        MessageId::AppearancePinInputTop => "Pin Input to the Top",
        MessageId::AppearancePinInputBottom => "Pin Input to the Bottom",
        MessageId::AppearanceToggleInputMode => "Toggle Input Mode (Warp/Classic)",
        MessageId::AppearanceAlwaysShowTabBar => "Always show tab bar",
        MessageId::AppearanceHideTabBarFullscreen => "Hide tab bar if fullscreen",
        MessageId::AppearanceShowTabBarOnHover => "Only show tab bar on hover",
        MessageId::AppearanceHeaderToolbarLayout => "Header toolbar layout",
        MessageId::AppearanceCreateCustomTheme => "Create your own custom theme",
        MessageId::AppearanceWindowOpacity => "Window Opacity",
        MessageId::AppearanceWindowBlur => "Use Window Blur",
        MessageId::AppearanceInputType => "Input type",
        MessageId::AppearanceShowCodeReviewButton => "Show code review button in tab bar",
        MessageId::AppearanceHideCodeReviewButton => "Hide code review button in tab bar",
        MessageId::AppearanceInputModeWarp => "Pin to the bottom (Warp mode)",
        MessageId::AppearanceInputModeReverse => "Pin to the top (Reverse mode)",
        MessageId::AppearanceInputModeClassic => "Start at the top (Classic mode)",
        MessageId::AppearanceThinStrokesNever => "Never",
        MessageId::AppearanceThinStrokesLowDpi => "On low-DPI displays",
        MessageId::AppearanceThinStrokesHighDpi => "On high-DPI displays",
        MessageId::AppearanceThinStrokesAlways => "Always",
        MessageId::AppearanceContrastAlways => "Always",
        MessageId::AppearanceContrastNamedColors => "Only for named colors",
        MessageId::AppearanceNever => "Never",
        MessageId::AppearanceAlways => "Always",
        MessageId::FeaturesCategoryGeneral => "General",
        MessageId::FeaturesCategorySession => "Session",
        MessageId::FeaturesCategoryKeys => "Keys",
        MessageId::FeaturesCategoryTextEditing => "Text Editing",
        MessageId::FeaturesCategoryTerminalInput => "Terminal Input",
        MessageId::FeaturesCategoryTerminal => "Terminal",
        MessageId::FeaturesCategoryNotifications => "Notifications",
        MessageId::FeaturesCategoryWorkflows => "Workflows",
        MessageId::FeaturesCategorySystem => "System",
        MessageId::FeaturesCopyOnSelect => "Copy on select within the terminal",
        MessageId::FeaturesLinuxSelectionClipboard => "Linux selection clipboard",
        MessageId::FeaturesAutocompleteQuotes => "Autocomplete quotes, parentheses, and brackets",
        MessageId::FeaturesRestoreWindows => "Restore windows, tabs, and panes on startup",
        MessageId::FeaturesScrollReporting => "Scroll reporting",
        MessageId::FeaturesCompletionsWhileTyping => "Completions while typing",
        MessageId::FeaturesCommandCorrections => "Command corrections",
        MessageId::FeaturesErrorUnderlining => "Error underlining",
        MessageId::FeaturesSyntaxHighlighting => "Syntax highlighting",
        MessageId::FeaturesAudibleTerminalBell => "Audible terminal bell",
        MessageId::FeaturesAutosuggestions => "Autosuggestions",
        MessageId::FeaturesAutosuggestionKeybindingHint => "Autosuggestion keybinding hint",
        MessageId::FeaturesSshWrapper => "Warp SSH wrapper",
        MessageId::FeaturesLinkTooltip => "Show tooltip on click on links",
        MessageId::FeaturesVimUnnamedRegister => "Vim unnamed register as system clipboard",
        MessageId::FeaturesVimStatusBar => "Vim status bar",
        MessageId::FeaturesWaylandWindowManagement => "Wayland for window management",
        MessageId::FeaturesConfigureGlobalHotkey => "Configure Global Hotkey",
        MessageId::FeaturesMakeDefaultTerminal => "Make Warp the default terminal",
        MessageId::FeaturesLeftOptionMeta => "Left Option key is Meta",
        MessageId::FeaturesRightOptionMeta => "Right Option key is Meta",
        MessageId::FeaturesLeftAltMeta => "Left Alt key is Meta",
        MessageId::FeaturesRightAltMeta => "Right Alt key is Meta",
        MessageId::FeaturesPerformanceWarning => "Setting the limit above 100k lines may impact performance.",
        MessageId::CodeInitializationSettings => "Initialization Settings",
        MessageId::CodeCodebaseIndexing => "Codebase indexing",
        MessageId::CodeCodebaseIndexDescription => "Warp can automatically index code repositories as you navigate them, helping agents quickly understand context and provide solutions. Code is never stored on the server.",
        MessageId::CodeWarpIndexingIgnoreDescription => "To exclude specific files or directories from indexing, add them to the .warpindexingignore file in your repository directory.",
        MessageId::CodeAutoIndexFeatureName => "Index new folders by default",
        MessageId::CodeAutoIndexDescription => "When set to true, Warp will automatically index code repositories as you navigate them.",
        MessageId::CodeIndexingDisabledAdmin => "Team admins have disabled codebase indexing.",
        MessageId::CodeIndexingWorkspaceEnabledAdmin => "Team admins have enabled codebase indexing.",
        MessageId::CodeIndexingDisabledGlobalAi => "AI Features must be enabled to use codebase indexing.",
        MessageId::CodeCodebaseIndexLimitReached => "You have reached the maximum number of codebase indices for your plan.",
        MessageId::CodeCodebaseIndexingCategory => "Codebase Indexing",
        MessageId::CodeEditorAndReviewCategory => "Code Editor and Review",
        MessageId::CodeIndexNewFolder => "Index new folder",
        MessageId::CodeRestartServer => "Restart server",
        MessageId::CodeViewLogs => "View logs",
        MessageId::CodeSyncing => "Syncing...",
        MessageId::CodeSynced => "Synced",
        MessageId::CodeCodebaseTooLarge => "Codebase too large",
        MessageId::CodeInstalled => "Installed",
        MessageId::CodeInstalling => "Installing...",
        MessageId::CodeChecking => "Checking...",
        MessageId::CodeAvailableForDownload => "Available for download",
        MessageId::CodeAvailable => "Available",
        MessageId::CodeBusy => "Busy",
        MessageId::CodeFailed => "Failed",
        MessageId::CodeStopped => "Stopped",
        MessageId::CodeNotRunning => "Not running",
        MessageId::CodeInitializedFolders => "Initialized / indexed folders",
        MessageId::CodeNoFoldersInitialized => "No folders have been initialized yet.",
        MessageId::CodeOpenProjectRules => "Open project rules",
        MessageId::CodeIndexingLabel => "INDEXING",
        MessageId::CodeNoIndexCreated => "No index created",
        MessageId::CodeAutoOpenCodeReview => "Auto open code review panel",
        MessageId::CodeAutoOpenCodeReviewDescription => "When this setting is on, the code review panel will open on the first accepted diff of a conversation",
        MessageId::CodeShowCodeReviewButton => "Show code review button",
        MessageId::CodeShowCodeReviewButtonDescription => "Show a button in the top right of the window to toggle the code review panel.",
        MessageId::CodeShowDiffStats => "Show diff stats on code review button",
        MessageId::CodeShowDiffStatsDescription => "Show lines added and removed counts on the code review button.",
        MessageId::CodeProjectExplorer => "Project explorer",
        MessageId::CodeProjectExplorerDescription => "Adds an IDE-style project explorer / file tree to the left side tools panel.",
        MessageId::CodeGlobalFileSearch => "Global file search",
        MessageId::CodeGlobalFileSearchDescription => "Adds global file search to the left side tools panel.",
        MessageId::PrivacySecretRedaction => "Secret redaction",
        MessageId::PrivacySecretRedactionDescription => "When this setting is enabled, Warp will scan blocks, the contents of Warp Drive objects, and Oz prompts for potential sensitive information and prevent saving or sending this data to any servers.",
        MessageId::PrivacyCustomSecretRedaction => "Custom secret redaction",
        MessageId::PrivacyCustomSecretDescription => "Use regex to define additional secrets or data you'd like to redact. This will take effect when the next command runs.",
        MessageId::PrivacyTelemetryTitle => "Help improve Warp",
        MessageId::PrivacyTelemetryDescription => "App analytics help us make the product better for you. We may collect certain console interactions to improve Warp's AI capabilities.",
        MessageId::PrivacyTelemetryFreeTierNote => "On the free tier, analytics must be enabled to use AI features.",
        MessageId::PrivacyDataManagementTitle => "Manage your data",
        MessageId::PrivacyDataManagementDescription => "At any time, you may choose to delete your Warp account permanently. You will no longer be able to use Warp.",
        MessageId::PrivacyDataManagementLinkText => "Visit the data management page",
        MessageId::PrivacyPrivacyPolicyTitle => "Privacy policy",
        MessageId::PrivacyPrivacyPolicyLinkText => "Read Warp's privacy policy",
        MessageId::BillingOverview => "Overview",
        MessageId::BillingUsageHistory => "Usage History",
        MessageId::BillingViewOverageDetails => "View overage details",
        MessageId::BillingEnableOverages => "Enable overages",
        MessageId::BillingOveragesEnabled => "Overages enabled",
        MessageId::BillingOveragesNotEnabled => "Overages not enabled",
        MessageId::BillingAtoZ => "A to Z",
        MessageId::BillingZtoA => "Z to A",
        MessageId::BillingUsageAscending => "Usage ascending",
        MessageId::BillingUsageDescending => "Usage descending",
        MessageId::BillingEnterpriseUsageCallout => "Contact your team admin for usage details.",
        MessageId::TeamsTeamName => "Team name",
        MessageId::TeamsLeaveTeam => "Leave team",
        MessageId::TeamsDeleteTeam => "Delete team",
        MessageId::TeamsCreate => "Create",
        MessageId::TeamsCreateDescription => "Create a new team to collaborate with your colleagues.",
        MessageId::TeamsDomainsPlaceholder => "Add domains",
        MessageId::TeamsEmailsPlaceholder => "Add email addresses",
        MessageId::TeamsSet => "Set",
        MessageId::TeamsInvite => "Invite",
        MessageId::TeamsInviteLinkInstructions => "Share this link with others to invite them to your team.",
        MessageId::TeamsInviteByEmailExpiry => "Invitations expire after 7 days.",
        MessageId::TeamsOffline => "You appear to be offline.",
        MessageId::ReferralsHeader => "Invite a friend to Warp",
        MessageId::ReferralsAnonymousHeader => "Create an account to start inviting friends",
        MessageId::ReferralsFailedLoad => "Failed to load referral data.",
        MessageId::ReferralsCopyLink => "Copy link",
        MessageId::ReferralsSend => "Send",
        MessageId::ReferralsSending => "Sending...",
        MessageId::ReferralsLoading => "Loading...",
        MessageId::ReferralsLinkCopied => "Link copied!",
        MessageId::ReferralsEmailSuccess => "Invitation sent!",
        MessageId::ReferralsEmailFailure => "Failed to send invitation.",
        MessageId::ReferralsRewardIntro => "You'll both earn rewards when your friend joins Warp.",
        MessageId::ReferralsCurrentReferral => "You have 1 active referral.",
        MessageId::ReferralsCurrentReferrals => "You have {count} active referrals.",
        MessageId::ReferralsCertainRestrictions => "Certain restrictions apply.",
        MessageId::KeybindingsSearchPlaceholder => "Search by name or by keys",
        MessageId::KeybindingsConflictWarning => "This shortcut conflicts with other keybinds",
        MessageId::KeybindingsDefault => "Default",
        MessageId::KeybindingsCancel => "Cancel",
        MessageId::KeybindingsClear => "Clear",
        MessageId::KeybindingsSave => "Save",
        MessageId::WarpDriveSignUpRequired => "To use Warp Drive, please create an account.",
        MessageId::WarpifySubshells => "Subshells",
        MessageId::WarpifySsh => "SSH",
        MessageId::McpServersTitle => "MCP Servers",
        MessageId::EnvironmentsLastEdited => "Last edited:",
        MessageId::EnvironmentsLastUsed => "Last used:",
        MessageId::EnvironmentsViewRuns => "View my runs",
        MessageId::PlatformNewApiKey => "New API key",
        MessageId::ShowBlocksCopyLink => "Copy link",
        MessageId::ShowBlocksDeleting => "Deleting...",
        MessageId::SettingsOpenSettingsFile => "Open settings file",
        MessageId::SettingsDefault => "Default",
    }
}

} // verus!
