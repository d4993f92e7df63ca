use vstd::prelude::*;

use crate::i18n_en_us::{en_us, en_us_text};
use crate::i18n_zh_cn::{zh_cn, zh_cn_text};
use crate::text::str_eq;

verus! {

/// A display language of the application.
#[derive(Clone, Copy, Debug, PartialEq, Eq, Structural)]
pub enum Locale {
    EnUs,
    ZhCn,
}

impl Default for Locale {
    fn default() -> (locale: Self)
        ensures
            locale == Locale::EnUs,
    {
        Locale::EnUs
    }
}

/// Identifies a translatable message of the user interface.
#[derive(Clone, Copy, Debug, PartialEq, Eq, Structural)]
pub enum MessageId {
    SettingsAbout,
    SettingsAccount,
    SettingsAgents,
    SettingsAppearance,
    SettingsBillingAndUsage,
    SettingsCloudEnvironments,
    SettingsCloudPlatform,
    SettingsCode,
    SettingsCodeEditorAndCodeReview,
    SettingsCodeIndexing,
    SettingsFeatures,
    SettingsKeybindings,
    SettingsLanguage,
    SettingsLocalAIProvider,
    SettingsKnowledge,
    SettingsMcpServers,
    SettingsOzCloudApiKeys,
    SettingsPrivacy,
    SettingsProfiles,
    SettingsReferrals,
    SettingsSharedBlocks,
    SettingsTeams,
    SettingsThirdPartyCliAgents,
    SettingsWarpAgent,
    SettingsWarpDrive,
    SettingsWarpify,
    AboutCopyright,
    LanguagePageDescription,
    LanguagePageOptionEnglish,
    LanguagePageOptionSimplifiedChinese,
    LanguagePageRestartNote,
    LanguagePageSelectorLabel,
    MenuAi,
    MenuBlocks,
    MenuDrive,
    MenuEdit,
    MenuFile,
    MenuHelp,
    MenuTab,
    MenuView,
    MenuWindow,
    AppPreferences,
    AppPrivacyPolicy,
    AppDebug,
    AppSetDefaultTerminal,
    AppLogout,
    FileNewWindow,
    FileNewTerminalTab,
    FileNewAgentTab,
    FileNewFile,
    FileReopenClosedSession,
    FileLaunchConfigurations,
    FileOpenRecent,
    FileSaveNew,
    FileClose,
    FileCloseWindow,
    EditUseWarpPrompt,
    EditCopyOnSelect,
    EditSynchronizeInputs,
    ViewToggleMouseReporting,
    ViewToggleScrollReporting,
    ViewToggleFocusReporting,
    ViewCompactMode,
    HelpSendFeedback,
    HelpWarpDocumentation,
    HelpGitHubIssues,
    HelpWarpSlackCommunity,
    DockNewWindow,
    DebugEnableShellDebugMode,
    DebugDisableShellDebugMode,
    DebugEnableInBandGenerators,
    DebugDisableInBandGenerators,
    DebugEnablePtyRecording,
    DebugDisablePtyRecording,
    DebugShowBootstrapBlock,
    DebugHideBootstrapBlock,
    DebugShowInBandCommandBlocks,
    DebugHideInBandCommandBlocks,
    DebugShowSshBlocks,
    DebugHideSshBlocks,
    DebugExportDefaultSettingsCsv,
    DebugToggleNetworkStatus,
    DebugCreateAnonymousUser,
    EditUndo,
    EditRedo,
    EditCut,
    EditCopy,
    EditPaste,
    EditSelectAll,
    EditClearEditor,
    EditFind,
    EditGoToLine,
    EditFocusInput,
    EditAddNextOccurrence,
    EditAddCursorAbove,
    EditAddCursorBelow,
    ViewCommandPalette,
    ViewNavigationPalette,
    ViewLaunchConfigPalette,
    ViewFilesPalette,
    ViewToggleConversationList,
    ViewToggleProjectExplorer,
    ViewToggleGlobalSearch,
    ViewHistory,
    ViewCommandSearch,
    ViewWorkflows,
    ViewIncreaseFontSize,
    ViewDecreaseFontSize,
    ViewResetFontSize,
    ViewIncreaseZoom,
    ViewDecreaseZoom,
    ViewResetZoom,
    ViewToggleWarpDrive,
    TabRename,
    TabSplitRight,
    TabSplitLeft,
    TabSplitDown,
    TabSplitUp,
    TabMoveLeft,
    TabMoveRight,
    TabCycleNext,
    TabCyclePrev,
    TabActivateNextPane,
    TabActivatePrevPane,
    TabMaximizePane,
    TabClose,
    TabCloseOthers,
    TabCloseRight,
    BlocksClear,
    BlocksSelectAbove,
    BlocksSelectBelow,
    BlocksSelectAll,
    BlocksScrollToTop,
    BlocksScrollToBottom,
    BlocksCreatePermalink,
    BlocksToggleBookmark,
    BlocksFindWithin,
    BlocksCopy,
    BlocksCopyCommand,
    BlocksCopyOutput,
    BlocksViewShared,
    AiNewAgentMode,
    AiAttachSelection,
    AiSearch,
    AiOpenFactCollection,
    AiOpenMcpServers,
    DriveNewPersonalWorkflow,
    DriveNewPersonalNotebook,
    DriveNewPersonalAIPrompt,
    DriveNewPersonalEnvVars,
    DriveNewTeamWorkflow,
    DriveNewTeamNotebook,
    DriveNewTeamAIPrompt,
    DriveNewTeamEnvVars,
    DriveSearch,
    DriveOpenTeamSettings,
    DriveSharePaneContents,
    DriveShareSession,
    AppShowAboutWarp,
    AppToggleResourceCenter,
    AppReferAFriend,
    AppShowSettings,
    AppToggleKeybindings,
    AppConfigureKeybindings,
    AppShowAppearance,
    AppViewChangelog,
    SyncAllTerminalInputs,
    SyncTerminalInputsCurrentTab,
    DisableSyncInputs,
    FileOpenRepository,
    AddWindow,
    SettingsSignUp,
    SettingsFree,
    SettingsComparePlans,
    SettingsUpToDate,
    SettingsVersion,
    SettingsLogOut,
    SettingsReferralCta,
    SettingsContactSupport,
    SettingsManageBilling,
    SettingsCheckForUpdates,
    SettingsRelaunchWarp,
    SettingsUpdateAvailable,
    SettingsUpdating,
    SettingsInstalledUpdate,
    SettingsUpdateManually,
    SettingsSettingsSync,
    AppearanceCategoryThemes,
    AppearanceCategoryIcon,
    AppearanceCategoryWindow,
    AppearanceCategoryInput,
    AppearanceCategoryPanes,
    AppearanceCategoryBlocks,
    AppearanceCategoryText,
    AppearanceCategoryCursor,
    AppearanceCategoryTabs,
    AppearanceCategoryFullscreenApps,
    AppearanceCompactMode,
    AppearanceSyncWithOs,
    AppearanceCursorBlink,
    AppearanceJumpToBottom,
    AppearanceBlockDividers,
    AppearanceDimInactivePanes,
    AppearanceTabIndicators,
    AppearanceFocusFollowsMouse,
    AppearanceZenMode,
    AppearanceVerticalTabLayout,
    AppearanceLigatureRendering,
    AppearanceStartInputTop,
    AppearancePinInputTop,
    AppearancePinInputBottom,
    AppearanceToggleInputMode,
    AppearanceAlwaysShowTabBar,
    AppearanceHideTabBarFullscreen,
    AppearanceShowTabBarOnHover,
    AppearanceHeaderToolbarLayout,
    AppearanceCreateCustomTheme,
    AppearanceWindowOpacity,
    AppearanceWindowBlur,
    AppearanceInputType,
    AppearanceShowCodeReviewButton,
    AppearanceHideCodeReviewButton,
    AppearanceInputModeWarp,
    AppearanceInputModeReverse,
    AppearanceInputModeClassic,
    AppearanceThinStrokesNever,
    AppearanceThinStrokesLowDpi,
    AppearanceThinStrokesHighDpi,
    AppearanceThinStrokesAlways,
    AppearanceContrastAlways,
    AppearanceContrastNamedColors,
    AppearanceNever,
    AppearanceAlways,
    FeaturesCategoryGeneral,
    FeaturesCategorySession,
    FeaturesCategoryKeys,
    FeaturesCategoryTextEditing,
    FeaturesCategoryTerminalInput,
    FeaturesCategoryTerminal,
    FeaturesCategoryNotifications,
    FeaturesCategoryWorkflows,
    FeaturesCategorySystem,
    FeaturesCopyOnSelect,
    FeaturesLinuxSelectionClipboard,
    FeaturesAutocompleteQuotes,
    FeaturesRestoreWindows,
    FeaturesScrollReporting,
    FeaturesCompletionsWhileTyping,
    FeaturesCommandCorrections,
    FeaturesErrorUnderlining,
    FeaturesSyntaxHighlighting,
    FeaturesAudibleTerminalBell,
    FeaturesAutosuggestions,
    FeaturesAutosuggestionKeybindingHint,
    FeaturesSshWrapper,
    FeaturesLinkTooltip,
    FeaturesVimUnnamedRegister,
    FeaturesVimStatusBar,
    FeaturesWaylandWindowManagement,
    FeaturesConfigureGlobalHotkey,
    FeaturesMakeDefaultTerminal,
    FeaturesLeftOptionMeta,
    FeaturesRightOptionMeta,
    FeaturesLeftAltMeta,
    FeaturesRightAltMeta,
    FeaturesPerformanceWarning,
    CodeInitializationSettings,
    CodeCodebaseIndexing,
    CodeCodebaseIndexDescription,
    CodeWarpIndexingIgnoreDescription,
    CodeAutoIndexFeatureName,
    CodeAutoIndexDescription,
    CodeIndexingDisabledAdmin,
    CodeIndexingWorkspaceEnabledAdmin,
    CodeIndexingDisabledGlobalAi,
    CodeCodebaseIndexLimitReached,
    CodeCodebaseIndexingCategory,
    CodeEditorAndReviewCategory,
    CodeIndexNewFolder,
    CodeRestartServer,
    CodeViewLogs,
    CodeSyncing,
    CodeSynced,
    CodeCodebaseTooLarge,
    CodeInstalled,
    CodeInstalling,
    CodeChecking,
    CodeAvailableForDownload,
    CodeAvailable,
    CodeBusy,
    CodeFailed,
    CodeStopped,
    CodeNotRunning,
    CodeInitializedFolders,
    CodeNoFoldersInitialized,
    CodeOpenProjectRules,
    CodeIndexingLabel,
    CodeNoIndexCreated,
    CodeAutoOpenCodeReview,
    CodeAutoOpenCodeReviewDescription,
    CodeShowCodeReviewButton,
    CodeShowCodeReviewButtonDescription,
    CodeShowDiffStats,
    CodeShowDiffStatsDescription,
    CodeProjectExplorer,
    CodeProjectExplorerDescription,
    CodeGlobalFileSearch,
    CodeGlobalFileSearchDescription,
    PrivacySecretRedaction,
    PrivacySecretRedactionDescription,
    PrivacyCustomSecretRedaction,
    PrivacyCustomSecretDescription,
    PrivacyTelemetryTitle,
    PrivacyTelemetryDescription,
    PrivacyTelemetryFreeTierNote,
    PrivacyDataManagementTitle,
    PrivacyDataManagementDescription,
    PrivacyDataManagementLinkText,
    PrivacyPrivacyPolicyTitle,
    PrivacyPrivacyPolicyLinkText,
    BillingOverview,
    BillingUsageHistory,
    BillingViewOverageDetails,
    BillingEnableOverages,
    BillingOveragesEnabled,
    BillingOveragesNotEnabled,
    BillingAtoZ,
    BillingZtoA,
    BillingUsageAscending,
    BillingUsageDescending,
    BillingEnterpriseUsageCallout,
    TeamsTeamName,
    TeamsLeaveTeam,
    TeamsDeleteTeam,
    TeamsCreate,
    TeamsCreateDescription,
    TeamsDomainsPlaceholder,
    TeamsEmailsPlaceholder,
    TeamsSet,
    TeamsInvite,
    TeamsInviteLinkInstructions,
    TeamsInviteByEmailExpiry,
    TeamsOffline,
    ReferralsHeader,
    ReferralsAnonymousHeader,
    ReferralsFailedLoad,
    ReferralsCopyLink,
    ReferralsSend,
    ReferralsSending,
    ReferralsLoading,
    ReferralsLinkCopied,
    ReferralsEmailSuccess,
    ReferralsEmailFailure,
    ReferralsRewardIntro,
    ReferralsCurrentReferral,
    ReferralsCurrentReferrals,
    ReferralsCertainRestrictions,
    KeybindingsSearchPlaceholder,
    KeybindingsConflictWarning,
    KeybindingsDefault,
    KeybindingsCancel,
    KeybindingsClear,
    KeybindingsSave,
    WarpDriveSignUpRequired,
    WarpifySubshells,
    WarpifySsh,
    McpServersTitle,
    EnvironmentsLastEdited,
    EnvironmentsLastUsed,
    EnvironmentsViewRuns,
    PlatformNewApiKey,
    ShowBlocksCopyLink,
    ShowBlocksDeleting,
    SettingsOpenSettingsFile,
    SettingsDefault,
}

/// The byte that stores a locale.
pub open spec fn locale_code(locale: Locale) -> u8 {
    match locale {
        Locale::EnUs => 0,
        Locale::ZhCn => 1,
    }
}

/// The locale that a stored byte denotes: 1 is Simplified Chinese, every other byte English.
pub open spec fn locale_of_code(value: u8) -> Locale {
    if value == 1 {
        Locale::ZhCn
    } else {
        Locale::EnUs
    }
}

/// The identifier under which a locale is persisted in the settings file.
pub open spec fn locale_string_id(locale: Locale) -> Seq<char> {
    match locale {
        Locale::EnUs => "en-US"@,
        Locale::ZhCn => "zh-CN"@,
    }
}

/// The locale that a persisted identifier denotes: only `zh-CN` selects Simplified Chinese.
pub open spec fn locale_of_string_id(id: Seq<char>) -> Locale {
    if id == "zh-CN"@ {
        Locale::ZhCn
    } else {
        Locale::EnUs
    }
}

/// The text of a message in a locale.
pub open spec fn message_text(locale: Locale, message_id: MessageId) -> Seq<char> {
    match locale {
        Locale::EnUs => en_us_text(message_id),
        Locale::ZhCn => zh_cn_text(message_id),
    }
}

impl Locale {
    pub fn from_u8(value: u8) -> (locale: Self)
        ensures
            locale == locale_of_code(value),
    {
        match value {
            1 => Locale::ZhCn,
            _ => Locale::EnUs,
        }
    }

    pub fn to_u8(&self) -> (value: u8)
        ensures
            value == locale_code(*self),
    {
        match self {
            Locale::EnUs => 0,
            Locale::ZhCn => 1,
        }
    }

    pub fn to_string_id(&self) -> (id: &'static str)
        ensures
            id@ == locale_string_id(*self),
    {
        match self {
            Locale::EnUs => "en-US",
            Locale::ZhCn => "zh-CN",
        }
    }

    pub fn from_string_id(id: &str) -> (locale: Self)
        ensures
            locale == locale_of_string_id(id@),
    {
        if str_eq(id, "zh-CN") {
            Locale::ZhCn
        } else {
            Locale::EnUs
        }
    }
}

/// The application's current display locale, stored as one byte.
pub struct LocaleState {
    code: u8,
}

impl View for LocaleState {
    type V = Locale;

    closed spec fn view(&self) -> Locale {
        locale_of_code(self.code)
    }
}

impl LocaleState {
    /// The state at start-up: Simplified Chinese.
    pub fn new() -> (state: Self)
        ensures
            state@ == Locale::ZhCn,
    {
        LocaleState { code: 1 }
    }
}

pub fn current_locale(state: &LocaleState) -> (locale: Locale)
    ensures
        locale == state@,
{
    Locale::from_u8(state.code)
}

pub fn set_current_locale(state: &mut LocaleState, locale: Locale)
    ensures
        final(state)@ == locale,
{
    state.code = locale.to_u8();
}

/// Sets the current locale from the identifier that the settings store holds; an identifier
/// other than `zh-CN` selects English.
pub fn init_locale_from_settings(state: &mut LocaleState, stored_locale: &str)
    ensures
        final(state)@ == locale_of_string_id(stored_locale@),
{
    let locale = Locale::from_string_id(stored_locale);
    set_current_locale(state, locale);
}

/// Looks up the text of a message in a locale.
pub fn tr(locale: Locale, message_id: MessageId) -> (text: &'static str)
    ensures
        text@ == message_text(locale, message_id),
{
    match locale {
        Locale::EnUs => en_us(message_id),
        Locale::ZhCn => zh_cn(message_id),
    }
}

/// Reading a locale back from its persisted identifier gives the locale.
pub proof fn lemma_locale_string_id_round_trip(locale: Locale)
    ensures
        locale_of_string_id(locale_string_id(locale)) == locale,
{
    reveal_strlit("en-US");
    reveal_strlit("zh-CN");
    if locale == Locale::EnUs {
        assert("en-US"@[0] != "zh-CN"@[0]);
    }
}

/// Reading a locale back from its stored byte gives the locale.
pub proof fn lemma_locale_code_round_trip(locale: Locale)
    ensures
        locale_of_code(locale_code(locale)) == locale,
{
}

} // verus!
