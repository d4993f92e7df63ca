use vstd::prelude::*;

use crate::settings_dictionary::settings_zh_cn_literal_text;

verus! {

// The settings dictionary entry by entry: each English string with the rendering of its first
// entry in the table of settings renderings.

/// The lengths of the English strings of block 0 of the settings dictionary, and the
/// characters that tell strings of equal length apart.
proof fn lemma_dictionary_keys_0()
    ensures
        " to continue."@.len() == 13,
        " to continue."@[0] == ' ',
        "Account"@.len() == 7,
        "Account"@[0] == 'A',
        "Account"@[1] == 'c',
        "Add-on credits"@.len() == 14,
        "Add-on credits"@[0] == 'A',
        "Add-on credits"@[1] == 'd',
        "Add-on credits"@[3] == '-',
        "Add-on credits are purchased in prepaid packages that roll over each billing cycle and expire after one year. The more you purchase, the better the per-credit rate. Once your base plan credits are used, add-on credits will be consumed."@.len() == 235,
        "Add-on credits are purchased in prepaid packages that roll over each billing cycle and expire after one year. The more you purchase, the better the per-credit rate. Once your base plan credits are used, add-on credits will be consumed. Purchased add-on credits are shared across your team."@.len() == 289,
        "Appearance"@.len() == 10,
        "Appearance"@[0] == 'A',
        "Appearance"@[1] == 'p',
        "Ask a team admin to enable overages for more AI usage."@.len() == 54,
        "Auto reload is disabled due to recent failed reload. Please update your payment method and try again."@.len() == 101,
        "Auto reload is disabled due to recent failed reload. Please update your payment method and try again."@[0] == 'A',
        "Auto reload is disabled, as the next reload would exceed your monthly spend limit. Increase your limit to use auto reload."@.len() == 122,
        "Billing and usage"@.len() == 17,
        "Billing and usage"@[0] == 'B',
        "Buy more"@.len() == 8,
        "Buy more"@[0] == 'B',
        "Buy more"@[1] == 'u',
        "Cancel"@.len() == 6,
        "Cancel"@[0] == 'C',
        "Cancel"@[1] == 'a',
        "Clear"@.len() == 5,
        "Clear"@[0] == 'C',
        "Cloud agent trial"@.len() == 17,
        "Cloud agent trial"@[0] == 'C',
        "Cloud agent trial"@[1] == 'l',
        "Code Editor and Review"@.len() == 22,
        "Code Editor and Review"@[0] == 'C',
        "Codebase Indexing"@.len() == 17,
        "Codebase Indexing"@[0] == 'C',
        "Codebase Indexing"@[1] == 'o',
        "Codebase Indexing"@[2] == 'd',
        "Codebase Indexing"@[9] == 'I',
        "Continue using premium models beyond your plan's limits. Usage is charged in $20 increments up to your spending limit, with any remaining balance charged on your scheduled billing date."@.len() == 185,
        "Custom"@.len() == 6,
        "Custom"@[0] == 'C',
        "Custom"@[1] == 'u',
        "Custom"@[2] == 's',
        "Default"@.len() == 7,
        "Default"@[0] == 'D',
        "Edit config"@.len() == 11,
        "Edit config"@[0] == 'E',
        "Enterprise credit usage isn't fully available in this view yet. Contact a team admin for detailed usage reporting."@.len() == 114,
        "Enterprise credit usage isn't fully available in this view yet. Contact a team admin for detailed usage reporting."@[0] == 'E',
        "Enterprise credit usage isn't fully available in this view yet. For the most accurate spend tracking, "@.len() == 102,
        "Failed to update workspace settings"@.len() == 35,
        "Failed to update workspace settings"@[0] == 'F',
        "Failed to update workspace settings"@[10] == 'u',
        "Features"@.len() == 8,
        "Features"@[0] == 'F',
        "Increase your limit"@.len() == 19,
        "Increase your limit"@[0] == 'I',
        "Increase your limit"@[2] == 'c',
        "Keyboard shortcuts"@.len() == 18,
        "Keyboard shortcuts"@[0] == 'K',
        "Keyboard shortcuts"@[3] == 'b',
        "Load more"@.len() == 9,
        "Load more"@[0] == 'L',
        "Load more"@[1] == 'o',
        "MCP Servers"@.len() == 11,
        "MCP Servers"@[0] == 'M',
        "MCP Servers"@[1] == 'C',
        "Monthly overage spending limit"@.len() == 30,
        "Monthly overage spending limit"@[0] == 'M',
        "Monthly overage spending limit"@[1] == 'o',
        "Monthly spending limit"@.len() == 22,
        "Monthly spending limit"@[0] == 'M',
        "Monthly spending limit"@[1] == 'o',
        "New agent"@.len() == 9,
        "New agent"@[0] == 'N',
        "New agent"@[2] == 'w',
        "No settings match your search."@.len() == 30,
        "No settings match your search."@[0] == 'N',
        "Not set"@.len() == 7,
        "Not set"@[0] == 'N',
        "Not set"@[1] == 'o',
        "Overage spending limit"@.len() == 22,
        "Overage spending limit"@[0] == 'O',
        "Oz Cloud API Keys"@.len() == 17,
        "Oz Cloud API Keys"@[0] == 'O',
        "Oz Cloud API Keys"@[1] == 'z',
        "Privacy"@.len() == 7,
        "Privacy"@[0] == 'P',
        "Privacy"@[1] == 'r',
        "Purchased add-on credits are shared across your team."@.len() == 53,
        "Purchased add-on credits are shared across your team."@[0] == 'P',
        "Reloading would exceed your monthly limit. "@.len() == 43,
        "Reloading would exceed your monthly limit. "@[0] == 'R',
        "Reloading would exceed your monthly limit. "@[2] == 'l',
        "Reset to default"@.len() == 16,
        "Reset to default"@[0] == 'R',
        "Reset to default"@[2] == 's',
        "Restricted due to billing issue. Update your payment method to purchase add-on credits."@.len() == 87,
        "Save"@.len() == 4,
        "Save"@[0] == 'S',
        "Save"@[1] == 'a',
        "Search"@.len() == 6,
        "Search"@[0] == 'S',
        "Search"@[1] == 'e',
        "Search"@[2] == 'a',
        "Search MCP Servers"@.len() == 18,
        "Search MCP Servers"@[0] == 'S',
        "Search MCP Servers"@[1] == 'e',
        "Search MCP Servers"@[2] == 'a',
        "Set up"@.len() == 6,
        "Set up"@[0] == 'S',
        "Set up"@[1] == 'e',
        "Set up"@[2] == 't',
        "Sets the monthly overage spending limit beyond the plan amount"@.len() == 62,
        "Sets the monthly overage spending limit beyond the plan amount"@[0] == 'S',
        "Sets the monthly overage spending limit beyond the plan amount"@[1] == 'e',
        "Successfully purchased add-on credits"@.len() == 37,
        "Successfully purchased add-on credits"@[0] == 'S',
        "Successfully purchased add-on credits"@[1] == 'u',
        "Successfully purchased add-on credits"@[13] == 'p',
        "This setting is not synced to your other devices"@.len() == 48,
        "This setting is not synced to your other devices"@[0] == 'T',
        "This setting is not synced to your other devices"@[1] == 'h',
        "Usage reporting is currently limited"@.len() == 36,
        "Usage reporting is currently limited"@[0] == 'U',
        "You may want to try using different keywords or checking for any possible typos."@.len() == 80,
        "You may want to try using different keywords or checking for any possible typos."@[0] == 'Y',
        "visit the admin panel"@.len() == 21,
        "visit the admin panel"@[0] == 'v',
{
    reveal_strlit(" to continue.");
    reveal_strlit("Account");
    reveal_strlit("Add-on credits");
    reveal_strlit("Add-on credits are purchased in prepaid packages that roll over each billing cycle and expire after one year. The more you purchase, the better the per-credit rate. Once your base plan credits are used, add-on credits will be consumed.");
    reveal_strlit("Add-on credits are purchased in prepaid packages that roll over each billing cycle and expire after one year. The more you purchase, the better the per-credit rate. Once your base plan credits are used, add-on credits will be consumed. Purchased add-on credits are shared across your team.");
    reveal_strlit("Appearance");
    reveal_strlit("Ask a team admin to enable overages for more AI usage.");
    reveal_strlit("Auto reload is disabled due to recent failed reload. Please update your payment method and try again.");
    reveal_strlit("Auto reload is disabled, as the next reload would exceed your monthly spend limit. Increase your limit to use auto reload.");
    reveal_strlit("Billing and usage");
    reveal_strlit("Buy more");
    reveal_strlit("Cancel");
    reveal_strlit("Clear");
    reveal_strlit("Cloud agent trial");
    reveal_strlit("Code Editor and Review");
    reveal_strlit("Codebase Indexing");
    reveal_strlit("Continue using premium models beyond your plan's limits. Usage is charged in $20 increments up to your spending limit, with any remaining balance charged on your scheduled billing date.");
    reveal_strlit("Custom");
    reveal_strlit("Default");
    reveal_strlit("Edit config");
    reveal_strlit("Enterprise credit usage isn't fully available in this view yet. Contact a team admin for detailed usage reporting.");
    reveal_strlit("Enterprise credit usage isn't fully available in this view yet. For the most accurate spend tracking, ");
    reveal_strlit("Failed to update workspace settings");
    reveal_strlit("Features");
    reveal_strlit("Increase your limit");
    reveal_strlit("Keyboard shortcuts");
    reveal_strlit("Load more");
    reveal_strlit("MCP Servers");
    reveal_strlit("Monthly overage spending limit");
    reveal_strlit("Monthly spending limit");
    reveal_strlit("New agent");
    reveal_strlit("No settings match your search.");
    reveal_strlit("Not set");
    reveal_strlit("Overage spending limit");
    reveal_strlit("Oz Cloud API Keys");
    reveal_strlit("Privacy");
    reveal_strlit("Purchased add-on credits are shared across your team.");
    reveal_strlit("Reloading would exceed your monthly limit. ");
    reveal_strlit("Reset to default");
    reveal_strlit("Restricted due to billing issue. Update your payment method to purchase add-on credits.");
    reveal_strlit("Save");
    reveal_strlit("Search");
    reveal_strlit("Search MCP Servers");
    reveal_strlit("Set up");
    reveal_strlit("Sets the monthly overage spending limit beyond the plan amount");
    reveal_strlit("Successfully purchased add-on credits");
    reveal_strlit("This setting is not synced to your other devices");
    reveal_strlit("Usage reporting is currently limited");
    reveal_strlit("You may want to try using different keywords or checking for any possible typos.");
    reveal_strlit("visit the admin panel");
}

/// The lengths of the English strings of block 1 of the settings dictionary, and the
/// characters that tell strings of equal length apart.
proof fn lemma_dictionary_keys_1()
    ensures
        " to purchase add-on credits."@.len() == 28,
        " to purchase add-on credits."@[0] == ' ',
        "+ Create API Key"@.len() == 16,
        "+ Create API Key"@[0] == '+',
        "+ Create API Key"@[2] == 'C',
        "1 credit"@.len() == 8,
        "1 credit"@[0] == '1',
        "1 credit remaining"@.len() == 18,
        "1 credit remaining"@[0] == '1',
        "1 day"@.len() == 5,
        "1 day"@[0] == '1',
        "30 days"@.len() == 7,
        "30 days"@[0] == '3',
        "90 days"@.len() == 7,
        "90 days"@[0] == '9',
        "Auto reload"@.len() == 11,
        "Auto reload"@[0] == 'A',
        "Auto reload"@[1] == 'u',
        "Classic"@.len() == 7,
        "Classic"@[0] == 'C',
        "Classic"@[1] == 'l',
        "Compact"@.len() == 7,
        "Compact"@[0] == 'C',
        "Compact"@[1] == 'o',
        "Compact"@[2] == 'm',
        "Contact a team admin to purchase add-on credits."@.len() == 48,
        "Contact a team admin to purchase add-on credits."@[0] == 'C',
        "Contact your Account Executive for more add-on credits."@.len() == 55,
        "Contact your Account Executive for more add-on credits."@[0] == 'C',
        "Create a key to manage external access to Warp"@.len() == 46,
        "Create a key to manage external access to Warp"@[0] == 'C',
        "Create and manage API keys to allow other Oz cloud agents to access your Warp account."@.len() == 86,
        "Create and manage API keys to allow other Oz cloud agents to access your Warp account."@[0] == 'C',
        "Create and manage API keys to allow other Oz cloud agents to access your Warp account.\nFor more information, visit the "@.len() == 119,
        "Create key"@.len() == 10,
        "Create key"@[0] == 'C',
        "Created"@.len() == 7,
        "Created"@[0] == 'C',
        "Created"@[1] == 'r',
        "Created"@[3] == 'a',
        "Creating..."@.len() == 11,
        "Creating..."@[0] == 'C',
        "Creating..."@[1] == 'r',
        "Creating..."@[5] == 'i',
        "Dark"@.len() == 4,
        "Dark"@[0] == 'D',
        "Dark"@[1] == 'a',
        "Documentation."@.len() == 14,
        "Documentation."@[0] == 'D',
        "Documentation."@[1] == 'o',
        "Done"@.len() == 4,
        "Done"@[0] == 'D',
        "Done"@[1] == 'o',
        "Expiration"@.len() == 10,
        "Expiration"@[0] == 'E',
        "Expiration"@[5] == 'a',
        "Expires at"@.len() == 10,
        "Expires at"@[0] == 'E',
        "Expires at"@[5] == 'e',
        "For more information, visit the "@.len() == 32,
        "For more information, visit the "@[0] == 'F',
        "For more information, visit the "@[1] == 'o',
        "Input type"@.len() == 10,
        "Input type"@[0] == 'I',
        "Key"@.len() == 3,
        "Key"@[0] == 'K',
        "Last used"@.len() == 9,
        "Last used"@[0] == 'L',
        "Last used"@[1] == 'a',
        "Light"@.len() == 5,
        "Light"@[0] == 'L',
        "Monthly spend limit"@.len() == 19,
        "Monthly spend limit"@[0] == 'M',
        "Name"@.len() == 4,
        "Name"@[0] == 'N',
        "Name"@[1] == 'a',
        "Never"@.len() == 5,
        "Never"@[0] == 'N',
        "New API key"@.len() == 11,
        "New API key"@[0] == 'N',
        "New API key"@[1] == 'e',
        "No API Keys"@.len() == 11,
        "No API Keys"@[0] == 'N',
        "No API Keys"@[1] == 'o',
        "No API Keys"@[2] == ' ',
        "Note that AI credits made near your chosen limit may exceed it by a few dollars."@.len() == 80,
        "Note that AI credits made near your chosen limit may exceed it by a few dollars."@[0] == 'N',
        "Personal"@.len() == 8,
        "Personal"@[0] == 'P',
        "Personal"@[1] == 'e',
        "Please enter a price between $0.01 and $10,000,000"@.len() == 50,
        "Please enter a price between $0.01 and $10,000,000"@[0] == 'P',
        "Please enter a valid currency amount"@.len() == 36,
        "Please enter a valid currency amount"@[0] == 'P',
        "Purchased this month"@.len() == 20,
        "Purchased this month"@[0] == 'P',
        "Purchased this month"@[1] == 'u',
        "Scope"@.len() == 5,
        "Scope"@[0] == 'S',
        "Scope"@[1] == 'c',
        "Sets the monthly limit spent on add-on credits"@.len() == 46,
        "Sets the monthly limit spent on add-on credits"@[0] == 'S',
        "Switch to the Build plan"@.len() == 24,
        "Switch to the Build plan"@[0] == 'S',
        "Switch to the Build plan"@[1] == 'w',
        "Team"@.len() == 4,
        "Team"@[0] == 'T',
        "Team"@[1] == 'e',
        "Team"@[2] == 'a',
        "Themes"@.len() == 6,
        "Themes"@[0] == 'T',
        "This API key is tied to your team and can make requests on behalf of your team."@.len() == 79,
        "This API key is tied to your user and can make requests against your Warp account."@.len() == 82,
        "This API key is tied to your user and can make requests against your Warp account."@[0] == 'T',
        "Type"@.len() == 4,
        "Type"@[0] == 'T',
        "Type"@[1] == 'y',
        "Upgrade to the Build plan"@.len() == 25,
        "Upgrade to the Build plan"@[0] == 'U',
        "Warp"@.len() == 4,
        "Warp"@[0] == 'W',
        "Warp API Key"@.len() == 12,
        "Warp API Key"@[0] == 'W',
        "Warp will prevent use of premium models when this dollar limit is reached. Resets on a monthly basis."@.len() == 101,
        "Warp will prevent use of premium models when this dollar limit is reached. Resets on a monthly basis."@[0] == 'W',
        "Warp will prevent use of premium models when this dollar limit is reached. Resets on a monthly basis."@[1] == 'a',
{
    reveal_strlit(" to purchase add-on credits.");
    reveal_strlit("+ Create API Key");
    reveal_strlit("1 credit");
    reveal_strlit("1 credit remaining");
    reveal_strlit("1 day");
    reveal_strlit("30 days");
    reveal_strlit("90 days");
    reveal_strlit("Auto reload");
    reveal_strlit("Classic");
    reveal_strlit("Compact");
    reveal_strlit("Contact a team admin to purchase add-on credits.");
    reveal_strlit("Contact your Account Executive for more add-on credits.");
    reveal_strlit("Create a key to manage external access to Warp");
    reveal_strlit("Create and manage API keys to allow other Oz cloud agents to access your Warp account.");
    reveal_strlit("Create and manage API keys to allow other Oz cloud agents to access your Warp account.\nFor more information, visit the ");
    reveal_strlit("Create key");
    reveal_strlit("Created");
    reveal_strlit("Creating...");
    reveal_strlit("Dark");
    reveal_strlit("Documentation.");
    reveal_strlit("Done");
    reveal_strlit("Expiration");
    reveal_strlit("Expires at");
    reveal_strlit("For more information, visit the ");
    reveal_strlit("Input type");
    reveal_strlit("Key");
    reveal_strlit("Last used");
    reveal_strlit("Light");
    reveal_strlit("Monthly spend limit");
    reveal_strlit("Name");
    reveal_strlit("Never");
    reveal_strlit("New API key");
    reveal_strlit("No API Keys");
    reveal_strlit("Note that AI credits made near your chosen limit may exceed it by a few dollars.");
    reveal_strlit("Personal");
    reveal_strlit("Please enter a price between $0.01 and $10,000,000");
    reveal_strlit("Please enter a valid currency amount");
    reveal_strlit("Purchased this month");
    reveal_strlit("Scope");
    reveal_strlit("Sets the monthly limit spent on add-on credits");
    reveal_strlit("Switch to the Build plan");
    reveal_strlit("Team");
    reveal_strlit("Themes");
    reveal_strlit("This API key is tied to your team and can make requests on behalf of your team.");
    reveal_strlit("This API key is tied to your user and can make requests against your Warp account.");
    reveal_strlit("Type");
    reveal_strlit("Upgrade to the Build plan");
    reveal_strlit("Warp");
    reveal_strlit("Warp API Key");
    reveal_strlit("Warp will prevent use of premium models when this dollar limit is reached. Resets on a monthly basis.");
}

/// The lengths of the English strings of block 2 of the settings dictionary, and the
/// characters that tell strings of equal length apart.
proof fn lemma_dictionary_keys_2()
    ensures
        "Always show tab bar"@.len() == 19,
        "Always show tab bar"@[0] == 'A',
        "Always show tab bar"@[1] == 'l',
        "Block dividers"@.len() == 14,
        "Block dividers"@[0] == 'B',
        "Blocks"@.len() == 6,
        "Blocks"@[0] == 'B',
        "Compact Mode"@.len() == 12,
        "Compact Mode"@[0] == 'C',
        "Compact Mode"@[1] == 'o',
        "Compact Mode"@[2] == 'm',
        "Compact Mode"@[8] == 'M',
        "Compact mode"@.len() == 12,
        "Compact mode"@[0] == 'C',
        "Compact mode"@[1] == 'o',
        "Compact mode"@[2] == 'm',
        "Compact mode"@[8] == 'm',
        "Cursor"@.len() == 6,
        "Cursor"@[0] == 'C',
        "Cursor"@[1] == 'u',
        "Cursor"@[2] == 'r',
        "Cursor blink"@.len() == 12,
        "Cursor blink"@[0] == 'C',
        "Cursor blink"@[1] == 'u',
        "Dim inactive panes"@.len() == 18,
        "Dim inactive panes"@[0] == 'D',
        "Dim inactive panes"@[1] == 'i',
        "Focus follows mouse"@.len() == 19,
        "Focus follows mouse"@[0] == 'F',
        "Focus follows mouse"@[1] == 'o',
        "Fullscreen apps"@.len() == 15,
        "Fullscreen apps"@[0] == 'F',
        "General"@.len() == 7,
        "General"@[0] == 'G',
        "Hide code review button in tab bar"@.len() == 34,
        "Hide code review button in tab bar"@[0] == 'H',
        "Hide tab bar if fullscreen"@.len() == 26,
        "Hide tab bar if fullscreen"@[0] == 'H',
        "Icon"@.len() == 4,
        "Icon"@[0] == 'I',
        "Input"@.len() == 5,
        "Input"@[0] == 'I',
        "Keys"@.len() == 4,
        "Keys"@[0] == 'K',
        "Match terminal"@.len() == 14,
        "Match terminal"@[0] == 'M',
        "Match terminal"@[1] == 'a',
        "Match terminal"@[2] == 't',
        "Notifications"@.len() == 13,
        "Notifications"@[0] == 'N',
        "Only show tab bar on hover"@.len() == 26,
        "Only show tab bar on hover"@[0] == 'O',
        "Panes"@.len() == 5,
        "Panes"@[0] == 'P',
        "Pin Input to the Bottom"@.len() == 23,
        "Pin Input to the Bottom"@[0] == 'P',
        "Pin Input to the Top"@.len() == 20,
        "Pin Input to the Top"@[0] == 'P',
        "Pin Input to the Top"@[1] == 'i',
        "Plan"@.len() == 4,
        "Plan"@[0] == 'P',
        "Referrals"@.len() == 9,
        "Referrals"@[0] == 'R',
        "Referrals"@[2] == 'f',
        "Session"@.len() == 7,
        "Session"@[0] == 'S',
        "Session"@[1] == 'e',
        "Session"@[2] == 's',
        "Show code review button in tab bar"@.len() == 34,
        "Show code review button in tab bar"@[0] == 'S',
        "Show code review button in tab bar"@[6] == 'o',
        "Start Input at the Top"@.len() == 22,
        "Start Input at the Top"@[0] == 'S',
        "Start Input at the Top"@[1] == 't',
        "Sync with OS"@.len() == 12,
        "Sync with OS"@[0] == 'S',
        "Sync with OS"@[1] == 'y',
        "System"@.len() == 6,
        "System"@[0] == 'S',
        "System"@[1] == 'y',
        "System"@[2] == 's',
        "Tab indicators"@.len() == 14,
        "Tab indicators"@[0] == 'T',
        "Tab indicators"@[1] == 'a',
        "Tabs"@.len() == 4,
        "Tabs"@[0] == 'T',
        "Tabs"@[1] == 'a',
        "Terminal"@.len() == 8,
        "Terminal"@[0] == 'T',
        "Terminal"@[1] == 'e',
        "Terminal Input"@.len() == 14,
        "Terminal Input"@[0] == 'T',
        "Terminal Input"@[1] == 'e',
        "Text"@.len() == 4,
        "Text"@[0] == 'T',
        "Text"@[1] == 'e',
        "Text"@[2] == 'x',
        "Text Editing"@.len() == 12,
        "Text Editing"@[0] == 'T',
        "Text Editing"@[2] == 'x',
        "Toggle Input Mode (Warp/Classic)"@.len() == 32,
        "Toggle Input Mode (Warp/Classic)"@[0] == 'T',
        "Usage"@.len() == 5,
        "Usage"@[0] == 'U',
        "View all available system fonts"@.len() == 31,
        "View all available system fonts"@[0] == 'V',
        "Window"@.len() == 6,
        "Window"@[0] == 'W',
        "Workflows"@.len() == 9,
        "Workflows"@[0] == 'W',
        "Zen mode"@.len() == 8,
        "Zen mode"@[0] == 'Z',
        "block dividers"@.len() == 14,
        "block dividers"@[0] == 'b',
        "compact mode"@.len() == 12,
        "compact mode"@[0] == 'c',
        "compact mode"@[1] == 'o',
        "cursor blink"@.len() == 12,
        "cursor blink"@[0] == 'c',
        "cursor blink"@[1] == 'u',
        "dim inactive panes"@.len() == 18,
        "dim inactive panes"@[0] == 'd',
        "focus follows mouse"@.len() == 19,
        "focus follows mouse"@[0] == 'f',
        "jump to bottom of block button"@.len() == 30,
        "jump to bottom of block button"@[0] == 'j',
        "tab indicators"@.len() == 14,
        "tab indicators"@[0] == 't',
        "themes: sync with OS"@.len() == 20,
        "themes: sync with OS"@[0] == 't',
        "zen mode"@.len() == 8,
        "zen mode"@[0] == 'z',
{
    reveal_strlit("Always show tab bar");
    reveal_strlit("Block dividers");
    reveal_strlit("Blocks");
    reveal_strlit("Compact Mode");
    reveal_strlit("Compact mode");
    reveal_strlit("Cursor");
    reveal_strlit("Cursor blink");
    reveal_strlit("Dim inactive panes");
    reveal_strlit("Focus follows mouse");
    reveal_strlit("Fullscreen apps");
    reveal_strlit("General");
    reveal_strlit("Hide code review button in tab bar");
    reveal_strlit("Hide tab bar if fullscreen");
    reveal_strlit("Icon");
    reveal_strlit("Input");
    reveal_strlit("Keys");
    reveal_strlit("Match terminal");
    reveal_strlit("Notifications");
    reveal_strlit("Only show tab bar on hover");
    reveal_strlit("Panes");
    reveal_strlit("Pin Input to the Bottom");
    reveal_strlit("Pin Input to the Top");
    reveal_strlit("Plan");
    reveal_strlit("Referrals");
    reveal_strlit("Session");
    reveal_strlit("Show code review button in tab bar");
    reveal_strlit("Start Input at the Top");
    reveal_strlit("Sync with OS");
    reveal_strlit("System");
    reveal_strlit("Tab indicators");
    reveal_strlit("Tabs");
    reveal_strlit("Terminal");
    reveal_strlit("Terminal Input");
    reveal_strlit("Text");
    reveal_strlit("Text Editing");
    reveal_strlit("Toggle Input Mode (Warp/Classic)");
    reveal_strlit("Usage");
    reveal_strlit("View all available system fonts");
    reveal_strlit("Window");
    reveal_strlit("Workflows");
    reveal_strlit("Zen mode");
    reveal_strlit("block dividers");
    reveal_strlit("compact mode");
    reveal_strlit("cursor blink");
    reveal_strlit("dim inactive panes");
    reveal_strlit("focus follows mouse");
    reveal_strlit("jump to bottom of block button");
    reveal_strlit("tab indicators");
    reveal_strlit("themes: sync with OS");
    reveal_strlit("zen mode");
}

/// The lengths of the English strings of block 3 of the settings dictionary, and the
/// characters that tell strings of equal length apart.
proof fn lemma_dictionary_keys_3()
    ensures
        "Add regex pattern"@.len() == 17,
        "Add regex pattern"@[0] == 'A',
        "Add regex pattern"@[1] == 'd',
        "Audible terminal bell"@.len() == 21,
        "Audible terminal bell"@[0] == 'A',
        "Autocomplete quotes and brackets"@.len() == 32,
        "Autocomplete quotes and brackets"@[0] == 'A',
        "Autohides on loss of keyboard focus"@.len() == 35,
        "Autohides on loss of keyboard focus"@[0] == 'A',
        "Autosuggestions"@.len() == 15,
        "Autosuggestions"@[0] == 'A',
        "Autosuggestions"@[1] == 'u',
        "Change keybinding"@.len() == 17,
        "Change keybinding"@[0] == 'C',
        "Change keybinding"@[1] == 'h',
        "Change keybinding"@[2] == 'a',
        "Click to set global hotkey"@.len() == 26,
        "Click to set global hotkey"@[0] == 'C',
        "Code"@.len() == 4,
        "Code"@[0] == 'C',
        "Codebase indexing"@.len() == 17,
        "Codebase indexing"@[0] == 'C',
        "Codebase indexing"@[1] == 'o',
        "Codebase indexing"@[2] == 'd',
        "Codebase indexing"@[9] == 'i',
        "Command corrections"@.len() == 19,
        "Command corrections"@[0] == 'C',
        "Copy on Select"@.len() == 14,
        "Copy on Select"@[0] == 'C',
        "Cursor type is disabled in Vim mode"@.len() == 35,
        "Cursor type is disabled in Vim mode"@[0] == 'C',
        "Cursor type is disabled in Vim mode"@[1] == 'u',
        "Custom secret redaction"@.len() == 23,
        "Custom secret redaction"@[0] == 'C',
        "Custom secret redaction"@[1] == 'u',
        "Custom secret redaction"@[6] == ' ',
        "Directory path"@.len() == 14,
        "Directory path"@[0] == 'D',
        "Directory path"@[1] == 'i',
        "Enable SSH Wrapper"@.len() == 18,
        "Enable SSH Wrapper"@[0] == 'E',
        "Enable SSH Wrapper"@[1] == 'n',
        "Error underlining"@.len() == 17,
        "Error underlining"@[0] == 'E',
        "Error underlining"@[1] == 'r',
        "Executable path"@.len() == 15,
        "Executable path"@[0] == 'E',
        "Executable path"@[1] == 'x',
        "Executable path"@[2] == 'e',
        "Failed"@.len() == 6,
        "Failed"@[0] == 'F',
        "Font size (px)"@.len() == 14,
        "Font size (px)"@[0] == 'F',
        "Font weight"@.len() == 11,
        "Font weight"@[0] == 'F',
        "INDEXING"@.len() == 8,
        "INDEXING"@[0] == 'I',
        "Index new folders by default"@.len() == 28,
        "Index new folders by default"@[0] == 'I',
        "Initialization Settings"@.len() == 23,
        "Initialization Settings"@[0] == 'I',
        "Initialized / indexed folders"@.len() == 29,
        "Initialized / indexed folders"@[0] == 'I',
        "Keybinding"@.len() == 10,
        "Keybinding"@[0] == 'K',
        "LSP SERVERS"@.len() == 11,
        "LSP SERVERS"@[0] == 'L',
        "LSP SERVERS"@[1] == 'S',
        "Left Alt as Meta"@.len() == 16,
        "Left Alt as Meta"@[0] == 'L',
        "Left Alt as Meta"@[1] == 'e',
        "Left Option as Meta"@.len() == 19,
        "Left Option as Meta"@[0] == 'L',
        "Ligatures may reduce performance"@.len() == 32,
        "Ligatures may reduce performance"@[0] == 'L',
        "Line height"@.len() == 11,
        "Line height"@[0] == 'L',
        "Line height"@[1] == 'i',
        "Line height"@[3] == 'e',
        "Link tooltip"@.len() == 12,
        "Link tooltip"@[0] == 'L',
        "Link tooltip"@[1] == 'i',
        "Make Warp default terminal"@.len() == 26,
        "Make Warp default terminal"@[0] == 'M',
        "No folders have been initialized yet."@.len() == 37,
        "No folders have been initialized yet."@[0] == 'N',
        "No index created"@.len() == 16,
        "No index created"@[0] == 'N',
        "No index created"@[3] == 'i',
        "Not supported on Wayland. "@.len() == 26,
        "Not supported on Wayland. "@[0] == 'N',
        "Notebook font size"@.len() == 18,
        "Notebook font size"@[0] == 'N',
        "Notebook font size"@[2] == 't',
        "Open completions menu as you type"@.len() == 33,
        "Open completions menu as you type"@[0] == 'O',
        "Open completions menu as you type"@[5] == 'c',
        "Restart server"@.len() == 14,
        "Restart server"@[0] == 'R',
        "Restore windows, tabs, and panes on startup"@.len() == 43,
        "Restore windows, tabs, and panes on startup"@[0] == 'R',
        "Restore windows, tabs, and panes on startup"@[2] == 's',
        "Right Alt as Meta"@.len() == 17,
        "Right Alt as Meta"@[0] == 'R',
        "Right Option as Meta"@.len() == 20,
        "Right Option as Meta"@[0] == 'R',
        "Scroll reporting"@.len() == 16,
        "Scroll reporting"@[0] == 'S',
        "Scroll reporting"@[1] == 'c',
        "Secret redaction"@.len() == 16,
        "Secret redaction"@[0] == 'S',
        "Secret redaction"@[1] == 'e',
        "Secret redaction"@[2] == 'c',
        "See docs."@.len() == 9,
        "See docs."@[0] == 'S',
        "See docs."@[1] == 'e',
        "Syntax highlighting"@.len() == 19,
        "Syntax highlighting"@[0] == 'S',
        "Syntax highlighting"@[1] == 'y',
        "Tab key behavior"@.len() == 16,
        "Tab key behavior"@[0] == 'T',
        "View logs"@.len() == 9,
        "View logs"@[0] == 'V',
        "Vim status bar"@.len() == 14,
        "Vim status bar"@[0] == 'V',
        "Vim unnamed register"@.len() == 20,
        "Vim unnamed register"@[0] == 'V',
        "seconds"@.len() == 7,
        "seconds"@[0] == 's',
{
    reveal_strlit("Add regex pattern");
    reveal_strlit("Audible terminal bell");
    reveal_strlit("Autocomplete quotes and brackets");
    reveal_strlit("Autohides on loss of keyboard focus");
    reveal_strlit("Autosuggestions");
    reveal_strlit("Change keybinding");
    reveal_strlit("Click to set global hotkey");
    reveal_strlit("Code");
    reveal_strlit("Codebase indexing");
    reveal_strlit("Command corrections");
    reveal_strlit("Copy on Select");
    reveal_strlit("Cursor type is disabled in Vim mode");
    reveal_strlit("Custom secret redaction");
    reveal_strlit("Directory path");
    reveal_strlit("Enable SSH Wrapper");
    reveal_strlit("Error underlining");
    reveal_strlit("Executable path");
    reveal_strlit("Failed");
    reveal_strlit("Font size (px)");
    reveal_strlit("Font weight");
    reveal_strlit("INDEXING");
    reveal_strlit("Index new folders by default");
    reveal_strlit("Initialization Settings");
    reveal_strlit("Initialized / indexed folders");
    reveal_strlit("Keybinding");
    reveal_strlit("LSP SERVERS");
    reveal_strlit("Left Alt as Meta");
    reveal_strlit("Left Option as Meta");
    reveal_strlit("Ligatures may reduce performance");
    reveal_strlit("Line height");
    reveal_strlit("Link tooltip");
    reveal_strlit("Make Warp default terminal");
    reveal_strlit("No folders have been initialized yet.");
    reveal_strlit("No index created");
    reveal_strlit("Not supported on Wayland. ");
    reveal_strlit("Notebook font size");
    reveal_strlit("Open completions menu as you type");
    reveal_strlit("Restart server");
    reveal_strlit("Restore windows, tabs, and panes on startup");
    reveal_strlit("Right Alt as Meta");
    reveal_strlit("Right Option as Meta");
    reveal_strlit("Scroll reporting");
    reveal_strlit("Secret redaction");
    reveal_strlit("See docs.");
    reveal_strlit("Syntax highlighting");
    reveal_strlit("Tab key behavior");
    reveal_strlit("View logs");
    reveal_strlit("Vim status bar");
    reveal_strlit("Vim unnamed register");
    reveal_strlit("seconds");
}

/// The lengths of the English strings of block 4 of the settings dictionary, and the
/// characters that tell strings of equal length apart.
proof fn lemma_dictionary_keys_4()
    ensures
        "A to Z"@.len() == 6,
        "A to Z"@[0] == 'A',
        "A to Z"@[1] == ' ',
        "Add regex"@.len() == 9,
        "Add regex"@[0] == 'A',
        "Add regex"@[1] == 'd',
        "Agents"@.len() == 6,
        "Agents"@[0] == 'A',
        "Agents"@[1] == 'g',
        "Backpack"@.len() == 8,
        "Backpack"@[0] == 'B',
        "Backpack"@[1] == 'a',
        "Backpack"@[2] == 'c',
        "Baseball cap"@.len() == 12,
        "Baseball cap"@[0] == 'B',
        "Check for updates"@.len() == 17,
        "Check for updates"@[0] == 'C',
        "Check for updates"@[1] == 'h',
        "Check for updates"@[2] == 'e',
        "Compare plans"@.len() == 13,
        "Compare plans"@[0] == 'C',
        "Compare plans"@[1] == 'o',
        "Compare plans"@[2] == 'm',
        "Compare plans"@[4] == 'a',
        "Contact support"@.len() == 15,
        "Contact support"@[0] == 'C',
        "Contact support"@[1] == 'o',
        "Data management"@.len() == 15,
        "Data management"@[0] == 'D',
        "Enable premium model usage overages"@.len() == 35,
        "Enable premium model usage overages"@[0] == 'E',
        "Enable premium model usage overages"@[7] == 'p',
        "Exclusive theme"@.len() == 15,
        "Exclusive theme"@[0] == 'E',
        "Exclusive theme"@[1] == 'x',
        "Exclusive theme"@[2] == 'c',
        "Free"@.len() == 4,
        "Free"@[0] == 'F',
        "Hoodie"@.len() == 6,
        "Hoodie"@[0] == 'H',
        "Installed update"@.len() == 16,
        "Installed update"@[0] == 'I',
        "Installed update"@[2] == 's',
        "Invalid regex"@.len() == 13,
        "Invalid regex"@[0] == 'I',
        "Invalid regex"@[2] == 'v',
        "Keycaps + stickers"@.len() == 18,
        "Keycaps + stickers"@[0] == 'K',
        "Keycaps + stickers"@[3] == 'c',
        "Log out"@.len() == 7,
        "Log out"@[0] == 'L',
        "Log out"@[2] == 'g',
        "MODELS"@.len() == 6,
        "MODELS"@[0] == 'M',
        "MODELS"@[1] == 'O',
        "Manage billing"@.len() == 14,
        "Manage billing"@[0] == 'M',
        "Manage billing"@[1] == 'a',
        "Manage billing"@[2] == 'n',
        "Models"@.len() == 6,
        "Models"@[0] == 'M',
        "Models"@[1] == 'o',
        "Name (optional)"@.len() == 15,
        "Name (optional)"@[0] == 'N',
        "Name (optional)"@[1] == 'a',
        "No enterprise regexes have been configured by your organization."@.len() == 64,
        "None"@.len() == 4,
        "None"@[0] == 'N',
        "None"@[1] == 'o',
        "Notebook"@.len() == 8,
        "Notebook"@[0] == 'N',
        "One-time purchase"@.len() == 17,
        "One-time purchase"@[0] == 'O',
        "One-time purchase"@[1] == 'n',
        "Overview"@.len() == 8,
        "Overview"@[0] == 'O',
        "PERMISSIONS"@.len() == 11,
        "PERMISSIONS"@[0] == 'P',
        "Premium Hydro Flask"@.len() == 19,
        "Premium Hydro Flask"@[0] == 'P',
        "Premium model usage overages are enabled"@.len() == 40,
        "Premium model usage overages are enabled"@[0] == 'P',
        "Premium model usage overages are not enabled"@.len() == 44,
        "Premium model usage overages are not enabled"@[0] == 'P',
        "Privacy policy"@.len() == 14,
        "Privacy policy"@[0] == 'P',
        "Regex pattern"@.len() == 13,
        "Regex pattern"@[0] == 'R',
        "Regex pattern"@[2] == 'g',
        "Relaunch Warp"@.len() == 13,
        "Relaunch Warp"@[0] == 'R',
        "Relaunch Warp"@[2] == 'l',
        "Settings Sync"@.len() == 13,
        "Settings Sync"@[0] == 'S',
        "Sign up"@.len() == 7,
        "Sign up"@[0] == 'S',
        "Sign up"@[1] == 'i',
        "T-shirt"@.len() == 7,
        "T-shirt"@[0] == 'T',
        "Telemetry"@.len() == 9,
        "Telemetry"@[0] == 'T',
        "Telemetry"@[2] == 'l',
        "Total overages"@.len() == 14,
        "Total overages"@[0] == 'T',
        "Total overages"@[1] == 'o',
        "Total overages"@[2] == 't',
        "Up to date"@.len() == 10,
        "Up to date"@[0] == 'U',
        "Update available"@.len() == 16,
        "Update available"@[0] == 'U',
        "Update available"@[1] == 'p',
        "Update available"@[2] == 'd',
        "Update manually"@.len() == 15,
        "Update manually"@[0] == 'U',
        "Update manually"@[1] == 'p',
        "Updating"@.len() == 8,
        "Updating"@[0] == 'U',
        "Usage History"@.len() == 13,
        "Usage History"@[0] == 'U',
        "Usage History"@[1] == 's',
        "Usage History"@[2] == 'a',
        "Usage ascending"@.len() == 15,
        "Usage ascending"@[0] == 'U',
        "Usage ascending"@[1] == 's',
        "Usage descending"@.len() == 16,
        "Usage descending"@[0] == 'U',
        "Usage descending"@[1] == 's',
        "Usage descending"@[2] == 'a',
        "Version"@.len() == 7,
        "Version"@[0] == 'V',
        "View details on overage usage"@.len() == 29,
        "View details on overage usage"@[0] == 'V',
        "Z to A"@.len() == 6,
        "Z to A"@[0] == 'Z',
        "ZDR"@.len() == 3,
        "ZDR"@[0] == 'Z',
        "e.g. \"Google API Key\""@.len() == 21,
        "e.g. \"Google API Key\""@[0] == 'e',
{
    reveal_strlit("A to Z");
    reveal_strlit("Add regex");
    reveal_strlit("Agents");
    reveal_strlit("Backpack");
    reveal_strlit("Baseball cap");
    reveal_strlit("Check for updates");
    reveal_strlit("Compare plans");
    reveal_strlit("Contact support");
    reveal_strlit("Data management");
    reveal_strlit("Enable premium model usage overages");
    reveal_strlit("Exclusive theme");
    reveal_strlit("Free");
    reveal_strlit("Hoodie");
    reveal_strlit("Installed update");
    reveal_strlit("Invalid regex");
    reveal_strlit("Keycaps + stickers");
    reveal_strlit("Log out");
    reveal_strlit("MODELS");
    reveal_strlit("Manage billing");
    reveal_strlit("Models");
    reveal_strlit("Name (optional)");
    reveal_strlit("No enterprise regexes have been configured by your organization.");
    reveal_strlit("None");
    reveal_strlit("Notebook");
    reveal_strlit("One-time purchase");
    reveal_strlit("Overview");
    reveal_strlit("PERMISSIONS");
    reveal_strlit("Premium Hydro Flask");
    reveal_strlit("Premium model usage overages are enabled");
    reveal_strlit("Premium model usage overages are not enabled");
    reveal_strlit("Privacy policy");
    reveal_strlit("Regex pattern");
    reveal_strlit("Relaunch Warp");
    reveal_strlit("Settings Sync");
    reveal_strlit("Sign up");
    reveal_strlit("T-shirt");
    reveal_strlit("Telemetry");
    reveal_strlit("Total overages");
    reveal_strlit("Up to date");
    reveal_strlit("Update available");
    reveal_strlit("Update manually");
    reveal_strlit("Updating");
    reveal_strlit("Usage History");
    reveal_strlit("Usage ascending");
    reveal_strlit("Usage descending");
    reveal_strlit("Version");
    reveal_strlit("View details on overage usage");
    reveal_strlit("Z to A");
    reveal_strlit("ZDR");
    reveal_strlit("e.g. \"Google API Key\"");
}

/// The lengths of the English strings of block 5 of the settings dictionary, and the
/// characters that tell strings of equal length apart.
proof fn lemma_dictionary_keys_5()
    ensures
        "Add Profile"@.len() == 11,
        "Add Profile"@[0] == 'A',
        "Add Profile"@[1] == 'd',
        "Agent decides"@.len() == 13,
        "Agent decides"@[0] == 'A',
        "Agent decides"@[1] == 'g',
        "Allow in specific directories"@.len() == 29,
        "Allow in specific directories"@[0] == 'A',
        "Always allow"@.len() == 12,
        "Always allow"@[0] == 'A',
        "Always allow"@[1] == 'l',
        "Always ask"@.len() == 10,
        "Always ask"@[0] == 'A',
        "Always ask"@[1] == 'l',
        "Apply code diffs"@.len() == 16,
        "Apply code diffs"@[0] == 'A',
        "Ask on first write"@.len() == 18,
        "Ask on first write"@[0] == 'A',
        "Ask on first write"@[1] == 's',
        "Ask unless auto-approve"@.len() == 23,
        "Ask unless auto-approve"@[0] == 'A',
        "Ask unless auto-approve"@[1] == 's',
        "Call MCP servers"@.len() == 16,
        "Call MCP servers"@[0] == 'C',
        "Call MCP servers"@[1] == 'a',
        "Commands, comma separated"@.len() == 25,
        "Commands, comma separated"@[0] == 'C',
        "Commit & Pull Request Generation"@.len() == 32,
        "Commit & Pull Request Generation"@[0] == 'C',
        "Commit & Pull Request Generation"@[4] == 'i',
        "Context window (tokens)"@.len() == 23,
        "Context window (tokens)"@[0] == 'C',
        "Context window (tokens)"@[1] == 'o',
        "Credits"@.len() == 7,
        "Credits"@[0] == 'C',
        "Credits"@[1] == 'r',
        "Credits"@[3] == 'd',
        "Execute commands"@.len() == 16,
        "Execute commands"@[0] == 'E',
        "Interact with running commands"@.len() == 30,
        "Interact with running commands"@[0] == 'I',
        "Last 30 days"@.len() == 12,
        "Last 30 days"@[0] == 'L',
        "Last 30 days"@[1] == 'a',
        "Last 30 days"@[2] == 's',
        "Let AI generate a title for your shared block based on the command and output."@.len() == 78,
        "Let AI generate commit messages and pull request titles and descriptions."@.len() == 73,
        "Let AI generate commit messages and pull request titles and descriptions."@[0] == 'L',
        "Let AI suggest code diffs and queries as inline banners in the blocklist, based on recent commands and their outputs."@.len() == 117,
        "Let AI suggest natural language autosuggestions, based on recent commands and their outputs."@.len() == 92,
        "Let AI suggest natural language prompts, as inline banners in the input, based on recent commands and their outputs."@.len() == 116,
        "Let AI suggest the next command to run based on your command history, outputs, and common workflows."@.len() == 100,
        "Let AI suggest the next command to run based on your command history, outputs, and common workflows."@[0] == 'L',
        "Natural Language Autosuggestions"@.len() == 32,
        "Natural Language Autosuggestions"@[0] == 'N',
        "Never ask"@.len() == 9,
        "Never ask"@[0] == 'N',
        "Never ask"@[2] == 'v',
        "Next Command"@.len() == 12,
        "Next Command"@[0] == 'N',
        "No usage history"@.len() == 16,
        "No usage history"@[0] == 'N',
        "No usage history"@[3] == 'u',
        "Off"@.len() == 3,
        "Off"@[0] == 'O',
        "On"@.len() == 2,
        "On"@[0] == 'O',
        "Profiles"@.len() == 8,
        "Profiles"@[0] == 'P',
        "Profiles"@[1] == 'r',
        "Profiles let you define how your Agent operates — from the actions it can take and when it needs approval, to the models it uses for tasks like coding and planning. You can also scope them to individual projects."@.len() == 212,
        "Prompt Suggestions"@.len() == 18,
        "Prompt Suggestions"@[0] == 'P',
        "Read files"@.len() == 10,
        "Read files"@[0] == 'R',
        "Read files"@[1] == 'e',
        "Read only"@.len() == 9,
        "Read only"@[0] == 'R',
        "Read only"@[2] == 'a',
        "Restricted due to billing issue"@.len() == 31,
        "Restricted due to billing issue"@[0] == 'R',
        "Select MCP servers"@.len() == 18,
        "Select MCP servers"@[0] == 'S',
        "Select MCP servers"@[1] == 'e',
        "Select MCP servers"@[2] == 'l',
        "Set the boundaries for how your Agent operates. Choose what it can access, how much autonomy it has, and when it must ask for your approval. You can also fine-tune behavior around natural language input, codebase awareness, and more."@.len() == 233,
        "Shared Block Title Generation"@.len() == 29,
        "Shared Block Title Generation"@[0] == 'S',
        "Show model picker in prompt"@.len() == 27,
        "Show model picker in prompt"@[0] == 'S',
        "Some of your permissions are managed by your workspace."@.len() == 55,
        "Some of your permissions are managed by your workspace."@[0] == 'S',
        "Sort by"@.len() == 7,
        "Sort by"@[0] == 'S',
        "Sort by"@[1] == 'o',
        "Suggested Code Banners"@.len() == 22,
        "Suggested Code Banners"@[0] == 'S',
        "Suggested Code Banners"@[1] == 'u',
        "Suggested Code Banners"@[2] == 'g',
        "Supervised"@.len() == 10,
        "Supervised"@[0] == 'S',
        "Supervised"@[1] == 'u',
        "This model serves as the primary engine behind the Warp Agent. It powers most interactions and invokes other models for tasks like planning or code generation when necessary. Warp may automatically switch to alternate models based on model availability or for auxiliary tasks such as conversation summarization."@.len() == 311,
        "To use AI features, please create an account."@.len() == 45,
        "To use AI features, please create an account."@[0] == 'T',
        "Toolbar layout"@.len() == 14,
        "Toolbar layout"@[0] == 'T',
        "Toolbar layout"@[1] == 'o',
        "Toolbar layout"@[2] == 'o',
        "Unlimited"@.len() == 9,
        "Unlimited"@[0] == 'U',
        "Warp Agent"@.len() == 10,
        "Warp Agent"@[0] == 'W',
        "e.g. ls .*"@.len() == 10,
        "e.g. ls .*"@[0] == 'e',
        "e.g. ls .*"@[5] == 'l',
        "e.g. rm .*"@.len() == 10,
        "e.g. rm .*"@[0] == 'e',
        "e.g. rm .*"@[5] == 'r',
        "e.g. ~/code-repos/repo"@.len() == 22,
        "e.g. ~/code-repos/repo"@[0] == 'e',
{
    reveal_strlit("Add Profile");
    reveal_strlit("Agent decides");
    reveal_strlit("Allow in specific directories");
    reveal_strlit("Always allow");
    reveal_strlit("Always ask");
    reveal_strlit("Apply code diffs");
    reveal_strlit("Ask on first write");
    reveal_strlit("Ask unless auto-approve");
    reveal_strlit("Call MCP servers");
    reveal_strlit("Commands, comma separated");
    reveal_strlit("Commit & Pull Request Generation");
    reveal_strlit("Context window (tokens)");
    reveal_strlit("Credits");
    reveal_strlit("Execute commands");
    reveal_strlit("Interact with running commands");
    reveal_strlit("Last 30 days");
    reveal_strlit("Let AI generate a title for your shared block based on the command and output.");
    reveal_strlit("Let AI generate commit messages and pull request titles and descriptions.");
    reveal_strlit("Let AI suggest code diffs and queries as inline banners in the blocklist, based on recent commands and their outputs.");
    reveal_strlit("Let AI suggest natural language autosuggestions, based on recent commands and their outputs.");
    reveal_strlit("Let AI suggest natural language prompts, as inline banners in the input, based on recent commands and their outputs.");
    reveal_strlit("Let AI suggest the next command to run based on your command history, outputs, and common workflows.");
    reveal_strlit("Natural Language Autosuggestions");
    reveal_strlit("Never ask");
    reveal_strlit("Next Command");
    reveal_strlit("No usage history");
    reveal_strlit("Off");
    reveal_strlit("On");
    reveal_strlit("Profiles");
    reveal_strlit("Profiles let you define how your Agent operates — from the actions it can take and when it needs approval, to the models it uses for tasks like coding and planning. You can also scope them to individual projects.");
    reveal_strlit("Prompt Suggestions");
    reveal_strlit("Read files");
    reveal_strlit("Read only");
    reveal_strlit("Restricted due to billing issue");
    reveal_strlit("Select MCP servers");
    reveal_strlit("Set the boundaries for how your Agent operates. Choose what it can access, how much autonomy it has, and when it must ask for your approval. You can also fine-tune behavior around natural language input, codebase awareness, and more.");
    reveal_strlit("Shared Block Title Generation");
    reveal_strlit("Show model picker in prompt");
    reveal_strlit("Some of your permissions are managed by your workspace.");
    reveal_strlit("Sort by");
    reveal_strlit("Suggested Code Banners");
    reveal_strlit("Supervised");
    reveal_strlit("This model serves as the primary engine behind the Warp Agent. It powers most interactions and invokes other models for tasks like planning or code generation when necessary. Warp may automatically switch to alternate models based on model availability or for auxiliary tasks such as conversation summarization.");
    reveal_strlit("To use AI features, please create an account.");
    reveal_strlit("Toolbar layout");
    reveal_strlit("Unlimited");
    reveal_strlit("Warp Agent");
    reveal_strlit("e.g. ls .*");
    reveal_strlit("e.g. rm .*");
    reveal_strlit("e.g. ~/code-repos/repo");
}

/// The lengths of the English strings of block 6 of the settings dictionary, and the
/// characters that tell strings of equal length apart.
proof fn lemma_dictionary_keys_6()
    ensures
        " or "@.len() == 4,
        " or "@[0] == ' ',
        "ADMIN"@.len() == 5,
        "ADMIN"@[0] == 'A',
        "ADMIN"@[1] == 'D',
        "Add a server"@.len() == 12,
        "Add a server"@[0] == 'A',
        "Add a server"@[1] == 'd',
        "Allow the Warp Agent to call these MCP servers."@.len() == 47,
        "Allow the Warp Agent to call these MCP servers."@[1] == 'l',
        "Allow the Warp Agent to call these MCP servers."@[3] == 'o',
        "Allow the Warp Agent to generate an outline of your codebase that can be used for context. No code is ever stored on our servers. "@.len() == 130,
        "Cancel invite"@.len() == 13,
        "Cancel invite"@[0] == 'C',
        "Cancel invite"@[1] == 'a',
        "Command allowlist"@.len() == 17,
        "Command allowlist"@[0] == 'C',
        "Command allowlist"@[1] == 'o',
        "Command allowlist"@[2] == 'm',
        "Command allowlist"@[8] == 'a',
        "Command denylist"@.len() == 16,
        "Command denylist"@[0] == 'C',
        "Command denylist"@[1] == 'o',
        "Create"@.len() == 6,
        "Create"@[0] == 'C',
        "Create"@[1] == 'r',
        "Create Team"@.len() == 11,
        "Create Team"@[0] == 'C',
        "Create Team"@[1] == 'r',
        "Create Team"@[5] == 'e',
        "Create a team"@.len() == 13,
        "Create a team"@[0] == 'C',
        "Create a team"@[1] == 'r',
        "Delete Team"@.len() == 11,
        "Delete Team"@[0] == 'D',
        "Delete Team"@[2] == 'l',
        "Delete Team"@[5] == 'e',
        "Delete Team"@[7] == 'T',
        "Delete team"@.len() == 11,
        "Delete team"@[0] == 'D',
        "Delete team"@[2] == 'l',
        "Delete team"@[5] == 'e',
        "Delete team"@[7] == 't',
        "Demote from admin"@.len() == 17,
        "Demote from admin"@[0] == 'D',
        "Directory allowlist"@.len() == 19,
        "Directory allowlist"@[0] == 'D',
        "Directory allowlist"@[1] == 'i',
        "EXPIRED"@.len() == 7,
        "EXPIRED"@[0] == 'E',
        "EXPIRED"@[1] == 'X',
        "Give the agent file access to certain directories."@.len() == 50,
        "Give the agent file access to certain directories."@[0] == 'G',
        "Invite by Email"@.len() == 15,
        "Invite by Email"@[0] == 'I',
        "Invite by Link"@.len() == 14,
        "Invite by Link"@[0] == 'I',
        "Invite by Link"@[2] == 'v',
        "Leave Team"@.len() == 10,
        "Leave Team"@[0] == 'L',
        "Leave Team"@[1] == 'e',
        "Leave Team"@[3] == 'v',
        "Leave Team"@[6] == 'T',
        "Leave team"@.len() == 10,
        "Leave team"@[0] == 'L',
        "Leave team"@[1] == 'e',
        "Leave team"@[3] == 'v',
        "Leave team"@[6] == 't',
        "MCP allowlist"@.len() == 13,
        "MCP allowlist"@[0] == 'M',
        "MCP allowlist"@[4] == 'a',
        "MCP denylist"@.len() == 12,
        "MCP denylist"@[0] == 'M',
        "Make team discoverable"@.len() == 22,
        "Make team discoverable"@[0] == 'M',
        "Make team discoverable"@[1] == 'a',
        "Manage plan"@.len() == 11,
        "Manage plan"@[0] == 'M',
        "Manage plan"@[1] == 'a',
        "OWNER"@.len() == 5,
        "OWNER"@[0] == 'O',
        "Or, join an existing team within your company"@.len() == 45,
        "Or, join an existing team within your company"@[0] == 'O',
        "PAST DUE"@.len() == 8,
        "PAST DUE"@[0] == 'P',
        "PAST DUE"@[1] == 'A',
        "PENDING"@.len() == 7,
        "PENDING"@[0] == 'P',
        "PENDING"@[1] == 'E',
        "Promote to admin"@.len() == 16,
        "Promote to admin"@[0] == 'P',
        "Promote to admin"@[3] == 'm',
        "Regular expressions to match commands that can be automatically executed by the Warp Agent."@.len() == 91,
        "Regular expressions to match commands that the Warp Agent should always ask permission to execute."@.len() == 98,
        "Remove domain"@.len() == 13,
        "Remove domain"@[0] == 'R',
        "Remove domain"@[2] == 'm',
        "Remove from team"@.len() == 16,
        "Remove from team"@[0] == 'R',
        "Remove from team"@[2] == 'm',
        "Reset links"@.len() == 11,
        "Reset links"@[0] == 'R',
        "Reset links"@[2] == 's',
        "Restrict by domain"@.len() == 18,
        "Restrict by domain"@[0] == 'R',
        "Restrict by domain"@[3] == 't',
        "Search by name or by keys (ex. \"cmd d\")"@.len() == 39,
        "Search by name or by keys (ex. \"cmd d\")"@[1] == 'e',
        "Search by name or by keys (ex. \"cmd d\")"@[2] == 'a',
        "Team Members"@.len() == 12,
        "Team Members"@[0] == 'T',
        "Team Members"@[2] == 'a',
        "Team Members"@[5] == 'M',
        "Team members"@.len() == 12,
        "Team members"@[0] == 'T',
        "Team members"@[2] == 'a',
        "Team members"@[5] == 'm',
        "Team name"@.len() == 9,
        "Team name"@[0] == 'T',
        "Team name"@[2] == 'a',
        "Teams"@.len() == 5,
        "Teams"@[0] == 'T',
        "The Warp Agent will always ask for permission before calling any MCP servers on this list."@.len() == 90,
        "The Warp Agent will always ask for permission before calling any MCP servers on this list."@[0] == 'T',
        "This credit limit is prorated because this user joined midway through the billing cycle."@.len() == 88,
        "This credit limit is prorated because this user joined midway through the billing cycle."@[0] == 'T',
        "Transfer"@.len() == 8,
        "Transfer"@[0] == 'T',
        "Transfer"@[1] == 'r',
        "Transfer ownership"@.len() == 18,
        "Transfer ownership"@[0] == 'T',
        "Transfer team ownership?"@.len() == 24,
        "Transfer team ownership?"@[0] == 'T',
        "UNPAID"@.len() == 6,
        "UNPAID"@[0] == 'U',
        "UNPAID"@[1] == 'N',
        "You haven't added any MCP servers yet. Once you do, you'll be able to control how much autonomy the Warp Agent has when interacting with them. "@.len() == 143,
        "Your credit limit is prorated because you joined midway through the billing cycle."@.len() == 82,
        "Your credit limit is prorated because you joined midway through the billing cycle."@[0] == 'Y',
        "learn more about MCPs."@.len() == 22,
        "learn more about MCPs."@[0] == 'l',
{
    reveal_strlit(" or ");
    reveal_strlit("ADMIN");
    reveal_strlit("Add a server");
    reveal_strlit("Allow the Warp Agent to call these MCP servers.");
    reveal_strlit("Allow the Warp Agent to generate an outline of your codebase that can be used for context. No code is ever stored on our servers. ");
    reveal_strlit("Cancel invite");
    reveal_strlit("Command allowlist");
    reveal_strlit("Command denylist");
    reveal_strlit("Create");
    reveal_strlit("Create Team");
    reveal_strlit("Create a team");
    reveal_strlit("Delete Team");
    reveal_strlit("Delete team");
    reveal_strlit("Demote from admin");
    reveal_strlit("Directory allowlist");
    reveal_strlit("EXPIRED");
    reveal_strlit("Give the agent file access to certain directories.");
    reveal_strlit("Invite by Email");
    reveal_strlit("Invite by Link");
    reveal_strlit("Leave Team");
    reveal_strlit("Leave team");
    reveal_strlit("MCP allowlist");
    reveal_strlit("MCP denylist");
    reveal_strlit("Make team discoverable");
    reveal_strlit("Manage plan");
    reveal_strlit("OWNER");
    reveal_strlit("Or, join an existing team within your company");
    reveal_strlit("PAST DUE");
    reveal_strlit("PENDING");
    reveal_strlit("Promote to admin");
    reveal_strlit("Regular expressions to match commands that can be automatically executed by the Warp Agent.");
    reveal_strlit("Regular expressions to match commands that the Warp Agent should always ask permission to execute.");
    reveal_strlit("Remove domain");
    reveal_strlit("Remove from team");
    reveal_strlit("Reset links");
    reveal_strlit("Restrict by domain");
    reveal_strlit("Search by name or by keys (ex. \"cmd d\")");
    reveal_strlit("Team Members");
    reveal_strlit("Team members");
    reveal_strlit("Team name");
    reveal_strlit("Teams");
    reveal_strlit("The Warp Agent will always ask for permission before calling any MCP servers on this list.");
    reveal_strlit("This credit limit is prorated because this user joined midway through the billing cycle.");
    reveal_strlit("Transfer");
    reveal_strlit("Transfer ownership");
    reveal_strlit("Transfer team ownership?");
    reveal_strlit("UNPAID");
    reveal_strlit("You haven't added any MCP servers yet. Once you do, you'll be able to control how much autonomy the Warp Agent has when interacting with them. ");
    reveal_strlit("Your credit limit is prorated because you joined midway through the billing cycle.");
    reveal_strlit("learn more about MCPs.");
}

/// The lengths of the English strings of block 7 of the settings dictionary, and the
/// characters that tell strings of equal length apart.
proof fn lemma_dictionary_keys_7()
    ensures
        " for more AI usage."@.len() == 19,
        " for more AI usage."@[0] == ' ',
        " to get more AI usage."@.len() == 22,
        " to get more AI usage."@[0] == ' ',
        " to use your own API keys."@.len() == 26,
        " to use your own API keys."@[0] == ' ',
        ", "@.len() == 2,
        ", "@[0] == ',',
        ", or "@.len() == 5,
        ", or "@[0] == ',',
        "."@.len() == 1,
        "1 teammate"@.len() == 10,
        "1 teammate"@[0] == '1',
        "Allow Warp users with the same email domain as you to find and join the team."@.len() == 77,
        "Allow Warp users with the same email domain as you to find and join the team."@[0] == 'A',
        "Auto dismiss Rich Input after prompt submission"@.len() == 47,
        "Auto dismiss Rich Input after prompt submission"@[1] == 'u',
        "Auto dismiss Rich Input after prompt submission"@[5] == 'd',
        "Auto open Rich Input when a coding agent session starts"@.len() == 55,
        "Auto open Rich Input when a coding agent session starts"@[0] == 'A',
        "Auto show/hide Rich Input based on agent status"@.len() == 47,
        "Auto show/hide Rich Input based on agent status"@[1] == 'u',
        "Auto show/hide Rich Input based on agent status"@[5] == 's',
        "Characters considered part of a word"@.len() == 36,
        "Characters considered part of a word"@[0] == 'C',
        "Commands that enable the toolbar"@.len() == 32,
        "Commands that enable the toolbar"@[0] == 'C',
        "Commands that enable the toolbar"@[4] == 'a',
        "Contact Admin to request access"@.len() == 31,
        "Contact Admin to request access"@[0] == 'C',
        "Copy link"@.len() == 9,
        "Copy link"@[0] == 'C',
        "Copy link"@[5] == 'l',
        "Domains, comma separated"@.len() == 24,
        "Domains, comma separated"@[0] == 'D',
        "Emails, comma separated"@.len() == 23,
        "Emails, comma separated"@[0] == 'E',
        "Encountered an incorrect detection? "@.len() == 36,
        "Encountered an incorrect detection? "@[0] == 'E',
        "Failed to load invite link."@.len() == 27,
        "Failed to load invite link."@[0] == 'F',
        "Free plan usage limits"@.len() == 22,
        "Free plan usage limits"@[0] == 'F',
        "Invite"@.len() == 6,
        "Invite"@[0] == 'I',
        "Join"@.len() == 4,
        "Join"@[0] == 'J',
        "Join"@[1] == 'o',
        "Join this team and start collaborating on workflows, notebooks, and more."@.len() == 73,
        "Join this team and start collaborating on workflows, notebooks, and more."@[0] == 'J',
        "Keyboard shortcuts are not synced to the cloud"@.len() == 46,
        "Keyboard shortcuts are not synced to the cloud"@[0] == 'K',
        "Link copied"@.len() == 11,
        "Link copied"@[0] == 'L',
        "Link copied"@[1] == 'i',
        "Link copied"@[3] == 'k',
        "Loading"@.len() == 7,
        "Loading"@[0] == 'L',
        "Loading"@[2] == 'a',
        "New tab"@.len() == 7,
        "New tab"@[0] == 'N',
        "New tab"@[1] == 'e',
        "New tab"@[4] == 't',
        "New window"@.len() == 10,
        "New window"@[0] == 'N',
        "Open admin panel"@.len() == 16,
        "Open admin panel"@[0] == 'O',
        "Plan usage limits"@.len() == 17,
        "Plan usage limits"@[0] == 'P',
        "Plan usage limits"@[1] == 'l',
        "Requires the Warp plugin for your coding agent"@.len() == 46,
        "Requires the Warp plugin for your coding agent"@[0] == 'R',
        "SSH"@.len() == 3,
        "SSH"@[0] == 'S',
        "SSH"@[1] == 'S',
        "Send"@.len() == 4,
        "Send"@[0] == 'S',
        "Send"@[1] == 'e',
        "Sending"@.len() == 7,
        "Sending"@[0] == 'S',
        "Sending"@[1] == 'e',
        "Sending"@[2] == 'n',
        "Set"@.len() == 3,
        "Set"@[0] == 'S',
        "Set"@[1] == 'e',
        "Shared Notebooks"@.len() == 16,
        "Shared Notebooks"@[0] == 'S',
        "Shared Notebooks"@[1] == 'h',
        "Shared Notebooks"@[2] == 'a',
        "Shared Notebooks"@[7] == 'N',
        "Shared Workflows"@.len() == 16,
        "Shared Workflows"@[0] == 'S',
        "Shared Workflows"@[1] == 'h',
        "Shared Workflows"@[2] == 'a',
        "Shared Workflows"@[7] == 'W',
        "Show a toolbar with quick actions when running coding agents like "@.len() == 66,
        "Show a toolbar with quick actions when running coding agents like "@[0] == 'S',
        "Show coding agent toolbar"@.len() == 25,
        "Show coding agent toolbar"@[0] == 'S',
        "Show coding agent toolbar"@[1] == 'h',
        "Split pane"@.len() == 10,
        "Split pane"@[0] == 'S',
        "Split pane"@[1] == 'p',
        "Split pane"@[6] == 'p',
        "Subshells"@.len() == 9,
        "Subshells"@[0] == 'S',
        "Subshells"@[1] == 'u',
        "Subshells"@[2] == 'b',
        "Third party CLI agents"@.len() == 22,
        "Third party CLI agents"@[0] == 'T',
        "This shortcut conflicts with other keybinds"@.len() == 43,
        "This shortcut conflicts with other keybinds"@[0] == 'T',
        "Unshare"@.len() == 7,
        "Unshare"@[0] == 'U',
        "Unshare"@[2] == 's',
        "Unshare block"@.len() == 13,
        "Unshare block"@[0] == 'U',
        "Unshare block"@[1] == 'n',
        "Upgrade to Build"@.len() == 16,
        "Upgrade to Build"@[0] == 'U',
        "Upgrade to Build"@[1] == 'p',
        "Upgrade to Build"@[2] == 'g',
        "Upgrade to Lightspeed plan"@.len() == 26,
        "Upgrade to Lightspeed plan"@[0] == 'U',
        "Upgrade to Turbo plan"@.len() == 21,
        "Upgrade to Turbo plan"@[0] == 'U',
        "You appear to be offline."@.len() == 25,
        "You appear to be offline."@[0] == 'Y',
        "Your new team name"@.len() == 18,
        "Your new team name"@[0] == 'Y',
{
    reveal_strlit(" for more AI usage.");
    reveal_strlit(" to get more AI usage.");
    reveal_strlit(" to use your own API keys.");
    reveal_strlit(", ");
    reveal_strlit(", or ");
    reveal_strlit(".");
    reveal_strlit("1 teammate");
    reveal_strlit("Allow Warp users with the same email domain as you to find and join the team.");
    reveal_strlit("Auto dismiss Rich Input after prompt submission");
    reveal_strlit("Auto open Rich Input when a coding agent session starts");
    reveal_strlit("Auto show/hide Rich Input based on agent status");
    reveal_strlit("Characters considered part of a word");
    reveal_strlit("Commands that enable the toolbar");
    reveal_strlit("Contact Admin to request access");
    reveal_strlit("Copy link");
    reveal_strlit("Domains, comma separated");
    reveal_strlit("Emails, comma separated");
    reveal_strlit("Encountered an incorrect detection? ");
    reveal_strlit("Failed to load invite link.");
    reveal_strlit("Free plan usage limits");
    reveal_strlit("Invite");
    reveal_strlit("Join");
    reveal_strlit("Join this team and start collaborating on workflows, notebooks, and more.");
    reveal_strlit("Keyboard shortcuts are not synced to the cloud");
    reveal_strlit("Link copied");
    reveal_strlit("Loading");
    reveal_strlit("New tab");
    reveal_strlit("New window");
    reveal_strlit("Open admin panel");
    reveal_strlit("Plan usage limits");
    reveal_strlit("Requires the Warp plugin for your coding agent");
    reveal_strlit("SSH");
    reveal_strlit("Send");
    reveal_strlit("Sending");
    reveal_strlit("Set");
    reveal_strlit("Shared Notebooks");
    reveal_strlit("Shared Workflows");
    reveal_strlit("Show a toolbar with quick actions when running coding agents like ");
    reveal_strlit("Show coding agent toolbar");
    reveal_strlit("Split pane");
    reveal_strlit("Subshells");
    reveal_strlit("Third party CLI agents");
    reveal_strlit("This shortcut conflicts with other keybinds");
    reveal_strlit("Unshare");
    reveal_strlit("Unshare block");
    reveal_strlit("Upgrade to Build");
    reveal_strlit("Upgrade to Lightspeed plan");
    reveal_strlit("Upgrade to Turbo plan");
    reveal_strlit("You appear to be offline.");
    reveal_strlit("Your new team name");
}

/// The lengths of the English strings of block 8 of the settings dictionary, and the
/// characters that tell strings of equal length apart.
proof fn lemma_dictionary_keys_8()
    ensures
        "Add"@.len() == 3,
        "Add"@[0] == 'A',
        "Add MCP servers to extend the Warp Agent's capabilities. MCP servers expose data sources or tools to agents through a standardized interface, essentially acting like plugins. Add a custom server, or use the presets to get started with popular servers. You can also find team servers that have been shared with you here. "@.len() == 320,
        "Attach File"@.len() == 11,
        "Attach File"@[0] == 'A',
        "Attach File"@[1] == 't',
        "Auto-spawn servers from third-party agents"@.len() == 42,
        "Autodetection"@.len() == 13,
        "Autodetection"@[0] == 'A',
        "Autodetection"@[1] == 'u',
        "Automatically detect and spawn MCP servers from globally-scoped third-party AI agent configuration files (e.g. in your home directory). Servers detected inside a repository are never spawned automatically and must be enabled individually in the \"Detected from\" sections below. "@.len() == 277,
        "Available chips"@.len() == 15,
        "Available chips"@[0] == 'A',
        "Available chips"@[1] == 'v',
        "Available to install"@.len() == 20,
        "Available to install"@[0] == 'A',
        "Available to install"@[1] == 'v',
        "Context Chip"@.len() == 12,
        "Context Chip"@[0] == 'C',
        "Context Chip"@[1] == 'o',
        "Context Chip"@[2] == 'n',
        "Context Usage"@.len() == 13,
        "Context Usage"@[0] == 'C',
        "Context Usage"@[1] == 'o',
        "Context Usage"@[2] == 'n',
        "Copy Link"@.len() == 9,
        "Copy Link"@[0] == 'C',
        "Copy Link"@[5] == 'L',
        "Deleting"@.len() == 8,
        "Deleting"@[0] == 'D',
        "Deleting..."@.len() == 11,
        "Deleting..."@[0] == 'D',
        "Deleting..."@[2] == 'l',
        "Deleting..."@[5] == 'i',
        "Detected from"@.len() == 13,
        "Detected from"@[0] == 'D',
        "Detected from config file"@.len() == 25,
        "Detected from config file"@[0] == 'D',
        "Detected from config file"@[2] == 't',
        "Failed to load blocks. Please try again."@.len() == 40,
        "Failed to load blocks. Please try again."@[0] == 'F',
        "Fast Forward"@.len() == 12,
        "Fast Forward"@[0] == 'F',
        "File Explorer"@.len() == 13,
        "File Explorer"@[0] == 'F',
        "From another device"@.len() == 19,
        "From another device"@[0] == 'F',
        "From another device"@[1] == 'r',
        "Getting blocks..."@.len() == 17,
        "Getting blocks..."@[0] == 'G',
        "Hand off to cloud"@.len() == 17,
        "Hand off to cloud"@[0] == 'H',
        "Learn more."@.len() == 11,
        "Learn more."@[0] == 'L',
        "Learn more."@[1] == 'e',
        "Left side"@.len() == 9,
        "Left side"@[0] == 'L',
        "Left side"@[1] == 'e',
        "Model Selector"@.len() == 14,
        "Model Selector"@[0] == 'M',
        "Model Selector"@[1] == 'o',
        "My MCPs"@.len() == 7,
        "My MCPs"@[0] == 'M',
        "No search results found"@.len() == 23,
        "No search results found"@[0] == 'N',
        "Once you add a MCP server, it will be shown here."@.len() == 49,
        "Once you add a MCP server, it will be shown here."@[0] == 'O',
        "Open Settings File"@.len() == 18,
        "Open Settings File"@[0] == 'O',
        "Open Settings File"@[5] == 'S',
        "Open settings file"@.len() == 18,
        "Open settings file"@[0] == 'O',
        "Open settings file"@[5] == 's',
        "Restore default"@.len() == 15,
        "Restore default"@[0] == 'R',
        "Rich Input"@.len() == 10,
        "Rich Input"@[0] == 'R',
        "Rich Input"@[1] == 'i',
        "Rich Input"@[2] == 'c',
        "Right side"@.len() == 10,
        "Right side"@[0] == 'R',
        "Right side"@[1] == 'i',
        "Right side"@[2] == 'g',
        "Save changes"@.len() == 12,
        "Save changes"@[0] == 'S',
        "Save changes"@[1] == 'a',
        "See supported providers."@.len() == 24,
        "See supported providers."@[0] == 'S',
        "See supported providers."@[1] == 'e',
        "Settings"@.len() == 8,
        "Settings"@[0] == 'S',
        "Share with team"@.len() == 15,
        "Share with team"@[0] == 'S',
        "Shared by Warp and"@.len() == 18,
        "Shared by Warp and"@[0] == 'S',
        "Shared by Warp and"@[1] == 'h',
        "Shared by Warp and from other devices"@.len() == 37,
        "Shared by Warp and from other devices"@[0] == 'S',
        "Shared by Warp and from other devices"@[1] == 'h',
        "Shared by Warp and from other devices"@[2] == 'a',
        "Shared by a team member"@.len() == 23,
        "Shared by a team member"@[0] == 'S',
        "Shared by a team member"@[1] == 'h',
        "Shared by a team member"@[2] == 'a',
        "Shared from Warp"@.len() == 16,
        "Shared from Warp"@[0] == 'S',
        "Shared from Warp"@[1] == 'h',
        "Shared from Warp"@[2] == 'a',
        "Shared from Warp"@[7] == 'f',
        "Shared from Warp"@[12] == 'W',
        "Voice Input"@.len() == 11,
        "Voice Input"@[0] == 'V',
        "Warp Drive is a workspace in your terminal where you can save Workflows, Notebooks, Prompts, and Environment Variables for personal use or to share with a team."@.len() == 160,
        "You don't have any shared blocks yet."@.len() == 37,
        "You don't have any shared blocks yet."@[0] == 'Y',
        "Your organization disallows AI when the active pane contains content from a remote session"@.len() == 90,
        "Your organization disallows AI when the active pane contains content from a remote session"@[0] == 'Y',
        "aws login"@.len() == 9,
        "aws login"@[0] == 'a',
        "command (supports regex)"@.len() == 24,
        "command (supports regex)"@[0] == 'c',
        "default"@.len() == 7,
        "default"@[0] == 'd',
        "e.g. cd my-repo && pip install -r requirements.txt"@.len() == 50,
        "e.g. cd my-repo && pip install -r requirements.txt"@[0] == 'e',
        "global"@.len() == 6,
        "global"@[0] == 'g',
        "host (supports regex)"@.len() == 21,
        "host (supports regex)"@[0] == 'h',
{
    reveal_strlit("Add");
    reveal_strlit("Add MCP servers to extend the Warp Agent's capabilities. MCP servers expose data sources or tools to agents through a standardized interface, essentially acting like plugins. Add a custom server, or use the presets to get started with popular servers. You can also find team servers that have been shared with you here. ");
    reveal_strlit("Attach File");
    reveal_strlit("Auto-spawn servers from third-party agents");
    reveal_strlit("Autodetection");
    reveal_strlit("Automatically detect and spawn MCP servers from globally-scoped third-party AI agent configuration files (e.g. in your home directory). Servers detected inside a repository are never spawned automatically and must be enabled individually in the \"Detected from\" sections below. ");
    reveal_strlit("Available chips");
    reveal_strlit("Available to install");
    reveal_strlit("Context Chip");
    reveal_strlit("Context Usage");
    reveal_strlit("Copy Link");
    reveal_strlit("Deleting");
    reveal_strlit("Deleting...");
    reveal_strlit("Detected from");
    reveal_strlit("Detected from config file");
    reveal_strlit("Failed to load blocks. Please try again.");
    reveal_strlit("Fast Forward");
    reveal_strlit("File Explorer");
    reveal_strlit("From another device");
    reveal_strlit("Getting blocks...");
    reveal_strlit("Hand off to cloud");
    reveal_strlit("Learn more.");
    reveal_strlit("Left side");
    reveal_strlit("Model Selector");
    reveal_strlit("My MCPs");
    reveal_strlit("No search results found");
    reveal_strlit("Once you add a MCP server, it will be shown here.");
    reveal_strlit("Open Settings File");
    reveal_strlit("Open settings file");
    reveal_strlit("Restore default");
    reveal_strlit("Rich Input");
    reveal_strlit("Right side");
    reveal_strlit("Save changes");
    reveal_strlit("See supported providers.");
    reveal_strlit("Settings");
    reveal_strlit("Share with team");
    reveal_strlit("Shared by Warp and");
    reveal_strlit("Shared by Warp and from other devices");
    reveal_strlit("Shared by a team member");
    reveal_strlit("Shared from Warp");
    reveal_strlit("Voice Input");
    reveal_strlit("Warp Drive is a workspace in your terminal where you can save Workflows, Notebooks, Prompts, and Environment Variables for personal use or to share with a team.");
    reveal_strlit("You don't have any shared blocks yet.");
    reveal_strlit("Your organization disallows AI when the active pane contains content from a remote session");
    reveal_strlit("aws login");
    reveal_strlit("command (supports regex)");
    reveal_strlit("default");
    reveal_strlit("e.g. cd my-repo && pip install -r requirements.txt");
    reveal_strlit("global");
    reveal_strlit("host (supports regex)");
}

/// The lengths of the English strings of block 9 of the settings dictionary, and the
/// characters that tell strings of equal length apart.
proof fn lemma_dictionary_keys_9()
    ensures
        "Add New MCP Server"@.len() == 18,
        "Add New MCP Server"@[0] == 'A',
        "Add New MCP Server"@[1] == 'd',
        "Apply code diffs:"@.len() == 17,
        "Apply code diffs:"@[0] == 'A',
        "Apply code diffs:"@[1] == 'p',
        "Ask questions:"@.len() == 14,
        "Ask questions:"@[0] == 'A',
        "Ask questions:"@[1] == 's',
        "Authenticating..."@.len() == 17,
        "Authenticating..."@[0] == 'A',
        "Authenticating..."@[1] == 'u',
        "Auto"@.len() == 4,
        "Auto"@[0] == 'A',
        "Auto-sync plans to Warp Drive:"@.len() == 30,
        "Auto-sync plans to Warp Drive:"@[0] == 'A',
        "Base model:"@.len() == 11,
        "Base model:"@[0] == 'B',
        "Call MCP servers:"@.len() == 17,
        "Call MCP servers:"@[0] == 'C',
        "Call MCP servers:"@[1] == 'a',
        "Call web tools:"@.len() == 15,
        "Call web tools:"@[0] == 'C',
        "Call web tools:"@[1] == 'a',
        "Cannot add multiple MCP servers while editing a single server."@.len() == 62,
        "Cannot add multiple MCP servers while editing a single server."@[0] == 'C',
        "Command allowlist:"@.len() == 18,
        "Command allowlist:"@[0] == 'C',
        "Command allowlist:"@[1] == 'o',
        "Command allowlist:"@[2] == 'm',
        "Computer use:"@.len() == 13,
        "Computer use:"@[0] == 'C',
        "Computer use:"@[1] == 'o',
        "Computer use:"@[2] == 'm',
        "Computer use:"@[4] == 'u',
        "Delete MCP"@.len() == 10,
        "Delete MCP"@[0] == 'D',
        "Delete MCP server?"@.len() == 18,
        "Delete MCP server?"@[0] == 'D',
        "Delete MCP server?"@[1] == 'e',
        "Delete MCP server?"@[7] == 'M',
        "Delete shared MCP server?"@.len() == 25,
        "Delete shared MCP server?"@[0] == 'D',
        "Delete shared MCP server?"@[2] == 'l',
        "Directory allowlist:"@.len() == 20,
        "Directory allowlist:"@[0] == 'D',
        "Edit"@.len() == 4,
        "Edit"@[0] == 'E',
        "Edit MCP Server"@.len() == 15,
        "Edit MCP Server"@[0] == 'E',
        "Edit MCP Server"@[1] == 'd',
        "Edit Variables"@.len() == 14,
        "Edit Variables"@[0] == 'E',
        "Execute commands:"@.len() == 17,
        "Execute commands:"@[0] == 'E',
        "Execute commands:"@[1] == 'x',
        "Full terminal use:"@.len() == 18,
        "Full terminal use:"@[0] == 'F',
        "Install"@.len() == 7,
        "Install"@[0] == 'I',
        "Install"@[1] == 'n',
        "Interact with running commands:"@.len() == 31,
        "Interact with running commands:"@[0] == 'I',
        "JSON"@.len() == 4,
        "JSON"@[0] == 'J',
        "JSON"@[1] == 'S',
        "MCP server updated"@.len() == 18,
        "MCP server updated"@[0] == 'M',
        "No MCP Server specified."@.len() == 24,
        "No MCP Server specified."@[0] == 'N',
        "No MCP server selected"@.len() == 22,
        "No MCP server selected"@[0] == 'N',
        "No tools available"@.len() == 18,
        "No tools available"@[0] == 'N',
        "No tools available"@[2] == ' ',
        "No updates available"@.len() == 20,
        "No updates available"@[0] == 'N',
        "Offline"@.len() == 7,
        "Offline"@[0] == 'O',
        "Only team admins and the creator of the MCP server can edit the MCP server."@.len() == 75,
        "Read files:"@.len() == 11,
        "Read files:"@[0] == 'R',
        "Read files:"@[2] == 'a',
        "Remove shared MCP server from team?"@.len() == 35,
        "Remove shared MCP server from team?"@[0] == 'R',
        "Server"@.len() == 6,
        "Server"@[0] == 'S',
        "Server"@[1] == 'e',
        "Server"@[2] == 'r',
        "Server update available"@.len() == 23,
        "Server update available"@[0] == 'S',
        "Server update available"@[1] == 'e',
        "Share server"@.len() == 12,
        "Share server"@[0] == 'S',
        "Share server"@[1] == 'h',
        "Shared by"@.len() == 9,
        "Shared by"@[0] == 'S',
        "Shared by"@[1] == 'h',
        "Shared by"@[2] == 'a',
        "Shared from team"@.len() == 16,
        "Shared from team"@[0] == 'S',
        "Shared from team"@[1] == 'h',
        "Shared from team"@[2] == 'a',
        "Shared from team"@[7] == 'f',
        "Shared from team"@[12] == 't',
        "Show logs"@.len() == 9,
        "Show logs"@[0] == 'S',
        "Show logs"@[1] == 'h',
        "Show logs"@[2] == 'o',
        "Shutting down..."@.len() == 16,
        "Shutting down..."@[0] == 'S',
        "Shutting down..."@[1] == 'h',
        "Shutting down..."@[2] == 'u',
        "Starting server..."@.len() == 18,
        "Starting server..."@[0] == 'S',
        "Starting server..."@[1] == 't',
        "This MCP server contains secrets. Visit Settings > Privacy to modify your secret redaction settings."@.len() == 100,
        "This MCP server contains secrets. Visit Settings > Privacy to modify your secret redaction settings."@[0] == 'T',
        "This server has"@.len() == 15,
        "This server has"@[0] == 'T',
        "This will not only delete this MCP server for yourself, but also uninstall and remove this MCP server from Warp and across all of your teammates' devices."@.len() == 154,
        "This will uninstall and remove this MCP server from Warp and across all of your teammates' devices."@.len() == 99,
        "This will uninstall and remove this MCP server from all your devices."@.len() == 69,
        "Unknown"@.len() == 7,
        "Unknown"@[0] == 'U',
        "Unknown"@[2] == 'k',
        "a team member"@.len() == 13,
        "a team member"@[0] == 'a',
        "another device"@.len() == 14,
        "another device"@[0] == 'a',
        "updates available, which would you like to proceed with?"@.len() == 56,
        "updates available, which would you like to proceed with?"@[0] == 'u',
{
    reveal_strlit("Add New MCP Server");
    reveal_strlit("Apply code diffs:");
    reveal_strlit("Ask questions:");
    reveal_strlit("Authenticating...");
    reveal_strlit("Auto");
    reveal_strlit("Auto-sync plans to Warp Drive:");
    reveal_strlit("Base model:");
    reveal_strlit("Call MCP servers:");
    reveal_strlit("Call web tools:");
    reveal_strlit("Cannot add multiple MCP servers while editing a single server.");
    reveal_strlit("Command allowlist:");
    reveal_strlit("Computer use:");
    reveal_strlit("Delete MCP");
    reveal_strlit("Delete MCP server?");
    reveal_strlit("Delete shared MCP server?");
    reveal_strlit("Directory allowlist:");
    reveal_strlit("Edit");
    reveal_strlit("Edit MCP Server");
    reveal_strlit("Edit Variables");
    reveal_strlit("Execute commands:");
    reveal_strlit("Full terminal use:");
    reveal_strlit("Install");
    reveal_strlit("Interact with running commands:");
    reveal_strlit("JSON");
    reveal_strlit("MCP server updated");
    reveal_strlit("No MCP Server specified.");
    reveal_strlit("No MCP server selected");
    reveal_strlit("No tools available");
    reveal_strlit("No updates available");
    reveal_strlit("Offline");
    reveal_strlit("Only team admins and the creator of the MCP server can edit the MCP server.");
    reveal_strlit("Read files:");
    reveal_strlit("Remove shared MCP server from team?");
    reveal_strlit("Server");
    reveal_strlit("Server update available");
    reveal_strlit("Share server");
    reveal_strlit("Shared by");
    reveal_strlit("Shared from team");
    reveal_strlit("Show logs");
    reveal_strlit("Shutting down...");
    reveal_strlit("Starting server...");
    reveal_strlit("This MCP server contains secrets. Visit Settings > Privacy to modify your secret redaction settings.");
    reveal_strlit("This server has");
    reveal_strlit("This will not only delete this MCP server for yourself, but also uninstall and remove this MCP server from Warp and across all of your teammates' devices.");
    reveal_strlit("This will uninstall and remove this MCP server from Warp and across all of your teammates' devices.");
    reveal_strlit("This will uninstall and remove this MCP server from all your devices.");
    reveal_strlit("Unknown");
    reveal_strlit("a team member");
    reveal_strlit("another device");
    reveal_strlit("updates available, which would you like to proceed with?");
}

/// The lengths of the English strings of block 10 of the settings dictionary, and the
/// characters that tell strings of equal length apart.
proof fn lemma_dictionary_keys_10()
    ensures
        "(unknown)"@.len() == 9,
        "(unknown)"@[0] == '(',
        "(unknown)"@[1] == 'u',
        "+ Add directory…"@.len() == 16,
        "+ Add directory…"@[0] == '+',
        "+ Add directory…"@[2] == 'A',
        "Add directory color"@.len() == 19,
        "Add directory color"@[0] == 'A',
        "Add directory color"@[1] == 'd',
        "Add repo"@.len() == 8,
        "Add repo"@[0] == 'A',
        "Add repo"@[2] == 'd',
        "All locally indexed repos are already selected."@.len() == 47,
        "All locally indexed repos are already selected."@[1] == 'l',
        "All locally indexed repos are already selected."@[3] == ' ',
        "Are you sure you want to remove the {} environment?"@.len() == 51,
        "Are you sure you want to remove the {} environment?"@[0] == 'A',
        "Available indexed repos"@.len() == 23,
        "Available indexed repos"@[0] == 'A',
        "Available indexed repos"@[1] == 'v',
        "Command denylist:"@.len() == 17,
        "Command denylist:"@[0] == 'C',
        "Command denylist:"@[1] == 'o',
        "Command denylist:"@[2] == 'm',
        "Command denylist:"@[8] == 'd',
        "Create environment"@.len() == 18,
        "Create environment"@[0] == 'C',
        "Create environment"@[1] == 'r',
        "Delete environment"@.len() == 18,
        "Delete environment"@[0] == 'D',
        "Delete environment"@[1] == 'e',
        "Delete environment"@[7] == 'e',
        "Delete environment?"@.len() == 19,
        "Delete environment?"@[0] == 'D',
        "Delete environment?"@[1] == 'e',
        "Delete environment?"@[2] == 'l',
        "Deleted invite"@.len() == 14,
        "Deleted invite"@[0] == 'D',
        "Deleted invite"@[1] == 'e',
        "Domain restrictions added: {}"@.len() == 29,
        "Domain restrictions added: {}"@[0] == 'D',
        "Domain restrictions added: {}"@[1] == 'o',
        "Email"@.len() == 5,
        "Email"@[0] == 'E',
        "Error leaving team"@.len() == 18,
        "Error leaving team"@[0] == 'E',
        "Error leaving team"@[1] == 'r',
        "Failed to add domain restriction"@.len() == 32,
        "Failed to add domain restriction"@[0] == 'F',
        "Failed to add domain restriction"@[1] == 'a',
        "Failed to delete domain restriction"@.len() == 35,
        "Failed to delete domain restriction"@[0] == 'F',
        "Failed to delete domain restriction"@[10] == 'd',
        "Failed to delete invite"@.len() == 23,
        "Failed to delete invite"@[0] == 'F',
        "Failed to generate billing link. Please contact us at feedback@warp.dev"@.len() == 71,
        "Failed to generate billing link. Please contact us at feedback@warp.dev"@[19] == 'b',
        "Failed to generate upgrade link. Please contact us at feedback@warp.dev"@.len() == 71,
        "Failed to generate upgrade link. Please contact us at feedback@warp.dev"@[19] == 'u',
        "Failed to join team"@.len() == 19,
        "Failed to join team"@[0] == 'F',
        "Failed to join team"@[1] == 'a',
        "Failed to rename team"@.len() == 21,
        "Failed to rename team"@[0] == 'F',
        "Failed to rename team"@[10] == 'r',
        "Failed to reset invite links"@.len() == 28,
        "Failed to reset invite links"@[0] == 'F',
        "Failed to send invite"@.len() == 21,
        "Failed to send invite"@[0] == 'F',
        "Failed to send invite"@[10] == 's',
        "Failed to toggle invite links"@.len() == 29,
        "Failed to toggle invite links"@[0] == 'F',
        "Failed to toggle team discoverability"@.len() == 37,
        "Failed to toggle team discoverability"@[0] == 'F',
        "Failed to toggle team discoverability"@[10] == 't',
        "Failed to transfer team ownership"@.len() == 33,
        "Failed to transfer team ownership"@[0] == 'F',
        "Failed to transfer team ownership"@[10] == 't',
        "Failed to update team member role"@.len() == 33,
        "Failed to update team member role"@[0] == 'F',
        "Failed to update team member role"@[10] == 'u',
        "Invalid domains: {}"@.len() == 19,
        "Invalid domains: {}"@[0] == 'I',
        "Invalid domains: {}"@[2] == 'v',
        "Invalid emails: {}"@.len() == 18,
        "Invalid emails: {}"@[0] == 'I',
        "Link"@.len() == 4,
        "Link"@[0] == 'L',
        "Link copied to clipboard!"@.len() == 25,
        "Link copied to clipboard!"@[0] == 'L',
        "Loading locally indexed repos…"@.len() == 30,
        "Loading locally indexed repos…"@[0] == 'L',
        "Local repo selection is unavailable in this build."@.len() == 50,
        "Local repo selection is unavailable in this build."@[0] == 'L',
        "MCP allowlist:"@.len() == 14,
        "MCP allowlist:"@[0] == 'M',
        "MCP allowlist:"@[1] == 'C',
        "MCP denylist:"@.len() == 13,
        "MCP denylist:"@[0] == 'M',
        "MCP denylist:"@[4] == 'd',
        "No directory selected"@.len() == 21,
        "No directory selected"@[0] == 'N',
        "No directory selected"@[3] == 'd',
        "No locally indexed repos found yet. Index a repo, then try again."@.len() == 65,
        "No repos selected yet"@.len() == 21,
        "No repos selected yet"@[0] == 'N',
        "No repos selected yet"@[3] == 'r',
        "Reset invite links"@.len() == 18,
        "Reset invite links"@[0] == 'R',
        "Reset invite links"@[3] == 'e',
        "Selected folder is not a Git repository"@.len() == 39,
        "Selected folder is not a Git repository"@[1] == 'e',
        "Selected folder is not a Git repository"@[2] == 'l',
        "Selected repos"@.len() == 14,
        "Selected repos"@[0] == 'S',
        "Successfully joined team"@.len() == 24,
        "Successfully joined team"@[0] == 'S',
        "Successfully joined team"@[1] == 'u',
        "Successfully left team"@.len() == 22,
        "Successfully left team"@[0] == 'S',
        "Successfully left team"@[1] == 'u',
        "Successfully left team"@[2] == 'c',
        "Successfully renamed team"@.len() == 25,
        "Successfully renamed team"@[0] == 'S',
        "Successfully renamed team"@[1] == 'u',
        "Successfully transferred team ownership"@.len() == 39,
        "Successfully transferred team ownership"@[1] == 'u',
        "Successfully updated team member role"@.len() == 37,
        "Successfully updated team member role"@[0] == 'S',
        "Successfully updated team member role"@[1] == 'u',
        "Successfully updated team member role"@[13] == 'u',
        "Toggled invite links"@.len() == 20,
        "Toggled invite links"@[0] == 'T',
        "Toggled team discoverability"@.len() == 28,
        "Toggled team discoverability"@[0] == 'T',
        "Your invite is on the way!"@.len() == 26,
        "Your invite is on the way!"@[0] == 'Y',
{
    reveal_strlit("(unknown)");
    reveal_strlit("+ Add directory…");
    reveal_strlit("Add directory color");
    reveal_strlit("Add repo");
    reveal_strlit("All locally indexed repos are already selected.");
    reveal_strlit("Are you sure you want to remove the {} environment?");
    reveal_strlit("Available indexed repos");
    reveal_strlit("Command denylist:");
    reveal_strlit("Create environment");
    reveal_strlit("Delete environment");
    reveal_strlit("Delete environment?");
    reveal_strlit("Deleted invite");
    reveal_strlit("Domain restrictions added: {}");
    reveal_strlit("Email");
    reveal_strlit("Error leaving team");
    reveal_strlit("Failed to add domain restriction");
    reveal_strlit("Failed to delete domain restriction");
    reveal_strlit("Failed to delete invite");
    reveal_strlit("Failed to generate billing link. Please contact us at feedback@warp.dev");
    reveal_strlit("Failed to generate upgrade link. Please contact us at feedback@warp.dev");
    reveal_strlit("Failed to join team");
    reveal_strlit("Failed to rename team");
    reveal_strlit("Failed to reset invite links");
    reveal_strlit("Failed to send invite");
    reveal_strlit("Failed to toggle invite links");
    reveal_strlit("Failed to toggle team discoverability");
    reveal_strlit("Failed to transfer team ownership");
    reveal_strlit("Failed to update team member role");
    reveal_strlit("Invalid domains: {}");
    reveal_strlit("Invalid emails: {}");
    reveal_strlit("Link");
    reveal_strlit("Link copied to clipboard!");
    reveal_strlit("Loading locally indexed repos…");
    reveal_strlit("Local repo selection is unavailable in this build.");
    reveal_strlit("MCP allowlist:");
    reveal_strlit("MCP denylist:");
    reveal_strlit("No directory selected");
    reveal_strlit("No locally indexed repos found yet. Index a repo, then try again.");
    reveal_strlit("No repos selected yet");
    reveal_strlit("Reset invite links");
    reveal_strlit("Selected folder is not a Git repository");
    reveal_strlit("Selected repos");
    reveal_strlit("Successfully joined team");
    reveal_strlit("Successfully left team");
    reveal_strlit("Successfully renamed team");
    reveal_strlit("Successfully transferred team ownership");
    reveal_strlit("Successfully updated team member role");
    reveal_strlit("Toggled invite links");
    reveal_strlit("Toggled team discoverability");
    reveal_strlit("Your invite is on the way!");
}

/// The lengths of the English strings of block 11 of the settings dictionary, and the
/// characters that tell strings of equal length apart.
proof fn lemma_dictionary_keys_11()
    ensures
        " for custom limits and dedicated support."@.len() == 41,
        " for custom limits and dedicated support."@[0] == ' ',
        " for more AI credits."@.len() == 21,
        " for more AI credits."@[0] == ' ',
        " to regain access to AI features."@.len() == 33,
        " to regain access to AI features."@[0] == ' ',
        "API key deleted"@.len() == 15,
        "API key deleted"@[0] == 'A',
        "API key deleted"@[1] == 'P',
        "Authorize"@.len() == 9,
        "Authorize"@[0] == 'A',
        "Authorize"@[1] == 'u',
        "Choose a locally set up project and we'll help you set up an environment based on it"@.len() == 84,
        "Choose how you'd like to set up your environment:"@.len() == 49,
        "Choose how you'd like to set up your environment:"@[0] == 'C',
        "Choose how you'd like to set up your environment:"@[14] == '\'',
        "Choose how you’d like to set up your environment:"@.len() == 49,
        "Choose how you’d like to set up your environment:"@[0] == 'C',
        "Choose how you’d like to set up your environment:"@[14] == '\u{2019}',
        "Enter repos (owner/repo format)"@.len() == 31,
        "Enter repos (owner/repo format)"@[0] == 'E',
        "Environment deleted successfully"@.len() == 32,
        "Environment deleted successfully"@[0] == 'E',
        "Environments"@.len() == 12,
        "Environments"@[0] == 'E',
        "Environments define where your ambient agents run. Set one up in minutes via GitHub (recommended), Warp-assisted setup, or manual configuration."@.len() == 144,
        "Failed to share environment with team"@.len() == 37,
        "Failed to share environment with team"@[0] == 'F',
        "Failed to share environment with team"@[10] == 's',
        "Finish the current MCP install before opening another install link."@.len() == 67,
        "Finish the current MCP install before opening another install link."@[0] == 'F',
        "Get started"@.len() == 11,
        "Get started"@[0] == 'G',
        "Last used: never"@.len() == 16,
        "Last used: never"@[0] == 'L',
        "Last used: never"@[1] == 'a',
        "Launch agent"@.len() == 12,
        "Launch agent"@[0] == 'L',
        "Launch agent"@[1] == 'a',
        "Launch agent"@[2] == 'u',
        "Loading..."@.len() == 10,
        "Loading..."@[0] == 'L',
        "Loading..."@[1] == 'o',
        "MCP Server"@.len() == 10,
        "MCP Server"@[0] == 'M',
        "MCP Server"@[4] == 'S',
        "MCP server"@.len() == 10,
        "MCP server"@[0] == 'M',
        "MCP server"@[4] == 's',
        "New environment"@.len() == 15,
        "New environment"@[0] == 'N',
        "New environment"@[1] == 'e',
        "No environments match your search."@.len() == 34,
        "No environments match your search."@[0] == 'N',
        "Paste repo URL(s)"@.len() == 17,
        "Paste repo URL(s)"@[0] == 'P',
        "Paste repo URL(s)"@[1] == 'a',
        "Quick setup"@.len() == 11,
        "Quick setup"@[0] == 'Q',
        "Retry"@.len() == 5,
        "Retry"@[0] == 'R',
        "Search environments..."@.len() == 22,
        "Search environments..."@[0] == 'S',
        "Search environments..."@[1] == 'e',
        "Select locally indexed repos to provide context for the environment creation agent."@.len() == 83,
        "Select repos for your environment"@.len() == 33,
        "Select repos for your environment"@[0] == 'S',
        "Select repos to provide context for the environment creation agent."@.len() == 67,
        "Select repos to provide context for the environment creation agent."@[0] == 'S',
        "Select the GitHub repositories you'd like to work with and we'll suggest a base image and config"@.len() == 96,
        "Select the GitHub repositories you'd like to work with and we'll suggest a base image and config"@[0] == 'S',
        "Share"@.len() == 5,
        "Share"@[0] == 'S',
        "Share"@[1] == 'h',
        "Shared by Warp and your team"@.len() == 28,
        "Shared by Warp and your team"@[0] == 'S',
        "Successfully created environment"@.len() == 32,
        "Successfully created environment"@[0] == 'S',
        "Successfully created environment"@[13] == 'c',
        "Successfully logged out of"@.len() == 26,
        "Successfully logged out of"@[0] == 'S',
        "Successfully logged out of"@[1] == 'u',
        "Successfully logged out of MCP server"@.len() == 37,
        "Successfully logged out of MCP server"@[0] == 'S',
        "Successfully logged out of MCP server"@[1] == 'u',
        "Successfully logged out of MCP server"@[13] == 'l',
        "Successfully shared environment"@.len() == 31,
        "Successfully shared environment"@[0] == 'S',
        "Successfully updated environment"@.len() == 32,
        "Successfully updated environment"@[0] == 'S',
        "Successfully updated environment"@[13] == 'u',
        "Suggested"@.len() == 9,
        "Suggested"@[0] == 'S',
        "Suggested"@[1] == 'u',
        "Suggested"@[2] == 'g',
        "Unable to create environment: not logged in."@.len() == 44,
        "Unable to create environment: not logged in."@[0] == 'U',
        "Unable to save: environment no longer exists."@.len() == 45,
        "Unable to save: environment no longer exists."@[0] == 'U',
        "Unable to share environment: you are not currently on a team."@.len() == 61,
        "Unknown MCP server"@.len() == 18,
        "Unknown MCP server"@[0] == 'U',
        "Update"@.len() == 6,
        "Update"@[0] == 'U',
        "Update"@[1] == 'p',
        "Update from"@.len() == 11,
        "Update from"@[0] == 'U',
        "Use the agent"@.len() == 13,
        "Use the agent"@[0] == 'U',
        "Use the agent"@[1] == 's',
        "Use the agent"@[2] == 'e',
        "View my runs"@.len() == 12,
        "View my runs"@[0] == 'V',
        "You haven't set up any environments yet."@.len() == 40,
        "You haven't set up any environments yet."@[0] == 'Y',
        "You haven't set up any environments yet."@[9] == '\'',
        "You haven’t set up any environments yet."@.len() == 40,
        "You haven’t set up any environments yet."@[0] == 'Y',
        "You haven’t set up any environments yet."@[9] == '\u{2019}',
        "cannot be installed from this link."@.len() == 35,
        "cannot be installed from this link."@[0] == 'c',
        "tools available"@.len() == 15,
        "tools available"@[0] == 't',
{
    reveal_strlit(" for custom limits and dedicated support.");
    reveal_strlit(" for more AI credits.");
    reveal_strlit(" to regain access to AI features.");
    reveal_strlit("API key deleted");
    reveal_strlit("Authorize");
    reveal_strlit("Choose a locally set up project and we'll help you set up an environment based on it");
    reveal_strlit("Choose how you'd like to set up your environment:");
    reveal_strlit("Choose how you’d like to set up your environment:");
    reveal_strlit("Enter repos (owner/repo format)");
    reveal_strlit("Environment deleted successfully");
    reveal_strlit("Environments");
    reveal_strlit("Environments define where your ambient agents run. Set one up in minutes via GitHub (recommended), Warp-assisted setup, or manual configuration.");
    reveal_strlit("Failed to share environment with team");
    reveal_strlit("Finish the current MCP install before opening another install link.");
    reveal_strlit("Get started");
    reveal_strlit("Last used: never");
    reveal_strlit("Launch agent");
    reveal_strlit("Loading...");
    reveal_strlit("MCP Server");
    reveal_strlit("MCP server");
    reveal_strlit("New environment");
    reveal_strlit("No environments match your search.");
    reveal_strlit("Paste repo URL(s)");
    reveal_strlit("Quick setup");
    reveal_strlit("Retry");
    reveal_strlit("Search environments...");
    reveal_strlit("Select locally indexed repos to provide context for the environment creation agent.");
    reveal_strlit("Select repos for your environment");
    reveal_strlit("Select repos to provide context for the environment creation agent.");
    reveal_strlit("Select the GitHub repositories you'd like to work with and we'll suggest a base image and config");
    reveal_strlit("Share");
    reveal_strlit("Shared by Warp and your team");
    reveal_strlit("Successfully created environment");
    reveal_strlit("Successfully logged out of");
    reveal_strlit("Successfully logged out of MCP server");
    reveal_strlit("Successfully shared environment");
    reveal_strlit("Successfully updated environment");
    reveal_strlit("Suggested");
    reveal_strlit("Unable to create environment: not logged in.");
    reveal_strlit("Unable to save: environment no longer exists.");
    reveal_strlit("Unable to share environment: you are not currently on a team.");
    reveal_strlit("Unknown MCP server");
    reveal_strlit("Update");
    reveal_strlit("Update from");
    reveal_strlit("Use the agent");
    reveal_strlit("View my runs");
    reveal_strlit("You haven't set up any environments yet.");
    reveal_strlit("You haven’t set up any environments yet.");
    reveal_strlit("cannot be installed from this link.");
    reveal_strlit("tools available");
}

/// The lengths of the English strings of block 12 of the settings dictionary, and the
/// characters that tell strings of equal length apart.
proof fn lemma_dictionary_keys_12()
    ensures
        "(not set)"@.len() == 9,
        "(not set)"@[0] == '(',
        "(not set)"@[1] == 'n',
        "API Key"@.len() == 7,
        "API Key"@[0] == 'A',
        "API Key"@[1] == 'P',
        "Adds an IDE-style project explorer / file tree to the left side tools panel."@.len() == 76,
        "Adds global file search to the left side tools panel."@.len() == 53,
        "Adds global file search to the left side tools panel."@[0] == 'A',
        "Auto open code review panel"@.len() == 27,
        "Auto open code review panel"@[0] == 'A',
        "Available"@.len() == 9,
        "Available"@[0] == 'A',
        "Available"@[1] == 'v',
        "Available for download"@.len() == 22,
        "Available for download"@[0] == 'A',
        "Base URL"@.len() == 8,
        "Base URL"@[0] == 'B',
        "Base URL"@[1] == 'a',
        "Base URL"@[2] == 's',
        "Busy"@.len() == 4,
        "Busy"@[0] == 'B',
        "Checking..."@.len() == 11,
        "Checking..."@[0] == 'C',
        "Checking..."@[1] == 'h',
        "Codebase too large"@.len() == 18,
        "Codebase too large"@[0] == 'C',
        "Codebase too large"@[1] == 'o',
        "Codebase too large"@[2] == 'd',
        "Discovered {total_nodes} chunks"@.len() == 31,
        "Discovered {total_nodes} chunks"@[0] == 'D',
        "Enable local AI provider to route agent requests to a custom OpenAI-compatible endpoint."@.len() == 88,
        "Enable local AI provider to route agent requests to a custom OpenAI-compatible endpoint."@[0] == 'E',
        "Enabled"@.len() == 7,
        "Enabled"@[0] == 'E',
        "Enabled"@[1] == 'n',
        "Env ID: "@.len() == 8,
        "Env ID: "@[0] == 'E',
        "Global file search"@.len() == 18,
        "Global file search"@[0] == 'G',
        "Image: "@.len() == 7,
        "Image: "@[0] == 'I',
        "Image: "@[1] == 'm',
        "Index new folder"@.len() == 16,
        "Index new folder"@[0] == 'I',
        "Index new folder"@[2] == 'd',
        "Installed"@.len() == 9,
        "Installed"@[0] == 'I',
        "Installing..."@.len() == 13,
        "Installing..."@[0] == 'I',
        "Installing..."@[2] == 's',
        "Last edited: "@.len() == 13,
        "Last edited: "@[0] == 'L',
        "Last used: "@.len() == 11,
        "Last used: "@[0] == 'L',
        "Last used: "@[1] == 'a',
        "Learn more"@.len() == 10,
        "Learn more"@[0] == 'L',
        "Learn more"@[1] == 'e',
        "Learn more"@[3] == 'r',
        "Model"@.len() == 5,
        "Model"@[0] == 'M',
        "No index built"@.len() == 14,
        "No index built"@[0] == 'N',
        "Not running"@.len() == 11,
        "Not running"@[0] == 'N',
        "Not running"@[1] == 'o',
        "Not running"@[2] == 't',
        "Open Markdown files in Warp's Markdown Viewer by default"@.len() == 56,
        "Open Markdown files in Warp's Markdown Viewer by default"@[0] == 'O',
        "Open project rules"@.len() == 18,
        "Open project rules"@[0] == 'O',
        "Open project rules"@[5] == 'p',
        "Project explorer"@.len() == 16,
        "Project explorer"@[0] == 'P',
        "Project explorer"@[3] == 'j',
        "Repos: "@.len() == 7,
        "Repos: "@[0] == 'R',
        "Rules help the Warp Agent follow your conventions, whether for codebases or specific workflows. "@.len() == 96,
        "Rules help the Warp Agent follow your conventions, whether for codebases or specific workflows. "@[0] == 'R',
        "Setup commands: "@.len() == 16,
        "Setup commands: "@[0] == 'S',
        "Setup commands: "@[1] == 'e',
        "Setup commands: "@[2] == 't',
        "Shared by Warp and "@.len() == 19,
        "Shared by Warp and "@[0] == 'S',
        "Shared by Warp and "@[1] == 'h',
        "Shared by Warp and "@[2] == 'a',
        "Show a button in the top right of the window to toggle the code review panel."@.len() == 77,
        "Show a button in the top right of the window to toggle the code review panel."@[0] == 'S',
        "Show code review button"@.len() == 23,
        "Show code review button"@[0] == 'S',
        "Show code review button"@[1] == 'h',
        "Show code review button"@[2] == 'o',
        "Show diff stats on code review button"@.len() == 37,
        "Show diff stats on code review button"@[0] == 'S',
        "Show diff stats on code review button"@[1] == 'h',
        "Show diff stats on code review button"@[2] == 'o',
        "Show lines added and removed counts on the code review button."@.len() == 62,
        "Show lines added and removed counts on the code review button."@[0] == 'S',
        "Show lines added and removed counts on the code review button."@[1] == 'h',
        "Stale"@.len() == 5,
        "Stale"@[0] == 'S',
        "Stale"@[1] == 't',
        "Stopped"@.len() == 7,
        "Stopped"@[0] == 'S',
        "Stopped"@[1] == 't',
        "Synced"@.len() == 6,
        "Synced"@[0] == 'S',
        "Synced"@[1] == 'y',
        "Synced"@[2] == 'n',
        "Syncing - {completed_nodes} / {total_nodes}"@.len() == 43,
        "Syncing - {completed_nodes} / {total_nodes}"@[0] == 'S',
        "Syncing..."@.len() == 10,
        "Syncing..."@[0] == 'S',
        "Syncing..."@[1] == 'y',
        "The API key for authentication. Leave empty if no key is required."@.len() == 66,
        "The API key for authentication. Leave empty if no key is required."@[0] == 'T',
        "The API key for authentication. Leave empty if no key is required. Edit in settings.toml."@.len() == 89,
        "The base URL of the OpenAI-compatible API endpoint."@.len() == 51,
        "The base URL of the OpenAI-compatible API endpoint."@[0] == 'T',
        "The base URL of the OpenAI-compatible API endpoint. Edit in settings.toml."@.len() == 74,
        "The model name to use for API requests (e.g. gpt-4, mimo-v2.5)."@.len() == 63,
        "The model name to use for API requests (e.g. gpt-4, mimo-v2.5). Edit in settings.toml."@.len() == 86,
        "The model name to use for API requests (e.g. gpt-4, mimo-v2.5). Edit in settings.toml."@[0] == 'T',
        "Unable to share environment: environment is not yet synced."@.len() == 59,
        "When this setting is on, the code review panel will open on the first accepted diff of a conversation"@.len() == 101,
        "When this setting is on, the code review panel will open on the first accepted diff of a conversation"@[0] == 'W',
        "When this setting is on, the code review panel will open on the first accepted diff of a conversation"@[1] == 'h',
{
    reveal_strlit("(not set)");
    reveal_strlit("API Key");
    reveal_strlit("Adds an IDE-style project explorer / file tree to the left side tools panel.");
    reveal_strlit("Adds global file search to the left side tools panel.");
    reveal_strlit("Auto open code review panel");
    reveal_strlit("Available");
    reveal_strlit("Available for download");
    reveal_strlit("Base URL");
    reveal_strlit("Busy");
    reveal_strlit("Checking...");
    reveal_strlit("Codebase too large");
    reveal_strlit("Discovered {total_nodes} chunks");
    reveal_strlit("Enable local AI provider to route agent requests to a custom OpenAI-compatible endpoint.");
    reveal_strlit("Enabled");
    reveal_strlit("Env ID: ");
    reveal_strlit("Global file search");
    reveal_strlit("Image: ");
    reveal_strlit("Index new folder");
    reveal_strlit("Installed");
    reveal_strlit("Installing...");
    reveal_strlit("Last edited: ");
    reveal_strlit("Last used: ");
    reveal_strlit("Learn more");
    reveal_strlit("Model");
    reveal_strlit("No index built");
    reveal_strlit("Not running");
    reveal_strlit("Open Markdown files in Warp's Markdown Viewer by default");
    reveal_strlit("Open project rules");
    reveal_strlit("Project explorer");
    reveal_strlit("Repos: ");
    reveal_strlit("Rules help the Warp Agent follow your conventions, whether for codebases or specific workflows. ");
    reveal_strlit("Setup commands: ");
    reveal_strlit("Shared by Warp and ");
    reveal_strlit("Show a button in the top right of the window to toggle the code review panel.");
    reveal_strlit("Show code review button");
    reveal_strlit("Show diff stats on code review button");
    reveal_strlit("Show lines added and removed counts on the code review button.");
    reveal_strlit("Stale");
    reveal_strlit("Stopped");
    reveal_strlit("Synced");
    reveal_strlit("Syncing - {completed_nodes} / {total_nodes}");
    reveal_strlit("Syncing...");
    reveal_strlit("The API key for authentication. Leave empty if no key is required.");
    reveal_strlit("The API key for authentication. Leave empty if no key is required. Edit in settings.toml.");
    reveal_strlit("The base URL of the OpenAI-compatible API endpoint.");
    reveal_strlit("The base URL of the OpenAI-compatible API endpoint. Edit in settings.toml.");
    reveal_strlit("The model name to use for API requests (e.g. gpt-4, mimo-v2.5).");
    reveal_strlit("The model name to use for API requests (e.g. gpt-4, mimo-v2.5). Edit in settings.toml.");
    reveal_strlit("Unable to share environment: environment is not yet synced.");
    reveal_strlit("When this setting is on, the code review panel will open on the first accepted diff of a conversation");
}

/// The lengths of the English strings of block 13 of the settings dictionary, and the
/// characters that tell strings of equal length apart.
proof fn lemma_dictionary_keys_13()
    ensures
        "Agent"@.len() == 5,
        "Agent"@[0] == 'A',
        "Agent"@[1] == 'g',
        "Agent font"@.len() == 10,
        "Agent font"@[0] == 'A',
        "Agent font"@[1] == 'g',
        "Allowed Values: 1-20"@.len() == 20,
        "Allowed Values: 1-20"@[0] == 'A',
        "Allowed Values: 1-20"@[1] == 'l',
        "Automatically switch between light and dark themes when your system does."@.len() == 73,
        "Automatically switch between light and dark themes when your system does."@[0] == 'A',
        "Blinking cursor"@.len() == 15,
        "Blinking cursor"@[0] == 'B',
        "Changing the app icon requires the app to be bundled."@.len() == 53,
        "Changing the app icon requires the app to be bundled."@[0] == 'C',
        "Choose a layout to open files in Warp"@.len() == 37,
        "Choose a layout to open files in Warp"@[0] == 'C',
        "Choose an editor to open file links"@.len() == 35,
        "Choose an editor to open file links"@[0] == 'C',
        "Choose an editor to open file links"@[1] == 'h',
        "Choose an editor to open files from the code review panel, project explorer, and global search"@.len() == 94,
        "Cloud Oz"@.len() == 8,
        "Cloud Oz"@[0] == 'C',
        "Columns"@.len() == 7,
        "Columns"@[0] == 'C',
        "Columns"@[1] == 'o',
        "Columns"@[2] == 'l',
        "Create your own custom theme"@.len() == 28,
        "Create your own custom theme"@[0] == 'C',
        "Current theme"@.len() == 13,
        "Current theme"@[0] == 'C',
        "Current theme"@[1] == 'u',
        "Cursor type"@.len() == 11,
        "Cursor type"@[0] == 'C',
        "Cursor type"@[1] == 'u',
        "Customize your app icon"@.len() == 23,
        "Customize your app icon"@[0] == 'C',
        "Customize your app icon"@[1] == 'u',
        "Customize your app icon"@[6] == 'i',
        "Default App"@.len() == 11,
        "Default App"@[0] == 'D',
        "Default App"@[2] == 'f',
        "Default mode for new sessions"@.len() == 29,
        "Default mode for new sessions"@[0] == 'D',
        "Default mode for new sessions"@[1] == 'e',
        "Default shell for new sessions"@.len() == 30,
        "Default shell for new sessions"@[0] == 'D',
        "Enforce minimum contrast"@.len() == 24,
        "Enforce minimum contrast"@[0] == 'E',
        "Full-screen Apps"@.len() == 16,
        "Full-screen Apps"@[0] == 'F',
        "Group files into single editor pane"@.len() == 35,
        "Group files into single editor pane"@[0] == 'G',
        "Input position"@.len() == 14,
        "Input position"@[0] == 'I',
        "Input position"@[2] == 'p',
        "Lines scrolled by mouse wheel interval"@.len() == 38,
        "Lines scrolled by mouse wheel interval"@[0] == 'L',
        "Local Docker Sandbox"@.len() == 20,
        "Local Docker Sandbox"@[0] == 'L',
        "Make Warp the default terminal"@.len() == 30,
        "Make Warp the default terminal"@[0] == 'M',
        "Make Warp the default terminal"@[1] == 'a',
        "Maximum rows in a block"@.len() == 23,
        "Maximum rows in a block"@[0] == 'M',
        "New Tab"@.len() == 7,
        "New Tab"@[0] == 'N',
        "New Tab"@[1] == 'e',
        "New Tab"@[4] == 'T',
        "Open new windows with custom size"@.len() == 33,
        "Open new windows with custom size"@[0] == 'O',
        "Open new windows with custom size"@[5] == 'n',
        "Quit when all windows are closed"@.len() == 32,
        "Quit when all windows are closed"@[0] == 'Q',
        "Rows"@.len() == 4,
        "Rows"@[0] == 'R',
        "Show Jump to Bottom of Block button"@.len() == 35,
        "Show Jump to Bottom of Block button"@[0] == 'S',
        "Show block dividers"@.len() == 19,
        "Show block dividers"@[0] == 'S',
        "Show block dividers"@[1] == 'h',
        "Show block dividers"@[2] == 'o',
        "Show block dividers"@[5] == 'b',
        "Show changelog toast after updates"@.len() == 34,
        "Show changelog toast after updates"@[0] == 'S',
        "Show changelog toast after updates"@[6] == 'h',
        "Show ligatures in terminal"@.len() == 26,
        "Show ligatures in terminal"@[0] == 'S',
        "Show ligatures in terminal"@[1] == 'h',
        "Show ligatures in terminal"@[5] == 'l',
        "Show sticky command header"@.len() == 26,
        "Show sticky command header"@[0] == 'S',
        "Show sticky command header"@[1] == 'h',
        "Show sticky command header"@[5] == 's',
        "Show tab indicators"@.len() == 19,
        "Show tab indicators"@[0] == 'S',
        "Show tab indicators"@[1] == 'h',
        "Show tab indicators"@[2] == 'o',
        "Show tab indicators"@[5] == 't',
        "Show tooltip on click on links"@.len() == 30,
        "Show tooltip on click on links"@[0] == 'S',
        "Show warning before quitting/logging out"@.len() == 40,
        "Show warning before quitting/logging out"@[0] == 'S',
        "Show warning before quitting/logging out"@[1] == 'h',
        "Split Pane"@.len() == 10,
        "Split Pane"@[0] == 'S',
        "Split Pane"@[1] == 'p',
        "Split Pane"@[6] == 'P',
        "Start Warp at login"@.len() == 19,
        "Start Warp at login"@[0] == 'S',
        "Start Warp at login"@[1] == 't',
        "Start Warp at login (requires macOS 13+)"@.len() == 40,
        "Start Warp at login (requires macOS 13+)"@[0] == 'S',
        "Start Warp at login (requires macOS 13+)"@[1] == 't',
        "Supports floating point values between 1 and 20."@.len() == 48,
        "Supports floating point values between 1 and 20."@[0] == 'S',
        "Tab Config"@.len() == 10,
        "Tab Config"@[0] == 'T',
        "Tab close button position"@.len() == 25,
        "Tab close button position"@[0] == 'T',
        "Terminal font"@.len() == 13,
        "Terminal font"@[0] == 'T',
        "Tools panel visibility is consistent across tabs"@.len() == 48,
        "Tools panel visibility is consistent across tabs"@[0] == 'T',
        "Tools panel visibility is consistent across tabs"@[1] == 'o',
        "Use thin strokes"@.len() == 16,
        "Use thin strokes"@[0] == 'U',
        "Use thin strokes"@[1] == 's',
        "Use thin strokes"@[2] == 'e',
        "Warp is the default terminal"@.len() == 28,
        "Warp is the default terminal"@[0] == 'W',
        "When this setting is on, any files opened in the same tab will be automatically grouped into a single editor pane."@.len() == 114,
        "When this setting is on, any files opened in the same tab will be automatically grouped into a single editor pane."@[0] == 'W',
        "update your payment information"@.len() == 31,
        "update your payment information"@[0] == 'u',
{
    reveal_strlit("Agent");
    reveal_strlit("Agent font");
    reveal_strlit("Allowed Values: 1-20");
    reveal_strlit("Automatically switch between light and dark themes when your system does.");
    reveal_strlit("Blinking cursor");
    reveal_strlit("Changing the app icon requires the app to be bundled.");
    reveal_strlit("Choose a layout to open files in Warp");
    reveal_strlit("Choose an editor to open file links");
    reveal_strlit("Choose an editor to open files from the code review panel, project explorer, and global search");
    reveal_strlit("Cloud Oz");
    reveal_strlit("Columns");
    reveal_strlit("Create your own custom theme");
    reveal_strlit("Current theme");
    reveal_strlit("Cursor type");
    reveal_strlit("Customize your app icon");
    reveal_strlit("Default App");
    reveal_strlit("Default mode for new sessions");
    reveal_strlit("Default shell for new sessions");
    reveal_strlit("Enforce minimum contrast");
    reveal_strlit("Full-screen Apps");
    reveal_strlit("Group files into single editor pane");
    reveal_strlit("Input position");
    reveal_strlit("Lines scrolled by mouse wheel interval");
    reveal_strlit("Local Docker Sandbox");
    reveal_strlit("Make Warp the default terminal");
    reveal_strlit("Maximum rows in a block");
    reveal_strlit("New Tab");
    reveal_strlit("Open new windows with custom size");
    reveal_strlit("Quit when all windows are closed");
    reveal_strlit("Rows");
    reveal_strlit("Show Jump to Bottom of Block button");
    reveal_strlit("Show block dividers");
    reveal_strlit("Show changelog toast after updates");
    reveal_strlit("Show ligatures in terminal");
    reveal_strlit("Show sticky command header");
    reveal_strlit("Show tab indicators");
    reveal_strlit("Show tooltip on click on links");
    reveal_strlit("Show warning before quitting/logging out");
    reveal_strlit("Split Pane");
    reveal_strlit("Start Warp at login");
    reveal_strlit("Start Warp at login (requires macOS 13+)");
    reveal_strlit("Supports floating point values between 1 and 20.");
    reveal_strlit("Tab Config");
    reveal_strlit("Tab close button position");
    reveal_strlit("Terminal font");
    reveal_strlit("Tools panel visibility is consistent across tabs");
    reveal_strlit("Use thin strokes");
    reveal_strlit("Warp is the default terminal");
    reveal_strlit("When this setting is on, any files opened in the same tab will be automatically grouped into a single editor pane.");
    reveal_strlit("update your payment information");
}

/// The lengths of the English strings of block 14 of the settings dictionary, and the
/// characters that tell strings of equal length apart.
proof fn lemma_dictionary_keys_14()
    ensures
        "Added commands"@.len() == 14,
        "Added commands"@[0] == 'A',
        "Added commands"@[1] == 'd',
        "Added commands"@[3] == 'e',
        "Advanced"@.len() == 8,
        "Advanced"@[0] == 'A',
        "Advanced"@[2] == 'v',
        "Configure whether Warp attempts to \u{201c}Warpify\u{201d} (add support for blocks, input modes, etc) certain shells. "@.len() == 104,
        "Controls the installation behavior for Warp's SSH extension when a remote host doesn't have it installed."@.len() == 105,
        "Custom directory"@.len() == 16,
        "Custom directory"@[0] == 'C',
        "Custom directory"@[1] == 'u',
        "Denylisted commands"@.len() == 19,
        "Denylisted commands"@[0] == 'D',
        "Denylisted commands"@[1] == 'e',
        "Denylisted commands"@[2] == 'n',
        "Denylisted hosts"@.len() == 16,
        "Denylisted hosts"@[0] == 'D',
        "Enable reopening of closed sessions"@.len() == 35,
        "Enable reopening of closed sessions"@[0] == 'E',
        "Enable reopening of closed sessions"@[7] == 'r',
        "Grace period (seconds)"@.len() == 22,
        "Grace period (seconds)"@[0] == 'G',
        "Home directory"@.len() == 14,
        "Home directory"@[0] == 'H',
        "Install SSH extension"@.len() == 21,
        "Install SSH extension"@[0] == 'I',
        "Previous session's directory"@.len() == 28,
        "Previous session's directory"@[0] == 'P',
        "SSH session detection for Warpification"@.len() == 39,
        "SSH session detection for Warpification"@[1] == 'S',
        "Subshells supported: bash, zsh, and fish."@.len() == 41,
        "Subshells supported: bash, zsh, and fish."@[0] == 'S',
        "The tmux ssh wrapper works in many situations where the default one does not, but may require you to hit a button to warpify. Takes effect in new tabs."@.len() == 151,
        "Use Tmux Warpification"@.len() == 22,
        "Use Tmux Warpification"@[0] == 'U',
        "Warpify SSH Sessions"@.len() == 20,
        "Warpify SSH Sessions"@[0] == 'W',
        "Warpify your interactive SSH sessions."@.len() == 38,
        "Warpify your interactive SSH sessions."@[0] == 'W',
        "Working directory for new sessions"@.len() == 34,
        "Working directory for new sessions"@[0] == 'W',
{
    reveal_strlit("Added commands");
    reveal_strlit("Advanced");
    reveal_strlit("Configure whether Warp attempts to \u{201c}Warpify\u{201d} (add support for blocks, input modes, etc) certain shells. ");
    reveal_strlit("Controls the installation behavior for Warp's SSH extension when a remote host doesn't have it installed.");
    reveal_strlit("Custom directory");
    reveal_strlit("Denylisted commands");
    reveal_strlit("Denylisted hosts");
    reveal_strlit("Enable reopening of closed sessions");
    reveal_strlit("Grace period (seconds)");
    reveal_strlit("Home directory");
    reveal_strlit("Install SSH extension");
    reveal_strlit("Previous session's directory");
    reveal_strlit("SSH session detection for Warpification");
    reveal_strlit("Subshells supported: bash, zsh, and fish.");
    reveal_strlit("The tmux ssh wrapper works in many situations where the default one does not, but may require you to hit a button to warpify. Takes effect in new tabs.");
    reveal_strlit("Use Tmux Warpification");
    reveal_strlit("Warpify SSH Sessions");
    reveal_strlit("Warpify your interactive SSH sessions.");
    reveal_strlit("Working directory for new sessions");
}

/// Entries 1 to 10 of the settings dictionary, as the table of settings renderings gives them.
#[verifier::rlimit(100)]
pub proof fn lemma_dictionary_entries_0_0()
    ensures
        settings_zh_cn_literal_text("Cancel"@)
            == Some("取消"@),
        settings_zh_cn_literal_text("Clear"@)
            == Some("清除"@),
        settings_zh_cn_literal_text("Custom"@)
            == Some("自定义"@),
        settings_zh_cn_literal_text("Default"@)
            == Some("默认"@),
        settings_zh_cn_literal_text("No settings match your search."@)
            == Some("没有匹配的设置。"@),
        settings_zh_cn_literal_text("Reset to default"@)
            == Some("恢复默认"@),
        settings_zh_cn_literal_text("Save"@)
            == Some("保存"@),
        settings_zh_cn_literal_text("Search"@)
            == Some("搜索"@),
        settings_zh_cn_literal_text("This setting is not synced to your other devices"@)
            == Some("此设置不会同步到您的其他设备"@),
        settings_zh_cn_literal_text("You may want to try using different keywords or checking for any possible typos."@)
            == Some("可以尝试使用其他关键词，或检查是否有拼写错误。"@),
{
    lemma_dictionary_keys_0();
}

/// Entries 11 to 20 of the settings dictionary, as the table of settings renderings gives them.
#[verifier::rlimit(100)]
pub proof fn lemma_dictionary_entries_0_1()
    ensures
        settings_zh_cn_literal_text("Account"@)
            == Some("账户"@),
        settings_zh_cn_literal_text("Appearance"@)
            == Some("外观"@),
        settings_zh_cn_literal_text("Billing and usage"@)
            == Some("账单和用量"@),
        settings_zh_cn_literal_text("Code Editor and Review"@)
            == Some("代码编辑器和代码审查"@),
        settings_zh_cn_literal_text("Codebase Indexing"@)
            == Some("代码库索引"@),
        settings_zh_cn_literal_text("Features"@)
            == Some("功能"@),
        settings_zh_cn_literal_text("Keyboard shortcuts"@)
            == Some("键盘快捷键"@),
        settings_zh_cn_literal_text("MCP Servers"@)
            == Some("MCP 服务器"@),
        settings_zh_cn_literal_text("Privacy"@)
            == Some("隐私"@),
        settings_zh_cn_literal_text("Search MCP Servers"@)
            == Some("搜索 MCP 服务器"@),
{
    lemma_dictionary_keys_0();
}

/// Entries 21 to 30 of the settings dictionary, as the table of settings renderings gives them.
#[verifier::rlimit(100)]
pub proof fn lemma_dictionary_entries_0_2()
    ensures
        settings_zh_cn_literal_text("Ask a team admin to enable overages for more AI usage."@)
            == Some("请联系团队管理员启用超额用量以获得更多 AI 用量。"@),
        settings_zh_cn_literal_text("Auto reload is disabled due to recent failed reload. Please update your payment method and try again."@)
            == Some("由于最近一次重新加载失败，自动重新加载已禁用。请更新您的付款方式并重试。"@),
        settings_zh_cn_literal_text("Auto reload is disabled, as the next reload would exceed your monthly spend limit. Increase your limit to use auto reload."@)
            == Some("自动重新加载已禁用，因为下一次重新加载将超出您的每月支出限额。请提高限额以使用自动重新加载。"@),
        settings_zh_cn_literal_text("Continue using premium models beyond your plan's limits. Usage is charged in $20 increments up to your spending limit, with any remaining balance charged on your scheduled billing date."@)
            == Some("继续使用超出套餐限制的高级模型。用量将以 20 美元为增量收费，最高至您的支出限额，任何剩余余额将在您的预定计费日期收取。"@),
        settings_zh_cn_literal_text("Edit config"@)
            == Some("编辑配置"@),
        settings_zh_cn_literal_text("Increase your limit"@)
            == Some("提高限额"@),
        settings_zh_cn_literal_text("Oz Cloud API Keys"@)
            == Some("Oz Cloud API 密钥"@),
        settings_zh_cn_literal_text("Reloading would exceed your monthly limit. "@)
            == Some("重新加载将超出您的每月限额。"@),
        settings_zh_cn_literal_text("Restricted due to billing issue. Update your payment method to purchase add-on credits."@)
            == Some("由于账单问题受限。请更新您的付款方式以购买额外额度。"@),
        settings_zh_cn_literal_text("Set up"@)
            == Some("设置"@),
{
    lemma_dictionary_keys_0();
}

/// Entries 31 to 40 of the settings dictionary, as the table of settings renderings gives them.
#[verifier::rlimit(100)]
pub proof fn lemma_dictionary_entries_0_3()
    ensures
        settings_zh_cn_literal_text(" to continue."@)
            == Some(" 以继续。"@),
        settings_zh_cn_literal_text("Add-on credits are purchased in prepaid packages that roll over each billing cycle and expire after one year. The more you purchase, the better the per-credit rate. Once your base plan credits are used, add-on credits will be consumed."@)
            == Some("额外额度通过预付包购买，可在每个计费周期结转，并在一年后过期。购买越多，单价越低。一旦您的基础套餐额度用完，将消耗额外额度。"@),
        settings_zh_cn_literal_text("Add-on credits are purchased in prepaid packages that roll over each billing cycle and expire after one year. The more you purchase, the better the per-credit rate. Once your base plan credits are used, add-on credits will be consumed. Purchased add-on credits are shared across your team."@)
            == Some("额外额度通过预付包购买，可在每个计费周期结转，并在一年后过期。购买越多，单价越低。一旦您的基础套餐额度用完，将消耗额外额度。购买的额外额度由您的团队共享。"@),
        settings_zh_cn_literal_text("Cloud agent trial"@)
            == Some("云智能体试用"@),
        settings_zh_cn_literal_text("Enterprise credit usage isn't fully available in this view yet. Contact a team admin for detailed usage reporting."@)
            == Some("企业版额度用量在此视图中尚不完全可用。请联系团队管理员获取详细的用量报告。"@),
        settings_zh_cn_literal_text("Enterprise credit usage isn't fully available in this view yet. For the most accurate spend tracking, "@)
            == Some("企业版额度用量在此视图中尚不完全可用。为了获得最准确的支出跟踪，"@),
        settings_zh_cn_literal_text("Overage spending limit"@)
            == Some("超额支出限额"@),
        settings_zh_cn_literal_text("Purchased add-on credits are shared across your team."@)
            == Some("购买的额外额度由您的团队共享。"@),
        settings_zh_cn_literal_text("Usage reporting is currently limited"@)
            == Some("用量报告目前受限"@),
        settings_zh_cn_literal_text("visit the admin panel"@)
            == Some("访问管理面板"@),
{
    lemma_dictionary_keys_0();
}

/// Entries 41 to 50 of the settings dictionary, as the table of settings renderings gives them.
#[verifier::rlimit(100)]
pub proof fn lemma_dictionary_entries_0_4()
    ensures
        settings_zh_cn_literal_text("Add-on credits"@)
            == Some("额外额度"@),
        settings_zh_cn_literal_text("Buy more"@)
            == Some("购买更多"@),
        settings_zh_cn_literal_text("Failed to update workspace settings"@)
            == Some("更新工作空间设置失败"@),
        settings_zh_cn_literal_text("Load more"@)
            == Some("加载更多"@),
        settings_zh_cn_literal_text("Monthly overage spending limit"@)
            == Some("每月超额支出限额"@),
        settings_zh_cn_literal_text("Monthly spending limit"@)
            == Some("每月支出限额"@),
        settings_zh_cn_literal_text("New agent"@)
            == Some("新建智能体"@),
        settings_zh_cn_literal_text("Not set"@)
            == Some("未设置"@),
        settings_zh_cn_literal_text("Sets the monthly overage spending limit beyond the plan amount"@)
            == Some("设置超出套餐金额的每月超额支出限额"@),
        settings_zh_cn_literal_text("Successfully purchased add-on credits"@)
            == Some("成功购买额外额度"@),
{
    lemma_dictionary_keys_0();
}

/// Entries 51 to 60 of the settings dictionary, as the table of settings renderings gives them.
#[verifier::rlimit(100)]
pub proof fn lemma_dictionary_entries_1_0()
    ensures
        settings_zh_cn_literal_text(" to purchase add-on credits."@)
            == Some(" 以购买额外额度。"@),
        settings_zh_cn_literal_text("1 credit remaining"@)
            == Some("剩余 1 额度"@),
        settings_zh_cn_literal_text("Auto reload"@)
            == Some("自动重新加载"@),
        settings_zh_cn_literal_text("Contact a team admin to purchase add-on credits."@)
            == Some("请联系团队管理员购买额外额度。"@),
        settings_zh_cn_literal_text("Contact your Account Executive for more add-on credits."@)
            == Some("请联系您的客户经理获取更多额外额度。"@),
        settings_zh_cn_literal_text("Monthly spend limit"@)
            == Some("每月支出限额"@),
        settings_zh_cn_literal_text("Purchased this month"@)
            == Some("本月已购买"@),
        settings_zh_cn_literal_text("Sets the monthly limit spent on add-on credits"@)
            == Some("设置每月购买额外额度的限额"@),
        settings_zh_cn_literal_text("Switch to the Build plan"@)
            == Some("切换到 Build 套餐"@),
        settings_zh_cn_literal_text("Upgrade to the Build plan"@)
            == Some("升级到 Build 套餐"@),
{
    lemma_dictionary_keys_0();
    lemma_dictionary_keys_1();
}

/// Entries 61 to 70 of the settings dictionary, as the table of settings renderings gives them.
#[verifier::rlimit(100)]
pub proof fn lemma_dictionary_entries_1_1()
    ensures
        settings_zh_cn_literal_text("1 credit"@)
            == Some("1 额度"@),
        settings_zh_cn_literal_text("Create and manage API keys to allow other Oz cloud agents to access your Warp account."@)
            == Some("创建并管理 API 密钥，允许其他 Oz 云端智能体访问您的 Warp 账户。"@),
        settings_zh_cn_literal_text("Create and manage API keys to allow other Oz cloud agents to access your Warp account.\nFor more information, visit the "@)
            == Some("创建并管理 API 密钥，允许其他 Oz 云端智能体访问您的 Warp 账户。\n欲了解更多信息，请访问 "@),
        settings_zh_cn_literal_text("Documentation."@)
            == Some("文档。"@),
        settings_zh_cn_literal_text("For more information, visit the "@)
            == Some("欲了解更多信息，请访问 "@),
        settings_zh_cn_literal_text("Name"@)
            == Some("名称"@),
        settings_zh_cn_literal_text("Note that AI credits made near your chosen limit may exceed it by a few dollars."@)
            == Some("请注意，在接近您选择的限额时产生的 AI 额度可能会超出限额几美元。"@),
        settings_zh_cn_literal_text("Please enter a price between $0.01 and $10,000,000"@)
            == Some("请输入 0.01 美元到 10,000,000 美元之间的价格"@),
        settings_zh_cn_literal_text("Please enter a valid currency amount"@)
            == Some("请输入有效的货币金额"@),
        settings_zh_cn_literal_text("Warp will prevent use of premium models when this dollar limit is reached. Resets on a monthly basis."@)
            == Some("达到此美元限额时，Warp 将阻止使用高级模型。每月重置一次。"@),
{
    lemma_dictionary_keys_0();
    lemma_dictionary_keys_1();
}

/// Entries 71 to 80 of the settings dictionary, as the table of settings renderings gives them.
#[verifier::rlimit(100)]
pub proof fn lemma_dictionary_entries_1_2()
    ensures
        settings_zh_cn_literal_text("Create a key to manage external access to Warp"@)
            == Some("创建密钥以管理 Warp 的外部访问"@),
        settings_zh_cn_literal_text("Created"@)
            == Some("创建时间"@),
        settings_zh_cn_literal_text("Expires at"@)
            == Some("过期时间"@),
        settings_zh_cn_literal_text("Key"@)
            == Some("密钥"@),
        settings_zh_cn_literal_text("Last used"@)
            == Some("最后使用"@),
        settings_zh_cn_literal_text("Never"@)
            == Some("永不过期"@),
        settings_zh_cn_literal_text("No API Keys"@)
            == Some("暂无 API 密钥"@),
        settings_zh_cn_literal_text("Personal"@)
            == Some("个人"@),
        settings_zh_cn_literal_text("Scope"@)
            == Some("作用域"@),
        settings_zh_cn_literal_text("Team"@)
            == Some("团队"@),
{
    lemma_dictionary_keys_0();
    lemma_dictionary_keys_1();
}

/// Entries 81 to 90 of the settings dictionary, as the table of settings renderings gives them.
#[verifier::rlimit(100)]
pub proof fn lemma_dictionary_entries_1_3()
    ensures
        settings_zh_cn_literal_text("+ Create API Key"@)
            == Some("+ 创建 API 密钥"@),
        settings_zh_cn_literal_text("1 day"@)
            == Some("1 天"@),
        settings_zh_cn_literal_text("30 days"@)
            == Some("30 天"@),
        settings_zh_cn_literal_text("Create key"@)
            == Some("创建密钥"@),
        settings_zh_cn_literal_text("Creating..."@)
            == Some("正在创建..."@),
        settings_zh_cn_literal_text("Done"@)
            == Some("完成"@),
        settings_zh_cn_literal_text("Expiration"@)
            == Some("过期时间"@),
        settings_zh_cn_literal_text("New API key"@)
            == Some("新建 API 密钥"@),
        settings_zh_cn_literal_text("Type"@)
            == Some("类型"@),
        settings_zh_cn_literal_text("Warp API Key"@)
            == Some("Warp API 密钥"@),
{
    lemma_dictionary_keys_0();
    lemma_dictionary_keys_1();
}

/// Entries 91 to 100 of the settings dictionary, as the table of settings renderings gives them.
#[verifier::rlimit(100)]
pub proof fn lemma_dictionary_entries_1_4()
    ensures
        settings_zh_cn_literal_text("90 days"@)
            == Some("90 天"@),
        settings_zh_cn_literal_text("Classic"@)
            == Some("经典模式"@),
        settings_zh_cn_literal_text("Compact"@)
            == Some("紧凑模式"@),
        settings_zh_cn_literal_text("Dark"@)
            == Some("深色主题"@),
        settings_zh_cn_literal_text("Input type"@)
            == Some("输入类型"@),
        settings_zh_cn_literal_text("Light"@)
            == Some("浅色主题"@),
        settings_zh_cn_literal_text("Themes"@)
            == Some("主题"@),
        settings_zh_cn_literal_text("This API key is tied to your team and can make requests on behalf of your team."@)
            == Some("此 API 密钥绑定到您的团队，可代表您的团队发起请求。"@),
        settings_zh_cn_literal_text("This API key is tied to your user and can make requests against your Warp account."@)
            == Some("此 API 密钥绑定到您的用户，可向您的 Warp 账户发起请求。"@),
        settings_zh_cn_literal_text("Warp"@)
            == Some("Warp 模式"@),
{
    lemma_dictionary_keys_0();
    lemma_dictionary_keys_1();
}

/// Entries 101 to 110 of the settings dictionary, as the table of settings renderings gives them.
#[verifier::rlimit(100)]
pub proof fn lemma_dictionary_entries_2_0()
    ensures
        settings_zh_cn_literal_text("Blocks"@)
            == Some("块"@),
        settings_zh_cn_literal_text("Cursor"@)
            == Some("光标"@),
        settings_zh_cn_literal_text("Fullscreen apps"@)
            == Some("全屏应用"@),
        settings_zh_cn_literal_text("General"@)
            == Some("常规"@),
        settings_zh_cn_literal_text("Icon"@)
            == Some("图标"@),
        settings_zh_cn_literal_text("Input"@)
            == Some("输入"@),
        settings_zh_cn_literal_text("Panes"@)
            == Some("面板"@),
        settings_zh_cn_literal_text("Tabs"@)
            == Some("标签页"@),
        settings_zh_cn_literal_text("Text"@)
            == Some("文本"@),
        settings_zh_cn_literal_text("Window"@)
            == Some("窗口"@),
{
    lemma_dictionary_keys_0();
    lemma_dictionary_keys_1();
    lemma_dictionary_keys_2();
}

/// Entries 111 to 120 of the settings dictionary, as the table of settings renderings gives them.
#[verifier::rlimit(100)]
pub proof fn lemma_dictionary_entries_2_1()
    ensures
        settings_zh_cn_literal_text("Keys"@)
            == Some("按键"@),
        settings_zh_cn_literal_text("Notifications"@)
            == Some("通知"@),
        settings_zh_cn_literal_text("Plan"@)
            == Some("方案"@),
        settings_zh_cn_literal_text("Session"@)
            == Some("会话"@),
        settings_zh_cn_literal_text("System"@)
            == Some("系统"@),
        settings_zh_cn_literal_text("Terminal"@)
            == Some("终端"@),
        settings_zh_cn_literal_text("Terminal Input"@)
            == Some("终端输入"@),
        settings_zh_cn_literal_text("Text Editing"@)
            == Some("文本编辑"@),
        settings_zh_cn_literal_text("Usage"@)
            == Some("用量"@),
        settings_zh_cn_literal_text("Workflows"@)
            == Some("工作流"@),
{
    lemma_dictionary_keys_0();
    lemma_dictionary_keys_1();
    lemma_dictionary_keys_2();
}

/// Entries 121 to 130 of the settings dictionary, as the table of settings renderings gives them.
#[verifier::rlimit(100)]
pub proof fn lemma_dictionary_entries_2_2()
    ensures
        settings_zh_cn_literal_text("Compact Mode"@)
            == Some("紧凑模式"@),
        settings_zh_cn_literal_text("Compact mode"@)
            == Some("紧凑模式"@),
        settings_zh_cn_literal_text("Cursor blink"@)
            == Some("光标闪烁"@),
        settings_zh_cn_literal_text("Referrals"@)
            == Some("推荐"@),
        settings_zh_cn_literal_text("Sync with OS"@)
            == Some("与系统同步主题"@),
        settings_zh_cn_literal_text("block dividers"@)
            == Some("块分隔线"@),
        settings_zh_cn_literal_text("compact mode"@)
            == Some("紧凑模式"@),
        settings_zh_cn_literal_text("cursor blink"@)
            == Some("光标闪烁"@),
        settings_zh_cn_literal_text("jump to bottom of block button"@)
            == Some("跳到底部块按钮"@),
        settings_zh_cn_literal_text("themes: sync with OS"@)
            == Some("与系统同步主题"@),
{
    lemma_dictionary_keys_0();
    lemma_dictionary_keys_1();
    lemma_dictionary_keys_2();
}

/// Entries 131 to 140 of the settings dictionary, as the table of settings renderings gives them.
#[verifier::rlimit(100)]
pub proof fn lemma_dictionary_entries_2_3()
    ensures
        settings_zh_cn_literal_text("Always show tab bar"@)
            == Some("始终显示标签栏"@),
        settings_zh_cn_literal_text("Block dividers"@)
            == Some("块分隔线"@),
        settings_zh_cn_literal_text("Dim inactive panes"@)
            == Some("淡化非活动面板"@),
        settings_zh_cn_literal_text("Focus follows mouse"@)
            == Some("焦点跟随鼠标"@),
        settings_zh_cn_literal_text("Tab indicators"@)
            == Some("标签页指示器"@),
        settings_zh_cn_literal_text("Zen mode"@)
            == Some("禅模式"@),
        settings_zh_cn_literal_text("dim inactive panes"@)
            == Some("淡化非活动面板"@),
        settings_zh_cn_literal_text("focus follows mouse"@)
            == Some("焦点跟随鼠标"@),
        settings_zh_cn_literal_text("tab indicators"@)
            == Some("标签页指示器"@),
        settings_zh_cn_literal_text("zen mode"@)
            == Some("禅模式"@),
{
    lemma_dictionary_keys_0();
    lemma_dictionary_keys_1();
    lemma_dictionary_keys_2();
}

/// Entries 141 to 150 of the settings dictionary, as the table of settings renderings gives them.
#[verifier::rlimit(100)]
pub proof fn lemma_dictionary_entries_2_4()
    ensures
        settings_zh_cn_literal_text("Hide code review button in tab bar"@)
            == Some("在标签栏隐藏代码审查按钮"@),
        settings_zh_cn_literal_text("Hide tab bar if fullscreen"@)
            == Some("全屏时隐藏标签栏"@),
        settings_zh_cn_literal_text("Match terminal"@)
            == Some("匹配终端"@),
        settings_zh_cn_literal_text("Only show tab bar on hover"@)
            == Some("悬停时显示标签栏"@),
        settings_zh_cn_literal_text("Pin Input to the Bottom"@)
            == Some("固定输入框到底部"@),
        settings_zh_cn_literal_text("Pin Input to the Top"@)
            == Some("固定输入框到顶部"@),
        settings_zh_cn_literal_text("Show code review button in tab bar"@)
            == Some("在标签栏显示代码审查按钮"@),
        settings_zh_cn_literal_text("Start Input at the Top"@)
            == Some("输入框置顶"@),
        settings_zh_cn_literal_text("Toggle Input Mode (Warp/Classic)"@)
            == Some("切换输入模式（Warp/经典）"@),
        settings_zh_cn_literal_text("View all available system fonts"@)
            == Some("查看所有可用系统字体"@),
{
    lemma_dictionary_keys_0();
    lemma_dictionary_keys_1();
    lemma_dictionary_keys_2();
}

/// Entries 151 to 160 of the settings dictionary, as the table of settings renderings gives them.
#[verifier::rlimit(100)]
pub proof fn lemma_dictionary_entries_3_0()
    ensures
        settings_zh_cn_literal_text("Autocomplete quotes and brackets"@)
            == Some("自动补全引号和括号"@),
        settings_zh_cn_literal_text("Copy on Select"@)
            == Some("选中即复制"@),
        settings_zh_cn_literal_text("Cursor type is disabled in Vim mode"@)
            == Some("Vim 模式下禁用光标类型设置"@),
        settings_zh_cn_literal_text("Font size (px)"@)
            == Some("字号 (px)"@),
        settings_zh_cn_literal_text("Font weight"@)
            == Some("字体粗细"@),
        settings_zh_cn_literal_text("Ligatures may reduce performance"@)
            == Some("连字可能会降低性能"@),
        settings_zh_cn_literal_text("Line height"@)
            == Some("行高"@),
        settings_zh_cn_literal_text("Notebook font size"@)
            == Some("笔记本字体大小"@),
        settings_zh_cn_literal_text("Restore windows, tabs, and panes on startup"@)
            == Some("启动时恢复窗口、标签页和面板"@),
        settings_zh_cn_literal_text("Scroll reporting"@)
            == Some("滚动上报"@),
{
    lemma_dictionary_keys_0();
    lemma_dictionary_keys_1();
    lemma_dictionary_keys_2();
    lemma_dictionary_keys_3();
}

/// Entries 161 to 170 of the settings dictionary, as the table of settings renderings gives them.
#[verifier::rlimit(100)]
pub proof fn lemma_dictionary_entries_3_1()
    ensures
        settings_zh_cn_literal_text("Audible terminal bell"@)
            == Some("终端提示音"@),
        settings_zh_cn_literal_text("Autosuggestions"@)
            == Some("自动建议"@),
        settings_zh_cn_literal_text("Command corrections"@)
            == Some("命令纠错"@),
        settings_zh_cn_literal_text("Directory path"@)
            == Some("目录路径"@),
        settings_zh_cn_literal_text("Enable SSH Wrapper"@)
            == Some("启用 SSH Wrapper"@),
        settings_zh_cn_literal_text("Error underlining"@)
            == Some("错误下划线"@),
        settings_zh_cn_literal_text("Executable path"@)
            == Some("可执行文件路径"@),
        settings_zh_cn_literal_text("Link tooltip"@)
            == Some("链接提示"@),
        settings_zh_cn_literal_text("Open completions menu as you type"@)
            == Some("输入时打开补全菜单"@),
        settings_zh_cn_literal_text("Syntax highlighting"@)
            == Some("语法高亮"@),
{
    lemma_dictionary_keys_0();
    lemma_dictionary_keys_1();
    lemma_dictionary_keys_2();
    lemma_dictionary_keys_3();
}

/// Entries 171 to 180 of the settings dictionary, as the table of settings renderings gives them.
#[verifier::rlimit(100)]
pub proof fn lemma_dictionary_entries_3_2()
    ensures
        settings_zh_cn_literal_text("Click to set global hotkey"@)
            == Some("点击设置全局热键"@),
        settings_zh_cn_literal_text("Keybinding"@)
            == Some("快捷键"@),
        settings_zh_cn_literal_text("Left Alt as Meta"@)
            == Some("左 Alt 作为 Meta"@),
        settings_zh_cn_literal_text("Left Option as Meta"@)
            == Some("左 Option 作为 Meta"@),
        settings_zh_cn_literal_text("Make Warp default terminal"@)
            == Some("将 Warp 设为默认终端"@),
        settings_zh_cn_literal_text("Right Alt as Meta"@)
            == Some("右 Alt 作为 Meta"@),
        settings_zh_cn_literal_text("Right Option as Meta"@)
            == Some("右 Option 作为 Meta"@),
        settings_zh_cn_literal_text("Tab key behavior"@)
            == Some("Tab 键行为"@),
        settings_zh_cn_literal_text("Vim status bar"@)
            == Some("Vim 状态栏"@),
        settings_zh_cn_literal_text("Vim unnamed register"@)
            == Some("Vim 未命名寄存器"@),
{
    lemma_dictionary_keys_0();
    lemma_dictionary_keys_1();
    lemma_dictionary_keys_2();
    lemma_dictionary_keys_3();
}

/// Entries 181 to 190 of the settings dictionary, as the table of settings renderings gives them.
#[verifier::rlimit(100)]
pub proof fn lemma_dictionary_entries_3_3()
    ensures
        settings_zh_cn_literal_text("Autohides on loss of keyboard focus"@)
            == Some("失去键盘焦点时自动隐藏"@),
        settings_zh_cn_literal_text("Change keybinding"@)
            == Some("更改快捷键"@),
        settings_zh_cn_literal_text("Code"@)
            == Some("代码"@),
        settings_zh_cn_literal_text("Codebase indexing"@)
            == Some("代码库索引"@),
        settings_zh_cn_literal_text("Index new folders by default"@)
            == Some("默认索引新文件夹"@),
        settings_zh_cn_literal_text("Initialization Settings"@)
            == Some("初始化设置"@),
        settings_zh_cn_literal_text("Initialized / indexed folders"@)
            == Some("已初始化/索引的文件夹"@),
        settings_zh_cn_literal_text("Not supported on Wayland. "@)
            == Some("Wayland 不支持。"@),
        settings_zh_cn_literal_text("See docs."@)
            == Some("查看文档。"@),
        settings_zh_cn_literal_text("seconds"@)
            == Some("秒"@),
{
    lemma_dictionary_keys_0();
    lemma_dictionary_keys_1();
    lemma_dictionary_keys_2();
    lemma_dictionary_keys_3();
}

/// Entries 191 to 200 of the settings dictionary, as the table of settings renderings gives them.
#[verifier::rlimit(100)]
pub proof fn lemma_dictionary_entries_3_4()
    ensures
        settings_zh_cn_literal_text("Add regex pattern"@)
            == Some("添加正则表达式"@),
        settings_zh_cn_literal_text("Custom secret redaction"@)
            == Some("自定义密钥脱敏"@),
        settings_zh_cn_literal_text("Failed"@)
            == Some("失败"@),
        settings_zh_cn_literal_text("INDEXING"@)
            == Some("索引"@),
        settings_zh_cn_literal_text("LSP SERVERS"@)
            == Some("LSP 服务器"@),
        settings_zh_cn_literal_text("No folders have been initialized yet."@)
            == Some("尚未初始化任何文件夹。"@),
        settings_zh_cn_literal_text("No index created"@)
            == Some("尚未创建索引"@),
        settings_zh_cn_literal_text("Restart server"@)
            == Some("重启服务器"@),
        settings_zh_cn_literal_text("Secret redaction"@)
            == Some("密钥脱敏"@),
        settings_zh_cn_literal_text("View logs"@)
            == Some("查看日志"@),
{
    lemma_dictionary_keys_0();
    lemma_dictionary_keys_1();
    lemma_dictionary_keys_2();
    lemma_dictionary_keys_3();
}

/// Entries 201 to 210 of the settings dictionary, as the table of settings renderings gives them.
#[verifier::rlimit(100)]
pub proof fn lemma_dictionary_entries_4_0()
    ensures
        settings_zh_cn_literal_text("Add regex"@)
            == Some("添加正则"@),
        settings_zh_cn_literal_text("Data management"@)
            == Some("数据管理"@),
        settings_zh_cn_literal_text("Invalid regex"@)
            == Some("无效正则"@),
        settings_zh_cn_literal_text("Name (optional)"@)
            == Some("名称（可选）"@),
        settings_zh_cn_literal_text("No enterprise regexes have been configured by your organization."@)
            == Some("您的组织尚未配置企业正则表达式。"@),
        settings_zh_cn_literal_text("Privacy policy"@)
            == Some("隐私政策"@),
        settings_zh_cn_literal_text("Regex pattern"@)
            == Some("正则表达式"@),
        settings_zh_cn_literal_text("Telemetry"@)
            == Some("遥测"@),
        settings_zh_cn_literal_text("ZDR"@)
            == Some("ZDR"@),
        settings_zh_cn_literal_text("e.g. \"Google API Key\""@)
            == Some("例如 \"Google API Key\""@),
{
    lemma_dictionary_keys_0();
    lemma_dictionary_keys_1();
    lemma_dictionary_keys_2();
    lemma_dictionary_keys_3();
    lemma_dictionary_keys_4();
}

/// Entries 211 to 220 of the settings dictionary, as the table of settings renderings gives them.
#[verifier::rlimit(100)]
pub proof fn lemma_dictionary_entries_4_1()
    ensures
        settings_zh_cn_literal_text("Agents"@)
            == Some("智能体"@),
        settings_zh_cn_literal_text("Exclusive theme"@)
            == Some("专属主题"@),
        settings_zh_cn_literal_text("Keycaps + stickers"@)
            == Some("键帽和贴纸"@),
        settings_zh_cn_literal_text("MODELS"@)
            == Some("模型"@),
        settings_zh_cn_literal_text("Models"@)
            == Some("模型"@),
        settings_zh_cn_literal_text("None"@)
            == Some("无"@),
        settings_zh_cn_literal_text("Notebook"@)
            == Some("笔记本"@),
        settings_zh_cn_literal_text("PERMISSIONS"@)
            == Some("权限"@),
        settings_zh_cn_literal_text("Sign up"@)
            == Some("注册"@),
        settings_zh_cn_literal_text("T-shirt"@)
            == Some("T 恤"@),
{
    lemma_dictionary_keys_0();
    lemma_dictionary_keys_1();
    lemma_dictionary_keys_2();
    lemma_dictionary_keys_3();
    lemma_dictionary_keys_4();
}

/// Entries 221 to 230 of the settings dictionary, as the table of settings renderings gives them.
#[verifier::rlimit(100)]
pub proof fn lemma_dictionary_entries_4_2()
    ensures
        settings_zh_cn_literal_text("Backpack"@)
            == Some("背包"@),
        settings_zh_cn_literal_text("Baseball cap"@)
            == Some("棒球帽"@),
        settings_zh_cn_literal_text("Compare plans"@)
            == Some("比较方案"@),
        settings_zh_cn_literal_text("Contact support"@)
            == Some("联系支持"@),
        settings_zh_cn_literal_text("Free"@)
            == Some("免费"@),
        settings_zh_cn_literal_text("Hoodie"@)
            == Some("连帽衫"@),
        settings_zh_cn_literal_text("Log out"@)
            == Some("退出登录"@),
        settings_zh_cn_literal_text("Premium Hydro Flask"@)
            == Some("高级保温瓶"@),
        settings_zh_cn_literal_text("Up to date"@)
            == Some("已是最新"@),
        settings_zh_cn_literal_text("Version"@)
            == Some("版本"@),
{
    lemma_dictionary_keys_0();
    lemma_dictionary_keys_1();
    lemma_dictionary_keys_2();
    lemma_dictionary_keys_3();
    lemma_dictionary_keys_4();
}

/// Entries 231 to 240 of the settings dictionary, as the table of settings renderings gives them.
#[verifier::rlimit(100)]
pub proof fn lemma_dictionary_entries_4_3()
    ensures
        settings_zh_cn_literal_text("Check for updates"@)
            == Some("检查更新"@),
        settings_zh_cn_literal_text("Installed update"@)
            == Some("已安装更新"@),
        settings_zh_cn_literal_text("Manage billing"@)
            == Some("管理账单"@),
        settings_zh_cn_literal_text("Overview"@)
            == Some("概览"@),
        settings_zh_cn_literal_text("Relaunch Warp"@)
            == Some("重启 Warp"@),
        settings_zh_cn_literal_text("Settings Sync"@)
            == Some("设置同步"@),
        settings_zh_cn_literal_text("Update available"@)
            == Some("有可用更新"@),
        settings_zh_cn_literal_text("Update manually"@)
            == Some("手动更新"@),
        settings_zh_cn_literal_text("Updating"@)
            == Some("正在更新"@),
        settings_zh_cn_literal_text("Usage History"@)
            == Some("用量历史"@),
{
    lemma_dictionary_keys_0();
    lemma_dictionary_keys_1();
    lemma_dictionary_keys_2();
    lemma_dictionary_keys_3();
    lemma_dictionary_keys_4();
}

/// Entries 241 to 250 of the settings dictionary, as the table of settings renderings gives them.
#[verifier::rlimit(100)]
pub proof fn lemma_dictionary_entries_4_4()
    ensures
        settings_zh_cn_literal_text("A to Z"@)
            == Some("A 到 Z"@),
        settings_zh_cn_literal_text("Enable premium model usage overages"@)
            == Some("启用高级模型超额用量"@),
        settings_zh_cn_literal_text("One-time purchase"@)
            == Some("一次性购买"@),
        settings_zh_cn_literal_text("Premium model usage overages are enabled"@)
            == Some("高级模型超额用量已启用"@),
        settings_zh_cn_literal_text("Premium model usage overages are not enabled"@)
            == Some("高级模型超额用量未启用"@),
        settings_zh_cn_literal_text("Total overages"@)
            == Some("总超额用量"@),
        settings_zh_cn_literal_text("Usage ascending"@)
            == Some("用量升序"@),
        settings_zh_cn_literal_text("Usage descending"@)
            == Some("用量降序"@),
        settings_zh_cn_literal_text("View details on overage usage"@)
            == Some("查看超额用量详情"@),
        settings_zh_cn_literal_text("Z to A"@)
            == Some("Z 到 A"@),
{
    lemma_dictionary_keys_0();
    lemma_dictionary_keys_1();
    lemma_dictionary_keys_2();
    lemma_dictionary_keys_3();
    lemma_dictionary_keys_4();
}

/// Entries 251 to 260 of the settings dictionary, as the table of settings renderings gives them.
#[verifier::rlimit(100)]
pub proof fn lemma_dictionary_entries_5_0()
    ensures
        settings_zh_cn_literal_text("Credits"@)
            == Some("额度"@),
        settings_zh_cn_literal_text("Last 30 days"@)
            == Some("最近 30 天"@),
        settings_zh_cn_literal_text("Next Command"@)
            == Some("下一条命令"@),
        settings_zh_cn_literal_text("No usage history"@)
            == Some("暂无用量历史"@),
        settings_zh_cn_literal_text("Prompt Suggestions"@)
            == Some("提示词建议"@),
        settings_zh_cn_literal_text("Sort by"@)
            == Some("排序方式"@),
        settings_zh_cn_literal_text("Suggested Code Banners"@)
            == Some("建议代码横幅"@),
        settings_zh_cn_literal_text("To use AI features, please create an account."@)
            == Some("要使用 AI 功能，请先创建账户。"@),
        settings_zh_cn_literal_text("Unlimited"@)
            == Some("无限制"@),
        settings_zh_cn_literal_text("Warp Agent"@)
            == Some("Warp 智能体"@),
{
    lemma_dictionary_keys_0();
    lemma_dictionary_keys_1();
    lemma_dictionary_keys_2();
    lemma_dictionary_keys_3();
    lemma_dictionary_keys_4();
    lemma_dictionary_keys_5();
}

/// Entries 261 to 270 of the settings dictionary, as the table of settings renderings gives them.
#[verifier::rlimit(100)]
pub proof fn lemma_dictionary_entries_5_1()
    ensures
        settings_zh_cn_literal_text("Add Profile"@)
            == Some("添加配置"@),
        settings_zh_cn_literal_text("Allow in specific directories"@)
            == Some("允许在特定目录中使用"@),
        settings_zh_cn_literal_text("Commit & Pull Request Generation"@)
            == Some("提交和拉取请求生成"@),
        settings_zh_cn_literal_text("Context window (tokens)"@)
            == Some("上下文窗口（Token）"@),
        settings_zh_cn_literal_text("Natural Language Autosuggestions"@)
            == Some("自然语言自动建议"@),
        settings_zh_cn_literal_text("Profiles"@)
            == Some("配置"@),
        settings_zh_cn_literal_text("Read only"@)
            == Some("只读"@),
        settings_zh_cn_literal_text("Shared Block Title Generation"@)
            == Some("共享块标题生成"@),
        settings_zh_cn_literal_text("Supervised"@)
            == Some("受监督"@),
        settings_zh_cn_literal_text("Toolbar layout"@)
            == Some("工具栏布局"@),
{
    lemma_dictionary_keys_0();
    lemma_dictionary_keys_1();
    lemma_dictionary_keys_2();
    lemma_dictionary_keys_3();
    lemma_dictionary_keys_4();
    lemma_dictionary_keys_5();
}

/// Entries 271 to 280 of the settings dictionary, as the table of settings renderings gives them.
#[verifier::rlimit(100)]
pub proof fn lemma_dictionary_entries_5_2()
    ensures
        settings_zh_cn_literal_text("Agent decides"@)
            == Some("智能体决定"@),
        settings_zh_cn_literal_text("Always allow"@)
            == Some("始终允许"@),
        settings_zh_cn_literal_text("Always ask"@)
            == Some("始终询问"@),
        settings_zh_cn_literal_text("Commands, comma separated"@)
            == Some("命令，用逗号分隔"@),
        settings_zh_cn_literal_text("Restricted due to billing issue"@)
            == Some("因账单问题受限"@),
        settings_zh_cn_literal_text("Select MCP servers"@)
            == Some("选择 MCP 服务器"@),
        settings_zh_cn_literal_text("Show model picker in prompt"@)
            == Some("在提示词中显示模型选择器"@),
        settings_zh_cn_literal_text("e.g. ls .*"@)
            == Some("例如 ls .*"@),
        settings_zh_cn_literal_text("e.g. rm .*"@)
            == Some("例如 rm .*"@),
        settings_zh_cn_literal_text("e.g. ~/code-repos/repo"@)
            == Some("例如 ~/code-repos/repo"@),
{
    lemma_dictionary_keys_0();
    lemma_dictionary_keys_1();
    lemma_dictionary_keys_2();
    lemma_dictionary_keys_3();
    lemma_dictionary_keys_4();
    lemma_dictionary_keys_5();
}

/// Entries 281 to 290 of the settings dictionary, as the table of settings renderings gives them.
#[verifier::rlimit(100)]
pub proof fn lemma_dictionary_entries_5_3()
    ensures
        settings_zh_cn_literal_text("Ask on first write"@)
            == Some("首次写入时询问"@),
        settings_zh_cn_literal_text("Ask unless auto-approve"@)
            == Some("除非自动批准否则询问"@),
        settings_zh_cn_literal_text("Let AI generate a title for your shared block based on the command and output."@)
            == Some("让 AI 根据命令和输出为您的共享块生成标题。"@),
        settings_zh_cn_literal_text("Let AI suggest code diffs and queries as inline banners in the blocklist, based on recent commands and their outputs."@)
            == Some("让 AI 根据最近的命令及其输出，在块列表中以行内横幅的形式建议代码差异和查询。"@),
        settings_zh_cn_literal_text("Let AI suggest natural language autosuggestions, based on recent commands and their outputs."@)
            == Some("让 AI 根据最近的命令及其输出，提供自然语言自动建议。"@),
        settings_zh_cn_literal_text("Let AI suggest natural language prompts, as inline banners in the input, based on recent commands and their outputs."@)
            == Some("让 AI 根据最近的命令及其输出，在输入框中以行内横幅的形式建议自然语言提示词。"@),
        settings_zh_cn_literal_text("Let AI suggest the next command to run based on your command history, outputs, and common workflows."@)
            == Some("让 AI 根据您的命令历史、输出和常见工作流建议下一条运行的命令。"@),
        settings_zh_cn_literal_text("Never ask"@)
            == Some("从不询问"@),
        settings_zh_cn_literal_text("Off"@)
            == Some("关闭"@),
        settings_zh_cn_literal_text("On"@)
            == Some("开启"@),
{
    lemma_dictionary_keys_0();
    lemma_dictionary_keys_1();
    lemma_dictionary_keys_2();
    lemma_dictionary_keys_3();
    lemma_dictionary_keys_4();
    lemma_dictionary_keys_5();
}

/// Entries 291 to 300 of the settings dictionary, as the table of settings renderings gives them.
#[verifier::rlimit(100)]
pub proof fn lemma_dictionary_entries_5_4()
    ensures
        settings_zh_cn_literal_text("Apply code diffs"@)
            == Some("应用代码差异"@),
        settings_zh_cn_literal_text("Call MCP servers"@)
            == Some("调用 MCP 服务器"@),
        settings_zh_cn_literal_text("Execute commands"@)
            == Some("执行命令"@),
        settings_zh_cn_literal_text("Interact with running commands"@)
            == Some("与运行中的命令交互"@),
        settings_zh_cn_literal_text("Let AI generate commit messages and pull request titles and descriptions."@)
            == Some("让 AI 生成提交信息以及拉取请求的标题和描述。"@),
        settings_zh_cn_literal_text("Profiles let you define how your Agent operates — from the actions it can take and when it needs approval, to the models it uses for tasks like coding and planning. You can also scope them to individual projects."@)
            == Some("配置允许您定义智能体的操作方式——从它可以采取的操作和何时需要批准，到它用于编码和规划等任务的模型。您还可以将它们的应用范围限制在单个项目。"@),
        settings_zh_cn_literal_text("Read files"@)
            == Some("读取文件"@),
        settings_zh_cn_literal_text("Set the boundaries for how your Agent operates. Choose what it can access, how much autonomy it has, and when it must ask for your approval. You can also fine-tune behavior around natural language input, codebase awareness, and more."@)
            == Some("为您的智能体设定操作边界。选择它可以访问的内容、它拥有的自主程度以及何时必须征得您的批准。您还可以微调有关自然语言输入、代码库感知等方面的行为。"@),
        settings_zh_cn_literal_text("Some of your permissions are managed by your workspace."@)
            == Some("您的某些权限由您的工作空间管理。"@),
        settings_zh_cn_literal_text("This model serves as the primary engine behind the Warp Agent. It powers most interactions and invokes other models for tasks like planning or code generation when necessary. Warp may automatically switch to alternate models based on model availability or for auxiliary tasks such as conversation summarization."@)
            == Some("该模型作为 Warp 智能体背后的主要引擎。它驱动大多数交互，并在必要时调用其他模型来执行规划或代码生成等任务。Warp 可能会根据模型可用性或会话摘要等辅助任务自动切换到备选模型。"@),
{
    lemma_dictionary_keys_0();
    lemma_dictionary_keys_1();
    lemma_dictionary_keys_2();
    lemma_dictionary_keys_3();
    lemma_dictionary_keys_4();
    lemma_dictionary_keys_5();
}

/// Entries 301 to 310 of the settings dictionary, as the table of settings renderings gives them.
#[verifier::rlimit(100)]
pub proof fn lemma_dictionary_entries_6_0()
    ensures
        settings_zh_cn_literal_text(" or "@)
            == Some(" 或 "@),
        settings_zh_cn_literal_text("Add a server"@)
            == Some("添加服务器"@),
        settings_zh_cn_literal_text("Allow the Warp Agent to call these MCP servers."@)
            == Some("允许 Warp 智能体调用这些 MCP 服务器。"@),
        settings_zh_cn_literal_text("Allow the Warp Agent to generate an outline of your codebase that can be used for context. No code is ever stored on our servers. "@)
            == Some("允许 Warp 智能体生成代码库的大纲，以便用作上下文。我们的服务器上不会存储任何代码。"@),
        settings_zh_cn_literal_text("Command denylist"@)
            == Some("命令黑名单"@),
        settings_zh_cn_literal_text("MCP allowlist"@)
            == Some("MCP 白名单"@),
        settings_zh_cn_literal_text("MCP denylist"@)
            == Some("MCP 黑名单"@),
        settings_zh_cn_literal_text("The Warp Agent will always ask for permission before calling any MCP servers on this list."@)
            == Some("在调用此列表中的任何 MCP 服务器之前，Warp 智能体将始终请求许可。"@),
        settings_zh_cn_literal_text("You haven't added any MCP servers yet. Once you do, you'll be able to control how much autonomy the Warp Agent has when interacting with them. "@)
            == Some("您尚未添加任何 MCP 服务器。添加后，您将能够控制 Warp 智能体在与其交互时的自主程度。"@),
        settings_zh_cn_literal_text("learn more about MCPs."@)
            == Some("了解有关 MCP 的更多信息。"@),
{
    lemma_dictionary_keys_0();
    lemma_dictionary_keys_1();
    lemma_dictionary_keys_2();
    lemma_dictionary_keys_3();
    lemma_dictionary_keys_4();
    lemma_dictionary_keys_5();
    lemma_dictionary_keys_6();
}

/// Entries 311 to 320 of the settings dictionary, as the table of settings renderings gives them.
#[verifier::rlimit(100)]
pub proof fn lemma_dictionary_entries_6_1()
    ensures
        settings_zh_cn_literal_text("Command allowlist"@)
            == Some("命令白名单"@),
        settings_zh_cn_literal_text("Directory allowlist"@)
            == Some("目录白名单"@),
        settings_zh_cn_literal_text("Give the agent file access to certain directories."@)
            == Some("授予智能体对某些目录的文件访问权限。"@),
        settings_zh_cn_literal_text("Regular expressions to match commands that can be automatically executed by the Warp Agent."@)
            == Some("匹配可由 Warp 智能体自动执行的命令的正则表达式。"@),
        settings_zh_cn_literal_text("Regular expressions to match commands that the Warp Agent should always ask permission to execute."@)
            == Some("匹配 Warp 智能体执行前应始终请求许可的命令的正则表达式。"@),
        settings_zh_cn_literal_text("Search by name or by keys (ex. \"cmd d\")"@)
            == Some("按名称或按键搜索（例如 \"cmd d\"）"@),
        settings_zh_cn_literal_text("Team name"@)
            == Some("团队名称"@),
        settings_zh_cn_literal_text("Teams"@)
            == Some("团队"@),
        settings_zh_cn_literal_text("This credit limit is prorated because this user joined midway through the billing cycle."@)
            == Some("由于该用户是在账单周期中途加入，额度会按比例折算。"@),
        settings_zh_cn_literal_text("Your credit limit is prorated because you joined midway through the billing cycle."@)
            == Some("由于您是在账单周期中途加入，额度会按比例折算。"@),
{
    lemma_dictionary_keys_0();
    lemma_dictionary_keys_1();
    lemma_dictionary_keys_2();
    lemma_dictionary_keys_3();
    lemma_dictionary_keys_4();
    lemma_dictionary_keys_5();
    lemma_dictionary_keys_6();
}

/// Entries 321 to 330 of the settings dictionary, as the table of settings renderings gives them.
#[verifier::rlimit(100)]
pub proof fn lemma_dictionary_entries_6_2()
    ensures
        settings_zh_cn_literal_text("Create a team"@)
            == Some("创建团队"@),
        settings_zh_cn_literal_text("Invite by Email"@)
            == Some("通过邮箱邀请"@),
        settings_zh_cn_literal_text("Invite by Link"@)
            == Some("通过链接邀请"@),
        settings_zh_cn_literal_text("Leave Team"@)
            == Some("离开团队"@),
        settings_zh_cn_literal_text("Leave team"@)
            == Some("离开团队"@),
        settings_zh_cn_literal_text("Make team discoverable"@)
            == Some("允许发现团队"@),
        settings_zh_cn_literal_text("Or, join an existing team within your company"@)
            == Some("或者，加入您公司内现有的团队"@),
        settings_zh_cn_literal_text("Restrict by domain"@)
            == Some("按域名限制"@),
        settings_zh_cn_literal_text("Team Members"@)
            == Some("团队成员"@),
        settings_zh_cn_literal_text("Team members"@)
            == Some("团队成员"@),
{
    lemma_dictionary_keys_0();
    lemma_dictionary_keys_1();
    lemma_dictionary_keys_2();
    lemma_dictionary_keys_3();
    lemma_dictionary_keys_4();
    lemma_dictionary_keys_5();
    lemma_dictionary_keys_6();
}

/// Entries 331 to 340 of the settings dictionary, as the table of settings renderings gives them.
#[verifier::rlimit(100)]
pub proof fn lemma_dictionary_entries_6_3()
    ensures
        settings_zh_cn_literal_text("Cancel invite"@)
            == Some("取消邀请"@),
        settings_zh_cn_literal_text("Create"@)
            == Some("创建"@),
        settings_zh_cn_literal_text("Create Team"@)
            == Some("创建团队"@),
        settings_zh_cn_literal_text("Delete Team"@)
            == Some("删除团队"@),
        settings_zh_cn_literal_text("Delete team"@)
            == Some("删除团队"@),
        settings_zh_cn_literal_text("Demote from admin"@)
            == Some("取消管理员身份"@),
        settings_zh_cn_literal_text("Promote to admin"@)
            == Some("提升为管理员"@),
        settings_zh_cn_literal_text("Transfer"@)
            == Some("转让"@),
        settings_zh_cn_literal_text("Transfer ownership"@)
            == Some("转让所有权"@),
        settings_zh_cn_literal_text("Transfer team ownership?"@)
            == Some("转让团队所有权？"@),
{
    lemma_dictionary_keys_0();
    lemma_dictionary_keys_1();
    lemma_dictionary_keys_2();
    lemma_dictionary_keys_3();
    lemma_dictionary_keys_4();
    lemma_dictionary_keys_5();
    lemma_dictionary_keys_6();
}

/// Entries 341 to 350 of the settings dictionary, as the table of settings renderings gives them.
#[verifier::rlimit(100)]
pub proof fn lemma_dictionary_entries_6_4()
    ensures
        settings_zh_cn_literal_text("ADMIN"@)
            == Some("管理员"@),
        settings_zh_cn_literal_text("EXPIRED"@)
            == Some("已过期"@),
        settings_zh_cn_literal_text("Manage plan"@)
            == Some("管理方案"@),
        settings_zh_cn_literal_text("OWNER"@)
            == Some("所有者"@),
        settings_zh_cn_literal_text("PAST DUE"@)
            == Some("逾期"@),
        settings_zh_cn_literal_text("PENDING"@)
            == Some("待处理"@),
        settings_zh_cn_literal_text("Remove domain"@)
            == Some("移除域名"@),
        settings_zh_cn_literal_text("Remove from team"@)
            == Some("从团队移除"@),
        settings_zh_cn_literal_text("Reset links"@)
            == Some("重置链接"@),
        settings_zh_cn_literal_text("UNPAID"@)
            == Some("未付款"@),
{
    lemma_dictionary_keys_0();
    lemma_dictionary_keys_1();
    lemma_dictionary_keys_2();
    lemma_dictionary_keys_3();
    lemma_dictionary_keys_4();
    lemma_dictionary_keys_5();
    lemma_dictionary_keys_6();
}

/// Entries 351 to 360 of the settings dictionary, as the table of settings renderings gives them.
#[verifier::rlimit(100)]
pub proof fn lemma_dictionary_entries_7_0()
    ensures
        settings_zh_cn_literal_text("1 teammate"@)
            == Some("1 位队友"@),
        settings_zh_cn_literal_text("Free plan usage limits"@)
            == Some("免费方案用量限制"@),
        settings_zh_cn_literal_text("Join"@)
            == Some("加入"@),
        settings_zh_cn_literal_text("Open admin panel"@)
            == Some("打开管理面板"@),
        settings_zh_cn_literal_text("Plan usage limits"@)
            == Some("方案用量限制"@),
        settings_zh_cn_literal_text("Shared Notebooks"@)
            == Some("共享笔记本"@),
        settings_zh_cn_literal_text("Shared Workflows"@)
            == Some("共享工作流"@),
        settings_zh_cn_literal_text("Upgrade to Build"@)
            == Some("升级到 Build"@),
        settings_zh_cn_literal_text("Upgrade to Lightspeed plan"@)
            == Some("升级到 Lightspeed 方案"@),
        settings_zh_cn_literal_text("Upgrade to Turbo plan"@)
            == Some("升级到 Turbo 方案"@),
{
    lemma_dictionary_keys_0();
    lemma_dictionary_keys_1();
    lemma_dictionary_keys_2();
    lemma_dictionary_keys_3();
    lemma_dictionary_keys_4();
    lemma_dictionary_keys_5();
    lemma_dictionary_keys_6();
    lemma_dictionary_keys_7();
}

/// Entries 361 to 370 of the settings dictionary, as the table of settings renderings gives them.
#[verifier::rlimit(100)]
pub proof fn lemma_dictionary_entries_7_1()
    ensures
        settings_zh_cn_literal_text("Allow Warp users with the same email domain as you to find and join the team."@)
            == Some("允许与您使用相同邮箱域名的 Warp 用户发现并加入此团队。"@),
        settings_zh_cn_literal_text("Contact Admin to request access"@)
            == Some("联系管理员申请访问权限"@),
        settings_zh_cn_literal_text("Domains, comma separated"@)
            == Some("域名，用逗号分隔"@),
        settings_zh_cn_literal_text("Emails, comma separated"@)
            == Some("邮箱地址，用逗号分隔"@),
        settings_zh_cn_literal_text("Failed to load invite link."@)
            == Some("无法加载邀请链接。"@),
        settings_zh_cn_literal_text("Invite"@)
            == Some("邀请"@),
        settings_zh_cn_literal_text("Join this team and start collaborating on workflows, notebooks, and more."@)
            == Some("加入此团队，开始协作处理工作流、笔记本等内容。"@),
        settings_zh_cn_literal_text("Set"@)
            == Some("设置"@),
        settings_zh_cn_literal_text("You appear to be offline."@)
            == Some("您似乎处于离线状态。"@),
        settings_zh_cn_literal_text("Your new team name"@)
            == Some("您的新团队名称"@),
{
    lemma_dictionary_keys_0();
    lemma_dictionary_keys_1();
    lemma_dictionary_keys_2();
    lemma_dictionary_keys_3();
    lemma_dictionary_keys_4();
    lemma_dictionary_keys_5();
    lemma_dictionary_keys_6();
    lemma_dictionary_keys_7();
}

/// Entries 371 to 380 of the settings dictionary, as the table of settings renderings gives them.
#[verifier::rlimit(100)]
pub proof fn lemma_dictionary_entries_7_2()
    ensures
        settings_zh_cn_literal_text("Copy link"@)
            == Some("复制链接"@),
        settings_zh_cn_literal_text("Keyboard shortcuts are not synced to the cloud"@)
            == Some("键盘快捷键不会同步到云端"@),
        settings_zh_cn_literal_text("Link copied"@)
            == Some("链接已复制"@),
        settings_zh_cn_literal_text("Loading"@)
            == Some("正在加载"@),
        settings_zh_cn_literal_text("SSH"@)
            == Some("SSH"@),
        settings_zh_cn_literal_text("Send"@)
            == Some("发送"@),
        settings_zh_cn_literal_text("Sending"@)
            == Some("正在发送"@),
        settings_zh_cn_literal_text("Subshells"@)
            == Some("子 Shell"@),
        settings_zh_cn_literal_text("This shortcut conflicts with other keybinds"@)
            == Some("此快捷键与其他键绑定冲突"@),
        settings_zh_cn_literal_text("Unshare"@)
            == Some("取消共享"@),
{
    lemma_dictionary_keys_0();
    lemma_dictionary_keys_1();
    lemma_dictionary_keys_2();
    lemma_dictionary_keys_3();
    lemma_dictionary_keys_4();
    lemma_dictionary_keys_5();
    lemma_dictionary_keys_6();
    lemma_dictionary_keys_7();
}

/// Entries 381 to 390 of the settings dictionary, as the table of settings renderings gives them.
#[verifier::rlimit(100)]
pub proof fn lemma_dictionary_entries_7_3()
    ensures
        settings_zh_cn_literal_text(" for more AI usage."@)
            == Some(" 以获得更多 AI 用量。"@),
        settings_zh_cn_literal_text(" to get more AI usage."@)
            == Some(" 以获得更多 AI 用量。"@),
        settings_zh_cn_literal_text(" to use your own API keys."@)
            == Some(" 以使用您自己的 API 密钥。"@),
        settings_zh_cn_literal_text(", "@)
            == Some("、"@),
        settings_zh_cn_literal_text(", or "@)
            == Some(" 或 "@),
        settings_zh_cn_literal_text("Commands that enable the toolbar"@)
            == Some("启用工具栏的命令"@),
        settings_zh_cn_literal_text("Encountered an incorrect detection? "@)
            == Some("检测结果不正确？"@),
        settings_zh_cn_literal_text("Show a toolbar with quick actions when running coding agents like "@)
            == Some("运行 "@),
        settings_zh_cn_literal_text("Show coding agent toolbar"@)
            == Some("显示编码智能体工具栏"@),
        settings_zh_cn_literal_text("Third party CLI agents"@)
            == Some("第三方 CLI 智能体"@),
{
    lemma_dictionary_keys_0();
    lemma_dictionary_keys_1();
    lemma_dictionary_keys_2();
    lemma_dictionary_keys_3();
    lemma_dictionary_keys_4();
    lemma_dictionary_keys_5();
    lemma_dictionary_keys_6();
    lemma_dictionary_keys_7();
}

/// Entries 391 to 400 of the settings dictionary, as the table of settings renderings gives them.
#[verifier::rlimit(100)]
pub proof fn lemma_dictionary_entries_7_4()
    ensures
        settings_zh_cn_literal_text("."@)
            == Some(" 等编码智能体时，显示带快捷操作的工具栏。"@),
        settings_zh_cn_literal_text("Auto dismiss Rich Input after prompt submission"@)
            == Some("提交提示词后自动关闭富输入"@),
        settings_zh_cn_literal_text("Auto open Rich Input when a coding agent session starts"@)
            == Some("编码智能体会话开始时自动打开富输入"@),
        settings_zh_cn_literal_text("Auto show/hide Rich Input based on agent status"@)
            == Some("根据智能体状态自动显示/隐藏富输入"@),
        settings_zh_cn_literal_text("Characters considered part of a word"@)
            == Some("单词界定字符"@),
        settings_zh_cn_literal_text("New tab"@)
            == Some("新标签页"@),
        settings_zh_cn_literal_text("New window"@)
            == Some("新窗口"@),
        settings_zh_cn_literal_text("Requires the Warp plugin for your coding agent"@)
            == Some("需要为您的编码智能体安装 Warp 插件"@),
        settings_zh_cn_literal_text("Split pane"@)
            == Some("分屏"@),
        settings_zh_cn_literal_text("Unshare block"@)
            == Some("取消共享块"@),
{
    lemma_dictionary_keys_0();
    lemma_dictionary_keys_1();
    lemma_dictionary_keys_2();
    lemma_dictionary_keys_3();
    lemma_dictionary_keys_4();
    lemma_dictionary_keys_5();
    lemma_dictionary_keys_6();
    lemma_dictionary_keys_7();
}

/// Entries 401 to 410 of the settings dictionary, as the table of settings renderings gives them.
#[verifier::rlimit(100)]
pub proof fn lemma_dictionary_entries_8_0()
    ensures
        settings_zh_cn_literal_text("Attach File"@)
            == Some("附加文件"@),
        settings_zh_cn_literal_text("Autodetection"@)
            == Some("自动检测"@),
        settings_zh_cn_literal_text("Available chips"@)
            == Some("可用标签"@),
        settings_zh_cn_literal_text("Context Chip"@)
            == Some("上下文标签"@),
        settings_zh_cn_literal_text("Left side"@)
            == Some("左侧"@),
        settings_zh_cn_literal_text("Model Selector"@)
            == Some("模型选择器"@),
        settings_zh_cn_literal_text("Restore default"@)
            == Some("恢复默认"@),
        settings_zh_cn_literal_text("Right side"@)
            == Some("右侧"@),
        settings_zh_cn_literal_text("Save changes"@)
            == Some("保存更改"@),
        settings_zh_cn_literal_text("Voice Input"@)
            == Some("语音输入"@),
{
    lemma_dictionary_keys_0();
    lemma_dictionary_keys_1();
    lemma_dictionary_keys_2();
    lemma_dictionary_keys_3();
    lemma_dictionary_keys_4();
    lemma_dictionary_keys_5();
    lemma_dictionary_keys_6();
    lemma_dictionary_keys_7();
    lemma_dictionary_keys_8();
}

/// Entries 411 to 420 of the settings dictionary, as the table of settings renderings gives them.
#[verifier::rlimit(100)]
pub proof fn lemma_dictionary_entries_8_1()
    ensures
        settings_zh_cn_literal_text("Context Usage"@)
            == Some("上下文用量"@),
        settings_zh_cn_literal_text("Fast Forward"@)
            == Some("快速前进"@),
        settings_zh_cn_literal_text("File Explorer"@)
            == Some("文件浏览器"@),
        settings_zh_cn_literal_text("Hand off to cloud"@)
            == Some("移交到云端"@),
        settings_zh_cn_literal_text("Rich Input"@)
            == Some("富输入"@),
        settings_zh_cn_literal_text("Settings"@)
            == Some("设置"@),
        settings_zh_cn_literal_text("Your organization disallows AI when the active pane contains content from a remote session"@)
            == Some("当活动面板包含远程会话内容时，您的组织不允许使用 AI"@),
        settings_zh_cn_literal_text("aws login"@)
            == Some("aws login"@),
        settings_zh_cn_literal_text("command (supports regex)"@)
            == Some("命令（支持正则表达式）"@),
        settings_zh_cn_literal_text("default"@)
            == Some("default"@),
{
    lemma_dictionary_keys_0();
    lemma_dictionary_keys_1();
    lemma_dictionary_keys_2();
    lemma_dictionary_keys_3();
    lemma_dictionary_keys_4();
    lemma_dictionary_keys_5();
    lemma_dictionary_keys_6();
    lemma_dictionary_keys_7();
    lemma_dictionary_keys_8();
}

/// Entries 421 to 430 of the settings dictionary, as the table of settings renderings gives them.
#[verifier::rlimit(100)]
pub proof fn lemma_dictionary_entries_8_2()
    ensures
        settings_zh_cn_literal_text("Copy Link"@)
            == Some("复制链接"@),
        settings_zh_cn_literal_text("Deleting"@)
            == Some("正在删除"@),
        settings_zh_cn_literal_text("Deleting..."@)
            == Some("正在删除..."@),
        settings_zh_cn_literal_text("Failed to load blocks. Please try again."@)
            == Some("加载共享块失败。请重试。"@),
        settings_zh_cn_literal_text("Getting blocks..."@)
            == Some("正在获取共享块..."@),
        settings_zh_cn_literal_text("Open Settings File"@)
            == Some("打开设置文件"@),
        settings_zh_cn_literal_text("Open settings file"@)
            == Some("打开设置文件"@),
        settings_zh_cn_literal_text("Warp Drive is a workspace in your terminal where you can save Workflows, Notebooks, Prompts, and Environment Variables for personal use or to share with a team."@)
            == Some("Warp Drive 是终端中的工作空间，可保存工作流、笔记本、提示词和环境变量，供个人使用或与团队共享。"@),
        settings_zh_cn_literal_text("You don't have any shared blocks yet."@)
            == Some("您还没有任何共享块。"@),
        settings_zh_cn_literal_text("host (supports regex)"@)
            == Some("主机（支持正则表达式）"@),
{
    lemma_dictionary_keys_0();
    lemma_dictionary_keys_1();
    lemma_dictionary_keys_2();
    lemma_dictionary_keys_3();
    lemma_dictionary_keys_4();
    lemma_dictionary_keys_5();
    lemma_dictionary_keys_6();
    lemma_dictionary_keys_7();
    lemma_dictionary_keys_8();
}

/// Entries 431 to 440 of the settings dictionary, as the table of settings renderings gives them.
#[verifier::rlimit(100)]
pub proof fn lemma_dictionary_entries_8_3()
    ensures
        settings_zh_cn_literal_text("Add"@)
            == Some("添加"@),
        settings_zh_cn_literal_text("Add MCP servers to extend the Warp Agent's capabilities. MCP servers expose data sources or tools to agents through a standardized interface, essentially acting like plugins. Add a custom server, or use the presets to get started with popular servers. You can also find team servers that have been shared with you here. "@)
            == Some("添加 MCP 服务器以扩展 Warp 智能体的功能。MCP 服务器通过标准化接口向智能体公开数据源或工具，本质上充当插件。您可以添加自定义服务器，或使用预设快速上手热门服务器。您还可以在此找到团队共享给您的服务器。"@),
        settings_zh_cn_literal_text("Auto-spawn servers from third-party agents"@)
            == Some("自动启动第三方智能体的服务器"@),
        settings_zh_cn_literal_text("Automatically detect and spawn MCP servers from globally-scoped third-party AI agent configuration files (e.g. in your home directory). Servers detected inside a repository are never spawned automatically and must be enabled individually in the \"Detected from\" sections below. "@)
            == Some("自动检测并启动来自全局第三方 AI 智能体配置文件（例如主目录中）的 MCP 服务器。在仓库中检测到的服务器不会自动启动，必须在下方的\u{201c}检测来源\u{201d}部分中单独启用。"@),
        settings_zh_cn_literal_text("Available to install"@)
            == Some("可安装"@),
        settings_zh_cn_literal_text("No search results found"@)
            == Some("未找到搜索结果"@),
        settings_zh_cn_literal_text("Once you add a MCP server, it will be shown here."@)
            == Some("添加 MCP 服务器后，将在此处显示。"@),
        settings_zh_cn_literal_text("See supported providers."@)
            == Some("查看支持的提供商。"@),
        settings_zh_cn_literal_text("Share with team"@)
            == Some("与团队共享"@),
        settings_zh_cn_literal_text("e.g. cd my-repo && pip install -r requirements.txt"@)
            == Some("例如 cd my-repo && pip install -r requirements.txt"@),
{
    lemma_dictionary_keys_0();
    lemma_dictionary_keys_1();
    lemma_dictionary_keys_2();
    lemma_dictionary_keys_3();
    lemma_dictionary_keys_4();
    lemma_dictionary_keys_5();
    lemma_dictionary_keys_6();
    lemma_dictionary_keys_7();
    lemma_dictionary_keys_8();
}

/// Entries 441 to 450 of the settings dictionary, as the table of settings renderings gives them.
#[verifier::rlimit(100)]
pub proof fn lemma_dictionary_entries_8_4()
    ensures
        settings_zh_cn_literal_text("Detected from"@)
            == Some("检测来源"@),
        settings_zh_cn_literal_text("Detected from config file"@)
            == Some("从配置文件检测"@),
        settings_zh_cn_literal_text("From another device"@)
            == Some("来自其他设备"@),
        settings_zh_cn_literal_text("Learn more."@)
            == Some("了解更多。"@),
        settings_zh_cn_literal_text("My MCPs"@)
            == Some("我的 MCP"@),
        settings_zh_cn_literal_text("Shared by Warp and"@)
            == Some("由 Warp 和"@),
        settings_zh_cn_literal_text("Shared by Warp and from other devices"@)
            == Some("由 Warp 共享及来自其他设备"@),
        settings_zh_cn_literal_text("Shared by a team member"@)
            == Some("由团队成员共享"@),
        settings_zh_cn_literal_text("Shared from Warp"@)
            == Some("从 Warp 共享"@),
        settings_zh_cn_literal_text("global"@)
            == Some("全局"@),
{
    lemma_dictionary_keys_0();
    lemma_dictionary_keys_1();
    lemma_dictionary_keys_2();
    lemma_dictionary_keys_3();
    lemma_dictionary_keys_4();
    lemma_dictionary_keys_5();
    lemma_dictionary_keys_6();
    lemma_dictionary_keys_7();
    lemma_dictionary_keys_8();
}

/// Entries 451 to 460 of the settings dictionary, as the table of settings renderings gives them.
#[verifier::rlimit(100)]
pub proof fn lemma_dictionary_entries_9_0()
    ensures
        settings_zh_cn_literal_text("Add New MCP Server"@)
            == Some("添加新 MCP 服务器"@),
        settings_zh_cn_literal_text("Delete MCP"@)
            == Some("删除 MCP"@),
        settings_zh_cn_literal_text("Edit MCP Server"@)
            == Some("编辑 MCP 服务器"@),
        settings_zh_cn_literal_text("Edit Variables"@)
            == Some("编辑变量"@),
        settings_zh_cn_literal_text("JSON"@)
            == Some("JSON"@),
        settings_zh_cn_literal_text("MCP server updated"@)
            == Some("MCP 服务器已更新"@),
        settings_zh_cn_literal_text("No MCP Server specified."@)
            == Some("未指定 MCP 服务器。"@),
        settings_zh_cn_literal_text("Only team admins and the creator of the MCP server can edit the MCP server."@)
            == Some("只有团队管理员和 MCP 服务器的创建者才能编辑该服务器。"@),
        settings_zh_cn_literal_text("Shared by"@)
            == Some("共享者"@),
        settings_zh_cn_literal_text("This MCP server contains secrets. Visit Settings > Privacy to modify your secret redaction settings."@)
            == Some("此 MCP 服务器包含密钥。请前往设置 > 隐私 修改密钥脱敏设置。"@),
{
    lemma_dictionary_keys_0();
    lemma_dictionary_keys_1();
    lemma_dictionary_keys_2();
    lemma_dictionary_keys_3();
    lemma_dictionary_keys_4();
    lemma_dictionary_keys_5();
    lemma_dictionary_keys_6();
    lemma_dictionary_keys_7();
    lemma_dictionary_keys_8();
    lemma_dictionary_keys_9();
}

/// Entries 461 to 470 of the settings dictionary, as the table of settings renderings gives them.
#[verifier::rlimit(100)]
pub proof fn lemma_dictionary_entries_9_1()
    ensures
        settings_zh_cn_literal_text("Authenticating..."@)
            == Some("正在认证..."@),
        settings_zh_cn_literal_text("Cannot add multiple MCP servers while editing a single server."@)
            == Some("编辑单个服务器时不能添加多个 MCP 服务器。"@),
        settings_zh_cn_literal_text("Delete MCP server?"@)
            == Some("删除 MCP 服务器？"@),
        settings_zh_cn_literal_text("Delete shared MCP server?"@)
            == Some("删除共享 MCP 服务器？"@),
        settings_zh_cn_literal_text("Offline"@)
            == Some("离线"@),
        settings_zh_cn_literal_text("Remove shared MCP server from team?"@)
            == Some("从团队中移除共享 MCP 服务器？"@),
        settings_zh_cn_literal_text("Starting server..."@)
            == Some("正在启动服务器..."@),
        settings_zh_cn_literal_text("This will not only delete this MCP server for yourself, but also uninstall and remove this MCP server from Warp and across all of your teammates' devices."@)
            == Some("这不仅会为您删除此 MCP 服务器，还会从 Warp 及所有队友的设备上卸载并移除此服务器。"@),
        settings_zh_cn_literal_text("This will uninstall and remove this MCP server from Warp and across all of your teammates' devices."@)
            == Some("这将从 Warp 及所有队友的设备上卸载并移除此 MCP 服务器。"@),
        settings_zh_cn_literal_text("This will uninstall and remove this MCP server from all your devices."@)
            == Some("这将从您所有设备上卸载并移除此 MCP 服务器。"@),
{
    lemma_dictionary_keys_0();
    lemma_dictionary_keys_1();
    lemma_dictionary_keys_2();
    lemma_dictionary_keys_3();
    lemma_dictionary_keys_4();
    lemma_dictionary_keys_5();
    lemma_dictionary_keys_6();
    lemma_dictionary_keys_7();
    lemma_dictionary_keys_8();
    lemma_dictionary_keys_9();
}

/// Entries 471 to 480 of the settings dictionary, as the table of settings renderings gives them.
#[verifier::rlimit(100)]
pub proof fn lemma_dictionary_entries_9_2()
    ensures
        settings_zh_cn_literal_text("Edit"@)
            == Some("编辑"@),
        settings_zh_cn_literal_text("No tools available"@)
            == Some("没有可用工具"@),
        settings_zh_cn_literal_text("No updates available"@)
            == Some("没有可用更新"@),
        settings_zh_cn_literal_text("Server"@)
            == Some("服务器"@),
        settings_zh_cn_literal_text("Server update available"@)
            == Some("服务器有可用更新"@),
        settings_zh_cn_literal_text("Share server"@)
            == Some("共享服务器"@),
        settings_zh_cn_literal_text("Show logs"@)
            == Some("显示日志"@),
        settings_zh_cn_literal_text("Shutting down..."@)
            == Some("正在关闭..."@),
        settings_zh_cn_literal_text("a team member"@)
            == Some("团队成员"@),
        settings_zh_cn_literal_text("another device"@)
            == Some("其他设备"@),
{
    lemma_dictionary_keys_0();
    lemma_dictionary_keys_1();
    lemma_dictionary_keys_2();
    lemma_dictionary_keys_3();
    lemma_dictionary_keys_4();
    lemma_dictionary_keys_5();
    lemma_dictionary_keys_6();
    lemma_dictionary_keys_7();
    lemma_dictionary_keys_8();
    lemma_dictionary_keys_9();
}

/// Entries 481 to 490 of the settings dictionary, as the table of settings renderings gives them.
#[verifier::rlimit(100)]
pub proof fn lemma_dictionary_entries_9_3()
    ensures
        settings_zh_cn_literal_text("Apply code diffs:"@)
            == Some("应用代码差异："@),
        settings_zh_cn_literal_text("Auto"@)
            == Some("自动"@),
        settings_zh_cn_literal_text("Base model:"@)
            == Some("基础模型："@),
        settings_zh_cn_literal_text("Computer use:"@)
            == Some("计算机使用："@),
        settings_zh_cn_literal_text("Full terminal use:"@)
            == Some("完整终端使用："@),
        settings_zh_cn_literal_text("Install"@)
            == Some("安装"@),
        settings_zh_cn_literal_text("No MCP server selected"@)
            == Some("未选择 MCP 服务器"@),
        settings_zh_cn_literal_text("Shared from team"@)
            == Some("从团队共享"@),
        settings_zh_cn_literal_text("This server has"@)
            == Some("此服务器有"@),
        settings_zh_cn_literal_text("updates available, which would you like to proceed with?"@)
            == Some("个更新可用，您想继续哪个？"@),
{
    lemma_dictionary_keys_0();
    lemma_dictionary_keys_1();
    lemma_dictionary_keys_2();
    lemma_dictionary_keys_3();
    lemma_dictionary_keys_4();
    lemma_dictionary_keys_5();
    lemma_dictionary_keys_6();
    lemma_dictionary_keys_7();
    lemma_dictionary_keys_8();
    lemma_dictionary_keys_9();
}

/// Entries 491 to 500 of the settings dictionary, as the table of settings renderings gives them.
#[verifier::rlimit(100)]
pub proof fn lemma_dictionary_entries_9_4()
    ensures
        settings_zh_cn_literal_text("Ask questions:"@)
            == Some("提问："@),
        settings_zh_cn_literal_text("Auto-sync plans to Warp Drive:"@)
            == Some("自动同步计划到 Warp Drive："@),
        settings_zh_cn_literal_text("Call MCP servers:"@)
            == Some("调用 MCP 服务器："@),
        settings_zh_cn_literal_text("Call web tools:"@)
            == Some("调用 Web 工具："@),
        settings_zh_cn_literal_text("Command allowlist:"@)
            == Some("命令白名单："@),
        settings_zh_cn_literal_text("Directory allowlist:"@)
            == Some("目录白名单："@),
        settings_zh_cn_literal_text("Execute commands:"@)
            == Some("执行命令："@),
        settings_zh_cn_literal_text("Interact with running commands:"@)
            == Some("与运行中的命令交互："@),
        settings_zh_cn_literal_text("Read files:"@)
            == Some("读取文件："@),
        settings_zh_cn_literal_text("Unknown"@)
            == Some("未知"@),
{
    lemma_dictionary_keys_0();
    lemma_dictionary_keys_1();
    lemma_dictionary_keys_2();
    lemma_dictionary_keys_3();
    lemma_dictionary_keys_4();
    lemma_dictionary_keys_5();
    lemma_dictionary_keys_6();
    lemma_dictionary_keys_7();
    lemma_dictionary_keys_8();
    lemma_dictionary_keys_9();
}

/// Entries 501 to 510 of the settings dictionary, as the table of settings renderings gives them.
#[verifier::rlimit(100)]
pub proof fn lemma_dictionary_entries_10_0()
    ensures
        settings_zh_cn_literal_text("Command denylist:"@)
            == Some("命令黑名单："@),
        settings_zh_cn_literal_text("Email"@)
            == Some("邮箱"@),
        settings_zh_cn_literal_text("Failed to join team"@)
            == Some("加入团队失败"@),
        settings_zh_cn_literal_text("Link"@)
            == Some("链接"@),
        settings_zh_cn_literal_text("Link copied to clipboard!"@)
            == Some("链接已复制到剪贴板！"@),
        settings_zh_cn_literal_text("MCP allowlist:"@)
            == Some("MCP 白名单："@),
        settings_zh_cn_literal_text("MCP denylist:"@)
            == Some("MCP 黑名单："@),
        settings_zh_cn_literal_text("Successfully joined team"@)
            == Some("已成功加入团队"@),
        settings_zh_cn_literal_text("Successfully transferred team ownership"@)
            == Some("已成功转让团队所有权"@),
        settings_zh_cn_literal_text("Your invite is on the way!"@)
            == Some("您的邀请已发送！"@),
{
    lemma_dictionary_keys_0();
    lemma_dictionary_keys_1();
    lemma_dictionary_keys_2();
    lemma_dictionary_keys_3();
    lemma_dictionary_keys_4();
    lemma_dictionary_keys_5();
    lemma_dictionary_keys_6();
    lemma_dictionary_keys_7();
    lemma_dictionary_keys_8();
    lemma_dictionary_keys_9();
    lemma_dictionary_keys_10();
}

/// Entries 511 to 520 of the settings dictionary, as the table of settings renderings gives them.
#[verifier::rlimit(100)]
pub proof fn lemma_dictionary_entries_10_1()
    ensures
        settings_zh_cn_literal_text("Error leaving team"@)
            == Some("离开团队时出错"@),
        settings_zh_cn_literal_text("Failed to rename team"@)
            == Some("重命名团队失败"@),
        settings_zh_cn_literal_text("Failed to send invite"@)
            == Some("发送邀请失败"@),
        settings_zh_cn_literal_text("Failed to toggle invite links"@)
            == Some("切换邀请链接失败"@),
        settings_zh_cn_literal_text("Failed to transfer team ownership"@)
            == Some("转让团队所有权失败"@),
        settings_zh_cn_literal_text("Failed to update team member role"@)
            == Some("更新团队成员角色失败"@),
        settings_zh_cn_literal_text("Successfully left team"@)
            == Some("已成功离开团队"@),
        settings_zh_cn_literal_text("Successfully renamed team"@)
            == Some("已成功重命名团队"@),
        settings_zh_cn_literal_text("Successfully updated team member role"@)
            == Some("已成功更新团队成员角色"@),
        settings_zh_cn_literal_text("Toggled invite links"@)
            == Some("邀请链接已切换"@),
{
    lemma_dictionary_keys_0();
    lemma_dictionary_keys_1();
    lemma_dictionary_keys_2();
    lemma_dictionary_keys_3();
    lemma_dictionary_keys_4();
    lemma_dictionary_keys_5();
    lemma_dictionary_keys_6();
    lemma_dictionary_keys_7();
    lemma_dictionary_keys_8();
    lemma_dictionary_keys_9();
    lemma_dictionary_keys_10();
}

/// Entries 521 to 530 of the settings dictionary, as the table of settings renderings gives them.
#[verifier::rlimit(100)]
pub proof fn lemma_dictionary_entries_10_2()
    ensures
        settings_zh_cn_literal_text("Deleted invite"@)
            == Some("邀请已删除"@),
        settings_zh_cn_literal_text("Failed to add domain restriction"@)
            == Some("添加域名限制失败"@),
        settings_zh_cn_literal_text("Failed to delete domain restriction"@)
            == Some("删除域名限制失败"@),
        settings_zh_cn_literal_text("Failed to delete invite"@)
            == Some("删除邀请失败"@),
        settings_zh_cn_literal_text("Failed to generate billing link. Please contact us at feedback@warp.dev"@)
            == Some("生成账单链接失败。请通过 feedback@warp.dev 联系我们"@),
        settings_zh_cn_literal_text("Failed to generate upgrade link. Please contact us at feedback@warp.dev"@)
            == Some("生成升级链接失败。请通过 feedback@warp.dev 联系我们"@),
        settings_zh_cn_literal_text("Failed to reset invite links"@)
            == Some("重置邀请链接失败"@),
        settings_zh_cn_literal_text("Failed to toggle team discoverability"@)
            == Some("切换团队可发现性失败"@),
        settings_zh_cn_literal_text("Reset invite links"@)
            == Some("邀请链接已重置"@),
        settings_zh_cn_literal_text("Toggled team discoverability"@)
            == Some("团队可发现性已切换"@),
{
    lemma_dictionary_keys_0();
    lemma_dictionary_keys_1();
    lemma_dictionary_keys_2();
    lemma_dictionary_keys_3();
    lemma_dictionary_keys_4();
    lemma_dictionary_keys_5();
    lemma_dictionary_keys_6();
    lemma_dictionary_keys_7();
    lemma_dictionary_keys_8();
    lemma_dictionary_keys_9();
    lemma_dictionary_keys_10();
}

/// Entries 531 to 540 of the settings dictionary, as the table of settings renderings gives them.
#[verifier::rlimit(100)]
pub proof fn lemma_dictionary_entries_10_3()
    ensures
        settings_zh_cn_literal_text("+ Add directory…"@)
            == Some("+ 添加目录…"@),
        settings_zh_cn_literal_text("Add directory color"@)
            == Some("添加目录颜色"@),
        settings_zh_cn_literal_text("Add repo"@)
            == Some("添加仓库"@),
        settings_zh_cn_literal_text("Are you sure you want to remove the {} environment?"@)
            == Some("您确定要删除 {} 环境吗？"@),
        settings_zh_cn_literal_text("Create environment"@)
            == Some("创建环境"@),
        settings_zh_cn_literal_text("Delete environment"@)
            == Some("删除环境"@),
        settings_zh_cn_literal_text("Delete environment?"@)
            == Some("删除环境？"@),
        settings_zh_cn_literal_text("Domain restrictions added: {}"@)
            == Some("已添加域名限制：{}"@),
        settings_zh_cn_literal_text("Invalid domains: {}"@)
            == Some("无效域名：{}"@),
        settings_zh_cn_literal_text("Invalid emails: {}"@)
            == Some("无效邮箱：{}"@),
{
    lemma_dictionary_keys_0();
    lemma_dictionary_keys_1();
    lemma_dictionary_keys_2();
    lemma_dictionary_keys_3();
    lemma_dictionary_keys_4();
    lemma_dictionary_keys_5();
    lemma_dictionary_keys_6();
    lemma_dictionary_keys_7();
    lemma_dictionary_keys_8();
    lemma_dictionary_keys_9();
    lemma_dictionary_keys_10();
}

/// Entries 541 to 550 of the settings dictionary, as the table of settings renderings gives them.
#[verifier::rlimit(100)]
pub proof fn lemma_dictionary_entries_10_4()
    ensures
        settings_zh_cn_literal_text("(unknown)"@)
            == Some("（未知）"@),
        settings_zh_cn_literal_text("All locally indexed repos are already selected."@)
            == Some("所有本地已索引仓库均已选中。"@),
        settings_zh_cn_literal_text("Available indexed repos"@)
            == Some("可用的已索引仓库"@),
        settings_zh_cn_literal_text("Loading locally indexed repos…"@)
            == Some("正在加载本地已索引仓库…"@),
        settings_zh_cn_literal_text("Local repo selection is unavailable in this build."@)
            == Some("此版本不支持本地仓库选择。"@),
        settings_zh_cn_literal_text("No directory selected"@)
            == Some("未选择目录"@),
        settings_zh_cn_literal_text("No locally indexed repos found yet. Index a repo, then try again."@)
            == Some("尚未找到本地已索引仓库。请先索引一个仓库，然后重试。"@),
        settings_zh_cn_literal_text("No repos selected yet"@)
            == Some("尚未选择仓库"@),
        settings_zh_cn_literal_text("Selected folder is not a Git repository"@)
            == Some("所选文件夹不是 Git 仓库"@),
        settings_zh_cn_literal_text("Selected repos"@)
            == Some("已选仓库"@),
{
    lemma_dictionary_keys_0();
    lemma_dictionary_keys_1();
    lemma_dictionary_keys_2();
    lemma_dictionary_keys_3();
    lemma_dictionary_keys_4();
    lemma_dictionary_keys_5();
    lemma_dictionary_keys_6();
    lemma_dictionary_keys_7();
    lemma_dictionary_keys_8();
    lemma_dictionary_keys_9();
    lemma_dictionary_keys_10();
}

/// Entries 551 to 560 of the settings dictionary, as the table of settings renderings gives them.
#[verifier::rlimit(100)]
pub proof fn lemma_dictionary_entries_11_0()
    ensures
        settings_zh_cn_literal_text("Finish the current MCP install before opening another install link."@)
            == Some("请先完成当前的 MCP 安装，再打开其他安装链接。"@),
        settings_zh_cn_literal_text("MCP server"@)
            == Some("MCP 服务器"@),
        settings_zh_cn_literal_text("Select locally indexed repos to provide context for the environment creation agent."@)
            == Some("选择本地已索引仓库，为环境创建智能体提供上下文。"@),
        settings_zh_cn_literal_text("Select repos for your environment"@)
            == Some("为您的环境选择仓库"@),
        settings_zh_cn_literal_text("Select repos to provide context for the environment creation agent."@)
            == Some("选择仓库，为环境创建智能体提供上下文。"@),
        settings_zh_cn_literal_text("Successfully logged out of"@)
            == Some("已成功退出"@),
        settings_zh_cn_literal_text("Successfully logged out of MCP server"@)
            == Some("已成功退出 MCP 服务器"@),
        settings_zh_cn_literal_text("Unknown MCP server"@)
            == Some("未知的 MCP 服务器"@),
        settings_zh_cn_literal_text("cannot be installed from this link."@)
            == Some("无法通过此链接安装。"@),
        settings_zh_cn_literal_text("tools available"@)
            == Some("个工具可用"@),
{
    lemma_dictionary_keys_0();
    lemma_dictionary_keys_1();
    lemma_dictionary_keys_2();
    lemma_dictionary_keys_3();
    lemma_dictionary_keys_4();
    lemma_dictionary_keys_5();
    lemma_dictionary_keys_6();
    lemma_dictionary_keys_7();
    lemma_dictionary_keys_8();
    lemma_dictionary_keys_9();
    lemma_dictionary_keys_10();
    lemma_dictionary_keys_11();
}

/// Entries 561 to 570 of the settings dictionary, as the table of settings renderings gives them.
#[verifier::rlimit(100)]
pub proof fn lemma_dictionary_entries_11_1()
    ensures
        settings_zh_cn_literal_text("Environments"@)
            == Some("环境"@),
        settings_zh_cn_literal_text("Environments define where your ambient agents run. Set one up in minutes via GitHub (recommended), Warp-assisted setup, or manual configuration."@)
            == Some("环境定义了您的智能体运行的位置。通过 GitHub（推荐）、Warp 辅助设置或手动配置，几分钟即可完成设置。"@),
        settings_zh_cn_literal_text("Loading..."@)
            == Some("加载中..."@),
        settings_zh_cn_literal_text("MCP Server"@)
            == Some("MCP 服务器"@),
        settings_zh_cn_literal_text("New environment"@)
            == Some("新建环境"@),
        settings_zh_cn_literal_text("No environments match your search."@)
            == Some("没有匹配的环境。"@),
        settings_zh_cn_literal_text("Search environments..."@)
            == Some("搜索环境..."@),
        settings_zh_cn_literal_text("Shared by Warp and your team"@)
            == Some("由 Warp 和您的团队共享"@),
        settings_zh_cn_literal_text("Update"@)
            == Some("更新"@),
        settings_zh_cn_literal_text("Update from"@)
            == Some("更新来源"@),
{
    lemma_dictionary_keys_0();
    lemma_dictionary_keys_1();
    lemma_dictionary_keys_2();
    lemma_dictionary_keys_3();
    lemma_dictionary_keys_4();
    lemma_dictionary_keys_5();
    lemma_dictionary_keys_6();
    lemma_dictionary_keys_7();
    lemma_dictionary_keys_8();
    lemma_dictionary_keys_9();
    lemma_dictionary_keys_10();
    lemma_dictionary_keys_11();
}

/// Entries 571 to 580 of the settings dictionary, as the table of settings renderings gives them.
#[verifier::rlimit(100)]
pub proof fn lemma_dictionary_entries_11_2()
    ensures
        settings_zh_cn_literal_text("Authorize"@)
            == Some("授权"@),
        settings_zh_cn_literal_text("Choose a locally set up project and we'll help you set up an environment based on it"@)
            == Some("选择一个本地项目，我们将帮助您基于此设置环境"@),
        settings_zh_cn_literal_text("Get started"@)
            == Some("开始"@),
        settings_zh_cn_literal_text("Launch agent"@)
            == Some("启动智能体"@),
        settings_zh_cn_literal_text("Quick setup"@)
            == Some("快速设置"@),
        settings_zh_cn_literal_text("Retry"@)
            == Some("重试"@),
        settings_zh_cn_literal_text("Select the GitHub repositories you'd like to work with and we'll suggest a base image and config"@)
            == Some("选择您想要使用的 GitHub 仓库，我们将为您推荐基础镜像和配置"@),
        settings_zh_cn_literal_text("Suggested"@)
            == Some("推荐"@),
        settings_zh_cn_literal_text("Use the agent"@)
            == Some("使用智能体"@),
        settings_zh_cn_literal_text("You haven't set up any environments yet."@)
            == Some("您尚未设置任何环境。"@),
{
    lemma_dictionary_keys_0();
    lemma_dictionary_keys_1();
    lemma_dictionary_keys_2();
    lemma_dictionary_keys_3();
    lemma_dictionary_keys_4();
    lemma_dictionary_keys_5();
    lemma_dictionary_keys_6();
    lemma_dictionary_keys_7();
    lemma_dictionary_keys_8();
    lemma_dictionary_keys_9();
    lemma_dictionary_keys_10();
    lemma_dictionary_keys_11();
}

/// Entries 581 to 590 of the settings dictionary, as the table of settings renderings gives them.
#[verifier::rlimit(100)]
pub proof fn lemma_dictionary_entries_11_3()
    ensures
        settings_zh_cn_literal_text(" for custom limits and dedicated support."@)
            == Some(" 以获得自定义限额和专属支持。"@),
        settings_zh_cn_literal_text(" for more AI credits."@)
            == Some(" 以获得更多 AI 额度。"@),
        settings_zh_cn_literal_text(" to regain access to AI features."@)
            == Some(" 以恢复 AI 功能访问。"@),
        settings_zh_cn_literal_text("API key deleted"@)
            == Some("API 密钥已删除"@),
        settings_zh_cn_literal_text("Choose how you'd like to set up your environment:"@)
            == Some("选择您希望如何设置环境："@),
        settings_zh_cn_literal_text("Choose how you’d like to set up your environment:"@)
            == Some("选择您希望如何设置环境："@),
        settings_zh_cn_literal_text("Enter repos (owner/repo format)"@)
            == Some("输入仓库（owner/repo 格式）"@),
        settings_zh_cn_literal_text("Paste repo URL(s)"@)
            == Some("粘贴仓库 URL"@),
        settings_zh_cn_literal_text("View my runs"@)
            == Some("查看我的运行记录"@),
        settings_zh_cn_literal_text("You haven’t set up any environments yet."@)
            == Some("您尚未设置任何环境。"@),
{
    lemma_dictionary_keys_0();
    lemma_dictionary_keys_1();
    lemma_dictionary_keys_2();
    lemma_dictionary_keys_3();
    lemma_dictionary_keys_4();
    lemma_dictionary_keys_5();
    lemma_dictionary_keys_6();
    lemma_dictionary_keys_7();
    lemma_dictionary_keys_8();
    lemma_dictionary_keys_9();
    lemma_dictionary_keys_10();
    lemma_dictionary_keys_11();
}

/// Entries 591 to 600 of the settings dictionary, as the table of settings renderings gives them.
#[verifier::rlimit(100)]
pub proof fn lemma_dictionary_entries_11_4()
    ensures
        settings_zh_cn_literal_text("Environment deleted successfully"@)
            == Some("环境删除成功"@),
        settings_zh_cn_literal_text("Failed to share environment with team"@)
            == Some("与团队共享环境失败"@),
        settings_zh_cn_literal_text("Last used: never"@)
            == Some("最后使用：从未"@),
        settings_zh_cn_literal_text("Share"@)
            == Some("共享"@),
        settings_zh_cn_literal_text("Successfully created environment"@)
            == Some("环境创建成功"@),
        settings_zh_cn_literal_text("Successfully shared environment"@)
            == Some("环境共享成功"@),
        settings_zh_cn_literal_text("Successfully updated environment"@)
            == Some("环境更新成功"@),
        settings_zh_cn_literal_text("Unable to create environment: not logged in."@)
            == Some("无法创建环境：未登录。"@),
        settings_zh_cn_literal_text("Unable to save: environment no longer exists."@)
            == Some("无法保存：环境已不存在。"@),
        settings_zh_cn_literal_text("Unable to share environment: you are not currently on a team."@)
            == Some("无法共享环境：您当前未加入任何团队。"@),
{
    lemma_dictionary_keys_0();
    lemma_dictionary_keys_1();
    lemma_dictionary_keys_2();
    lemma_dictionary_keys_3();
    lemma_dictionary_keys_4();
    lemma_dictionary_keys_5();
    lemma_dictionary_keys_6();
    lemma_dictionary_keys_7();
    lemma_dictionary_keys_8();
    lemma_dictionary_keys_9();
    lemma_dictionary_keys_10();
    lemma_dictionary_keys_11();
}

/// Entries 601 to 610 of the settings dictionary, as the table of settings renderings gives them.
#[verifier::rlimit(100)]
pub proof fn lemma_dictionary_entries_12_0()
    ensures
        settings_zh_cn_literal_text("Base URL"@)
            == Some("Base URL"@),
        settings_zh_cn_literal_text("Enabled"@)
            == Some("启用"@),
        settings_zh_cn_literal_text("Env ID: "@)
            == Some("环境 ID："@),
        settings_zh_cn_literal_text("Image: "@)
            == Some("镜像："@),
        settings_zh_cn_literal_text("Last edited: "@)
            == Some("最后编辑："@),
        settings_zh_cn_literal_text("Last used: "@)
            == Some("最后使用："@),
        settings_zh_cn_literal_text("Repos: "@)
            == Some("仓库："@),
        settings_zh_cn_literal_text("Setup commands: "@)
            == Some("设置命令："@),
        settings_zh_cn_literal_text("Shared by Warp and "@)
            == Some("由 Warp 和 "@),
        settings_zh_cn_literal_text("Unable to share environment: environment is not yet synced."@)
            == Some("无法共享环境：环境尚未同步。"@),
{
    lemma_dictionary_keys_0();
    lemma_dictionary_keys_1();
    lemma_dictionary_keys_2();
    lemma_dictionary_keys_3();
    lemma_dictionary_keys_4();
    lemma_dictionary_keys_5();
    lemma_dictionary_keys_6();
    lemma_dictionary_keys_7();
    lemma_dictionary_keys_8();
    lemma_dictionary_keys_9();
    lemma_dictionary_keys_10();
    lemma_dictionary_keys_11();
    lemma_dictionary_keys_12();
}

/// Entries 611 to 620 of the settings dictionary, as the table of settings renderings gives them.
#[verifier::rlimit(100)]
pub proof fn lemma_dictionary_entries_12_1()
    ensures
        settings_zh_cn_literal_text("(not set)"@)
            == Some("（未设置）"@),
        settings_zh_cn_literal_text("API Key"@)
            == Some("API 密钥"@),
        settings_zh_cn_literal_text("Enable local AI provider to route agent requests to a custom OpenAI-compatible endpoint."@)
            == Some("启用本地 AI Provider，将智能体请求路由到自定义 OpenAI 兼容端点。"@),
        settings_zh_cn_literal_text("Model"@)
            == Some("模型"@),
        settings_zh_cn_literal_text("The API key for authentication. Leave empty if no key is required."@)
            == Some("用于认证的 API 密钥。如不需要密钥请留空。"@),
        settings_zh_cn_literal_text("The API key for authentication. Leave empty if no key is required. Edit in settings.toml."@)
            == Some("用于认证的 API 密钥。如不需要密钥请留空。请在 settings.toml 中编辑。"@),
        settings_zh_cn_literal_text("The base URL of the OpenAI-compatible API endpoint."@)
            == Some("OpenAI 兼容 API 端点的 Base URL。"@),
        settings_zh_cn_literal_text("The base URL of the OpenAI-compatible API endpoint. Edit in settings.toml."@)
            == Some("OpenAI 兼容 API 端点的 Base URL。请在 settings.toml 中编辑。"@),
        settings_zh_cn_literal_text("The model name to use for API requests (e.g. gpt-4, mimo-v2.5)."@)
            == Some("用于 API 请求的模型名称（例如 gpt-4、mimo-v2.5）。"@),
        settings_zh_cn_literal_text("The model name to use for API requests (e.g. gpt-4, mimo-v2.5). Edit in settings.toml."@)
            == Some("用于 API 请求的模型名称（例如 gpt-4、mimo-v2.5）。请在 settings.toml 中编辑。"@),
{
    lemma_dictionary_keys_0();
    lemma_dictionary_keys_1();
    lemma_dictionary_keys_2();
    lemma_dictionary_keys_3();
    lemma_dictionary_keys_4();
    lemma_dictionary_keys_5();
    lemma_dictionary_keys_6();
    lemma_dictionary_keys_7();
    lemma_dictionary_keys_8();
    lemma_dictionary_keys_9();
    lemma_dictionary_keys_10();
    lemma_dictionary_keys_11();
    lemma_dictionary_keys_12();
}

/// Entries 621 to 630 of the settings dictionary, as the table of settings renderings gives them.
#[verifier::rlimit(100)]
pub proof fn lemma_dictionary_entries_12_2()
    ensures
        settings_zh_cn_literal_text("Adds an IDE-style project explorer / file tree to the left side tools panel."@)
            == Some("在左侧工具面板添加 IDE 风格的项目浏览器/文件树。"@),
        settings_zh_cn_literal_text("Auto open code review panel"@)
            == Some("自动打开代码审查面板"@),
        settings_zh_cn_literal_text("Learn more"@)
            == Some("了解更多"@),
        settings_zh_cn_literal_text("Project explorer"@)
            == Some("项目浏览器"@),
        settings_zh_cn_literal_text("Rules help the Warp Agent follow your conventions, whether for codebases or specific workflows. "@)
            == Some("规则帮助 Warp 智能体遵循您的规范，无论是代码库还是特定工作流。"@),
        settings_zh_cn_literal_text("Show a button in the top right of the window to toggle the code review panel."@)
            == Some("在窗口右上角显示一个按钮，用于切换代码审查面板。"@),
        settings_zh_cn_literal_text("Show code review button"@)
            == Some("显示代码审查按钮"@),
        settings_zh_cn_literal_text("Show diff stats on code review button"@)
            == Some("在代码审查按钮上显示差异统计"@),
        settings_zh_cn_literal_text("Show lines added and removed counts on the code review button."@)
            == Some("在代码审查按钮上显示添加和删除的行数。"@),
        settings_zh_cn_literal_text("When this setting is on, the code review panel will open on the first accepted diff of a conversation"@)
            == Some("启用后，代码审查面板将在会话中第一个被接受的差异时自动打开"@),
{
    lemma_dictionary_keys_0();
    lemma_dictionary_keys_1();
    lemma_dictionary_keys_2();
    lemma_dictionary_keys_3();
    lemma_dictionary_keys_4();
    lemma_dictionary_keys_5();
    lemma_dictionary_keys_6();
    lemma_dictionary_keys_7();
    lemma_dictionary_keys_8();
    lemma_dictionary_keys_9();
    lemma_dictionary_keys_10();
    lemma_dictionary_keys_11();
    lemma_dictionary_keys_12();
}

/// Entries 631 to 640 of the settings dictionary, as the table of settings renderings gives them.
#[verifier::rlimit(100)]
pub proof fn lemma_dictionary_entries_12_3()
    ensures
        settings_zh_cn_literal_text("Adds global file search to the left side tools panel."@)
            == Some("在左侧工具面板添加全局文件搜索。"@),
        settings_zh_cn_literal_text("Codebase too large"@)
            == Some("代码库过大"@),
        settings_zh_cn_literal_text("Discovered {total_nodes} chunks"@)
            == Some("已发现 {total_nodes} 个代码块"@),
        settings_zh_cn_literal_text("Global file search"@)
            == Some("全局文件搜索"@),
        settings_zh_cn_literal_text("Index new folder"@)
            == Some("索引新文件夹"@),
        settings_zh_cn_literal_text("Open Markdown files in Warp's Markdown Viewer by default"@)
            == Some("默认在 Warp 的 Markdown 查看器中打开 Markdown 文件"@),
        settings_zh_cn_literal_text("Open project rules"@)
            == Some("打开项目规则"@),
        settings_zh_cn_literal_text("Synced"@)
            == Some("已同步"@),
        settings_zh_cn_literal_text("Syncing - {completed_nodes} / {total_nodes}"@)
            == Some("同步中 - {completed_nodes} / {total_nodes}"@),
        settings_zh_cn_literal_text("Syncing..."@)
            == Some("同步中..."@),
{
    lemma_dictionary_keys_0();
    lemma_dictionary_keys_1();
    lemma_dictionary_keys_2();
    lemma_dictionary_keys_3();
    lemma_dictionary_keys_4();
    lemma_dictionary_keys_5();
    lemma_dictionary_keys_6();
    lemma_dictionary_keys_7();
    lemma_dictionary_keys_8();
    lemma_dictionary_keys_9();
    lemma_dictionary_keys_10();
    lemma_dictionary_keys_11();
    lemma_dictionary_keys_12();
}

/// Entries 641 to 650 of the settings dictionary, as the table of settings renderings gives them.
#[verifier::rlimit(100)]
pub proof fn lemma_dictionary_entries_12_4()
    ensures
        settings_zh_cn_literal_text("Available"@)
            == Some("可用"@),
        settings_zh_cn_literal_text("Available for download"@)
            == Some("可下载"@),
        settings_zh_cn_literal_text("Busy"@)
            == Some("忙碌"@),
        settings_zh_cn_literal_text("Checking..."@)
            == Some("检查中..."@),
        settings_zh_cn_literal_text("Installed"@)
            == Some("已安装"@),
        settings_zh_cn_literal_text("Installing..."@)
            == Some("安装中..."@),
        settings_zh_cn_literal_text("No index built"@)
            == Some("尚未构建索引"@),
        settings_zh_cn_literal_text("Not running"@)
            == Some("未运行"@),
        settings_zh_cn_literal_text("Stale"@)
            == Some("已过时"@),
        settings_zh_cn_literal_text("Stopped"@)
            == Some("已停止"@),
{
    lemma_dictionary_keys_0();
    lemma_dictionary_keys_1();
    lemma_dictionary_keys_2();
    lemma_dictionary_keys_3();
    lemma_dictionary_keys_4();
    lemma_dictionary_keys_5();
    lemma_dictionary_keys_6();
    lemma_dictionary_keys_7();
    lemma_dictionary_keys_8();
    lemma_dictionary_keys_9();
    lemma_dictionary_keys_10();
    lemma_dictionary_keys_11();
    lemma_dictionary_keys_12();
}

/// Entries 651 to 660 of the settings dictionary, as the table of settings renderings gives them.
#[verifier::rlimit(100)]
pub proof fn lemma_dictionary_entries_13_0()
    ensures
        settings_zh_cn_literal_text("Choose a layout to open files in Warp"@)
            == Some("选择在 Warp 中打开文件的布局"@),
        settings_zh_cn_literal_text("Choose an editor to open file links"@)
            == Some("选择打开文件链接的编辑器"@),
        settings_zh_cn_literal_text("Choose an editor to open files from the code review panel, project explorer, and global search"@)
            == Some("选择从代码审查面板、项目浏览器和全局搜索打开文件时使用的编辑器"@),
        settings_zh_cn_literal_text("Default App"@)
            == Some("默认应用"@),
        settings_zh_cn_literal_text("Full-screen Apps"@)
            == Some("全屏应用"@),
        settings_zh_cn_literal_text("Group files into single editor pane"@)
            == Some("将文件归入单个编辑器窗格"@),
        settings_zh_cn_literal_text("New Tab"@)
            == Some("新标签页"@),
        settings_zh_cn_literal_text("Split Pane"@)
            == Some("分屏"@),
        settings_zh_cn_literal_text("When this setting is on, any files opened in the same tab will be automatically grouped into a single editor pane."@)
            == Some("启用后，在同一标签页中打开的文件将自动归入单个编辑器窗格。"@),
        settings_zh_cn_literal_text("update your payment information"@)
            == Some("更新您的付款信息"@),
{
    lemma_dictionary_keys_0();
    lemma_dictionary_keys_1();
    lemma_dictionary_keys_2();
    lemma_dictionary_keys_3();
    lemma_dictionary_keys_4();
    lemma_dictionary_keys_5();
    lemma_dictionary_keys_6();
    lemma_dictionary_keys_7();
    lemma_dictionary_keys_8();
    lemma_dictionary_keys_9();
    lemma_dictionary_keys_10();
    lemma_dictionary_keys_11();
    lemma_dictionary_keys_12();
    lemma_dictionary_keys_13();
}

/// Entries 661 to 670 of the settings dictionary, as the table of settings renderings gives them.
#[verifier::rlimit(100)]
pub proof fn lemma_dictionary_entries_13_1()
    ensures
        settings_zh_cn_literal_text("Automatically switch between light and dark themes when your system does."@)
            == Some("当系统切换时自动在浅色和深色主题之间切换。"@),
        settings_zh_cn_literal_text("Changing the app icon requires the app to be bundled."@)
            == Some("更改应用图标需要将应用打包。"@),
        settings_zh_cn_literal_text("Columns"@)
            == Some("列"@),
        settings_zh_cn_literal_text("Create your own custom theme"@)
            == Some("创建您自己的自定义主题"@),
        settings_zh_cn_literal_text("Current theme"@)
            == Some("当前主题"@),
        settings_zh_cn_literal_text("Customize your app icon"@)
            == Some("自定义应用图标"@),
        settings_zh_cn_literal_text("Input position"@)
            == Some("输入位置"@),
        settings_zh_cn_literal_text("Open new windows with custom size"@)
            == Some("以自定义大小打开新窗口"@),
        settings_zh_cn_literal_text("Rows"@)
            == Some("行"@),
        settings_zh_cn_literal_text("Tools panel visibility is consistent across tabs"@)
            == Some("工具面板在各标签页间保持一致的可见性"@),
{
    lemma_dictionary_keys_0();
    lemma_dictionary_keys_1();
    lemma_dictionary_keys_2();
    lemma_dictionary_keys_3();
    lemma_dictionary_keys_4();
    lemma_dictionary_keys_5();
    lemma_dictionary_keys_6();
    lemma_dictionary_keys_7();
    lemma_dictionary_keys_8();
    lemma_dictionary_keys_9();
    lemma_dictionary_keys_10();
    lemma_dictionary_keys_11();
    lemma_dictionary_keys_12();
    lemma_dictionary_keys_13();
}

/// Entries 671 to 680 of the settings dictionary, as the table of settings renderings gives them.
#[verifier::rlimit(100)]
pub proof fn lemma_dictionary_entries_13_2()
    ensures
        settings_zh_cn_literal_text("Agent font"@)
            == Some("智能体字体"@),
        settings_zh_cn_literal_text("Blinking cursor"@)
            == Some("闪烁光标"@),
        settings_zh_cn_literal_text("Cursor type"@)
            == Some("光标类型"@),
        settings_zh_cn_literal_text("Enforce minimum contrast"@)
            == Some("强制最低对比度"@),
        settings_zh_cn_literal_text("Show Jump to Bottom of Block button"@)
            == Some("显示跳到底部按钮"@),
        settings_zh_cn_literal_text("Show block dividers"@)
            == Some("显示块分隔线"@),
        settings_zh_cn_literal_text("Show ligatures in terminal"@)
            == Some("在终端中显示连字"@),
        settings_zh_cn_literal_text("Tab close button position"@)
            == Some("标签页关闭按钮位置"@),
        settings_zh_cn_literal_text("Terminal font"@)
            == Some("终端字体"@),
        settings_zh_cn_literal_text("Use thin strokes"@)
            == Some("使用细笔画"@),
{
    lemma_dictionary_keys_0();
    lemma_dictionary_keys_1();
    lemma_dictionary_keys_2();
    lemma_dictionary_keys_3();
    lemma_dictionary_keys_4();
    lemma_dictionary_keys_5();
    lemma_dictionary_keys_6();
    lemma_dictionary_keys_7();
    lemma_dictionary_keys_8();
    lemma_dictionary_keys_9();
    lemma_dictionary_keys_10();
    lemma_dictionary_keys_11();
    lemma_dictionary_keys_12();
    lemma_dictionary_keys_13();
}

/// Entries 681 to 690 of the settings dictionary, as the table of settings renderings gives them.
#[verifier::rlimit(100)]
pub proof fn lemma_dictionary_entries_13_3()
    ensures
        settings_zh_cn_literal_text("Agent"@)
            == Some("智能体"@),
        settings_zh_cn_literal_text("Cloud Oz"@)
            == Some("云端 Oz"@),
        settings_zh_cn_literal_text("Default mode for new sessions"@)
            == Some("新会话的默认模式"@),
        settings_zh_cn_literal_text("Local Docker Sandbox"@)
            == Some("本地 Docker 沙盒"@),
        settings_zh_cn_literal_text("Show sticky command header"@)
            == Some("显示固定命令标题"@),
        settings_zh_cn_literal_text("Show tab indicators"@)
            == Some("显示标签页指示器"@),
        settings_zh_cn_literal_text("Show tooltip on click on links"@)
            == Some("点击链接时显示提示"@),
        settings_zh_cn_literal_text("Show warning before quitting/logging out"@)
            == Some("退出或注销前显示警告"@),
        settings_zh_cn_literal_text("Start Warp at login (requires macOS 13+)"@)
            == Some("登录时启动 Warp（需要 macOS 13+）"@),
        settings_zh_cn_literal_text("Tab Config"@)
            == Some("标签配置"@),
{
    lemma_dictionary_keys_0();
    lemma_dictionary_keys_1();
    lemma_dictionary_keys_2();
    lemma_dictionary_keys_3();
    lemma_dictionary_keys_4();
    lemma_dictionary_keys_5();
    lemma_dictionary_keys_6();
    lemma_dictionary_keys_7();
    lemma_dictionary_keys_8();
    lemma_dictionary_keys_9();
    lemma_dictionary_keys_10();
    lemma_dictionary_keys_11();
    lemma_dictionary_keys_12();
    lemma_dictionary_keys_13();
}

/// Entries 691 to 700 of the settings dictionary, as the table of settings renderings gives them.
#[verifier::rlimit(100)]
pub proof fn lemma_dictionary_entries_13_4()
    ensures
        settings_zh_cn_literal_text("Allowed Values: 1-20"@)
            == Some("允许值：1-20"@),
        settings_zh_cn_literal_text("Default shell for new sessions"@)
            == Some("新会话的默认 Shell"@),
        settings_zh_cn_literal_text("Lines scrolled by mouse wheel interval"@)
            == Some("鼠标滚轮每次滚动的行数"@),
        settings_zh_cn_literal_text("Make Warp the default terminal"@)
            == Some("将 Warp 设为默认终端"@),
        settings_zh_cn_literal_text("Maximum rows in a block"@)
            == Some("块中的最大行数"@),
        settings_zh_cn_literal_text("Quit when all windows are closed"@)
            == Some("关闭所有窗口时退出"@),
        settings_zh_cn_literal_text("Show changelog toast after updates"@)
            == Some("更新后显示更新日志提示"@),
        settings_zh_cn_literal_text("Start Warp at login"@)
            == Some("登录时启动 Warp"@),
        settings_zh_cn_literal_text("Supports floating point values between 1 and 20."@)
            == Some("支持 1 到 20 之间的小数。"@),
        settings_zh_cn_literal_text("Warp is the default terminal"@)
            == Some("Warp 已是默认终端"@),
{
    lemma_dictionary_keys_0();
    lemma_dictionary_keys_1();
    lemma_dictionary_keys_2();
    lemma_dictionary_keys_3();
    lemma_dictionary_keys_4();
    lemma_dictionary_keys_5();
    lemma_dictionary_keys_6();
    lemma_dictionary_keys_7();
    lemma_dictionary_keys_8();
    lemma_dictionary_keys_9();
    lemma_dictionary_keys_10();
    lemma_dictionary_keys_11();
    lemma_dictionary_keys_12();
    lemma_dictionary_keys_13();
}

/// Entries 701 to 710 of the settings dictionary, as the table of settings renderings gives them.
#[verifier::rlimit(100)]
pub proof fn lemma_dictionary_entries_14_0()
    ensures
        settings_zh_cn_literal_text("Advanced"@)
            == Some("高级"@),
        settings_zh_cn_literal_text("Controls the installation behavior for Warp's SSH extension when a remote host doesn't have it installed."@)
            == Some("控制当远程主机未安装 Warp SSH 扩展时的安装行为。"@),
        settings_zh_cn_literal_text("Custom directory"@)
            == Some("自定义目录"@),
        settings_zh_cn_literal_text("Enable reopening of closed sessions"@)
            == Some("允许重新打开已关闭的会话"@),
        settings_zh_cn_literal_text("Grace period (seconds)"@)
            == Some("宽限期（秒）"@),
        settings_zh_cn_literal_text("Home directory"@)
            == Some("主目录"@),
        settings_zh_cn_literal_text("Previous session's directory"@)
            == Some("上一个会话的目录"@),
        settings_zh_cn_literal_text("SSH session detection for Warpification"@)
            == Some("Warpify 的 SSH 会话检测"@),
        settings_zh_cn_literal_text("The tmux ssh wrapper works in many situations where the default one does not, but may require you to hit a button to warpify. Takes effect in new tabs."@)
            == Some("tmux SSH 包装器在许多默认包装器不适用的情况下仍然有效，但可能需要您点击按钮来执行 Warpify。在新标签页中生效。"@),
        settings_zh_cn_literal_text("Working directory for new sessions"@)
            == Some("新会话的工作目录"@),
{
    lemma_dictionary_keys_0();
    lemma_dictionary_keys_1();
    lemma_dictionary_keys_2();
    lemma_dictionary_keys_3();
    lemma_dictionary_keys_4();
    lemma_dictionary_keys_5();
    lemma_dictionary_keys_6();
    lemma_dictionary_keys_7();
    lemma_dictionary_keys_8();
    lemma_dictionary_keys_9();
    lemma_dictionary_keys_10();
    lemma_dictionary_keys_11();
    lemma_dictionary_keys_12();
    lemma_dictionary_keys_13();
    lemma_dictionary_keys_14();
}

/// Entries 711 to 719 of the settings dictionary, as the table of settings renderings gives them.
#[verifier::rlimit(100)]
pub proof fn lemma_dictionary_entries_14_1()
    ensures
        settings_zh_cn_literal_text("Added commands"@)
            == Some("已添加的命令"@),
        settings_zh_cn_literal_text("Configure whether Warp attempts to \u{201c}Warpify\u{201d} (add support for blocks, input modes, etc) certain shells. "@)
            == Some("配置 Warp 是否尝试对某些 Shell 执行\u{201c}Warpify\u{201d}（添加对块、输入模式等的支持）。"@),
        settings_zh_cn_literal_text("Denylisted commands"@)
            == Some("已拒绝的命令"@),
        settings_zh_cn_literal_text("Denylisted hosts"@)
            == Some("已拒绝的主机"@),
        settings_zh_cn_literal_text("Install SSH extension"@)
            == Some("安装 SSH 扩展"@),
        settings_zh_cn_literal_text("Subshells supported: bash, zsh, and fish."@)
            == Some("支持的子 Shell：bash、zsh 和 fish。"@),
        settings_zh_cn_literal_text("Use Tmux Warpification"@)
            == Some("使用 Tmux Warpify"@),
        settings_zh_cn_literal_text("Warpify SSH Sessions"@)
            == Some("Warpify SSH 会话"@),
        settings_zh_cn_literal_text("Warpify your interactive SSH sessions."@)
            == Some("对您的交互式 SSH 会话执行 Warpify。"@),
{
    lemma_dictionary_keys_0();
    lemma_dictionary_keys_1();
    lemma_dictionary_keys_2();
    lemma_dictionary_keys_3();
    lemma_dictionary_keys_4();
    lemma_dictionary_keys_5();
    lemma_dictionary_keys_6();
    lemma_dictionary_keys_7();
    lemma_dictionary_keys_8();
    lemma_dictionary_keys_9();
    lemma_dictionary_keys_10();
    lemma_dictionary_keys_11();
    lemma_dictionary_keys_12();
    lemma_dictionary_keys_13();
    lemma_dictionary_keys_14();
}

} // verus!
