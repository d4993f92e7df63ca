use vstd::prelude::*;

use crate::text::{opt_str_view, str_eq};

verus! {

// The Simplified Chinese renderings of the settings pages' English strings, split into
// blocks that are searched in order; a string appears in at most one block.

/// Block 0 of the settings dictionary.
pub open spec fn settings_dictionary_block_0(text: Seq<char>) -> Option<Seq<char>> {
    if text == "This setting is not synced to your other devices"@ {
        Some("此设置不会同步到您的其他设备"@)
    } else if text == "Reset to default"@ {
        Some("恢复默认"@)
    } else if text == "Default"@ {
        Some("默认"@)
    } else if text == "Custom"@ {
        Some("自定义"@)
    } else if text == "Cancel"@ {
        Some("取消"@)
    } else if text == "Clear"@ {
        Some("清除"@)
    } else if text == "Save"@ {
        Some("保存"@)
    } else if text == "Search"@ {
        Some("搜索"@)
    } else if text == "No settings match your search."@ {
        Some("没有匹配的设置。"@)
    } else if text == "You may want to try using different keywords or checking for any possible typos."@ {
        Some("可以尝试使用其他关键词，或检查是否有拼写错误。"@)
    } else if text == "Account"@ {
        Some("账户"@)
    } else if text == "Appearance"@ {
        Some("外观"@)
    } else if text == "Features"@ {
        Some("功能"@)
    } else if text == "Keyboard shortcuts"@ {
        Some("键盘快捷键"@)
    } else if text == "Privacy"@ {
        Some("隐私"@)
    } else if text == "Billing and usage"@ {
        Some("账单和用量"@)
    } else if text == "Codebase Indexing"@ {
        Some("代码库索引"@)
    } else if text == "Code Editor and Review"@ {
        Some("代码编辑器和代码审查"@)
    } else if text == "MCP Servers"@ {
        Some("MCP 服务器"@)
    } else if text == "Search MCP Servers"@ {
        Some("搜索 MCP 服务器"@)
    } else if text == "Edit config"@ {
        Some("编辑配置"@)
    } else if text == "Set up"@ {
        Some("设置"@)
    } else if text == "Oz Cloud API Keys"@ {
        Some("Oz Cloud API 密钥"@)
    } else if text == "Continue using premium models beyond your plan's limits. Usage is charged in $20 increments up to your spending limit, with any remaining balance charged on your scheduled billing date."@ {
        Some("继续使用超出套餐限制的高级模型。用量将以 20 美元为增量收费，最高至您的支出限额，任何剩余余额将在您的预定计费日期收取。"@)
    } else if text == "Ask a team admin to enable overages for more AI usage."@ {
        Some("请联系团队管理员启用超额用量以获得更多 AI 用量。"@)
    } else if text == "Auto reload is disabled, as the next reload would exceed your monthly spend limit. Increase your limit to use auto reload."@ {
        Some("自动重新加载已禁用，因为下一次重新加载将超出您的每月支出限额。请提高限额以使用自动重新加载。"@)
    } else if text == "Restricted due to billing issue. Update your payment method to purchase add-on credits."@ {
        Some("由于账单问题受限。请更新您的付款方式以购买额外额度。"@)
    } else if text == "Auto reload is disabled due to recent failed reload. Please update your payment method and try again."@ {
        Some("由于最近一次重新加载失败，自动重新加载已禁用。请更新您的付款方式并重试。"@)
    } else if text == "Reloading would exceed your monthly limit. "@ {
        Some("重新加载将超出您的每月限额。"@)
    } else if text == "Increase your limit"@ {
        Some("提高限额"@)
    } else if text == " to continue."@ {
        Some(" 以继续。"@)
    } else if text == "Usage reporting is currently limited"@ {
        Some("用量报告目前受限"@)
    } else if text == "Enterprise credit usage isn't fully available in this view yet. For the most accurate spend tracking, "@ {
        Some("企业版额度用量在此视图中尚不完全可用。为了获得最准确的支出跟踪，"@)
    } else if text == "visit the admin panel"@ {
        Some("访问管理面板"@)
    } else if text == "Enterprise credit usage isn't fully available in this view yet. Contact a team admin for detailed usage reporting."@ {
        Some("企业版额度用量在此视图中尚不完全可用。请联系团队管理员获取详细的用量报告。"@)
    } else if text == "Add-on credits are purchased in prepaid packages that roll over each billing cycle and expire after one year. The more you purchase, the better the per-credit rate. Once your base plan credits are used, add-on credits will be consumed."@ {
        Some("额外额度通过预付包购买，可在每个计费周期结转，并在一年后过期。购买越多，单价越低。一旦您的基础套餐额度用完，将消耗额外额度。"@)
    } else if text == "Add-on credits are purchased in prepaid packages that roll over each billing cycle and expire after one year. The more you purchase, the better the per-credit rate. Once your base plan credits are used, add-on credits will be consumed. Purchased add-on credits are shared across your team."@ {
        Some("额外额度通过预付包购买，可在每个计费周期结转，并在一年后过期。购买越多，单价越低。一旦您的基础套餐额度用完，将消耗额外额度。购买的额外额度由您的团队共享。"@)
    } else if text == "Purchased add-on credits are shared across your team."@ {
        Some("购买的额外额度由您的团队共享。"@)
    } else if text == "Cloud agent trial"@ {
        Some("云智能体试用"@)
    } else if text == "Overage spending limit"@ {
        Some("超额支出限额"@)
    } else if text == "Monthly spending limit"@ {
        Some("每月支出限额"@)
    } else if text == "Load more"@ {
        Some("加载更多"@)
    } else if text == "Failed to update workspace settings"@ {
        Some("更新工作空间设置失败"@)
    } else if text == "Successfully purchased add-on credits"@ {
        Some("成功购买额外额度"@)
    } else if text == "New agent"@ {
        Some("新建智能体"@)
    } else if text == "Buy more"@ {
        Some("购买更多"@)
    } else if text == "Monthly overage spending limit"@ {
        Some("每月超额支出限额"@)
    } else if text == "Not set"@ {
        Some("未设置"@)
    } else if text == "Sets the monthly overage spending limit beyond the plan amount"@ {
        Some("设置超出套餐金额的每月超额支出限额"@)
    } else if text == "Add-on credits"@ {
        Some("额外额度"@)
    } else {
        None
    }
}

/// Looks a string up in block 0 of the settings dictionary.
pub fn settings_dictionary_lookup_0(text: &str) -> (res: Option<&'static str>)
    ensures
        opt_str_view(res) == settings_dictionary_block_0(text@),
{
    if str_eq(text, "This setting is not synced to your other devices") {
        Some("此设置不会同步到您的其他设备")
    } else if str_eq(text, "Reset to default") {
        Some("恢复默认")
    } else if str_eq(text, "Default") {
        Some("默认")
    } else if str_eq(text, "Custom") {
        Some("自定义")
    } else if str_eq(text, "Cancel") {
        Some("取消")
    } else if str_eq(text, "Clear") {
        Some("清除")
    } else if str_eq(text, "Save") {
        Some("保存")
    } else if str_eq(text, "Search") {
        Some("搜索")
    } else if str_eq(text, "No settings match your search.") {
        Some("没有匹配的设置。")
    } else if str_eq(text, "You may want to try using different keywords or checking for any possible typos.") {
        Some("可以尝试使用其他关键词，或检查是否有拼写错误。")
    } else if str_eq(text, "Account") {
        Some("账户")
    } else if str_eq(text, "Appearance") {
        Some("外观")
    } else if str_eq(text, "Features") {
        Some("功能")
    } else if str_eq(text, "Keyboard shortcuts") {
        Some("键盘快捷键")
    } else if str_eq(text, "Privacy") {
        Some("隐私")
    } else if str_eq(text, "Billing and usage") {
        Some("账单和用量")
    } else if str_eq(text, "Codebase Indexing") {
        Some("代码库索引")
    } else if str_eq(text, "Code Editor and Review") {
        Some("代码编辑器和代码审查")
    } else if str_eq(text, "MCP Servers") {
        Some("MCP 服务器")
    } else if str_eq(text, "Search MCP Servers") {
        Some("搜索 MCP 服务器")
    } else if str_eq(text, "Edit config") {
        Some("编辑配置")
    } else if str_eq(text, "Set up") {
        Some("设置")
    } else if str_eq(text, "Oz Cloud API Keys") {
        Some("Oz Cloud API 密钥")
    } else if str_eq(text, "Continue using premium models beyond your plan's limits. Usage is charged in $20 increments up to your spending limit, with any remaining balance charged on your scheduled billing date.") {
        Some("继续使用超出套餐限制的高级模型。用量将以 20 美元为增量收费，最高至您的支出限额，任何剩余余额将在您的预定计费日期收取。")
    } else if str_eq(text, "Ask a team admin to enable overages for more AI usage.") {
        Some("请联系团队管理员启用超额用量以获得更多 AI 用量。")
    } else if str_eq(text, "Auto reload is disabled, as the next reload would exceed your monthly spend limit. Increase your limit to use auto reload.") {
        Some("自动重新加载已禁用，因为下一次重新加载将超出您的每月支出限额。请提高限额以使用自动重新加载。")
    } else if str_eq(text, "Restricted due to billing issue. Update your payment method to purchase add-on credits.") {
        Some("由于账单问题受限。请更新您的付款方式以购买额外额度。")
    } else if str_eq(text, "Auto reload is disabled due to recent failed reload. Please update your payment method and try again.") {
        Some("由于最近一次重新加载失败，自动重新加载已禁用。请更新您的付款方式并重试。")
    } else if str_eq(text, "Reloading would exceed your monthly limit. ") {
        Some("重新加载将超出您的每月限额。")
    } else if str_eq(text, "Increase your limit") {
        Some("提高限额")
    } else if str_eq(text, " to continue.") {
        Some(" 以继续。")
    } else if str_eq(text, "Usage reporting is currently limited") {
        Some("用量报告目前受限")
    } else if str_eq(text, "Enterprise credit usage isn't fully available in this view yet. For the most accurate spend tracking, ") {
        Some("企业版额度用量在此视图中尚不完全可用。为了获得最准确的支出跟踪，")
    } else if str_eq(text, "visit the admin panel") {
        Some("访问管理面板")
    } else if str_eq(text, "Enterprise credit usage isn't fully available in this view yet. Contact a team admin for detailed usage reporting.") {
        Some("企业版额度用量在此视图中尚不完全可用。请联系团队管理员获取详细的用量报告。")
    } else if str_eq(text, "Add-on credits are purchased in prepaid packages that roll over each billing cycle and expire after one year. The more you purchase, the better the per-credit rate. Once your base plan credits are used, add-on credits will be consumed.") {
        Some("额外额度通过预付包购买，可在每个计费周期结转，并在一年后过期。购买越多，单价越低。一旦您的基础套餐额度用完，将消耗额外额度。")
    } else if str_eq(text, "Add-on credits are purchased in prepaid packages that roll over each billing cycle and expire after one year. The more you purchase, the better the per-credit rate. Once your base plan credits are used, add-on credits will be consumed. Purchased add-on credits are shared across your team.") {
        Some("额外额度通过预付包购买，可在每个计费周期结转，并在一年后过期。购买越多，单价越低。一旦您的基础套餐额度用完，将消耗额外额度。购买的额外额度由您的团队共享。")
    } else if str_eq(text, "Purchased add-on credits are shared across your team.") {
        Some("购买的额外额度由您的团队共享。")
    } else if str_eq(text, "Cloud agent trial") {
        Some("云智能体试用")
    } else if str_eq(text, "Overage spending limit") {
        Some("超额支出限额")
    } else if str_eq(text, "Monthly spending limit") {
        Some("每月支出限额")
    } else if str_eq(text, "Load more") {
        Some("加载更多")
    } else if str_eq(text, "Failed to update workspace settings") {
        Some("更新工作空间设置失败")
    } else if str_eq(text, "Successfully purchased add-on credits") {
        Some("成功购买额外额度")
    } else if str_eq(text, "New agent") {
        Some("新建智能体")
    } else if str_eq(text, "Buy more") {
        Some("购买更多")
    } else if str_eq(text, "Monthly overage spending limit") {
        Some("每月超额支出限额")
    } else if str_eq(text, "Not set") {
        Some("未设置")
    } else if str_eq(text, "Sets the monthly overage spending limit beyond the plan amount") {
        Some("设置超出套餐金额的每月超额支出限额")
    } else if str_eq(text, "Add-on credits") {
        Some("额外额度")
    } else {
        None
    }
}

/// Block 1 of the settings dictionary.
pub open spec fn settings_dictionary_block_1(text: Seq<char>) -> Option<Seq<char>> {
    if text == "Switch to the Build plan"@ {
        Some("切换到 Build 套餐"@)
    } else if text == " to purchase add-on credits."@ {
        Some(" 以购买额外额度。"@)
    } else if text == "Upgrade to the Build plan"@ {
        Some("升级到 Build 套餐"@)
    } else if text == "Contact your Account Executive for more add-on credits."@ {
        Some("请联系您的客户经理获取更多额外额度。"@)
    } else if text == "Contact a team admin to purchase add-on credits."@ {
        Some("请联系团队管理员购买额外额度。"@)
    } else if text == "Monthly spend limit"@ {
        Some("每月支出限额"@)
    } else if text == "Sets the monthly limit spent on add-on credits"@ {
        Some("设置每月购买额外额度的限额"@)
    } else if text == "Purchased this month"@ {
        Some("本月已购买"@)
    } else if text == "Auto reload"@ {
        Some("自动重新加载"@)
    } else if text == "1 credit remaining"@ {
        Some("剩余 1 额度"@)
    } else if text == "1 credit"@ {
        Some("1 额度"@)
    } else if text == "Please enter a valid currency amount"@ {
        Some("请输入有效的货币金额"@)
    } else if text == "Please enter a price between $0.01 and $10,000,000"@ {
        Some("请输入 0.01 美元到 10,000,000 美元之间的价格"@)
    } else if text == "Warp will prevent use of premium models when this dollar limit is reached. Resets on a monthly basis."@ {
        Some("达到此美元限额时，Warp 将阻止使用高级模型。每月重置一次。"@)
    } else if text == "Note that AI credits made near your chosen limit may exceed it by a few dollars."@ {
        Some("请注意，在接近您选择的限额时产生的 AI 额度可能会超出限额几美元。"@)
    } else if text == "Create and manage API keys to allow other Oz cloud agents to access your Warp account."@ {
        Some("创建并管理 API 密钥，允许其他 Oz 云端智能体访问您的 Warp 账户。"@)
    } else if text == "Create and manage API keys to allow other Oz cloud agents to access your Warp account.\nFor more information, visit the "@ {
        Some("创建并管理 API 密钥，允许其他 Oz 云端智能体访问您的 Warp 账户。\n欲了解更多信息，请访问 "@)
    } else if text == "For more information, visit the "@ {
        Some("欲了解更多信息，请访问 "@)
    } else if text == "Documentation."@ {
        Some("文档。"@)
    } else if text == "Name"@ {
        Some("名称"@)
    } else if text == "Key"@ {
        Some("密钥"@)
    } else if text == "Scope"@ {
        Some("作用域"@)
    } else if text == "Created"@ {
        Some("创建时间"@)
    } else if text == "Last used"@ {
        Some("最后使用"@)
    } else if text == "Expires at"@ {
        Some("过期时间"@)
    } else if text == "Never"@ {
        Some("永不过期"@)
    } else if text == "Personal"@ {
        Some("个人"@)
    } else if text == "Team"@ {
        Some("团队"@)
    } else if text == "No API Keys"@ {
        Some("暂无 API 密钥"@)
    } else if text == "Create a key to manage external access to Warp"@ {
        Some("创建密钥以管理 Warp 的外部访问"@)
    } else if text == "New API key"@ {
        Some("新建 API 密钥"@)
    } else if text == "+ Create API Key"@ {
        Some("+ 创建 API 密钥"@)
    } else if text == "Warp API Key"@ {
        Some("Warp API 密钥"@)
    } else if text == "Done"@ {
        Some("完成"@)
    } else if text == "Create key"@ {
        Some("创建密钥"@)
    } else if text == "Creating..."@ {
        Some("正在创建..."@)
    } else if text == "Type"@ {
        Some("类型"@)
    } else if text == "Expiration"@ {
        Some("过期时间"@)
    } else if text == "1 day"@ {
        Some("1 天"@)
    } else if text == "30 days"@ {
        Some("30 天"@)
    } else if text == "90 days"@ {
        Some("90 天"@)
    } else if text == "This API key is tied to your user and can make requests against your Warp account."@ {
        Some("此 API 密钥绑定到您的用户，可向您的 Warp 账户发起请求。"@)
    } else if text == "This API key is tied to your team and can make requests on behalf of your team."@ {
        Some("此 API 密钥绑定到您的团队，可代表您的团队发起请求。"@)
    } else if text == "Compact"@ {
        Some("紧凑模式"@)
    } else if text == "Warp"@ {
        Some("Warp 模式"@)
    } else if text == "Classic"@ {
        Some("经典模式"@)
    } else if text == "Light"@ {
        Some("浅色主题"@)
    } else if text == "Dark"@ {
        Some("深色主题"@)
    } else if text == "Input type"@ {
        Some("输入类型"@)
    } else if text == "Themes"@ {
        Some("主题"@)
    } else {
        None
    }
}

/// Looks a string up in block 1 of the settings dictionary.
pub fn settings_dictionary_lookup_1(text: &str) -> (res: Option<&'static str>)
    ensures
        opt_str_view(res) == settings_dictionary_block_1(text@),
{
    if str_eq(text, "Switch to the Build plan") {
        Some("切换到 Build 套餐")
    } else if str_eq(text, " to purchase add-on credits.") {
        Some(" 以购买额外额度。")
    } else if str_eq(text, "Upgrade to the Build plan") {
        Some("升级到 Build 套餐")
    } else if str_eq(text, "Contact your Account Executive for more add-on credits.") {
        Some("请联系您的客户经理获取更多额外额度。")
    } else if str_eq(text, "Contact a team admin to purchase add-on credits.") {
        Some("请联系团队管理员购买额外额度。")
    } else if str_eq(text, "Monthly spend limit") {
        Some("每月支出限额")
    } else if str_eq(text, "Sets the monthly limit spent on add-on credits") {
        Some("设置每月购买额外额度的限额")
    } else if str_eq(text, "Purchased this month") {
        Some("本月已购买")
    } else if str_eq(text, "Auto reload") {
        Some("自动重新加载")
    } else if str_eq(text, "1 credit remaining") {
        Some("剩余 1 额度")
    } else if str_eq(text, "1 credit") {
        Some("1 额度")
    } else if str_eq(text, "Please enter a valid currency amount") {
        Some("请输入有效的货币金额")
    } else if str_eq(text, "Please enter a price between $0.01 and $10,000,000") {
        Some("请输入 0.01 美元到 10,000,000 美元之间的价格")
    } else if str_eq(text, "Warp will prevent use of premium models when this dollar limit is reached. Resets on a monthly basis.") {
        Some("达到此美元限额时，Warp 将阻止使用高级模型。每月重置一次。")
    } else if str_eq(text, "Note that AI credits made near your chosen limit may exceed it by a few dollars.") {
        Some("请注意，在接近您选择的限额时产生的 AI 额度可能会超出限额几美元。")
    } else if str_eq(text, "Create and manage API keys to allow other Oz cloud agents to access your Warp account.") {
        Some("创建并管理 API 密钥，允许其他 Oz 云端智能体访问您的 Warp 账户。")
    } else if str_eq(text, "Create and manage API keys to allow other Oz cloud agents to access your Warp account.\nFor more information, visit the ") {
        Some("创建并管理 API 密钥，允许其他 Oz 云端智能体访问您的 Warp 账户。\n欲了解更多信息，请访问 ")
    } else if str_eq(text, "For more information, visit the ") {
        Some("欲了解更多信息，请访问 ")
    } else if str_eq(text, "Documentation.") {
        Some("文档。")
    } else if str_eq(text, "Name") {
        Some("名称")
    } else if str_eq(text, "Key") {
        Some("密钥")
    } else if str_eq(text, "Scope") {
        Some("作用域")
    } else if str_eq(text, "Created") {
        Some("创建时间")
    } else if str_eq(text, "Last used") {
        Some("最后使用")
    } else if str_eq(text, "Expires at") {
        Some("过期时间")
    } else if str_eq(text, "Never") {
        Some("永不过期")
    } else if str_eq(text, "Personal") {
        Some("个人")
    } else if str_eq(text, "Team") {
        Some("团队")
    } else if str_eq(text, "No API Keys") {
        Some("暂无 API 密钥")
    } else if str_eq(text, "Create a key to manage external access to Warp") {
        Some("创建密钥以管理 Warp 的外部访问")
    } else if str_eq(text, "New API key") {
        Some("新建 API 密钥")
    } else if str_eq(text, "+ Create API Key") {
        Some("+ 创建 API 密钥")
    } else if str_eq(text, "Warp API Key") {
        Some("Warp API 密钥")
    } else if str_eq(text, "Done") {
        Some("完成")
    } else if str_eq(text, "Create key") {
        Some("创建密钥")
    } else if str_eq(text, "Creating...") {
        Some("正在创建...")
    } else if str_eq(text, "Type") {
        Some("类型")
    } else if str_eq(text, "Expiration") {
        Some("过期时间")
    } else if str_eq(text, "1 day") {
        Some("1 天")
    } else if str_eq(text, "30 days") {
        Some("30 天")
    } else if str_eq(text, "90 days") {
        Some("90 天")
    } else if str_eq(text, "This API key is tied to your user and can make requests against your Warp account.") {
        Some("此 API 密钥绑定到您的用户，可向您的 Warp 账户发起请求。")
    } else if str_eq(text, "This API key is tied to your team and can make requests on behalf of your team.") {
        Some("此 API 密钥绑定到您的团队，可代表您的团队发起请求。")
    } else if str_eq(text, "Compact") {
        Some("紧凑模式")
    } else if str_eq(text, "Warp") {
        Some("Warp 模式")
    } else if str_eq(text, "Classic") {
        Some("经典模式")
    } else if str_eq(text, "Light") {
        Some("浅色主题")
    } else if str_eq(text, "Dark") {
        Some("深色主题")
    } else if str_eq(text, "Input type") {
        Some("输入类型")
    } else if str_eq(text, "Themes") {
        Some("主题")
    } else {
        None
    }
}

/// Block 2 of the settings dictionary.
pub open spec fn settings_dictionary_block_2(text: Seq<char>) -> Option<Seq<char>> {
    if text == "Icon"@ {
        Some("图标"@)
    } else if text == "Window"@ {
        Some("窗口"@)
    } else if text == "Input"@ {
        Some("输入"@)
    } else if text == "Panes"@ {
        Some("面板"@)
    } else if text == "Blocks"@ {
        Some("块"@)
    } else if text == "Text"@ {
        Some("文本"@)
    } else if text == "Cursor"@ {
        Some("光标"@)
    } else if text == "Tabs"@ {
        Some("标签页"@)
    } else if text == "Fullscreen apps"@ {
        Some("全屏应用"@)
    } else if text == "General"@ {
        Some("常规"@)
    } else if text == "Session"@ {
        Some("会话"@)
    } else if text == "Keys"@ {
        Some("按键"@)
    } else if text == "Text Editing"@ {
        Some("文本编辑"@)
    } else if text == "Terminal Input"@ {
        Some("终端输入"@)
    } else if text == "Terminal"@ {
        Some("终端"@)
    } else if text == "Notifications"@ {
        Some("通知"@)
    } else if text == "Workflows"@ {
        Some("工作流"@)
    } else if text == "System"@ {
        Some("系统"@)
    } else if text == "Usage"@ {
        Some("用量"@)
    } else if text == "Plan"@ {
        Some("方案"@)
    } else if text == "Referrals"@ {
        Some("推荐"@)
    } else if text == "compact mode"@ {
        Some("紧凑模式"@)
    } else if text == "Compact Mode"@ {
        Some("紧凑模式"@)
    } else if text == "Compact mode"@ {
        Some("紧凑模式"@)
    } else if text == "themes: sync with OS"@ {
        Some("与系统同步主题"@)
    } else if text == "Sync with OS"@ {
        Some("与系统同步主题"@)
    } else if text == "cursor blink"@ {
        Some("光标闪烁"@)
    } else if text == "Cursor blink"@ {
        Some("光标闪烁"@)
    } else if text == "jump to bottom of block button"@ {
        Some("跳到底部块按钮"@)
    } else if text == "block dividers"@ {
        Some("块分隔线"@)
    } else if text == "Block dividers"@ {
        Some("块分隔线"@)
    } else if text == "dim inactive panes"@ {
        Some("淡化非活动面板"@)
    } else if text == "Dim inactive panes"@ {
        Some("淡化非活动面板"@)
    } else if text == "tab indicators"@ {
        Some("标签页指示器"@)
    } else if text == "Tab indicators"@ {
        Some("标签页指示器"@)
    } else if text == "focus follows mouse"@ {
        Some("焦点跟随鼠标"@)
    } else if text == "Focus follows mouse"@ {
        Some("焦点跟随鼠标"@)
    } else if text == "zen mode"@ {
        Some("禅模式"@)
    } else if text == "Zen mode"@ {
        Some("禅模式"@)
    } else if text == "Always show tab bar"@ {
        Some("始终显示标签栏"@)
    } else if text == "Hide tab bar if fullscreen"@ {
        Some("全屏时隐藏标签栏"@)
    } else if text == "Only show tab bar on hover"@ {
        Some("悬停时显示标签栏"@)
    } else if text == "Start Input at the Top"@ {
        Some("输入框置顶"@)
    } else if text == "Pin Input to the Top"@ {
        Some("固定输入框到顶部"@)
    } else if text == "Pin Input to the Bottom"@ {
        Some("固定输入框到底部"@)
    } else if text == "Toggle Input Mode (Warp/Classic)"@ {
        Some("切换输入模式（Warp/经典）"@)
    } else if text == "Show code review button in tab bar"@ {
        Some("在标签栏显示代码审查按钮"@)
    } else if text == "Hide code review button in tab bar"@ {
        Some("在标签栏隐藏代码审查按钮"@)
    } else if text == "Match terminal"@ {
        Some("匹配终端"@)
    } else if text == "View all available system fonts"@ {
        Some("查看所有可用系统字体"@)
    } else {
        None
    }
}

/// Looks a string up in block 2 of the settings dictionary.
pub fn settings_dictionary_lookup_2(text: &str) -> (res: Option<&'static str>)
    ensures
        opt_str_view(res) == settings_dictionary_block_2(text@),
{
    if str_eq(text, "Icon") {
        Some("图标")
    } else if str_eq(text, "Window") {
        Some("窗口")
    } else if str_eq(text, "Input") {
        Some("输入")
    } else if str_eq(text, "Panes") {
        Some("面板")
    } else if str_eq(text, "Blocks") {
        Some("块")
    } else if str_eq(text, "Text") {
        Some("文本")
    } else if str_eq(text, "Cursor") {
        Some("光标")
    } else if str_eq(text, "Tabs") {
        Some("标签页")
    } else if str_eq(text, "Fullscreen apps") {
        Some("全屏应用")
    } else if str_eq(text, "General") {
        Some("常规")
    } else if str_eq(text, "Session") {
        Some("会话")
    } else if str_eq(text, "Keys") {
        Some("按键")
    } else if str_eq(text, "Text Editing") {
        Some("文本编辑")
    } else if str_eq(text, "Terminal Input") {
        Some("终端输入")
    } else if str_eq(text, "Terminal") {
        Some("终端")
    } else if str_eq(text, "Notifications") {
        Some("通知")
    } else if str_eq(text, "Workflows") {
        Some("工作流")
    } else if str_eq(text, "System") {
        Some("系统")
    } else if str_eq(text, "Usage") {
        Some("用量")
    } else if str_eq(text, "Plan") {
        Some("方案")
    } else if str_eq(text, "Referrals") {
        Some("推荐")
    } else if str_eq(text, "compact mode") {
        Some("紧凑模式")
    } else if str_eq(text, "Compact Mode") {
        Some("紧凑模式")
    } else if str_eq(text, "Compact mode") {
        Some("紧凑模式")
    } else if str_eq(text, "themes: sync with OS") {
        Some("与系统同步主题")
    } else if str_eq(text, "Sync with OS") {
        Some("与系统同步主题")
    } else if str_eq(text, "cursor blink") {
        Some("光标闪烁")
    } else if str_eq(text, "Cursor blink") {
        Some("光标闪烁")
    } else if str_eq(text, "jump to bottom of block button") {
        Some("跳到底部块按钮")
    } else if str_eq(text, "block dividers") {
        Some("块分隔线")
    } else if str_eq(text, "Block dividers") {
        Some("块分隔线")
    } else if str_eq(text, "dim inactive panes") {
        Some("淡化非活动面板")
    } else if str_eq(text, "Dim inactive panes") {
        Some("淡化非活动面板")
    } else if str_eq(text, "tab indicators") {
        Some("标签页指示器")
    } else if str_eq(text, "Tab indicators") {
        Some("标签页指示器")
    } else if str_eq(text, "focus follows mouse") {
        Some("焦点跟随鼠标")
    } else if str_eq(text, "Focus follows mouse") {
        Some("焦点跟随鼠标")
    } else if str_eq(text, "zen mode") {
        Some("禅模式")
    } else if str_eq(text, "Zen mode") {
        Some("禅模式")
    } else if str_eq(text, "Always show tab bar") {
        Some("始终显示标签栏")
    } else if str_eq(text, "Hide tab bar if fullscreen") {
        Some("全屏时隐藏标签栏")
    } else if str_eq(text, "Only show tab bar on hover") {
        Some("悬停时显示标签栏")
    } else if str_eq(text, "Start Input at the Top") {
        Some("输入框置顶")
    } else if str_eq(text, "Pin Input to the Top") {
        Some("固定输入框到顶部")
    } else if str_eq(text, "Pin Input to the Bottom") {
        Some("固定输入框到底部")
    } else if str_eq(text, "Toggle Input Mode (Warp/Classic)") {
        Some("切换输入模式（Warp/经典）")
    } else if str_eq(text, "Show code review button in tab bar") {
        Some("在标签栏显示代码审查按钮")
    } else if str_eq(text, "Hide code review button in tab bar") {
        Some("在标签栏隐藏代码审查按钮")
    } else if str_eq(text, "Match terminal") {
        Some("匹配终端")
    } else if str_eq(text, "View all available system fonts") {
        Some("查看所有可用系统字体")
    } else {
        None
    }
}

/// Block 3 of the settings dictionary.
pub open spec fn settings_dictionary_block_3(text: Seq<char>) -> Option<Seq<char>> {
    if text == "Line height"@ {
        Some("行高"@)
    } else if text == "Font weight"@ {
        Some("字体粗细"@)
    } else if text == "Font size (px)"@ {
        Some("字号 (px)"@)
    } else if text == "Notebook font size"@ {
        Some("笔记本字体大小"@)
    } else if text == "Ligatures may reduce performance"@ {
        Some("连字可能会降低性能"@)
    } else if text == "Cursor type is disabled in Vim mode"@ {
        Some("Vim 模式下禁用光标类型设置"@)
    } else if text == "Copy on Select"@ {
        Some("选中即复制"@)
    } else if text == "Autocomplete quotes and brackets"@ {
        Some("自动补全引号和括号"@)
    } else if text == "Restore windows, tabs, and panes on startup"@ {
        Some("启动时恢复窗口、标签页和面板"@)
    } else if text == "Scroll reporting"@ {
        Some("滚动上报"@)
    } else if text == "Open completions menu as you type"@ {
        Some("输入时打开补全菜单"@)
    } else if text == "Directory path"@ {
        Some("目录路径"@)
    } else if text == "Executable path"@ {
        Some("可执行文件路径"@)
    } else if text == "Command corrections"@ {
        Some("命令纠错"@)
    } else if text == "Error underlining"@ {
        Some("错误下划线"@)
    } else if text == "Syntax highlighting"@ {
        Some("语法高亮"@)
    } else if text == "Audible terminal bell"@ {
        Some("终端提示音"@)
    } else if text == "Autosuggestions"@ {
        Some("自动建议"@)
    } else if text == "Enable SSH Wrapper"@ {
        Some("启用 SSH Wrapper"@)
    } else if text == "Link tooltip"@ {
        Some("链接提示"@)
    } else if text == "Vim unnamed register"@ {
        Some("Vim 未命名寄存器"@)
    } else if text == "Vim status bar"@ {
        Some("Vim 状态栏"@)
    } else if text == "Make Warp default terminal"@ {
        Some("将 Warp 设为默认终端"@)
    } else if text == "Left Option as Meta"@ {
        Some("左 Option 作为 Meta"@)
    } else if text == "Right Option as Meta"@ {
        Some("右 Option 作为 Meta"@)
    } else if text == "Left Alt as Meta"@ {
        Some("左 Alt 作为 Meta"@)
    } else if text == "Right Alt as Meta"@ {
        Some("右 Alt 作为 Meta"@)
    } else if text == "Tab key behavior"@ {
        Some("Tab 键行为"@)
    } else if text == "Keybinding"@ {
        Some("快捷键"@)
    } else if text == "Click to set global hotkey"@ {
        Some("点击设置全局热键"@)
    } else if text == "Change keybinding"@ {
        Some("更改快捷键"@)
    } else if text == "seconds"@ {
        Some("秒"@)
    } else if text == "Not supported on Wayland. "@ {
        Some("Wayland 不支持。"@)
    } else if text == "Autohides on loss of keyboard focus"@ {
        Some("失去键盘焦点时自动隐藏"@)
    } else if text == "See docs."@ {
        Some("查看文档。"@)
    } else if text == "Code"@ {
        Some("代码"@)
    } else if text == "Initialization Settings"@ {
        Some("初始化设置"@)
    } else if text == "Codebase indexing"@ {
        Some("代码库索引"@)
    } else if text == "Index new folders by default"@ {
        Some("默认索引新文件夹"@)
    } else if text == "Initialized / indexed folders"@ {
        Some("已初始化/索引的文件夹"@)
    } else if text == "No folders have been initialized yet."@ {
        Some("尚未初始化任何文件夹。"@)
    } else if text == "No index created"@ {
        Some("尚未创建索引"@)
    } else if text == "INDEXING"@ {
        Some("索引"@)
    } else if text == "LSP SERVERS"@ {
        Some("LSP 服务器"@)
    } else if text == "Restart server"@ {
        Some("重启服务器"@)
    } else if text == "View logs"@ {
        Some("查看日志"@)
    } else if text == "Failed"@ {
        Some("失败"@)
    } else if text == "Secret redaction"@ {
        Some("密钥脱敏"@)
    } else if text == "Custom secret redaction"@ {
        Some("自定义密钥脱敏"@)
    } else if text == "Add regex pattern"@ {
        Some("添加正则表达式"@)
    } else {
        None
    }
}

/// Looks a string up in block 3 of the settings dictionary.
pub fn settings_dictionary_lookup_3(text: &str) -> (res: Option<&'static str>)
    ensures
        opt_str_view(res) == settings_dictionary_block_3(text@),
{
    if str_eq(text, "Line height") {
        Some("行高")
    } else if str_eq(text, "Font weight") {
        Some("字体粗细")
    } else if str_eq(text, "Font size (px)") {
        Some("字号 (px)")
    } else if str_eq(text, "Notebook font size") {
        Some("笔记本字体大小")
    } else if str_eq(text, "Ligatures may reduce performance") {
        Some("连字可能会降低性能")
    } else if str_eq(text, "Cursor type is disabled in Vim mode") {
        Some("Vim 模式下禁用光标类型设置")
    } else if str_eq(text, "Copy on Select") {
        Some("选中即复制")
    } else if str_eq(text, "Autocomplete quotes and brackets") {
        Some("自动补全引号和括号")
    } else if str_eq(text, "Restore windows, tabs, and panes on startup") {
        Some("启动时恢复窗口、标签页和面板")
    } else if str_eq(text, "Scroll reporting") {
        Some("滚动上报")
    } else if str_eq(text, "Open completions menu as you type") {
        Some("输入时打开补全菜单")
    } else if str_eq(text, "Directory path") {
        Some("目录路径")
    } else if str_eq(text, "Executable path") {
        Some("可执行文件路径")
    } else if str_eq(text, "Command corrections") {
        Some("命令纠错")
    } else if str_eq(text, "Error underlining") {
        Some("错误下划线")
    } else if str_eq(text, "Syntax highlighting") {
        Some("语法高亮")
    } else if str_eq(text, "Audible terminal bell") {
        Some("终端提示音")
    } else if str_eq(text, "Autosuggestions") {
        Some("自动建议")
    } else if str_eq(text, "Enable SSH Wrapper") {
        Some("启用 SSH Wrapper")
    } else if str_eq(text, "Link tooltip") {
        Some("链接提示")
    } else if str_eq(text, "Vim unnamed register") {
        Some("Vim 未命名寄存器")
    } else if str_eq(text, "Vim status bar") {
        Some("Vim 状态栏")
    } else if str_eq(text, "Make Warp default terminal") {
        Some("将 Warp 设为默认终端")
    } else if str_eq(text, "Left Option as Meta") {
        Some("左 Option 作为 Meta")
    } else if str_eq(text, "Right Option as Meta") {
        Some("右 Option 作为 Meta")
    } else if str_eq(text, "Left Alt as Meta") {
        Some("左 Alt 作为 Meta")
    } else if str_eq(text, "Right Alt as Meta") {
        Some("右 Alt 作为 Meta")
    } else if str_eq(text, "Tab key behavior") {
        Some("Tab 键行为")
    } else if str_eq(text, "Keybinding") {
        Some("快捷键")
    } else if str_eq(text, "Click to set global hotkey") {
        Some("点击设置全局热键")
    } else if str_eq(text, "Change keybinding") {
        Some("更改快捷键")
    } else if str_eq(text, "seconds") {
        Some("秒")
    } else if str_eq(text, "Not supported on Wayland. ") {
        Some("Wayland 不支持。")
    } else if str_eq(text, "Autohides on loss of keyboard focus") {
        Some("失去键盘焦点时自动隐藏")
    } else if str_eq(text, "See docs.") {
        Some("查看文档。")
    } else if str_eq(text, "Code") {
        Some("代码")
    } else if str_eq(text, "Initialization Settings") {
        Some("初始化设置")
    } else if str_eq(text, "Codebase indexing") {
        Some("代码库索引")
    } else if str_eq(text, "Index new folders by default") {
        Some("默认索引新文件夹")
    } else if str_eq(text, "Initialized / indexed folders") {
        Some("已初始化/索引的文件夹")
    } else if str_eq(text, "No folders have been initialized yet.") {
        Some("尚未初始化任何文件夹。")
    } else if str_eq(text, "No index created") {
        Some("尚未创建索引")
    } else if str_eq(text, "INDEXING") {
        Some("索引")
    } else if str_eq(text, "LSP SERVERS") {
        Some("LSP 服务器")
    } else if str_eq(text, "Restart server") {
        Some("重启服务器")
    } else if str_eq(text, "View logs") {
        Some("查看日志")
    } else if str_eq(text, "Failed") {
        Some("失败")
    } else if str_eq(text, "Secret redaction") {
        Some("密钥脱敏")
    } else if str_eq(text, "Custom secret redaction") {
        Some("自定义密钥脱敏")
    } else if str_eq(text, "Add regex pattern") {
        Some("添加正则表达式")
    } else {
        None
    }
}

/// Block 4 of the settings dictionary.
pub open spec fn settings_dictionary_block_4(text: Seq<char>) -> Option<Seq<char>> {
    if text == "e.g. \"Google API Key\""@ {
        Some("例如 \"Google API Key\""@)
    } else if text == "Name (optional)"@ {
        Some("名称（可选）"@)
    } else if text == "Regex pattern"@ {
        Some("正则表达式"@)
    } else if text == "Add regex"@ {
        Some("添加正则"@)
    } else if text == "Invalid regex"@ {
        Some("无效正则"@)
    } else if text == "Telemetry"@ {
        Some("遥测"@)
    } else if text == "Data management"@ {
        Some("数据管理"@)
    } else if text == "Privacy policy"@ {
        Some("隐私政策"@)
    } else if text == "No enterprise regexes have been configured by your organization."@ {
        Some("您的组织尚未配置企业正则表达式。"@)
    } else if text == "ZDR"@ {
        Some("ZDR"@)
    } else if text == "Sign up"@ {
        Some("注册"@)
    } else if text == "MODELS"@ {
        Some("模型"@)
    } else if text == "Agents"@ {
        Some("智能体"@)
    } else if text == "Models"@ {
        Some("模型"@)
    } else if text == "PERMISSIONS"@ {
        Some("权限"@)
    } else if text == "None"@ {
        Some("无"@)
    } else if text == "Exclusive theme"@ {
        Some("专属主题"@)
    } else if text == "Keycaps + stickers"@ {
        Some("键帽和贴纸"@)
    } else if text == "T-shirt"@ {
        Some("T 恤"@)
    } else if text == "Notebook"@ {
        Some("笔记本"@)
    } else if text == "Baseball cap"@ {
        Some("棒球帽"@)
    } else if text == "Hoodie"@ {
        Some("连帽衫"@)
    } else if text == "Premium Hydro Flask"@ {
        Some("高级保温瓶"@)
    } else if text == "Backpack"@ {
        Some("背包"@)
    } else if text == "Free"@ {
        Some("免费"@)
    } else if text == "Compare plans"@ {
        Some("比较方案"@)
    } else if text == "Up to date"@ {
        Some("已是最新"@)
    } else if text == "Version"@ {
        Some("版本"@)
    } else if text == "Log out"@ {
        Some("退出登录"@)
    } else if text == "Contact support"@ {
        Some("联系支持"@)
    } else if text == "Manage billing"@ {
        Some("管理账单"@)
    } else if text == "Check for updates"@ {
        Some("检查更新"@)
    } else if text == "Relaunch Warp"@ {
        Some("重启 Warp"@)
    } else if text == "Update available"@ {
        Some("有可用更新"@)
    } else if text == "Updating"@ {
        Some("正在更新"@)
    } else if text == "Installed update"@ {
        Some("已安装更新"@)
    } else if text == "Update manually"@ {
        Some("手动更新"@)
    } else if text == "Settings Sync"@ {
        Some("设置同步"@)
    } else if text == "Overview"@ {
        Some("概览"@)
    } else if text == "Usage History"@ {
        Some("用量历史"@)
    } else if text == "View details on overage usage"@ {
        Some("查看超额用量详情"@)
    } else if text == "Enable premium model usage overages"@ {
        Some("启用高级模型超额用量"@)
    } else if text == "Premium model usage overages are enabled"@ {
        Some("高级模型超额用量已启用"@)
    } else if text == "Premium model usage overages are not enabled"@ {
        Some("高级模型超额用量未启用"@)
    } else if text == "A to Z"@ {
        Some("A 到 Z"@)
    } else if text == "Z to A"@ {
        Some("Z 到 A"@)
    } else if text == "Usage ascending"@ {
        Some("用量升序"@)
    } else if text == "Usage descending"@ {
        Some("用量降序"@)
    } else if text == "One-time purchase"@ {
        Some("一次性购买"@)
    } else if text == "Total overages"@ {
        Some("总超额用量"@)
    } else {
        None
    }
}

/// Looks a string up in block 4 of the settings dictionary.
pub fn settings_dictionary_lookup_4(text: &str) -> (res: Option<&'static str>)
    ensures
        opt_str_view(res) == settings_dictionary_block_4(text@),
{
    if str_eq(text, "e.g. \"Google API Key\"") {
        Some("例如 \"Google API Key\"")
    } else if str_eq(text, "Name (optional)") {
        Some("名称（可选）")
    } else if str_eq(text, "Regex pattern") {
        Some("正则表达式")
    } else if str_eq(text, "Add regex") {
        Some("添加正则")
    } else if str_eq(text, "Invalid regex") {
        Some("无效正则")
    } else if str_eq(text, "Telemetry") {
        Some("遥测")
    } else if str_eq(text, "Data management") {
        Some("数据管理")
    } else if str_eq(text, "Privacy policy") {
        Some("隐私政策")
    } else if str_eq(text, "No enterprise regexes have been configured by your organization.") {
        Some("您的组织尚未配置企业正则表达式。")
    } else if str_eq(text, "ZDR") {
        Some("ZDR")
    } else if str_eq(text, "Sign up") {
        Some("注册")
    } else if str_eq(text, "MODELS") {
        Some("模型")
    } else if str_eq(text, "Agents") {
        Some("智能体")
    } else if str_eq(text, "Models") {
        Some("模型")
    } else if str_eq(text, "PERMISSIONS") {
        Some("权限")
    } else if str_eq(text, "None") {
        Some("无")
    } else if str_eq(text, "Exclusive theme") {
        Some("专属主题")
    } else if str_eq(text, "Keycaps + stickers") {
        Some("键帽和贴纸")
    } else if str_eq(text, "T-shirt") {
        Some("T 恤")
    } else if str_eq(text, "Notebook") {
        Some("笔记本")
    } else if str_eq(text, "Baseball cap") {
        Some("棒球帽")
    } else if str_eq(text, "Hoodie") {
        Some("连帽衫")
    } else if str_eq(text, "Premium Hydro Flask") {
        Some("高级保温瓶")
    } else if str_eq(text, "Backpack") {
        Some("背包")
    } else if str_eq(text, "Free") {
        Some("免费")
    } else if str_eq(text, "Compare plans") {
        Some("比较方案")
    } else if str_eq(text, "Up to date") {
        Some("已是最新")
    } else if str_eq(text, "Version") {
        Some("版本")
    } else if str_eq(text, "Log out") {
        Some("退出登录")
    } else if str_eq(text, "Contact support") {
        Some("联系支持")
    } else if str_eq(text, "Manage billing") {
        Some("管理账单")
    } else if str_eq(text, "Check for updates") {
        Some("检查更新")
    } else if str_eq(text, "Relaunch Warp") {
        Some("重启 Warp")
    } else if str_eq(text, "Update available") {
        Some("有可用更新")
    } else if str_eq(text, "Updating") {
        Some("正在更新")
    } else if str_eq(text, "Installed update") {
        Some("已安装更新")
    } else if str_eq(text, "Update manually") {
        Some("手动更新")
    } else if str_eq(text, "Settings Sync") {
        Some("设置同步")
    } else if str_eq(text, "Overview") {
        Some("概览")
    } else if str_eq(text, "Usage History") {
        Some("用量历史")
    } else if str_eq(text, "View details on overage usage") {
        Some("查看超额用量详情")
    } else if str_eq(text, "Enable premium model usage overages") {
        Some("启用高级模型超额用量")
    } else if str_eq(text, "Premium model usage overages are enabled") {
        Some("高级模型超额用量已启用")
    } else if str_eq(text, "Premium model usage overages are not enabled") {
        Some("高级模型超额用量未启用")
    } else if str_eq(text, "A to Z") {
        Some("A 到 Z")
    } else if str_eq(text, "Z to A") {
        Some("Z 到 A")
    } else if str_eq(text, "Usage ascending") {
        Some("用量升序")
    } else if str_eq(text, "Usage descending") {
        Some("用量降序")
    } else if str_eq(text, "One-time purchase") {
        Some("一次性购买")
    } else if str_eq(text, "Total overages") {
        Some("总超额用量")
    } else {
        None
    }
}

/// Block 5 of the settings dictionary.
pub open spec fn settings_dictionary_block_5(text: Seq<char>) -> Option<Seq<char>> {
    if text == "Last 30 days"@ {
        Some("最近 30 天"@)
    } else if text == "No usage history"@ {
        Some("暂无用量历史"@)
    } else if text == "Sort by"@ {
        Some("排序方式"@)
    } else if text == "Unlimited"@ {
        Some("无限制"@)
    } else if text == "Credits"@ {
        Some("额度"@)
    } else if text == "Warp Agent"@ {
        Some("Warp 智能体"@)
    } else if text == "To use AI features, please create an account."@ {
        Some("要使用 AI 功能，请先创建账户。"@)
    } else if text == "Next Command"@ {
        Some("下一条命令"@)
    } else if text == "Prompt Suggestions"@ {
        Some("提示词建议"@)
    } else if text == "Suggested Code Banners"@ {
        Some("建议代码横幅"@)
    } else if text == "Natural Language Autosuggestions"@ {
        Some("自然语言自动建议"@)
    } else if text == "Shared Block Title Generation"@ {
        Some("共享块标题生成"@)
    } else if text == "Commit & Pull Request Generation"@ {
        Some("提交和拉取请求生成"@)
    } else if text == "Profiles"@ {
        Some("配置"@)
    } else if text == "Context window (tokens)"@ {
        Some("上下文窗口（Token）"@)
    } else if text == "Toolbar layout"@ {
        Some("工具栏布局"@)
    } else if text == "Read only"@ {
        Some("只读"@)
    } else if text == "Supervised"@ {
        Some("受监督"@)
    } else if text == "Allow in specific directories"@ {
        Some("允许在特定目录中使用"@)
    } else if text == "Add Profile"@ {
        Some("添加配置"@)
    } else if text == "Show model picker in prompt"@ {
        Some("在提示词中显示模型选择器"@)
    } else if text == "Restricted due to billing issue"@ {
        Some("因账单问题受限"@)
    } else if text == "e.g. ~/code-repos/repo"@ {
        Some("例如 ~/code-repos/repo"@)
    } else if text == "Commands, comma separated"@ {
        Some("命令，用逗号分隔"@)
    } else if text == "e.g. ls .*"@ {
        Some("例如 ls .*"@)
    } else if text == "e.g. rm .*"@ {
        Some("例如 rm .*"@)
    } else if text == "Select MCP servers"@ {
        Some("选择 MCP 服务器"@)
    } else if text == "Agent decides"@ {
        Some("智能体决定"@)
    } else if text == "Always allow"@ {
        Some("始终允许"@)
    } else if text == "Always ask"@ {
        Some("始终询问"@)
    } else if text == "Ask on first write"@ {
        Some("首次写入时询问"@)
    } else if text == "Never ask"@ {
        Some("从不询问"@)
    } else if text == "Ask unless auto-approve"@ {
        Some("除非自动批准否则询问"@)
    } else if text == "On"@ {
        Some("开启"@)
    } else if text == "Off"@ {
        Some("关闭"@)
    } else if text == "Let AI suggest the next command to run based on your command history, outputs, and common workflows."@ {
        Some("让 AI 根据您的命令历史、输出和常见工作流建议下一条运行的命令。"@)
    } else if text == "Let AI suggest natural language prompts, as inline banners in the input, based on recent commands and their outputs."@ {
        Some("让 AI 根据最近的命令及其输出，在输入框中以行内横幅的形式建议自然语言提示词。"@)
    } else if text == "Let AI suggest code diffs and queries as inline banners in the blocklist, based on recent commands and their outputs."@ {
        Some("让 AI 根据最近的命令及其输出，在块列表中以行内横幅的形式建议代码差异和查询。"@)
    } else if text == "Let AI suggest natural language autosuggestions, based on recent commands and their outputs."@ {
        Some("让 AI 根据最近的命令及其输出，提供自然语言自动建议。"@)
    } else if text == "Let AI generate a title for your shared block based on the command and output."@ {
        Some("让 AI 根据命令和输出为您的共享块生成标题。"@)
    } else if text == "Let AI generate commit messages and pull request titles and descriptions."@ {
        Some("让 AI 生成提交信息以及拉取请求的标题和描述。"@)
    } else if text == "Set the boundaries for how your Agent operates. Choose what it can access, how much autonomy it has, and when it must ask for your approval. You can also fine-tune behavior around natural language input, codebase awareness, and more."@ {
        Some("为您的智能体设定操作边界。选择它可以访问的内容、它拥有的自主程度以及何时必须征得您的批准。您还可以微调有关自然语言输入、代码库感知等方面的行为。"@)
    } else if text == "Profiles let you define how your Agent operates — from the actions it can take and when it needs approval, to the models it uses for tasks like coding and planning. You can also scope them to individual projects."@ {
        Some("配置允许您定义智能体的操作方式——从它可以采取的操作和何时需要批准，到它用于编码和规划等任务的模型。您还可以将它们的应用范围限制在单个项目。"@)
    } else if text == "This model serves as the primary engine behind the Warp Agent. It powers most interactions and invokes other models for tasks like planning or code generation when necessary. Warp may automatically switch to alternate models based on model availability or for auxiliary tasks such as conversation summarization."@ {
        Some("该模型作为 Warp 智能体背后的主要引擎。它驱动大多数交互，并在必要时调用其他模型来执行规划或代码生成等任务。Warp 可能会根据模型可用性或会话摘要等辅助任务自动切换到备选模型。"@)
    } else if text == "Apply code diffs"@ {
        Some("应用代码差异"@)
    } else if text == "Read files"@ {
        Some("读取文件"@)
    } else if text == "Execute commands"@ {
        Some("执行命令"@)
    } else if text == "Interact with running commands"@ {
        Some("与运行中的命令交互"@)
    } else if text == "Call MCP servers"@ {
        Some("调用 MCP 服务器"@)
    } else if text == "Some of your permissions are managed by your workspace."@ {
        Some("您的某些权限由您的工作空间管理。"@)
    } else {
        None
    }
}

/// Looks a string up in block 5 of the settings dictionary.
pub fn settings_dictionary_lookup_5(text: &str) -> (res: Option<&'static str>)
    ensures
        opt_str_view(res) == settings_dictionary_block_5(text@),
{
    if str_eq(text, "Last 30 days") {
        Some("最近 30 天")
    } else if str_eq(text, "No usage history") {
        Some("暂无用量历史")
    } else if str_eq(text, "Sort by") {
        Some("排序方式")
    } else if str_eq(text, "Unlimited") {
        Some("无限制")
    } else if str_eq(text, "Credits") {
        Some("额度")
    } else if str_eq(text, "Warp Agent") {
        Some("Warp 智能体")
    } else if str_eq(text, "To use AI features, please create an account.") {
        Some("要使用 AI 功能，请先创建账户。")
    } else if str_eq(text, "Next Command") {
        Some("下一条命令")
    } else if str_eq(text, "Prompt Suggestions") {
        Some("提示词建议")
    } else if str_eq(text, "Suggested Code Banners") {
        Some("建议代码横幅")
    } else if str_eq(text, "Natural Language Autosuggestions") {
        Some("自然语言自动建议")
    } else if str_eq(text, "Shared Block Title Generation") {
        Some("共享块标题生成")
    } else if str_eq(text, "Commit & Pull Request Generation") {
        Some("提交和拉取请求生成")
    } else if str_eq(text, "Profiles") {
        Some("配置")
    } else if str_eq(text, "Context window (tokens)") {
        Some("上下文窗口（Token）")
    } else if str_eq(text, "Toolbar layout") {
        Some("工具栏布局")
    } else if str_eq(text, "Read only") {
        Some("只读")
    } else if str_eq(text, "Supervised") {
        Some("受监督")
    } else if str_eq(text, "Allow in specific directories") {
        Some("允许在特定目录中使用")
    } else if str_eq(text, "Add Profile") {
        Some("添加配置")
    } else if str_eq(text, "Show model picker in prompt") {
        Some("在提示词中显示模型选择器")
    } else if str_eq(text, "Restricted due to billing issue") {
        Some("因账单问题受限")
    } else if str_eq(text, "e.g. ~/code-repos/repo") {
        Some("例如 ~/code-repos/repo")
    } else if str_eq(text, "Commands, comma separated") {
        Some("命令，用逗号分隔")
    } else if str_eq(text, "e.g. ls .*") {
        Some("例如 ls .*")
    } else if str_eq(text, "e.g. rm .*") {
        Some("例如 rm .*")
    } else if str_eq(text, "Select MCP servers") {
        Some("选择 MCP 服务器")
    } else if str_eq(text, "Agent decides") {
        Some("智能体决定")
    } else if str_eq(text, "Always allow") {
        Some("始终允许")
    } else if str_eq(text, "Always ask") {
        Some("始终询问")
    } else if str_eq(text, "Ask on first write") {
        Some("首次写入时询问")
    } else if str_eq(text, "Never ask") {
        Some("从不询问")
    } else if str_eq(text, "Ask unless auto-approve") {
        Some("除非自动批准否则询问")
    } else if str_eq(text, "On") {
        Some("开启")
    } else if str_eq(text, "Off") {
        Some("关闭")
    } else if str_eq(text, "Let AI suggest the next command to run based on your command history, outputs, and common workflows.") {
        Some("让 AI 根据您的命令历史、输出和常见工作流建议下一条运行的命令。")
    } else if str_eq(text, "Let AI suggest natural language prompts, as inline banners in the input, based on recent commands and their outputs.") {
        Some("让 AI 根据最近的命令及其输出，在输入框中以行内横幅的形式建议自然语言提示词。")
    } else if str_eq(text, "Let AI suggest code diffs and queries as inline banners in the blocklist, based on recent commands and their outputs.") {
        Some("让 AI 根据最近的命令及其输出，在块列表中以行内横幅的形式建议代码差异和查询。")
    } else if str_eq(text, "Let AI suggest natural language autosuggestions, based on recent commands and their outputs.") {
        Some("让 AI 根据最近的命令及其输出，提供自然语言自动建议。")
    } else if str_eq(text, "Let AI generate a title for your shared block based on the command and output.") {
        Some("让 AI 根据命令和输出为您的共享块生成标题。")
    } else if str_eq(text, "Let AI generate commit messages and pull request titles and descriptions.") {
        Some("让 AI 生成提交信息以及拉取请求的标题和描述。")
    } else if str_eq(text, "Set the boundaries for how your Agent operates. Choose what it can access, how much autonomy it has, and when it must ask for your approval. You can also fine-tune behavior around natural language input, codebase awareness, and more.") {
        Some("为您的智能体设定操作边界。选择它可以访问的内容、它拥有的自主程度以及何时必须征得您的批准。您还可以微调有关自然语言输入、代码库感知等方面的行为。")
    } else if str_eq(text, "Profiles let you define how your Agent operates — from the actions it can take and when it needs approval, to the models it uses for tasks like coding and planning. You can also scope them to individual projects.") {
        Some("配置允许您定义智能体的操作方式——从它可以采取的操作和何时需要批准，到它用于编码和规划等任务的模型。您还可以将它们的应用范围限制在单个项目。")
    } else if str_eq(text, "This model serves as the primary engine behind the Warp Agent. It powers most interactions and invokes other models for tasks like planning or code generation when necessary. Warp may automatically switch to alternate models based on model availability or for auxiliary tasks such as conversation summarization.") {
        Some("该模型作为 Warp 智能体背后的主要引擎。它驱动大多数交互，并在必要时调用其他模型来执行规划或代码生成等任务。Warp 可能会根据模型可用性或会话摘要等辅助任务自动切换到备选模型。")
    } else if str_eq(text, "Apply code diffs") {
        Some("应用代码差异")
    } else if str_eq(text, "Read files") {
        Some("读取文件")
    } else if str_eq(text, "Execute commands") {
        Some("执行命令")
    } else if str_eq(text, "Interact with running commands") {
        Some("与运行中的命令交互")
    } else if str_eq(text, "Call MCP servers") {
        Some("调用 MCP 服务器")
    } else if str_eq(text, "Some of your permissions are managed by your workspace.") {
        Some("您的某些权限由您的工作空间管理。")
    } else {
        None
    }
}

/// Block 6 of the settings dictionary.
pub open spec fn settings_dictionary_block_6(text: Seq<char>) -> Option<Seq<char>> {
    if text == "Allow the Warp Agent to generate an outline of your codebase that can be used for context. No code is ever stored on our servers. "@ {
        Some("允许 Warp 智能体生成代码库的大纲，以便用作上下文。我们的服务器上不会存储任何代码。"@)
    } else if text == "You haven't added any MCP servers yet. Once you do, you'll be able to control how much autonomy the Warp Agent has when interacting with them. "@ {
        Some("您尚未添加任何 MCP 服务器。添加后，您将能够控制 Warp 智能体在与其交互时的自主程度。"@)
    } else if text == "Add a server"@ {
        Some("添加服务器"@)
    } else if text == " or "@ {
        Some(" 或 "@)
    } else if text == "learn more about MCPs."@ {
        Some("了解有关 MCP 的更多信息。"@)
    } else if text == "MCP allowlist"@ {
        Some("MCP 白名单"@)
    } else if text == "Allow the Warp Agent to call these MCP servers."@ {
        Some("允许 Warp 智能体调用这些 MCP 服务器。"@)
    } else if text == "MCP denylist"@ {
        Some("MCP 黑名单"@)
    } else if text == "The Warp Agent will always ask for permission before calling any MCP servers on this list."@ {
        Some("在调用此列表中的任何 MCP 服务器之前，Warp 智能体将始终请求许可。"@)
    } else if text == "Command denylist"@ {
        Some("命令黑名单"@)
    } else if text == "Regular expressions to match commands that the Warp Agent should always ask permission to execute."@ {
        Some("匹配 Warp 智能体执行前应始终请求许可的命令的正则表达式。"@)
    } else if text == "Command allowlist"@ {
        Some("命令白名单"@)
    } else if text == "Regular expressions to match commands that can be automatically executed by the Warp Agent."@ {
        Some("匹配可由 Warp 智能体自动执行的命令的正则表达式。"@)
    } else if text == "Directory allowlist"@ {
        Some("目录白名单"@)
    } else if text == "Give the agent file access to certain directories."@ {
        Some("授予智能体对某些目录的文件访问权限。"@)
    } else if text == "Search by name or by keys (ex. \"cmd d\")"@ {
        Some("按名称或按键搜索（例如 \"cmd d\"）"@)
    } else if text == "Your credit limit is prorated because you joined midway through the billing cycle."@ {
        Some("由于您是在账单周期中途加入，额度会按比例折算。"@)
    } else if text == "This credit limit is prorated because this user joined midway through the billing cycle."@ {
        Some("由于该用户是在账单周期中途加入，额度会按比例折算。"@)
    } else if text == "Teams"@ {
        Some("团队"@)
    } else if text == "Team name"@ {
        Some("团队名称"@)
    } else if text == "Team members"@ {
        Some("团队成员"@)
    } else if text == "Team Members"@ {
        Some("团队成员"@)
    } else if text == "Invite by Link"@ {
        Some("通过链接邀请"@)
    } else if text == "Invite by Email"@ {
        Some("通过邮箱邀请"@)
    } else if text == "Restrict by domain"@ {
        Some("按域名限制"@)
    } else if text == "Make team discoverable"@ {
        Some("允许发现团队"@)
    } else if text == "Create a team"@ {
        Some("创建团队"@)
    } else if text == "Or, join an existing team within your company"@ {
        Some("或者，加入您公司内现有的团队"@)
    } else if text == "Leave team"@ {
        Some("离开团队"@)
    } else if text == "Leave Team"@ {
        Some("离开团队"@)
    } else if text == "Delete team"@ {
        Some("删除团队"@)
    } else if text == "Delete Team"@ {
        Some("删除团队"@)
    } else if text == "Create"@ {
        Some("创建"@)
    } else if text == "Create Team"@ {
        Some("创建团队"@)
    } else if text == "Transfer team ownership?"@ {
        Some("转让团队所有权？"@)
    } else if text == "Cancel invite"@ {
        Some("取消邀请"@)
    } else if text == "Transfer ownership"@ {
        Some("转让所有权"@)
    } else if text == "Transfer"@ {
        Some("转让"@)
    } else if text == "Demote from admin"@ {
        Some("取消管理员身份"@)
    } else if text == "Promote to admin"@ {
        Some("提升为管理员"@)
    } else if text == "Remove from team"@ {
        Some("从团队移除"@)
    } else if text == "Remove domain"@ {
        Some("移除域名"@)
    } else if text == "Reset links"@ {
        Some("重置链接"@)
    } else if text == "PAST DUE"@ {
        Some("逾期"@)
    } else if text == "UNPAID"@ {
        Some("未付款"@)
    } else if text == "EXPIRED"@ {
        Some("已过期"@)
    } else if text == "PENDING"@ {
        Some("待处理"@)
    } else if text == "OWNER"@ {
        Some("所有者"@)
    } else if text == "ADMIN"@ {
        Some("管理员"@)
    } else if text == "Manage plan"@ {
        Some("管理方案"@)
    } else {
        None
    }
}

/// Looks a string up in block 6 of the settings dictionary.
pub fn settings_dictionary_lookup_6(text: &str) -> (res: Option<&'static str>)
    ensures
        opt_str_view(res) == settings_dictionary_block_6(text@),
{
    if str_eq(text, "Allow the Warp Agent to generate an outline of your codebase that can be used for context. No code is ever stored on our servers. ") {
        Some("允许 Warp 智能体生成代码库的大纲，以便用作上下文。我们的服务器上不会存储任何代码。")
    } else if str_eq(text, "You haven't added any MCP servers yet. Once you do, you'll be able to control how much autonomy the Warp Agent has when interacting with them. ") {
        Some("您尚未添加任何 MCP 服务器。添加后，您将能够控制 Warp 智能体在与其交互时的自主程度。")
    } else if str_eq(text, "Add a server") {
        Some("添加服务器")
    } else if str_eq(text, " or ") {
        Some(" 或 ")
    } else if str_eq(text, "learn more about MCPs.") {
        Some("了解有关 MCP 的更多信息。")
    } else if str_eq(text, "MCP allowlist") {
        Some("MCP 白名单")
    } else if str_eq(text, "Allow the Warp Agent to call these MCP servers.") {
        Some("允许 Warp 智能体调用这些 MCP 服务器。")
    } else if str_eq(text, "MCP denylist") {
        Some("MCP 黑名单")
    } else if str_eq(text, "The Warp Agent will always ask for permission before calling any MCP servers on this list.") {
        Some("在调用此列表中的任何 MCP 服务器之前，Warp 智能体将始终请求许可。")
    } else if str_eq(text, "Command denylist") {
        Some("命令黑名单")
    } else if str_eq(text, "Regular expressions to match commands that the Warp Agent should always ask permission to execute.") {
        Some("匹配 Warp 智能体执行前应始终请求许可的命令的正则表达式。")
    } else if str_eq(text, "Command allowlist") {
        Some("命令白名单")
    } else if str_eq(text, "Regular expressions to match commands that can be automatically executed by the Warp Agent.") {
        Some("匹配可由 Warp 智能体自动执行的命令的正则表达式。")
    } else if str_eq(text, "Directory allowlist") {
        Some("目录白名单")
    } else if str_eq(text, "Give the agent file access to certain directories.") {
        Some("授予智能体对某些目录的文件访问权限。")
    } else if str_eq(text, "Search by name or by keys (ex. \"cmd d\")") {
        Some("按名称或按键搜索（例如 \"cmd d\"）")
    } else if str_eq(text, "Your credit limit is prorated because you joined midway through the billing cycle.") {
        Some("由于您是在账单周期中途加入，额度会按比例折算。")
    } else if str_eq(text, "This credit limit is prorated because this user joined midway through the billing cycle.") {
        Some("由于该用户是在账单周期中途加入，额度会按比例折算。")
    } else if str_eq(text, "Teams") {
        Some("团队")
    } else if str_eq(text, "Team name") {
        Some("团队名称")
    } else if str_eq(text, "Team members") {
        Some("团队成员")
    } else if str_eq(text, "Team Members") {
        Some("团队成员")
    } else if str_eq(text, "Invite by Link") {
        Some("通过链接邀请")
    } else if str_eq(text, "Invite by Email") {
        Some("通过邮箱邀请")
    } else if str_eq(text, "Restrict by domain") {
        Some("按域名限制")
    } else if str_eq(text, "Make team discoverable") {
        Some("允许发现团队")
    } else if str_eq(text, "Create a team") {
        Some("创建团队")
    } else if str_eq(text, "Or, join an existing team within your company") {
        Some("或者，加入您公司内现有的团队")
    } else if str_eq(text, "Leave team") {
        Some("离开团队")
    } else if str_eq(text, "Leave Team") {
        Some("离开团队")
    } else if str_eq(text, "Delete team") {
        Some("删除团队")
    } else if str_eq(text, "Delete Team") {
        Some("删除团队")
    } else if str_eq(text, "Create") {
        Some("创建")
    } else if str_eq(text, "Create Team") {
        Some("创建团队")
    } else if str_eq(text, "Transfer team ownership?") {
        Some("转让团队所有权？")
    } else if str_eq(text, "Cancel invite") {
        Some("取消邀请")
    } else if str_eq(text, "Transfer ownership") {
        Some("转让所有权")
    } else if str_eq(text, "Transfer") {
        Some("转让")
    } else if str_eq(text, "Demote from admin") {
        Some("取消管理员身份")
    } else if str_eq(text, "Promote to admin") {
        Some("提升为管理员")
    } else if str_eq(text, "Remove from team") {
        Some("从团队移除")
    } else if str_eq(text, "Remove domain") {
        Some("移除域名")
    } else if str_eq(text, "Reset links") {
        Some("重置链接")
    } else if str_eq(text, "PAST DUE") {
        Some("逾期")
    } else if str_eq(text, "UNPAID") {
        Some("未付款")
    } else if str_eq(text, "EXPIRED") {
        Some("已过期")
    } else if str_eq(text, "PENDING") {
        Some("待处理")
    } else if str_eq(text, "OWNER") {
        Some("所有者")
    } else if str_eq(text, "ADMIN") {
        Some("管理员")
    } else if str_eq(text, "Manage plan") {
        Some("管理方案")
    } else {
        None
    }
}

/// Block 7 of the settings dictionary.
pub open spec fn settings_dictionary_block_7(text: Seq<char>) -> Option<Seq<char>> {
    if text == "Open admin panel"@ {
        Some("打开管理面板"@)
    } else if text == "Upgrade to Build"@ {
        Some("升级到 Build"@)
    } else if text == "Upgrade to Turbo plan"@ {
        Some("升级到 Turbo 方案"@)
    } else if text == "Upgrade to Lightspeed plan"@ {
        Some("升级到 Lightspeed 方案"@)
    } else if text == "Free plan usage limits"@ {
        Some("免费方案用量限制"@)
    } else if text == "Plan usage limits"@ {
        Some("方案用量限制"@)
    } else if text == "Shared Notebooks"@ {
        Some("共享笔记本"@)
    } else if text == "Shared Workflows"@ {
        Some("共享工作流"@)
    } else if text == "Join"@ {
        Some("加入"@)
    } else if text == "1 teammate"@ {
        Some("1 位队友"@)
    } else if text == "Domains, comma separated"@ {
        Some("域名，用逗号分隔"@)
    } else if text == "Emails, comma separated"@ {
        Some("邮箱地址，用逗号分隔"@)
    } else if text == "Set"@ {
        Some("设置"@)
    } else if text == "Invite"@ {
        Some("邀请"@)
    } else if text == "Your new team name"@ {
        Some("您的新团队名称"@)
    } else if text == "Contact Admin to request access"@ {
        Some("联系管理员申请访问权限"@)
    } else if text == "You appear to be offline."@ {
        Some("您似乎处于离线状态。"@)
    } else if text == "Failed to load invite link."@ {
        Some("无法加载邀请链接。"@)
    } else if text == "Join this team and start collaborating on workflows, notebooks, and more."@ {
        Some("加入此团队，开始协作处理工作流、笔记本等内容。"@)
    } else if text == "Allow Warp users with the same email domain as you to find and join the team."@ {
        Some("允许与您使用相同邮箱域名的 Warp 用户发现并加入此团队。"@)
    } else if text == "Copy link"@ {
        Some("复制链接"@)
    } else if text == "Unshare"@ {
        Some("取消共享"@)
    } else if text == "Send"@ {
        Some("发送"@)
    } else if text == "Sending"@ {
        Some("正在发送"@)
    } else if text == "Loading"@ {
        Some("正在加载"@)
    } else if text == "Link copied"@ {
        Some("链接已复制"@)
    } else if text == "This shortcut conflicts with other keybinds"@ {
        Some("此快捷键与其他键绑定冲突"@)
    } else if text == "Keyboard shortcuts are not synced to the cloud"@ {
        Some("键盘快捷键不会同步到云端"@)
    } else if text == "Subshells"@ {
        Some("子 Shell"@)
    } else if text == "SSH"@ {
        Some("SSH"@)
    } else if text == "Third party CLI agents"@ {
        Some("第三方 CLI 智能体"@)
    } else if text == "Commands that enable the toolbar"@ {
        Some("启用工具栏的命令"@)
    } else if text == " to get more AI usage."@ {
        Some(" 以获得更多 AI 用量。"@)
    } else if text == " for more AI usage."@ {
        Some(" 以获得更多 AI 用量。"@)
    } else if text == " to use your own API keys."@ {
        Some(" 以使用您自己的 API 密钥。"@)
    } else if text == "Encountered an incorrect detection? "@ {
        Some("检测结果不正确？"@)
    } else if text == "Show coding agent toolbar"@ {
        Some("显示编码智能体工具栏"@)
    } else if text == "Show a toolbar with quick actions when running coding agents like "@ {
        Some("运行 "@)
    } else if text == ", "@ {
        Some("、"@)
    } else if text == ", or "@ {
        Some(" 或 "@)
    } else if text == "."@ {
        Some(" 等编码智能体时，显示带快捷操作的工具栏。"@)
    } else if text == "Auto show/hide Rich Input based on agent status"@ {
        Some("根据智能体状态自动显示/隐藏富输入"@)
    } else if text == "Requires the Warp plugin for your coding agent"@ {
        Some("需要为您的编码智能体安装 Warp 插件"@)
    } else if text == "Auto open Rich Input when a coding agent session starts"@ {
        Some("编码智能体会话开始时自动打开富输入"@)
    } else if text == "Auto dismiss Rich Input after prompt submission"@ {
        Some("提交提示词后自动关闭富输入"@)
    } else if text == "Characters considered part of a word"@ {
        Some("单词界定字符"@)
    } else if text == "New window"@ {
        Some("新窗口"@)
    } else if text == "New tab"@ {
        Some("新标签页"@)
    } else if text == "Split pane"@ {
        Some("分屏"@)
    } else if text == "Unshare block"@ {
        Some("取消共享块"@)
    } else {
        None
    }
}

/// Looks a string up in block 7 of the settings dictionary.
pub fn settings_dictionary_lookup_7(text: &str) -> (res: Option<&'static str>)
    ensures
        opt_str_view(res) == settings_dictionary_block_7(text@),
{
    if str_eq(text, "Open admin panel") {
        Some("打开管理面板")
    } else if str_eq(text, "Upgrade to Build") {
        Some("升级到 Build")
    } else if str_eq(text, "Upgrade to Turbo plan") {
        Some("升级到 Turbo 方案")
    } else if str_eq(text, "Upgrade to Lightspeed plan") {
        Some("升级到 Lightspeed 方案")
    } else if str_eq(text, "Free plan usage limits") {
        Some("免费方案用量限制")
    } else if str_eq(text, "Plan usage limits") {
        Some("方案用量限制")
    } else if str_eq(text, "Shared Notebooks") {
        Some("共享笔记本")
    } else if str_eq(text, "Shared Workflows") {
        Some("共享工作流")
    } else if str_eq(text, "Join") {
        Some("加入")
    } else if str_eq(text, "1 teammate") {
        Some("1 位队友")
    } else if str_eq(text, "Domains, comma separated") {
        Some("域名，用逗号分隔")
    } else if str_eq(text, "Emails, comma separated") {
        Some("邮箱地址，用逗号分隔")
    } else if str_eq(text, "Set") {
        Some("设置")
    } else if str_eq(text, "Invite") {
        Some("邀请")
    } else if str_eq(text, "Your new team name") {
        Some("您的新团队名称")
    } else if str_eq(text, "Contact Admin to request access") {
        Some("联系管理员申请访问权限")
    } else if str_eq(text, "You appear to be offline.") {
        Some("您似乎处于离线状态。")
    } else if str_eq(text, "Failed to load invite link.") {
        Some("无法加载邀请链接。")
    } else if str_eq(text, "Join this team and start collaborating on workflows, notebooks, and more.") {
        Some("加入此团队，开始协作处理工作流、笔记本等内容。")
    } else if str_eq(text, "Allow Warp users with the same email domain as you to find and join the team.") {
        Some("允许与您使用相同邮箱域名的 Warp 用户发现并加入此团队。")
    } else if str_eq(text, "Copy link") {
        Some("复制链接")
    } else if str_eq(text, "Unshare") {
        Some("取消共享")
    } else if str_eq(text, "Send") {
        Some("发送")
    } else if str_eq(text, "Sending") {
        Some("正在发送")
    } else if str_eq(text, "Loading") {
        Some("正在加载")
    } else if str_eq(text, "Link copied") {
        Some("链接已复制")
    } else if str_eq(text, "This shortcut conflicts with other keybinds") {
        Some("此快捷键与其他键绑定冲突")
    } else if str_eq(text, "Keyboard shortcuts are not synced to the cloud") {
        Some("键盘快捷键不会同步到云端")
    } else if str_eq(text, "Subshells") {
        Some("子 Shell")
    } else if str_eq(text, "SSH") {
        Some("SSH")
    } else if str_eq(text, "Third party CLI agents") {
        Some("第三方 CLI 智能体")
    } else if str_eq(text, "Commands that enable the toolbar") {
        Some("启用工具栏的命令")
    } else if str_eq(text, " to get more AI usage.") {
        Some(" 以获得更多 AI 用量。")
    } else if str_eq(text, " for more AI usage.") {
        Some(" 以获得更多 AI 用量。")
    } else if str_eq(text, " to use your own API keys.") {
        Some(" 以使用您自己的 API 密钥。")
    } else if str_eq(text, "Encountered an incorrect detection? ") {
        Some("检测结果不正确？")
    } else if str_eq(text, "Show coding agent toolbar") {
        Some("显示编码智能体工具栏")
    } else if str_eq(text, "Show a toolbar with quick actions when running coding agents like ") {
        Some("运行 ")
    } else if str_eq(text, ", ") {
        Some("、")
    } else if str_eq(text, ", or ") {
        Some(" 或 ")
    } else if str_eq(text, ".") {
        Some(" 等编码智能体时，显示带快捷操作的工具栏。")
    } else if str_eq(text, "Auto show/hide Rich Input based on agent status") {
        Some("根据智能体状态自动显示/隐藏富输入")
    } else if str_eq(text, "Requires the Warp plugin for your coding agent") {
        Some("需要为您的编码智能体安装 Warp 插件")
    } else if str_eq(text, "Auto open Rich Input when a coding agent session starts") {
        Some("编码智能体会话开始时自动打开富输入")
    } else if str_eq(text, "Auto dismiss Rich Input after prompt submission") {
        Some("提交提示词后自动关闭富输入")
    } else if str_eq(text, "Characters considered part of a word") {
        Some("单词界定字符")
    } else if str_eq(text, "New window") {
        Some("新窗口")
    } else if str_eq(text, "New tab") {
        Some("新标签页")
    } else if str_eq(text, "Split pane") {
        Some("分屏")
    } else if str_eq(text, "Unshare block") {
        Some("取消共享块")
    } else {
        None
    }
}

/// Block 8 of the settings dictionary.
pub open spec fn settings_dictionary_block_8(text: Seq<char>) -> Option<Seq<char>> {
    if text == "Available chips"@ {
        Some("可用标签"@)
    } else if text == "Restore default"@ {
        Some("恢复默认"@)
    } else if text == "Left side"@ {
        Some("左侧"@)
    } else if text == "Right side"@ {
        Some("右侧"@)
    } else if text == "Save changes"@ {
        Some("保存更改"@)
    } else if text == "Context Chip"@ {
        Some("上下文标签"@)
    } else if text == "Model Selector"@ {
        Some("模型选择器"@)
    } else if text == "Autodetection"@ {
        Some("自动检测"@)
    } else if text == "Voice Input"@ {
        Some("语音输入"@)
    } else if text == "Attach File"@ {
        Some("附加文件"@)
    } else if text == "Context Usage"@ {
        Some("上下文用量"@)
    } else if text == "File Explorer"@ {
        Some("文件浏览器"@)
    } else if text == "Rich Input"@ {
        Some("富输入"@)
    } else if text == "Settings"@ {
        Some("设置"@)
    } else if text == "Fast Forward"@ {
        Some("快速前进"@)
    } else if text == "Hand off to cloud"@ {
        Some("移交到云端"@)
    } else if text == "Your organization disallows AI when the active pane contains content from a remote session"@ {
        Some("当活动面板包含远程会话内容时，您的组织不允许使用 AI"@)
    } else if text == "aws login"@ {
        Some("aws login"@)
    } else if text == "default"@ {
        Some("default"@)
    } else if text == "command (supports regex)"@ {
        Some("命令（支持正则表达式）"@)
    } else if text == "host (supports regex)"@ {
        Some("主机（支持正则表达式）"@)
    } else if text == "Open Settings File"@ {
        Some("打开设置文件"@)
    } else if text == "Open settings file"@ {
        Some("打开设置文件"@)
    } else if text == "Copy Link"@ {
        Some("复制链接"@)
    } else if text == "Deleting"@ {
        Some("正在删除"@)
    } else if text == "Deleting..."@ {
        Some("正在删除..."@)
    } else if text == "Getting blocks..."@ {
        Some("正在获取共享块..."@)
    } else if text == "Failed to load blocks. Please try again."@ {
        Some("加载共享块失败。请重试。"@)
    } else if text == "You don't have any shared blocks yet."@ {
        Some("您还没有任何共享块。"@)
    } else if text == "Warp Drive is a workspace in your terminal where you can save Workflows, Notebooks, Prompts, and Environment Variables for personal use or to share with a team."@ {
        Some("Warp Drive 是终端中的工作空间，可保存工作流、笔记本、提示词和环境变量，供个人使用或与团队共享。"@)
    } else if text == "e.g. cd my-repo && pip install -r requirements.txt"@ {
        Some("例如 cd my-repo && pip install -r requirements.txt"@)
    } else if text == "Share with team"@ {
        Some("与团队共享"@)
    } else if text == "Add MCP servers to extend the Warp Agent's capabilities. MCP servers expose data sources or tools to agents through a standardized interface, essentially acting like plugins. Add a custom server, or use the presets to get started with popular servers. You can also find team servers that have been shared with you here. "@ {
        Some("添加 MCP 服务器以扩展 Warp 智能体的功能。MCP 服务器通过标准化接口向智能体公开数据源或工具，本质上充当插件。您可以添加自定义服务器，或使用预设快速上手热门服务器。您还可以在此找到团队共享给您的服务器。"@)
    } else if text == "Once you add a MCP server, it will be shown here."@ {
        Some("添加 MCP 服务器后，将在此处显示。"@)
    } else if text == "No search results found"@ {
        Some("未找到搜索结果"@)
    } else if text == "Add"@ {
        Some("添加"@)
    } else if text == "Available to install"@ {
        Some("可安装"@)
    } else if text == "Auto-spawn servers from third-party agents"@ {
        Some("自动启动第三方智能体的服务器"@)
    } else if text == "Automatically detect and spawn MCP servers from globally-scoped third-party AI agent configuration files (e.g. in your home directory). Servers detected inside a repository are never spawned automatically and must be enabled individually in the \"Detected from\" sections below. "@ {
        Some("自动检测并启动来自全局第三方 AI 智能体配置文件（例如主目录中）的 MCP 服务器。在仓库中检测到的服务器不会自动启动，必须在下方的\u{201c}检测来源\u{201d}部分中单独启用。"@)
    } else if text == "See supported providers."@ {
        Some("查看支持的提供商。"@)
    } else if text == "Learn more."@ {
        Some("了解更多。"@)
    } else if text == "My MCPs"@ {
        Some("我的 MCP"@)
    } else if text == "Shared from Warp"@ {
        Some("从 Warp 共享"@)
    } else if text == "Shared by Warp and"@ {
        Some("由 Warp 和"@)
    } else if text == "Shared by Warp and from other devices"@ {
        Some("由 Warp 共享及来自其他设备"@)
    } else if text == "Detected from"@ {
        Some("检测来源"@)
    } else if text == "global"@ {
        Some("全局"@)
    } else if text == "Detected from config file"@ {
        Some("从配置文件检测"@)
    } else if text == "Shared by a team member"@ {
        Some("由团队成员共享"@)
    } else if text == "From another device"@ {
        Some("来自其他设备"@)
    } else {
        None
    }
}

/// Looks a string up in block 8 of the settings dictionary.
pub fn settings_dictionary_lookup_8(text: &str) -> (res: Option<&'static str>)
    ensures
        opt_str_view(res) == settings_dictionary_block_8(text@),
{
    if str_eq(text, "Available chips") {
        Some("可用标签")
    } else if str_eq(text, "Restore default") {
        Some("恢复默认")
    } else if str_eq(text, "Left side") {
        Some("左侧")
    } else if str_eq(text, "Right side") {
        Some("右侧")
    } else if str_eq(text, "Save changes") {
        Some("保存更改")
    } else if str_eq(text, "Context Chip") {
        Some("上下文标签")
    } else if str_eq(text, "Model Selector") {
        Some("模型选择器")
    } else if str_eq(text, "Autodetection") {
        Some("自动检测")
    } else if str_eq(text, "Voice Input") {
        Some("语音输入")
    } else if str_eq(text, "Attach File") {
        Some("附加文件")
    } else if str_eq(text, "Context Usage") {
        Some("上下文用量")
    } else if str_eq(text, "File Explorer") {
        Some("文件浏览器")
    } else if str_eq(text, "Rich Input") {
        Some("富输入")
    } else if str_eq(text, "Settings") {
        Some("设置")
    } else if str_eq(text, "Fast Forward") {
        Some("快速前进")
    } else if str_eq(text, "Hand off to cloud") {
        Some("移交到云端")
    } else if str_eq(text, "Your organization disallows AI when the active pane contains content from a remote session") {
        Some("当活动面板包含远程会话内容时，您的组织不允许使用 AI")
    } else if str_eq(text, "aws login") {
        Some("aws login")
    } else if str_eq(text, "default") {
        Some("default")
    } else if str_eq(text, "command (supports regex)") {
        Some("命令（支持正则表达式）")
    } else if str_eq(text, "host (supports regex)") {
        Some("主机（支持正则表达式）")
    } else if str_eq(text, "Open Settings File") {
        Some("打开设置文件")
    } else if str_eq(text, "Open settings file") {
        Some("打开设置文件")
    } else if str_eq(text, "Copy Link") {
        Some("复制链接")
    } else if str_eq(text, "Deleting") {
        Some("正在删除")
    } else if str_eq(text, "Deleting...") {
        Some("正在删除...")
    } else if str_eq(text, "Getting blocks...") {
        Some("正在获取共享块...")
    } else if str_eq(text, "Failed to load blocks. Please try again.") {
        Some("加载共享块失败。请重试。")
    } else if str_eq(text, "You don't have any shared blocks yet.") {
        Some("您还没有任何共享块。")
    } else if str_eq(text, "Warp Drive is a workspace in your terminal where you can save Workflows, Notebooks, Prompts, and Environment Variables for personal use or to share with a team.") {
        Some("Warp Drive 是终端中的工作空间，可保存工作流、笔记本、提示词和环境变量，供个人使用或与团队共享。")
    } else if str_eq(text, "e.g. cd my-repo && pip install -r requirements.txt") {
        Some("例如 cd my-repo && pip install -r requirements.txt")
    } else if str_eq(text, "Share with team") {
        Some("与团队共享")
    } else if str_eq(text, "Add MCP servers to extend the Warp Agent's capabilities. MCP servers expose data sources or tools to agents through a standardized interface, essentially acting like plugins. Add a custom server, or use the presets to get started with popular servers. You can also find team servers that have been shared with you here. ") {
        Some("添加 MCP 服务器以扩展 Warp 智能体的功能。MCP 服务器通过标准化接口向智能体公开数据源或工具，本质上充当插件。您可以添加自定义服务器，或使用预设快速上手热门服务器。您还可以在此找到团队共享给您的服务器。")
    } else if str_eq(text, "Once you add a MCP server, it will be shown here.") {
        Some("添加 MCP 服务器后，将在此处显示。")
    } else if str_eq(text, "No search results found") {
        Some("未找到搜索结果")
    } else if str_eq(text, "Add") {
        Some("添加")
    } else if str_eq(text, "Available to install") {
        Some("可安装")
    } else if str_eq(text, "Auto-spawn servers from third-party agents") {
        Some("自动启动第三方智能体的服务器")
    } else if str_eq(text, "Automatically detect and spawn MCP servers from globally-scoped third-party AI agent configuration files (e.g. in your home directory). Servers detected inside a repository are never spawned automatically and must be enabled individually in the \"Detected from\" sections below. ") {
        Some("自动检测并启动来自全局第三方 AI 智能体配置文件（例如主目录中）的 MCP 服务器。在仓库中检测到的服务器不会自动启动，必须在下方的\u{201c}检测来源\u{201d}部分中单独启用。")
    } else if str_eq(text, "See supported providers.") {
        Some("查看支持的提供商。")
    } else if str_eq(text, "Learn more.") {
        Some("了解更多。")
    } else if str_eq(text, "My MCPs") {
        Some("我的 MCP")
    } else if str_eq(text, "Shared from Warp") {
        Some("从 Warp 共享")
    } else if str_eq(text, "Shared by Warp and") {
        Some("由 Warp 和")
    } else if str_eq(text, "Shared by Warp and from other devices") {
        Some("由 Warp 共享及来自其他设备")
    } else if str_eq(text, "Detected from") {
        Some("检测来源")
    } else if str_eq(text, "global") {
        Some("全局")
    } else if str_eq(text, "Detected from config file") {
        Some("从配置文件检测")
    } else if str_eq(text, "Shared by a team member") {
        Some("由团队成员共享")
    } else if str_eq(text, "From another device") {
        Some("来自其他设备")
    } else {
        None
    }
}

/// Block 9 of the settings dictionary.
pub open spec fn settings_dictionary_block_9(text: Seq<char>) -> Option<Seq<char>> {
    if text == "Shared by"@ {
        Some("共享者"@)
    } else if text == "MCP server updated"@ {
        Some("MCP 服务器已更新"@)
    } else if text == "Edit Variables"@ {
        Some("编辑变量"@)
    } else if text == "Delete MCP"@ {
        Some("删除 MCP"@)
    } else if text == "Only team admins and the creator of the MCP server can edit the MCP server."@ {
        Some("只有团队管理员和 MCP 服务器的创建者才能编辑该服务器。"@)
    } else if text == "Add New MCP Server"@ {
        Some("添加新 MCP 服务器"@)
    } else if text == "Edit MCP Server"@ {
        Some("编辑 MCP 服务器"@)
    } else if text == "JSON"@ {
        Some("JSON"@)
    } else if text == "This MCP server contains secrets. Visit Settings > Privacy to modify your secret redaction settings."@ {
        Some("此 MCP 服务器包含密钥。请前往设置 > 隐私 修改密钥脱敏设置。"@)
    } else if text == "No MCP Server specified."@ {
        Some("未指定 MCP 服务器。"@)
    } else if text == "Cannot add multiple MCP servers while editing a single server."@ {
        Some("编辑单个服务器时不能添加多个 MCP 服务器。"@)
    } else if text == "Delete MCP server?"@ {
        Some("删除 MCP 服务器？"@)
    } else if text == "This will uninstall and remove this MCP server from all your devices."@ {
        Some("这将从您所有设备上卸载并移除此 MCP 服务器。"@)
    } else if text == "Delete shared MCP server?"@ {
        Some("删除共享 MCP 服务器？"@)
    } else if text == "This will not only delete this MCP server for yourself, but also uninstall and remove this MCP server from Warp and across all of your teammates' devices."@ {
        Some("这不仅会为您删除此 MCP 服务器，还会从 Warp 及所有队友的设备上卸载并移除此服务器。"@)
    } else if text == "Remove shared MCP server from team?"@ {
        Some("从团队中移除共享 MCP 服务器？"@)
    } else if text == "This will uninstall and remove this MCP server from Warp and across all of your teammates' devices."@ {
        Some("这将从 Warp 及所有队友的设备上卸载并移除此 MCP 服务器。"@)
    } else if text == "Offline"@ {
        Some("离线"@)
    } else if text == "Starting server..."@ {
        Some("正在启动服务器..."@)
    } else if text == "Authenticating..."@ {
        Some("正在认证..."@)
    } else if text == "Shutting down..."@ {
        Some("正在关闭..."@)
    } else if text == "No tools available"@ {
        Some("没有可用工具"@)
    } else if text == "Show logs"@ {
        Some("显示日志"@)
    } else if text == "Share server"@ {
        Some("共享服务器"@)
    } else if text == "Edit"@ {
        Some("编辑"@)
    } else if text == "Server update available"@ {
        Some("服务器有可用更新"@)
    } else if text == "Server"@ {
        Some("服务器"@)
    } else if text == "No updates available"@ {
        Some("没有可用更新"@)
    } else if text == "another device"@ {
        Some("其他设备"@)
    } else if text == "a team member"@ {
        Some("团队成员"@)
    } else if text == "This server has"@ {
        Some("此服务器有"@)
    } else if text == "updates available, which would you like to proceed with?"@ {
        Some("个更新可用，您想继续哪个？"@)
    } else if text == "Shared from team"@ {
        Some("从团队共享"@)
    } else if text == "Install"@ {
        Some("安装"@)
    } else if text == "No MCP server selected"@ {
        Some("未选择 MCP 服务器"@)
    } else if text == "Auto"@ {
        Some("自动"@)
    } else if text == "Base model:"@ {
        Some("基础模型："@)
    } else if text == "Full terminal use:"@ {
        Some("完整终端使用："@)
    } else if text == "Computer use:"@ {
        Some("计算机使用："@)
    } else if text == "Apply code diffs:"@ {
        Some("应用代码差异："@)
    } else if text == "Read files:"@ {
        Some("读取文件："@)
    } else if text == "Execute commands:"@ {
        Some("执行命令："@)
    } else if text == "Interact with running commands:"@ {
        Some("与运行中的命令交互："@)
    } else if text == "Ask questions:"@ {
        Some("提问："@)
    } else if text == "Call MCP servers:"@ {
        Some("调用 MCP 服务器："@)
    } else if text == "Call web tools:"@ {
        Some("调用 Web 工具："@)
    } else if text == "Auto-sync plans to Warp Drive:"@ {
        Some("自动同步计划到 Warp Drive："@)
    } else if text == "Unknown"@ {
        Some("未知"@)
    } else if text == "Directory allowlist:"@ {
        Some("目录白名单："@)
    } else if text == "Command allowlist:"@ {
        Some("命令白名单："@)
    } else {
        None
    }
}

/// Looks a string up in block 9 of the settings dictionary.
pub fn settings_dictionary_lookup_9(text: &str) -> (res: Option<&'static str>)
    ensures
        opt_str_view(res) == settings_dictionary_block_9(text@),
{
    if str_eq(text, "Shared by") {
        Some("共享者")
    } else if str_eq(text, "MCP server updated") {
        Some("MCP 服务器已更新")
    } else if str_eq(text, "Edit Variables") {
        Some("编辑变量")
    } else if str_eq(text, "Delete MCP") {
        Some("删除 MCP")
    } else if str_eq(text, "Only team admins and the creator of the MCP server can edit the MCP server.") {
        Some("只有团队管理员和 MCP 服务器的创建者才能编辑该服务器。")
    } else if str_eq(text, "Add New MCP Server") {
        Some("添加新 MCP 服务器")
    } else if str_eq(text, "Edit MCP Server") {
        Some("编辑 MCP 服务器")
    } else if str_eq(text, "JSON") {
        Some("JSON")
    } else if str_eq(text, "This MCP server contains secrets. Visit Settings > Privacy to modify your secret redaction settings.") {
        Some("此 MCP 服务器包含密钥。请前往设置 > 隐私 修改密钥脱敏设置。")
    } else if str_eq(text, "No MCP Server specified.") {
        Some("未指定 MCP 服务器。")
    } else if str_eq(text, "Cannot add multiple MCP servers while editing a single server.") {
        Some("编辑单个服务器时不能添加多个 MCP 服务器。")
    } else if str_eq(text, "Delete MCP server?") {
        Some("删除 MCP 服务器？")
    } else if str_eq(text, "This will uninstall and remove this MCP server from all your devices.") {
        Some("这将从您所有设备上卸载并移除此 MCP 服务器。")
    } else if str_eq(text, "Delete shared MCP server?") {
        Some("删除共享 MCP 服务器？")
    } else if str_eq(text, "This will not only delete this MCP server for yourself, but also uninstall and remove this MCP server from Warp and across all of your teammates' devices.") {
        Some("这不仅会为您删除此 MCP 服务器，还会从 Warp 及所有队友的设备上卸载并移除此服务器。")
    } else if str_eq(text, "Remove shared MCP server from team?") {
        Some("从团队中移除共享 MCP 服务器？")
    } else if str_eq(text, "This will uninstall and remove this MCP server from Warp and across all of your teammates' devices.") {
        Some("这将从 Warp 及所有队友的设备上卸载并移除此 MCP 服务器。")
    } else if str_eq(text, "Offline") {
        Some("离线")
    } else if str_eq(text, "Starting server...") {
        Some("正在启动服务器...")
    } else if str_eq(text, "Authenticating...") {
        Some("正在认证...")
    } else if str_eq(text, "Shutting down...") {
        Some("正在关闭...")
    } else if str_eq(text, "No tools available") {
        Some("没有可用工具")
    } else if str_eq(text, "Show logs") {
        Some("显示日志")
    } else if str_eq(text, "Share server") {
        Some("共享服务器")
    } else if str_eq(text, "Edit") {
        Some("编辑")
    } else if str_eq(text, "Server update available") {
        Some("服务器有可用更新")
    } else if str_eq(text, "Server") {
        Some("服务器")
    } else if str_eq(text, "No updates available") {
        Some("没有可用更新")
    } else if str_eq(text, "another device") {
        Some("其他设备")
    } else if str_eq(text, "a team member") {
        Some("团队成员")
    } else if str_eq(text, "This server has") {
        Some("此服务器有")
    } else if str_eq(text, "updates available, which would you like to proceed with?") {
        Some("个更新可用，您想继续哪个？")
    } else if str_eq(text, "Shared from team") {
        Some("从团队共享")
    } else if str_eq(text, "Install") {
        Some("安装")
    } else if str_eq(text, "No MCP server selected") {
        Some("未选择 MCP 服务器")
    } else if str_eq(text, "Auto") {
        Some("自动")
    } else if str_eq(text, "Base model:") {
        Some("基础模型：")
    } else if str_eq(text, "Full terminal use:") {
        Some("完整终端使用：")
    } else if str_eq(text, "Computer use:") {
        Some("计算机使用：")
    } else if str_eq(text, "Apply code diffs:") {
        Some("应用代码差异：")
    } else if str_eq(text, "Read files:") {
        Some("读取文件：")
    } else if str_eq(text, "Execute commands:") {
        Some("执行命令：")
    } else if str_eq(text, "Interact with running commands:") {
        Some("与运行中的命令交互：")
    } else if str_eq(text, "Ask questions:") {
        Some("提问：")
    } else if str_eq(text, "Call MCP servers:") {
        Some("调用 MCP 服务器：")
    } else if str_eq(text, "Call web tools:") {
        Some("调用 Web 工具：")
    } else if str_eq(text, "Auto-sync plans to Warp Drive:") {
        Some("自动同步计划到 Warp Drive：")
    } else if str_eq(text, "Unknown") {
        Some("未知")
    } else if str_eq(text, "Directory allowlist:") {
        Some("目录白名单：")
    } else if str_eq(text, "Command allowlist:") {
        Some("命令白名单：")
    } else {
        None
    }
}

/// Block 10 of the settings dictionary.
pub open spec fn settings_dictionary_block_10(text: Seq<char>) -> Option<Seq<char>> {
    if text == "Command denylist:"@ {
        Some("命令黑名单："@)
    } else if text == "MCP allowlist:"@ {
        Some("MCP 白名单："@)
    } else if text == "MCP denylist:"@ {
        Some("MCP 黑名单："@)
    } else if text == "Link"@ {
        Some("链接"@)
    } else if text == "Email"@ {
        Some("邮箱"@)
    } else if text == "Your invite is on the way!"@ {
        Some("您的邀请已发送！"@)
    } else if text == "Link copied to clipboard!"@ {
        Some("链接已复制到剪贴板！"@)
    } else if text == "Successfully joined team"@ {
        Some("已成功加入团队"@)
    } else if text == "Failed to join team"@ {
        Some("加入团队失败"@)
    } else if text == "Successfully transferred team ownership"@ {
        Some("已成功转让团队所有权"@)
    } else if text == "Failed to transfer team ownership"@ {
        Some("转让团队所有权失败"@)
    } else if text == "Successfully updated team member role"@ {
        Some("已成功更新团队成员角色"@)
    } else if text == "Failed to update team member role"@ {
        Some("更新团队成员角色失败"@)
    } else if text == "Error leaving team"@ {
        Some("离开团队时出错"@)
    } else if text == "Successfully left team"@ {
        Some("已成功离开团队"@)
    } else if text == "Successfully renamed team"@ {
        Some("已成功重命名团队"@)
    } else if text == "Failed to rename team"@ {
        Some("重命名团队失败"@)
    } else if text == "Failed to send invite"@ {
        Some("发送邀请失败"@)
    } else if text == "Toggled invite links"@ {
        Some("邀请链接已切换"@)
    } else if text == "Failed to toggle invite links"@ {
        Some("切换邀请链接失败"@)
    } else if text == "Reset invite links"@ {
        Some("邀请链接已重置"@)
    } else if text == "Failed to reset invite links"@ {
        Some("重置邀请链接失败"@)
    } else if text == "Deleted invite"@ {
        Some("邀请已删除"@)
    } else if text == "Failed to delete invite"@ {
        Some("删除邀请失败"@)
    } else if text == "Failed to add domain restriction"@ {
        Some("添加域名限制失败"@)
    } else if text == "Failed to delete domain restriction"@ {
        Some("删除域名限制失败"@)
    } else if text == "Failed to generate upgrade link. Please contact us at feedback@warp.dev"@ {
        Some("生成升级链接失败。请通过 feedback@warp.dev 联系我们"@)
    } else if text == "Failed to generate billing link. Please contact us at feedback@warp.dev"@ {
        Some("生成账单链接失败。请通过 feedback@warp.dev 联系我们"@)
    } else if text == "Toggled team discoverability"@ {
        Some("团队可发现性已切换"@)
    } else if text == "Failed to toggle team discoverability"@ {
        Some("切换团队可发现性失败"@)
    } else if text == "Invalid domains: {}"@ {
        Some("无效域名：{}"@)
    } else if text == "Domain restrictions added: {}"@ {
        Some("已添加域名限制：{}"@)
    } else if text == "Invalid emails: {}"@ {
        Some("无效邮箱：{}"@)
    } else if text == "Delete environment"@ {
        Some("删除环境"@)
    } else if text == "Are you sure you want to remove the {} environment?"@ {
        Some("您确定要删除 {} 环境吗？"@)
    } else if text == "Delete environment?"@ {
        Some("删除环境？"@)
    } else if text == "+ Add directory…"@ {
        Some("+ 添加目录…"@)
    } else if text == "Add directory color"@ {
        Some("添加目录颜色"@)
    } else if text == "Add repo"@ {
        Some("添加仓库"@)
    } else if text == "Create environment"@ {
        Some("创建环境"@)
    } else if text == "Selected repos"@ {
        Some("已选仓库"@)
    } else if text == "No repos selected yet"@ {
        Some("尚未选择仓库"@)
    } else if text == "(unknown)"@ {
        Some("（未知）"@)
    } else if text == "Available indexed repos"@ {
        Some("可用的已索引仓库"@)
    } else if text == "Loading locally indexed repos…"@ {
        Some("正在加载本地已索引仓库…"@)
    } else if text == "No locally indexed repos found yet. Index a repo, then try again."@ {
        Some("尚未找到本地已索引仓库。请先索引一个仓库，然后重试。"@)
    } else if text == "Local repo selection is unavailable in this build."@ {
        Some("此版本不支持本地仓库选择。"@)
    } else if text == "All locally indexed repos are already selected."@ {
        Some("所有本地已索引仓库均已选中。"@)
    } else if text == "Selected folder is not a Git repository"@ {
        Some("所选文件夹不是 Git 仓库"@)
    } else if text == "No directory selected"@ {
        Some("未选择目录"@)
    } else {
        None
    }
}

/// Looks a string up in block 10 of the settings dictionary.
pub fn settings_dictionary_lookup_10(text: &str) -> (res: Option<&'static str>)
    ensures
        opt_str_view(res) == settings_dictionary_block_10(text@),
{
    if str_eq(text, "Command denylist:") {
        Some("命令黑名单：")
    } else if str_eq(text, "MCP allowlist:") {
        Some("MCP 白名单：")
    } else if str_eq(text, "MCP denylist:") {
        Some("MCP 黑名单：")
    } else if str_eq(text, "Link") {
        Some("链接")
    } else if str_eq(text, "Email") {
        Some("邮箱")
    } else if str_eq(text, "Your invite is on the way!") {
        Some("您的邀请已发送！")
    } else if str_eq(text, "Link copied to clipboard!") {
        Some("链接已复制到剪贴板！")
    } else if str_eq(text, "Successfully joined team") {
        Some("已成功加入团队")
    } else if str_eq(text, "Failed to join team") {
        Some("加入团队失败")
    } else if str_eq(text, "Successfully transferred team ownership") {
        Some("已成功转让团队所有权")
    } else if str_eq(text, "Failed to transfer team ownership") {
        Some("转让团队所有权失败")
    } else if str_eq(text, "Successfully updated team member role") {
        Some("已成功更新团队成员角色")
    } else if str_eq(text, "Failed to update team member role") {
        Some("更新团队成员角色失败")
    } else if str_eq(text, "Error leaving team") {
        Some("离开团队时出错")
    } else if str_eq(text, "Successfully left team") {
        Some("已成功离开团队")
    } else if str_eq(text, "Successfully renamed team") {
        Some("已成功重命名团队")
    } else if str_eq(text, "Failed to rename team") {
        Some("重命名团队失败")
    } else if str_eq(text, "Failed to send invite") {
        Some("发送邀请失败")
    } else if str_eq(text, "Toggled invite links") {
        Some("邀请链接已切换")
    } else if str_eq(text, "Failed to toggle invite links") {
        Some("切换邀请链接失败")
    } else if str_eq(text, "Reset invite links") {
        Some("邀请链接已重置")
    } else if str_eq(text, "Failed to reset invite links") {
        Some("重置邀请链接失败")
    } else if str_eq(text, "Deleted invite") {
        Some("邀请已删除")
    } else if str_eq(text, "Failed to delete invite") {
        Some("删除邀请失败")
    } else if str_eq(text, "Failed to add domain restriction") {
        Some("添加域名限制失败")
    } else if str_eq(text, "Failed to delete domain restriction") {
        Some("删除域名限制失败")
    } else if str_eq(text, "Failed to generate upgrade link. Please contact us at feedback@warp.dev") {
        Some("生成升级链接失败。请通过 feedback@warp.dev 联系我们")
    } else if str_eq(text, "Failed to generate billing link. Please contact us at feedback@warp.dev") {
        Some("生成账单链接失败。请通过 feedback@warp.dev 联系我们")
    } else if str_eq(text, "Toggled team discoverability") {
        Some("团队可发现性已切换")
    } else if str_eq(text, "Failed to toggle team discoverability") {
        Some("切换团队可发现性失败")
    } else if str_eq(text, "Invalid domains: {}") {
        Some("无效域名：{}")
    } else if str_eq(text, "Domain restrictions added: {}") {
        Some("已添加域名限制：{}")
    } else if str_eq(text, "Invalid emails: {}") {
        Some("无效邮箱：{}")
    } else if str_eq(text, "Delete environment") {
        Some("删除环境")
    } else if str_eq(text, "Are you sure you want to remove the {} environment?") {
        Some("您确定要删除 {} 环境吗？")
    } else if str_eq(text, "Delete environment?") {
        Some("删除环境？")
    } else if str_eq(text, "+ Add directory…") {
        Some("+ 添加目录…")
    } else if str_eq(text, "Add directory color") {
        Some("添加目录颜色")
    } else if str_eq(text, "Add repo") {
        Some("添加仓库")
    } else if str_eq(text, "Create environment") {
        Some("创建环境")
    } else if str_eq(text, "Selected repos") {
        Some("已选仓库")
    } else if str_eq(text, "No repos selected yet") {
        Some("尚未选择仓库")
    } else if str_eq(text, "(unknown)") {
        Some("（未知）")
    } else if str_eq(text, "Available indexed repos") {
        Some("可用的已索引仓库")
    } else if str_eq(text, "Loading locally indexed repos…") {
        Some("正在加载本地已索引仓库…")
    } else if str_eq(text, "No locally indexed repos found yet. Index a repo, then try again.") {
        Some("尚未找到本地已索引仓库。请先索引一个仓库，然后重试。")
    } else if str_eq(text, "Local repo selection is unavailable in this build.") {
        Some("此版本不支持本地仓库选择。")
    } else if str_eq(text, "All locally indexed repos are already selected.") {
        Some("所有本地已索引仓库均已选中。")
    } else if str_eq(text, "Selected folder is not a Git repository") {
        Some("所选文件夹不是 Git 仓库")
    } else if str_eq(text, "No directory selected") {
        Some("未选择目录")
    } else {
        None
    }
}

/// Block 11 of the settings dictionary.
pub open spec fn settings_dictionary_block_11(text: Seq<char>) -> Option<Seq<char>> {
    if text == "Select locally indexed repos to provide context for the environment creation agent."@ {
        Some("选择本地已索引仓库，为环境创建智能体提供上下文。"@)
    } else if text == "Select repos to provide context for the environment creation agent."@ {
        Some("选择仓库，为环境创建智能体提供上下文。"@)
    } else if text == "Select repos for your environment"@ {
        Some("为您的环境选择仓库"@)
    } else if text == "Successfully logged out of"@ {
        Some("已成功退出"@)
    } else if text == "Successfully logged out of MCP server"@ {
        Some("已成功退出 MCP 服务器"@)
    } else if text == "Finish the current MCP install before opening another install link."@ {
        Some("请先完成当前的 MCP 安装，再打开其他安装链接。"@)
    } else if text == "Unknown MCP server"@ {
        Some("未知的 MCP 服务器"@)
    } else if text == "cannot be installed from this link."@ {
        Some("无法通过此链接安装。"@)
    } else if text == "MCP server"@ {
        Some("MCP 服务器"@)
    } else if text == "tools available"@ {
        Some("个工具可用"@)
    } else if text == "Update from"@ {
        Some("更新来源"@)
    } else if text == "Update"@ {
        Some("更新"@)
    } else if text == "MCP Server"@ {
        Some("MCP 服务器"@)
    } else if text == "New environment"@ {
        Some("新建环境"@)
    } else if text == "Environments"@ {
        Some("环境"@)
    } else if text == "Environments define where your ambient agents run. Set one up in minutes via GitHub (recommended), Warp-assisted setup, or manual configuration."@ {
        Some("环境定义了您的智能体运行的位置。通过 GitHub（推荐）、Warp 辅助设置或手动配置，几分钟即可完成设置。"@)
    } else if text == "Search environments..."@ {
        Some("搜索环境..."@)
    } else if text == "No environments match your search."@ {
        Some("没有匹配的环境。"@)
    } else if text == "Shared by Warp and your team"@ {
        Some("由 Warp 和您的团队共享"@)
    } else if text == "Loading..."@ {
        Some("加载中..."@)
    } else if text == "Retry"@ {
        Some("重试"@)
    } else if text == "Authorize"@ {
        Some("授权"@)
    } else if text == "Get started"@ {
        Some("开始"@)
    } else if text == "Launch agent"@ {
        Some("启动智能体"@)
    } else if text == "Quick setup"@ {
        Some("快速设置"@)
    } else if text == "Suggested"@ {
        Some("推荐"@)
    } else if text == "Select the GitHub repositories you'd like to work with and we'll suggest a base image and config"@ {
        Some("选择您想要使用的 GitHub 仓库，我们将为您推荐基础镜像和配置"@)
    } else if text == "Use the agent"@ {
        Some("使用智能体"@)
    } else if text == "Choose a locally set up project and we'll help you set up an environment based on it"@ {
        Some("选择一个本地项目，我们将帮助您基于此设置环境"@)
    } else if text == "You haven't set up any environments yet."@ {
        Some("您尚未设置任何环境。"@)
    } else if text == "Choose how you'd like to set up your environment:"@ {
        Some("选择您希望如何设置环境："@)
    } else if text == "You haven’t set up any environments yet."@ {
        Some("您尚未设置任何环境。"@)
    } else if text == "Choose how you’d like to set up your environment:"@ {
        Some("选择您希望如何设置环境："@)
    } else if text == "Enter repos (owner/repo format)"@ {
        Some("输入仓库（owner/repo 格式）"@)
    } else if text == "Paste repo URL(s)"@ {
        Some("粘贴仓库 URL"@)
    } else if text == "API key deleted"@ {
        Some("API 密钥已删除"@)
    } else if text == " to regain access to AI features."@ {
        Some(" 以恢复 AI 功能访问。"@)
    } else if text == " for more AI credits."@ {
        Some(" 以获得更多 AI 额度。"@)
    } else if text == " for custom limits and dedicated support."@ {
        Some(" 以获得自定义限额和专属支持。"@)
    } else if text == "View my runs"@ {
        Some("查看我的运行记录"@)
    } else if text == "Share"@ {
        Some("共享"@)
    } else if text == "Last used: never"@ {
        Some("最后使用：从未"@)
    } else if text == "Successfully updated environment"@ {
        Some("环境更新成功"@)
    } else if text == "Successfully created environment"@ {
        Some("环境创建成功"@)
    } else if text == "Environment deleted successfully"@ {
        Some("环境删除成功"@)
    } else if text == "Successfully shared environment"@ {
        Some("环境共享成功"@)
    } else if text == "Failed to share environment with team"@ {
        Some("与团队共享环境失败"@)
    } else if text == "Unable to create environment: not logged in."@ {
        Some("无法创建环境：未登录。"@)
    } else if text == "Unable to save: environment no longer exists."@ {
        Some("无法保存：环境已不存在。"@)
    } else if text == "Unable to share environment: you are not currently on a team."@ {
        Some("无法共享环境：您当前未加入任何团队。"@)
    } else {
        None
    }
}

/// Looks a string up in block 11 of the settings dictionary.
pub fn settings_dictionary_lookup_11(text: &str) -> (res: Option<&'static str>)
    ensures
        opt_str_view(res) == settings_dictionary_block_11(text@),
{
    if str_eq(text, "Select locally indexed repos to provide context for the environment creation agent.") {
        Some("选择本地已索引仓库，为环境创建智能体提供上下文。")
    } else if str_eq(text, "Select repos to provide context for the environment creation agent.") {
        Some("选择仓库，为环境创建智能体提供上下文。")
    } else if str_eq(text, "Select repos for your environment") {
        Some("为您的环境选择仓库")
    } else if str_eq(text, "Successfully logged out of") {
        Some("已成功退出")
    } else if str_eq(text, "Successfully logged out of MCP server") {
        Some("已成功退出 MCP 服务器")
    } else if str_eq(text, "Finish the current MCP install before opening another install link.") {
        Some("请先完成当前的 MCP 安装，再打开其他安装链接。")
    } else if str_eq(text, "Unknown MCP server") {
        Some("未知的 MCP 服务器")
    } else if str_eq(text, "cannot be installed from this link.") {
        Some("无法通过此链接安装。")
    } else if str_eq(text, "MCP server") {
        Some("MCP 服务器")
    } else if str_eq(text, "tools available") {
        Some("个工具可用")
    } else if str_eq(text, "Update from") {
        Some("更新来源")
    } else if str_eq(text, "Update") {
        Some("更新")
    } else if str_eq(text, "MCP Server") {
        Some("MCP 服务器")
    } else if str_eq(text, "New environment") {
        Some("新建环境")
    } else if str_eq(text, "Environments") {
        Some("环境")
    } else if str_eq(text, "Environments define where your ambient agents run. Set one up in minutes via GitHub (recommended), Warp-assisted setup, or manual configuration.") {
        Some("环境定义了您的智能体运行的位置。通过 GitHub（推荐）、Warp 辅助设置或手动配置，几分钟即可完成设置。")
    } else if str_eq(text, "Search environments...") {
        Some("搜索环境...")
    } else if str_eq(text, "No environments match your search.") {
        Some("没有匹配的环境。")
    } else if str_eq(text, "Shared by Warp and your team") {
        Some("由 Warp 和您的团队共享")
    } else if str_eq(text, "Loading...") {
        Some("加载中...")
    } else if str_eq(text, "Retry") {
        Some("重试")
    } else if str_eq(text, "Authorize") {
        Some("授权")
    } else if str_eq(text, "Get started") {
        Some("开始")
    } else if str_eq(text, "Launch agent") {
        Some("启动智能体")
    } else if str_eq(text, "Quick setup") {
        Some("快速设置")
    } else if str_eq(text, "Suggested") {
        Some("推荐")
    } else if str_eq(text, "Select the GitHub repositories you'd like to work with and we'll suggest a base image and config") {
        Some("选择您想要使用的 GitHub 仓库，我们将为您推荐基础镜像和配置")
    } else if str_eq(text, "Use the agent") {
        Some("使用智能体")
    } else if str_eq(text, "Choose a locally set up project and we'll help you set up an environment based on it") {
        Some("选择一个本地项目，我们将帮助您基于此设置环境")
    } else if str_eq(text, "You haven't set up any environments yet.") {
        Some("您尚未设置任何环境。")
    } else if str_eq(text, "Choose how you'd like to set up your environment:") {
        Some("选择您希望如何设置环境：")
    } else if str_eq(text, "You haven’t set up any environments yet.") {
        Some("您尚未设置任何环境。")
    } else if str_eq(text, "Choose how you’d like to set up your environment:") {
        Some("选择您希望如何设置环境：")
    } else if str_eq(text, "Enter repos (owner/repo format)") {
        Some("输入仓库（owner/repo 格式）")
    } else if str_eq(text, "Paste repo URL(s)") {
        Some("粘贴仓库 URL")
    } else if str_eq(text, "API key deleted") {
        Some("API 密钥已删除")
    } else if str_eq(text, " to regain access to AI features.") {
        Some(" 以恢复 AI 功能访问。")
    } else if str_eq(text, " for more AI credits.") {
        Some(" 以获得更多 AI 额度。")
    } else if str_eq(text, " for custom limits and dedicated support.") {
        Some(" 以获得自定义限额和专属支持。")
    } else if str_eq(text, "View my runs") {
        Some("查看我的运行记录")
    } else if str_eq(text, "Share") {
        Some("共享")
    } else if str_eq(text, "Last used: never") {
        Some("最后使用：从未")
    } else if str_eq(text, "Successfully updated environment") {
        Some("环境更新成功")
    } else if str_eq(text, "Successfully created environment") {
        Some("环境创建成功")
    } else if str_eq(text, "Environment deleted successfully") {
        Some("环境删除成功")
    } else if str_eq(text, "Successfully shared environment") {
        Some("环境共享成功")
    } else if str_eq(text, "Failed to share environment with team") {
        Some("与团队共享环境失败")
    } else if str_eq(text, "Unable to create environment: not logged in.") {
        Some("无法创建环境：未登录。")
    } else if str_eq(text, "Unable to save: environment no longer exists.") {
        Some("无法保存：环境已不存在。")
    } else if str_eq(text, "Unable to share environment: you are not currently on a team.") {
        Some("无法共享环境：您当前未加入任何团队。")
    } else {
        None
    }
}

/// Block 12 of the settings dictionary.
pub open spec fn settings_dictionary_block_12(text: Seq<char>) -> Option<Seq<char>> {
    if text == "Unable to share environment: environment is not yet synced."@ {
        Some("无法共享环境：环境尚未同步。"@)
    } else if text == "Shared by Warp and "@ {
        Some("由 Warp 和 "@)
    } else if text == "Env ID: "@ {
        Some("环境 ID："@)
    } else if text == "Image: "@ {
        Some("镜像："@)
    } else if text == "Repos: "@ {
        Some("仓库："@)
    } else if text == "Setup commands: "@ {
        Some("设置命令："@)
    } else if text == "Last edited: "@ {
        Some("最后编辑："@)
    } else if text == "Last used: "@ {
        Some("最后使用："@)
    } else if text == "Enabled"@ {
        Some("启用"@)
    } else if text == "Base URL"@ {
        Some("Base URL"@)
    } else if text == "Model"@ {
        Some("模型"@)
    } else if text == "API Key"@ {
        Some("API 密钥"@)
    } else if text == "Enable local AI provider to route agent requests to a custom OpenAI-compatible endpoint."@ {
        Some("启用本地 AI Provider，将智能体请求路由到自定义 OpenAI 兼容端点。"@)
    } else if text == "The base URL of the OpenAI-compatible API endpoint. Edit in settings.toml."@ {
        Some("OpenAI 兼容 API 端点的 Base URL。请在 settings.toml 中编辑。"@)
    } else if text == "The base URL of the OpenAI-compatible API endpoint."@ {
        Some("OpenAI 兼容 API 端点的 Base URL。"@)
    } else if text == "The model name to use for API requests (e.g. gpt-4, mimo-v2.5). Edit in settings.toml."@ {
        Some("用于 API 请求的模型名称（例如 gpt-4、mimo-v2.5）。请在 settings.toml 中编辑。"@)
    } else if text == "The model name to use for API requests (e.g. gpt-4, mimo-v2.5)."@ {
        Some("用于 API 请求的模型名称（例如 gpt-4、mimo-v2.5）。"@)
    } else if text == "The API key for authentication. Leave empty if no key is required. Edit in settings.toml."@ {
        Some("用于认证的 API 密钥。如不需要密钥请留空。请在 settings.toml 中编辑。"@)
    } else if text == "The API key for authentication. Leave empty if no key is required."@ {
        Some("用于认证的 API 密钥。如不需要密钥请留空。"@)
    } else if text == "(not set)"@ {
        Some("（未设置）"@)
    } else if text == "Rules help the Warp Agent follow your conventions, whether for codebases or specific workflows. "@ {
        Some("规则帮助 Warp 智能体遵循您的规范，无论是代码库还是特定工作流。"@)
    } else if text == "Learn more"@ {
        Some("了解更多"@)
    } else if text == "Auto open code review panel"@ {
        Some("自动打开代码审查面板"@)
    } else if text == "When this setting is on, the code review panel will open on the first accepted diff of a conversation"@ {
        Some("启用后，代码审查面板将在会话中第一个被接受的差异时自动打开"@)
    } else if text == "Show code review button"@ {
        Some("显示代码审查按钮"@)
    } else if text == "Show a button in the top right of the window to toggle the code review panel."@ {
        Some("在窗口右上角显示一个按钮，用于切换代码审查面板。"@)
    } else if text == "Show diff stats on code review button"@ {
        Some("在代码审查按钮上显示差异统计"@)
    } else if text == "Show lines added and removed counts on the code review button."@ {
        Some("在代码审查按钮上显示添加和删除的行数。"@)
    } else if text == "Project explorer"@ {
        Some("项目浏览器"@)
    } else if text == "Adds an IDE-style project explorer / file tree to the left side tools panel."@ {
        Some("在左侧工具面板添加 IDE 风格的项目浏览器/文件树。"@)
    } else if text == "Global file search"@ {
        Some("全局文件搜索"@)
    } else if text == "Adds global file search to the left side tools panel."@ {
        Some("在左侧工具面板添加全局文件搜索。"@)
    } else if text == "Open Markdown files in Warp's Markdown Viewer by default"@ {
        Some("默认在 Warp 的 Markdown 查看器中打开 Markdown 文件"@)
    } else if text == "Index new folder"@ {
        Some("索引新文件夹"@)
    } else if text == "Open project rules"@ {
        Some("打开项目规则"@)
    } else if text == "Discovered {total_nodes} chunks"@ {
        Some("已发现 {total_nodes} 个代码块"@)
    } else if text == "Syncing - {completed_nodes} / {total_nodes}"@ {
        Some("同步中 - {completed_nodes} / {total_nodes}"@)
    } else if text == "Syncing..."@ {
        Some("同步中..."@)
    } else if text == "Synced"@ {
        Some("已同步"@)
    } else if text == "Codebase too large"@ {
        Some("代码库过大"@)
    } else if text == "Stale"@ {
        Some("已过时"@)
    } else if text == "No index built"@ {
        Some("尚未构建索引"@)
    } else if text == "Installed"@ {
        Some("已安装"@)
    } else if text == "Installing..."@ {
        Some("安装中..."@)
    } else if text == "Checking..."@ {
        Some("检查中..."@)
    } else if text == "Available for download"@ {
        Some("可下载"@)
    } else if text == "Available"@ {
        Some("可用"@)
    } else if text == "Busy"@ {
        Some("忙碌"@)
    } else if text == "Stopped"@ {
        Some("已停止"@)
    } else if text == "Not running"@ {
        Some("未运行"@)
    } else {
        None
    }
}

/// Looks a string up in block 12 of the settings dictionary.
pub fn settings_dictionary_lookup_12(text: &str) -> (res: Option<&'static str>)
    ensures
        opt_str_view(res) == settings_dictionary_block_12(text@),
{
    if str_eq(text, "Unable to share environment: environment is not yet synced.") {
        Some("无法共享环境：环境尚未同步。")
    } else if str_eq(text, "Shared by Warp and ") {
        Some("由 Warp 和 ")
    } else if str_eq(text, "Env ID: ") {
        Some("环境 ID：")
    } else if str_eq(text, "Image: ") {
        Some("镜像：")
    } else if str_eq(text, "Repos: ") {
        Some("仓库：")
    } else if str_eq(text, "Setup commands: ") {
        Some("设置命令：")
    } else if str_eq(text, "Last edited: ") {
        Some("最后编辑：")
    } else if str_eq(text, "Last used: ") {
        Some("最后使用：")
    } else if str_eq(text, "Enabled") {
        Some("启用")
    } else if str_eq(text, "Base URL") {
        Some("Base URL")
    } else if str_eq(text, "Model") {
        Some("模型")
    } else if str_eq(text, "API Key") {
        Some("API 密钥")
    } else if str_eq(text, "Enable local AI provider to route agent requests to a custom OpenAI-compatible endpoint.") {
        Some("启用本地 AI Provider，将智能体请求路由到自定义 OpenAI 兼容端点。")
    } else if str_eq(text, "The base URL of the OpenAI-compatible API endpoint. Edit in settings.toml.") {
        Some("OpenAI 兼容 API 端点的 Base URL。请在 settings.toml 中编辑。")
    } else if str_eq(text, "The base URL of the OpenAI-compatible API endpoint.") {
        Some("OpenAI 兼容 API 端点的 Base URL。")
    } else if str_eq(text, "The model name to use for API requests (e.g. gpt-4, mimo-v2.5). Edit in settings.toml.") {
        Some("用于 API 请求的模型名称（例如 gpt-4、mimo-v2.5）。请在 settings.toml 中编辑。")
    } else if str_eq(text, "The model name to use for API requests (e.g. gpt-4, mimo-v2.5).") {
        Some("用于 API 请求的模型名称（例如 gpt-4、mimo-v2.5）。")
    } else if str_eq(text, "The API key for authentication. Leave empty if no key is required. Edit in settings.toml.") {
        Some("用于认证的 API 密钥。如不需要密钥请留空。请在 settings.toml 中编辑。")
    } else if str_eq(text, "The API key for authentication. Leave empty if no key is required.") {
        Some("用于认证的 API 密钥。如不需要密钥请留空。")
    } else if str_eq(text, "(not set)") {
        Some("（未设置）")
    } else if str_eq(text, "Rules help the Warp Agent follow your conventions, whether for codebases or specific workflows. ") {
        Some("规则帮助 Warp 智能体遵循您的规范，无论是代码库还是特定工作流。")
    } else if str_eq(text, "Learn more") {
        Some("了解更多")
    } else if str_eq(text, "Auto open code review panel") {
        Some("自动打开代码审查面板")
    } else if str_eq(text, "When this setting is on, the code review panel will open on the first accepted diff of a conversation") {
        Some("启用后，代码审查面板将在会话中第一个被接受的差异时自动打开")
    } else if str_eq(text, "Show code review button") {
        Some("显示代码审查按钮")
    } else if str_eq(text, "Show a button in the top right of the window to toggle the code review panel.") {
        Some("在窗口右上角显示一个按钮，用于切换代码审查面板。")
    } else if str_eq(text, "Show diff stats on code review button") {
        Some("在代码审查按钮上显示差异统计")
    } else if str_eq(text, "Show lines added and removed counts on the code review button.") {
        Some("在代码审查按钮上显示添加和删除的行数。")
    } else if str_eq(text, "Project explorer") {
        Some("项目浏览器")
    } else if str_eq(text, "Adds an IDE-style project explorer / file tree to the left side tools panel.") {
        Some("在左侧工具面板添加 IDE 风格的项目浏览器/文件树。")
    } else if str_eq(text, "Global file search") {
        Some("全局文件搜索")
    } else if str_eq(text, "Adds global file search to the left side tools panel.") {
        Some("在左侧工具面板添加全局文件搜索。")
    } else if str_eq(text, "Open Markdown files in Warp's Markdown Viewer by default") {
        Some("默认在 Warp 的 Markdown 查看器中打开 Markdown 文件")
    } else if str_eq(text, "Index new folder") {
        Some("索引新文件夹")
    } else if str_eq(text, "Open project rules") {
        Some("打开项目规则")
    } else if str_eq(text, "Discovered {total_nodes} chunks") {
        Some("已发现 {total_nodes} 个代码块")
    } else if str_eq(text, "Syncing - {completed_nodes} / {total_nodes}") {
        Some("同步中 - {completed_nodes} / {total_nodes}")
    } else if str_eq(text, "Syncing...") {
        Some("同步中...")
    } else if str_eq(text, "Synced") {
        Some("已同步")
    } else if str_eq(text, "Codebase too large") {
        Some("代码库过大")
    } else if str_eq(text, "Stale") {
        Some("已过时")
    } else if str_eq(text, "No index built") {
        Some("尚未构建索引")
    } else if str_eq(text, "Installed") {
        Some("已安装")
    } else if str_eq(text, "Installing...") {
        Some("安装中...")
    } else if str_eq(text, "Checking...") {
        Some("检查中...")
    } else if str_eq(text, "Available for download") {
        Some("可下载")
    } else if str_eq(text, "Available") {
        Some("可用")
    } else if str_eq(text, "Busy") {
        Some("忙碌")
    } else if str_eq(text, "Stopped") {
        Some("已停止")
    } else if str_eq(text, "Not running") {
        Some("未运行")
    } else {
        None
    }
}

/// Block 13 of the settings dictionary.
pub open spec fn settings_dictionary_block_13(text: Seq<char>) -> Option<Seq<char>> {
    if text == "Group files into single editor pane"@ {
        Some("将文件归入单个编辑器窗格"@)
    } else if text == "When this setting is on, any files opened in the same tab will be automatically grouped into a single editor pane."@ {
        Some("启用后，在同一标签页中打开的文件将自动归入单个编辑器窗格。"@)
    } else if text == "Split Pane"@ {
        Some("分屏"@)
    } else if text == "New Tab"@ {
        Some("新标签页"@)
    } else if text == "Default App"@ {
        Some("默认应用"@)
    } else if text == "Choose an editor to open file links"@ {
        Some("选择打开文件链接的编辑器"@)
    } else if text == "Choose an editor to open files from the code review panel, project explorer, and global search"@ {
        Some("选择从代码审查面板、项目浏览器和全局搜索打开文件时使用的编辑器"@)
    } else if text == "Choose a layout to open files in Warp"@ {
        Some("选择在 Warp 中打开文件的布局"@)
    } else if text == "update your payment information"@ {
        Some("更新您的付款信息"@)
    } else if text == "Full-screen Apps"@ {
        Some("全屏应用"@)
    } else if text == "Create your own custom theme"@ {
        Some("创建您自己的自定义主题"@)
    } else if text == "Current theme"@ {
        Some("当前主题"@)
    } else if text == "Automatically switch between light and dark themes when your system does."@ {
        Some("当系统切换时自动在浅色和深色主题之间切换。"@)
    } else if text == "Customize your app icon"@ {
        Some("自定义应用图标"@)
    } else if text == "Changing the app icon requires the app to be bundled."@ {
        Some("更改应用图标需要将应用打包。"@)
    } else if text == "Open new windows with custom size"@ {
        Some("以自定义大小打开新窗口"@)
    } else if text == "Columns"@ {
        Some("列"@)
    } else if text == "Rows"@ {
        Some("行"@)
    } else if text == "Tools panel visibility is consistent across tabs"@ {
        Some("工具面板在各标签页间保持一致的可见性"@)
    } else if text == "Input position"@ {
        Some("输入位置"@)
    } else if text == "Show Jump to Bottom of Block button"@ {
        Some("显示跳到底部按钮"@)
    } else if text == "Show block dividers"@ {
        Some("显示块分隔线"@)
    } else if text == "Agent font"@ {
        Some("智能体字体"@)
    } else if text == "Terminal font"@ {
        Some("终端字体"@)
    } else if text == "Use thin strokes"@ {
        Some("使用细笔画"@)
    } else if text == "Enforce minimum contrast"@ {
        Some("强制最低对比度"@)
    } else if text == "Show ligatures in terminal"@ {
        Some("在终端中显示连字"@)
    } else if text == "Cursor type"@ {
        Some("光标类型"@)
    } else if text == "Blinking cursor"@ {
        Some("闪烁光标"@)
    } else if text == "Tab close button position"@ {
        Some("标签页关闭按钮位置"@)
    } else if text == "Show tab indicators"@ {
        Some("显示标签页指示器"@)
    } else if text == "Default mode for new sessions"@ {
        Some("新会话的默认模式"@)
    } else if text == "Agent"@ {
        Some("智能体"@)
    } else if text == "Cloud Oz"@ {
        Some("云端 Oz"@)
    } else if text == "Tab Config"@ {
        Some("标签配置"@)
    } else if text == "Local Docker Sandbox"@ {
        Some("本地 Docker 沙盒"@)
    } else if text == "Show sticky command header"@ {
        Some("显示固定命令标题"@)
    } else if text == "Show tooltip on click on links"@ {
        Some("点击链接时显示提示"@)
    } else if text == "Show warning before quitting/logging out"@ {
        Some("退出或注销前显示警告"@)
    } else if text == "Start Warp at login (requires macOS 13+)"@ {
        Some("登录时启动 Warp（需要 macOS 13+）"@)
    } else if text == "Start Warp at login"@ {
        Some("登录时启动 Warp"@)
    } else if text == "Quit when all windows are closed"@ {
        Some("关闭所有窗口时退出"@)
    } else if text == "Show changelog toast after updates"@ {
        Some("更新后显示更新日志提示"@)
    } else if text == "Lines scrolled by mouse wheel interval"@ {
        Some("鼠标滚轮每次滚动的行数"@)
    } else if text == "Supports floating point values between 1 and 20."@ {
        Some("支持 1 到 20 之间的小数。"@)
    } else if text == "Allowed Values: 1-20"@ {
        Some("允许值：1-20"@)
    } else if text == "Make Warp the default terminal"@ {
        Some("将 Warp 设为默认终端"@)
    } else if text == "Warp is the default terminal"@ {
        Some("Warp 已是默认终端"@)
    } else if text == "Maximum rows in a block"@ {
        Some("块中的最大行数"@)
    } else if text == "Default shell for new sessions"@ {
        Some("新会话的默认 Shell"@)
    } else {
        None
    }
}

/// Looks a string up in block 13 of the settings dictionary.
pub fn settings_dictionary_lookup_13(text: &str) -> (res: Option<&'static str>)
    ensures
        opt_str_view(res) == settings_dictionary_block_13(text@),
{
    if str_eq(text, "Group files into single editor pane") {
        Some("将文件归入单个编辑器窗格")
    } else if str_eq(text, "When this setting is on, any files opened in the same tab will be automatically grouped into a single editor pane.") {
        Some("启用后，在同一标签页中打开的文件将自动归入单个编辑器窗格。")
    } else if str_eq(text, "Split Pane") {
        Some("分屏")
    } else if str_eq(text, "New Tab") {
        Some("新标签页")
    } else if str_eq(text, "Default App") {
        Some("默认应用")
    } else if str_eq(text, "Choose an editor to open file links") {
        Some("选择打开文件链接的编辑器")
    } else if str_eq(text, "Choose an editor to open files from the code review panel, project explorer, and global search") {
        Some("选择从代码审查面板、项目浏览器和全局搜索打开文件时使用的编辑器")
    } else if str_eq(text, "Choose a layout to open files in Warp") {
        Some("选择在 Warp 中打开文件的布局")
    } else if str_eq(text, "update your payment information") {
        Some("更新您的付款信息")
    } else if str_eq(text, "Full-screen Apps") {
        Some("全屏应用")
    } else if str_eq(text, "Create your own custom theme") {
        Some("创建您自己的自定义主题")
    } else if str_eq(text, "Current theme") {
        Some("当前主题")
    } else if str_eq(text, "Automatically switch between light and dark themes when your system does.") {
        Some("当系统切换时自动在浅色和深色主题之间切换。")
    } else if str_eq(text, "Customize your app icon") {
        Some("自定义应用图标")
    } else if str_eq(text, "Changing the app icon requires the app to be bundled.") {
        Some("更改应用图标需要将应用打包。")
    } else if str_eq(text, "Open new windows with custom size") {
        Some("以自定义大小打开新窗口")
    } else if str_eq(text, "Columns") {
        Some("列")
    } else if str_eq(text, "Rows") {
        Some("行")
    } else if str_eq(text, "Tools panel visibility is consistent across tabs") {
        Some("工具面板在各标签页间保持一致的可见性")
    } else if str_eq(text, "Input position") {
        Some("输入位置")
    } else if str_eq(text, "Show Jump to Bottom of Block button") {
        Some("显示跳到底部按钮")
    } else if str_eq(text, "Show block dividers") {
        Some("显示块分隔线")
    } else if str_eq(text, "Agent font") {
        Some("智能体字体")
    } else if str_eq(text, "Terminal font") {
        Some("终端字体")
    } else if str_eq(text, "Use thin strokes") {
        Some("使用细笔画")
    } else if str_eq(text, "Enforce minimum contrast") {
        Some("强制最低对比度")
    } else if str_eq(text, "Show ligatures in terminal") {
        Some("在终端中显示连字")
    } else if str_eq(text, "Cursor type") {
        Some("光标类型")
    } else if str_eq(text, "Blinking cursor") {
        Some("闪烁光标")
    } else if str_eq(text, "Tab close button position") {
        Some("标签页关闭按钮位置")
    } else if str_eq(text, "Show tab indicators") {
        Some("显示标签页指示器")
    } else if str_eq(text, "Default mode for new sessions") {
        Some("新会话的默认模式")
    } else if str_eq(text, "Agent") {
        Some("智能体")
    } else if str_eq(text, "Cloud Oz") {
        Some("云端 Oz")
    } else if str_eq(text, "Tab Config") {
        Some("标签配置")
    } else if str_eq(text, "Local Docker Sandbox") {
        Some("本地 Docker 沙盒")
    } else if str_eq(text, "Show sticky command header") {
        Some("显示固定命令标题")
    } else if str_eq(text, "Show tooltip on click on links") {
        Some("点击链接时显示提示")
    } else if str_eq(text, "Show warning before quitting/logging out") {
        Some("退出或注销前显示警告")
    } else if str_eq(text, "Start Warp at login (requires macOS 13+)") {
        Some("登录时启动 Warp（需要 macOS 13+）")
    } else if str_eq(text, "Start Warp at login") {
        Some("登录时启动 Warp")
    } else if str_eq(text, "Quit when all windows are closed") {
        Some("关闭所有窗口时退出")
    } else if str_eq(text, "Show changelog toast after updates") {
        Some("更新后显示更新日志提示")
    } else if str_eq(text, "Lines scrolled by mouse wheel interval") {
        Some("鼠标滚轮每次滚动的行数")
    } else if str_eq(text, "Supports floating point values between 1 and 20.") {
        Some("支持 1 到 20 之间的小数。")
    } else if str_eq(text, "Allowed Values: 1-20") {
        Some("允许值：1-20")
    } else if str_eq(text, "Make Warp the default terminal") {
        Some("将 Warp 设为默认终端")
    } else if str_eq(text, "Warp is the default terminal") {
        Some("Warp 已是默认终端")
    } else if str_eq(text, "Maximum rows in a block") {
        Some("块中的最大行数")
    } else if str_eq(text, "Default shell for new sessions") {
        Some("新会话的默认 Shell")
    } else {
        None
    }
}

/// Block 14 of the settings dictionary.
pub open spec fn settings_dictionary_block_14(text: Seq<char>) -> Option<Seq<char>> {
    if text == "Working directory for new sessions"@ {
        Some("新会话的工作目录"@)
    } else if text == "Enable reopening of closed sessions"@ {
        Some("允许重新打开已关闭的会话"@)
    } else if text == "Grace period (seconds)"@ {
        Some("宽限期（秒）"@)
    } else if text == "Advanced"@ {
        Some("高级"@)
    } else if text == "Home directory"@ {
        Some("主目录"@)
    } else if text == "Previous session's directory"@ {
        Some("上一个会话的目录"@)
    } else if text == "Custom directory"@ {
        Some("自定义目录"@)
    } else if text == "SSH session detection for Warpification"@ {
        Some("Warpify 的 SSH 会话检测"@)
    } else if text == "The tmux ssh wrapper works in many situations where the default one does not, but may require you to hit a button to warpify. Takes effect in new tabs."@ {
        Some("tmux SSH 包装器在许多默认包装器不适用的情况下仍然有效，但可能需要您点击按钮来执行 Warpify。在新标签页中生效。"@)
    } else if text == "Controls the installation behavior for Warp's SSH extension when a remote host doesn't have it installed."@ {
        Some("控制当远程主机未安装 Warp SSH 扩展时的安装行为。"@)
    } else if text == "Subshells supported: bash, zsh, and fish."@ {
        Some("支持的子 Shell：bash、zsh 和 fish。"@)
    } else if text == "Warpify your interactive SSH sessions."@ {
        Some("对您的交互式 SSH 会话执行 Warpify。"@)
    } else if text == "Configure whether Warp attempts to \u{201c}Warpify\u{201d} (add support for blocks, input modes, etc) certain shells. "@ {
        Some("配置 Warp 是否尝试对某些 Shell 执行\u{201c}Warpify\u{201d}（添加对块、输入模式等的支持）。"@)
    } else if text == "Added commands"@ {
        Some("已添加的命令"@)
    } else if text == "Denylisted commands"@ {
        Some("已拒绝的命令"@)
    } else if text == "Warpify SSH Sessions"@ {
        Some("Warpify SSH 会话"@)
    } else if text == "Install SSH extension"@ {
        Some("安装 SSH 扩展"@)
    } else if text == "Use Tmux Warpification"@ {
        Some("使用 Tmux Warpify"@)
    } else if text == "Denylisted hosts"@ {
        Some("已拒绝的主机"@)
    } else {
        None
    }
}

/// Looks a string up in block 14 of the settings dictionary.
pub fn settings_dictionary_lookup_14(text: &str) -> (res: Option<&'static str>)
    ensures
        opt_str_view(res) == settings_dictionary_block_14(text@),
{
    if str_eq(text, "Working directory for new sessions") {
        Some("新会话的工作目录")
    } else if str_eq(text, "Enable reopening of closed sessions") {
        Some("允许重新打开已关闭的会话")
    } else if str_eq(text, "Grace period (seconds)") {
        Some("宽限期（秒）")
    } else if str_eq(text, "Advanced") {
        Some("高级")
    } else if str_eq(text, "Home directory") {
        Some("主目录")
    } else if str_eq(text, "Previous session's directory") {
        Some("上一个会话的目录")
    } else if str_eq(text, "Custom directory") {
        Some("自定义目录")
    } else if str_eq(text, "SSH session detection for Warpification") {
        Some("Warpify 的 SSH 会话检测")
    } else if str_eq(text, "The tmux ssh wrapper works in many situations where the default one does not, but may require you to hit a button to warpify. Takes effect in new tabs.") {
        Some("tmux SSH 包装器在许多默认包装器不适用的情况下仍然有效，但可能需要您点击按钮来执行 Warpify。在新标签页中生效。")
    } else if str_eq(text, "Controls the installation behavior for Warp's SSH extension when a remote host doesn't have it installed.") {
        Some("控制当远程主机未安装 Warp SSH 扩展时的安装行为。")
    } else if str_eq(text, "Subshells supported: bash, zsh, and fish.") {
        Some("支持的子 Shell：bash、zsh 和 fish。")
    } else if str_eq(text, "Warpify your interactive SSH sessions.") {
        Some("对您的交互式 SSH 会话执行 Warpify。")
    } else if str_eq(text, "Configure whether Warp attempts to \u{201c}Warpify\u{201d} (add support for blocks, input modes, etc) certain shells. ") {
        Some("配置 Warp 是否尝试对某些 Shell 执行\u{201c}Warpify\u{201d}（添加对块、输入模式等的支持）。")
    } else if str_eq(text, "Added commands") {
        Some("已添加的命令")
    } else if str_eq(text, "Denylisted commands") {
        Some("已拒绝的命令")
    } else if str_eq(text, "Warpify SSH Sessions") {
        Some("Warpify SSH 会话")
    } else if str_eq(text, "Install SSH extension") {
        Some("安装 SSH 扩展")
    } else if str_eq(text, "Use Tmux Warpification") {
        Some("使用 Tmux Warpify")
    } else if str_eq(text, "Denylisted hosts") {
        Some("已拒绝的主机")
    } else {
        None
    }
}

/// The Simplified Chinese rendering of a settings string, if the dictionary has one.
pub open spec fn settings_zh_cn_literal_text(text: Seq<char>) -> Option<Seq<char>> {
    if settings_dictionary_block_0(text) is Some {
        settings_dictionary_block_0(text)
    } else if settings_dictionary_block_1(text) is Some {
        settings_dictionary_block_1(text)
    } else if settings_dictionary_block_2(text) is Some {
        settings_dictionary_block_2(text)
    } else if settings_dictionary_block_3(text) is Some {
        settings_dictionary_block_3(text)
    } else if settings_dictionary_block_4(text) is Some {
        settings_dictionary_block_4(text)
    } else if settings_dictionary_block_5(text) is Some {
        settings_dictionary_block_5(text)
    } else if settings_dictionary_block_6(text) is Some {
        settings_dictionary_block_6(text)
    } else if settings_dictionary_block_7(text) is Some {
        settings_dictionary_block_7(text)
    } else if settings_dictionary_block_8(text) is Some {
        settings_dictionary_block_8(text)
    } else if settings_dictionary_block_9(text) is Some {
        settings_dictionary_block_9(text)
    } else if settings_dictionary_block_10(text) is Some {
        settings_dictionary_block_10(text)
    } else if settings_dictionary_block_11(text) is Some {
        settings_dictionary_block_11(text)
    } else if settings_dictionary_block_12(text) is Some {
        settings_dictionary_block_12(text)
    } else if settings_dictionary_block_13(text) is Some {
        settings_dictionary_block_13(text)
    } else if settings_dictionary_block_14(text) is Some {
        settings_dictionary_block_14(text)
    } else {
        None
    }
}

/// Looks up the Simplified Chinese rendering of a settings string.
pub fn settings_zh_cn_literal(text: &str) -> (res: Option<&'static str>)
    ensures
        opt_str_view(res) == settings_zh_cn_literal_text(text@),
{
    let found = settings_dictionary_lookup_0(text);
    if found.is_some() {
        return found;
    }
    let found = settings_dictionary_lookup_1(text);
    if found.is_some() {
        return found;
    }
    let found = settings_dictionary_lookup_2(text);
    if found.is_some() {
        return found;
    }
    let found = settings_dictionary_lookup_3(text);
    if found.is_some() {
        return found;
    }
    let found = settings_dictionary_lookup_4(text);
    if found.is_some() {
        return found;
    }
    let found = settings_dictionary_lookup_5(text);
    if found.is_some() {
        return found;
    }
    let found = settings_dictionary_lookup_6(text);
    if found.is_some() {
        return found;
    }
    let found = settings_dictionary_lookup_7(text);
    if found.is_some() {
        return found;
    }
    let found = settings_dictionary_lookup_8(text);
    if found.is_some() {
        return found;
    }
    let found = settings_dictionary_lookup_9(text);
    if found.is_some() {
        return found;
    }
    let found = settings_dictionary_lookup_10(text);
    if found.is_some() {
        return found;
    }
    let found = settings_dictionary_lookup_11(text);
    if found.is_some() {
        return found;
    }
    let found = settings_dictionary_lookup_12(text);
    if found.is_some() {
        return found;
    }
    let found = settings_dictionary_lookup_13(text);
    if found.is_some() {
        return found;
    }
    let found = settings_dictionary_lookup_14(text);
    if found.is_some() {
        return found;
    }
    None
}


proof fn lemma_block_0_renderings_not_empty(text: Seq<char>)
    ensures
        settings_dictionary_block_0(text) matches Some(t) ==> t.len() > 0,
{
    reveal_strlit("此设置不会同步到您的其他设备");
    reveal_strlit("恢复默认");
    reveal_strlit("默认");
    reveal_strlit("自定义");
    reveal_strlit("取消");
    reveal_strlit("清除");
    reveal_strlit("保存");
    reveal_strlit("搜索");
    reveal_strlit("没有匹配的设置。");
    reveal_strlit("可以尝试使用其他关键词，或检查是否有拼写错误。");
    reveal_strlit("账户");
    reveal_strlit("外观");
    reveal_strlit("功能");
    reveal_strlit("键盘快捷键");
    reveal_strlit("隐私");
    reveal_strlit("账单和用量");
    reveal_strlit("代码库索引");
    reveal_strlit("代码编辑器和代码审查");
    reveal_strlit("MCP 服务器");
    reveal_strlit("搜索 MCP 服务器");
    reveal_strlit("编辑配置");
    reveal_strlit("设置");
    reveal_strlit("Oz Cloud API 密钥");
    reveal_strlit("继续使用超出套餐限制的高级模型。用量将以 20 美元为增量收费，最高至您的支出限额，任何剩余余额将在您的预定计费日期收取。");
    reveal_strlit("请联系团队管理员启用超额用量以获得更多 AI 用量。");
    reveal_strlit("自动重新加载已禁用，因为下一次重新加载将超出您的每月支出限额。请提高限额以使用自动重新加载。");
    reveal_strlit("由于账单问题受限。请更新您的付款方式以购买额外额度。");
    reveal_strlit("由于最近一次重新加载失败，自动重新加载已禁用。请更新您的付款方式并重试。");
    reveal_strlit("重新加载将超出您的每月限额。");
    reveal_strlit("提高限额");
    reveal_strlit(" 以继续。");
    reveal_strlit("用量报告目前受限");
    reveal_strlit("企业版额度用量在此视图中尚不完全可用。为了获得最准确的支出跟踪，");
    reveal_strlit("访问管理面板");
    reveal_strlit("企业版额度用量在此视图中尚不完全可用。请联系团队管理员获取详细的用量报告。");
    reveal_strlit("额外额度通过预付包购买，可在每个计费周期结转，并在一年后过期。购买越多，单价越低。一旦您的基础套餐额度用完，将消耗额外额度。");
    reveal_strlit("额外额度通过预付包购买，可在每个计费周期结转，并在一年后过期。购买越多，单价越低。一旦您的基础套餐额度用完，将消耗额外额度。购买的额外额度由您的团队共享。");
    reveal_strlit("购买的额外额度由您的团队共享。");
    reveal_strlit("云智能体试用");
    reveal_strlit("超额支出限额");
    reveal_strlit("每月支出限额");
    reveal_strlit("加载更多");
    reveal_strlit("更新工作空间设置失败");
    reveal_strlit("成功购买额外额度");
    reveal_strlit("新建智能体");
    reveal_strlit("购买更多");
    reveal_strlit("每月超额支出限额");
    reveal_strlit("未设置");
    reveal_strlit("设置超出套餐金额的每月超额支出限额");
    reveal_strlit("额外额度");
}

proof fn lemma_block_1_renderings_not_empty(text: Seq<char>)
    ensures
        settings_dictionary_block_1(text) matches Some(t) ==> t.len() > 0,
{
    reveal_strlit("切换到 Build 套餐");
    reveal_strlit(" 以购买额外额度。");
    reveal_strlit("升级到 Build 套餐");
    reveal_strlit("请联系您的客户经理获取更多额外额度。");
    reveal_strlit("请联系团队管理员购买额外额度。");
    reveal_strlit("每月支出限额");
    reveal_strlit("设置每月购买额外额度的限额");
    reveal_strlit("本月已购买");
    reveal_strlit("自动重新加载");
    reveal_strlit("剩余 1 额度");
    reveal_strlit("1 额度");
    reveal_strlit("请输入有效的货币金额");
    reveal_strlit("请输入 0.01 美元到 10,000,000 美元之间的价格");
    reveal_strlit("达到此美元限额时，Warp 将阻止使用高级模型。每月重置一次。");
    reveal_strlit("请注意，在接近您选择的限额时产生的 AI 额度可能会超出限额几美元。");
    reveal_strlit("创建并管理 API 密钥，允许其他 Oz 云端智能体访问您的 Warp 账户。");
    reveal_strlit("创建并管理 API 密钥，允许其他 Oz 云端智能体访问您的 Warp 账户。\n欲了解更多信息，请访问 ");
    reveal_strlit("欲了解更多信息，请访问 ");
    reveal_strlit("文档。");
    reveal_strlit("名称");
    reveal_strlit("密钥");
    reveal_strlit("作用域");
    reveal_strlit("创建时间");
    reveal_strlit("最后使用");
    reveal_strlit("过期时间");
    reveal_strlit("永不过期");
    reveal_strlit("个人");
    reveal_strlit("团队");
    reveal_strlit("暂无 API 密钥");
    reveal_strlit("创建密钥以管理 Warp 的外部访问");
    reveal_strlit("新建 API 密钥");
    reveal_strlit("+ 创建 API 密钥");
    reveal_strlit("Warp API 密钥");
    reveal_strlit("完成");
    reveal_strlit("创建密钥");
    reveal_strlit("正在创建...");
    reveal_strlit("类型");
    reveal_strlit("1 天");
    reveal_strlit("30 天");
    reveal_strlit("90 天");
    reveal_strlit("此 API 密钥绑定到您的用户，可向您的 Warp 账户发起请求。");
    reveal_strlit("此 API 密钥绑定到您的团队，可代表您的团队发起请求。");
    reveal_strlit("紧凑模式");
    reveal_strlit("Warp 模式");
    reveal_strlit("经典模式");
    reveal_strlit("浅色主题");
    reveal_strlit("深色主题");
    reveal_strlit("输入类型");
    reveal_strlit("主题");
}

proof fn lemma_block_2_renderings_not_empty(text: Seq<char>)
    ensures
        settings_dictionary_block_2(text) matches Some(t) ==> t.len() > 0,
{
    reveal_strlit("图标");
    reveal_strlit("窗口");
    reveal_strlit("输入");
    reveal_strlit("面板");
    reveal_strlit("块");
    reveal_strlit("文本");
    reveal_strlit("光标");
    reveal_strlit("标签页");
    reveal_strlit("全屏应用");
    reveal_strlit("常规");
    reveal_strlit("会话");
    reveal_strlit("按键");
    reveal_strlit("文本编辑");
    reveal_strlit("终端输入");
    reveal_strlit("终端");
    reveal_strlit("通知");
    reveal_strlit("工作流");
    reveal_strlit("系统");
    reveal_strlit("用量");
    reveal_strlit("方案");
    reveal_strlit("推荐");
    reveal_strlit("紧凑模式");
    reveal_strlit("与系统同步主题");
    reveal_strlit("光标闪烁");
    reveal_strlit("跳到底部块按钮");
    reveal_strlit("块分隔线");
    reveal_strlit("淡化非活动面板");
    reveal_strlit("标签页指示器");
    reveal_strlit("焦点跟随鼠标");
    reveal_strlit("禅模式");
    reveal_strlit("始终显示标签栏");
    reveal_strlit("全屏时隐藏标签栏");
    reveal_strlit("悬停时显示标签栏");
    reveal_strlit("输入框置顶");
    reveal_strlit("固定输入框到顶部");
    reveal_strlit("固定输入框到底部");
    reveal_strlit("切换输入模式（Warp/经典）");
    reveal_strlit("在标签栏显示代码审查按钮");
    reveal_strlit("在标签栏隐藏代码审查按钮");
    reveal_strlit("匹配终端");
    reveal_strlit("查看所有可用系统字体");
}

proof fn lemma_block_3_renderings_not_empty(text: Seq<char>)
    ensures
        settings_dictionary_block_3(text) matches Some(t) ==> t.len() > 0,
{
    reveal_strlit("行高");
    reveal_strlit("字体粗细");
    reveal_strlit("字号 (px)");
    reveal_strlit("笔记本字体大小");
    reveal_strlit("连字可能会降低性能");
    reveal_strlit("Vim 模式下禁用光标类型设置");
    reveal_strlit("选中即复制");
    reveal_strlit("自动补全引号和括号");
    reveal_strlit("启动时恢复窗口、标签页和面板");
    reveal_strlit("滚动上报");
    reveal_strlit("输入时打开补全菜单");
    reveal_strlit("目录路径");
    reveal_strlit("可执行文件路径");
    reveal_strlit("命令纠错");
    reveal_strlit("错误下划线");
    reveal_strlit("语法高亮");
    reveal_strlit("终端提示音");
    reveal_strlit("自动建议");
    reveal_strlit("启用 SSH Wrapper");
    reveal_strlit("链接提示");
    reveal_strlit("Vim 未命名寄存器");
    reveal_strlit("Vim 状态栏");
    reveal_strlit("将 Warp 设为默认终端");
    reveal_strlit("左 Option 作为 Meta");
    reveal_strlit("右 Option 作为 Meta");
    reveal_strlit("左 Alt 作为 Meta");
    reveal_strlit("右 Alt 作为 Meta");
    reveal_strlit("Tab 键行为");
    reveal_strlit("快捷键");
    reveal_strlit("点击设置全局热键");
    reveal_strlit("更改快捷键");
    reveal_strlit("秒");
    reveal_strlit("Wayland 不支持。");
    reveal_strlit("失去键盘焦点时自动隐藏");
    reveal_strlit("查看文档。");
    reveal_strlit("代码");
    reveal_strlit("初始化设置");
    reveal_strlit("代码库索引");
    reveal_strlit("默认索引新文件夹");
    reveal_strlit("已初始化/索引的文件夹");
    reveal_strlit("尚未初始化任何文件夹。");
    reveal_strlit("尚未创建索引");
    reveal_strlit("索引");
    reveal_strlit("LSP 服务器");
    reveal_strlit("重启服务器");
    reveal_strlit("查看日志");
    reveal_strlit("失败");
    reveal_strlit("密钥脱敏");
    reveal_strlit("自定义密钥脱敏");
    reveal_strlit("添加正则表达式");
}

proof fn lemma_block_4_renderings_not_empty(text: Seq<char>)
    ensures
        settings_dictionary_block_4(text) matches Some(t) ==> t.len() > 0,
{
    reveal_strlit("例如 \"Google API Key\"");
    reveal_strlit("名称（可选）");
    reveal_strlit("正则表达式");
    reveal_strlit("添加正则");
    reveal_strlit("无效正则");
    reveal_strlit("遥测");
    reveal_strlit("数据管理");
    reveal_strlit("隐私政策");
    reveal_strlit("您的组织尚未配置企业正则表达式。");
    reveal_strlit("ZDR");
    reveal_strlit("注册");
    reveal_strlit("模型");
    reveal_strlit("智能体");
    reveal_strlit("权限");
    reveal_strlit("无");
    reveal_strlit("专属主题");
    reveal_strlit("键帽和贴纸");
    reveal_strlit("T 恤");
    reveal_strlit("笔记本");
    reveal_strlit("棒球帽");
    reveal_strlit("连帽衫");
    reveal_strlit("高级保温瓶");
    reveal_strlit("背包");
    reveal_strlit("免费");
    reveal_strlit("比较方案");
    reveal_strlit("已是最新");
    reveal_strlit("版本");
    reveal_strlit("退出登录");
    reveal_strlit("联系支持");
    reveal_strlit("管理账单");
    reveal_strlit("检查更新");
    reveal_strlit("重启 Warp");
    reveal_strlit("有可用更新");
    reveal_strlit("正在更新");
    reveal_strlit("已安装更新");
    reveal_strlit("手动更新");
    reveal_strlit("设置同步");
    reveal_strlit("概览");
    reveal_strlit("用量历史");
    reveal_strlit("查看超额用量详情");
    reveal_strlit("启用高级模型超额用量");
    reveal_strlit("高级模型超额用量已启用");
    reveal_strlit("高级模型超额用量未启用");
    reveal_strlit("A 到 Z");
    reveal_strlit("Z 到 A");
    reveal_strlit("用量升序");
    reveal_strlit("用量降序");
    reveal_strlit("一次性购买");
    reveal_strlit("总超额用量");
}

proof fn lemma_block_5_renderings_not_empty(text: Seq<char>)
    ensures
        settings_dictionary_block_5(text) matches Some(t) ==> t.len() > 0,
{
    reveal_strlit("最近 30 天");
    reveal_strlit("暂无用量历史");
    reveal_strlit("排序方式");
    reveal_strlit("无限制");
    reveal_strlit("额度");
    reveal_strlit("Warp 智能体");
    reveal_strlit("要使用 AI 功能，请先创建账户。");
    reveal_strlit("下一条命令");
    reveal_strlit("提示词建议");
    reveal_strlit("建议代码横幅");
    reveal_strlit("自然语言自动建议");
    reveal_strlit("共享块标题生成");
    reveal_strlit("提交和拉取请求生成");
    reveal_strlit("配置");
    reveal_strlit("上下文窗口（Token）");
    reveal_strlit("工具栏布局");
    reveal_strlit("只读");
    reveal_strlit("受监督");
    reveal_strlit("允许在特定目录中使用");
    reveal_strlit("添加配置");
    reveal_strlit("在提示词中显示模型选择器");
    reveal_strlit("因账单问题受限");
    reveal_strlit("例如 ~/code-repos/repo");
    reveal_strlit("命令，用逗号分隔");
    reveal_strlit("例如 ls .*");
    reveal_strlit("例如 rm .*");
    reveal_strlit("选择 MCP 服务器");
    reveal_strlit("智能体决定");
    reveal_strlit("始终允许");
    reveal_strlit("始终询问");
    reveal_strlit("首次写入时询问");
    reveal_strlit("从不询问");
    reveal_strlit("除非自动批准否则询问");
    reveal_strlit("开启");
    reveal_strlit("关闭");
    reveal_strlit("让 AI 根据您的命令历史、输出和常见工作流建议下一条运行的命令。");
    reveal_strlit("让 AI 根据最近的命令及其输出，在输入框中以行内横幅的形式建议自然语言提示词。");
    reveal_strlit("让 AI 根据最近的命令及其输出，在块列表中以行内横幅的形式建议代码差异和查询。");
    reveal_strlit("让 AI 根据最近的命令及其输出，提供自然语言自动建议。");
    reveal_strlit("让 AI 根据命令和输出为您的共享块生成标题。");
    reveal_strlit("让 AI 生成提交信息以及拉取请求的标题和描述。");
    reveal_strlit("为您的智能体设定操作边界。选择它可以访问的内容、它拥有的自主程度以及何时必须征得您的批准。您还可以微调有关自然语言输入、代码库感知等方面的行为。");
    reveal_strlit("配置允许您定义智能体的操作方式——从它可以采取的操作和何时需要批准，到它用于编码和规划等任务的模型。您还可以将它们的应用范围限制在单个项目。");
    reveal_strlit("该模型作为 Warp 智能体背后的主要引擎。它驱动大多数交互，并在必要时调用其他模型来执行规划或代码生成等任务。Warp 可能会根据模型可用性或会话摘要等辅助任务自动切换到备选模型。");
    reveal_strlit("应用代码差异");
    reveal_strlit("读取文件");
    reveal_strlit("执行命令");
    reveal_strlit("与运行中的命令交互");
    reveal_strlit("调用 MCP 服务器");
    reveal_strlit("您的某些权限由您的工作空间管理。");
}

proof fn lemma_block_6_renderings_not_empty(text: Seq<char>)
    ensures
        settings_dictionary_block_6(text) matches Some(t) ==> t.len() > 0,
{
    reveal_strlit("允许 Warp 智能体生成代码库的大纲，以便用作上下文。我们的服务器上不会存储任何代码。");
    reveal_strlit("您尚未添加任何 MCP 服务器。添加后，您将能够控制 Warp 智能体在与其交互时的自主程度。");
    reveal_strlit("添加服务器");
    reveal_strlit(" 或 ");
    reveal_strlit("了解有关 MCP 的更多信息。");
    reveal_strlit("MCP 白名单");
    reveal_strlit("允许 Warp 智能体调用这些 MCP 服务器。");
    reveal_strlit("MCP 黑名单");
    reveal_strlit("在调用此列表中的任何 MCP 服务器之前，Warp 智能体将始终请求许可。");
    reveal_strlit("命令黑名单");
    reveal_strlit("匹配 Warp 智能体执行前应始终请求许可的命令的正则表达式。");
    reveal_strlit("命令白名单");
    reveal_strlit("匹配可由 Warp 智能体自动执行的命令的正则表达式。");
    reveal_strlit("目录白名单");
    reveal_strlit("授予智能体对某些目录的文件访问权限。");
    reveal_strlit("按名称或按键搜索（例如 \"cmd d\"）");
    reveal_strlit("由于您是在账单周期中途加入，额度会按比例折算。");
    reveal_strlit("由于该用户是在账单周期中途加入，额度会按比例折算。");
    reveal_strlit("团队");
    reveal_strlit("团队名称");
    reveal_strlit("团队成员");
    reveal_strlit("通过链接邀请");
    reveal_strlit("通过邮箱邀请");
    reveal_strlit("按域名限制");
    reveal_strlit("允许发现团队");
    reveal_strlit("创建团队");
    reveal_strlit("或者，加入您公司内现有的团队");
    reveal_strlit("离开团队");
    reveal_strlit("删除团队");
    reveal_strlit("创建");
    reveal_strlit("转让团队所有权？");
    reveal_strlit("取消邀请");
    reveal_strlit("转让所有权");
    reveal_strlit("转让");
    reveal_strlit("取消管理员身份");
    reveal_strlit("提升为管理员");
    reveal_strlit("从团队移除");
    reveal_strlit("移除域名");
    reveal_strlit("重置链接");
    reveal_strlit("逾期");
    reveal_strlit("未付款");
    reveal_strlit("已过期");
    reveal_strlit("待处理");
    reveal_strlit("所有者");
    reveal_strlit("管理员");
    reveal_strlit("管理方案");
}

proof fn lemma_block_7_renderings_not_empty(text: Seq<char>)
    ensures
        settings_dictionary_block_7(text) matches Some(t) ==> t.len() > 0,
{
    reveal_strlit("打开管理面板");
    reveal_strlit("升级到 Build");
    reveal_strlit("升级到 Turbo 方案");
    reveal_strlit("升级到 Lightspeed 方案");
    reveal_strlit("免费方案用量限制");
    reveal_strlit("方案用量限制");
    reveal_strlit("共享笔记本");
    reveal_strlit("共享工作流");
    reveal_strlit("加入");
    reveal_strlit("1 位队友");
    reveal_strlit("域名，用逗号分隔");
    reveal_strlit("邮箱地址，用逗号分隔");
    reveal_strlit("设置");
    reveal_strlit("邀请");
    reveal_strlit("您的新团队名称");
    reveal_strlit("联系管理员申请访问权限");
    reveal_strlit("您似乎处于离线状态。");
    reveal_strlit("无法加载邀请链接。");
    reveal_strlit("加入此团队，开始协作处理工作流、笔记本等内容。");
    reveal_strlit("允许与您使用相同邮箱域名的 Warp 用户发现并加入此团队。");
    reveal_strlit("复制链接");
    reveal_strlit("取消共享");
    reveal_strlit("发送");
    reveal_strlit("正在发送");
    reveal_strlit("正在加载");
    reveal_strlit("链接已复制");
    reveal_strlit("此快捷键与其他键绑定冲突");
    reveal_strlit("键盘快捷键不会同步到云端");
    reveal_strlit("子 Shell");
    reveal_strlit("SSH");
    reveal_strlit("第三方 CLI 智能体");
    reveal_strlit("启用工具栏的命令");
    reveal_strlit(" 以获得更多 AI 用量。");
    reveal_strlit(" 以使用您自己的 API 密钥。");
    reveal_strlit("检测结果不正确？");
    reveal_strlit("显示编码智能体工具栏");
    reveal_strlit("运行 ");
    reveal_strlit("、");
    reveal_strlit(" 或 ");
    reveal_strlit(" 等编码智能体时，显示带快捷操作的工具栏。");
    reveal_strlit("根据智能体状态自动显示/隐藏富输入");
    reveal_strlit("需要为您的编码智能体安装 Warp 插件");
    reveal_strlit("编码智能体会话开始时自动打开富输入");
    reveal_strlit("提交提示词后自动关闭富输入");
    reveal_strlit("单词界定字符");
    reveal_strlit("新窗口");
    reveal_strlit("新标签页");
    reveal_strlit("分屏");
    reveal_strlit("取消共享块");
}

proof fn lemma_block_8_renderings_not_empty(text: Seq<char>)
    ensures
        settings_dictionary_block_8(text) matches Some(t) ==> t.len() > 0,
{
    reveal_strlit("可用标签");
    reveal_strlit("恢复默认");
    reveal_strlit("左侧");
    reveal_strlit("右侧");
    reveal_strlit("保存更改");
    reveal_strlit("上下文标签");
    reveal_strlit("模型选择器");
    reveal_strlit("自动检测");
    reveal_strlit("语音输入");
    reveal_strlit("附加文件");
    reveal_strlit("上下文用量");
    reveal_strlit("文件浏览器");
    reveal_strlit("富输入");
    reveal_strlit("设置");
    reveal_strlit("快速前进");
    reveal_strlit("移交到云端");
    reveal_strlit("当活动面板包含远程会话内容时，您的组织不允许使用 AI");
    reveal_strlit("aws login");
    reveal_strlit("default");
    reveal_strlit("命令（支持正则表达式）");
    reveal_strlit("主机（支持正则表达式）");
    reveal_strlit("打开设置文件");
    reveal_strlit("复制链接");
    reveal_strlit("正在删除");
    reveal_strlit("正在删除...");
    reveal_strlit("正在获取共享块...");
    reveal_strlit("加载共享块失败。请重试。");
    reveal_strlit("您还没有任何共享块。");
    reveal_strlit("Warp Drive 是终端中的工作空间，可保存工作流、笔记本、提示词和环境变量，供个人使用或与团队共享。");
    reveal_strlit("例如 cd my-repo && pip install -r requirements.txt");
    reveal_strlit("与团队共享");
    reveal_strlit("添加 MCP 服务器以扩展 Warp 智能体的功能。MCP 服务器通过标准化接口向智能体公开数据源或工具，本质上充当插件。您可以添加自定义服务器，或使用预设快速上手热门服务器。您还可以在此找到团队共享给您的服务器。");
    reveal_strlit("添加 MCP 服务器后，将在此处显示。");
    reveal_strlit("未找到搜索结果");
    reveal_strlit("添加");
    reveal_strlit("可安装");
    reveal_strlit("自动启动第三方智能体的服务器");
    reveal_strlit("自动检测并启动来自全局第三方 AI 智能体配置文件（例如主目录中）的 MCP 服务器。在仓库中检测到的服务器不会自动启动，必须在下方的\u{201c}检测来源\u{201d}部分中单独启用。");
    reveal_strlit("查看支持的提供商。");
    reveal_strlit("了解更多。");
    reveal_strlit("我的 MCP");
    reveal_strlit("从 Warp 共享");
    reveal_strlit("由 Warp 和");
    reveal_strlit("由 Warp 共享及来自其他设备");
    reveal_strlit("检测来源");
    reveal_strlit("全局");
    reveal_strlit("从配置文件检测");
    reveal_strlit("由团队成员共享");
    reveal_strlit("来自其他设备");
}

proof fn lemma_block_9_renderings_not_empty(text: Seq<char>)
    ensures
        settings_dictionary_block_9(text) matches Some(t) ==> t.len() > 0,
{
    reveal_strlit("共享者");
    reveal_strlit("MCP 服务器已更新");
    reveal_strlit("编辑变量");
    reveal_strlit("删除 MCP");
    reveal_strlit("只有团队管理员和 MCP 服务器的创建者才能编辑该服务器。");
    reveal_strlit("添加新 MCP 服务器");
    reveal_strlit("编辑 MCP 服务器");
    reveal_strlit("JSON");
    reveal_strlit("此 MCP 服务器包含密钥。请前往设置 > 隐私 修改密钥脱敏设置。");
    reveal_strlit("未指定 MCP 服务器。");
    reveal_strlit("编辑单个服务器时不能添加多个 MCP 服务器。");
    reveal_strlit("删除 MCP 服务器？");
    reveal_strlit("这将从您所有设备上卸载并移除此 MCP 服务器。");
    reveal_strlit("删除共享 MCP 服务器？");
    reveal_strlit("这不仅会为您删除此 MCP 服务器，还会从 Warp 及所有队友的设备上卸载并移除此服务器。");
    reveal_strlit("从团队中移除共享 MCP 服务器？");
    reveal_strlit("这将从 Warp 及所有队友的设备上卸载并移除此 MCP 服务器。");
    reveal_strlit("离线");
    reveal_strlit("正在启动服务器...");
    reveal_strlit("正在认证...");
    reveal_strlit("正在关闭...");
    reveal_strlit("没有可用工具");
    reveal_strlit("显示日志");
    reveal_strlit("共享服务器");
    reveal_strlit("编辑");
    reveal_strlit("服务器有可用更新");
    reveal_strlit("服务器");
    reveal_strlit("没有可用更新");
    reveal_strlit("其他设备");
    reveal_strlit("团队成员");
    reveal_strlit("此服务器有");
    reveal_strlit("个更新可用，您想继续哪个？");
    reveal_strlit("从团队共享");
    reveal_strlit("安装");
    reveal_strlit("未选择 MCP 服务器");
    reveal_strlit("自动");
    reveal_strlit("基础模型：");
    reveal_strlit("完整终端使用：");
    reveal_strlit("计算机使用：");
    reveal_strlit("应用代码差异：");
    reveal_strlit("读取文件：");
    reveal_strlit("执行命令：");
    reveal_strlit("与运行中的命令交互：");
    reveal_strlit("提问：");
    reveal_strlit("调用 MCP 服务器：");
    reveal_strlit("调用 Web 工具：");
    reveal_strlit("自动同步计划到 Warp Drive：");
    reveal_strlit("未知");
    reveal_strlit("目录白名单：");
    reveal_strlit("命令白名单：");
}

proof fn lemma_block_10_renderings_not_empty(text: Seq<char>)
    ensures
        settings_dictionary_block_10(text) matches Some(t) ==> t.len() > 0,
{
    reveal_strlit("命令黑名单：");
    reveal_strlit("MCP 白名单：");
    reveal_strlit("MCP 黑名单：");
    reveal_strlit("链接");
    reveal_strlit("邮箱");
    reveal_strlit("您的邀请已发送！");
    reveal_strlit("链接已复制到剪贴板！");
    reveal_strlit("已成功加入团队");
    reveal_strlit("加入团队失败");
    reveal_strlit("已成功转让团队所有权");
    reveal_strlit("转让团队所有权失败");
    reveal_strlit("已成功更新团队成员角色");
    reveal_strlit("更新团队成员角色失败");
    reveal_strlit("离开团队时出错");
    reveal_strlit("已成功离开团队");
    reveal_strlit("已成功重命名团队");
    reveal_strlit("重命名团队失败");
    reveal_strlit("发送邀请失败");
    reveal_strlit("邀请链接已切换");
    reveal_strlit("切换邀请链接失败");
    reveal_strlit("邀请链接已重置");
    reveal_strlit("重置邀请链接失败");
    reveal_strlit("邀请已删除");
    reveal_strlit("删除邀请失败");
    reveal_strlit("添加域名限制失败");
    reveal_strlit("删除域名限制失败");
    reveal_strlit("生成升级链接失败。请通过 feedback@warp.dev 联系我们");
    reveal_strlit("生成账单链接失败。请通过 feedback@warp.dev 联系我们");
    reveal_strlit("团队可发现性已切换");
    reveal_strlit("切换团队可发现性失败");
    reveal_strlit("无效域名：{}");
    reveal_strlit("已添加域名限制：{}");
    reveal_strlit("无效邮箱：{}");
    reveal_strlit("删除环境");
    reveal_strlit("您确定要删除 {} 环境吗？");
    reveal_strlit("删除环境？");
    reveal_strlit("+ 添加目录…");
    reveal_strlit("添加目录颜色");
    reveal_strlit("添加仓库");
    reveal_strlit("创建环境");
    reveal_strlit("已选仓库");
    reveal_strlit("尚未选择仓库");
    reveal_strlit("（未知）");
    reveal_strlit("可用的已索引仓库");
    reveal_strlit("正在加载本地已索引仓库…");
    reveal_strlit("尚未找到本地已索引仓库。请先索引一个仓库，然后重试。");
    reveal_strlit("此版本不支持本地仓库选择。");
    reveal_strlit("所有本地已索引仓库均已选中。");
    reveal_strlit("所选文件夹不是 Git 仓库");
    reveal_strlit("未选择目录");
}

proof fn lemma_block_11_renderings_not_empty(text: Seq<char>)
    ensures
        settings_dictionary_block_11(text) matches Some(t) ==> t.len() > 0,
{
    reveal_strlit("选择本地已索引仓库，为环境创建智能体提供上下文。");
    reveal_strlit("选择仓库，为环境创建智能体提供上下文。");
    reveal_strlit("为您的环境选择仓库");
    reveal_strlit("已成功退出");
    reveal_strlit("已成功退出 MCP 服务器");
    reveal_strlit("请先完成当前的 MCP 安装，再打开其他安装链接。");
    reveal_strlit("未知的 MCP 服务器");
    reveal_strlit("无法通过此链接安装。");
    reveal_strlit("MCP 服务器");
    reveal_strlit("个工具可用");
    reveal_strlit("更新来源");
    reveal_strlit("更新");
    reveal_strlit("新建环境");
    reveal_strlit("环境");
    reveal_strlit("环境定义了您的智能体运行的位置。通过 GitHub（推荐）、Warp 辅助设置或手动配置，几分钟即可完成设置。");
    reveal_strlit("搜索环境...");
    reveal_strlit("没有匹配的环境。");
    reveal_strlit("由 Warp 和您的团队共享");
    reveal_strlit("加载中...");
    reveal_strlit("重试");
    reveal_strlit("授权");
    reveal_strlit("开始");
    reveal_strlit("启动智能体");
    reveal_strlit("快速设置");
    reveal_strlit("推荐");
    reveal_strlit("选择您想要使用的 GitHub 仓库，我们将为您推荐基础镜像和配置");
    reveal_strlit("使用智能体");
    reveal_strlit("选择一个本地项目，我们将帮助您基于此设置环境");
    reveal_strlit("您尚未设置任何环境。");
    reveal_strlit("选择您希望如何设置环境：");
    reveal_strlit("输入仓库（owner/repo 格式）");
    reveal_strlit("粘贴仓库 URL");
    reveal_strlit("API 密钥已删除");
    reveal_strlit(" 以恢复 AI 功能访问。");
    reveal_strlit(" 以获得更多 AI 额度。");
    reveal_strlit(" 以获得自定义限额和专属支持。");
    reveal_strlit("查看我的运行记录");
    reveal_strlit("共享");
    reveal_strlit("最后使用：从未");
    reveal_strlit("环境更新成功");
    reveal_strlit("环境创建成功");
    reveal_strlit("环境删除成功");
    reveal_strlit("环境共享成功");
    reveal_strlit("与团队共享环境失败");
    reveal_strlit("无法创建环境：未登录。");
    reveal_strlit("无法保存：环境已不存在。");
    reveal_strlit("无法共享环境：您当前未加入任何团队。");
}

proof fn lemma_block_12_renderings_not_empty(text: Seq<char>)
    ensures
        settings_dictionary_block_12(text) matches Some(t) ==> t.len() > 0,
{
    reveal_strlit("无法共享环境：环境尚未同步。");
    reveal_strlit("由 Warp 和 ");
    reveal_strlit("环境 ID：");
    reveal_strlit("镜像：");
    reveal_strlit("仓库：");
    reveal_strlit("设置命令：");
    reveal_strlit("最后编辑：");
    reveal_strlit("最后使用：");
    reveal_strlit("启用");
    reveal_strlit("Base URL");
    reveal_strlit("模型");
    reveal_strlit("API 密钥");
    reveal_strlit("启用本地 AI Provider，将智能体请求路由到自定义 OpenAI 兼容端点。");
    reveal_strlit("OpenAI 兼容 API 端点的 Base URL。请在 settings.toml 中编辑。");
    reveal_strlit("OpenAI 兼容 API 端点的 Base URL。");
    reveal_strlit("用于 API 请求的模型名称（例如 gpt-4、mimo-v2.5）。请在 settings.toml 中编辑。");
    reveal_strlit("用于 API 请求的模型名称（例如 gpt-4、mimo-v2.5）。");
    reveal_strlit("用于认证的 API 密钥。如不需要密钥请留空。请在 settings.toml 中编辑。");
    reveal_strlit("用于认证的 API 密钥。如不需要密钥请留空。");
    reveal_strlit("（未设置）");
    reveal_strlit("规则帮助 Warp 智能体遵循您的规范，无论是代码库还是特定工作流。");
    reveal_strlit("了解更多");
    reveal_strlit("自动打开代码审查面板");
    reveal_strlit("启用后，代码审查面板将在会话中第一个被接受的差异时自动打开");
    reveal_strlit("显示代码审查按钮");
    reveal_strlit("在窗口右上角显示一个按钮，用于切换代码审查面板。");
    reveal_strlit("在代码审查按钮上显示差异统计");
    reveal_strlit("在代码审查按钮上显示添加和删除的行数。");
    reveal_strlit("项目浏览器");
    reveal_strlit("在左侧工具面板添加 IDE 风格的项目浏览器/文件树。");
    reveal_strlit("全局文件搜索");
    reveal_strlit("在左侧工具面板添加全局文件搜索。");
    reveal_strlit("默认在 Warp 的 Markdown 查看器中打开 Markdown 文件");
    reveal_strlit("索引新文件夹");
    reveal_strlit("打开项目规则");
    reveal_strlit("已发现 {total_nodes} 个代码块");
    reveal_strlit("同步中 - {completed_nodes} / {total_nodes}");
    reveal_strlit("同步中...");
    reveal_strlit("已同步");
    reveal_strlit("代码库过大");
    reveal_strlit("已过时");
    reveal_strlit("尚未构建索引");
    reveal_strlit("已安装");
    reveal_strlit("安装中...");
    reveal_strlit("检查中...");
    reveal_strlit("可下载");
    reveal_strlit("可用");
    reveal_strlit("忙碌");
    reveal_strlit("已停止");
    reveal_strlit("未运行");
}

proof fn lemma_block_13_renderings_not_empty(text: Seq<char>)
    ensures
        settings_dictionary_block_13(text) matches Some(t) ==> t.len() > 0,
{
    reveal_strlit("将文件归入单个编辑器窗格");
    reveal_strlit("启用后，在同一标签页中打开的文件将自动归入单个编辑器窗格。");
    reveal_strlit("分屏");
    reveal_strlit("新标签页");
    reveal_strlit("默认应用");
    reveal_strlit("选择打开文件链接的编辑器");
    reveal_strlit("选择从代码审查面板、项目浏览器和全局搜索打开文件时使用的编辑器");
    reveal_strlit("选择在 Warp 中打开文件的布局");
    reveal_strlit("更新您的付款信息");
    reveal_strlit("全屏应用");
    reveal_strlit("创建您自己的自定义主题");
    reveal_strlit("当前主题");
    reveal_strlit("当系统切换时自动在浅色和深色主题之间切换。");
    reveal_strlit("自定义应用图标");
    reveal_strlit("更改应用图标需要将应用打包。");
    reveal_strlit("以自定义大小打开新窗口");
    reveal_strlit("列");
    reveal_strlit("行");
    reveal_strlit("工具面板在各标签页间保持一致的可见性");
    reveal_strlit("输入位置");
    reveal_strlit("显示跳到底部按钮");
    reveal_strlit("显示块分隔线");
    reveal_strlit("智能体字体");
    reveal_strlit("终端字体");
    reveal_strlit("使用细笔画");
    reveal_strlit("强制最低对比度");
    reveal_strlit("在终端中显示连字");
    reveal_strlit("光标类型");
    reveal_strlit("闪烁光标");
    reveal_strlit("标签页关闭按钮位置");
    reveal_strlit("显示标签页指示器");
    reveal_strlit("新会话的默认模式");
    reveal_strlit("智能体");
    reveal_strlit("云端 Oz");
    reveal_strlit("标签配置");
    reveal_strlit("本地 Docker 沙盒");
    reveal_strlit("显示固定命令标题");
    reveal_strlit("点击链接时显示提示");
    reveal_strlit("退出或注销前显示警告");
    reveal_strlit("登录时启动 Warp（需要 macOS 13+）");
    reveal_strlit("登录时启动 Warp");
    reveal_strlit("关闭所有窗口时退出");
    reveal_strlit("更新后显示更新日志提示");
    reveal_strlit("鼠标滚轮每次滚动的行数");
    reveal_strlit("支持 1 到 20 之间的小数。");
    reveal_strlit("允许值：1-20");
    reveal_strlit("将 Warp 设为默认终端");
    reveal_strlit("Warp 已是默认终端");
    reveal_strlit("块中的最大行数");
    reveal_strlit("新会话的默认 Shell");
}

proof fn lemma_block_14_renderings_not_empty(text: Seq<char>)
    ensures
        settings_dictionary_block_14(text) matches Some(t) ==> t.len() > 0,
{
    reveal_strlit("新会话的工作目录");
    reveal_strlit("允许重新打开已关闭的会话");
    reveal_strlit("宽限期（秒）");
    reveal_strlit("高级");
    reveal_strlit("主目录");
    reveal_strlit("上一个会话的目录");
    reveal_strlit("自定义目录");
    reveal_strlit("Warpify 的 SSH 会话检测");
    reveal_strlit("tmux SSH 包装器在许多默认包装器不适用的情况下仍然有效，但可能需要您点击按钮来执行 Warpify。在新标签页中生效。");
    reveal_strlit("控制当远程主机未安装 Warp SSH 扩展时的安装行为。");
    reveal_strlit("支持的子 Shell：bash、zsh 和 fish。");
    reveal_strlit("对您的交互式 SSH 会话执行 Warpify。");
    reveal_strlit("配置 Warp 是否尝试对某些 Shell 执行\u{201c}Warpify\u{201d}（添加对块、输入模式等的支持）。");
    reveal_strlit("已添加的命令");
    reveal_strlit("已拒绝的命令");
    reveal_strlit("Warpify SSH 会话");
    reveal_strlit("安装 SSH 扩展");
    reveal_strlit("使用 Tmux Warpify");
    reveal_strlit("已拒绝的主机");
}

/// No string of the dictionary is rendered as the empty string.
pub proof fn lemma_dictionary_renderings_not_empty(text: Seq<char>)
    ensures
        settings_zh_cn_literal_text(text) matches Some(t) ==> t.len() > 0,
{
    lemma_block_0_renderings_not_empty(text);
    lemma_block_1_renderings_not_empty(text);
    lemma_block_2_renderings_not_empty(text);
    lemma_block_3_renderings_not_empty(text);
    lemma_block_4_renderings_not_empty(text);
    lemma_block_5_renderings_not_empty(text);
    lemma_block_6_renderings_not_empty(text);
    lemma_block_7_renderings_not_empty(text);
    lemma_block_8_renderings_not_empty(text);
    lemma_block_9_renderings_not_empty(text);
    lemma_block_10_renderings_not_empty(text);
    lemma_block_11_renderings_not_empty(text);
    lemma_block_12_renderings_not_empty(text);
    lemma_block_13_renderings_not_empty(text);
    lemma_block_14_renderings_not_empty(text);
}

} // verus!
