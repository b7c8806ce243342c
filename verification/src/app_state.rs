//! The state of the terminal UI and its navigation: tabs, list selections,
//! the Settings menus and the help popup.
use vstd::prelude::*;
use crate::accounts::{Account, AccountType};
use crate::logs::InstanceLogs;
use crate::versions::ListEntry;

verus! {

/// The tabs of the TUI.
#[derive(Debug, Clone, Copy, PartialEq, Eq, Structural)]
pub enum TabId {
    Instances,
    Create,
    Settings,
    Accounts,
    Logs,
    InstanceSettings,
}

/// The tab title.
pub open spec fn tab_label(t: TabId) -> Seq<char> {
    match t {
        TabId::Instances => "Instances"@,
        TabId::Create => "Create"@,
        TabId::Settings => "Settings"@,
        TabId::Accounts => "Accounts"@,
        TabId::Logs => "Logs"@,
        TabId::InstanceSettings => "Instance Settings"@,
    }
}

impl TabId {
    /// The tab title.
    pub fn label(&self) -> (r: &'static str)
        ensures
            r@ == tab_label(*self),
    {
        match self {
            TabId::Instances => "Instances",
            TabId::Create => "Create",
            TabId::Settings => "Settings",
            TabId::Accounts => "Accounts",
            TabId::Logs => "Logs",
            TabId::InstanceSettings => "Instance Settings",
        }
    }
}

/// The field of the add-account form being typed into.
#[derive(Debug, Clone, Copy, PartialEq, Eq, Structural)]
pub enum AddAccountFieldFocus {
    Username,
    Password,
    Otp,
}

/// An installed game instance as the Instances tab lists it.
pub struct Instance {
    pub name: String,
    pub version: String,
    pub loader: String,
    pub is_running: bool,
}

/// The tabs of the instance settings page.
#[derive(Debug, Clone, Copy, PartialEq, Eq, Structural)]
pub enum InstanceSettingsTab {
    Overview,
    Mod,
    Setting,
    Logs,
}

/// The sub-pages of the instance settings "Setting" tab.
#[derive(Debug, Clone, Copy, PartialEq, Eq, Structural)]
pub enum InstanceSettingsPage {
    List,
    Java,
    Launch,
}

/// Which pane of the Settings tab has the focus.
#[derive(Debug, Clone, Copy, PartialEq, Eq, Structural)]
pub enum SettingsFocus {
    Left,
    Middle,
}

/// What the text-edit popup is editing.
#[derive(Debug, Clone, Copy, PartialEq, Eq, Structural)]
pub enum ArgsEditKind {
    Java,
    Game,
    GlobalJava,
    GlobalTuiRefreshInterval,
    GlobalWindowSize,
    WindowSize,
}

/// The installed instances and which of them is selected and running.
pub struct InstanceList {
    pub instances: Vec<Instance>,
    pub selected_instance: usize,
    /// Names of the instances whose game process is recorded.
    pub client_processes: Vec<String>,
}

/// The Create tab: the installable versions, the search over them and the
/// new instance's name and options.
pub struct CreateTab {
    pub available_versions: Vec<ListEntry>,
    pub version_search_active: bool,
    pub version_search_query: String,
    pub filtered_versions: Vec<ListEntry>,
    pub selected_filtered_version: usize,
    pub filter_release: bool,
    pub filter_snapshot: bool,
    pub filter_beta: bool,
    pub filter_alpha: bool,
    pub new_instance_name: String,
    pub is_editing_name: bool,
    pub download_assets: bool,
}

/// The configured accounts, the selected one and the default one.
pub struct AccountList {
    pub accounts: Vec<Account>,
    pub selected_account: usize,
    pub current_account: Option<String>,
}

/// The add-account form of the Accounts tab.
pub struct AccountForm {
    pub is_add_account_mode: bool,
    pub new_account_type: AccountType,
    pub new_account_username: String,
    pub new_account_password: String,
    pub selected_account_type: usize,
    pub new_account_otp: Option<String>,
    pub needs_otp: bool,
    pub show_password: bool,
    pub login_error: Option<String>,
    pub add_account_field_focus: AddAccountFieldFocus,
}

/// The launcher log and the per-instance game output, with their scroll
/// state.
pub struct LogViews {
    pub game_logs: Vec<String>,
    pub logs_offset: usize,
    pub logs_visible_lines: usize,
    pub logs_auto_follow: bool,
    pub instance_logs: InstanceLogs,
    pub instance_logs_offset: usize,
    pub instance_logs_visible_lines: usize,
    pub instance_logs_auto_follow: bool,
}

/// The settings page of one instance, with its rename and delete popups.
pub struct InstancePage {
    pub instance_settings_instance: Option<usize>,
    pub instance_settings_tab: InstanceSettingsTab,
    pub instance_settings_selected: usize,
    pub instance_settings_page: InstanceSettingsPage,
    pub show_delete_confirm: bool,
    pub is_renaming_instance: bool,
    pub rename_input: String,
}

/// The Settings tab menus.
pub struct SettingsTab {
    pub about_selected: usize,
    pub about_scroll: u16,
    pub settings_focus: SettingsFocus,
    pub license_selected: usize,
    pub tui_refresh_interval_ms: Option<u64>,
}

/// The text-edit popups: arguments, window size, refresh interval, memory.
pub struct EditPopups {
    pub is_editing_args: bool,
    pub args_edit_input: String,
    pub args_edit_kind: ArgsEditKind,
    pub is_editing_memory: bool,
    pub memory_edit_input: String,
    pub memory_edit_mb: usize,
}

/// The whole state of the terminal UI.
pub struct App {
    pub current_tab: TabId,
    pub status_message: String,
    pub should_quit: bool,
    pub is_loading: bool,
    pub show_help_popup: bool,
    pub needs_forced_refresh: bool,
    /// Whether an event channel for background work has been connected.
    pub auth_channel_ready: bool,
    pub instance_list: InstanceList,
    pub create: CreateTab,
    pub account_list: AccountList,
    pub account_form: AccountForm,
    pub logs: LogViews,
    pub instance_page: InstancePage,
    pub settings: SettingsTab,
    pub popups: EditPopups,
}

impl App {
    /// Whether the per-instance log store is well formed; every operation
    /// keeps it so.
    pub open spec fn wf(&self) -> bool {
        self.logs.instance_logs.wf()
    }
}

/// The tab that "next tab" leads to.
pub open spec fn next_tab_of(t: TabId) -> TabId {
    match t {
        TabId::Instances => TabId::Create,
        TabId::Create => TabId::Settings,
        TabId::Settings => TabId::Accounts,
        TabId::Accounts => TabId::Logs,
        TabId::Logs => TabId::Instances,
        TabId::InstanceSettings => TabId::Instances,
    }
}

/// The tab that "previous tab" leads to.
pub open spec fn prev_tab_of(t: TabId) -> TabId {
    match t {
        TabId::Instances => TabId::Logs,
        TabId::Create => TabId::Instances,
        TabId::Settings => TabId::Create,
        TabId::Accounts => TabId::Settings,
        TabId::Logs => TabId::Accounts,
        TabId::InstanceSettings => TabId::Instances,
    }
}

/// The index after `i` in a cyclic list of `n` entries.
pub open spec fn cyclic_next(i: usize, n: usize) -> usize {
    ((i + 1) % (n as int)) as usize
}

/// The index before `i` in a cyclic list of `n` entries.
pub open spec fn cyclic_prev(i: usize, n: usize) -> usize {
    if i > 0 {
        (i - 1) as usize
    } else {
        (n - 1) as usize
    }
}

/// The starting message of the TUI.
pub open spec fn welcome_message() -> Seq<char> {
    "Welcome to QuantumLauncher TUI! Press '?' for help, 'q' to quit."@
}

/// The state of a freshly started TUI, before instances and accounts are
/// loaded.
pub open spec fn is_initial_state(a: App) -> bool {
    &&& a.current_tab == TabId::Instances
    &&& a.status_message@ == welcome_message()
    &&& !a.should_quit
    &&& !a.is_loading
    &&& !a.show_help_popup
    &&& !a.needs_forced_refresh
    &&& !a.auth_channel_ready
    &&& a.instance_list.instances@.len() == 0
    &&& a.instance_list.selected_instance == 0
    &&& a.instance_list.client_processes@.len() == 0
    &&& a.create.available_versions@.len() == 0
    &&& !a.create.version_search_active
    &&& a.create.version_search_query@.len() == 0
    &&& a.create.filtered_versions@.len() == 0
    &&& a.create.selected_filtered_version == 0
    &&& a.create.filter_release && a.create.filter_snapshot && a.create.filter_beta
        && a.create.filter_alpha
    &&& a.create.new_instance_name@.len() == 0
    &&& !a.create.is_editing_name
    &&& a.create.download_assets
    &&& a.account_list.accounts@.len() == 0
    &&& a.account_list.selected_account == 0
    &&& a.account_list.current_account is None
    &&& !a.account_form.is_add_account_mode
    &&& a.account_form.new_account_type == AccountType::ElyBy
    &&& a.account_form.new_account_username@.len() == 0
    &&& a.account_form.new_account_password@.len() == 0
    &&& a.account_form.selected_account_type == 0
    &&& a.account_form.new_account_otp is None
    &&& !a.account_form.needs_otp
    &&& !a.account_form.show_password
    &&& a.account_form.login_error is None
    &&& a.account_form.add_account_field_focus == AddAccountFieldFocus::Username
    &&& a.logs.game_logs@.len() == 0
    &&& a.logs.logs_offset == 0
    &&& a.logs.logs_visible_lines == 20
    &&& a.logs.logs_auto_follow
    &&& a.logs.instance_logs.wf()
    &&& a.logs.instance_logs.view() == Map::<Seq<char>, Seq<Seq<char>>>::empty()
    &&& a.logs.instance_logs_offset == 0
    &&& a.logs.instance_logs_visible_lines == 20
    &&& a.logs.instance_logs_auto_follow
    &&& a.instance_page.instance_settings_instance is None
    &&& a.instance_page.instance_settings_tab == InstanceSettingsTab::Overview
    &&& a.instance_page.instance_settings_selected == 0
    &&& a.instance_page.instance_settings_page == InstanceSettingsPage::List
    &&& !a.instance_page.show_delete_confirm
    &&& !a.instance_page.is_renaming_instance
    &&& a.instance_page.rename_input@.len() == 0
    &&& a.settings.about_selected == 0
    &&& a.settings.about_scroll == 0
    &&& a.settings.settings_focus == SettingsFocus::Left
    &&& a.settings.license_selected == 0
    &&& a.settings.tui_refresh_interval_ms is None
    &&& !a.popups.is_editing_args
    &&& a.popups.args_edit_input@.len() == 0
    &&& a.popups.args_edit_kind == ArgsEditKind::Java
    &&& !a.popups.is_editing_memory
    &&& a.popups.memory_edit_input@.len() == 0
    &&& a.popups.memory_edit_mb == 0
}

} // verus!
