//! Keyboard and mouse input of the terminal UI: which operation a key
//! stands for in each state (the key table), and carrying it out.
//!
//! A key is first looked up by `terminal_command_of`, which holds the
//! bindings of the main loop (confirmation popup, log scrolling, the
//! instance settings page, ...); the keys it leaves go to the general
//! table `key_command_of`. The operations that need the outside world
//! (launching, refreshing, saving accounts, ...) come back as a `KeyAction`
//! for the caller to perform.
use vstd::prelude::*;
use crate::accounts::AccountType;
use crate::app_accounts::{
    AddAccountRequest, LogoutRequest, add_new_account_effect, add_char_to_add_account_field_effect,
    logout_account_effect, next_account_type_effect, next_add_account_field_effect,
    prev_account_type_effect, remove_char_from_add_account_field_effect,
    set_default_account_effect, toggle_add_account_mode_effect, toggle_password_visibility_effect,
};
use crate::app_create::{
    CreateRequest, add_char_to_version_search_effect, create_instance_effect,
    exit_version_search_effect, remove_char_from_version_search_effect,
    reset_all_filters_effect, start_version_search_effect, toggle_filter_alpha_effect,
    toggle_filter_beta_effect, toggle_filter_release_effect, toggle_filter_snapshot_effect,
};
use crate::app_instance::{
    InstanceAction, delete_instance_effect, navigate_instance_settings_effect,
    next_instance_settings_tab_effect, prev_instance_settings_tab_effect, select_item_effect,
};
use crate::app_nav::{
    next_item_effect, next_tab_effect, prev_item_effect, previous_tab_effect, set_tab_effect,
    toggle_help_popup_effect,
};
use crate::app_state::{
    App, CreateTab, InstanceSettingsTab, InstancePage, LogViews, SettingsFocus, SettingsTab, TabId,
};
use crate::text::{concat, string_pop, string_push};

verus! {

/// A key of the keyboard.
#[derive(Debug, Clone, Copy, PartialEq, Eq, Structural)]
pub enum KeyCode {
    Char(char),
    Enter,
    Esc,
    Backspace,
    Tab,
    Up,
    Down,
    Left,
    Right,
    PageUp,
    PageDown,
    Home,
    End,
    F(u8),
    Other,
}

/// A key event: the key, whether it was pressed (rather than released or
/// repeated), and the Shift and Control modifiers.
#[derive(Debug, Clone, Copy, PartialEq, Eq, Structural)]
pub struct KeyPress {
    pub code: KeyCode,
    pub pressed: bool,
    pub shift: bool,
    pub control: bool,
}

/// Mouse wheel movement.
#[derive(Debug, Clone, Copy, PartialEq, Eq, Structural)]
pub enum MouseScroll {
    Up,
    Down,
}

/// The operations that keys are bound to.
#[derive(Debug, Clone, Copy, PartialEq, Eq, Structural)]
pub enum KeyCommand {
    Ignore,
    Quit,
    ToggleHelp,
    // add-account form
    ToggleAddAccountMode,
    AddNewAccount,
    PrevAccountType,
    NextAccountType,
    RemoveAccountChar,
    NextAccountField,
    TogglePasswordVisibility,
    AddAccountChar(char),
    // navigation
    PrevItem,
    NextItem,
    PreviousTab,
    NextTab,
    SetTab(TabId),
    LaunchSelected,
    ClearLogs,
    Refresh,
    // Create tab
    ExitVersionSearch,
    PopNameChar,
    PushNameChar(char),
    FinishNameEdit,
    StartNameEdit,
    ToggleDownloadAssets,
    CreateInstance,
    NoVersions,
    RemoveSearchChar,
    AddSearchChar(char),
    ToggleSearch,
    ToggleFilterRelease,
    ToggleFilterSnapshot,
    ToggleFilterBeta,
    ToggleFilterAlpha,
    ResetFilters,
    // Accounts tab
    Logout,
    NoAccountsToLogout,
    SetDefaultAccount,
    // bindings of the main loop
    ConfirmDelete,
    CancelDelete,
    LogsUp(usize),
    LogsDown(usize),
    LogsTop,
    LogsBottom,
    LogsClearAndFollow,
    InstanceLogsUp(usize),
    InstanceLogsDown(usize),
    InstanceLogsTop,
    InstanceLogsBottom,
    AboutScrollUp(u16),
    AboutScrollDown(u16),
    StartRefresh,
    ReturnToInstances,
    NavigateSettings(i32),
    PrevSettingsTab,
    NextSettingsTab,
    SelectSettingsItem,
    FocusSettings(SettingsFocus),
    RefreshTerminal,
}

/// What the caller has to do after a key was handled.
pub enum KeyAction {
    Nothing,
    Quit,
    /// Launch the instance of that name.
    Launch(String),
    /// Reload instances (and versions, when none are loaded) now.
    Refresh,
    /// Reload instances in the background.
    StartRefresh,
    /// Clear and redraw the terminal.
    ClearTerminal,
    AddAccount(AddAccountRequest),
    CreateInstance(CreateRequest),
    Logout(LogoutRequest),
    /// Save the account with that key as the default one.
    SetDefaultAccount(String),
    Instance(InstanceAction),
    /// Delete the folder of the instance of that name.
    DeleteInstance(String),
}

/// The general key table: the operation a pressed key stands for, the
/// earlier rows taking precedence.
pub open spec fn key_command_of(a: App, k: KeyPress) -> KeyCommand {
    let tab = a.current_tab;
    let add = tab == TabId::Accounts && a.account_form.is_add_account_mode;
    let editing = tab == TabId::Create && a.create.is_editing_name;
    let create = tab == TabId::Create;
    let elyby = a.account_form.new_account_type == AccountType::ElyBy;
    let code = k.code;
    let ch = |c: char| code == KeyCode::Char(c);
    if !k.pressed {
        KeyCommand::Ignore
    } else if a.show_help_popup {
        if ch('q') || code == KeyCode::Esc || ch('?') {
            KeyCommand::ToggleHelp
        } else {
            KeyCommand::Ignore
        }
    } else if add && code == KeyCode::Esc {
        KeyCommand::ToggleAddAccountMode
    } else if add && code == KeyCode::Enter {
        KeyCommand::AddNewAccount
    } else if add && code == KeyCode::Up {
        KeyCommand::PrevAccountType
    } else if add && code == KeyCode::Down {
        KeyCommand::NextAccountType
    } else if add && code == KeyCode::Backspace {
        KeyCommand::RemoveAccountChar
    } else if add && code == KeyCode::Tab {
        if elyby {
            KeyCommand::NextAccountField
        } else {
            KeyCommand::Ignore
        }
    } else if add && ch('p') {
        if elyby {
            KeyCommand::TogglePasswordVisibility
        } else {
            KeyCommand::AddAccountChar('p')
        }
    } else if add && code is Char {
        KeyCommand::AddAccountChar(code->Char_0)
    } else if (ch('q') || code == KeyCode::Esc) && !editing {
        if create && a.create.version_search_active {
            KeyCommand::ExitVersionSearch
        } else {
            KeyCommand::Quit
        }
    } else if (code == KeyCode::Up || ch('k')) && !editing {
        KeyCommand::PrevItem
    } else if (code == KeyCode::Down || ch('j')) && !editing {
        KeyCommand::NextItem
    } else if (code == KeyCode::Left || ch('h')) && !editing {
        KeyCommand::PreviousTab
    } else if code == KeyCode::Right && tab != TabId::Accounts && !editing {
        KeyCommand::NextTab
    } else if code == KeyCode::Enter && k.shift {
        KeyCommand::LaunchSelected
    } else if ch('c') && tab == TabId::Logs {
        KeyCommand::ClearLogs
    } else if ch('c') && !editing {
        KeyCommand::SetTab(TabId::Create)
    } else if ch('i') && !editing {
        KeyCommand::SetTab(TabId::Instances)
    } else if ch('s') && !editing {
        KeyCommand::SetTab(TabId::Settings)
    } else if ch('a') && !editing {
        KeyCommand::SetTab(TabId::Accounts)
    } else if ch('l') && tab != TabId::Accounts && !editing {
        KeyCommand::SetTab(TabId::Logs)
    } else if ch('?') && !editing {
        KeyCommand::ToggleHelp
    } else if code == KeyCode::F(5) {
        KeyCommand::Refresh
    } else if code == KeyCode::Backspace && editing {
        KeyCommand::PopNameChar
    } else if code is Char && editing {
        KeyCommand::PushNameChar(code->Char_0)
    } else if code == KeyCode::Esc && editing {
        KeyCommand::FinishNameEdit
    } else if ch('d') && create && !editing && k.control {
        KeyCommand::ToggleDownloadAssets
    } else if code == KeyCode::Tab && create && !editing {
        KeyCommand::ToggleDownloadAssets
    } else if code == KeyCode::Enter && create && !editing {
        if a.create.version_search_active {
            KeyCommand::CreateInstance
        } else if a.create.new_instance_name@.len() == 0 {
            KeyCommand::StartNameEdit
        } else if a.create.available_versions@.len() > 0 && !a.is_loading {
            KeyCommand::CreateInstance
        } else if a.create.available_versions@.len() == 0 {
            KeyCommand::NoVersions
        } else {
            KeyCommand::Ignore
        }
    } else if code == KeyCode::Backspace && create && !editing {
        if a.create.version_search_active {
            KeyCommand::RemoveSearchChar
        } else {
            KeyCommand::Ignore
        }
    } else if code is Char && create && !editing && a.create.version_search_active {
        KeyCommand::AddSearchChar(code->Char_0)
    } else if ch('s') && create && k.control {
        KeyCommand::ToggleSearch
    } else if code == KeyCode::F(6) && create {
        KeyCommand::ToggleFilterRelease
    } else if code == KeyCode::F(7) && create {
        KeyCommand::ToggleFilterSnapshot
    } else if code == KeyCode::F(8) && create {
        KeyCommand::ToggleFilterBeta
    } else if code == KeyCode::F(9) && create {
        KeyCommand::ToggleFilterAlpha
    } else if code == KeyCode::F(10) && create {
        KeyCommand::ResetFilters
    } else if ch('r') && create && k.control {
        KeyCommand::ToggleFilterRelease
    } else if ch('b') && create && k.control {
        KeyCommand::ToggleFilterBeta
    } else if ch('a') && create && k.control {
        KeyCommand::ToggleFilterAlpha
    } else if ch('p') && create && k.control {
        KeyCommand::ToggleFilterSnapshot
    } else if ch('0') && create && k.control {
        KeyCommand::ResetFilters
    } else if ch('l') && tab == TabId::Accounts && !a.account_form.is_add_account_mode {
        if a.account_list.accounts@.len() > 0 {
            KeyCommand::Logout
        } else {
            KeyCommand::NoAccountsToLogout
        }
    } else if ch('d') && tab == TabId::Accounts && !a.account_form.is_add_account_mode {
        KeyCommand::SetDefaultAccount
    } else {
        KeyCommand::Ignore
    }
}

/// The key table of the main loop, which comes before the general one:
/// the delete confirmation and help popups, scrolling of the launcher log,
/// of the instance log and of the About page, the instance settings page,
/// the Licenses focus, and the refresh keys.
pub open spec fn terminal_command_of(a: App, k: KeyPress) -> KeyCommand {
    let tab = a.current_tab;
    let code = k.code;
    let ch = |c: char| code == KeyCode::Char(c);
    let logs = tab == TabId::Logs;
    let ilogs = tab == TabId::InstanceSettings && a.instance_page.instance_settings_tab
        == InstanceSettingsTab::Logs;
    let isettings = tab == TabId::InstanceSettings;
    let licenses = tab == TabId::Settings && a.settings.about_selected == 4;
    if !k.pressed {
        KeyCommand::Ignore
    } else if a.instance_page.show_delete_confirm {
        if ch('y') || ch('Y') {
            KeyCommand::ConfirmDelete
        } else if ch('n') || ch('N') || code == KeyCode::Esc {
            KeyCommand::CancelDelete
        } else {
            KeyCommand::Ignore
        }
    } else if a.show_help_popup {
        if ch('q') || code == KeyCode::Esc || ch('?') {
            KeyCommand::ToggleHelp
        } else {
            KeyCommand::Ignore
        }
    } else if logs && (code == KeyCode::Up || ch('k')) {
        KeyCommand::LogsUp(1)
    } else if logs && (code == KeyCode::Down || ch('j')) {
        KeyCommand::LogsDown(1)
    } else if logs && code == KeyCode::PageUp {
        KeyCommand::LogsUp(a.logs.logs_visible_lines)
    } else if logs && code == KeyCode::PageDown {
        KeyCommand::LogsDown(a.logs.logs_visible_lines)
    } else if logs && (code == KeyCode::Home || ch('g')) {
        KeyCommand::LogsTop
    } else if logs && (code == KeyCode::End || ch('G')) {
        KeyCommand::LogsBottom
    } else if logs && ch('c') {
        KeyCommand::LogsClearAndFollow
    } else if ilogs && code == KeyCode::Up {
        KeyCommand::InstanceLogsUp(1)
    } else if ilogs && code == KeyCode::Down {
        KeyCommand::InstanceLogsDown(1)
    } else if ilogs && code == KeyCode::PageUp {
        KeyCommand::InstanceLogsUp(a.logs.instance_logs_visible_lines)
    } else if ilogs && code == KeyCode::PageDown {
        KeyCommand::InstanceLogsDown(a.logs.instance_logs_visible_lines)
    } else if ilogs && code == KeyCode::Home {
        KeyCommand::InstanceLogsTop
    } else if ilogs && code == KeyCode::End {
        KeyCommand::InstanceLogsBottom
    } else if tab == TabId::Settings && code == KeyCode::PageUp {
        KeyCommand::AboutScrollUp(8)
    } else if tab == TabId::Settings && code == KeyCode::PageDown {
        KeyCommand::AboutScrollDown(8)
    } else if code == KeyCode::F(5) {
        KeyCommand::StartRefresh
    } else if isettings && code == KeyCode::Esc {
        KeyCommand::ReturnToInstances
    } else if isettings && (code == KeyCode::Up || ch('k')) {
        KeyCommand::NavigateSettings(-1i32)
    } else if isettings && (code == KeyCode::Down || ch('j')) {
        KeyCommand::NavigateSettings(1i32)
    } else if isettings && (code == KeyCode::Left || ch('h')) {
        KeyCommand::PrevSettingsTab
    } else if isettings && code == KeyCode::Right {
        KeyCommand::NextSettingsTab
    } else if isettings && code == KeyCode::Enter {
        KeyCommand::SelectSettingsItem
    } else if licenses && (code == KeyCode::Left || ch('h')) {
        KeyCommand::FocusSettings(SettingsFocus::Left)
    } else if licenses && (code == KeyCode::Right || code == KeyCode::Enter) {
        KeyCommand::FocusSettings(SettingsFocus::Middle)
    } else if code == KeyCode::F(12) {
        KeyCommand::RefreshTerminal
    } else {
        key_command_of(a, k)
    }
}

/// What an operation needs of the state to be carried out without a
/// panic: a selection within its list, an index that fits an `i32` step.
pub open spec fn command_ready(a: App, c: KeyCommand) -> bool {
    match c {
        KeyCommand::SetDefaultAccount => a.account_list.accounts@.len() > 0
            ==> a.account_list.selected_account < a.account_list.accounts@.len(),
        KeyCommand::CreateInstance => crate::app_create::creates_from_selection(a)
            ==> a.create.selected_filtered_version < a.create.filtered_versions@.len(),
        KeyCommand::NavigateSettings(d) => i32::MIN <= (a.instance_page.instance_settings_selected
            as i32) as int + d as int <= i32::MAX,
        KeyCommand::ConfirmDelete => a.instance_page.instance_settings_instance matches Some(i)
            ==> i < a.instance_list.instances@.len(),
        _ => true,
    }
}

/// The status line after the download-assets option was switched.
pub open spec fn download_assets_message(on: bool) -> Seq<char> {
    if on {
        "✅ Download assets enabled (sound/music will be available)"@
    } else {
        "⚠️  Download assets disabled (faster creation, no sound/music)"@
    }
}

/// `App` with only the status line replaced.
pub open spec fn with_status(a: App, msg: Seq<char>, n: App) -> bool {
    n == (App { status_message: n.status_message, ..a }) && n.status_message@ == msg
}

/// `x + d`, saturating at the largest `usize`.
pub open spec fn sat_add(x: usize, d: usize) -> usize {
    if x + d > usize::MAX {
        usize::MAX
    } else {
        (x + d) as usize
    }
}

/// `x - d`, saturating at zero.
pub open spec fn sat_sub(x: usize, d: usize) -> usize {
    if x < d {
        0
    } else {
        (x - d) as usize
    }
}

/// The launcher log scrolled to `offset` lines above the end; following
/// the end stops when scrolling up and resumes on reaching it.
pub open spec fn logs_at(l: LogViews, offset: usize, up: bool) -> LogViews {
    LogViews {
        logs_offset: offset,
        logs_auto_follow: if up {
            false
        } else if offset == 0 {
            true
        } else {
            l.logs_auto_follow
        },
        ..l
    }
}

/// The instance log scrolled to `offset` lines above the end (see
/// `logs_at`).
pub open spec fn instance_logs_at(l: LogViews, offset: usize, up: bool) -> LogViews {
    LogViews {
        instance_logs_offset: offset,
        instance_logs_auto_follow: if up {
            false
        } else if offset == 0 {
            true
        } else {
            l.instance_logs_auto_follow
        },
        ..l
    }
}

/// What carrying out an operation does: the state before and after, and
/// what is left for the caller.
pub open spec fn command_effect(o: App, c: KeyCommand, n: App, r: KeyAction) -> bool {
    match c {
        KeyCommand::Ignore => n == o && r is Nothing,
        KeyCommand::Quit => n == o && r is Quit,
        KeyCommand::ToggleHelp => toggle_help_popup_effect(o, n) && r is Nothing,
        KeyCommand::ToggleAddAccountMode => toggle_add_account_mode_effect(o, n) && r is Nothing,
        KeyCommand::AddNewAccount => r matches KeyAction::AddAccount(q) && add_new_account_effect(
            o,
            n,
            q,
        ),
        KeyCommand::PrevAccountType => prev_account_type_effect(o, n) && r is Nothing,
        KeyCommand::NextAccountType => next_account_type_effect(o, n) && r is Nothing,
        KeyCommand::RemoveAccountChar => remove_char_from_add_account_field_effect(o, n)
            && r is Nothing,
        KeyCommand::NextAccountField => next_add_account_field_effect(o, n) && r is Nothing,
        KeyCommand::TogglePasswordVisibility => toggle_password_visibility_effect(o, n)
            && r is Nothing,
        KeyCommand::AddAccountChar(ch) => add_char_to_add_account_field_effect(o, n, ch)
            && r is Nothing,
        KeyCommand::PrevItem => prev_item_effect(o, n) && r is Nothing,
        KeyCommand::NextItem => next_item_effect(o, n) && r is Nothing,
        KeyCommand::PreviousTab => previous_tab_effect(o, n) && r is Nothing,
        KeyCommand::NextTab => next_tab_effect(o, n) && r is Nothing,
        KeyCommand::SetTab(t) => set_tab_effect(o, n, t) && r is Nothing,
        KeyCommand::LaunchSelected => n == o && if o.instance_list.selected_instance
            < o.instance_list.instances@.len() {
            r matches KeyAction::Launch(name) && name@ == o.instance_list.instances@[
                o.instance_list.selected_instance as int].name@
        } else {
            r is Nothing
        },
        KeyCommand::ClearLogs => {
            &&& n == (App {
                logs: LogViews { game_logs: n.logs.game_logs, ..o.logs },
                status_message: n.status_message,
                ..o
            })
            &&& n.logs.game_logs@.len() == 0
            &&& n.status_message@ == "✅ Logs cleared"@
            &&& r is Nothing
        },
        KeyCommand::Refresh => n == o && r is Refresh,
        KeyCommand::ExitVersionSearch => exit_version_search_effect(o, n) && r is Nothing,
        KeyCommand::PopNameChar => {
            &&& n == (App {
                create: CreateTab { new_instance_name: n.create.new_instance_name, ..o.create },
                ..o
            })
            &&& n.create.new_instance_name@ == (if o.create.new_instance_name@.len() > 0 {
                o.create.new_instance_name@.drop_last()
            } else {
                o.create.new_instance_name@
            })
            &&& r is Nothing
        },
        KeyCommand::PushNameChar(ch) => {
            &&& n == (App {
                create: CreateTab { new_instance_name: n.create.new_instance_name, ..o.create },
                ..o
            })
            &&& n.create.new_instance_name@ == o.create.new_instance_name@.push(ch)
            &&& r is Nothing
        },
        KeyCommand::FinishNameEdit => with_status(
            App { create: CreateTab { is_editing_name: false, ..o.create }, ..o },
            "Finished editing instance name."@,
            n,
        ) && r is Nothing,
        KeyCommand::StartNameEdit => with_status(
            App { create: CreateTab { is_editing_name: true, ..o.create }, ..o },
            "Editing instance name. Press Esc to finish editing."@,
            n,
        ) && r is Nothing,
        KeyCommand::ToggleDownloadAssets => with_status(
            App {
                create: CreateTab { download_assets: !o.create.download_assets, ..o.create },
                ..o
            },
            download_assets_message(!o.create.download_assets),
            n,
        ) && r is Nothing,
        KeyCommand::CreateInstance => {
            &&& r is Nothing ==> create_instance_effect(o, n, None)
            &&& r is CreateInstance ==> create_instance_effect(o, n, Some(r->CreateInstance_0))
            &&& r is Nothing || r is CreateInstance
        },
        KeyCommand::NoVersions => with_status(
            o,
            "❌ No versions available. Press F5 to refresh."@,
            n,
        ) && r is Nothing,
        KeyCommand::RemoveSearchChar => remove_char_from_version_search_effect(o, n)
            && r is Nothing,
        KeyCommand::AddSearchChar(ch) => add_char_to_version_search_effect(o, n, ch)
            && r is Nothing,
        KeyCommand::ToggleSearch => r is Nothing && if o.create.version_search_active {
            exit_version_search_effect(o, n)
        } else {
            start_version_search_effect(o, n)
        },
        KeyCommand::ToggleFilterRelease => toggle_filter_release_effect(o, n) && r is Nothing,
        KeyCommand::ToggleFilterSnapshot => toggle_filter_snapshot_effect(o, n) && r is Nothing,
        KeyCommand::ToggleFilterBeta => toggle_filter_beta_effect(o, n) && r is Nothing,
        KeyCommand::ToggleFilterAlpha => toggle_filter_alpha_effect(o, n) && r is Nothing,
        KeyCommand::ResetFilters => reset_all_filters_effect(o, n) && r is Nothing,
        KeyCommand::Logout => {
            &&& r is Nothing ==> logout_account_effect(o, n, None)
            &&& r is Logout ==> logout_account_effect(o, n, Some(r->Logout_0))
            &&& r is Nothing || r is Logout
        },
        KeyCommand::NoAccountsToLogout => with_status(o, "No accounts to logout"@, n)
            && r is Nothing,
        KeyCommand::SetDefaultAccount => {
            &&& r is Nothing ==> set_default_account_effect(o, n, None)
            &&& r is SetDefaultAccount ==> set_default_account_effect(
                o,
                n,
                Some(r->SetDefaultAccount_0),
            )
            &&& r is Nothing || r is SetDefaultAccount
        },
        KeyCommand::ConfirmDelete => match o.instance_page.instance_settings_instance {
            None => n == (App {
                instance_page: InstancePage { show_delete_confirm: false, ..o.instance_page },
                ..o
            }) && r is Nothing,
            Some(i) => exists|m: App, ok: bool|
                {
                    &&& delete_instance_effect(
                        o,
                        m,
                        o.instance_list.instances@[i as int].name@,
                        ok,
                    )
                    &&& n == (App {
                        instance_page: InstancePage { show_delete_confirm: false, ..m.instance_page },
                        ..m
                    })
                    &&& if ok {
                        r matches KeyAction::DeleteInstance(s) && s@
                            == o.instance_list.instances@[i as int].name@
                    } else {
                        r is Nothing
                    }
                },
        },
        KeyCommand::CancelDelete => with_status(
            App {
                instance_page: InstancePage { show_delete_confirm: false, ..o.instance_page },
                ..o
            },
            "Instance deletion cancelled."@,
            n,
        ) && r is Nothing,
        KeyCommand::LogsUp(d) => n == (App {
            logs: logs_at(o.logs, sat_add(o.logs.logs_offset, d), true),
            ..o
        }) && r is Nothing,
        KeyCommand::LogsDown(d) => n == (App {
            logs: logs_at(o.logs, sat_sub(o.logs.logs_offset, d), false),
            ..o
        }) && r is Nothing,
        KeyCommand::LogsTop => n == (App {
            logs: logs_at(o.logs, o.logs.game_logs@.len() as usize, true),
            ..o
        }) && r is Nothing,
        KeyCommand::LogsBottom => n == (App { logs: logs_at(o.logs, 0, false), ..o })
            && r is Nothing,
        KeyCommand::LogsClearAndFollow => {
            &&& n == (App {
                logs: LogViews {
                    game_logs: n.logs.game_logs,
                    logs_offset: 0,
                    logs_auto_follow: true,
                    ..o.logs
                },
                ..o
            })
            &&& n.logs.game_logs@.len() == 0
            &&& r is Nothing
        },
        KeyCommand::InstanceLogsUp(d) => n == (App {
            logs: instance_logs_at(o.logs, sat_add(o.logs.instance_logs_offset, d), true),
            ..o
        }) && r is Nothing,
        KeyCommand::InstanceLogsDown(d) => n == (App {
            logs: instance_logs_at(o.logs, sat_sub(o.logs.instance_logs_offset, d), false),
            ..o
        }) && r is Nothing,
        KeyCommand::InstanceLogsTop => n == (App {
            logs: instance_logs_at(
                o.logs,
                sat_add(o.logs.instance_logs_offset, (usize::MAX / 2) as usize),
                true,
            ),
            ..o
        }) && r is Nothing,
        KeyCommand::InstanceLogsBottom => n == (App {
            logs: instance_logs_at(o.logs, 0, false),
            ..o
        }) && r is Nothing,
        KeyCommand::AboutScrollUp(d) => n == (App {
            settings: SettingsTab {
                about_scroll: if o.settings.about_scroll < d {
                    0
                } else {
                    (o.settings.about_scroll - d) as u16
                },
                ..o.settings
            },
            ..o
        }) && r is Nothing,
        KeyCommand::AboutScrollDown(d) => n == (App {
            settings: SettingsTab {
                about_scroll: if o.settings.about_scroll + d > u16::MAX {
                    u16::MAX
                } else {
                    (o.settings.about_scroll + d) as u16
                },
                ..o.settings
            },
            ..o
        }) && r is Nothing,
        KeyCommand::StartRefresh => n == o && r is StartRefresh,
        KeyCommand::ReturnToInstances => with_status(
            App { current_tab: TabId::Instances, ..o },
            "Returned to instances list"@,
            n,
        ) && r is Nothing,
        KeyCommand::NavigateSettings(d) => navigate_instance_settings_effect(o, n, d)
            && r is Nothing,
        KeyCommand::PrevSettingsTab => prev_instance_settings_tab_effect(o, n) && r is Nothing,
        KeyCommand::NextSettingsTab => next_instance_settings_tab_effect(o, n) && r is Nothing,
        KeyCommand::SelectSettingsItem => r matches KeyAction::Instance(x) && select_item_effect(
            o,
            n,
            x,
        ),
        KeyCommand::FocusSettings(f) => n == (App {
            settings: SettingsTab { settings_focus: f, ..o.settings },
            ..o
        }) && r is Nothing,
        KeyCommand::RefreshTerminal => with_status(o, "🔄 Terminal refreshed"@, n)
            && r is ClearTerminal,
    }
}

/// The character of a character key.
fn char_key(code: KeyCode) -> (r: Option<char>)
    ensures
        r == (if code is Char {
            Some(code->Char_0)
        } else {
            None::<char>
        }),
{
    match code {
        KeyCode::Char(c) => Some(c),
        _ => None,
    }
}

impl App {
    /// The operation a key stands for in the general key table.
    pub fn key_command(&self, key: KeyPress) -> (c: KeyCommand)
        ensures
            c == key_command_of(*self, key),
    {
        let tab = self.current_tab;
        let add = tab == TabId::Accounts && self.account_form.is_add_account_mode;
        let editing = tab == TabId::Create && self.create.is_editing_name;
        let create = tab == TabId::Create;
        let elyby = self.account_form.new_account_type == AccountType::ElyBy;
        let code = key.code;
        let chr = char_key(code);
        let is = |c: char| -> (b: bool)
            ensures
                b == (code == KeyCode::Char(c)),
            { code == KeyCode::Char(c) };
        if !key.pressed {
            KeyCommand::Ignore
        } else if self.show_help_popup {
            if is('q') || code == KeyCode::Esc || is('?') {
                KeyCommand::ToggleHelp
            } else {
                KeyCommand::Ignore
            }
        } else if add && code == KeyCode::Esc {
            KeyCommand::ToggleAddAccountMode
        } else if add && code == KeyCode::Enter {
            KeyCommand::AddNewAccount
        } else if add && code == KeyCode::Up {
            KeyCommand::PrevAccountType
        } else if add && code == KeyCode::Down {
            KeyCommand::NextAccountType
        } else if add && code == KeyCode::Backspace {
            KeyCommand::RemoveAccountChar
        } else if add && code == KeyCode::Tab {
            if elyby {
                KeyCommand::NextAccountField
            } else {
                KeyCommand::Ignore
            }
        } else if add && is('p') {
            if elyby {
                KeyCommand::TogglePasswordVisibility
            } else {
                KeyCommand::AddAccountChar('p')
            }
        } else if add && chr.is_some() {
            KeyCommand::AddAccountChar(chr.unwrap())
        } else if (is('q') || code == KeyCode::Esc) && !editing {
            if create && self.create.version_search_active {
                KeyCommand::ExitVersionSearch
            } else {
                KeyCommand::Quit
            }
        } else if (code == KeyCode::Up || is('k')) && !editing {
            KeyCommand::PrevItem
        } else if (code == KeyCode::Down || is('j')) && !editing {
            KeyCommand::NextItem
        } else if (code == KeyCode::Left || is('h')) && !editing {
            KeyCommand::PreviousTab
        } else if code == KeyCode::Right && tab != TabId::Accounts && !editing {
            KeyCommand::NextTab
        } else if code == KeyCode::Enter && key.shift {
            KeyCommand::LaunchSelected
        } else if is('c') && tab == TabId::Logs {
            KeyCommand::ClearLogs
        } else if is('c') && !editing {
            KeyCommand::SetTab(TabId::Create)
        } else if is('i') && !editing {
            KeyCommand::SetTab(TabId::Instances)
        } else if is('s') && !editing {
            KeyCommand::SetTab(TabId::Settings)
        } else if is('a') && !editing {
            KeyCommand::SetTab(TabId::Accounts)
        } else if is('l') && tab != TabId::Accounts && !editing {
            KeyCommand::SetTab(TabId::Logs)
        } else if is('?') && !editing {
            KeyCommand::ToggleHelp
        } else if code == KeyCode::F(5) {
            KeyCommand::Refresh
        } else if code == KeyCode::Backspace && editing {
            KeyCommand::PopNameChar
        } else if chr.is_some() && editing {
            KeyCommand::PushNameChar(chr.unwrap())
        } else if code == KeyCode::Esc && editing {
            KeyCommand::FinishNameEdit
        } else if is('d') && create && !editing && key.control {
            KeyCommand::ToggleDownloadAssets
        } else if code == KeyCode::Tab && create && !editing {
            KeyCommand::ToggleDownloadAssets
        } else if code == KeyCode::Enter && create && !editing {
            if self.create.version_search_active {
                KeyCommand::CreateInstance
            } else if self.create.new_instance_name.as_str().is_empty() {
                KeyCommand::StartNameEdit
            } else if self.create.available_versions.len() > 0 && !self.is_loading {
                KeyCommand::CreateInstance
            } else if self.create.available_versions.len() == 0 {
                KeyCommand::NoVersions
            } else {
                KeyCommand::Ignore
            }
        } else if code == KeyCode::Backspace && create && !editing {
            if self.create.version_search_active {
                KeyCommand::RemoveSearchChar
            } else {
                KeyCommand::Ignore
            }
        } else if chr.is_some() && create && !editing && self.create.version_search_active {
            KeyCommand::AddSearchChar(chr.unwrap())
        } else if is('s') && create && key.control {
            KeyCommand::ToggleSearch
        } else if code == KeyCode::F(6) && create {
            KeyCommand::ToggleFilterRelease
        } else if code == KeyCode::F(7) && create {
            KeyCommand::ToggleFilterSnapshot
        } else if code == KeyCode::F(8) && create {
            KeyCommand::ToggleFilterBeta
        } else if code == KeyCode::F(9) && create {
            KeyCommand::ToggleFilterAlpha
        } else if code == KeyCode::F(10) && create {
            KeyCommand::ResetFilters
        } else if is('r') && create && key.control {
            KeyCommand::ToggleFilterRelease
        } else if is('b') && create && key.control {
            KeyCommand::ToggleFilterBeta
        } else if is('a') && create && key.control {
            KeyCommand::ToggleFilterAlpha
        } else if is('p') && create && key.control {
            KeyCommand::ToggleFilterSnapshot
        } else if is('0') && create && key.control {
            KeyCommand::ResetFilters
        } else if is('l') && tab == TabId::Accounts && !self.account_form.is_add_account_mode {
            if self.account_list.accounts.len() > 0 {
                KeyCommand::Logout
            } else {
                KeyCommand::NoAccountsToLogout
            }
        } else if is('d') && tab == TabId::Accounts && !self.account_form.is_add_account_mode {
            KeyCommand::SetDefaultAccount
        } else {
            KeyCommand::Ignore
        }
    }

    /// The operation a key stands for in the main loop (see
    /// `terminal_command_of`).
    pub fn terminal_command(&self, key: KeyPress) -> (c: KeyCommand)
        ensures
            c == terminal_command_of(*self, key),
    {
        let tab = self.current_tab;
        let code = key.code;
        let is = |c: char| -> (b: bool)
            ensures
                b == (code == KeyCode::Char(c)),
            { code == KeyCode::Char(c) };
        let logs = tab == TabId::Logs;
        let ilogs = tab == TabId::InstanceSettings && self.instance_page.instance_settings_tab
            == InstanceSettingsTab::Logs;
        let isettings = tab == TabId::InstanceSettings;
        let licenses = tab == TabId::Settings && self.settings.about_selected
            == crate::licenses::menu_index();
        if !key.pressed {
            KeyCommand::Ignore
        } else if self.instance_page.show_delete_confirm {
            if is('y') || is('Y') {
                KeyCommand::ConfirmDelete
            } else if is('n') || is('N') || code == KeyCode::Esc {
                KeyCommand::CancelDelete
            } else {
                KeyCommand::Ignore
            }
        } else if self.show_help_popup {
            if is('q') || code == KeyCode::Esc || is('?') {
                KeyCommand::ToggleHelp
            } else {
                KeyCommand::Ignore
            }
        } else if logs && (code == KeyCode::Up || is('k')) {
            KeyCommand::LogsUp(1)
        } else if logs && (code == KeyCode::Down || is('j')) {
            KeyCommand::LogsDown(1)
        } else if logs && code == KeyCode::PageUp {
            KeyCommand::LogsUp(self.logs.logs_visible_lines)
        } else if logs && code == KeyCode::PageDown {
            KeyCommand::LogsDown(self.logs.logs_visible_lines)
        } else if logs && (code == KeyCode::Home || is('g')) {
            KeyCommand::LogsTop
        } else if logs && (code == KeyCode::End || is('G')) {
            KeyCommand::LogsBottom
        } else if logs && is('c') {
            KeyCommand::LogsClearAndFollow
        } else if ilogs && code == KeyCode::Up {
            KeyCommand::InstanceLogsUp(1)
        } else if ilogs && code == KeyCode::Down {
            KeyCommand::InstanceLogsDown(1)
        } else if ilogs && code == KeyCode::PageUp {
            KeyCommand::InstanceLogsUp(self.logs.instance_logs_visible_lines)
        } else if ilogs && code == KeyCode::PageDown {
            KeyCommand::InstanceLogsDown(self.logs.instance_logs_visible_lines)
        } else if ilogs && code == KeyCode::Home {
            KeyCommand::InstanceLogsTop
        } else if ilogs && code == KeyCode::End {
            KeyCommand::InstanceLogsBottom
        } else if tab == TabId::Settings && code == KeyCode::PageUp {
            KeyCommand::AboutScrollUp(8)
        } else if tab == TabId::Settings && code == KeyCode::PageDown {
            KeyCommand::AboutScrollDown(8)
        } else if code == KeyCode::F(5) {
            KeyCommand::StartRefresh
        } else if isettings && code == KeyCode::Esc {
            KeyCommand::ReturnToInstances
        } else if isettings && (code == KeyCode::Up || is('k')) {
            KeyCommand::NavigateSettings(-1i32)
        } else if isettings && (code == KeyCode::Down || is('j')) {
            KeyCommand::NavigateSettings(1i32)
        } else if isettings && (code == KeyCode::Left || is('h')) {
            KeyCommand::PrevSettingsTab
        } else if isettings && code == KeyCode::Right {
            KeyCommand::NextSettingsTab
        } else if isettings && code == KeyCode::Enter {
            KeyCommand::SelectSettingsItem
        } else if licenses && (code == KeyCode::Left || is('h')) {
            KeyCommand::FocusSettings(SettingsFocus::Left)
        } else if licenses && (code == KeyCode::Right || code == KeyCode::Enter) {
            KeyCommand::FocusSettings(SettingsFocus::Middle)
        } else if code == KeyCode::F(12) {
            KeyCommand::RefreshTerminal
        } else {
            self.key_command(key)
        }
    }
}


impl App {
    /// Carries out an operation of the key tables; what needs the outside
    /// world is returned.
    #[verifier::rlimit(60)]
    pub fn perform(&mut self, cmd: KeyCommand) -> (r: KeyAction)
        requires
            command_ready(*old(self), cmd),
        ensures
            command_effect(*old(self), cmd, *final(self), r),
    {
        match cmd {
            KeyCommand::Ignore => KeyAction::Nothing,
            KeyCommand::Quit => KeyAction::Quit,
            KeyCommand::ToggleHelp => {
                self.toggle_help_popup();
                KeyAction::Nothing
            },
            KeyCommand::ToggleAddAccountMode => {
                self.toggle_add_account_mode();
                KeyAction::Nothing
            },
            KeyCommand::AddNewAccount => KeyAction::AddAccount(self.add_new_account()),
            KeyCommand::PrevAccountType => {
                self.prev_account_type();
                KeyAction::Nothing
            },
            KeyCommand::NextAccountType => {
                self.next_account_type();
                KeyAction::Nothing
            },
            KeyCommand::RemoveAccountChar => {
                self.remove_char_from_add_account_field();
                KeyAction::Nothing
            },
            KeyCommand::NextAccountField => {
                self.next_add_account_field();
                KeyAction::Nothing
            },
            KeyCommand::TogglePasswordVisibility => {
                self.toggle_password_visibility();
                KeyAction::Nothing
            },
            KeyCommand::AddAccountChar(c) => {
                self.add_char_to_add_account_field(c);
                KeyAction::Nothing
            },
            KeyCommand::PrevItem => {
                self.prev_item();
                KeyAction::Nothing
            },
            KeyCommand::NextItem => {
                self.next_item();
                KeyAction::Nothing
            },
            KeyCommand::PreviousTab => {
                self.previous_tab();
                KeyAction::Nothing
            },
            KeyCommand::NextTab => {
                self.next_tab();
                KeyAction::Nothing
            },
            KeyCommand::SetTab(t) => {
                self.set_tab(t);
                KeyAction::Nothing
            },
            KeyCommand::LaunchSelected => self.launch_selected_instance(),
            KeyCommand::ClearLogs => {
                self.clear_logs();
                self.status_message = "✅ Logs cleared".to_owned();
                KeyAction::Nothing
            },
            KeyCommand::Refresh => KeyAction::Refresh,
            _ => self.perform_more(cmd),
        }
    }

    #[verifier::rlimit(60)]
    fn perform_more(&mut self, cmd: KeyCommand) -> (r: KeyAction)
        requires
            command_ready(*old(self), cmd),
            !(cmd is Ignore || cmd is Quit || cmd is ToggleHelp || cmd is ToggleAddAccountMode
                || cmd is AddNewAccount || cmd is PrevAccountType || cmd is NextAccountType
                || cmd is RemoveAccountChar || cmd is NextAccountField
                || cmd is TogglePasswordVisibility || cmd is AddAccountChar || cmd is PrevItem
                || cmd is NextItem || cmd is PreviousTab || cmd is NextTab || cmd is SetTab
                || cmd is LaunchSelected || cmd is ClearLogs || cmd is Refresh),
        ensures
            command_effect(*old(self), cmd, *final(self), r),
    {
        match cmd {
            KeyCommand::ExitVersionSearch => {
                self.exit_version_search();
                KeyAction::Nothing
            },
            KeyCommand::PopNameChar | KeyCommand::PushNameChar(_) | KeyCommand::FinishNameEdit
            | KeyCommand::StartNameEdit | KeyCommand::ToggleDownloadAssets => self.edit_create_form(
                cmd,
            ),
            KeyCommand::CreateInstance => match self.create_instance() {
                Some(req) => KeyAction::CreateInstance(req),
                None => KeyAction::Nothing,
            },
            KeyCommand::NoVersions => {
                self.set_status("❌ No versions available. Press F5 to refresh.");
                KeyAction::Nothing
            },
            KeyCommand::RemoveSearchChar => {
                self.remove_char_from_version_search();
                KeyAction::Nothing
            },
            KeyCommand::AddSearchChar(c) => {
                self.add_char_to_version_search(c);
                KeyAction::Nothing
            },
            KeyCommand::ToggleSearch => {
                if self.create.version_search_active {
                    self.exit_version_search();
                } else {
                    self.start_version_search();
                }
                KeyAction::Nothing
            },
            KeyCommand::ToggleFilterRelease => {
                self.toggle_filter_release();
                KeyAction::Nothing
            },
            KeyCommand::ToggleFilterSnapshot => {
                self.toggle_filter_snapshot();
                KeyAction::Nothing
            },
            KeyCommand::ToggleFilterBeta => {
                self.toggle_filter_beta();
                KeyAction::Nothing
            },
            KeyCommand::ToggleFilterAlpha => {
                self.toggle_filter_alpha();
                KeyAction::Nothing
            },
            KeyCommand::ResetFilters => {
                self.reset_all_filters();
                KeyAction::Nothing
            },
            _ => self.perform_account_or_loop(cmd),
        }
    }

    #[verifier::rlimit(60)]
    fn perform_account_or_loop(&mut self, cmd: KeyCommand) -> (r: KeyAction)
        requires
            command_ready(*old(self), cmd),
            !(cmd is Ignore || cmd is Quit || cmd is ToggleHelp || cmd is ToggleAddAccountMode
                || cmd is AddNewAccount || cmd is PrevAccountType || cmd is NextAccountType
                || cmd is RemoveAccountChar || cmd is NextAccountField
                || cmd is TogglePasswordVisibility || cmd is AddAccountChar || cmd is PrevItem
                || cmd is NextItem || cmd is PreviousTab || cmd is NextTab || cmd is SetTab
                || cmd is LaunchSelected || cmd is ClearLogs || cmd is Refresh
                || cmd is ExitVersionSearch || cmd is PopNameChar || cmd is PushNameChar
                || cmd is FinishNameEdit || cmd is StartNameEdit || cmd is ToggleDownloadAssets
                || cmd is CreateInstance || cmd is NoVersions || cmd is RemoveSearchChar
                || cmd is AddSearchChar || cmd is ToggleSearch || cmd is ToggleFilterRelease
                || cmd is ToggleFilterSnapshot || cmd is ToggleFilterBeta
                || cmd is ToggleFilterAlpha || cmd is ResetFilters),
        ensures
            command_effect(*old(self), cmd, *final(self), r),
    {
        match cmd {
            KeyCommand::Logout => match self.logout_account() {
                Some(req) => KeyAction::Logout(req),
                None => KeyAction::Nothing,
            },
            KeyCommand::NoAccountsToLogout => {
                self.status_message = "No accounts to logout".to_owned();
                KeyAction::Nothing
            },
            KeyCommand::SetDefaultAccount => match self.set_default_account() {
                Some(key) => KeyAction::SetDefaultAccount(key),
                None => KeyAction::Nothing,
            },
            _ => self.perform_loop_binding(cmd),
        }
    }

    #[verifier::rlimit(60)]
    fn perform_loop_binding(&mut self, cmd: KeyCommand) -> (r: KeyAction)
        requires
            command_ready(*old(self), cmd),
            cmd is ConfirmDelete || cmd is CancelDelete || cmd is LogsUp || cmd is LogsDown
                || cmd is LogsTop || cmd is LogsBottom || cmd is LogsClearAndFollow
                || cmd is InstanceLogsUp || cmd is InstanceLogsDown || cmd is InstanceLogsTop
                || cmd is InstanceLogsBottom || cmd is AboutScrollUp || cmd is AboutScrollDown
                || cmd is StartRefresh || cmd is ReturnToInstances || cmd is NavigateSettings
                || cmd is PrevSettingsTab || cmd is NextSettingsTab || cmd is SelectSettingsItem
                || cmd is FocusSettings || cmd is RefreshTerminal,
        ensures
            command_effect(*old(self), cmd, *final(self), r),
    {
        match cmd {
            KeyCommand::ConfirmDelete => {
                let mut r = KeyAction::Nothing;
                if let Some(idx) = self.instance_page.instance_settings_instance {
                    let name = self.instance_list.instances[idx].name.clone();
                    let ghost o = *self;
                    let ok = self.delete_instance(name.as_str());
                    let ghost m = *self;
                    if ok {
                        r = KeyAction::DeleteInstance(name);
                    }
                    self.instance_page.show_delete_confirm = false;
                    assert(delete_instance_effect(o, m, o.instance_list.instances@[idx as int].name@, ok));
                } else {
                    self.instance_page.show_delete_confirm = false;
                }
                r
            },
            KeyCommand::CancelDelete => {
                self.instance_page.show_delete_confirm = false;
                self.status_message = "Instance deletion cancelled.".to_owned();
                KeyAction::Nothing
            },
            KeyCommand::LogsUp(d) => {
                self.logs.logs_auto_follow = false;
                self.logs.logs_offset = self.logs.logs_offset.saturating_add(d);
                KeyAction::Nothing
            },
            KeyCommand::LogsDown(d) => {
                self.logs.logs_offset = self.logs.logs_offset.saturating_sub(d);
                if self.logs.logs_offset == 0 {
                    self.logs.logs_auto_follow = true;
                }
                KeyAction::Nothing
            },
            KeyCommand::LogsTop => {
                self.logs.logs_auto_follow = false;
                self.logs.logs_offset = self.logs.game_logs.len();
                KeyAction::Nothing
            },
            KeyCommand::LogsBottom => {
                self.logs.logs_offset = 0;
                self.logs.logs_auto_follow = true;
                KeyAction::Nothing
            },
            KeyCommand::LogsClearAndFollow => {
                self.clear_logs();
                self.logs.logs_offset = 0;
                self.logs.logs_auto_follow = true;
                KeyAction::Nothing
            },
            KeyCommand::InstanceLogsUp(d) => {
                self.logs.instance_logs_auto_follow = false;
                self.logs.instance_logs_offset = self.logs.instance_logs_offset.saturating_add(d);
                KeyAction::Nothing
            },
            KeyCommand::InstanceLogsDown(d) => {
                self.logs.instance_logs_offset = self.logs.instance_logs_offset.saturating_sub(d);
                if self.logs.instance_logs_offset == 0 {
                    self.logs.instance_logs_auto_follow = true;
                }
                KeyAction::Nothing
            },
            KeyCommand::InstanceLogsTop => {
                self.logs.instance_logs_auto_follow = false;
                self.logs.instance_logs_offset = self.logs.instance_logs_offset.saturating_add(
                    usize::MAX / 2,
                );
                KeyAction::Nothing
            },
            KeyCommand::InstanceLogsBottom => {
                self.logs.instance_logs_offset = 0;
                self.logs.instance_logs_auto_follow = true;
                KeyAction::Nothing
            },
            KeyCommand::AboutScrollUp(d) => {
                self.settings.about_scroll = self.settings.about_scroll.saturating_sub(d);
                KeyAction::Nothing
            },
            KeyCommand::AboutScrollDown(d) => {
                self.settings.about_scroll = self.settings.about_scroll.saturating_add(d);
                KeyAction::Nothing
            },
            KeyCommand::StartRefresh => KeyAction::StartRefresh,
            KeyCommand::ReturnToInstances => {
                self.current_tab = TabId::Instances;
                self.status_message = "Returned to instances list".to_owned();
                KeyAction::Nothing
            },
            KeyCommand::NavigateSettings(d) => {
                self.navigate_instance_settings(d);
                KeyAction::Nothing
            },
            KeyCommand::PrevSettingsTab => {
                self.prev_instance_settings_tab();
                KeyAction::Nothing
            },
            KeyCommand::NextSettingsTab => {
                self.next_instance_settings_tab();
                KeyAction::Nothing
            },
            KeyCommand::SelectSettingsItem => KeyAction::Instance(
                self.select_instance_settings_item(),
            ),
            KeyCommand::FocusSettings(f) => {
                self.settings.settings_focus = f;
                KeyAction::Nothing
            },
            _ => {
                self.status_message = "🔄 Terminal refreshed".to_owned();
                KeyAction::ClearTerminal
            },
        }
    }

    /// Replaces the status line.
    pub fn set_status(&mut self, msg: &str)
        ensures
            with_status(*old(self), msg@, *final(self)),
    {
        self.status_message = msg.to_owned();
    }

    /// The Create-tab form operations: the name being typed and the
    /// download-assets option.
    fn edit_create_form(&mut self, cmd: KeyCommand) -> (r: KeyAction)
        requires
            cmd is PopNameChar || cmd is PushNameChar || cmd is FinishNameEdit
                || cmd is StartNameEdit || cmd is ToggleDownloadAssets,
        ensures
            command_effect(*old(self), cmd, *final(self), r),
    {
        match cmd {
            KeyCommand::PopNameChar => {
                string_pop(&mut self.create.new_instance_name);
            },
            KeyCommand::PushNameChar(c) => {
                string_push(&mut self.create.new_instance_name, c);
            },
            KeyCommand::FinishNameEdit => {
                self.create.is_editing_name = false;
                self.set_status("Finished editing instance name.");
            },
            KeyCommand::StartNameEdit => {
                self.create.is_editing_name = true;
                self.set_status("Editing instance name. Press Esc to finish editing.");
            },
            _ => {
                self.create.download_assets = !self.create.download_assets;
                if self.create.download_assets {
                    self.set_status("✅ Download assets enabled (sound/music will be available)");
                } else {
                    self.set_status("⚠️  Download assets disabled (faster creation, no sound/music)");
                }
            },
        }
        KeyAction::Nothing
    }

    /// Clears the launcher log.
    pub fn clear_logs(&mut self)
        ensures
            *final(self) == (App {
                logs: LogViews { game_logs: final(self).logs.game_logs, ..old(self).logs },
                ..*old(self)
            }),
            final(self).logs.game_logs@.len() == 0,
    {
        self.logs.game_logs.clear();
    }

    /// Shift+Enter: asks for the selected instance to be launched, if the
    /// selection is within the list.
    pub fn launch_selected_instance(&self) -> (r: KeyAction)
        ensures
            command_effect(*self, KeyCommand::LaunchSelected, *self, r),
    {
        if self.instance_list.selected_instance < self.instance_list.instances.len() {
            KeyAction::Launch(
                self.instance_list.instances[self.instance_list.selected_instance].name.clone(),
            )
        } else {
            KeyAction::Nothing
        }
    }

    /// A key event as the general key table handles it.
    pub fn handle_key_event(&mut self, key: KeyPress) -> (r: KeyAction)
        requires
            command_ready(*old(self), key_command_of(*old(self), key)),
        ensures
            command_effect(*old(self), key_command_of(*old(self), key), *final(self), r),
    {
        let cmd = self.key_command(key);
        self.perform(cmd)
    }

    /// A key event as the main loop handles it: its own bindings first,
    /// then the general key table.
    pub fn handle_terminal_key(&mut self, key: KeyPress) -> (r: KeyAction)
        requires
            command_ready(*old(self), terminal_command_of(*old(self), key)),
        ensures
            command_effect(*old(self), terminal_command_of(*old(self), key), *final(self), r),
    {
        let cmd = self.terminal_command(key);
        self.perform(cmd)
    }

    /// The mouse wheel: scrolls the About page, the launcher log or the
    /// instance log by three lines, whichever is shown.
    pub fn handle_mouse_scroll(&mut self, s: MouseScroll)
        ensures
            *final(self) == mouse_scrolled(*old(self), s),
    {
        match s {
            MouseScroll::Up => {
                if self.current_tab == TabId::Settings {
                    self.settings.about_scroll = self.settings.about_scroll.saturating_sub(3);
                }
                if self.current_tab == TabId::Logs {
                    self.logs.logs_auto_follow = false;
                    self.logs.logs_offset = self.logs.logs_offset.saturating_add(3);
                }
                if self.current_tab == TabId::InstanceSettings
                    && self.instance_page.instance_settings_tab == InstanceSettingsTab::Logs {
                    self.logs.instance_logs_auto_follow = false;
                    self.logs.instance_logs_offset = self.logs.instance_logs_offset.saturating_add(
                        3,
                    );
                }
            },
            MouseScroll::Down => {
                if self.current_tab == TabId::Settings {
                    self.settings.about_scroll = self.settings.about_scroll.saturating_add(3);
                }
                if self.current_tab == TabId::Logs {
                    self.logs.logs_offset = self.logs.logs_offset.saturating_sub(3);
                    if self.logs.logs_offset == 0 {
                        self.logs.logs_auto_follow = true;
                    }
                }
                if self.current_tab == TabId::InstanceSettings
                    && self.instance_page.instance_settings_tab == InstanceSettingsTab::Logs {
                    self.logs.instance_logs_offset = self.logs.instance_logs_offset.saturating_sub(
                        3,
                    );
                    if self.logs.instance_logs_offset == 0 {
                        self.logs.instance_logs_auto_follow = true;
                    }
                }
            },
        }
    }
}

/// The state after a turn of the mouse wheel.
pub open spec fn mouse_scrolled(a: App, s: MouseScroll) -> App {
    let up = s is Up;
    match a.current_tab {
        TabId::Settings => App {
            settings: SettingsTab {
                about_scroll: if up {
                    if a.settings.about_scroll < 3 {
                        0
                    } else {
                        (a.settings.about_scroll - 3) as u16
                    }
                } else if a.settings.about_scroll + 3 > u16::MAX {
                    u16::MAX
                } else {
                    (a.settings.about_scroll + 3) as u16
                },
                ..a.settings
            },
            ..a
        },
        TabId::Logs => App {
            logs: logs_at(
                a.logs,
                if up {
                    sat_add(a.logs.logs_offset, 3)
                } else {
                    sat_sub(a.logs.logs_offset, 3)
                },
                up,
            ),
            ..a
        },
        TabId::InstanceSettings => if a.instance_page.instance_settings_tab
            == InstanceSettingsTab::Logs {
            App {
                logs: instance_logs_at(
                    a.logs,
                    if up {
                        sat_add(a.logs.instance_logs_offset, 3)
                    } else {
                        sat_sub(a.logs.instance_logs_offset, 3)
                    },
                    up,
                ),
                ..a
            }
        } else {
            a
        },
        _ => a,
    }
}

} // verus!
