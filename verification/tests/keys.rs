use quantum_launcher::accounts::Account;
use quantum_launcher::app_accounts::AddAccountRequest;
use quantum_launcher::app_instance::InstanceAction;
use quantum_launcher::app_state::{App, Instance, InstanceSettingsTab, SettingsFocus, TabId};
use quantum_launcher::keys::{KeyAction, KeyCode, KeyCommand, KeyPress, MouseScroll};
use quantum_launcher::versions::ListEntry;

fn key(code: KeyCode) -> KeyPress {
    KeyPress { code, pressed: true, shift: false, control: false }
}

fn ch(c: char) -> KeyPress {
    key(KeyCode::Char(c))
}

fn ctrl(c: char) -> KeyPress {
    KeyPress { code: KeyCode::Char(c), pressed: true, shift: false, control: true }
}

fn instance(name: &str) -> Instance {
    Instance { name: name.to_string(), version: "1.20.1".to_string(), loader: "Vanilla".to_string(), is_running: false }
}

fn account(name: &str, kind: &str) -> Account {
    Account { username: name.to_string(), account_type: kind.to_string(), uuid: "u".to_string(), is_logged_in: true }
}

#[test]
fn released_keys_do_nothing() {
    let app = App::new();
    let k = KeyPress { code: KeyCode::Char('q'), pressed: false, shift: false, control: false };
    assert_eq!(app.key_command(k), KeyCommand::Ignore);
    assert_eq!(app.terminal_command(k), KeyCommand::Ignore);
}

#[test]
fn q_quits_and_tabs_switch() {
    let mut app = App::new();
    assert!(matches!(app.handle_key_event(ch('q')), KeyAction::Quit));
    assert!(matches!(app.handle_key_event(ch('c')), KeyAction::Nothing));
    assert_eq!(app.current_tab, TabId::Create);
    app.handle_key_event(ch('s'));
    assert_eq!(app.current_tab, TabId::Settings);
    app.handle_key_event(ch('a'));
    assert_eq!(app.current_tab, TabId::Accounts);
    // 'l' on the Accounts tab is logout, not the Logs tab.
    app.handle_key_event(ch('l'));
    assert_eq!(app.current_tab, TabId::Accounts);
    assert_eq!(app.status_message, "No accounts to logout");
    app.handle_key_event(ch('i'));
    app.handle_key_event(ch('l'));
    assert_eq!(app.current_tab, TabId::Logs);
}

#[test]
fn arrows_cycle_tabs_back_and_forth() {
    let mut app = App::new();
    for _ in 0..5 {
        app.handle_key_event(key(KeyCode::Right));
    }
    assert_eq!(app.current_tab, TabId::Accounts);
    app.current_tab = TabId::Create;
    app.handle_key_event(key(KeyCode::Right));
    assert_eq!(app.current_tab, TabId::Settings);
    app.handle_key_event(key(KeyCode::Left));
    assert_eq!(app.current_tab, TabId::Create);
}

#[test]
fn help_popup_swallows_keys() {
    let mut app = App::new();
    app.handle_terminal_key(ch('?'));
    assert!(app.show_help_popup);
    assert!(matches!(app.handle_terminal_key(ch('c')), KeyAction::Nothing));
    assert_eq!(app.current_tab, TabId::Instances);
    assert!(app.show_help_popup);
    app.handle_terminal_key(key(KeyCode::Esc));
    assert!(!app.show_help_popup);
}

#[test]
fn selection_moves_cyclically() {
    let mut app = App::new();
    app.instance_list.instances = vec![instance("a"), instance("b"), instance("c")];
    app.handle_key_event(key(KeyCode::Up));
    assert_eq!(app.instance_list.selected_instance, 2);
    app.handle_key_event(ch('j'));
    assert_eq!(app.instance_list.selected_instance, 0);
    app.handle_key_event(key(KeyCode::Down));
    assert_eq!(app.instance_list.selected_instance, 1);
}

#[test]
fn shift_enter_launches_selected_instance() {
    let mut app = App::new();
    let launch = KeyPress { code: KeyCode::Enter, pressed: true, shift: true, control: false };
    assert!(matches!(app.handle_key_event(launch), KeyAction::Nothing));
    app.instance_list.instances = vec![instance("a"), instance("b")];
    app.instance_list.selected_instance = 1;
    match app.handle_key_event(launch) {
        KeyAction::Launch(name) => assert_eq!(name, "b"),
        _ => panic!("expected a launch"),
    }
}

#[test]
fn logs_scroll_and_follow() {
    let mut app = App::new();
    app.current_tab = TabId::Logs;
    app.logs.game_logs = vec!["1".to_string(), "2".to_string(), "3".to_string()];
    app.handle_terminal_key(key(KeyCode::Up));
    assert_eq!(app.logs.logs_offset, 1);
    assert!(!app.logs.logs_auto_follow);
    app.handle_terminal_key(key(KeyCode::PageUp));
    assert_eq!(app.logs.logs_offset, 21);
    app.handle_terminal_key(key(KeyCode::PageDown));
    assert_eq!(app.logs.logs_offset, 1);
    assert!(!app.logs.logs_auto_follow);
    app.handle_terminal_key(ch('j'));
    assert_eq!(app.logs.logs_offset, 0);
    assert!(app.logs.logs_auto_follow);
    app.handle_terminal_key(ch('g'));
    assert_eq!(app.logs.logs_offset, 3);
    app.handle_terminal_key(ch('G'));
    assert_eq!(app.logs.logs_offset, 0);
    assert!(app.logs.logs_auto_follow);
    app.logs.logs_offset = usize::MAX;
    app.handle_terminal_key(ch('k'));
    assert_eq!(app.logs.logs_offset, usize::MAX);
    app.handle_terminal_key(ch('c'));
    assert!(app.logs.game_logs.is_empty());
    assert_eq!(app.logs.logs_offset, 0);
}

#[test]
fn logs_c_in_general_table_reports() {
    let mut app = App::new();
    app.current_tab = TabId::Logs;
    app.logs.game_logs = vec!["x".to_string()];
    app.handle_key_event(ch('c'));
    assert!(app.logs.game_logs.is_empty());
    assert_eq!(app.status_message, "✅ Logs cleared");
}

#[test]
fn instance_log_scrolling() {
    let mut app = App::new();
    app.current_tab = TabId::InstanceSettings;
    app.instance_page.instance_settings_tab = InstanceSettingsTab::Logs;
    app.handle_terminal_key(key(KeyCode::Home));
    assert_eq!(app.logs.instance_logs_offset, usize::MAX / 2);
    assert!(!app.logs.instance_logs_auto_follow);
    app.handle_terminal_key(key(KeyCode::End));
    assert_eq!(app.logs.instance_logs_offset, 0);
    assert!(app.logs.instance_logs_auto_follow);
}

#[test]
fn mouse_wheel_scrolls_what_is_shown() {
    let mut app = App::new();
    app.current_tab = TabId::Settings;
    app.handle_mouse_scroll(MouseScroll::Down);
    assert_eq!(app.settings.about_scroll, 3);
    app.handle_mouse_scroll(MouseScroll::Up);
    app.handle_mouse_scroll(MouseScroll::Up);
    assert_eq!(app.settings.about_scroll, 0);
    app.current_tab = TabId::Logs;
    app.handle_mouse_scroll(MouseScroll::Up);
    assert_eq!(app.logs.logs_offset, 3);
    assert!(!app.logs.logs_auto_follow);
    app.handle_mouse_scroll(MouseScroll::Down);
    assert_eq!(app.logs.logs_offset, 0);
    assert!(app.logs.logs_auto_follow);
}

#[test]
fn about_page_scrolls_by_eight() {
    let mut app = App::new();
    app.current_tab = TabId::Settings;
    app.handle_terminal_key(key(KeyCode::PageDown));
    assert_eq!(app.settings.about_scroll, 8);
    app.settings.about_scroll = u16::MAX - 2;
    app.handle_terminal_key(key(KeyCode::PageDown));
    assert_eq!(app.settings.about_scroll, u16::MAX);
}

#[test]
fn delete_confirmation() {
    let mut app = App::new();
    app.instance_list.instances = vec![instance("a"), instance("b")];
    app.instance_page.instance_settings_instance = Some(1);
    app.instance_page.show_delete_confirm = true;
    assert!(matches!(app.handle_terminal_key(ch('x')), KeyAction::Nothing));
    assert!(app.instance_page.show_delete_confirm);
    match app.handle_terminal_key(ch('Y')) {
        KeyAction::DeleteInstance(name) => assert_eq!(name, "b"),
        _ => panic!("expected a deletion"),
    }
    assert!(!app.instance_page.show_delete_confirm);
    app.instance_page.show_delete_confirm = true;
    app.instance_list.client_processes = vec!["b".to_string()];
    assert!(matches!(app.handle_terminal_key(ch('y')), KeyAction::Nothing));
    assert_eq!(app.status_message, "❌ Cannot delete 'b': instance is currently running. Stop it first.");
    app.instance_page.show_delete_confirm = true;
    app.handle_terminal_key(key(KeyCode::Esc));
    assert!(!app.instance_page.show_delete_confirm);
    assert_eq!(app.status_message, "Instance deletion cancelled.");
}

#[test]
fn instance_settings_page_keys() {
    let mut app = App::new();
    app.instance_list.instances = vec![instance("a")];
    app.instance_page.instance_settings_instance = Some(0);
    app.current_tab = TabId::InstanceSettings;
    app.handle_terminal_key(key(KeyCode::Up));
    assert_eq!(app.instance_page.instance_settings_selected, 2);
    app.handle_terminal_key(ch('j'));
    assert_eq!(app.instance_page.instance_settings_selected, 0);
    match app.handle_terminal_key(key(KeyCode::Enter)) {
        KeyAction::Instance(InstanceAction::Launch(name)) => assert_eq!(name, "a"),
        _ => panic!("expected a launch"),
    }
    assert_eq!(app.current_tab, TabId::Instances);
    app.current_tab = TabId::InstanceSettings;
    app.handle_terminal_key(key(KeyCode::Right));
    assert_eq!(app.instance_page.instance_settings_tab, InstanceSettingsTab::Mod);
    app.handle_terminal_key(ch('h'));
    assert_eq!(app.instance_page.instance_settings_tab, InstanceSettingsTab::Overview);
    app.handle_terminal_key(key(KeyCode::Esc));
    assert_eq!(app.current_tab, TabId::Instances);
    assert_eq!(app.status_message, "Returned to instances list");
}

#[test]
fn licenses_focus_and_refresh_keys() {
    let mut app = App::new();
    app.current_tab = TabId::Settings;
    app.settings.about_selected = 4;
    app.handle_terminal_key(key(KeyCode::Enter));
    assert_eq!(app.settings.settings_focus, SettingsFocus::Middle);
    app.handle_terminal_key(ch('h'));
    assert_eq!(app.settings.settings_focus, SettingsFocus::Left);
    assert!(matches!(app.handle_terminal_key(key(KeyCode::F(5))), KeyAction::StartRefresh));
    assert!(matches!(app.handle_key_event(key(KeyCode::F(5))), KeyAction::Refresh));
    assert!(matches!(app.handle_terminal_key(key(KeyCode::F(12))), KeyAction::ClearTerminal));
    assert_eq!(app.status_message, "🔄 Terminal refreshed");
}

#[test]
fn create_tab_name_editing() {
    let mut app = App::new();
    app.current_tab = TabId::Create;
    app.handle_key_event(key(KeyCode::Enter));
    assert!(app.create.is_editing_name);
    assert_eq!(app.status_message, "Editing instance name. Press Esc to finish editing.");
    for c in "my q".chars() {
        app.handle_key_event(ch(c));
    }
    assert_eq!(app.create.new_instance_name, "my q");
    app.handle_key_event(key(KeyCode::Backspace));
    assert_eq!(app.create.new_instance_name, "my ");
    app.handle_key_event(key(KeyCode::Esc));
    assert!(!app.create.is_editing_name);
    assert_eq!(app.status_message, "Finished editing instance name.");
    app.handle_key_event(key(KeyCode::Enter));
    assert_eq!(app.status_message, "❌ No versions available. Press F5 to refresh.");
}

#[test]
fn create_tab_download_assets_and_create() {
    let mut app = App::new();
    app.current_tab = TabId::Create;
    app.handle_key_event(key(KeyCode::Tab));
    assert!(!app.create.download_assets);
    assert_eq!(app.status_message, "⚠️  Download assets disabled (faster creation, no sound/music)");
    app.handle_key_event(ctrl('d'));
    assert!(app.create.download_assets);
    app.create.new_instance_name = "Survival".to_string();
    app.create.available_versions = vec![ListEntry { name: "1.20.1".to_string() }];
    app.create.filtered_versions = vec![ListEntry { name: "1.20.1".to_string() }];
    match app.handle_key_event(key(KeyCode::Enter)) {
        KeyAction::CreateInstance(req) => {
            assert_eq!(req.instance_name, "Survival");
            assert_eq!(req.version.name, "1.20.1");
            assert!(req.download_assets);
        }
        _ => panic!("expected a creation"),
    }
    assert!(app.is_loading);
    assert_eq!(app.create.new_instance_name, "");
}

#[test]
fn create_tab_filter_keys() {
    let mut app = App::new();
    app.current_tab = TabId::Create;
    app.create.available_versions = vec![
        ListEntry { name: "1.20.1".to_string() },
        ListEntry { name: "24w14a".to_string() },
        ListEntry { name: "b1.7.3".to_string() },
    ];
    app.update_filtered_versions();
    assert_eq!(app.create.filtered_versions.len(), 3);
    app.handle_key_event(key(KeyCode::F(7)));
    assert!(!app.create.filter_snapshot);
    assert_eq!(app.create.filtered_versions.len(), 2);
    app.handle_key_event(ctrl('b'));
    assert_eq!(app.create.filtered_versions.len(), 1);
    app.handle_key_event(ctrl('0'));
    assert_eq!(app.create.filtered_versions.len(), 3);
}

#[test]
fn add_account_form_keys() {
    let mut app = App::new();
    app.current_tab = TabId::Accounts;
    app.account_form.is_add_account_mode = true;
    for c in "steve".chars() {
        app.handle_key_event(ch(c));
    }
    assert_eq!(app.account_form.new_account_username, "steve");
    app.handle_key_event(ch('p'));
    assert!(app.account_form.show_password);
    app.handle_key_event(key(KeyCode::Tab));
    assert_eq!(app.status_message, "Now editing: password");
    // The kind index starts at 0: ElyBy, LittleSkin, then Offline.
    app.handle_key_event(key(KeyCode::Down));
    app.handle_key_event(key(KeyCode::Down));
    app.handle_key_event(key(KeyCode::Down));
    assert_eq!(app.account_form.new_account_type, quantum_launcher::accounts::AccountType::Offline);
    app.handle_key_event(key(KeyCode::Backspace));
    assert_eq!(app.account_form.new_account_username, "stev");
    match app.handle_key_event(key(KeyCode::Enter)) {
        KeyAction::AddAccount(AddAccountRequest::SaveOffline(req)) => {
            assert_eq!(req.account.username, "stev");
            assert_eq!(req.account.account_type, "Offline");
        }
        _ => panic!("expected an offline account"),
    }
    app.handle_key_event(key(KeyCode::Esc));
    assert!(!app.account_form.is_add_account_mode);
    assert_eq!(app.account_form.new_account_username, "");
}

#[test]
fn accounts_tab_logout_and_default() {
    let mut app = App::new();
    app.current_tab = TabId::Accounts;
    app.account_list.accounts = vec![account("alex@x.org (elyby)", "ElyBy"), account("off", "Offline")];
    match app.handle_key_event(ch('l')) {
        KeyAction::Logout(req) => {
            assert_eq!(req.username, "alex@x.org (elyby)");
            assert_eq!(req.keyring_username, "alex@x.org");
        }
        _ => panic!("expected a logout"),
    }
    match app.handle_key_event(ch('d')) {
        KeyAction::SetDefaultAccount(k) => assert_eq!(k, "alex@x.org (elyby)"),
        _ => panic!("expected a default account"),
    }
    assert_eq!(app.account_list.current_account.as_deref(), Some("alex@x.org (elyby)"));
    app.account_list.selected_account = 1;
    assert!(matches!(app.handle_key_event(ch('l')), KeyAction::Nothing));
    assert_eq!(app.status_message, "Cannot logout offline accounts - they are always ready to use");
}
