use quantum_launcher::app_state::{App, Instance, InstanceSettingsTab, TabId};
use quantum_launcher::events::{AuthEvent, LoggedInAccount};

fn instance(name: &str, running: bool) -> Instance {
    Instance { name: name.to_string(), version: "1.0".to_string(), loader: "Vanilla".to_string(), is_running: running }
}

fn is_clock(t: &str) -> bool {
    let b: Vec<char> = t.chars().collect();
    b.len() == 8 && b[2] == ':' && b[5] == ':' && b.iter().enumerate().all(|(i, c)| i == 2 || i == 5 || c.is_ascii_digit())
}

#[test]
fn launch_started_logs_with_time() {
    let mut app = App::new();
    app.handle_auth_event_at(AuthEvent::LaunchStarted("pack".to_string()), "12:34:56");
    assert_eq!(app.status_message, "LAUNCHING: pack...");
    assert!(app.is_loading);
    assert!(app.needs_forced_refresh);
    assert_eq!(app.logs.game_logs, vec!["[12:34:56] Launch started for instance: pack".to_string()]);
}

#[test]
fn handled_events_are_stamped_with_clock_time() {
    let mut app = App::new();
    app.handle_auth_event(AuthEvent::RefreshStarted);
    let line = app.logs.game_logs[0].clone();
    assert!(line.starts_with('['));
    assert!(line.ends_with("] Started refreshing instances"));
    assert!(is_clock(&line[1..9]));
    assert_eq!(app.status_message, "🔄 Refreshing instances...");
}

#[test]
fn launch_success_marks_running() {
    let mut app = App::new();
    app.instance_list.instances = vec![instance("a", false), instance("b", false)];
    app.handle_auth_event_at(AuthEvent::LaunchSuccess("b".to_string(), Some(4242)), "00:00:01");
    assert_eq!(app.status_message, "✅ Successfully launched b! Game is running with PID: 4242");
    assert!(app.instance_list.instances[1].is_running);
    assert!(!app.instance_list.instances[0].is_running);
    assert_eq!(app.instance_list.client_processes, vec!["b".to_string()]);
    app.handle_auth_event_at(AuthEvent::LaunchSuccess("b".to_string(), None), "00:00:02");
    assert_eq!(app.status_message, "✅ Successfully launched b! Game is running in background.");
    assert_eq!(app.instance_list.client_processes.len(), 1);
    app.handle_auth_event_at(AuthEvent::LaunchEnded("b".to_string()), "00:00:03");
    assert!(!app.instance_list.instances[1].is_running);
    assert!(app.instance_list.client_processes.is_empty());
    assert_eq!(app.status_message, "🛑 b has stopped");
    assert_eq!(app.logs.game_logs.last().unwrap(), "[00:00:03] 🛑 b has stopped");
}

#[test]
fn launch_error_reported() {
    let mut app = App::new();
    app.is_loading = true;
    app.handle_auth_event_at(AuthEvent::LaunchError("a".to_string(), "no java".to_string()), "01:02:03");
    assert!(!app.is_loading);
    assert_eq!(app.status_message, "❌ Failed to launch a: no java");
    assert_eq!(app.logs.game_logs, vec!["[01:02:03] ❌ Failed to launch a: no java".to_string()]);
}

#[test]
fn login_events() {
    let mut app = App::new();
    app.account_form.is_add_account_mode = true;
    app.handle_auth_event_at(AuthEvent::LoginStarted, "t");
    assert!(app.is_loading);
    assert_eq!(app.status_message, "🔐 Authenticating with ElyBy...");
    app.handle_auth_event_at(AuthEvent::LoginNeedsOtp, "t");
    assert!(app.account_form.needs_otp);
    assert_eq!(app.account_form.new_account_otp.as_deref(), Some(""));
    app.handle_auth_event_at(AuthEvent::LoginError { error: "bad".to_string() }, "t");
    assert_eq!(app.account_form.login_error.as_deref(), Some("bad"));
    assert_eq!(app.status_message, "❌ Authentication failed: bad");
    let account = LoggedInAccount {
        nice_username: "Alex".to_string(),
        account_type: "ElyBy".to_string(),
        uuid: "id".to_string(),
        config_key: "alex@x.org (elyby)".to_string(),
    };
    app.handle_auth_event_at(AuthEvent::LoginSuccess { account, save_error: None }, "t");
    assert_eq!(app.account_list.accounts.len(), 1);
    assert_eq!(app.account_list.accounts[0].username, "alex@x.org (elyby)");
    assert!(app.account_list.accounts[0].is_logged_in);
    assert_eq!(app.account_list.current_account.as_deref(), Some("alex@x.org (elyby)"));
    assert_eq!(app.status_message, "✅ Successfully authenticated and saved as Alex (set as default)");
    assert!(!app.account_form.is_add_account_mode);
    assert!(app.account_form.login_error.is_none());
}

#[test]
fn login_success_with_save_error() {
    let mut app = App::new();
    let account = LoggedInAccount {
        nice_username: "Alex".to_string(),
        account_type: "ElyBy".to_string(),
        uuid: "id".to_string(),
        config_key: "k".to_string(),
    };
    app.handle_auth_event_at(AuthEvent::LoginSuccess { account, save_error: Some("disk full".to_string()) }, "t");
    assert!(app.account_list.accounts.is_empty());
    assert_eq!(app.account_form.login_error.as_deref(), Some("Failed to save account: disk full"));
    assert_eq!(app.status_message, "❌ Authentication succeeded but failed to save: disk full");
}

#[test]
fn instance_log_lines_are_kept_and_capped() {
    let mut app = App::new();
    app.current_tab = TabId::InstanceSettings;
    app.instance_page.instance_settings_tab = InstanceSettingsTab::Logs;
    app.logs.instance_logs_offset = 5;
    app.handle_auth_event_at(AuthEvent::InstanceLogLine { instance_name: "a".to_string(), line: "hello\n\n".to_string() }, "t");
    assert_eq!(app.logs.instance_logs.get("a").unwrap(), &vec!["hello".to_string()]);
    assert_eq!(app.logs.instance_logs_offset, 0);
    for i in 0..2100 {
        app.handle_auth_event_at(AuthEvent::InstanceLogLine { instance_name: "a".to_string(), line: format!("{i}\n") }, "t");
    }
    let lines = app.logs.instance_logs.get("a").unwrap();
    assert_eq!(lines.len(), 2000);
    assert_eq!(lines[0], "100");
    assert_eq!(lines[1999], "2099");
    assert!(app.logs.instance_logs.get("b").is_none());
}

#[test]
fn instance_creation_events() {
    let mut app = App::new();
    app.current_tab = TabId::Create;
    app.handle_auth_event_at(AuthEvent::InstanceCreateStarted("new".to_string()), "10:00:00");
    assert_eq!(app.status_message, "🔨 Creating instance 'new'... This may take a while");
    app.handle_auth_event_at(AuthEvent::InstanceCreateProgress { instance_name: "new".to_string(), message: "50%".to_string() }, "10:00:01");
    assert_eq!(app.status_message, "🔨 Creating 'new': 50%");
    app.handle_auth_event_at(AuthEvent::InstanceCreateSuccess { instance_name: "new".to_string() }, "10:00:02");
    assert_eq!(app.current_tab, TabId::Instances);
    assert_eq!(app.status_message, "✅ Successfully created instance 'new'. Press F5 to refresh instances list.");
    assert_eq!(app.logs.game_logs, vec![
        "[10:00:00] Started creating instance: new".to_string(),
        "[10:00:01] Instance 'new': 50%".to_string(),
        "[10:00:02] ✅ Successfully created instance 'new'".to_string(),
    ]);
    app.handle_auth_event_at(AuthEvent::InstanceCreateError { instance_name: "x".to_string(), error: "oops".to_string() }, "10:00:03");
    assert_eq!(app.status_message, "❌ Failed to create instance 'x': oops");
}

#[test]
fn refresh_data_keeps_running_marks() {
    let mut app = App::new();
    app.instance_list.instances = vec![instance("a", true), instance("b", false), instance("c", false)];
    app.instance_list.selected_instance = 2;
    app.handle_auth_event_at(AuthEvent::RefreshData { instances: vec![
        ("b".to_string(), "1.2".to_string(), "Fabric".to_string()),
        ("a".to_string(), "1.1".to_string(), "Vanilla".to_string()),
    ] }, "t");
    assert_eq!(app.instance_list.instances.len(), 2);
    assert_eq!(app.instance_list.instances[0].name, "b");
    assert!(!app.instance_list.instances[0].is_running);
    assert!(app.instance_list.instances[1].is_running);
    assert_eq!(app.instance_list.selected_instance, 1);
    app.handle_auth_event_at(AuthEvent::RefreshData { instances: vec![] }, "t");
    assert_eq!(app.instance_list.selected_instance, 0);
    app.handle_auth_event_at(AuthEvent::RefreshCompleted, "t");
    assert_eq!(app.status_message, "✅ Instances refreshed successfully");
}

#[test]
fn game_log_keeps_last_thousand_lines() {
    let mut app = App::new();
    for i in 0..1005 {
        app.add_log(format!("{i}"));
    }
    assert_eq!(app.logs.game_logs.len(), 1000);
    assert_eq!(app.logs.game_logs[0], "5");
}

#[test]
fn sync_follows_only_at_the_end() {
    let mut app = App::new();
    app.sync_game_logs(vec!["a".to_string()]);
    assert_eq!(app.logs.game_logs, vec!["a".to_string()]);
    app.logs.logs_offset = 2;
    app.sync_game_logs(vec!["b".to_string()]);
    assert_eq!(app.logs.game_logs, vec!["a".to_string()]);
}
