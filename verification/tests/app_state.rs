use quantum_launcher::app_instance::{sanitize_instance_name, untrack, FolderOutcome, RenameRequest};
use quantum_launcher::app_state::{App, Instance, SettingsFocus, TabId};
use quantum_launcher::licenses::{entries, fallback_content, menu_index};
use quantum_launcher::logs::{push_capped, strip_trailing_newlines, InstanceLog, InstanceLogs};
use quantum_launcher::versions::{classify_version, filter_versions, ListEntry, VersionCategory, VersionFilters};

fn instance(name: &str) -> Instance {
    Instance { name: name.to_string(), version: "v".to_string(), loader: "l".to_string(), is_running: false }
}

#[test]
fn fresh_app() {
    let mut app = App::new();
    assert_eq!(app.current_tab, TabId::Instances);
    assert_eq!(app.status_message, "Welcome to QuantumLauncher TUI! Press '?' for help, 'q' to quit.");
    assert!(!app.should_quit());
    app.quit();
    assert!(app.should_quit());
    assert!(!app.check_and_reset_forced_refresh());
    app.needs_forced_refresh = true;
    assert!(app.check_and_reset_forced_refresh());
    assert!(!app.needs_forced_refresh);
}

#[test]
fn tabs_round_trip() {
    let mut app = App::new();
    for t in [TabId::Instances, TabId::Create, TabId::Settings, TabId::Accounts, TabId::Logs] {
        app.set_tab(t);
        app.next_tab();
        app.previous_tab();
        assert_eq!(app.current_tab, t);
    }
    app.set_tab(TabId::InstanceSettings);
    app.next_tab();
    assert_eq!(app.current_tab, TabId::Instances);
    assert_eq!(TabId::InstanceSettings.label(), "Instance Settings");
}

#[test]
fn settings_menu_navigation() {
    let mut app = App::new();
    app.current_tab = TabId::Settings;
    app.prev_item();
    assert_eq!(app.settings.about_selected, 4);
    app.settings.settings_focus = SettingsFocus::Middle;
    app.next_item();
    assert_eq!(app.settings.license_selected, 1);
    assert_eq!(App::licenses_menu_index(), 4);
}

#[test]
fn licenses_table() {
    assert_eq!(menu_index(), 4);
    let e = entries();
    assert_eq!(e.len(), 5);
    assert_eq!(e[0].0, "QuantumLauncher (GPLv3)");
    assert_eq!(e[4].0, "LWJGL");
    assert_eq!(e[1].1.len(), 3);
    assert!(fallback_content(0).is_some());
    assert!(fallback_content(4).is_some());
    assert!(fallback_content(5).is_none());
    assert_eq!(App::licenses().len(), 5);
}

#[test]
fn version_categories() {
    assert_eq!(classify_version("1.20.4"), VersionCategory::Release);
    assert_eq!(classify_version("24w14a"), VersionCategory::Snapshot);
    assert_eq!(classify_version("1.20-pre1"), VersionCategory::Snapshot);
    assert_eq!(classify_version("1.19-rc2"), VersionCategory::Snapshot);
    assert_eq!(classify_version("a1.2.6"), VersionCategory::Alpha);
    assert_eq!(classify_version("b1.7.3"), VersionCategory::Beta);
    assert_eq!(classify_version("inf-20100618"), VersionCategory::Beta);
    assert_eq!(classify_version("rd-132211"), VersionCategory::Release);
}

#[test]
fn version_filtering_with_search() {
    let all: Vec<ListEntry> = ["1.20.4", "24w14a", "1.19.2", "b1.7.3"].iter().map(|n| ListEntry { name: n.to_string() }).collect();
    let f = VersionFilters { release: true, snapshot: false, beta: true, alpha: true };
    let names = |v: Vec<ListEntry>| v.into_iter().map(|e| e.name).collect::<Vec<_>>();
    assert_eq!(names(filter_versions(&all, "", f)), vec!["1.20.4", "1.19.2", "b1.7.3"]);
    assert_eq!(names(filter_versions(&all, "1.2", f)), vec!["1.20.4"]);
    let f = VersionFilters { release: true, snapshot: true, beta: true, alpha: true };
    assert_eq!(names(filter_versions(&all, "W14", f)), vec!["24w14a"]);
}

#[test]
fn version_search_in_app() {
    let mut app = App::new();
    app.create.available_versions = ["1.20.4", "1.19.2"].iter().map(|n| ListEntry { name: n.to_string() }).collect();
    app.start_version_search_with_char('9');
    assert!(app.create.version_search_active);
    assert_eq!(app.create.filtered_versions.len(), 1);
    app.remove_char_from_version_search();
    assert_eq!(app.create.filtered_versions.len(), 2);
    app.remove_char_from_version_search();
    assert!(!app.create.version_search_active);
    assert_eq!(app.status_message, "Exited version search");
}

#[test]
fn capped_buffers() {
    let mut buf = vec!["a".to_string(), "b".to_string()];
    assert_eq!(push_capped(&mut buf, "c".to_string(), 2), 2);
    assert_eq!(buf, vec!["b".to_string(), "c".to_string()]);
    assert_eq!(push_capped(&mut buf, "d".to_string(), 5), 3);
    let mut empty: Vec<String> = Vec::new();
    assert_eq!(push_capped(&mut empty, "x".to_string(), 0), 0);
    assert_eq!(strip_trailing_newlines("line\n\n"), "line");
    assert_eq!(strip_trailing_newlines("a\nb"), "a\nb");
}

#[test]
fn instance_logs_store() {
    let mut logs = InstanceLogs::new();
    logs.push_line("a", "x\n");
    logs.push_line("b", "y");
    logs.push_line("a", "z");
    assert_eq!(logs.get("a").unwrap(), &vec!["x".to_string(), "z".to_string()]);
    assert_eq!(logs.get("b").unwrap(), &vec!["y".to_string()]);
    let gui_log = InstanceLog { log: vec!["l".to_string()], has_crashed: false, command: "java".to_string() };
    assert_eq!(gui_log.log.len(), 1);
}

#[test]
fn instance_names_are_cleaned() {
    assert_eq!(sanitize_instance_name("  my:pack?<>  "), "mypack");
    assert_eq!(sanitize_instance_name("a/b\\c|d\"e'f*g"), "abcdefg");
    assert_eq!(sanitize_instance_name("///"), "");
}

#[test]
fn rename_flow() {
    let mut app = App::new();
    app.instance_list.instances = vec![instance("old"), instance("other")];
    app.instance_page.instance_settings_instance = Some(0);
    app.instance_page.is_renaming_instance = true;
    app.instance_page.rename_input = "  ".to_string();
    assert!(app.apply_rename_instance().is_none());
    assert_eq!(app.status_message, "❌ New name is empty or invalid");
    app.instance_page.rename_input = "old".to_string();
    assert!(app.apply_rename_instance().is_none());
    assert_eq!(app.status_message, "No changes to apply");
    app.instance_page.is_renaming_instance = true;
    app.instance_page.rename_input = "new:one".to_string();
    let req: RenameRequest = app.apply_rename_instance().unwrap();
    assert_eq!(req.new_name, "newone");
    app.finish_rename_instance(&req, FolderOutcome::Conflict);
    assert_eq!(app.status_message, "❌ An instance named 'newone' already exists");
    app.finish_rename_instance(&req, FolderOutcome::Done);
    assert_eq!(app.instance_list.instances[0].name, "newone");
    assert!(!app.instance_page.is_renaming_instance);
    assert_eq!(app.status_message, "✅ Renamed instance 'old' → 'newone'");
    app.cancel_rename_instance();
    assert!(!app.instance_page.is_renaming_instance);
}

#[test]
fn kill_and_delete_flow() {
    let mut app = App::new();
    app.instance_list.instances = vec![instance("a"), instance("b")];
    app.instance_list.selected_instance = 1;
    app.instance_list.client_processes = vec!["a".to_string()];
    assert!(app.kill_instance("a"));
    assert_eq!(app.status_message, "🔪 Terminating instance: a");
    assert!(app.instance_list.client_processes.is_empty());
    assert!(!app.kill_instance("a"));
    assert_eq!(app.status_message, "❌ Instance a is not running");
    assert!(app.delete_instance("b"));
    app.finish_delete_instance("b", FolderOutcome::Failed("busy".to_string()));
    assert_eq!(app.status_message, "❌ Failed to delete instance 'b': busy");
    app.finish_delete_instance("b", FolderOutcome::Done);
    assert_eq!(app.instance_list.instances.len(), 1);
    assert_eq!(app.instance_list.selected_instance, 0);
    assert_eq!(app.current_tab, TabId::Instances);
    assert_eq!(app.status_message, "DELETED: Successfully removed instance b");
    assert_eq!(untrack(&vec!["x".to_string(), "y".to_string(), "x".to_string()], "x"), vec!["y".to_string()]);
}

#[test]
fn refresh_result_applied() {
    let mut app = App::new();
    app.apply_refresh(Ok(vec![("i".to_string(), "1.0".to_string(), "Forge".to_string())]), Some(Ok(vec![ListEntry { name: "1.0".to_string() }])));
    assert_eq!(app.instance_list.instances.len(), 1);
    assert_eq!(app.create.filtered_versions.len(), 1);
    assert_eq!(app.status_message, "Loaded 1 instances");
    app.apply_refresh(Err("no dir".to_string()), None);
    assert_eq!(app.status_message, "Failed to load instances: no dir");
}
