use quantum_launcher::app_state::{App, ArgsEditKind, Instance};
use quantum_launcher::popups::{
    parse_memory_input, parse_window_size, ConfigError, GlobalSetting, MemoryInput, PageAction,
    WindowSizeUpdate,
};

fn app_with_instance() -> App {
    let mut app = App::new();
    app.instance_list.instances = vec![Instance {
        name: "pack".to_string(),
        version: "1.20".to_string(),
        loader: "Fabric".to_string(),
        is_running: false,
    }];
    app.instance_page.instance_settings_instance = Some(0);
    app
}

#[test]
fn args_popup_opens_on_formatted_args_and_reads_them_back() {
    let mut app = app_with_instance();
    let loaded = vec!["-Xmx2G".to_string(), "with space".to_string()];
    app.open_args_edit(true, &loaded);
    assert!(app.popups.is_editing_args);
    assert_eq!(app.popups.args_edit_input, "-Xmx2G,\"with space\"");
    assert_eq!(app.popups.args_edit_kind, ArgsEditKind::Java);
    assert_eq!(app.status_message, "Editing Java arguments");
    let save = app.apply_args_edit().unwrap();
    assert_eq!(save.instance_name, "pack");
    assert_eq!(save.args, loaded);
    app.finish_args_edit(Ok(()));
    assert!(!app.popups.is_editing_args);
    assert_eq!(app.status_message, "✅ Saved Java arguments");
}

#[test]
fn args_popup_needs_an_instance() {
    let mut app = App::new();
    app.open_args_edit(false, &vec![]);
    assert!(!app.popups.is_editing_args);
    app.popups.is_editing_args = true;
    assert!(app.apply_args_edit().is_none());
}

#[test]
fn config_errors_are_reported() {
    let mut app = app_with_instance();
    app.finish_args_edit(Err(ConfigError::Read("gone".to_string())));
    assert_eq!(app.status_message, "❌ Failed to read config: gone");
    app.finish_args_edit(Err(ConfigError::NoLauncherDir("x".to_string())));
    assert_eq!(app.status_message, "❌ Failed to get launcher directory: x");
    app.finish_args_edit(Err(ConfigError::Parse("p".to_string())));
    assert_eq!(app.status_message, "❌ Failed to parse config: p");
    app.finish_args_edit(Err(ConfigError::Serialize("s".to_string())));
    assert_eq!(app.status_message, "❌ Failed to serialize config: s");
    app.finish_memory_edit(512, Err(ConfigError::Write("w".to_string())));
    assert_eq!(app.status_message, "❌ Failed to write config: w");
}

#[test]
fn memory_popup_round_trip_and_clamp() {
    let mut app = app_with_instance();
    app.open_memory_edit(Ok(3072));
    assert!(app.popups.is_editing_memory);
    assert_eq!(app.popups.memory_edit_input, "3072");
    assert_eq!(app.status_message, "Editing memory: 3072 MB");
    let save = app.apply_memory_edit(None).unwrap();
    assert_eq!(save.mb, 3072);
    app.popups.memory_edit_input = " 100mb ".to_string();
    assert_eq!(app.apply_memory_edit(None).unwrap().mb, 256);
    app.popups.memory_edit_input = "99999".to_string();
    assert_eq!(app.apply_memory_edit(None).unwrap().mb, 16384);
    app.popups.memory_edit_input = "2G".to_string();
    assert_eq!(app.apply_memory_edit(Some(2048)).unwrap().mb, 2048);
    app.popups.memory_edit_input = "lots".to_string();
    assert!(app.apply_memory_edit(None).is_none());
    assert_eq!(app.status_message, "❌ Invalid memory value. Examples: 2048, 2G, 4GB");
    app.finish_memory_edit(2048, Ok(()));
    assert!(!app.popups.is_editing_memory);
    assert_eq!(app.popups.memory_edit_mb, 2048);
    assert_eq!(app.status_message, "✅ Saved memory: 2048 MB");
}

#[test]
fn memory_popup_default_when_unreadable() {
    let mut app = app_with_instance();
    app.open_memory_edit(Err("read error: x".to_string()));
    assert_eq!(app.popups.memory_edit_mb, 2048);
    assert_eq!(app.status_message, "Editing memory (loaded default due to read error: x): 2048 MB");
    let mut none = App::new();
    none.open_memory_edit(Ok(1));
    assert_eq!(none.status_message, "No instance selected");
    app.preload_memory_summary(Ok(4096));
    assert_eq!(app.popups.memory_edit_input, "4096");
    app.cancel_memory_edit();
    assert!(!app.popups.is_editing_memory);
    assert_eq!(app.status_message, "Cancelled memory edit");
}

#[test]
fn memory_text_readings() {
    assert!(matches!(parse_memory_input("  "), MemoryInput::Empty));
    assert!(matches!(parse_memory_input("4GB"), MemoryInput::Gigabytes(ref g) if g == "4"));
    assert!(matches!(parse_memory_input("1.5 g"), MemoryInput::Gigabytes(ref g) if g == "1.5"));
    assert!(matches!(parse_memory_input("512M"), MemoryInput::Megabytes(512)));
    assert!(matches!(parse_memory_input("+64"), MemoryInput::Megabytes(64)));
    assert!(matches!(parse_memory_input("12x"), MemoryInput::Invalid));
}

#[test]
fn window_size_texts() {
    assert!(matches!(parse_window_size(""), WindowSizeUpdate::Clear));
    assert!(matches!(parse_window_size("800"), WindowSizeUpdate::Keep));
    assert!(matches!(parse_window_size(" 854x480 "), WindowSizeUpdate::Resize(Some(854), Some(480))));
    assert!(matches!(parse_window_size("a,480,9"), WindowSizeUpdate::Resize(None, Some(480))));
    assert!(matches!(parse_window_size("1,X"), WindowSizeUpdate::Resize(Some(1), None)));
}

#[test]
fn window_size_popup_round_trip() {
    let mut app = App::new();
    app.open_global_window_size_edit(Ok((Some(1280), Some(720))));
    assert_eq!(app.popups.args_edit_input, "1280,720");
    assert!(matches!(app.apply_global_window_size_edit(Ok(())), Some(WindowSizeUpdate::Resize(Some(1280), Some(720)))));
    app.finish_global_save(GlobalSetting::WindowSize, Ok(()));
    assert_eq!(app.status_message, "✅ Saved global window size");
    app.open_global_window_size_edit(Ok((Some(1), None)));
    assert_eq!(app.popups.args_edit_input, "");
}

#[test]
fn refresh_interval_popup() {
    let mut app = App::new();
    app.open_tui_refresh_interval_edit(Ok(Some(250)));
    assert_eq!(app.popups.args_edit_input, "250");
    assert_eq!(app.apply_tui_refresh_interval_edit(Ok(())), Some(Some(250)));
    app.popups.args_edit_input = "10".to_string();
    assert_eq!(app.apply_tui_refresh_interval_edit(Ok(())), Some(Some(50)));
    assert_eq!(app.settings.tui_refresh_interval_ms, Some(50));
    app.popups.args_edit_input = "  ".to_string();
    assert_eq!(app.apply_tui_refresh_interval_edit(Ok(())), Some(None));
    app.popups.args_edit_input = "fast".to_string();
    assert_eq!(app.apply_tui_refresh_interval_edit(Ok(())), None);
    assert_eq!(app.status_message, "❌ Invalid number; please enter an integer in milliseconds.");
    assert_eq!(app.apply_tui_refresh_interval_edit(Err("bad json".to_string())), None);
    assert_eq!(app.status_message, "❌ Failed to load global config: bad json");
    app.finish_global_save(GlobalSetting::RefreshInterval, Err("ro".to_string()));
    assert_eq!(app.status_message, "❌ Failed to save global config: ro");
}

#[test]
fn global_java_args_popup() {
    let mut app = App::new();
    app.open_global_java_args_edit(Ok(vec!["-Da=b".to_string()]));
    assert_eq!(app.popups.args_edit_input, "-Da=b");
    app.popups.args_edit_input = " -Xss1M  -Dx=\"y z\" ".to_string();
    assert_eq!(app.apply_global_java_args_edit(Ok(())), Some(vec!["-Xss1M".to_string(), "-Dx=y z".to_string()]));
    app.open_global_java_args_edit(Err("nope".to_string()));
    assert_eq!(app.status_message, "❌ Failed to load global config: nope");
    app.cancel_args_edit();
    assert!(!app.popups.is_editing_args);
    assert!(app.apply_global_java_args_edit(Ok(())).is_none());
}

#[test]
fn sub_page_selections() {
    let mut app = app_with_instance();
    app.instance_page.instance_settings_selected = 0;
    assert!(matches!(app.select_in_java_page(), PageAction::Nothing));
    assert_eq!(app.status_message, "(placeholder) Custom Java executable");
    app.instance_page.instance_settings_selected = 1;
    assert!(matches!(app.select_in_java_page(), PageAction::CycleJavaArgsMode(ref n) if n == "pack"));
    app.instance_page.instance_settings_selected = 3;
    assert!(matches!(app.select_in_java_page(), PageAction::EditMemory));
    app.instance_page.instance_settings_selected = 1;
    assert!(matches!(app.select_in_launch_page(), PageAction::EditWindowSize));
    app.open_window_size_edit(Some(640), Some(480));
    assert_eq!(app.popups.args_edit_input, "640,480");
    assert_eq!(app.popups.args_edit_kind, ArgsEditKind::WindowSize);
}
