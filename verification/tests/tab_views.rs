use quantum_launcher::app_state::{App, SettingsFocus};
use quantum_launcher::tab_views::{create_tab_view, settings_tab_view, ButtonLook, NameLook, RightPane};
use quantum_launcher::versions::ListEntry;

#[test]
fn create_tab_tells_what_is_missing() {
    let mut app = App::new();
    let v = create_tab_view(&app.create, false);
    assert_eq!(v.name_text, "Enter instance name... (press Ctrl+N to edit)");
    assert_eq!(v.name_look, NameLook::Placeholder);
    assert_eq!(v.button_text, "Press Enter to name instance");
    assert_eq!(v.button_look, ButtonLook::Blocked);
    assert_eq!(v.list_title, None);
    app.create.new_instance_name = "world".to_string();
    app.create.is_editing_name = true;
    let v = create_tab_view(&app.create, false);
    assert_eq!(v.name_text, "world");
    assert_eq!(v.name_look, NameLook::Editing);
    assert_eq!(v.name_title, " Instance Name (Editing - press Esc to finish) ");
    assert_eq!(v.button_text, "No version selected");
    let v = create_tab_view(&app.create, true);
    assert_eq!(v.button_text, "Creating instance... Please wait");
    assert_eq!(v.button_look, ButtonLook::Busy);
}

#[test]
fn version_list_title_shows_search_or_selection() {
    let mut app = App::new();
    app.create.new_instance_name = "world".to_string();
    app.create.available_versions = vec![ListEntry { name: "1.20.4".to_string() }, ListEntry { name: "1.20.1".to_string() }];
    app.create.filtered_versions = vec![ListEntry { name: "1.20.4".to_string() }, ListEntry { name: "1.20.1".to_string() }];
    app.create.selected_filtered_version = 1;
    let v = create_tab_view(&app.create, false);
    assert_eq!(v.button_look, ButtonLook::Ready);
    assert_eq!(v.list_title.as_deref(), Some(" Minecraft Versions - Selected: 1.20.1 "));
    app.create.version_search_active = true;
    app.create.version_search_query = "1.20".to_string();
    let v = create_tab_view(&app.create, false);
    assert_eq!(v.list_title.as_deref(), Some(" Minecraft Versions - Search: 1.20 (2 matches) "));
    app.create.filter_snapshot = false;
    app.create.filter_release = true;
    app.create.filter_beta = true;
    app.create.filter_alpha = false;
    let v = create_tab_view(&app.create, false);
    assert_eq!(v.filter_marks, "[R:on] [S:off] [B:on] [A:off] ");
    assert_eq!(v.assets_text.starts_with('☑'), app.create.download_assets);
}

#[test]
fn settings_submenu_marks_the_chosen_license() {
    let mut app = App::new();
    app.settings.about_selected = 4;
    app.settings.license_selected = 2;
    app.settings.settings_focus = SettingsFocus::Middle;
    let v = settings_tab_view(&app.settings);
    let items = v.submenu.expect("submenu");
    assert_eq!(items.len(), 6);
    assert_eq!(items[0], "  About");
    assert_eq!(items[2], "  Forge Installer  ←");
    assert_eq!(items[5], "  LWJGL");
    assert!(matches!(v.right, RightPane::License(1)));
    app.settings.license_selected = 40;
    assert!(matches!(settings_tab_view(&app.settings).right, RightPane::License(4)));
    app.settings.license_selected = 0;
    assert!(matches!(settings_tab_view(&app.settings).right, RightPane::About));
    app.settings.settings_focus = SettingsFocus::Left;
    assert!(matches!(settings_tab_view(&app.settings).right, RightPane::LicensesOverview));
}

#[test]
fn other_settings_sections_are_placeholders() {
    let mut app = App::new();
    app.settings.about_selected = 1;
    let v = settings_tab_view(&app.settings);
    assert!(v.submenu.is_none());
    match v.right {
        RightPane::ComingSoon { title, text } => {
            assert_eq!(title, " Java ");
            assert_eq!(text, "Java settings coming soon!");
        }
        _ => panic!("expected a placeholder"),
    }
}
