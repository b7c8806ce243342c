use quantum_launcher::gui_create::{
    create_menu_step, creation_finished, find_version, import_finished, CreateAction, CreateMenu, CreateMsg, CreateOutcome, InstanceSel,
    VersionEntry,
};
use quantum_launcher::versions::VersionCategory;

fn entry(name: &str, kind: VersionCategory, server: bool) -> VersionEntry {
    VersionEntry { name: name.to_string(), kind, supports_server: server }
}

fn list() -> Vec<VersionEntry> {
    vec![
        entry("24w10a", VersionCategory::Snapshot, true),
        entry("1.20.4", VersionCategory::Release, true),
        entry("b1.7.3", VersionCategory::Beta, false),
        entry("1.20.1", VersionCategory::Release, true),
    ]
}

fn menu() -> CreateMenu {
    CreateMenu {
        instance_name: String::new(),
        selected_version: entry("1.20.4", VersionCategory::Release, true),
        download_assets: true,
        search_box: String::new(),
        show_category_dropdown: false,
        selected_categories: vec![VersionCategory::Release, VersionCategory::Beta],
        is_server: false,
    }
}

#[test]
fn search_jumps_to_the_first_match_of_a_picked_category() {
    let mut m = menu();
    m.search_box = "  1.20.1 ".to_string();
    create_menu_step(&mut m, &list(), CreateMsg::SearchSubmit);
    assert_eq!(m.selected_version.name, "1.20.1");
    m.search_box = "B1.7".to_string();
    create_menu_step(&mut m, &list(), CreateMsg::SearchSubmit);
    assert_eq!(m.selected_version.name, "b1.7.3");
    m.search_box = "24w".to_string();
    create_menu_step(&mut m, &list(), CreateMsg::SearchSubmit);
    assert_eq!(m.selected_version.name, "b1.7.3");
    m.search_box = "   ".to_string();
    create_menu_step(&mut m, &list(), CreateMsg::SearchSubmit);
    assert_eq!(m.selected_version.name, "1.20.4");
}

#[test]
fn servers_only_match_versions_that_support_them() {
    let mut m = menu();
    m.is_server = true;
    m.search_box = "b1".to_string();
    create_menu_step(&mut m, &list(), CreateMsg::SearchSubmit);
    assert_eq!(m.selected_version.name, "1.20.4");
}

#[test]
fn the_last_category_stays_picked() {
    let mut m = menu();
    create_menu_step(&mut m, &list(), CreateMsg::CategoryToggle(VersionCategory::Release));
    assert_eq!(m.selected_categories, vec![VersionCategory::Beta]);
    create_menu_step(&mut m, &list(), CreateMsg::CategoryToggle(VersionCategory::Beta));
    assert_eq!(m.selected_categories, vec![VersionCategory::Beta]);
    create_menu_step(&mut m, &list(), CreateMsg::CategoryToggle(VersionCategory::Snapshot));
    assert_eq!(m.selected_categories, vec![VersionCategory::Beta, VersionCategory::Snapshot]);
}

#[test]
fn blank_name_creates_under_the_version_name() {
    let mut m = menu();
    m.instance_name = "  ".to_string();
    match create_menu_step(&mut m, &list(), CreateMsg::Start) {
        CreateAction::Create { name, version, download_assets, is_server } => {
            assert_eq!(name, "1.20.4");
            assert_eq!(version.name, "1.20.4");
            assert!(download_assets);
            assert!(!is_server);
        }
        CreateAction::Nothing => panic!("expected a request"),
    }
    m.instance_name = "My World".to_string();
    create_menu_step(&mut m, &list(), CreateMsg::ChangeAssetToggle(false));
    match create_menu_step(&mut m, &list(), CreateMsg::Start) {
        CreateAction::Create { name, download_assets, .. } => {
            assert_eq!(name, "My World");
            assert!(!download_assets);
        }
        CreateAction::Nothing => panic!("expected a request"),
    }
}

#[test]
fn created_server_opens_its_management() {
    let mut sel = None;
    let r = creation_finished(&mut sel, Ok(InstanceSel::Server("srv".to_string())));
    assert!(matches!(r, CreateOutcome::OpenServerManage(ref m) if m == "Created Server"));
    assert!(matches!(sel, Some(InstanceSel::Server(ref n)) if n == "srv"));
    let r = creation_finished(&mut sel, Ok(InstanceSel::Instance("world".to_string())));
    assert!(matches!(r, CreateOutcome::OpenLaunch(ref m) if m == "Created Instance"));
    let r = creation_finished(&mut sel, Err("disk full".to_string()));
    assert!(matches!(r, CreateOutcome::ShowError(ref e) if e == "disk full"));
    assert!(matches!(sel, Some(InstanceSel::Instance(ref n)) if n == "world"));
}

#[test]
fn import_of_a_non_instance_is_an_error() {
    let mut sel = Some(InstanceSel::Instance("old".to_string()));
    let r = import_finished(&mut sel, Ok(None));
    assert!(sel.is_none());
    match r {
        CreateOutcome::ShowError(e) => assert!(e.starts_with("the file you imported isn't a valid QuantumLauncher/MultiMC instance.")),
        _ => panic!("expected an error"),
    }
    let r = import_finished(&mut sel, Ok(Some(InstanceSel::Instance("pack".to_string()))));
    assert!(matches!(r, CreateOutcome::OpenMainMenu));
    assert!(matches!(sel, Some(InstanceSel::Instance(ref n)) if n == "pack"));
}

#[test]
fn latest_stable_version_is_found_by_name() {
    let mut l = list();
    l.push(entry("1.20.4", VersionCategory::Snapshot, true));
    assert_eq!(find_version(&l, "1.20.4", true), Some(1));
    assert_eq!(find_version(&l, "24w10a", true), None);
    assert_eq!(find_version(&l, "24w10a", false), Some(0));
    assert_eq!(find_version(&l, "1.8", false), None);
}
