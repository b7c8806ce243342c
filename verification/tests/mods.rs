use quantum_launcher::jarmods::{JarMod, JarModsMenu, SelectedState};
use quantum_launcher::mod_order::{sort_dependencies, ModConfig, ModListEntry};
use quantum_launcher::mods::{export_mods_markdown, export_mods_plain_text, ManageModsMessage, ModSource, SelectedMod};
use quantum_launcher::presence::{bake_activity, PresenceStatusDisplayType};

fn jar(name: &str, enabled: bool) -> JarMod {
    JarMod { filename: name.to_string(), enabled }
}

fn menu(mods: Vec<JarMod>, selected: &[&str]) -> JarModsMenu {
    JarModsMenu {
        mods,
        selected: selected.iter().map(|s| s.to_string()).collect(),
        selected_state: SelectedState::Partial,
    }
}

fn names(m: &JarModsMenu) -> Vec<String> {
    m.mods.iter().map(|j| j.filename.clone()).collect()
}

#[test]
fn messages_that_edit_the_list() {
    assert!(ManageModsMessage::Open.edits_mod_list());
    assert!(ManageModsMessage::DeleteSelected.edits_mod_list());
    assert!(ManageModsMessage::ToggleOne("id".to_string()).edits_mod_list());
    assert!(ManageModsMessage::IndexLoaded(Ok(Vec::new())).edits_mod_list());
    assert!(!ManageModsMessage::SelectAll.edits_mod_list());
    assert!(!ManageModsMessage::ListScrolled(10).edits_mod_list());
    assert!(!ManageModsMessage::SetSearch(None).edits_mod_list());
    assert!(!ManageModsMessage::UpdateCheck.edits_mod_list());
}

#[test]
fn mod_list_order() {
    let downloaded = vec![
        ("dep".to_string(), ModConfig { name: "Zeta Lib".to_string(), manually_installed: false }),
        ("sodium".to_string(), ModConfig { name: "Sodium".to_string(), manually_installed: true }),
        ("api".to_string(), ModConfig { name: "Alpha API".to_string(), manually_installed: false }),
        ("iris".to_string(), ModConfig { name: "Iris".to_string(), manually_installed: true }),
    ];
    let local = vec!["zz.jar".to_string(), "aa.jar".to_string()];
    let sorted = sort_dependencies(downloaded, local);
    let labels: Vec<String> = sorted
        .iter()
        .map(|e| match e {
            ModListEntry::Downloaded { name, .. } => name.clone(),
            ModListEntry::Local { file_name } => file_name.clone(),
        })
        .collect();
    assert_eq!(labels, vec!["Iris", "Sodium", "aa.jar", "zz.jar", "Alpha API", "Zeta Lib"]);
    assert!(sort_dependencies(Vec::new(), Vec::new()).is_empty());
}

#[test]
fn mod_names_order_by_character_code() {
    let downloaded = vec![
        ("b".to_string(), ModConfig { name: "b".to_string(), manually_installed: true }),
        ("B".to_string(), ModConfig { name: "B".to_string(), manually_installed: true }),
        ("ab".to_string(), ModConfig { name: "ab".to_string(), manually_installed: true }),
        ("a".to_string(), ModConfig { name: "a".to_string(), manually_installed: true }),
    ];
    let sorted = sort_dependencies(downloaded, Vec::new());
    let ids: Vec<String> = sorted
        .iter()
        .map(|e| match e {
            ModListEntry::Downloaded { id, .. } => id.clone(),
            ModListEntry::Local { file_name } => file_name.clone(),
        })
        .collect();
    assert_eq!(ids, vec!["B", "a", "ab", "b"]);
}

#[test]
fn jarmods_select_all_and_checkboxes() {
    let mut m = menu(vec![jar("a.jar", true), jar("b.jar", true), jar("a.jar", false)], &[]);
    m.select_all();
    assert_eq!(m.selected_state, SelectedState::All);
    assert_eq!(m.selected, vec!["a.jar".to_string(), "b.jar".to_string()]);
    m.select_all();
    assert!(m.selected.is_empty());
    assert_eq!(m.selected_state, SelectedState::Empty);
    m.toggle_checkbox("b.jar".to_string(), true);
    m.toggle_checkbox("b.jar".to_string(), true);
    assert_eq!(m.selected, vec!["b.jar".to_string()]);
    assert_eq!(m.selected_state, SelectedState::Partial);
    m.toggle_checkbox("b.jar".to_string(), false);
    assert!(m.selected.is_empty());
    assert_eq!(m.selected_state, SelectedState::Empty);
}

#[test]
fn jarmods_toggle_and_delete_first_of_each_name() {
    let mut m = menu(vec![jar("a.jar", true), jar("b.jar", true), jar("a.jar", false)], &["a.jar"]);
    m.toggle_selected();
    assert!(!m.mods[0].enabled);
    assert!(m.mods[1].enabled);
    assert!(!m.mods[2].enabled);
    let gone = m.delete_selected();
    assert_eq!(gone, vec!["a.jar".to_string()]);
    assert_eq!(names(&m), vec!["b.jar", "a.jar"]);
    assert!(m.selected.is_empty());
}

#[test]
fn jarmods_move_up_and_down() {
    let mut m = menu(vec![jar("a", true), jar("b", true), jar("c", true), jar("d", true)], &["b", "c"]);
    m.move_up_or_down(true);
    assert_eq!(names(&m), vec!["b", "c", "a", "d"]);
    let mut m = menu(vec![jar("a", true), jar("b", true), jar("c", true), jar("d", true)], &["b", "c"]);
    m.move_up_or_down(false);
    assert_eq!(names(&m), vec!["a", "d", "b", "c"]);
    let mut m = menu(vec![jar("a", true), jar("b", true)], &["a", "b"]);
    m.move_up_or_down(true);
    assert_eq!(names(&m), vec!["b", "a"]);
    let mut m = menu(vec![jar("a", true), jar("b", true)], &["b"]);
    m.move_up_or_down(false);
    assert_eq!(names(&m), vec!["a", "b"]);
}

#[test]
fn mod_exports() {
    let mods = vec![
        SelectedMod::Downloaded { name: "Sodium".to_string(), id: ModSource::Modrinth("AANobbMI".to_string()) },
        SelectedMod::Downloaded { name: "JEI".to_string(), id: ModSource::Curseforge("238222".to_string()) },
        SelectedMod::Local { file_name: "extra.jar".to_string(), is_mod: true },
        SelectedMod::Local { file_name: "pack.zip".to_string(), is_mod: false },
        SelectedMod::Local { file_name: "notes.txt".to_string(), is_mod: true },
    ];
    assert_eq!(
        export_mods_markdown(&mods),
        "- [Sodium](https://modrinth.com/mod/AANobbMI)\n- [JEI](https://www.curseforge.com/projects/238222)\nextra\npack\nnotes.txt"
    );
    assert_eq!(export_mods_plain_text(&mods), "Sodium\nJEI\nextra\nnotes.txt\n");
    assert_eq!(export_mods_markdown(&Vec::new()), "");
    assert_eq!(export_mods_plain_text(&Vec::new()), "");
}

#[test]
fn presence_display_types() {
    assert_eq!(PresenceStatusDisplayType::all(), vec![
        PresenceStatusDisplayType::Name,
        PresenceStatusDisplayType::Details,
        PresenceStatusDisplayType::State,
    ]);
    assert_eq!(PresenceStatusDisplayType::default(), PresenceStatusDisplayType::Name);
    assert_eq!(PresenceStatusDisplayType::Details.label(), "Details");
}

#[test]
fn presence_activity_building() {
    assert!(bake_activity(Some("QL".to_string()), PresenceStatusDisplayType::Name, false, None, Some("https://x".to_string()), None, None).is_ok());
    assert!(bake_activity(None, PresenceStatusDisplayType::Details, true, Some("Playing 1.20".to_string()), Some("https://x".to_string()), Some("pack".to_string()), None).is_ok());
    assert!(bake_activity(None, PresenceStatusDisplayType::Details, false, None, None, None, None).is_err());
    assert!(bake_activity(None, PresenceStatusDisplayType::State, false, Some("d".to_string()), None, Some(String::new()), None).is_err());
    assert!(bake_activity(None, PresenceStatusDisplayType::Name, false, Some(String::new()), Some("https://x".to_string()), None, None).is_err());
}

#[test]
fn moving_keeps_the_mods_and_the_order_of_the_others() {
    let mut m = menu(vec![jar("a", true), jar("b", true), jar("c", true), jar("d", true), jar("e", true)], &["b", "d"]);
    m.move_up_or_down(true);
    assert_eq!(names(&m), vec!["b", "a", "d", "c", "e"]);
    let others: Vec<String> = names(&m).into_iter().filter(|n| n != "b" && n != "d").collect();
    assert_eq!(others, vec!["a", "c", "e"]);
    let mut sorted = names(&m);
    sorted.sort();
    assert_eq!(sorted, vec!["a", "b", "c", "d", "e"]);
}
