use quantum_launcher::manage_mods::{manage_mods_step, EditModsState, ModsAction};
use quantum_launcher::mod_select::ModSelection;
use quantum_launcher::jarmods::SelectedState;
use quantum_launcher::mods::{IndexedMod, InfoMessage, ManageModsMessage, ModSource, SelectedMod};

fn local(name: &str) -> SelectedMod {
    SelectedMod::Local { file_name: name.to_string(), is_mod: true }
}

fn indexed(key: &str, enabled: bool, manual: bool) -> IndexedMod {
    IndexedMod {
        key: key.to_string(),
        id: ModSource::Modrinth(key.to_string()),
        name: key.to_uppercase(),
        manually_installed: manual,
        enabled,
    }
}

fn state() -> EditModsState {
    EditModsState {
        sorted_mods: vec![local("a.jar"), local("b.jar"), local("c.jar")],
        selection: ModSelection { selected_mods: Vec::new(), shift_selected_mods: Vec::new(), list_shift_index: None, modal: None },
        selection_state: SelectedState::Empty,
        ctrl_held: false,
        shift_held: false,
        list_scroll: 0,
        local_mods: vec![("a.jar".to_string(), "Mods".to_string()), ("pack.zip".to_string(), "ResourcePacks".to_string())],
        mod_index: vec![indexed("sodium", false, true), indexed("lithium", true, false)],
        available_updates: Vec::new(),
        info_message: None,
        search: None,
        content_filter: None,
    }
}

#[test]
fn select_ensure_selects_exactly_one() {
    let mut m = state();
    manage_mods_step(&mut m, ManageModsMessage::SelectMod(local("a.jar")));
    let r = manage_mods_step(&mut m, ManageModsMessage::SelectEnsure(local("c.jar")));
    assert!(matches!(r, ModsAction::ScrollFix));
    assert_eq!(m.selection.selected_mods.len(), 1);
    assert_eq!(m.selection.list_shift_index, Some(2));
}

#[test]
fn shift_click_uses_held_keys() {
    let mut m = state();
    manage_mods_step(&mut m, ManageModsMessage::SelectMod(local("a.jar")));
    m.shift_held = true;
    manage_mods_step(&mut m, ManageModsMessage::SelectMod(local("c.jar")));
    assert_eq!(m.selection.selected_mods.len(), 3);
}

#[test]
fn right_click_toggles_the_menu() {
    let mut m = state();
    manage_mods_step(&mut m, ManageModsMessage::RightClick("x".to_string()));
    assert_eq!(m.selection.modal.as_deref(), Some("x"));
    manage_mods_step(&mut m, ManageModsMessage::RightClick("y".to_string()));
    assert_eq!(m.selection.modal.as_deref(), Some("y"));
    manage_mods_step(&mut m, ManageModsMessage::RightClick("y".to_string()));
    assert!(m.selection.modal.is_none());
}

#[test]
fn local_files_of_one_kind_are_replaced() {
    let mut m = state();
    manage_mods_step(&mut m, ManageModsMessage::LocalFilesLoaded(vec![("b.jar".to_string(), "Mods".to_string())], "Mods".to_string()));
    let mut names: Vec<String> = m.local_mods.iter().map(|p| p.0.clone()).collect();
    names.sort();
    assert_eq!(names, vec!["b.jar", "pack.zip"]);
}

#[test]
fn update_check_results() {
    let mut m = state();
    manage_mods_step(&mut m, ManageModsMessage::UpdateCheckResult(Ok(Vec::new())));
    assert!(matches!(m.info_message, Some(InfoMessage::Success(ref t)) if t == "No updates found"));
    manage_mods_step(
        &mut m,
        ManageModsMessage::UpdateCheckResult(Ok(vec![("sodium".to_string(), "Sodium".to_string()), ("new".to_string(), "New".to_string())])),
    );
    assert_eq!(m.available_updates[0].2, false);
    assert_eq!(m.available_updates[1].2, true);
    manage_mods_step(&mut m, ManageModsMessage::UpdateCheckToggle(0, true));
    assert_eq!(m.available_updates[0].2, true);
    manage_mods_step(&mut m, ManageModsMessage::UpdatePerformDone(Ok((Some(("changelog.md".to_string(), "/tmp/c".to_string())), true))));
    assert!(m.available_updates.is_empty());
    assert!(matches!(m.info_message, Some(InfoMessage::AtPath { ref text, .. }) if text == "changelog.md written to disk"));
    manage_mods_step(&mut m, ManageModsMessage::UpdatePerformDone(Ok((None, true))));
    assert!(matches!(m.info_message, Some(InfoMessage::Error(_))));
}

#[test]
fn content_filter_clears_the_selection() {
    let mut m = state();
    manage_mods_step(&mut m, ManageModsMessage::SelectMod(local("b.jar")));
    manage_mods_step(&mut m, ManageModsMessage::SetContentFilter(Some("Shaders".to_string())));
    assert!(m.selection.selected_mods.is_empty());
    assert_eq!(m.content_filter.as_deref(), Some("Shaders"));
}

#[test]
fn select_all_selects_hand_installed_and_local_mods_then_clears() {
    let mut m = state();
    let r = manage_mods_step(&mut m, ManageModsMessage::SelectAll);
    assert!(matches!(r, ModsAction::Nothing));
    assert_eq!(m.selection_state, SelectedState::All);
    assert_eq!(m.selection.selected_mods.len(), 3);
    assert!(m.selection.selected_mods.iter().any(|s| matches!(s, SelectedMod::Downloaded { name, .. } if name == "SODIUM")));
    assert!(!m.selection.selected_mods.iter().any(|s| matches!(s, SelectedMod::Downloaded { name, .. } if name == "LITHIUM")));
    assert!(m.selection.selected_mods.iter().any(|s| matches!(s, SelectedMod::Local { file_name, is_mod: true } if file_name == "a.jar")));
    assert!(m.selection.selected_mods.iter().any(|s| matches!(s, SelectedMod::Local { file_name, is_mod: false } if file_name == "pack.zip")));
    manage_mods_step(&mut m, ManageModsMessage::SelectAll);
    assert!(m.selection.selected_mods.is_empty());
    assert_eq!(m.selection_state, SelectedState::Empty);
}
