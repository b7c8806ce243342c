use quantum_launcher::mod_select::{index_in, same_mod, ModSelection};
use quantum_launcher::mods::{ModSource, SelectedMod};

fn local(name: &str) -> SelectedMod {
    SelectedMod::Local { file_name: name.to_string(), is_mod: true }
}

fn list() -> Vec<SelectedMod> {
    vec![local("a.jar"), local("b.jar"), local("c.jar"), local("d.jar"), local("e.jar")]
}

fn names(v: &[SelectedMod]) -> Vec<String> {
    let mut out: Vec<String> = v
        .iter()
        .map(|m| match m {
            SelectedMod::Local { file_name, .. } => file_name.clone(),
            SelectedMod::Downloaded { name, .. } => name.clone(),
        })
        .collect();
    out.sort();
    out
}

fn empty() -> ModSelection {
    ModSelection { selected_mods: Vec::new(), shift_selected_mods: Vec::new(), list_shift_index: None, modal: Some("x".to_string()) }
}

#[test]
fn plain_click_selects_only_that_mod() {
    let l = list();
    let mut s = empty();
    s.select_mod(&l, local("b.jar"), false, false);
    s.select_mod(&l, local("d.jar"), false, false);
    assert_eq!(names(&s.selected_mods), vec!["d.jar"]);
    assert_eq!(s.list_shift_index, Some(3));
    assert!(s.modal.is_none());
}

#[test]
fn plain_click_on_the_only_selected_mod_unselects_it() {
    let l = list();
    let mut s = empty();
    s.select_mod(&l, local("b.jar"), false, false);
    s.select_mod(&l, local("b.jar"), false, false);
    assert!(s.selected_mods.is_empty());
}

#[test]
fn ctrl_click_adds_and_removes() {
    let l = list();
    let mut s = empty();
    s.select_mod(&l, local("a.jar"), false, false);
    s.select_mod(&l, local("c.jar"), true, false);
    assert_eq!(names(&s.selected_mods), vec!["a.jar", "c.jar"]);
    s.select_mod(&l, local("a.jar"), true, false);
    assert_eq!(names(&s.selected_mods), vec!["c.jar"]);
}

#[test]
fn shift_click_selects_a_range_and_replaces_the_last_range() {
    let l = list();
    let mut s = empty();
    s.select_mod(&l, local("b.jar"), false, false);
    s.select_mod(&l, local("d.jar"), false, true);
    assert_eq!(names(&s.selected_mods), vec!["b.jar", "c.jar", "d.jar"]);
    assert_eq!(names(&s.shift_selected_mods), vec!["c.jar", "d.jar"]);
    assert_eq!(s.list_shift_index, Some(1));
    // A second Shift+click replaces the range the first one added.
    s.select_mod(&l, local("a.jar"), false, true);
    assert_eq!(names(&s.selected_mods), vec!["a.jar", "b.jar"]);
    assert_eq!(names(&s.shift_selected_mods), vec!["a.jar"]);
}

#[test]
fn shift_click_on_the_last_clicked_mod_toggles_it() {
    let l = list();
    let mut s = empty();
    s.select_mod(&l, local("c.jar"), false, false);
    s.select_mod(&l, local("c.jar"), false, true);
    assert!(s.selected_mods.is_empty());
}

#[test]
fn mods_are_told_apart_by_every_field() {
    let a = SelectedMod::Downloaded { name: "Sodium".to_string(), id: ModSource::Modrinth("AANobbMI".to_string()) };
    let b = SelectedMod::Downloaded { name: "Sodium".to_string(), id: ModSource::Curseforge("AANobbMI".to_string()) };
    assert!(same_mod(&a, &a));
    assert!(!same_mod(&a, &b));
    assert!(!same_mod(&local("x.jar"), &SelectedMod::Local { file_name: "x.jar".to_string(), is_mod: false }));
}

#[test]
fn index_of_a_mod_not_listed_is_zero() {
    let l = list();
    assert_eq!(index_in(&l, &local("e.jar")), 4);
    assert_eq!(index_in(&l, &local("zzz.jar")), 0);
}

#[test]
fn ctrl_click_twice_restores_the_selection() {
    let l = list();
    let mut s = empty();
    s.select_mod(&l, local("b.jar"), false, false);
    s.select_mod(&l, local("c.jar"), true, false);
    let before = names(&s.selected_mods);
    s.select_mod(&l, local("e.jar"), true, false);
    assert_eq!(names(&s.selected_mods), vec!["b.jar", "c.jar", "e.jar"]);
    s.select_mod(&l, local("e.jar"), true, false);
    assert_eq!(names(&s.selected_mods), before);
}
