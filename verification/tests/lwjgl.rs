use quantum_launcher::lwjgl::{lwjgl_step, LwjglAction, LwjglMsg, LwjglScreen, LwjglState, LwjglVersions};

fn versions(v3: &[&str], v2: &[&str]) -> LwjglVersions {
    LwjglVersions {
        lwjgl3: v3.iter().map(|s| s.to_string()).collect(),
        lwjgl2: v2.iter().map(|s| s.to_string()).collect(),
    }
}

fn loading(initial: Option<&str>) -> LwjglState {
    LwjglState { screen: LwjglScreen::Loading { initial_version: initial.map(str::to_string) }, cache: None }
}

fn selected(s: &LwjglState) -> String {
    match &s.screen {
        LwjglScreen::Loaded { selected_version, .. } => selected_version.clone(),
        _ => panic!("expected the loaded screen"),
    }
}

#[test]
fn preselects_the_set_version_then_the_newest() {
    let mut s = loading(Some("2.9.4"));
    lwjgl_step(&mut s, LwjglMsg::VersionsLoaded(Ok(versions(&["3.3.3"], &["2.9.4"]))));
    assert_eq!(selected(&s), "2.9.4");
    assert_eq!(s.cache.as_ref().map(|c| c.lwjgl3.clone()), Some(vec!["3.3.3".to_string()]));
    let mut s = loading(None);
    lwjgl_step(&mut s, LwjglMsg::VersionsLoaded(Ok(versions(&["3.3.3", "3.2.2"], &["2.9.4"]))));
    assert_eq!(selected(&s), "3.3.3");
    let mut s = loading(None);
    lwjgl_step(&mut s, LwjglMsg::VersionsLoaded(Ok(versions(&[], &["2.9.4"]))));
    assert_eq!(selected(&s), "2.9.4");
    let mut s = loading(None);
    lwjgl_step(&mut s, LwjglMsg::VersionsLoaded(Ok(versions(&[], &[]))));
    assert_eq!(selected(&s), "default");
}

#[test]
fn default_is_saved_as_no_version() {
    let mut s = loading(None);
    lwjgl_step(&mut s, LwjglMsg::VersionsLoaded(Ok(versions(&[], &[]))));
    match lwjgl_step(&mut s, LwjglMsg::Apply) {
        LwjglAction::Save(v) => assert_eq!(v, None),
        LwjglAction::Nothing => panic!("expected a save"),
    }
    lwjgl_step(&mut s, LwjglMsg::VersionSelected(Some("3.3.1".to_string())));
    match lwjgl_step(&mut s, LwjglMsg::Apply) {
        LwjglAction::Save(v) => assert_eq!(v.as_deref(), Some("3.3.1")),
        LwjglAction::Nothing => panic!("expected a save"),
    }
    assert!(matches!(s.screen, LwjglScreen::Loaded { is_applying: true, .. }));
}

#[test]
fn failed_list_shows_an_error() {
    let mut s = loading(None);
    lwjgl_step(&mut s, LwjglMsg::VersionsLoaded(Err("offline".to_string())));
    assert!(matches!(&s.screen, LwjglScreen::Error(e) if e == "Failed to load LWJGL versions: offline"));
    lwjgl_step(&mut s, LwjglMsg::Back);
    assert!(matches!(s.screen, LwjglScreen::Launch));
}
