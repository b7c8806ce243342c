use quantum_launcher::mod_store::{
    install_mods_step, InstallModsMsg, ModOperation, ModVersion, ModsDownloadState, QueryType, SearchHit,
    SearchResults, StoreAction, StoreBackend, StoreModId,
};

fn hits(names: &[&str]) -> Vec<SearchHit> {
    names.iter().map(|n| SearchHit { id: format!("id-{n}"), title: n.to_string() }).collect()
}

fn page(names: &[&str], offset: usize, start: u64, end: bool) -> SearchResults {
    SearchResults { mods: hits(names), offset, reached_end: end, start_time: start, backend: StoreBackend::Modrinth }
}

fn menu() -> ModsDownloadState {
    ModsDownloadState {
        query: String::new(),
        query_type: QueryType::Mods,
        backend: StoreBackend::Modrinth,
        results: None,
        is_loading_continuation: false,
        has_continuation_ended: false,
        latest_load: 0,
        opened_mod: None,
        mod_versions: None,
        in_progress: Vec::new(),
        installed: vec!["id-a".to_string(), "id-b".to_string()],
        described: Vec::new(),
    }
}

fn titles(m: &ModsDownloadState) -> Vec<String> {
    m.results.as_ref().map(|r| r.mods.iter().map(|h| h.title.clone()).collect()).unwrap_or_default()
}

#[test]
fn later_pages_are_appended_and_stale_ones_ignored() {
    let mut m = menu();
    install_mods_step(&mut m, InstallModsMsg::SearchResult(Ok(page(&["a", "b"], 0, 5, false))));
    install_mods_step(&mut m, InstallModsMsg::SearchResult(Ok(page(&["c"], 2, 6, true))));
    assert_eq!(titles(&m), vec!["a", "b", "c"]);
    assert!(m.has_continuation_ended);
    // A search started earlier than the shown one is dropped.
    install_mods_step(&mut m, InstallModsMsg::SearchResult(Ok(page(&["x"], 0, 3, false))));
    assert_eq!(titles(&m), vec!["a", "b", "c"]);
    // A first page replaces the results.
    install_mods_step(&mut m, InstallModsMsg::SearchResult(Ok(page(&["z"], 0, 9, false))));
    assert_eq!(titles(&m), vec!["z"]);
}

#[test]
fn scrolling_near_the_end_loads_the_next_page_once() {
    let mut m = menu();
    install_mods_step(&mut m, InstallModsMsg::SearchResult(Ok(page(&["a", "b"], 3, 5, false))));
    let r = install_mods_step(&mut m, InstallModsMsg::Scrolled { near_end: true });
    assert!(matches!(r, StoreAction::Search { offset: 5, reset_scroll: false }));
    assert!(m.is_loading_continuation);
    let r = install_mods_step(&mut m, InstallModsMsg::Scrolled { near_end: true });
    assert!(matches!(r, StoreAction::Nothing));
}

#[test]
fn changing_the_store_clears_results() {
    let mut m = menu();
    install_mods_step(&mut m, InstallModsMsg::SearchResult(Ok(page(&["a"], 0, 5, false))));
    let r = install_mods_step(&mut m, InstallModsMsg::ChangeBackend(StoreBackend::Curseforge));
    assert!(m.results.is_none());
    assert!(matches!(r, StoreAction::Search { offset: 0, reset_scroll: true }));
}

#[test]
fn downloads_and_removals_are_tracked() {
    let mut m = menu();
    install_mods_step(&mut m, InstallModsMsg::SearchResult(Ok(page(&["a", "b"], 0, 5, false))));
    install_mods_step(&mut m, InstallModsMsg::Click(1));
    install_mods_step(&mut m, InstallModsMsg::VersionsLoaded(Ok(vec![ModVersion { id: "v1".to_string(), name: "B 1.0".to_string() }])));
    let r = install_mods_step(&mut m, InstallModsMsg::InstallVersion(StoreModId::Modrinth("id-b".to_string()), "v1".to_string()));
    assert!(matches!(r, StoreAction::Download { .. }));
    assert_eq!(m.in_progress.len(), 1);
    assert_eq!(m.in_progress[0].1, "B 1.0");
    assert_eq!(m.in_progress[0].2, ModOperation::Downloading);
    install_mods_step(&mut m, InstallModsMsg::DownloadComplete(Ok((StoreModId::Modrinth("id-b".to_string()), Vec::new()))));
    assert!(m.in_progress.is_empty());
    install_mods_step(&mut m, InstallModsMsg::Uninstall(0));
    assert_eq!(m.in_progress[0].2, ModOperation::Deleting);
    install_mods_step(&mut m, InstallModsMsg::UninstallComplete(Ok(vec![StoreModId::Modrinth("id-a".to_string())])));
    assert!(m.in_progress.is_empty());
    assert_eq!(m.installed, vec!["id-b".to_string()]);
}

#[test]
fn unknown_version_is_titled_mod() {
    let mut m = menu();
    install_mods_step(&mut m, InstallModsMsg::InstallVersion(StoreModId::Curseforge("7".to_string()), "v9".to_string()));
    assert_eq!(m.in_progress[0].1, "Mod");
}

#[test]
fn download_records_the_mod_and_asks_for_the_latest_version() {
    let mut m = menu();
    m.results = Some(page(&["a", "b"], 0, 1, true));
    let r = install_mods_step(&mut m, InstallModsMsg::Download(1));
    match r {
        StoreAction::DownloadLatest(StoreModId::Modrinth(id)) => assert_eq!(id, "id-b"),
        _ => panic!("expected a download"),
    }
    assert_eq!(m.in_progress.len(), 1);
    assert_eq!(m.in_progress[0].1, "b");
    assert_eq!(m.in_progress[0].2, ModOperation::Downloading);
    let r = install_mods_step(&mut m, InstallModsMsg::Download(7));
    assert!(matches!(r, StoreAction::Nothing));
    assert_eq!(m.in_progress.len(), 1);
}

#[test]
fn modpack_download_is_confirmed_first() {
    let mut m = menu();
    m.query_type = QueryType::ModPacks;
    m.backend = StoreBackend::Curseforge;
    m.results = Some(page(&["pack"], 0, 1, true));
    let r = install_mods_step(&mut m, InstallModsMsg::Download(0));
    match r {
        StoreAction::ConfirmModpack { title, id: StoreModId::Curseforge(id) } => {
            assert_eq!(title, "pack");
            assert_eq!(id, "id-pack");
        }
        _ => panic!("expected a confirmation"),
    }
    let r = install_mods_step(&mut m, InstallModsMsg::InstallModpack(StoreModId::Curseforge("id-pack".to_string())));
    assert!(matches!(r, StoreAction::InstallModpack(StoreModId::Curseforge(ref id)) if id == "id-pack"));
}
