//! The mod management menu of an instance: selection, the right-click
//! menu, search and content filter, local files, update checks and their
//! results, as one step from the state and a message to the next state and
//! the work to start.
use vstd::prelude::*;
use crate::accounts::str_eq;
use crate::mod_select::{clicked, list_index, mod_key, ModSelection};
use crate::mods::{IndexedMod, InfoMessage, ManageModsMessage, SelectedMod};
use crate::jarmods::SelectedState;
use crate::mod_select::{copy_source, insert_mod, key_set};
use crate::text::concat;

verus! {

/// The mod management menu.
pub struct EditModsState {
    /// The listed mods in their order.
    pub sorted_mods: Vec<SelectedMod>,
    pub selection: ModSelection,
    /// Whether all, some or none of the mods are selected.
    pub selection_state: SelectedState,
    /// Whether Ctrl (or Command) and Shift are held.
    pub ctrl_held: bool,
    pub shift_held: bool,
    pub list_scroll: u32,
    /// The local files: name and content kind.
    pub local_mods: Vec<(String, String)>,
    /// The downloaded mods of the mod index.
    pub mod_index: Vec<IndexedMod>,
    /// The available updates: id, title and whether it is to be applied.
    pub available_updates: Vec<(String, String, bool)>,
    pub info_message: Option<InfoMessage>,
    pub search: Option<String>,
    pub content_filter: Option<String>,
}

/// The work a mod management message asks for.
pub enum ModsAction {
    Nothing,
    Fail(String),
    /// Keep the list at its scroll position.
    ScrollFix,
    /// Open the menu again (after adding files: the files the store does
    /// not allow to be downloaded, to be fetched by hand).
    OpenMenu(Vec<String>),
    DeleteSelected,
    DeleteOptiforge(String),
    ToggleSelected,
    ToggleOne(String),
    ToggleOneLocal(String),
    CheckForUpdates,
    ApplyUpdates,
    PickFiles(bool, String),
    AddFiles(bool, Vec<String>, String),
    SetManualDelete(bool),
}

/// A local file as a pair of texts.
pub open spec fn local_key(p: (String, String)) -> (Seq<char>, Seq<char>) {
    (p.0@, p.1@)
}

/// The local files, as a set.
pub open spec fn local_set(v: Seq<(String, String)>) -> Set<(Seq<char>, Seq<char>)> {
    Set::new(|k: (Seq<char>, Seq<char>)| exists|i: int| 0 <= i < v.len() && #[trigger] local_key(v[i]) == k)
}

/// Whether the mod index lists the mod as disabled.
pub open spec fn index_disabled(idx: Seq<IndexedMod>, id: Seq<char>) -> bool {
    exists|i: int| 0 <= i < idx.len() && (#[trigger] idx[i]).key@ == id && !idx[i].enabled
        && forall|j: int| 0 <= j < i ==> (#[trigger] idx[j]).key@ != id
}

/// The selection key of a local file: a mod when its content kind is
/// "Mods".
pub open spec fn local_mod_key(p: (String, String)) -> (int, Seq<char>, Seq<char>) {
    (if p.1@ == "Mods"@ { 2 } else { 3 }, p.0@, Seq::empty())
}

/// The selection key of a downloaded mod of the index.
pub open spec fn indexed_mod_key(m: IndexedMod) -> (int, Seq<char>, Seq<char>) {
    mod_key(SelectedMod::Downloaded { name: m.name, id: m.id })
}

/// Every mod that "select all" selects: the mods of the index installed by
/// hand, and every local file.
pub open spec fn all_mod_keys(idx: Seq<IndexedMod>, locals: Seq<(String, String)>) -> Set<(int, Seq<char>, Seq<char>)> {
    Set::new(|k: (int, Seq<char>, Seq<char>)|
        (exists|i: int| 0 <= i < idx.len() && (#[trigger] idx[i]).manually_installed && indexed_mod_key(idx[i]) == k)
        || (exists|j: int| 0 <= j < locals.len() && #[trigger] local_mod_key(locals[j]) == k))
}

/// The available updates made from an update check: each mod with its
/// title, to be applied unless the index lists it as disabled.
pub open spec fn updates_from(idx: Seq<IndexedMod>, ups: Seq<(String, String)>, n: Seq<(String, String, bool)>) -> bool {
    &&& n.len() == ups.len()
    &&& forall|i: int| 0 <= i < ups.len() ==> (#[trigger] n[i]).0 == ups[i].0 && n[i].1 == ups[i].1
        && n[i].2 == !index_disabled(idx, ups[i].0@)
}

/// The next state and the work for a mod management message.
pub open spec fn manage_mods_effect(o: EditModsState, msg: ManageModsMessage, n: EditModsState, r: ModsAction) -> bool {
    match msg {
        ManageModsMessage::AddFileDone(Err(e)) | ManageModsMessage::DeleteFinished(Err(e))
        | ManageModsMessage::IndexLoaded(Err(e)) | ManageModsMessage::UpdatePerformDone(Err(e)) => n == o
            && r == ModsAction::Fail(e),
        ManageModsMessage::Open => n == o && (r matches ModsAction::OpenMenu(v) && v@.len() == 0),
        ManageModsMessage::AddFileDone(Ok(not_allowed)) => n == o && r == ModsAction::OpenMenu(not_allowed),
        ManageModsMessage::IndexLoaded(Ok(idx)) => n == (EditModsState { mod_index: idx, ..o }) && r is Nothing,
        ManageModsMessage::ListScrolled(px) => n == (EditModsState { list_scroll: px, ..o }) && r is Nothing,
        ManageModsMessage::SelectEnsure(m) => {
            &&& n == (EditModsState { selection: n.selection, ..o })
            &&& n.selection.selected() == set![mod_key(m)]
            &&& n.selection.shift_selected() == Set::<(int, Seq<char>, Seq<char>)>::empty()
            &&& n.selection.list_shift_index == Some(list_index(o.sorted_mods@, mod_key(m)) as usize)
            &&& n.selection.modal == o.selection.modal
            &&& r is ScrollFix
        },
        ManageModsMessage::SelectMod(m) => {
            &&& n == (EditModsState { selection: n.selection, ..o })
            &&& clicked(o.selection, o.sorted_mods@, m, o.ctrl_held, o.shift_held, n.selection)
            &&& n.selection.modal is None
            &&& r is ScrollFix
        },
        ManageModsMessage::DeleteFinished(Ok(_)) => {
            &&& n == (EditModsState { selection: n.selection, ..o })
            &&& n.selection == (ModSelection { selected_mods: n.selection.selected_mods, ..o.selection })
            &&& n.selection.selected_mods@.len() == 0
            &&& r is Nothing
        },
        ManageModsMessage::LocalFilesLoaded(files, kind) => {
            &&& n == (EditModsState { local_mods: n.local_mods, ..o })
            &&& local_set(n.local_mods@) == local_set(o.local_mods@).filter(
                |k: (Seq<char>, Seq<char>)| k.1 != kind@,
            ).union(local_set(files@))
            &&& r is Nothing
        },
        ManageModsMessage::UpdatePerformDone(Ok((file, should_write))) => {
            &&& n == (EditModsState { available_updates: n.available_updates, info_message: n.info_message, ..o })
            &&& n.available_updates@.len() == 0
            &&& match file {
                Some((name, path)) => n.info_message matches Some(InfoMessage::AtPath { text, path: p })
                    && text@ == name@ + " written to disk"@ && p == path,
                None => if should_write {
                    n.info_message matches Some(InfoMessage::Error(t)) && t@ == "Changelog was not written to disk"@
                } else {
                    n.info_message is None
                },
            }
            &&& r is Nothing
        },
        ManageModsMessage::UpdateCheckResult(Err(_)) => n == o && r is Nothing,
        ManageModsMessage::UpdateCheckResult(Ok(ups)) => {
            &&& n == (EditModsState { available_updates: n.available_updates, info_message: n.info_message, ..o })
            &&& updates_from(o.mod_index@, ups@, n.available_updates@)
            &&& if ups@.len() == 0 {
                n.info_message matches Some(InfoMessage::Success(t)) && t@ == "No updates found"@
            } else {
                n.info_message == o.info_message
            }
            &&& r is Nothing
        },
        ManageModsMessage::UpdateCheckToggle(idx, t) => r is Nothing && if idx < o.available_updates@.len() {
            &&& n == (EditModsState { available_updates: n.available_updates, ..o })
            &&& n.available_updates@ == o.available_updates@.update(
                idx as int,
                (o.available_updates@[idx as int].0, o.available_updates@[idx as int].1, t),
            )
        } else {
            n == o
        },
        ManageModsMessage::SetInfoMessage(m) => n == (EditModsState { info_message: m, ..o }) && r is Nothing,
        ManageModsMessage::SetModal(m) => n == (EditModsState {
            selection: ModSelection { modal: m, ..o.selection },
            ..o
        }) && r is ScrollFix,
        ManageModsMessage::SetSearch(s) => n == (EditModsState {
            selection: ModSelection { modal: None, ..o.selection },
            search: s,
            ..o
        }) && r is ScrollFix,
        ManageModsMessage::SetContentFilter(f) => {
            &&& n == (EditModsState { content_filter: f, selection: n.selection, ..o })
            &&& n.selection == (ModSelection {
                selected_mods: n.selection.selected_mods,
                shift_selected_mods: n.selection.shift_selected_mods,
                ..o.selection
            })
            &&& n.selection.selected_mods@.len() == 0 && n.selection.shift_selected_mods@.len() == 0
            &&& r is Nothing
        },
        ManageModsMessage::RightClick(id) => {
            &&& n == (EditModsState { selection: ModSelection { modal: n.selection.modal, ..o.selection }, ..o })
            &&& if o.selection.modal matches Some(old_id) && old_id@ == id@ {
                n.selection.modal is None
            } else {
                n.selection.modal == Some(id)
            }
            &&& r is ScrollFix
        },
        ManageModsMessage::UpdateCheck => n == (EditModsState {
            selection: ModSelection { modal: None, ..o.selection },
            ..o
        }) && r is CheckForUpdates,
        ManageModsMessage::DeleteSelected => n == o && r is DeleteSelected,
        ManageModsMessage::DeleteOptiforge(name) => n == o && r == ModsAction::DeleteOptiforge(name),
        ManageModsMessage::ToggleSelected => n == o && r is ToggleSelected,
        ManageModsMessage::ToggleOne(id) => n == o && r == ModsAction::ToggleOne(id),
        ManageModsMessage::ToggleOneLocal(f) => n == o && r == ModsAction::ToggleOneLocal(f),
        ManageModsMessage::SelectAll => {
            &&& r is Nothing
            &&& n == (EditModsState {
                selection: ModSelection { selected_mods: n.selection.selected_mods, ..o.selection },
                selection_state: n.selection_state,
                ..o
            })
            &&& if o.selection_state == SelectedState::All {
                n.selection.selected_mods@.len() == 0 && n.selection_state == SelectedState::Empty
            } else {
                key_set(n.selection.selected_mods@) == all_mod_keys(o.mod_index@, o.local_mods@)
                    && n.selection_state == SelectedState::All
            }
        },
        ManageModsMessage::UpdatePerform => n == o && r is ApplyUpdates,
        ManageModsMessage::AddFile(d, kind) => n == o && r == ModsAction::PickFiles(d, kind),
        ManageModsMessage::AddFileSelected(d, paths, kind) => n == o && r == ModsAction::AddFiles(d, paths, kind),
        ManageModsMessage::CurseforgeManualToggleDelete(t) => n == o && r == ModsAction::SetManualDelete(t),
    }
}

proof fn lemma_local_set_push(v: Seq<(String, String)>, p: (String, String))
    ensures
        local_set(v.push(p)) == local_set(v).insert(local_key(p)),
{
    let w = v.push(p);
    assert forall|k| local_set(w).contains(k) <==> #[trigger] local_set(v).insert(local_key(p)).contains(k) by {
        if local_set(w).contains(k) {
            let i = choose|i: int| 0 <= i < w.len() && #[trigger] local_key(w[i]) == k;
            if i < v.len() {
                assert(local_key(v[i]) == k);
            }
        }
        if local_set(v).contains(k) {
            let i = choose|i: int| 0 <= i < v.len() && #[trigger] local_key(v[i]) == k;
            assert(local_key(w[i]) == k);
        }
        if k == local_key(p) {
            assert(local_key(w[v.len() as int]) == k);
        }
    }
    assert(local_set(w) =~= local_set(v).insert(local_key(p)));
}

fn holds_local(v: &Vec<(String, String)>, p: &(String, String)) -> (r: bool)
    ensures
        r == local_set(v@).contains(local_key(*p)),
{
    let mut i: usize = 0;
    while i < v.len()
        invariant
            i <= v@.len(),
            forall|j: int| 0 <= j < i ==> #[trigger] local_key(v@[j]) != local_key(*p),
        decreases v.len() - i,
    {
        if str_eq(v[i].0.as_str(), p.0.as_str()) && str_eq(v[i].1.as_str(), p.1.as_str()) {
            assert(local_key(v@[i as int]) == local_key(*p));
            return true;
        }
        i += 1;
    }
    false
}

/// The local files of the other kinds, with the files now found for `kind`.
fn reload_local(v: &Vec<(String, String)>, files: &Vec<(String, String)>, kind: &String) -> (r: Vec<(String, String)>)
    ensures
        local_set(r@) == local_set(v@).filter(|k: (Seq<char>, Seq<char>)| k.1 != kind@).union(local_set(files@)),
{
    let mut out: Vec<(String, String)> = Vec::new();
    proof {
        assert(local_set(out@) =~= Set::empty());
    }
    let mut i: usize = 0;
    while i < v.len()
        invariant
            i <= v@.len(),
            local_set(out@) == local_set(v@.take(i as int)).filter(|k: (Seq<char>, Seq<char>)| k.1 != kind@),
        decreases v.len() - i,
    {
        let ghost before = out@;
        proof {
            assert(v@.take(i + 1) == v@.take(i as int).push(v@[i as int]));
            lemma_local_set_push(v@.take(i as int), v@[i as int]);
        }
        if !str_eq(v[i].1.as_str(), kind.as_str()) {
            out.push((v[i].0.clone(), v[i].1.clone()));
            proof {
                lemma_local_set_push(before, out@.last());
            }
        }
        i += 1;
        proof {
            assert(local_set(out@) =~= local_set(v@.take(i as int)).filter(|k: (Seq<char>, Seq<char>)| k.1 != kind@));
        }
    }
    proof {
        assert(v@.take(v@.len() as int) == v@);
    }
    let ghost base = local_set(out@);
    let mut j: usize = 0;
    while j < files.len()
        invariant
            j <= files@.len(),
            local_set(out@) == base.union(local_set(files@.take(j as int))),
        decreases files.len() - j,
    {
        proof {
            assert(files@.take(j + 1) == files@.take(j as int).push(files@[j as int]));
            lemma_local_set_push(files@.take(j as int), files@[j as int]);
        }
        let p = (files[j].0.clone(), files[j].1.clone());
        if !holds_local(&out, &p) {
            let ghost before = out@;
            out.push(p);
            proof {
                lemma_local_set_push(before, out@.last());
            }
        }
        j += 1;
        proof {
            assert(local_set(out@) =~= base.union(local_set(files@.take(j as int))));
        }
    }
    proof {
        assert(files@.take(files@.len() as int) == files@);
    }
    out
}

/// Whether the mod index lists the mod as disabled (see `index_disabled`).
fn disabled_in_index(idx: &Vec<IndexedMod>, id: &String) -> (r: bool)
    ensures
        r == index_disabled(idx@, id@),
{
    let mut i: usize = 0;
    while i < idx.len()
        invariant
            i <= idx@.len(),
            forall|j: int| 0 <= j < i ==> (#[trigger] idx@[j]).key@ != id@,
        decreases idx.len() - i,
    {
        if str_eq(idx[i].key.as_str(), id.as_str()) {
            proof {
                if idx@[i as int].enabled {
                    if index_disabled(idx@, id@) {
                        let c = choose|c: int| 0 <= c < idx@.len() && (#[trigger] idx@[c]).key@ == id@ && !idx@[c].enabled
                            && forall|j: int| 0 <= j < c ==> (#[trigger] idx@[j]).key@ != id@;
                        if c > i {
                            assert(idx@[i as int].key@ != id@);
                        }
                    }
                } else {
                    assert(0 <= i < idx@.len() && idx@[i as int].key@ == id@ && !idx@[i as int].enabled
                        && forall|j: int| 0 <= j < i ==> (#[trigger] idx@[j]).key@ != id@);
                }
            }
            return !idx[i].enabled;
        }
        i += 1;
    }
    false
}

/// Every mod installed by hand and every local file, each once.
fn select_all(idx: &Vec<IndexedMod>, locals: &Vec<(String, String)>) -> (r: Vec<SelectedMod>)
    ensures
        crate::mod_select::distinct_keys(r@),
        key_set(r@) == all_mod_keys(idx@, locals@),
{
    let mut out: Vec<SelectedMod> = Vec::new();
    proof {
        assert(key_set(out@) =~= Set::empty());
    }
    let mut i: usize = 0;
    while i < idx.len()
        invariant
            i <= idx@.len(),
            crate::mod_select::distinct_keys(out@),
            key_set(out@) == Set::new(|k: (int, Seq<char>, Seq<char>)|
                exists|a: int| 0 <= a < i && (#[trigger] idx@[a]).manually_installed && indexed_mod_key(idx@[a]) == k),
        decreases idx.len() - i,
    {
        let ghost before = key_set(out@);
        if idx[i].manually_installed {
            let m = SelectedMod::Downloaded { name: idx[i].name.clone(), id: copy_source(&idx[i].id) };
            assert(mod_key(m) == indexed_mod_key(idx@[i as int]));
            let _ = insert_mod(&mut out, &m);
        }
        i += 1;
        proof {
            assert(key_set(out@) =~= Set::new(|k: (int, Seq<char>, Seq<char>)|
                exists|a: int| 0 <= a < i && (#[trigger] idx@[a]).manually_installed && indexed_mod_key(idx@[a]) == k)) by {
                assert forall|k| #[trigger] key_set(out@).contains(k) implies exists|a: int| 0 <= a < i
                    && (#[trigger] idx@[a]).manually_installed && indexed_mod_key(idx@[a]) == k by {
                    if !before.contains(k) {
                        assert(idx@[i - 1].manually_installed && indexed_mod_key(idx@[i - 1]) == k);
                    }
                }
                assert forall|k| (exists|a: int| 0 <= a < i && (#[trigger] idx@[a]).manually_installed
                    && indexed_mod_key(idx@[a]) == k) implies #[trigger] key_set(out@).contains(k) by {
                    let a = choose|a: int| 0 <= a < i && (#[trigger] idx@[a]).manually_installed && indexed_mod_key(idx@[a]) == k;
                    if a < i - 1 {
                        assert(before.contains(k));
                    }
                }
            }
        }
    }
    let ghost downloaded = key_set(out@);
    let mut j: usize = 0;
    while j < locals.len()
        invariant
            j <= locals@.len(),
            crate::mod_select::distinct_keys(out@),
            key_set(out@) == downloaded.union(Set::new(|k: (int, Seq<char>, Seq<char>)|
                exists|b: int| 0 <= b < j && #[trigger] local_mod_key(locals@[b]) == k)),
        decreases locals.len() - j,
    {
        let ghost before = key_set(out@);
        let m = SelectedMod::Local { file_name: locals[j].0.clone(), is_mod: str_eq(locals[j].1.as_str(), "Mods") };
        assert(mod_key(m) == local_mod_key(locals@[j as int]));
        let _ = insert_mod(&mut out, &m);
        j += 1;
        proof {
            assert(key_set(out@) =~= downloaded.union(Set::new(|k: (int, Seq<char>, Seq<char>)|
                exists|b: int| 0 <= b < j && #[trigger] local_mod_key(locals@[b]) == k))) by {
                assert forall|k| #[trigger] key_set(out@).contains(k) && !downloaded.contains(k) implies exists|b: int|
                    0 <= b < j && #[trigger] local_mod_key(locals@[b]) == k by {
                    if !before.contains(k) {
                        assert(local_mod_key(locals@[j - 1]) == k);
                    }
                }
                assert forall|k| (exists|b: int| 0 <= b < j && #[trigger] local_mod_key(locals@[b]) == k)
                    implies #[trigger] key_set(out@).contains(k) by {
                    let b = choose|b: int| 0 <= b < j && #[trigger] local_mod_key(locals@[b]) == k;
                    if b < j - 1 {
                        assert(before.contains(k));
                    }
                }
            }
        }
    }
    proof {
        assert(key_set(out@) =~= all_mod_keys(idx@, locals@));
    }
    out
}

/// One step of the mod management menu (see `manage_mods_effect`). A click
/// needs what `ModSelection::select_mod` needs.
pub fn manage_mods_step(m: &mut EditModsState, msg: ManageModsMessage) -> (r: ModsAction)
    requires
        old(m).selection.wf(),
        msg matches ManageModsMessage::SelectMod(sm) ==> (crate::mod_select::selects_range(
            old(m).selection.list_shift_index,
            old(m).sorted_mods@,
            mod_key(sm),
            old(m).shift_held,
        ) ==> old(m).selection.list_shift_index->0 < old(m).sorted_mods@.len() && list_index(
            old(m).sorted_mods@,
            mod_key(sm),
        ) < old(m).sorted_mods@.len()),
    ensures
        final(m).selection.wf(),
        manage_mods_effect(*old(m), msg, *final(m), r),
{
    match msg {
        ManageModsMessage::AddFileDone(Err(e)) | ManageModsMessage::DeleteFinished(Err(e))
        | ManageModsMessage::IndexLoaded(Err(e)) | ManageModsMessage::UpdatePerformDone(Err(e)) => ModsAction::Fail(e),
        ManageModsMessage::Open => ModsAction::OpenMenu(Vec::new()),
        ManageModsMessage::AddFileDone(Ok(not_allowed)) => ModsAction::OpenMenu(not_allowed),
        ManageModsMessage::IndexLoaded(Ok(idx)) => {
            m.mod_index = idx;
            ModsAction::Nothing
        },
        ManageModsMessage::ListScrolled(px) => {
            m.list_scroll = px;
            ModsAction::Nothing
        },
        ManageModsMessage::SelectEnsure(sm) => {
            let idx = crate::mod_select::index_in(&m.sorted_mods, &sm);
            m.selection.list_shift_index = Some(idx);
            m.selection.shift_selected_mods = Vec::new();
            let mut one: Vec<SelectedMod> = Vec::new();
            one.push(sm);
            proof {
                let v = one@;
                assert(crate::mod_select::key_set(v) =~= set![mod_key(v[0])]) by {
                    assert forall|k| crate::mod_select::key_set(v).contains(k) implies k == mod_key(v[0]) by {
                        let i = choose|i: int| 0 <= i < v.len() && #[trigger] mod_key(v[i]) == k;
                    }
                    assert(mod_key(v[0]) == mod_key(v[0]));
                }
                assert(crate::mod_select::key_set(Seq::<SelectedMod>::empty()) =~= Set::<(int, Seq<char>, Seq<char>)>::empty());
            }
            m.selection.selected_mods = one;
            ModsAction::ScrollFix
        },
        ManageModsMessage::SelectMod(sm) => {
            let ctrl = m.ctrl_held;
            let shift = m.shift_held;
            let list = &m.sorted_mods;
            m.selection.select_mod(list, sm, ctrl, shift);
            ModsAction::ScrollFix
        },
        ManageModsMessage::DeleteFinished(Ok(_)) => {
            m.selection.selected_mods = Vec::new();
            ModsAction::Nothing
        },
        ManageModsMessage::LocalFilesLoaded(files, kind) => {
            m.local_mods = reload_local(&m.local_mods, &files, &kind);
            ModsAction::Nothing
        },
        ManageModsMessage::UpdatePerformDone(Ok((file, should_write))) => {
            m.available_updates = Vec::new();
            m.info_message = match file {
                Some((name, path)) => Some(InfoMessage::AtPath { text: concat(name.as_str(), " written to disk"), path }),
                None => if should_write {
                    Some(InfoMessage::Error("Changelog was not written to disk".to_owned()))
                } else {
                    None
                },
            };
            ModsAction::Nothing
        },
        ManageModsMessage::UpdateCheckResult(Err(_)) => ModsAction::Nothing,
        ManageModsMessage::UpdateCheckResult(Ok(ups)) => {
            if ups.len() == 0 {
                m.info_message = Some(InfoMessage::Success("No updates found".to_owned()));
            }
            let mut out: Vec<(String, String, bool)> = Vec::new();
            let mut i: usize = 0;
            while i < ups.len()
                invariant
                    i <= ups@.len(),
                    out@.len() == i,
                    forall|j: int| 0 <= j < i ==> (#[trigger] out@[j]).0 == ups@[j].0 && out@[j].1 == ups@[j].1
                        && out@[j].2 == !index_disabled(m.mod_index@, ups@[j].0@),
                decreases ups.len() - i,
            {
                let enabled = !disabled_in_index(&m.mod_index, &ups[i].0);
                out.push((ups[i].0.clone(), ups[i].1.clone(), enabled));
                i += 1;
            }
            m.available_updates = out;
            ModsAction::Nothing
        },
        ManageModsMessage::UpdateCheckToggle(idx, t) => {
            if idx < m.available_updates.len() {
                let id = m.available_updates[idx].0.clone();
                let title = m.available_updates[idx].1.clone();
                m.available_updates.set(idx, (id, title, t));
            }
            ModsAction::Nothing
        },
        ManageModsMessage::SetInfoMessage(msg) => {
            m.info_message = msg;
            ModsAction::Nothing
        },
        ManageModsMessage::SetModal(modal) => {
            m.selection.modal = modal;
            ModsAction::ScrollFix
        },
        ManageModsMessage::SetSearch(s) => {
            m.selection.modal = None;
            m.search = s;
            ModsAction::ScrollFix
        },
        ManageModsMessage::SetContentFilter(f) => {
            m.content_filter = f;
            m.selection.selected_mods = Vec::new();
            m.selection.shift_selected_mods = Vec::new();
            ModsAction::Nothing
        },
        ManageModsMessage::RightClick(id) => {
            let same = match &m.selection.modal {
                Some(old_id) => str_eq(old_id.as_str(), id.as_str()),
                None => false,
            };
            if same {
                m.selection.modal = None;
            } else {
                m.selection.modal = Some(id);
            }
            ModsAction::ScrollFix
        },
        ManageModsMessage::UpdateCheck => {
            m.selection.modal = None;
            ModsAction::CheckForUpdates
        },
        ManageModsMessage::DeleteSelected => ModsAction::DeleteSelected,
        ManageModsMessage::DeleteOptiforge(name) => ModsAction::DeleteOptiforge(name),
        ManageModsMessage::ToggleSelected => ModsAction::ToggleSelected,
        ManageModsMessage::ToggleOne(id) => ModsAction::ToggleOne(id),
        ManageModsMessage::ToggleOneLocal(f) => ModsAction::ToggleOneLocal(f),
        ManageModsMessage::SelectAll => {
            if m.selection_state == SelectedState::All {
                m.selection.selected_mods = Vec::new();
                m.selection_state = SelectedState::Empty;
            } else {
                m.selection.selected_mods = select_all(&m.mod_index, &m.local_mods);
                m.selection_state = SelectedState::All;
            }
            ModsAction::Nothing
        },
        ManageModsMessage::UpdatePerform => ModsAction::ApplyUpdates,
        ManageModsMessage::AddFile(d, kind) => ModsAction::PickFiles(d, kind),
        ManageModsMessage::AddFileSelected(d, paths, kind) => ModsAction::AddFiles(d, paths, kind),
        ManageModsMessage::CurseforgeManualToggleDelete(t) => ModsAction::SetManualDelete(t),
    }
}

} // verus!
