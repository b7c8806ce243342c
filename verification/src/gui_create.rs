//! The version chooser of the launcher window's create-instance screen:
//! the search box that jumps to the first matching version, the category
//! menu (of which one category always stays picked), and the request that
//! starts the creation.

use vstd::prelude::*;
use crate::text::{contains_str, has_substring, lowercase, to_lowercase, trim, trim_seq};
use crate::versions::VersionCategory;

verus! {

/// A version of the version list: its name, its category and whether a
/// server can be made of it.
pub struct VersionEntry {
    pub name: String,
    pub kind: VersionCategory,
    pub supports_server: bool,
}

impl Clone for VersionEntry {
    fn clone(&self) -> (r: Self)
        ensures
            r == *self,
    {
        VersionEntry { name: self.name.clone(), kind: self.kind, supports_server: self.supports_server }
    }
}

/// The chooser: the name typed, the version picked, whether assets are
/// downloaded, the search text, whether the category menu is open, the
/// categories picked and whether a server is made.
pub struct CreateMenu {
    pub instance_name: String,
    pub selected_version: VersionEntry,
    pub download_assets: bool,
    pub search_box: String,
    pub show_category_dropdown: bool,
    pub selected_categories: Vec<VersionCategory>,
    pub is_server: bool,
}

impl CreateMenu {
    /// No category is picked twice.
    pub open spec fn wf(&self) -> bool {
        self.selected_categories@.no_duplicates()
    }
}

/// The messages of the chooser.
pub enum CreateMsg {
    VersionSelected(VersionEntry),
    SearchInput(String),
    /// Jump to the first version that the search text matches.
    SearchSubmit,
    ContextMenuToggle,
    CategoryToggle(VersionCategory),
    NameInput(String),
    ChangeAssetToggle(bool),
    Start,
}

/// What the chooser asks for.
pub enum CreateAction {
    Nothing,
    /// Create an instance (or a server) of the version under the name.
    Create { name: String, version: VersionEntry, download_assets: bool, is_server: bool },
}

/// Whether a version matches the search: it can be used for what is made,
/// its category is picked, and the trimmed search text is empty or occurs,
/// lowercased, in its lowercased trimmed name.
pub open spec fn search_matches(e: VersionEntry, is_server: bool, cats: Seq<VersionCategory>, query: Seq<char>) -> bool {
    &&& e.supports_server || !is_server
    &&& cats.contains(e.kind)
    &&& trim_seq(query).len() == 0 || has_substring(lowercase(trim_seq(e.name@)), lowercase(trim_seq(query)))
}

/// The position of the first version that matches the search, if any.
pub open spec fn first_match(list: Seq<VersionEntry>, is_server: bool, cats: Seq<VersionCategory>, query: Seq<char>) -> Option<int> {
    if exists|i: int| 0 <= i < list.len() && search_matches(list[i], is_server, cats, query) {
        Some(choose|i: int| 0 <= i < list.len() && search_matches(list[i], is_server, cats, query)
            && forall|j: int| 0 <= j < i ==> !search_matches(#[trigger] list[j], is_server, cats, query))
    } else {
        None
    }
}

/// Whether a category is another one than `k`.
pub open spec fn other_than(k: VersionCategory) -> spec_fn(VersionCategory) -> bool {
    |c: VersionCategory| c != k
}

/// The categories after toggling `k`: a picked one is dropped unless it is
/// the only one, another one is added.
pub open spec fn toggled_categories(cats: Seq<VersionCategory>, k: VersionCategory) -> Seq<VersionCategory> {
    if cats.contains(k) {
        if cats.len() > 1 {
            cats.filter(other_than(k))
        } else {
            cats
        }
    } else {
        cats.push(k)
    }
}

/// Toggling a category never leaves none picked.
pub proof fn law_category_toggle_keeps_one(cats: Seq<VersionCategory>, k: VersionCategory)
    requires
        cats.len() > 0,
        cats.no_duplicates(),
    ensures
        toggled_categories(cats, k).len() > 0,
{
    if cats.contains(k) && cats.len() > 1 {
        let i: int = if cats[0] != k { 0 } else { 1 };
        assert(cats[i] != k);
        cats.lemma_filter_contains(other_than(k), i);
    }
}

/// The name an instance is created under: the typed name, or the version's
/// name when only blanks were typed.
pub open spec fn created_name(typed: Seq<char>, version: Seq<char>) -> Seq<char> {
    if trim_seq(typed).len() == 0 { version } else { typed }
}

/// The next chooser and what it asks for, given the version list.
pub open spec fn create_menu_effect(o: CreateMenu, list: Seq<VersionEntry>, msg: CreateMsg, n: CreateMenu, r: CreateAction) -> bool {
    match msg {
        CreateMsg::VersionSelected(v) => r is Nothing && n == (CreateMenu { selected_version: v, ..o }),
        CreateMsg::SearchInput(t) => r is Nothing && n == (CreateMenu { search_box: t, ..o }),
        CreateMsg::SearchSubmit => r is Nothing && match first_match(list, o.is_server, o.selected_categories@, o.search_box@) {
            Some(i) => n == (CreateMenu { selected_version: list[i], ..o }),
            None => n == o,
        },
        CreateMsg::ContextMenuToggle => r is Nothing && n == (CreateMenu {
            show_category_dropdown: !o.show_category_dropdown,
            ..o
        }),
        CreateMsg::CategoryToggle(k) => {
            &&& r is Nothing
            &&& n == (CreateMenu { selected_categories: n.selected_categories, ..o })
            &&& n.selected_categories@ == toggled_categories(o.selected_categories@, k)
        },
        CreateMsg::NameInput(t) => r is Nothing && n == (CreateMenu { instance_name: t, ..o }),
        CreateMsg::ChangeAssetToggle(t) => r is Nothing && n == (CreateMenu { download_assets: t, ..o }),
        CreateMsg::Start => n == o && (r matches CreateAction::Create { name, version, download_assets, is_server }
            && name@ == created_name(o.instance_name@, o.selected_version.name@)
            && version == o.selected_version && download_assets == o.download_assets && is_server == o.is_server),
    }
}

/// `cats` holds `k` (executable).
fn holds_category(cats: &Vec<VersionCategory>, k: VersionCategory) -> (r: bool)
    ensures
        r == cats@.contains(k),
{
    let mut i: usize = 0;
    while i < cats.len()
        invariant
            i <= cats@.len(),
            forall|j: int| 0 <= j < i ==> cats@[j] != k,
        decreases cats.len() - i,
    {
        if cats[i] == k {
            assert(cats@[i as int] == k);
            return true;
        }
        i += 1;
    }
    false
}

/// Whether a version matches the search (see `search_matches`), given the
/// search text trimmed and, lowercased.
fn matches_search(
    e: &VersionEntry,
    is_server: bool,
    cats: &Vec<VersionCategory>,
    query: &str,
    trimmed: &String,
    lowered: &String,
) -> (r: bool)
    requires
        trimmed@ == trim_seq(query@),
        lowered@ == lowercase(trimmed@),
    ensures
        r == search_matches(*e, is_server, cats@, query@),
{
    if !(e.supports_server || !is_server) {
        return false;
    }
    if !holds_category(cats, e.kind) {
        return false;
    }
    if trimmed.as_str().is_empty() {
        return true;
    }
    let name = trim(e.name.as_str());
    let low = to_lowercase(name.as_str());
    contains_str(low.as_str(), lowered.as_str())
}

/// The position of the first version that matches the search.
fn find_match(list: &Vec<VersionEntry>, is_server: bool, cats: &Vec<VersionCategory>, query: &str) -> (r: Option<usize>)
    ensures
        match r {
            Some(i) => i < list@.len() && first_match(list@, is_server, cats@, query@) == Some(i as int),
            None => first_match(list@, is_server, cats@, query@) is None,
        },
{
    let trimmed = trim(query);
    let lowered = to_lowercase(trimmed.as_str());
    let mut i: usize = 0;
    while i < list.len()
        invariant
            i <= list@.len(),
            trimmed@ == trim_seq(query@),
            lowered@ == lowercase(trimmed@),
            forall|j: int| 0 <= j < i ==> !search_matches(#[trigger] list@[j], is_server, cats@, query@),
        decreases list.len() - i,
    {
        if matches_search(&list[i], is_server, cats, query, &trimmed, &lowered) {
            proof {
                let p = |w: int| 0 <= w < list@.len() && search_matches(list@[w], is_server, cats@, query@)
                    && forall|j: int| 0 <= j < w ==> !search_matches(#[trigger] list@[j], is_server, cats@, query@);
                assert(p(i as int));
                let w = choose|w: int| 0 <= w < list@.len() && search_matches(list@[w], is_server, cats@, query@)
                    && forall|j: int| 0 <= j < w ==> !search_matches(#[trigger] list@[j], is_server, cats@, query@);
                assert(w == i) by {
                    if w < i {
                        assert(!search_matches(list@[w], is_server, cats@, query@));
                    } else if w > i {
                        assert(!search_matches(list@[i as int], is_server, cats@, query@));
                    }
                }
            }
            return Some(i);
        }
        i += 1;
    }
    None
}

/// `cats` after toggling `k` (see `toggled_categories`).
fn toggle_category(cats: &Vec<VersionCategory>, k: VersionCategory) -> (r: Vec<VersionCategory>)
    requires
        cats@.no_duplicates(),
    ensures
        r@ == toggled_categories(cats@, k),
        r@.no_duplicates(),
{
    if holds_category(cats, k) {
        if cats.len() > 1 {
            let ghost pred = other_than(k);
            let mut out: Vec<VersionCategory> = Vec::new();
            let mut i: usize = 0;
            while i < cats.len()
                invariant
                    i <= cats@.len(),
                    pred == other_than(k),
                    cats@.no_duplicates(),
                    out@ == cats@.take(i as int).filter(pred),
                    out@.no_duplicates(),
                decreases cats.len() - i,
            {
                proof {
                    assert(cats@.take(i + 1) == cats@.take(i as int).push(cats@[i as int]));
                    cats@.take(i as int).lemma_filter_push(cats@[i as int], pred);
                }
                if cats[i] != k {
                    proof {
                        if out@.contains(cats@[i as int]) {
                            cats@.take(i as int).lemma_filter_contains_rev(pred, cats@[i as int]);
                            let a = choose|a: int| 0 <= a < i && cats@.take(i as int)[a] == cats@[i as int];
                            assert(cats@[a] == cats@[i as int]);
                        }
                    }
                    let ghost before = out@;
                    out.push(cats[i]);
                    proof {
                        assert forall|a: int, b: int| 0 <= a < b < out@.len() implies out@[a] != out@[b] by {
                            if b == out@.len() - 1 {
                                assert(before.contains(out@[a]));
                            } else {
                                assert(before[a] != before[b]);
                            }
                        }
                    }
                }
                i += 1;
            }
            assert(cats@.take(cats@.len() as int) == cats@);
            out
        } else {
            let mut out: Vec<VersionCategory> = Vec::new();
            let mut i: usize = 0;
            while i < cats.len()
                invariant
                    i <= cats@.len(),
                    out@ == cats@.take(i as int),
                decreases cats.len() - i,
            {
                out.push(cats[i]);
                assert(out@ =~= cats@.take(i + 1));
                i += 1;
            }
            assert(cats@.take(cats@.len() as int) =~= cats@);
            out
        }
    } else {
        let mut out: Vec<VersionCategory> = Vec::new();
        let mut i: usize = 0;
        while i < cats.len()
            invariant
                i <= cats@.len(),
                out@ == cats@.take(i as int),
            decreases cats.len() - i,
        {
            out.push(cats[i]);
            assert(out@ =~= cats@.take(i + 1));
            i += 1;
        }
        assert(cats@.take(cats@.len() as int) =~= cats@);
        out.push(k);
        proof {
            assert forall|a: int, b: int| 0 <= a < b < out@.len() implies out@[a] != out@[b] by {
                if b == out@.len() - 1 {
                    assert(cats@[a] == out@[a]);
                }
            }
        }
        out
    }
}

/// One step of the version chooser (see `create_menu_effect`), with the
/// version list.
pub fn create_menu_step(m: &mut CreateMenu, list: &Vec<VersionEntry>, msg: CreateMsg) -> (r: CreateAction)
    requires
        old(m).wf(),
    ensures
        final(m).wf(),
        create_menu_effect(*old(m), list@, msg, *final(m), r),
{
    match msg {
        CreateMsg::VersionSelected(v) => {
            m.selected_version = v;
            CreateAction::Nothing
        },
        CreateMsg::SearchInput(t) => {
            m.search_box = t;
            CreateAction::Nothing
        },
        CreateMsg::SearchSubmit => {
            if let Some(i) = find_match(list, m.is_server, &m.selected_categories, m.search_box.as_str()) {
                m.selected_version = list[i].clone();
            }
            CreateAction::Nothing
        },
        CreateMsg::ContextMenuToggle => {
            m.show_category_dropdown = !m.show_category_dropdown;
            CreateAction::Nothing
        },
        CreateMsg::CategoryToggle(k) => {
            m.selected_categories = toggle_category(&m.selected_categories, k);
            CreateAction::Nothing
        },
        CreateMsg::NameInput(t) => {
            m.instance_name = t;
            CreateAction::Nothing
        },
        CreateMsg::ChangeAssetToggle(t) => {
            m.download_assets = t;
            CreateAction::Nothing
        },
        CreateMsg::Start => {
            let trimmed = trim(m.instance_name.as_str());
            let name = if trimmed.as_str().is_empty() {
                m.selected_version.name.clone()
            } else {
                m.instance_name.clone()
            };
            CreateAction::Create {
                name,
                version: m.selected_version.clone(),
                download_assets: m.download_assets,
                is_server: m.is_server,
            }
        },
    }
}

/// A selected instance or server, by name.
pub enum InstanceSel {
    Instance(String),
    Server(String),
}

/// Where the window goes when creating or importing ends.
pub enum CreateOutcome {
    /// The launch screen with this message.
    OpenLaunch(String),
    /// The server's management screen with this message.
    OpenServerManage(String),
    OpenMainMenu,
    ShowError(String),
}

/// The error shown when an imported file holds no instance.
pub open spec fn not_an_instance_text() -> Seq<char> {
    "the file you imported isn't a valid QuantumLauncher/MultiMC instance.\n\nIf you meant to import a Modrinth/Curseforge/Preset pack,\ncreate a instance with the matching version,\nthen go to \"Mods->Add File\""@
}

/// Creating finished: the new instance (or server) is selected and its
/// screen opens, or the error is shown.
pub fn creation_finished(selected: &mut Option<InstanceSel>, res: Result<InstanceSel, String>) -> (r: CreateOutcome)
    ensures
        match res {
            Ok(sel) => {
                &&& *final(selected) == Some(sel)
                &&& match sel {
                    InstanceSel::Server(_) => r matches CreateOutcome::OpenServerManage(m) && m@ == "Created Server"@,
                    InstanceSel::Instance(_) => r matches CreateOutcome::OpenLaunch(m) && m@ == "Created Instance"@,
                }
            },
            Err(e) => *final(selected) == *old(selected) && r == CreateOutcome::ShowError(e),
        },
{
    match res {
        Ok(sel) => {
            let is_server = match &sel {
                InstanceSel::Server(_) => true,
                InstanceSel::Instance(_) => false,
            };
            *selected = Some(sel);
            if is_server {
                CreateOutcome::OpenServerManage("Created Server".to_owned())
            } else {
                CreateOutcome::OpenLaunch("Created Instance".to_owned())
            }
        },
        Err(e) => CreateOutcome::ShowError(e),
    }
}

/// Importing finished: what was imported becomes the selection (nothing
/// when the file held no instance); an instance opens the main menu, no
/// instance or an error shows an error.
pub fn import_finished(selected: &mut Option<InstanceSel>, res: Result<Option<InstanceSel>, String>) -> (r: CreateOutcome)
    ensures
        match res {
            Ok(Some(sel)) => *final(selected) == Some(sel) && r is OpenMainMenu,
            Ok(None) => *final(selected) is None && (r matches CreateOutcome::ShowError(t) && t@ == not_an_instance_text()),
            Err(e) => *final(selected) == *old(selected) && r == CreateOutcome::ShowError(e),
        },
{
    match res {
        Ok(Some(sel)) => {
            *selected = Some(sel);
            CreateOutcome::OpenMainMenu
        },
        Ok(None) => {
            *selected = None;
            CreateOutcome::ShowError(
                "the file you imported isn't a valid QuantumLauncher/MultiMC instance.\n\nIf you meant to import a Modrinth/Curseforge/Preset pack,\ncreate a instance with the matching version,\nthen go to \"Mods->Add File\"".to_owned(),
            )
        },
        Err(e) => CreateOutcome::ShowError(e),
    }
}

/// Whether a version is the one named, skipping snapshots when asked.
pub open spec fn names_version(e: VersionEntry, name: Seq<char>, skip_snapshots: bool) -> bool {
    e.name@ == name && !(skip_snapshots && e.kind == VersionCategory::Snapshot)
}

/// The position of the first version with that name (not a snapshot when
/// `skip_snapshots`): how the chooser finds the latest stable version to
/// preselect.
pub fn find_version(list: &Vec<VersionEntry>, name: &str, skip_snapshots: bool) -> (r: Option<usize>)
    ensures
        match r {
            Some(i) => i < list@.len() && names_version(list@[i as int], name@, skip_snapshots) && forall|j: int|
                0 <= j < i ==> !names_version(#[trigger] list@[j], name@, skip_snapshots),
            None => forall|j: int| 0 <= j < list@.len() ==> !names_version(#[trigger] list@[j], name@, skip_snapshots),
        },
{
    let mut i: usize = 0;
    while i < list.len()
        invariant
            i <= list@.len(),
            forall|j: int| 0 <= j < i ==> !names_version(#[trigger] list@[j], name@, skip_snapshots),
        decreases list.len() - i,
    {
        let snapshot = match list[i].kind {
            VersionCategory::Snapshot => true,
            _ => false,
        };
        if crate::accounts::str_eq(list[i].name.as_str(), name) && !(skip_snapshots && snapshot) {
            return Some(i);
        }
        i += 1;
    }
    None
}

} // verus!
