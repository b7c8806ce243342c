//! The mod store of the launcher window: searching with paged results,
//! loading more results near the end of the list, opening a mod, and the
//! mods being downloaded or removed, as one step from the state and a
//! message to the next state and the work to start.
use vstd::prelude::*;
use crate::accounts::str_eq;

verus! {

/// The store that is searched.
#[derive(Debug, Clone, Copy, PartialEq, Eq, Structural)]
pub enum StoreBackend {
    Modrinth,
    Curseforge,
}

/// The kind of content searched for.
#[derive(Debug, Clone, Copy, PartialEq, Eq, Structural)]
pub enum QueryType {
    Mods,
    ResourcePacks,
    Shaders,
    ModPacks,
}

/// A mod of a store.
pub enum StoreModId {
    Modrinth(String),
    Curseforge(String),
}

/// One search hit.
pub struct SearchHit {
    pub id: String,
    pub title: String,
}

/// A page of search results: the hits, where they start, whether the
/// results end there, when the search was started and on which store.
pub struct SearchResults {
    pub mods: Vec<SearchHit>,
    pub offset: usize,
    pub reached_end: bool,
    pub start_time: u64,
    pub backend: StoreBackend,
}

/// A downloadable version of a mod.
pub struct ModVersion {
    pub id: String,
    pub name: String,
}

/// What is being done to a mod.
#[derive(Debug, Clone, Copy, PartialEq, Eq, Structural)]
pub enum ModOperation {
    Downloading,
    Deleting,
}

/// The mod store menu.
pub struct ModsDownloadState {
    pub query: String,
    pub query_type: QueryType,
    pub backend: StoreBackend,
    pub results: Option<SearchResults>,
    pub is_loading_continuation: bool,
    pub has_continuation_ended: bool,
    /// When the search whose results are shown was started.
    pub latest_load: u64,
    /// The position of the opened mod among the results.
    pub opened_mod: Option<usize>,
    /// The versions of the opened mod.
    pub mod_versions: Option<(StoreModId, Vec<ModVersion>)>,
    /// The mods being downloaded or deleted, with their titles.
    pub in_progress: Vec<(StoreModId, String, ModOperation)>,
    /// The index keys of the installed mods.
    pub installed: Vec<String>,
    /// The mods whose description is loaded.
    pub described: Vec<StoreModId>,
}

/// The messages of the mod store.
pub enum InstallModsMsg {
    SearchResult(Result<SearchResults, String>),
    /// The list was scrolled; whether it is now near its end.
    Scrolled { near_end: bool },
    SearchInput(String),
    ChangeBackend(StoreBackend),
    ChangeQueryType(QueryType),
    Click(usize),
    BackToMainScreen,
    /// A description was loaded.
    LoadData(Result<StoreModId, String>),
    /// A download finished, with the files the store does not allow to be
    /// downloaded by the launcher.
    DownloadComplete(Result<(StoreModId, Vec<String>), String>),
    IndexUpdated(Result<Vec<String>, String>),
    Uninstall(usize),
    UninstallComplete(Result<Vec<StoreModId>, String>),
    VersionsLoaded(Result<Vec<ModVersion>, String>),
    InstallVersion(StoreModId, String),
    /// Download the latest version of the hit at this position.
    Download(usize),
    /// The user confirmed installing this modpack.
    InstallModpack(StoreModId),
}

/// The work a mod store message asks for.
pub enum StoreAction {
    Nothing,
    Fail(String),
    /// Search the store from this offset (with the query, kind and store of
    /// the menu); the scroll position goes back to the top when asked.
    Search { offset: usize, reset_scroll: bool },
    /// Show the opened mod: fetch its versions, and its description when it
    /// is not loaded yet.
    OpenMod { id: StoreModId, load_description: bool },
    /// Show the loaded description.
    ReloadDescription,
    /// Back to the results, at the scroll position they had.
    RestoreScroll,
    /// Ask for the files to be downloaded by hand.
    ManualDownload(Vec<String>),
    Delete(StoreModId),
    Download { id: StoreModId, version_id: String },
    /// Download the latest version of the mod.
    DownloadLatest(StoreModId),
    /// Ask to confirm installing the modpack with this title.
    ConfirmModpack { title: String, id: StoreModId },
    /// Install the modpack into the selected instance, showing its progress.
    InstallModpack(StoreModId),
}

/// What identifies a store mod.
pub open spec fn id_key(id: StoreModId) -> (bool, Seq<char>) {
    match id {
        StoreModId::Modrinth(s) => (true, s@),
        StoreModId::Curseforge(s) => (false, s@),
    }
}

/// The key in the mod index of an installed store mod.
pub open spec fn index_key(id: StoreModId) -> Seq<char> {
    id_key(id).1
}

/// The mod of a search hit on a store.
pub open spec fn hit_id(id: Seq<char>, b: StoreBackend) -> (bool, Seq<char>) {
    (b == StoreBackend::Modrinth, id)
}

/// No mod is in progress twice.
pub open spec fn distinct_ids(v: Seq<(StoreModId, String, ModOperation)>) -> bool {
    forall|i: int, j: int| 0 <= i < j < v.len() ==> id_key((#[trigger] v[i]).0) != id_key((#[trigger] v[j]).0)
}

impl ModsDownloadState {
    pub open spec fn wf(&self) -> bool {
        distinct_ids(self.in_progress@)
    }
}

/// `n` is `o` with the mod `k` recorded (in place of an earlier record).
pub open spec fn recorded(o: Seq<(StoreModId, String, ModOperation)>, n: Seq<(StoreModId, String, ModOperation)>, k: (bool, Seq<char>), title: Seq<char>, op: ModOperation) -> bool {
    &&& forall|j: int| 0 <= j < o.len() && id_key(o[j].0) != k ==> exists|m: int| 0 <= m < n.len() && #[trigger] n[m] == o[j]
    &&& forall|m: int| 0 <= m < n.len() && id_key(n[m].0) != k ==> exists|j: int| 0 <= j < o.len() && n[m] == #[trigger] o[j]
    &&& exists|m: int| 0 <= m < n.len() && id_key((#[trigger] n[m]).0) == k && n[m].1@ == title && n[m].2 == op
}

/// The records of `o` except those of the mods in `ks`, in order.
pub open spec fn without_ids(o: Seq<(StoreModId, String, ModOperation)>, ks: Set<(bool, Seq<char>)>) -> Seq<(StoreModId, String, ModOperation)> {
    o.filter(|e: (StoreModId, String, ModOperation)| !ks.contains(id_key(e.0)))
}

/// The installed keys except those in `ks`, in order.
pub open spec fn without_keys(o: Seq<String>, ks: Set<Seq<char>>) -> Seq<String> {
    o.filter(|e: String| !ks.contains(e@))
}

/// The title of a version being installed: the name of that version among
/// the loaded versions of that mod, or "Mod".
pub open spec fn version_title(v: Option<(StoreModId, Vec<ModVersion>)>, k: (bool, Seq<char>), version_id: Seq<char>) -> Seq<char> {
    match v {
        Some((id, versions)) => if id_key(id) == k && exists|i: int| 0 <= i < versions@.len() && (#[trigger] versions@[i]).id@ == version_id {
            versions@[choose|i: int| 0 <= i < versions@.len() && (#[trigger] versions@[i]).id@ == version_id
                && forall|j: int| 0 <= j < i ==> (#[trigger] versions@[j]).id@ != version_id].name@
        } else {
            "Mod"@
        },
        None => "Mod"@,
    }
}

/// Where the next page of results starts.
pub open spec fn next_offset(r: Option<SearchResults>) -> int {
    match r {
        Some(res) => res.offset + res.mods@.len(),
        None => 0,
    }
}

/// Downloading the hit at `index`: it is recorded as downloading, and a
/// modpack is first confirmed.
pub open spec fn download_effect(o: ModsDownloadState, index: usize, n: ModsDownloadState, r: StoreAction) -> bool {
    match o.results {
        Some(res) => if index < res.mods@.len() {
            let hit = res.mods@[index as int];
            &&& n == (ModsDownloadState { in_progress: n.in_progress, ..o })
            &&& recorded(o.in_progress@, n.in_progress@, hit_id(hit.id@, res.backend), hit.title@, ModOperation::Downloading)
            &&& if o.query_type is ModPacks {
                r matches StoreAction::ConfirmModpack { title, id } && title@ == hit.title@
                    && id_key(id) == hit_id(hit.id@, o.backend)
            } else {
                r matches StoreAction::DownloadLatest(id) && id_key(id) == hit_id(hit.id@, o.backend)
            }
        } else {
            n == o && r is Nothing
        },
        None => n == o && r is Nothing,
    }
}

/// The next state and the work for a mod store message.
pub open spec fn install_mods_effect(o: ModsDownloadState, msg: InstallModsMsg, n: ModsDownloadState, r: StoreAction) -> bool {
    match msg {
        InstallModsMsg::SearchResult(Err(e)) | InstallModsMsg::LoadData(Err(e))
        | InstallModsMsg::DownloadComplete(Err(e)) | InstallModsMsg::IndexUpdated(Err(e))
        | InstallModsMsg::UninstallComplete(Err(e)) | InstallModsMsg::VersionsLoaded(Err(e)) => n == o && r == StoreAction::Fail(e),
        InstallModsMsg::SearchResult(Ok(search)) => {
            &&& r is Nothing
            &&& n == (ModsDownloadState {
                is_loading_continuation: false,
                has_continuation_ended: search.reached_end,
                latest_load: n.latest_load,
                results: n.results,
                ..o
            })
            &&& if search.start_time > o.latest_load {
                &&& n.latest_load == search.start_time
                &&& if o.results is Some && search.offset > 0 {
                    let old_res = o.results->0;
                    &&& n.results matches Some(res) && res == (SearchResults { mods: res.mods, ..old_res })
                    &&& n.results->0.mods@ == old_res.mods@ + search.mods@
                } else {
                    n.results == Some(search)
                }
            } else {
                n.latest_load == o.latest_load && n.results == o.results
            }
        },
        InstallModsMsg::Scrolled { near_end } => {
            let ended = if o.results is None { false } else { o.has_continuation_ended };
            if near_end && !o.is_loading_continuation && !ended {
                &&& n == (ModsDownloadState { has_continuation_ended: ended, is_loading_continuation: true, ..o })
                &&& r matches StoreAction::Search { offset, reset_scroll } && offset == next_offset(o.results) && !reset_scroll
            } else {
                n == (ModsDownloadState { has_continuation_ended: ended, ..o }) && r is Nothing
            }
        },
        InstallModsMsg::SearchInput(q) => n == (ModsDownloadState { query: q, ..o })
            && r == (StoreAction::Search { offset: 0, reset_scroll: false }),
        InstallModsMsg::ChangeBackend(b) => n == (ModsDownloadState { backend: b, results: None, ..o })
            && r == (StoreAction::Search { offset: 0, reset_scroll: true }),
        InstallModsMsg::ChangeQueryType(q) => n == (ModsDownloadState { query_type: q, results: None, ..o })
            && r == (StoreAction::Search { offset: 0, reset_scroll: true }),
        InstallModsMsg::Click(i) => {
            &&& n == (ModsDownloadState { opened_mod: Some(i), ..o })
            &&& match o.results {
                Some(res) => r matches StoreAction::OpenMod { id, load_description }
                    && id_key(id) == hit_id(res.mods@[i as int].id@, res.backend)
                    && load_description == !(exists|j: int| 0 <= j < o.described@.len() && id_key(#[trigger] o.described@[j]) == id_key(id)),
                None => r is ReloadDescription,
            }
        },
        InstallModsMsg::BackToMainScreen => n == (ModsDownloadState { opened_mod: None, mod_versions: None, ..o })
            && r is RestoreScroll,
        InstallModsMsg::LoadData(Ok(id)) => n == (ModsDownloadState { described: n.described, ..o })
            && n.described@ == o.described@.push(id) && r is ReloadDescription,
        InstallModsMsg::DownloadComplete(Ok((id, not_allowed))) => {
            &&& n == (ModsDownloadState { in_progress: n.in_progress, ..o })
            &&& n.in_progress@ == without_ids(o.in_progress@, set![id_key(id)])
            &&& if not_allowed@.len() == 0 { r is Nothing } else { r == StoreAction::ManualDownload(not_allowed) }
        },
        InstallModsMsg::IndexUpdated(Ok(idx)) => n == (ModsDownloadState { installed: idx, ..o }) && r is Nothing,
        InstallModsMsg::Uninstall(index) => match o.results {
            Some(res) => if index < res.mods@.len() {
                let k = hit_id(res.mods@[index as int].id@, res.backend);
                &&& n == (ModsDownloadState { in_progress: n.in_progress, ..o })
                &&& recorded(o.in_progress@, n.in_progress@, k, res.mods@[index as int].title@, ModOperation::Deleting)
                &&& r matches StoreAction::Delete(id) && id_key(id) == k
            } else {
                n == o && r is Nothing
            },
            None => n == o && r is Nothing,
        },
        InstallModsMsg::Download(index) => download_effect(o, index, n, r),
        InstallModsMsg::InstallModpack(id) => n == o && r == StoreAction::InstallModpack(id),
        InstallModsMsg::UninstallComplete(Ok(ids)) => {
            let ks = ids@.map_values(|id: StoreModId| id_key(id)).to_set();
            let iks = ids@.map_values(|id: StoreModId| index_key(id)).to_set();
            &&& n == (ModsDownloadState { in_progress: n.in_progress, installed: n.installed, ..o })
            &&& n.in_progress@ == without_ids(o.in_progress@, ks)
            &&& n.installed@ == without_keys(o.installed@, iks)
            &&& r is Nothing
        },
        InstallModsMsg::VersionsLoaded(Ok(versions)) => {
            &&& r is Nothing
            &&& match (o.opened_mod, o.results) {
                (Some(i), Some(res)) => if i < res.mods@.len() {
                    &&& n == (ModsDownloadState { mod_versions: n.mod_versions, ..o })
                    &&& n.mod_versions matches Some((id, vs)) && id_key(id) == hit_id(res.mods@[i as int].id@, res.backend) && vs == versions
                } else {
                    n == o
                },
                _ => n == o,
            }
        },
        InstallModsMsg::InstallVersion(id, version_id) => {
            &&& n == (ModsDownloadState { in_progress: n.in_progress, ..o })
            &&& recorded(o.in_progress@, n.in_progress@, id_key(id), version_title(o.mod_versions, id_key(id), version_id@), ModOperation::Downloading)
            &&& r matches StoreAction::Download { id: did, version_id: vid } && id_key(did) == id_key(id) && vid == version_id
        },
    }
}

fn same_id(a: &StoreModId, b: &StoreModId) -> (r: bool)
    ensures
        r == (id_key(*a) == id_key(*b)),
{
    match (a, b) {
        (StoreModId::Modrinth(x), StoreModId::Modrinth(y)) => str_eq(x.as_str(), y.as_str()),
        (StoreModId::Curseforge(x), StoreModId::Curseforge(y)) => str_eq(x.as_str(), y.as_str()),
        _ => false,
    }
}

fn copy_id(a: &StoreModId) -> (r: StoreModId)
    ensures
        r == *a,
{
    match a {
        StoreModId::Modrinth(x) => StoreModId::Modrinth(x.clone()),
        StoreModId::Curseforge(x) => StoreModId::Curseforge(x.clone()),
    }
}

fn id_of_hit(id: &String, b: StoreBackend) -> (r: StoreModId)
    ensures
        id_key(r) == hit_id(id@, b),
{
    match b {
        StoreBackend::Modrinth => StoreModId::Modrinth(id.clone()),
        StoreBackend::Curseforge => StoreModId::Curseforge(id.clone()),
    }
}

fn holds_id(v: &Vec<StoreModId>, id: &StoreModId) -> (r: bool)
    ensures
        r == exists|j: int| 0 <= j < v@.len() && id_key(#[trigger] v@[j]) == id_key(*id),
{
    let mut i: usize = 0;
    while i < v.len()
        invariant
            i <= v@.len(),
            forall|j: int| 0 <= j < i ==> id_key(#[trigger] v@[j]) != id_key(*id),
        decreases v.len() - i,
    {
        if same_id(&v[i], id) {
            return true;
        }
        i += 1;
    }
    false
}

proof fn lemma_key_set_contains(ids: Seq<StoreModId>, id: StoreModId)
    ensures
        ids.map_values(|x: StoreModId| id_key(x)).to_set().contains(id_key(id)) <==> exists|j: int|
            0 <= j < ids.len() && id_key(#[trigger] ids[j]) == id_key(id),
{
    let m = ids.map_values(|x: StoreModId| id_key(x));
    if exists|j: int| 0 <= j < ids.len() && id_key(#[trigger] ids[j]) == id_key(id) {
        let j = choose|j: int| 0 <= j < ids.len() && id_key(#[trigger] ids[j]) == id_key(id);
        assert(m[j] == id_key(id));
    }
}

/// A filtered list of distinct records stays distinct.
proof fn lemma_filter_distinct_ids(s: Seq<(StoreModId, String, ModOperation)>, pred: spec_fn((StoreModId, String, ModOperation)) -> bool)
    requires
        distinct_ids(s),
    ensures
        distinct_ids(s.filter(pred)),
    decreases s.len(),
{
    reveal(Seq::filter);
    if s.len() > 0 {
        let d = s.drop_last();
        assert(distinct_ids(d)) by {
            assert forall|i: int, j: int| 0 <= i < j < d.len() implies id_key((#[trigger] d[i]).0) != id_key((#[trigger] d[j]).0) by {
                assert(d[i] == s[i] && d[j] == s[j]);
            }
        }
        lemma_filter_distinct_ids(d, pred);
        let f = d.filter(pred);
        if pred(s.last()) {
            assert forall|i: int| 0 <= i < f.len() implies id_key(f[i].0) != id_key(s.last().0) by {
                assert(f.contains(f[i]));
                d.lemma_filter_contains_rev(pred, f[i]);
                let k = choose|k: int| 0 <= k < d.len() && d[k] == f[i];
                assert(s[k] == d[k]);
            }
        }
    }
}

/// The records of `v` except those of the mods in `ids`.
fn drop_ids(v: &Vec<(StoreModId, String, ModOperation)>, ids: &Vec<StoreModId>) -> (r: Vec<(StoreModId, String, ModOperation)>)
    requires
        distinct_ids(v@),
    ensures
        distinct_ids(r@),
        r@ == without_ids(v@, ids@.map_values(|id: StoreModId| id_key(id)).to_set()),
{
    let ghost ks = ids@.map_values(|id: StoreModId| id_key(id)).to_set();
    let ghost pred = |e: (StoreModId, String, ModOperation)| !ks.contains(id_key(e.0));
    let mut out: Vec<(StoreModId, String, ModOperation)> = Vec::new();
    let mut i: usize = 0;
    while i < v.len()
        invariant
            i <= v@.len(),
            pred == (|e: (StoreModId, String, ModOperation)| !ks.contains(id_key(e.0))),
            ks == ids@.map_values(|id: StoreModId| id_key(id)).to_set(),
            out@ == v@.take(i as int).filter(pred),
        decreases v.len() - i,
    {
        proof {
            assert(v@.take(i + 1) == v@.take(i as int).push(v@[i as int]));
            v@.take(i as int).lemma_filter_push(v@[i as int], pred);
            lemma_key_set_contains(ids@, v@[i as int].0);
        }
        if !holds_id(ids, &v[i].0) {
            out.push((copy_id(&v[i].0), v[i].1.clone(), v[i].2));
        }
        i += 1;
    }
    proof {
        assert(v@.take(v@.len() as int) == v@);
        lemma_filter_distinct_ids(v@, pred);
    }
    out
}

/// The installed keys except those of the mods in `ids`.
fn drop_keys(v: &Vec<String>, ids: &Vec<StoreModId>) -> (r: Vec<String>)
    ensures
        r@ == without_keys(v@, ids@.map_values(|id: StoreModId| index_key(id)).to_set()),
{
    let ghost ks = ids@.map_values(|id: StoreModId| index_key(id)).to_set();
    let ghost pred = |e: String| !ks.contains(e@);
    let mut out: Vec<String> = Vec::new();
    let mut i: usize = 0;
    while i < v.len()
        invariant
            i <= v@.len(),
            pred == (|e: String| !ks.contains(e@)),
            ks == ids@.map_values(|id: StoreModId| index_key(id)).to_set(),
            out@ == v@.take(i as int).filter(pred),
        decreases v.len() - i,
    {
        proof {
            assert(v@.take(i + 1) == v@.take(i as int).push(v@[i as int]));
            v@.take(i as int).lemma_filter_push(v@[i as int], pred);
        }
        let mut found = false;
        let mut j: usize = 0;
        while j < ids.len()
            invariant
                i < v@.len(),
                j <= ids@.len(),
                found == exists|k: int| 0 <= k < j && index_key(#[trigger] ids@[k]) == v@[i as int]@,
            decreases ids.len() - j,
        {
            let k = match &ids[j] {
                StoreModId::Modrinth(x) => x,
                StoreModId::Curseforge(x) => x,
            };
            if str_eq(k.as_str(), v[i].as_str()) {
                found = true;
            }
            j += 1;
        }
        proof {
            let m = ids@.map_values(|id: StoreModId| index_key(id));
            if found {
                let k = choose|k: int| 0 <= k < ids@.len() && index_key(#[trigger] ids@[k]) == v@[i as int]@;
                assert(m[k] == v@[i as int]@);
            } else {
                if ks.contains(v@[i as int]@) {
                    let k = choose|k: int| 0 <= k < m.len() && m[k] == v@[i as int]@;
                    assert(index_key(ids@[k]) == v@[i as int]@);
                }
            }
        }
        if !found {
            out.push(v[i].clone());
        }
        i += 1;
    }
    proof {
        assert(v@.take(v@.len() as int) == v@);
    }
    out
}

/// Records a mod as in progress, in place of an earlier record of it.
fn record(v: &mut Vec<(StoreModId, String, ModOperation)>, id: StoreModId, title: String, op: ModOperation)
    requires
        distinct_ids(old(v)@),
    ensures
        distinct_ids(final(v)@),
        recorded(old(v)@, final(v)@, id_key(id), title@, op),
{
    let ghost k = id_key(id);
    let ghost t = title@;
    let mut i: usize = 0;
    while i < v.len()
        invariant
            i <= v@.len(),
            v@ == old(v)@,
            k == id_key(id),
            t == title@,
            distinct_ids(old(v)@),
            forall|j: int| 0 <= j < i ==> id_key((#[trigger] v@[j]).0) != k,
        decreases v.len() - i,
    {
        if same_id(&v[i].0, &id) {
            let ghost o = v@;
            v.set(i, (id, title, op));
            proof {
                assert(v@[i as int].1@ == t);
                assert forall|j: int| 0 <= j < o.len() && id_key(o[j].0) != k implies exists|m: int|
                    0 <= m < v@.len() && #[trigger] v@[m] == o[j] by {
                    assert(v@[j] == o[j]);
                }
                assert forall|m: int| 0 <= m < v@.len() && id_key(v@[m].0) != k implies exists|j: int|
                    0 <= j < o.len() && v@[m] == #[trigger] o[j] by {
                    assert(v@[m] == o[m]);
                }
                assert forall|a: int, b: int| 0 <= a < b < v@.len() implies id_key((#[trigger] v@[a]).0) != id_key((#[trigger] v@[b]).0) by {
                    assert(id_key(o[i as int].0) == k);
                    if a != i && b != i {
                        assert(v@[a] == o[a] && v@[b] == o[b]);
                    } else if a == i {
                        assert(v@[b] == o[b]);
                    } else {
                        assert(v@[a] == o[a]);
                    }
                }
            }
            return;
        }
        i += 1;
    }
    let ghost o = v@;
    v.push((id, title, op));
    proof {
        assert(v@[o.len() as int].1@ == t);
        assert forall|j: int| 0 <= j < o.len() && id_key(o[j].0) != k implies exists|m: int|
            0 <= m < v@.len() && #[trigger] v@[m] == o[j] by {
            assert(v@[j] == o[j]);
        }
        assert forall|m: int| 0 <= m < v@.len() && id_key(v@[m].0) != k implies exists|j: int|
            0 <= j < o.len() && v@[m] == #[trigger] o[j] by {
            assert(v@[m] == o[m]);
        }
        assert forall|a: int, b: int| 0 <= a < b < v@.len() implies id_key((#[trigger] v@[a]).0) != id_key((#[trigger] v@[b]).0) by {
            if b == o.len() {
                assert(v@[a] == o[a]);
            } else {
                assert(v@[a] == o[a] && v@[b] == o[b]);
            }
        }
    }
}

/// The title of a version being installed (see `version_title`).
fn version_title_exec(v: &Option<(StoreModId, Vec<ModVersion>)>, id: &StoreModId, version_id: &String) -> (r: String)
    ensures
        r@ == version_title(*v, id_key(*id), version_id@),
{
    match v {
        Some((vid, versions)) => {
            if !same_id(vid, id) {
                return "Mod".to_owned();
            }
            let mut i: usize = 0;
            while i < versions.len()
                invariant
                    i <= versions@.len(),
                    *v == Some((*vid, *versions)),
                    id_key(*vid) == id_key(*id),
                    forall|j: int| 0 <= j < i ==> (#[trigger] versions@[j]).id@ != version_id@,
                decreases versions.len() - i,
            {
                if str_eq(versions[i].id.as_str(), version_id.as_str()) {
                    proof {
                        assert(0 <= i < versions@.len() && (#[trigger] versions@[i as int]).id@ == version_id@
                            && forall|j: int| 0 <= j < i ==> (#[trigger] versions@[j]).id@ != version_id@);
                        let c = choose|c: int| 0 <= c < versions@.len() && (#[trigger] versions@[c]).id@ == version_id@
                            && forall|j: int| 0 <= j < c ==> (#[trigger] versions@[j]).id@ != version_id@;
                        assert(versions@[i as int].id@ == version_id@);
                        if c < i {
                        } else if c > i {
                            assert(versions@[i as int].id@ != version_id@);
                        }
                        assert(c == i);
                        assert(*v == Some((*vid, *versions)));
                        assert(id_key(*vid) == id_key(*id));
                        assert(version_title(*v, id_key(*id), version_id@) == versions@[i as int].name@);
                    }
                    return versions[i].name.clone();
                }
                i += 1;
            }
            "Mod".to_owned()
        },
        None => "Mod".to_owned(),
    }
}

/// Starts downloading the hit at `index` (see `download_effect`).
fn download_hit(m: &mut ModsDownloadState, index: usize) -> (r: StoreAction)
    requires
        old(m).wf(),
    ensures
        final(m).wf(),
        download_effect(*old(m), index, *final(m), r),
{
    let hit = match &m.results {
        Some(res) => {
            if index < res.mods.len() {
                Some((
                    id_of_hit(&res.mods[index].id, res.backend),
                    id_of_hit(&res.mods[index].id, m.backend),
                    res.mods[index].title.clone(),
                ))
            } else {
                None
            }
        },
        None => None,
    };
    match hit {
        Some((key, id, title)) => {
            let shown = title.clone();
            record(&mut m.in_progress, key, title, ModOperation::Downloading);
            if let QueryType::ModPacks = m.query_type {
                StoreAction::ConfirmModpack { title: shown, id }
            } else {
                StoreAction::DownloadLatest(id)
            }
        },
        None => StoreAction::Nothing,
    }
}

/// One step of the mod store (see `install_mods_effect`). A click opens a
/// mod of the shown results, and loading more results needs their end
/// position to fit in a `usize`.
pub fn install_mods_step(m: &mut ModsDownloadState, msg: InstallModsMsg) -> (r: StoreAction)
    requires
        old(m).wf(),
        msg matches InstallModsMsg::Click(i) ==> (old(m).results is Some ==> i < old(m).results->0.mods@.len()),
        msg matches InstallModsMsg::Scrolled { near_end } ==> (near_end && !old(m).is_loading_continuation
            && !(old(m).results is Some && old(m).has_continuation_ended) ==> next_offset(old(m).results) <= usize::MAX),
    ensures
        final(m).wf(),
        install_mods_effect(*old(m), msg, *final(m), r),
{
    match msg {
        InstallModsMsg::SearchResult(Err(e)) | InstallModsMsg::LoadData(Err(e))
        | InstallModsMsg::DownloadComplete(Err(e)) | InstallModsMsg::IndexUpdated(Err(e))
        | InstallModsMsg::UninstallComplete(Err(e)) | InstallModsMsg::VersionsLoaded(Err(e)) => StoreAction::Fail(e),
        InstallModsMsg::SearchResult(Ok(search)) => {
            m.is_loading_continuation = false;
            m.has_continuation_ended = search.reached_end;
            if search.start_time > m.latest_load {
                m.latest_load = search.start_time;
                let shown = m.results.take();
                match shown {
                    Some(mut res) => {
                        if search.offset > 0 {
                            let mut more = search.mods;
                            res.mods.append(&mut more);
                            m.results = Some(res);
                        } else {
                            m.results = Some(search);
                        }
                    },
                    None => {
                        m.results = Some(search);
                    },
                }
            }
            StoreAction::Nothing
        },
        InstallModsMsg::Scrolled { near_end } => {
            if m.results.is_none() {
                m.has_continuation_ended = false;
            }
            if near_end && !m.is_loading_continuation && !m.has_continuation_ended {
                m.is_loading_continuation = true;
                let offset = match &m.results {
                    Some(res) => res.offset + res.mods.len(),
                    None => 0,
                };
                StoreAction::Search { offset, reset_scroll: false }
            } else {
                StoreAction::Nothing
            }
        },
        InstallModsMsg::SearchInput(q) => {
            m.query = q;
            StoreAction::Search { offset: 0, reset_scroll: false }
        },
        InstallModsMsg::ChangeBackend(b) => {
            m.backend = b;
            m.results = None;
            StoreAction::Search { offset: 0, reset_scroll: true }
        },
        InstallModsMsg::ChangeQueryType(q) => {
            m.query_type = q;
            m.results = None;
            StoreAction::Search { offset: 0, reset_scroll: true }
        },
        InstallModsMsg::Click(i) => {
            m.opened_mod = Some(i);
            match &m.results {
                Some(res) => {
                    let id = id_of_hit(&res.mods[i].id, res.backend);
                    let load_description = !holds_id(&m.described, &id);
                    StoreAction::OpenMod { id, load_description }
                },
                None => StoreAction::ReloadDescription,
            }
        },
        InstallModsMsg::BackToMainScreen => {
            m.opened_mod = None;
            m.mod_versions = None;
            StoreAction::RestoreScroll
        },
        InstallModsMsg::LoadData(Ok(id)) => {
            m.described.push(id);
            StoreAction::ReloadDescription
        },
        InstallModsMsg::DownloadComplete(Ok((id, not_allowed))) => {
            let mut one: Vec<StoreModId> = Vec::new();
            one.push(id);
            let kept = drop_ids(&m.in_progress, &one);
            proof {
                let ks = one@.map_values(|x: StoreModId| id_key(x)).to_set();
                assert(one@.map_values(|x: StoreModId| id_key(x))[0] == id_key(one@[0]));
                assert(ks =~= set![id_key(one@[0])]) by {
                    assert forall|k| ks.contains(k) implies k == id_key(one@[0]) by {
                        let mm = one@.map_values(|x: StoreModId| id_key(x));
                        let j = choose|j: int| 0 <= j < mm.len() && mm[j] == k;
                    }
                }
            }
            m.in_progress = kept;
            if not_allowed.len() == 0 {
                StoreAction::Nothing
            } else {
                StoreAction::ManualDownload(not_allowed)
            }
        },
        InstallModsMsg::IndexUpdated(Ok(idx)) => {
            m.installed = idx;
            StoreAction::Nothing
        },
        InstallModsMsg::Uninstall(index) => {
            let hit = match &m.results {
                Some(res) => {
                    if index < res.mods.len() {
                        Some((id_of_hit(&res.mods[index].id, res.backend), res.mods[index].title.clone()))
                    } else {
                        None
                    }
                },
                None => None,
            };
            match hit {
                Some((id, title)) => {
                    let shown = copy_id(&id);
                    record(&mut m.in_progress, id, title, ModOperation::Deleting);
                    StoreAction::Delete(shown)
                },
                None => StoreAction::Nothing,
            }
        },
        InstallModsMsg::Download(index) => download_hit(m, index),
        InstallModsMsg::InstallModpack(id) => StoreAction::InstallModpack(id),
        InstallModsMsg::UninstallComplete(Ok(ids)) => {
            m.in_progress = drop_ids(&m.in_progress, &ids);
            m.installed = drop_keys(&m.installed, &ids);
            StoreAction::Nothing
        },
        InstallModsMsg::VersionsLoaded(Ok(versions)) => {
            let opened = match (&m.opened_mod, &m.results) {
                (Some(i), Some(res)) => {
                    if *i < res.mods.len() {
                        Some(id_of_hit(&res.mods[*i].id, res.backend))
                    } else {
                        None
                    }
                },
                _ => None,
            };
            if let Some(id) = opened {
                m.mod_versions = Some((id, versions));
            }
            StoreAction::Nothing
        },
        InstallModsMsg::InstallVersion(id, version_id) => {
            let title = version_title_exec(&m.mod_versions, &id, &version_id);
            let shown = copy_id(&id);
            record(&mut m.in_progress, id, title, ModOperation::Downloading);
            StoreAction::Download { id: shown, version_id }
        },
    }
}

} // verus!
