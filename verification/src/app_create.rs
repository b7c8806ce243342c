//! The Create tab: searching and filtering the installable versions, and
//! starting the creation of an instance. Also the reloading of the instance
//! and version lists.
use vstd::prelude::*;
use crate::app_state::{App, CreateTab, Instance, InstanceList};
use crate::text::{concat, concat3, decimal, lowercase, push_decimal, push_str, string_pop, string_push};
use crate::versions::{
    classify_version, filter_versions, visible_versions, ListEntry, VersionCategory, VersionFilters,
    version_category,
};
use crate::accounts::str_eq;

verus! {

/// An instance to be created in the background.
pub struct CreateRequest {
    pub instance_name: String,
    pub version: ListEntry,
    pub download_assets: bool,
}

/// The version filters of the Create tab.
pub open spec fn filters_of(c: CreateTab) -> VersionFilters {
    VersionFilters {
        release: c.filter_release,
        snapshot: c.filter_snapshot,
        beta: c.filter_beta,
        alpha: c.filter_alpha,
    }
}

/// The Create tab with its filtered list recomputed from the available
/// versions, the search text and the filters (the selection goes back to
/// the top when it falls outside the new list).
pub open spec fn refiltered(c: CreateTab, filtered: Vec<ListEntry>) -> bool {
    &&& filtered@ == visible_versions(c.available_versions@, lowercase(c.version_search_query@), filters_of(c))
}

/// The selection after the filtered list became `len` long.
pub open spec fn clamped_selection(sel: usize, len: nat) -> usize {
    if sel >= len {
        0
    } else {
        sel
    }
}

/// A copy of a list of versions.
pub fn copy_entries(v: &Vec<ListEntry>) -> (r: Vec<ListEntry>)
    ensures
        r@ == v@,
{
    let mut r: Vec<ListEntry> = Vec::new();
    let mut i: usize = 0;
    while i < v.len()
        invariant
            i <= v@.len(),
            r@ == v@.take(i as int),
        decreases v.len() - i,
    {
        r.push(v[i].clone());
        assert(v@.take(i as int).push(v@[i as int]) =~= v@.take(i + 1));
        i += 1;
    }
    assert(v@.take(v@.len() as int) =~= v@);
    r
}

/// Whether an instance of that name was marked running in `old`.
pub open spec fn was_running(old: Seq<Instance>, name: Seq<char>) -> bool {
    exists|j: int| 0 <= j < old.len() && old[j].is_running && #[trigger] old[j].name@ == name
}

/// The instance list built from (name, version, loader) data, keeping the
/// running mark of instances that were running before.
pub open spec fn rebuilt_instances(
    old: Seq<Instance>,
    data: Seq<(String, String, String)>,
    new: Seq<Instance>,
) -> bool {
    &&& new.len() == data.len()
    &&& forall|i: int|
        0 <= i < data.len() ==> {
            &&& #[trigger] new[i].name == data[i].0
            &&& new[i].version == data[i].1
            &&& new[i].loader == data[i].2
            &&& new[i].is_running == was_running(old, data[i].0@)
        }
}

fn running_before(old: &Vec<Instance>, name: &str) -> (r: bool)
    ensures
        r == was_running(old@, name@),
{
    let mut j: usize = 0;
    while j < old.len()
        invariant
            j <= old@.len(),
            forall|k: int| 0 <= k < j ==> !(old@[k].is_running && old@[k].name@ == name@),
        decreases old.len() - j,
    {
        if old[j].is_running && str_eq(old[j].name.as_str(), name) {
            assert(old@[j as int].name@ == name@);
            return true;
        }
        j += 1;
    }
    false
}

/// Builds the instance list from (name, version, loader) data, keeping the
/// running mark of instances that were running in `old`.
pub fn rebuild_instances(old: &Vec<Instance>, data: Vec<(String, String, String)>) -> (r: Vec<
    Instance,
>)
    ensures
        rebuilt_instances(old@, data@, r@),
{
    let mut r: Vec<Instance> = Vec::new();
    let mut i: usize = 0;
    while i < data.len()
        invariant
            i <= data@.len(),
            r@.len() == i,
            forall|k: int|
                0 <= k < i ==> {
                    &&& #[trigger] r@[k].name == data@[k].0
                    &&& r@[k].version == data@[k].1
                    &&& r@[k].loader == data@[k].2
                    &&& r@[k].is_running == was_running(old@, data@[k].0@)
                },
        decreases data.len() - i,
    {
        let (name, version, loader) = (data[i].0.clone(), data[i].1.clone(), data[i].2.clone());
        let running = running_before(old, name.as_str());
        r.push(Instance { name, version, loader, is_running: running });
        i += 1;
    }
    r
}

impl App {
    /// The category of a version name (see `versions::version_category`).
    pub fn classify_version(name: &str) -> (r: VersionCategory)
        ensures
            r == version_category(name@),
    {
        classify_version(name)
    }

    /// Recomputes the filtered version list from the search text and the
    /// filters; the selection goes back to the top when it falls outside.
    pub fn update_filtered_versions(&mut self)
        ensures
            *final(self) == (App {
                create: CreateTab {
                    filtered_versions: final(self).create.filtered_versions,
                    selected_filtered_version: clamped_selection(
                        old(self).create.selected_filtered_version,
                        final(self).create.filtered_versions@.len(),
                    ),
                    ..old(self).create
                },
                ..*old(self)
            }),
            refiltered(old(self).create, final(self).create.filtered_versions),
    {
        let f = VersionFilters {
            release: self.create.filter_release,
            snapshot: self.create.filter_snapshot,
            beta: self.create.filter_beta,
            alpha: self.create.filter_alpha,
        };
        let filtered = filter_versions(
            &self.create.available_versions,
            self.create.version_search_query.as_str(),
            f,
        );
        self.create.filtered_versions = filtered;
        if self.create.selected_filtered_version >= self.create.filtered_versions.len() {
            self.create.selected_filtered_version = 0;
        }
    }

    /// Starts searching the versions (when not already searching): the
    /// search text is cleared and all available versions are listed.
    pub fn start_version_search(&mut self)
        ensures
            start_version_search_effect(*old(self), *final(self)),
    {
        if !self.create.version_search_active {
            self.create.version_search_active = true;
            self.create.version_search_query = String::new();
            self.create.filtered_versions = copy_entries(&self.create.available_versions);
            self.create.selected_filtered_version = 0;
            self.status_message = "Search versions: type to filter, Backspace to edit, Esc to cancel".to_owned();
        }
    }

    /// Starts a search whose text begins with `c`.
    pub fn start_version_search_with_char(&mut self, c: char)
        ensures
            ({
                let o = old(self).create;
                let n = final(self).create;
                &&& n.version_search_active
                &&& n.version_search_query@ == (if o.version_search_active {
                    o.version_search_query@
                } else {
                    Seq::empty()
                }).push(c)
                &&& refiltered(n, n.filtered_versions)
                &&& n.selected_filtered_version == (if o.version_search_active {
                    clamped_selection(o.selected_filtered_version, n.filtered_versions@.len())
                } else {
                    0
                })
                &&& n == (CreateTab {
                    version_search_active: n.version_search_active,
                    version_search_query: n.version_search_query,
                    filtered_versions: n.filtered_versions,
                    selected_filtered_version: n.selected_filtered_version,
                    ..o
                })
                &&& *final(self) == (App {
                    create: n,
                    status_message: final(self).status_message,
                    ..*old(self)
                })
                &&& final(self).status_message@ == (if o.version_search_active {
                    old(self).status_message@
                } else {
                    "Search versions: type to filter, Backspace to edit, Esc to cancel"@
                })
            }),
    {
        self.start_version_search();
        string_push(&mut self.create.version_search_query, c);
        self.update_filtered_versions();
    }

    /// Leaves the version search (when searching): the search text and the
    /// filtered list are cleared.
    pub fn exit_version_search(&mut self)
        ensures
            exit_version_search_effect(*old(self), *final(self)),
    {
        if self.create.version_search_active {
            self.create.version_search_active = false;
            self.create.version_search_query = String::new();
            self.create.filtered_versions = Vec::new();
            self.create.selected_filtered_version = 0;
            self.status_message = "Exited version search".to_owned();
        }
    }

    /// Types a character into the search (when searching) and refilters.
    pub fn add_char_to_version_search(&mut self, c: char)
        ensures
            add_char_to_version_search_effect(*old(self), *final(self), c),
    {
        if self.create.version_search_active {
            string_push(&mut self.create.version_search_query, c);
            self.update_filtered_versions();
        }
    }

    /// Backspace in the search (when searching): removes the last
    /// character and refilters, or leaves the search when the text was
    /// already empty.
    #[verifier::rlimit(50)]
    pub fn remove_char_from_version_search(&mut self)
        ensures
            remove_char_from_version_search_effect(*old(self), *final(self)),
    {
        if self.create.version_search_active {
            let popped = string_pop(&mut self.create.version_search_query);
            if popped.is_none() {
                self.exit_version_search();
            } else {
                self.update_filtered_versions();
            }
        }
    }

    /// Shows or hides releases, and refilters.
    pub fn toggle_filter_release(&mut self)
        ensures
            toggle_filter_release_effect(*old(self), *final(self)),
    {
        self.create.filter_release = !self.create.filter_release;
        self.update_filtered_versions();
    }

    /// Shows or hides snapshots, and refilters.
    pub fn toggle_filter_snapshot(&mut self)
        ensures
            toggle_filter_snapshot_effect(*old(self), *final(self)),
    {
        self.create.filter_snapshot = !self.create.filter_snapshot;
        self.update_filtered_versions();
    }

    /// Shows or hides betas, and refilters.
    pub fn toggle_filter_beta(&mut self)
        ensures
            toggle_filter_beta_effect(*old(self), *final(self)),
    {
        self.create.filter_beta = !self.create.filter_beta;
        self.update_filtered_versions();
    }

    /// Shows or hides alphas, and refilters.
    pub fn toggle_filter_alpha(&mut self)
        ensures
            toggle_filter_alpha_effect(*old(self), *final(self)),
    {
        self.create.filter_alpha = !self.create.filter_alpha;
        self.update_filtered_versions();
    }

    /// Shows all version categories again, and refilters.
    pub fn reset_all_filters(&mut self)
        ensures
            reset_all_filters_effect(*old(self), *final(self)),
    {
        self.create.filter_release = true;
        self.create.filter_snapshot = true;
        self.create.filter_beta = true;
        self.create.filter_alpha = true;
        self.update_filtered_versions();
    }

    /// Starts creating an instance from the selected version, when a name
    /// is entered, versions are available, nothing else is loading and the
    /// filtered list is not empty. The form is reset for the next instance.
    pub fn create_instance(&mut self) -> (r: Option<CreateRequest>)
        requires
            creates_from_selection(*old(self)) ==> old(self).create.selected_filtered_version < old(
                self,
            ).create.filtered_versions@.len(),
        ensures
            create_instance_effect(*old(self), *final(self), r),
    {
        if self.create.new_instance_name.as_str().is_empty()
            || self.create.available_versions.len() == 0 || self.is_loading {
            return None;
        }
        if self.create.filtered_versions.len() == 0 {
            return None;
        }
        let instance_name = self.create.new_instance_name.clone();
        let version = self.create.filtered_versions[self.create.selected_filtered_version].clone();
        let download_assets = self.create.download_assets;
        self.is_loading = true;
        self.status_message = concat3(
            "Creating instance '",
            instance_name.as_str(),
            "'... This may take a while",
        );
        self.create.new_instance_name = String::new();
        self.create.is_editing_name = false;
        self.create.download_assets = true;
        Some(CreateRequest { instance_name, version, download_assets })
    }

    /// Applies a reload of the instance list and, when no versions were
    /// known yet, of the version list. `instances` holds the (name,
    /// version, loader) of each instance found, or the error; `versions` is
    /// the result of listing the versions, used only when none are known.
    /// Instances keep their running mark; loading ends.
    pub fn apply_refresh(
        &mut self,
        instances: Result<Vec<(String, String, String)>, String>,
        versions: Option<Result<Vec<ListEntry>, String>>,
    )
        ensures
            ({
                let o = *old(self);
                let n = *final(self);
                let fetch_versions = o.create.available_versions@.len() == 0 && versions is Some;
                &&& !n.is_loading
                &&& n == (App {
                    is_loading: false,
                    status_message: n.status_message,
                    instance_list: InstanceList { instances: n.instance_list.instances, ..o.instance_list },
                    create: n.create,
                    ..o
                })
                &&& match instances {
                    Ok(data) => rebuilt_instances(o.instance_list.instances@, data@, n.instance_list.instances@),
                    Err(_) => n.instance_list.instances == o.instance_list.instances,
                }
                &&& if fetch_versions && versions.unwrap() is Ok {
                    &&& n.create.available_versions@ == versions.unwrap()->Ok_0@
                    &&& refiltered(n.create, n.create.filtered_versions)
                    &&& n.create == (CreateTab {
                        available_versions: n.create.available_versions,
                        filtered_versions: n.create.filtered_versions,
                        selected_filtered_version: clamped_selection(
                            o.create.selected_filtered_version,
                            n.create.filtered_versions@.len(),
                        ),
                        ..o.create
                    })
                } else {
                    n.create == o.create
                }
                &&& n.status_message@ == (if fetch_versions && versions.unwrap() is Err {
                    "Failed to load versions: "@ + versions.unwrap()->Err_0@
                } else {
                    match instances {
                        Ok(data) => "Loaded "@ + decimal(data@.len()) + " instances"@,
                        Err(e) => "Failed to load instances: "@ + e@,
                    }
                })
            }),
    {
        self.is_loading = true;
        self.status_message = "Refreshing...".to_owned();
        match instances {
            Ok(data) => {
                let n = data.len();
                let rebuilt = rebuild_instances(&self.instance_list.instances, data);
                self.instance_list.instances = rebuilt;
                let mut m = "Loaded ".to_owned();
                push_decimal(&mut m, n as u64);
                push_str(&mut m, " instances");
                self.status_message = m;
            },
            Err(e) => {
                self.status_message = concat("Failed to load instances: ", e.as_str());
            },
        }
        if self.create.available_versions.len() == 0 {
            match versions {
                Some(Ok(v)) => {
                    self.create.available_versions = v;
                    self.update_filtered_versions();
                },
                Some(Err(e)) => {
                    self.status_message = concat("Failed to load versions: ", e.as_str());
                },
                None => {},
            }
        }
        self.is_loading = false;
    }
}

/// `after` is `before` with the Create tab changed to `toggled` and its
/// filtered list recomputed.
pub open spec fn toggled_filter(before: App, after: App, toggled: CreateTab) -> bool {
    &&& refiltered(toggled, after.create.filtered_versions)
    &&& after == (App {
        create: CreateTab {
            filtered_versions: after.create.filtered_versions,
            selected_filtered_version: clamped_selection(
                toggled.selected_filtered_version,
                after.create.filtered_versions@.len(),
            ),
            ..toggled
        },
        ..before
    })
}

/// What `App::exit_version_search` does: the state before and after.
pub open spec fn exit_version_search_effect(o: App, n: App) -> bool {
    &&& !o.create.version_search_active ==> n == o
    &&& o.create.version_search_active ==> {
            &&& n == (App {
                create: CreateTab {
                    version_search_active: false,
                    version_search_query: n.create.version_search_query,
                    filtered_versions: n.create.filtered_versions,
                    selected_filtered_version: 0,
                    ..o.create
                },
                status_message: n.status_message,
                ..o
            })
            &&& n.create.version_search_query@.len() == 0
            &&& n.create.filtered_versions@.len() == 0
            &&& n.status_message@ == "Exited version search"@
        }
}

/// What `App::start_version_search` does: the state before and after.
pub open spec fn start_version_search_effect(o: App, n: App) -> bool {
    &&& o.create.version_search_active ==> n == o
    &&& !o.create.version_search_active ==> {
            &&& n == (App {
                create: CreateTab {
                    version_search_active: true,
                    version_search_query: n.create.version_search_query,
                    filtered_versions: n.create.filtered_versions,
                    selected_filtered_version: 0,
                    ..o.create
                },
                status_message: n.status_message,
                ..o
            })
            &&& n.create.version_search_query@.len() == 0
            &&& n.create.filtered_versions@ == o.create.available_versions@
            &&& n.status_message@
                == "Search versions: type to filter, Backspace to edit, Esc to cancel"@
        }
}

/// What `App::add_char_to_version_search` does: the state before and after.
pub open spec fn add_char_to_version_search_effect(o: App, n: App, c: char) -> bool {
    &&& !o.create.version_search_active ==> n == o
    &&& o.create.version_search_active ==> {
            let nc = n.create;
            &&& nc.version_search_query@ == o.create.version_search_query@.push(c)
            &&& refiltered(nc, nc.filtered_versions)
            &&& n == (App {
                create: CreateTab {
                    version_search_query: nc.version_search_query,
                    filtered_versions: nc.filtered_versions,
                    selected_filtered_version: clamped_selection(
                        o.create.selected_filtered_version,
                        nc.filtered_versions@.len(),
                    ),
                    ..o.create
                },
                ..o
            })
        }
}

/// What `App::remove_char_from_version_search` does: the state before and after.
pub open spec fn remove_char_from_version_search_effect(o: App, n: App) -> bool {
    &&& !o.create.version_search_active ==> n == o
    &&& o.create.version_search_active && o.create.version_search_query@.len()
            == 0 ==> {
            &&& n == (App {
                create: CreateTab {
                    version_search_active: false,
                    version_search_query: n.create.version_search_query,
                    filtered_versions: n.create.filtered_versions,
                    selected_filtered_version: 0,
                    ..o.create
                },
                status_message: n.status_message,
                ..o
            })
            &&& n.create.version_search_query@.len() == 0
            &&& n.create.filtered_versions@.len() == 0
            &&& n.status_message@ == "Exited version search"@
        }
    &&& o.create.version_search_active && o.create.version_search_query@.len()
            > 0 ==> {
            let nc = n.create;
            &&& nc.version_search_query@ == o.create.version_search_query@.drop_last()
            &&& refiltered(nc, nc.filtered_versions)
            &&& n == (App {
                create: CreateTab {
                    version_search_query: nc.version_search_query,
                    filtered_versions: nc.filtered_versions,
                    selected_filtered_version: clamped_selection(
                        o.create.selected_filtered_version,
                        nc.filtered_versions@.len(),
                    ),
                    ..o.create
                },
                ..o
            })
        }
}

/// What `App::toggle_filter_release` does: the state before and after.
pub open spec fn toggle_filter_release_effect(o: App, n: App) -> bool {
    toggled_filter(o, n, CreateTab {
            filter_release: !o.create.filter_release,
            ..o.create
        })
}

/// What `App::toggle_filter_snapshot` does: the state before and after.
pub open spec fn toggle_filter_snapshot_effect(o: App, n: App) -> bool {
    toggled_filter(o, n, CreateTab {
            filter_snapshot: !o.create.filter_snapshot,
            ..o.create
        })
}

/// What `App::toggle_filter_beta` does: the state before and after.
pub open spec fn toggle_filter_beta_effect(o: App, n: App) -> bool {
    toggled_filter(o, n, CreateTab {
            filter_beta: !o.create.filter_beta,
            ..o.create
        })
}

/// What `App::toggle_filter_alpha` does: the state before and after.
pub open spec fn toggle_filter_alpha_effect(o: App, n: App) -> bool {
    toggled_filter(o, n, CreateTab {
            filter_alpha: !o.create.filter_alpha,
            ..o.create
        })
}

/// What `App::reset_all_filters` does: the state before and after.
pub open spec fn reset_all_filters_effect(o: App, n: App) -> bool {
    toggled_filter(o, n, CreateTab {
            filter_release: true,
            filter_snapshot: true,
            filter_beta: true,
            filter_alpha: true,
            ..o.create
        })
}

/// Whether creating an instance goes ahead and takes the selected version:
/// a name is entered, versions are available, nothing else is loading and
/// the filtered list is not empty.
pub open spec fn creates_from_selection(o: App) -> bool {
    let c = o.create;
    !(c.new_instance_name@.len() == 0 || c.available_versions@.len() == 0 || o.is_loading
        || c.filtered_versions@.len() == 0)
}

/// What `App::create_instance` does: the state before and after and its result.
pub open spec fn create_instance_effect(o: App, n: App, r: Option<CreateRequest>) -> bool {
    let c = o.create;
    if !creates_from_selection(o) {
        r is None && n == o
    } else {
        &&& r matches Some(req) && req.instance_name@ == c.new_instance_name@ && req.version
            == c.filtered_versions@[c.selected_filtered_version as int] && req.download_assets
            == c.download_assets
        &&& n == (App {
            is_loading: true,
            status_message: n.status_message,
            create: CreateTab {
                new_instance_name: n.create.new_instance_name,
                is_editing_name: false,
                download_assets: true,
                ..c
            },
            ..o
        })
        &&& n.create.new_instance_name@.len() == 0
        &&& n.status_message@ == "Creating instance '"@ + c.new_instance_name@
            + "'... This may take a while"@
    }
}

} // verus!
