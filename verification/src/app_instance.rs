//! The settings page of one instance: its tabs and items, killing, renaming
//! and deleting the instance, and the edit popups it opens.
use vstd::prelude::*;
use crate::accounts::str_eq;
use crate::app_state::{
    App, ArgsEditKind, EditPopups, Instance, InstanceList, InstancePage, InstanceSettingsPage,
    InstanceSettingsTab, TabId,
};
use crate::args::{lemma_contains_push, format_args_for_edit, format_args_spec, parse_args_spec, parse_shell_like_args, views};
use crate::text::{chars_of, concat, concat3, is_ws, push_decimal, push_str, string_from_chars, trim, trim_seq, decimal};

verus! {

/// The tab after `t` on the instance settings page.
pub open spec fn next_settings_tab(t: InstanceSettingsTab) -> InstanceSettingsTab {
    match t {
        InstanceSettingsTab::Overview => InstanceSettingsTab::Mod,
        InstanceSettingsTab::Mod => InstanceSettingsTab::Setting,
        InstanceSettingsTab::Setting => InstanceSettingsTab::Logs,
        InstanceSettingsTab::Logs => InstanceSettingsTab::Overview,
    }
}

/// The tab before `t` on the instance settings page.
pub open spec fn prev_settings_tab(t: InstanceSettingsTab) -> InstanceSettingsTab {
    match t {
        InstanceSettingsTab::Overview => InstanceSettingsTab::Logs,
        InstanceSettingsTab::Mod => InstanceSettingsTab::Overview,
        InstanceSettingsTab::Setting => InstanceSettingsTab::Mod,
        InstanceSettingsTab::Logs => InstanceSettingsTab::Setting,
    }
}

/// How many items the current tab (and sub-page) of the instance settings
/// page has: Play, Kill and Open Folder on Overview; Rename, Java, Launch
/// and Delete on the Setting list; four Java items; two Launch items.
pub open spec fn settings_item_count(t: InstanceSettingsTab, p: InstanceSettingsPage) -> int {
    match t {
        InstanceSettingsTab::Overview => 3,
        InstanceSettingsTab::Mod => 1,
        InstanceSettingsTab::Setting => match p {
            InstanceSettingsPage::List => 4,
            InstanceSettingsPage::Java => 4,
            InstanceSettingsPage::Launch => 2,
        },
        InstanceSettingsTab::Logs => 1,
    }
}

/// What the instance settings page asks to be done after Enter.
pub enum InstanceAction {
    Nothing,
    /// Launch the instance (the page returns to the Instances tab).
    Launch(String),
    /// Kill the recorded game process of the instance.
    Kill(String),
    /// Open the instance folder in the file explorer.
    OpenFolder(String),
    /// Load the Java settings (memory, argument mode) of the instance.
    LoadJavaSettings(String),
}

/// A rename to be carried out on disk.
pub struct RenameRequest {
    pub index: usize,
    pub old_name: String,
    pub new_name: String,
}

/// How renaming or deleting an instance folder went.
pub enum FolderOutcome {
    Done,
    /// Rename: the new name is taken. Delete: the folder does not exist.
    Conflict,
    Failed(String),
    /// The launcher directory could not be found.
    NoLauncherDir(String),
}

/// Whether `c` may not appear in an instance name.
pub open spec fn disallowed_in_name(c: char) -> bool {
    ||| c == '/'
    ||| c == '\\'
    ||| c == ':'
    ||| c == '*'
    ||| c == '?'
    ||| c == '"'
    ||| c == '<'
    ||| c == '>'
    ||| c == '|'
    ||| c == '\''
    ||| c == '\0'
    ||| c == '\u{7F}'
    ||| ('\u{1}' <= c <= '\u{1F}')
}

/// The characters of `s` that may appear in an instance name.
pub open spec fn allowed_chars(s: Seq<char>) -> Seq<char>
    decreases s.len(),
{
    if s.len() == 0 {
        Seq::empty()
    } else if disallowed_in_name(s.last()) {
        allowed_chars(s.drop_last())
    } else {
        allowed_chars(s.drop_last()).push(s.last())
    }
}

/// A new instance name as typed, cleaned: the characters not allowed in
/// names are dropped, then the surrounding white space.
pub open spec fn sanitized_name(s: Seq<char>) -> Seq<char> {
    trim_seq(allowed_chars(s))
}

/// Cleans a typed instance name (see `sanitized_name`).
pub fn sanitize_instance_name(s: &str) -> (r: String)
    ensures
        r@ == sanitized_name(s@),
{
    let v = chars_of(s);
    let mut kept: Vec<char> = Vec::new();
    let mut i: usize = 0;
    while i < v.len()
        invariant
            v@ == s@,
            i <= v@.len(),
            kept@ == allowed_chars(s@.take(i as int)),
        decreases v.len() - i,
    {
        let c = v[i];
        assert(s@.take(i + 1).drop_last() =~= s@.take(i as int));
        let bad = c == '/' || c == '\\' || c == ':' || c == '*' || c == '?' || c == '"' || c == '<'
            || c == '>' || c == '|' || c == '\'' || c == '\0' || c == '\u{7F}' || ('\u{1}' <= c
            && c <= '\u{1F}');
        if !bad {
            kept.push(c);
        }
        i += 1;
    }
    assert(s@.take(s@.len() as int) =~= s@);
    let t = crate::text::trim_chars(kept.as_slice());
    string_from_chars(t.as_slice())
}

/// Whether a process is recorded for an instance of that name.
pub open spec fn has_process(processes: Seq<String>, name: Seq<char>) -> bool {
    views(processes).contains(name)
}

/// Whether a process is recorded for `name` (executable).
pub fn running(processes: &Vec<String>, name: &str) -> (r: bool)
    ensures
        r == has_process(processes@, name@),
{
    let mut j: usize = 0;
    while j < processes.len()
        invariant
            j <= processes@.len(),
            forall|k: int| 0 <= k < j ==> processes@[k]@ != name@,
        decreases processes.len() - j,
    {
        if str_eq(processes[j].as_str(), name) {
            assert(views(processes@)[j as int] == name@);
            return true;
        }
        j += 1;
    }
    assert forall|k: int| 0 <= k < views(processes@).len() implies views(processes@)[k] != name@ by {
        assert(views(processes@)[k] == processes@[k]@);
    }
    false
}

/// The recorded processes without those of `name`.
pub fn untrack(processes: &Vec<String>, name: &str) -> (r: Vec<String>)
    ensures
        forall|n: Seq<char>| has_process(r@, n) <==> has_process(processes@, n) && n != name@,
{
    let mut r: Vec<String> = Vec::new();
    let mut j: usize = 0;
    while j < processes.len()
        invariant
            j <= processes@.len(),
            forall|n: Seq<char>|
                has_process(r@, n) <==> has_process(processes@.take(j as int), n) && n != name@,
        decreases processes.len() - j,
    {
        let ghost before = r@;
        assert(processes@.take(j + 1) =~= processes@.take(j as int).push(processes@[j as int]));
        assert(views(processes@.take(j + 1)) =~= views(processes@.take(j as int)).push(processes@[j as int]@));
        if !str_eq(processes[j].as_str(), name) {
            r.push(processes[j].clone());
            assert(views(r@) =~= views(before).push(processes@[j as int]@));
        } else {
            assert(processes@[j as int]@ == name@);
        }
        assert forall|n: Seq<char>|
            has_process(r@, n) <==> has_process(processes@.take(j + 1), n) && n != name@ by {
            lemma_contains_push(views(processes@.take(j as int)), processes@[j as int]@, n);
            lemma_contains_push(views(before), processes@[j as int]@, n);
            assert(has_process(before, n) <==> has_process(processes@.take(j as int), n) && n
                != name@);
        }
        j += 1;
    }
    assert(processes@.take(processes@.len() as int) =~= processes@);
    r
}

/// `sel + direction` wrapped into `0..max` (Euclidean remainder), for a
/// selection index taken as an `i32`.
pub open spec fn wrapped_index(sel: usize, direction: i32, max: int) -> usize {
    (((sel as i32) as int + direction as int) % max) as usize
}

fn wrap_index(sel: usize, direction: i32, max: i32) -> (r: usize)
    requires
        max > 1,
        i32::MIN <= (sel as i32) as int + direction as int <= i32::MAX,
    ensures
        r == wrapped_index(sel, direction, max as int),
{
    let v: i32 = (sel as i32) + direction;
    match v.checked_rem_euclid(max) {
        Some(r) => r as usize,
        None => 0,
    }
}

/// The instances whose name differs from `name`, in their order.
pub open spec fn other_instances(list: Seq<Instance>, name: Seq<char>) -> Seq<Instance> {
    list.filter(|i: Instance| i.name@ != name)
}

/// The list without the instances named `name` (executable).
pub fn without_instance(list: &Vec<Instance>, name: &str) -> (r: Vec<Instance>)
    ensures
        r@ == other_instances(list@, name@),
{
    let ghost pred = |k: Instance| k.name@ != name@;
    let mut kept: Vec<Instance> = Vec::new();
    let mut i: usize = 0;
    while i < list.len()
        invariant
            pred == (|k: Instance| k.name@ != name@),
            i <= list@.len(),
            kept@ == list@.take(i as int).filter(pred),
        decreases list.len() - i,
    {
        proof {
            assert(list@.take(i + 1) =~= list@.take(i as int).push(list@[i as int]));
            list@.take(i as int).lemma_filter_push(list@[i as int], pred);
        }
        if !str_eq(list[i].name.as_str(), name) {
            let inst = Instance {
                name: list[i].name.clone(),
                version: list[i].version.clone(),
                loader: list[i].loader.clone(),
                is_running: list[i].is_running,
            };
            assert(inst == list@[i as int]);
            kept.push(inst);
        }
        i += 1;
    }
    assert(list@.take(list@.len() as int) =~= list@);
    kept
}

impl App {
    /// Moves to the next tab of the instance settings page.
    pub fn next_instance_settings_tab(&mut self)
        ensures
            next_instance_settings_tab_effect(*old(self), *final(self)),
    {
        self.instance_page.instance_settings_tab = match self.instance_page.instance_settings_tab {
            InstanceSettingsTab::Overview => InstanceSettingsTab::Mod,
            InstanceSettingsTab::Mod => InstanceSettingsTab::Setting,
            InstanceSettingsTab::Setting => InstanceSettingsTab::Logs,
            InstanceSettingsTab::Logs => InstanceSettingsTab::Overview,
        };
        self.instance_page.instance_settings_selected = 0;
    }

    /// Moves to the previous tab of the instance settings page.
    pub fn prev_instance_settings_tab(&mut self)
        ensures
            prev_instance_settings_tab_effect(*old(self), *final(self)),
    {
        self.instance_page.instance_settings_tab = match self.instance_page.instance_settings_tab {
            InstanceSettingsTab::Overview => InstanceSettingsTab::Logs,
            InstanceSettingsTab::Mod => InstanceSettingsTab::Overview,
            InstanceSettingsTab::Setting => InstanceSettingsTab::Mod,
            InstanceSettingsTab::Logs => InstanceSettingsTab::Setting,
        };
        self.instance_page.instance_settings_selected = 0;
    }

    /// Moves the item selection of the instance settings page by
    /// `direction`, wrapping around; tabs with a single item keep it.
    pub fn navigate_instance_settings(&mut self, direction: i32)
        requires
            i32::MIN <= (old(self).instance_page.instance_settings_selected as i32) as int
                + direction as int <= i32::MAX,
        ensures
            navigate_instance_settings_effect(*old(self), *final(self), direction),
    {
        let max_items: i32 = match self.instance_page.instance_settings_tab {
            InstanceSettingsTab::Overview => 3,
            InstanceSettingsTab::Mod => 1,
            InstanceSettingsTab::Setting => match self.instance_page.instance_settings_page {
                InstanceSettingsPage::List => 4,
                InstanceSettingsPage::Java => 4,
                InstanceSettingsPage::Launch => 2,
            },
            InstanceSettingsTab::Logs => 1,
        };
        if max_items > 1 {
            self.instance_page.instance_settings_selected = wrap_index(
                self.instance_page.instance_settings_selected,
                direction,
                max_items,
            );
        }
    }

    /// Stops tracking the game process of `name` and asks for it to be
    /// killed; says so when no process is recorded for it.
    pub fn kill_instance(&mut self, instance_name: &str) -> (r: bool)
        ensures
            r == has_process(old(self).instance_list.client_processes@, instance_name@),
            *final(self) == (App {
                instance_list: InstanceList {
                    client_processes: final(self).instance_list.client_processes,
                    ..old(self).instance_list
                },
                status_message: final(self).status_message,
                ..*old(self)
            }),
            r ==> (forall|n: Seq<char>|
                has_process(final(self).instance_list.client_processes@, n) <==> has_process(
                    old(self).instance_list.client_processes@,
                    n,
                ) && n != instance_name@),
            r ==> final(self).status_message@ == "🔪 Terminating instance: "@ + instance_name@,
            !r ==> final(self).instance_list.client_processes == old(self).instance_list.client_processes,
            !r ==> final(self).status_message@ == "❌ Instance "@ + instance_name@
                + " is not running"@,
    {
        if running(&self.instance_list.client_processes, instance_name) {
            let rest = untrack(&self.instance_list.client_processes, instance_name);
            self.instance_list.client_processes = rest;
            self.status_message = concat("🔪 Terminating instance: ", instance_name);
            true
        } else {
            self.status_message = concat3("❌ Instance ", instance_name, " is not running");
            false
        }
    }

    /// Enter on the instance settings page: acts on the selected item of
    /// the current tab for the instance shown.
    pub fn select_instance_settings_item(&mut self) -> (r: InstanceAction)
        ensures
            select_item_effect(*old(self), *final(self), r),
    {
        let Some(instance_idx) = self.instance_page.instance_settings_instance else {
            return InstanceAction::Nothing;
        };
        if instance_idx >= self.instance_list.instances.len() {
            return InstanceAction::Nothing;
        }
        let instance_name = self.instance_list.instances[instance_idx].name.clone();
        let instance_running = self.instance_list.instances[instance_idx].is_running;
        match self.instance_page.instance_settings_tab {
            InstanceSettingsTab::Overview => {
                let sel = self.instance_page.instance_settings_selected;
                if sel == 0 {
                    if instance_running {
                        self.status_message = concat3(
                            "❌ Instance '",
                            instance_name.as_str(),
                            "' is already running",
                        );
                        InstanceAction::Nothing
                    } else {
                        self.current_tab = TabId::Instances;
                        InstanceAction::Launch(instance_name)
                    }
                } else if sel == 1 {
                    if self.kill_instance(instance_name.as_str()) {
                        InstanceAction::Kill(instance_name)
                    } else {
                        InstanceAction::Nothing
                    }
                } else if sel == 2 {
                    InstanceAction::OpenFolder(instance_name)
                } else {
                    InstanceAction::Nothing
                }
            },
            InstanceSettingsTab::Mod => {
                self.status_message = "Mod management feature coming soon".to_owned();
                InstanceAction::Nothing
            },
            InstanceSettingsTab::Setting => {
                let sel = self.instance_page.instance_settings_selected;
                if sel == 0 {
                    self.instance_page.is_renaming_instance = true;
                    self.instance_page.rename_input = instance_name;
                    self.status_message = "Editing instance name. Type new name and press Enter to apply, Esc to cancel.".to_owned();
                    InstanceAction::Nothing
                } else if sel == 1 {
                    self.instance_page.instance_settings_page = InstanceSettingsPage::Java;
                    self.instance_page.instance_settings_selected = 0;
                    self.status_message = "Opened Java settings".to_owned();
                    InstanceAction::LoadJavaSettings(instance_name)
                } else if sel == 2 {
                    self.instance_page.instance_settings_page = InstanceSettingsPage::Launch;
                    self.status_message = "Opened Launch options".to_owned();
                    InstanceAction::Nothing
                } else if sel == 3 {
                    self.instance_page.show_delete_confirm = true;
                    InstanceAction::Nothing
                } else {
                    InstanceAction::Nothing
                }
            },
            InstanceSettingsTab::Logs => {
                self.status_message = "Instance-specific logs coming soon".to_owned();
                InstanceAction::Nothing
            },
        }
    }

    /// Closes the rename popup.
    pub fn cancel_rename_instance(&mut self)
        ensures
            *final(self) == (App {
                instance_page: InstancePage { is_renaming_instance: false, ..old(self).instance_page },
                status_message: final(self).status_message,
                ..*old(self)
            }),
            final(self).status_message@ == "Rename cancelled"@,
    {
        self.instance_page.is_renaming_instance = false;
        self.status_message = "Rename cancelled".to_owned();
    }

    /// Enter in the rename popup: cleans the typed name and asks for the
    /// folder to be renamed; an empty name, an unchanged name and a running
    /// instance are refused (an unchanged name closes the popup).
    pub fn apply_rename_instance(&mut self) -> (r: Option<RenameRequest>)
        requires
            old(self).instance_page.is_renaming_instance && old(
                self,
            ).instance_page.instance_settings_instance is Some ==> old(
                self,
            ).instance_page.instance_settings_instance.unwrap() < old(
                self,
            ).instance_list.instances@.len(),
        ensures
            rename_decision(*old(self), *final(self), r),
    {
        if !self.instance_page.is_renaming_instance {
            return None;
        }
        let Some(idx) = self.instance_page.instance_settings_instance else {
            return None;
        };
        let old_name = self.instance_list.instances[idx].name.clone();
        let new_name = sanitize_instance_name(self.instance_page.rename_input.as_str());
        if new_name.as_str().is_empty() {
            self.status_message = "❌ New name is empty or invalid".to_owned();
            return None;
        }
        if str_eq(new_name.as_str(), old_name.as_str()) {
            self.instance_page.is_renaming_instance = false;
            self.status_message = "No changes to apply".to_owned();
            return None;
        }
        if running(&self.instance_list.client_processes, old_name.as_str()) {
            self.status_message = "❌ Cannot rename a running instance".to_owned();
            return None;
        }
        Some(RenameRequest { index: idx, old_name, new_name })
    }

    /// Completes a rename once the folder rename was attempted: on success
    /// the listed instance takes the new name and the popup closes.
    pub fn finish_rename_instance(&mut self, req: &RenameRequest, outcome: FolderOutcome)
        ensures
            match outcome {
                FolderOutcome::Done => {
                    &&& *final(self) == (App {
                        instance_list: InstanceList {
                            instances: final(self).instance_list.instances,
                            ..old(self).instance_list
                        },
                        instance_page: InstancePage {
                            is_renaming_instance: false,
                            ..old(self).instance_page
                        },
                        status_message: final(self).status_message,
                        ..*old(self)
                    })
                    &&& final(self).instance_list.instances@.len() == old(self).instance_list.instances@.len()
                    &&& forall|i: int|
                        0 <= i < old(self).instance_list.instances@.len() ==> if i == req.index {
                            &&& #[trigger] final(self).instance_list.instances@[i].name@ == req.new_name@
                            &&& final(self).instance_list.instances@[i].version == old(self).instance_list.instances@[i].version
                            &&& final(self).instance_list.instances@[i].loader == old(self).instance_list.instances@[i].loader
                            &&& final(self).instance_list.instances@[i].is_running == old(self).instance_list.instances@[i].is_running
                        } else {
                            final(self).instance_list.instances@[i] == old(self).instance_list.instances@[i]
                        }
                    &&& final(self).status_message@ == "✅ Renamed instance '"@ + req.old_name@
                        + "' → '"@ + req.new_name@ + "'"@
                },
                _ => {
                    &&& *final(self) == (App { status_message: final(self).status_message, ..*old(self) })
                    &&& final(self).status_message@ == match outcome {
                        FolderOutcome::Conflict => "❌ An instance named '"@ + req.new_name@
                            + "' already exists"@,
                        FolderOutcome::Failed(e) => "❌ Failed to rename: "@ + e@,
                        FolderOutcome::NoLauncherDir(e) => "❌ Failed to get launcher directory: "@
                            + e@,
                        FolderOutcome::Done => Seq::empty(),
                    }
                },
            },
    {
        match outcome {
            FolderOutcome::Done => {
                if req.index < self.instance_list.instances.len() {
                    let mut inst = self.instance_list.instances.remove(req.index);
                    inst.name = req.new_name.clone();
                    self.instance_list.instances.insert(req.index, inst);
                }
                self.instance_page.is_renaming_instance = false;
                let mut m = concat3("✅ Renamed instance '", req.old_name.as_str(), "' → '");
                push_str(&mut m, req.new_name.as_str());
                push_str(&mut m, "'");
                self.status_message = m;
            },
            FolderOutcome::Conflict => {
                self.status_message = concat3(
                    "❌ An instance named '",
                    req.new_name.as_str(),
                    "' already exists",
                );
            },
            FolderOutcome::Failed(e) => {
                self.status_message = concat("❌ Failed to rename: ", e.as_str());
            },
            FolderOutcome::NoLauncherDir(e) => {
                self.status_message = concat("❌ Failed to get launcher directory: ", e.as_str());
            },
        }
    }

    /// Asks for an instance folder to be deleted, refusing while the
    /// instance runs.
    pub fn delete_instance(&mut self, instance_name: &str) -> (r: bool)
        ensures
            delete_instance_effect(*old(self), *final(self), instance_name@, r),
    {
        if running(&self.instance_list.client_processes, instance_name) {
            self.status_message = concat3(
                "❌ Cannot delete '",
                instance_name,
                "': instance is currently running. Stop it first.",
            );
            false
        } else {
            true
        }
    }

    /// Completes a deletion once the folder removal was attempted: on
    /// success the instance leaves the list, the selection stays within it
    /// and the Instances tab is shown again.
    #[verifier::rlimit(40)]
    pub fn finish_delete_instance(&mut self, instance_name: &str, outcome: FolderOutcome)
        ensures
            match outcome {
                FolderOutcome::Done => {
                    let remaining = other_instances(
                        old(self).instance_list.instances@,
                        instance_name@,
                    );
                    &&& *final(self) == (App {
                        instance_list: InstanceList {
                            instances: final(self).instance_list.instances,
                            selected_instance: final(self).instance_list.selected_instance,
                            ..old(self).instance_list
                        },
                        instance_page: InstancePage {
                            instance_settings_instance: None,
                            ..old(self).instance_page
                        },
                        current_tab: TabId::Instances,
                        status_message: final(self).status_message,
                        ..*old(self)
                    })
                    &&& final(self).instance_list.instances@ == remaining
                    &&& final(self).instance_list.selected_instance == (if remaining.len() == 0 {
                        0
                    } else if old(self).instance_list.selected_instance >= remaining.len() {
                        (remaining.len() - 1) as usize
                    } else {
                        old(self).instance_list.selected_instance
                    })
                    &&& final(self).status_message@ == "DELETED: Successfully removed instance "@
                        + instance_name@
                },
                _ => {
                    &&& *final(self) == (App { status_message: final(self).status_message, ..*old(self) })
                    &&& final(self).status_message@ == match outcome {
                        FolderOutcome::Conflict => "ERROR: Instance folder not found: "@ + instance_name@,
                        FolderOutcome::Failed(e) => "❌ Failed to delete instance '"@ + instance_name@
                            + "': "@ + e@,
                        FolderOutcome::NoLauncherDir(e) => "ERROR: Failed to get launcher directory: "@
                            + e@,
                        FolderOutcome::Done => Seq::empty(),
                    }
                },
            },
    {
        match outcome {
            FolderOutcome::Done => {
                let kept = without_instance(&self.instance_list.instances, instance_name);
                self.instance_list.instances = kept;
                let n = self.instance_list.instances.len();
                if self.instance_list.selected_instance >= n && n > 0 {
                    self.instance_list.selected_instance = n - 1;
                } else if n == 0 {
                    self.instance_list.selected_instance = 0;
                }
                self.current_tab = TabId::Instances;
                self.instance_page.instance_settings_instance = None;
                self.status_message = concat(
                    "DELETED: Successfully removed instance ",
                    instance_name,
                );
            },
            FolderOutcome::Conflict => {
                self.status_message = concat("ERROR: Instance folder not found: ", instance_name);
            },
            FolderOutcome::Failed(e) => {
                self.status_message = concat3(
                    "❌ Failed to delete instance '",
                    instance_name,
                    "': ",
                );
                push_str(&mut self.status_message, e.as_str());
            },
            FolderOutcome::NoLauncherDir(e) => {
                self.status_message = concat(
                    "ERROR: Failed to get launcher directory: ",
                    e.as_str(),
                );
            },
        }
    }
}

/// What Enter on the instance settings page does, for each tab and item
/// (see `select_instance_settings_item`).
pub open spec fn select_item_effect(o: App, n: App, r: InstanceAction) -> bool {
    let p = o.instance_page;
    match p.instance_settings_instance {
        None => n == o && r is Nothing,
        Some(idx) => if idx >= o.instance_list.instances@.len() {
            n == o && r is Nothing
        } else {
            let inst = o.instance_list.instances@[idx as int];
            let name = inst.name@;
            let sel = p.instance_settings_selected;
            match p.instance_settings_tab {
                InstanceSettingsTab::Overview => if sel == 0 {
                    if inst.is_running {
                        &&& r is Nothing
                        &&& n == (App { status_message: n.status_message, ..o })
                        &&& n.status_message@ == "❌ Instance '"@ + name + "' is already running"@
                    } else {
                        &&& r matches InstanceAction::Launch(s) && s@ == name
                        &&& n == (App { current_tab: TabId::Instances, ..o })
                    }
                } else if sel == 1 {
                    let running = has_process(o.instance_list.client_processes@, name);
                    &&& (running ==> (r matches InstanceAction::Kill(s) && s@ == name))
                    &&& (!running ==> r is Nothing)
                    &&& n == (App {
                        instance_list: InstanceList {
                            client_processes: n.instance_list.client_processes,
                            ..o.instance_list
                        },
                        status_message: n.status_message,
                        ..o
                    })
                    &&& forall|m: Seq<char>|
                        has_process(n.instance_list.client_processes@, m) <==> has_process(
                            o.instance_list.client_processes@,
                            m,
                        ) && m != name
                    &&& n.status_message@ == (if running {
                        "🔪 Terminating instance: "@ + name
                    } else {
                        "❌ Instance "@ + name + " is not running"@
                    })
                } else if sel == 2 {
                    n == o && (r matches InstanceAction::OpenFolder(s) && s@ == name)
                } else {
                    n == o && r is Nothing
                },
                InstanceSettingsTab::Mod => {
                    &&& r is Nothing
                    &&& n == (App { status_message: n.status_message, ..o })
                    &&& n.status_message@ == "Mod management feature coming soon"@
                },
                InstanceSettingsTab::Setting => if sel == 0 {
                    &&& r is Nothing
                    &&& n == (App {
                        instance_page: InstancePage {
                            is_renaming_instance: true,
                            rename_input: n.instance_page.rename_input,
                            ..p
                        },
                        status_message: n.status_message,
                        ..o
                    })
                    &&& n.instance_page.rename_input@ == name
                    &&& n.status_message@
                        == "Editing instance name. Type new name and press Enter to apply, Esc to cancel."@
                } else if sel == 1 {
                    &&& r matches InstanceAction::LoadJavaSettings(s) && s@ == name
                    &&& n == (App {
                        instance_page: InstancePage {
                            instance_settings_page: InstanceSettingsPage::Java,
                            instance_settings_selected: 0,
                            ..p
                        },
                        status_message: n.status_message,
                        ..o
                    })
                    &&& n.status_message@ == "Opened Java settings"@
                } else if sel == 2 {
                    &&& r is Nothing
                    &&& n == (App {
                        instance_page: InstancePage {
                            instance_settings_page: InstanceSettingsPage::Launch,
                            ..p
                        },
                        status_message: n.status_message,
                        ..o
                    })
                    &&& n.status_message@ == "Opened Launch options"@
                } else if sel == 3 {
                    &&& r is Nothing
                    &&& n == (App {
                        instance_page: InstancePage { show_delete_confirm: true, ..p },
                        ..o
                    })
                } else {
                    n == o && r is Nothing
                },
                InstanceSettingsTab::Logs => {
                    &&& r is Nothing
                    &&& n == (App { status_message: n.status_message, ..o })
                    &&& n.status_message@ == "Instance-specific logs coming soon"@
                },
            }
        },
    }
}

/// What Enter in the rename popup does (see `apply_rename_instance`).
pub open spec fn rename_decision(o: App, n: App, r: Option<RenameRequest>) -> bool {
    let p = o.instance_page;
    if !p.is_renaming_instance || p.instance_settings_instance is None {
        n == o && r is None
    } else {
        let idx = p.instance_settings_instance.unwrap();
        let old_name = o.instance_list.instances@[idx as int].name@;
        let new_name = sanitized_name(p.rename_input@);
        if new_name.len() == 0 {
            &&& r is None
            &&& n == (App { status_message: n.status_message, ..o })
            &&& n.status_message@ == "❌ New name is empty or invalid"@
        } else if new_name == old_name {
            &&& r is None
            &&& n == (App {
                instance_page: InstancePage { is_renaming_instance: false, ..p },
                status_message: n.status_message,
                ..o
            })
            &&& n.status_message@ == "No changes to apply"@
        } else if has_process(o.instance_list.client_processes@, old_name) {
            &&& r is None
            &&& n == (App { status_message: n.status_message, ..o })
            &&& n.status_message@ == "❌ Cannot rename a running instance"@
        } else {
            &&& n == o
            &&& r matches Some(req) && req.index == idx && req.old_name@ == old_name
                && req.new_name@ == new_name
        }
    }
}

/// What `App::next_instance_settings_tab` does: the state before and after.
pub open spec fn next_instance_settings_tab_effect(o: App, n: App) -> bool {
    n == (App {
            instance_page: InstancePage {
                instance_settings_tab: next_settings_tab(o.instance_page.instance_settings_tab),
                instance_settings_selected: 0,
                ..o.instance_page
            },
            ..o
        })
}

/// What `App::prev_instance_settings_tab` does: the state before and after.
pub open spec fn prev_instance_settings_tab_effect(o: App, n: App) -> bool {
    n == (App {
            instance_page: InstancePage {
                instance_settings_tab: prev_settings_tab(o.instance_page.instance_settings_tab),
                instance_settings_selected: 0,
                ..o.instance_page
            },
            ..o
        })
}

/// What `App::navigate_instance_settings` does: the state before and after.
pub open spec fn navigate_instance_settings_effect(o: App, n: App, direction: i32) -> bool {
    ({
            let p = o.instance_page;
            let max = settings_item_count(p.instance_settings_tab, p.instance_settings_page);
            if max > 1 {
                n == (App {
                    instance_page: InstancePage {
                        instance_settings_selected: wrapped_index(
                            p.instance_settings_selected,
                            direction,
                            max,
                        ),
                        ..p
                    },
                    ..o
                })
            } else {
                n == o
            }
        })
}

/// What `App::delete_instance` does: the state before and after and its result.
pub open spec fn delete_instance_effect(o: App, n: App, name: Seq<char>, r: bool) -> bool {
    &&& r == !has_process(o.instance_list.client_processes@, name)
    &&& r ==> n == o
    &&& !r ==> n == (App { status_message: n.status_message, ..o })
    &&& !r ==> n.status_message@ == "❌ Cannot delete '"@ + name
            + "': instance is currently running. Stop it first."@
}

} // verus!
