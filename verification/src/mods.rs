//! The mod list of an instance: which mod-menu messages change the list,
//! the order in which mods are listed, and the exported text of a
//! selection of mods.
use vstd::prelude::*;
use crate::accounts::{strip_suffix_or_keep, strip_suffix_or_keep_exec};
use crate::text::{concat, concat3, push_str, string_push};

verus! {

/// A downloaded mod as the mod index records it.
pub struct IndexedMod {
    /// The key under which the index stores the mod.
    pub key: String,
    pub id: ModSource,
    pub name: String,
    /// Whether it was installed by hand (rather than as a dependency).
    pub manually_installed: bool,
    pub enabled: bool,
}

/// An info line of the mod management menu.
pub enum InfoMessage {
    /// A file was written to the given path.
    AtPath { text: String, path: String },
    Success(String),
    Error(String),
}

/// The messages of the mod management menu, with their data as plain
/// values.
pub enum ManageModsMessage {
    Open,
    /// The mod index was read: its downloaded mods (or reading it failed).
    IndexLoaded(Result<Vec<IndexedMod>, String>),
    DeleteOptiforge(String),
    DeleteSelected,
    DeleteFinished(Result<Vec<String>, String>),
    /// The local files (name and content kind) found on disk for one
    /// content kind.
    LocalFilesLoaded(Vec<(String, String)>, String),
    /// Updating finished: the changelog file written (name and path), if
    /// any, and whether one should have been written.
    UpdatePerformDone(Result<(Option<(String, String)>, bool), String>),
    AddFileDone(Result<Vec<String>, String>),
    ToggleSelected,
    ToggleOne(String),
    ToggleOneLocal(String),
    /// Select exactly this mod.
    SelectEnsure(SelectedMod),
    /// A click on a mod, with the held modifier keys of the menu.
    SelectMod(SelectedMod),
    SelectAll,
    /// The list was scrolled to this offset (in pixels).
    ListScrolled(u32),
    UpdateCheck,
    /// The mods with an update: id and title.
    UpdateCheckResult(Result<Vec<(String, String)>, String>),
    UpdateCheckToggle(usize, bool),
    UpdatePerform,
    AddFile(bool, String),
    SetSearch(Option<String>),
    SetContentFilter(Option<String>),
    /// A right click on the mod of that id.
    RightClick(String),
    /// Open the right-click menu of that mod, or close the modal.
    SetModal(Option<String>),
    AddFileSelected(bool, Vec<String>, String),
    CurseforgeManualToggleDelete(bool),
    SetInfoMessage(Option<InfoMessage>),
}

/// Whether handling the message can change the list of mods (so that the
/// list has to be sorted again).
pub open spec fn message_edits_mod_list(m: ManageModsMessage) -> bool {
    ||| m is Open
    ||| m is IndexLoaded
    ||| m is DeleteOptiforge
    ||| m is DeleteSelected
    ||| m is DeleteFinished
    ||| m is LocalFilesLoaded
    ||| m is UpdatePerformDone
    ||| m is AddFileDone
    ||| m is ToggleSelected
    ||| m is ToggleOne
    ||| m is ToggleOneLocal
}

impl ManageModsMessage {
    /// Whether handling the message can change the list of mods.
    pub fn edits_mod_list(&self) -> (r: bool)
        ensures
            r == message_edits_mod_list(*self),
    {
        match self {
            ManageModsMessage::Open
            | ManageModsMessage::IndexLoaded(_)
            | ManageModsMessage::DeleteOptiforge(_)
            | ManageModsMessage::DeleteSelected
            | ManageModsMessage::DeleteFinished(_)
            | ManageModsMessage::LocalFilesLoaded(_, _)
            | ManageModsMessage::UpdatePerformDone(_)
            | ManageModsMessage::AddFileDone(_)
            | ManageModsMessage::ToggleSelected
            | ManageModsMessage::ToggleOne(_)
            | ManageModsMessage::ToggleOneLocal(_) => true,
            ManageModsMessage::SelectEnsure(_)
            | ManageModsMessage::SelectMod(_)
            | ManageModsMessage::SelectAll
            | ManageModsMessage::ListScrolled(_)
            | ManageModsMessage::UpdateCheck
            | ManageModsMessage::UpdateCheckResult(_)
            | ManageModsMessage::UpdateCheckToggle(_, _)
            | ManageModsMessage::UpdatePerform
            | ManageModsMessage::AddFile(_, _)
            | ManageModsMessage::SetSearch(_)
            | ManageModsMessage::SetContentFilter(_)
            | ManageModsMessage::RightClick(_)
            | ManageModsMessage::SetModal(_)
            | ManageModsMessage::AddFileSelected(_, _, _)
            | ManageModsMessage::CurseforgeManualToggleDelete(_)
            | ManageModsMessage::SetInfoMessage(_) => false,
        }
    }
}


/// Where a downloaded mod comes from, with its project id there.
pub enum ModSource {
    Modrinth(String),
    Curseforge(String),
}

/// A selected mod of the list.
pub enum SelectedMod {
    Downloaded { name: String, id: ModSource },
    /// A file of the mods folder, and whether it is a mod (rather than,
    /// say, a resource pack).
    Local { file_name: String, is_mod: bool },
}

/// The page of a downloaded mod.
pub open spec fn mod_url(id: ModSource) -> Seq<char> {
    match id {
        ModSource::Modrinth(m) => "https://modrinth.com/mod/"@ + m@,
        ModSource::Curseforge(m) => "https://www.curseforge.com/projects/"@ + m@,
    }
}

/// A file name without its `.jar` (or else `.zip`) extension.
pub open spec fn display_name(file_name: Seq<char>) -> Seq<char> {
    if ".jar"@.is_suffix_of(file_name) {
        strip_suffix_or_keep(file_name, ".jar"@)
    } else {
        strip_suffix_or_keep(file_name, ".zip"@)
    }
}

/// The Markdown line of a selected mod: a link for a downloaded one, the
/// file name without extension for a local one.
pub open spec fn markdown_line(m: SelectedMod) -> Seq<char> {
    match m {
        SelectedMod::Downloaded { name, id } => "- ["@ + name@ + "]("@ + mod_url(id) + ")"@,
        SelectedMod::Local { file_name, .. } => display_name(file_name@),
    }
}

/// Lines joined with newlines between them.
pub open spec fn join_lines(lines: Seq<Seq<char>>) -> Seq<char>
    decreases lines.len(),
{
    if lines.len() == 0 {
        Seq::empty()
    } else if lines.len() == 1 {
        lines[0]
    } else {
        join_lines(lines.drop_last()) + "\n"@ + lines.last()
    }
}

/// The plain-text export of selected mods: one line per mod, each ending in
/// a newline; local files that are not mods are left out.
pub open spec fn plain_text_export(mods: Seq<SelectedMod>) -> Seq<char>
    decreases mods.len(),
{
    if mods.len() == 0 {
        Seq::empty()
    } else {
        let rest = plain_text_export(mods.drop_last());
        match mods.last() {
            SelectedMod::Downloaded { name, .. } => rest + name@ + "\n"@,
            SelectedMod::Local { file_name, is_mod } => if is_mod {
                rest + display_name(file_name@) + "\n"@
            } else {
                rest
            },
        }
    }
}

fn display_name_exec(file_name: &str) -> (r: String)
    ensures
        r@ == display_name(file_name@),
{
    proof {
        reveal_strlit(".jar");
    }
    let j = strip_suffix_or_keep_exec(file_name, ".jar");
    let jl = crate::text::chars_of(j.as_str()).len();
    let fl = crate::text::chars_of(file_name).len();
    if jl < fl {
        j
    } else {
        strip_suffix_or_keep_exec(file_name, ".zip")
    }
}

/// The Markdown export of selected mods: their Markdown lines joined with
/// newlines.
pub fn export_mods_markdown(mods: &Vec<SelectedMod>) -> (r: String)
    ensures
        r@ == join_lines(mods@.map_values(|m: SelectedMod| markdown_line(m))),
{
    let mut out = String::new();
    let mut i: usize = 0;
    while i < mods.len()
        invariant
            i <= mods@.len(),
            out@ == join_lines(mods@.take(i as int).map_values(|m: SelectedMod| markdown_line(m))),
        decreases mods.len() - i,
    {
        let line = match &mods[i] {
            SelectedMod::Downloaded { name, id } => {
                let mut l = concat3("- [", name.as_str(), "](");
                match id {
                    ModSource::Modrinth(m) => {
                        push_str(&mut l, "https://modrinth.com/mod/");
                        push_str(&mut l, m.as_str());
                    },
                    ModSource::Curseforge(m) => {
                        push_str(&mut l, "https://www.curseforge.com/projects/");
                        push_str(&mut l, m.as_str());
                    },
                }
                push_str(&mut l, ")");
                l
            },
            SelectedMod::Local { file_name, .. } => display_name_exec(file_name.as_str()),
        };
        let ghost lines = mods@.take(i + 1).map_values(|m: SelectedMod| markdown_line(m));
        assert(lines.drop_last() =~= mods@.take(i as int).map_values(|m: SelectedMod| markdown_line(m)));
        if i > 0 {
            push_str(&mut out, "\n");
        }
        push_str(&mut out, line.as_str());
        i += 1;
    }
    assert(mods@.take(mods@.len() as int) =~= mods@);
    out
}

/// The plain-text export of selected mods (see `plain_text_export`).
pub fn export_mods_plain_text(mods: &Vec<SelectedMod>) -> (r: String)
    ensures
        r@ == plain_text_export(mods@),
{
    let mut out = String::new();
    let mut i: usize = 0;
    while i < mods.len()
        invariant
            i <= mods@.len(),
            out@ == plain_text_export(mods@.take(i as int)),
        decreases mods.len() - i,
    {
        assert(mods@.take(i + 1).drop_last() =~= mods@.take(i as int));
        match &mods[i] {
            SelectedMod::Downloaded { name, .. } => {
                push_str(&mut out, name.as_str());
                push_str(&mut out, "\n");
            },
            SelectedMod::Local { file_name, is_mod } => {
                if *is_mod {
                    let d = display_name_exec(file_name.as_str());
                    push_str(&mut out, d.as_str());
                    push_str(&mut out, "\n");
                }
            },
        }
        i += 1;
    }
    assert(mods@.take(mods@.len() as int) =~= mods@);
    out
}
} // verus!
