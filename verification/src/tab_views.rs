//! What the Create tab of the terminal UI shows: the name box by whether
//! it is edited, the assets option, the create button by what is missing,
//! the title of the version list and the filter marks.

use vstd::prelude::*;
use crate::app_state::{CreateTab, SettingsFocus, SettingsTab};
use crate::licenses::{entries, license_count};
use crate::text::{concat, concat3, decimal, push_decimal, push_str};

verus! {

/// How the name box is drawn.
#[derive(Debug, Clone, Copy, PartialEq, Eq, Structural)]
pub enum NameLook {
    /// Nothing typed: a hint is shown.
    Placeholder,
    Editing,
    Plain,
}

/// How the create button is drawn.
#[derive(Debug, Clone, Copy, PartialEq, Eq, Structural)]
pub enum ButtonLook {
    Busy,
    Ready,
    Blocked,
}

/// The Create tab as drawn.
pub struct CreateTabView {
    pub name_text: String,
    pub name_title: String,
    pub name_look: NameLook,
    pub assets_text: String,
    pub button_text: String,
    pub button_look: ButtonLook,
    /// The title of the version list; `None` while no versions are loaded.
    pub list_title: Option<String>,
    pub filter_marks: String,
}

/// "on" or "off".
pub open spec fn on_off(b: bool) -> Seq<char> {
    if b { "on"@ } else { "off"@ }
}

/// The marks of the four version filters.
pub open spec fn filter_marks_of(c: CreateTab) -> Seq<char> {
    "[R:"@ + on_off(c.filter_release) + "] [S:"@ + on_off(c.filter_snapshot) + "] [B:"@ + on_off(c.filter_beta)
        + "] [A:"@ + on_off(c.filter_alpha) + "] "@
}

/// The title of the version list: the search and its number of matches,
/// else the selected version, else a hint.
pub open spec fn list_title_of(c: CreateTab) -> Seq<char> {
    if c.version_search_active {
        " Minecraft Versions - Search: "@ + c.version_search_query@ + " ("@ + decimal(c.filtered_versions@.len())
            + " matches) "@
    } else if c.selected_filtered_version < c.filtered_versions@.len() {
        " Minecraft Versions - Selected: "@ + c.filtered_versions@[c.selected_filtered_version as int].name@ + " "@
    } else {
        " Minecraft Versions  (Ctrl+S to search) "@
    }
}

/// The Create tab as drawn from its state and whether an instance is being
/// created.
pub open spec fn create_tab_view_of(c: CreateTab, is_loading: bool, r: CreateTabView) -> bool {
    let empty = c.new_instance_name@.len() == 0;
    let can_create = !empty && c.available_versions@.len() > 0;
    &&& r.name_text@ == if empty {
        if c.is_editing_name {
            "Enter instance name... (editing)"@
        } else {
            "Enter instance name... (press Ctrl+N to edit)"@
        }
    } else {
        c.new_instance_name@
    }
    &&& r.name_look == if empty {
        NameLook::Placeholder
    } else if c.is_editing_name {
        NameLook::Editing
    } else {
        NameLook::Plain
    }
    &&& r.name_title@ == if c.is_editing_name {
        " Instance Name (Editing - press Esc to finish) "@
    } else {
        " Instance Name (press Ctrl+N to edit) "@
    }
    &&& r.assets_text@ == if c.download_assets {
        "☑ Download assets? (Enables sound/music, but slower)"@
    } else {
        "☐ Download assets? (Enables sound/music, but slower)"@
    }
    &&& r.button_text@ == if is_loading {
        "Creating instance... Please wait"@
    } else if empty {
        "Press Enter to name instance"@
    } else if can_create {
        "Press Enter to create instance"@
    } else {
        "No version selected"@
    }
    &&& r.button_look == if is_loading {
        ButtonLook::Busy
    } else if can_create {
        ButtonLook::Ready
    } else {
        ButtonLook::Blocked
    }
    &&& if c.available_versions@.len() == 0 {
        r.list_title is None
    } else {
        r.list_title matches Some(t) && t@ == list_title_of(c)
    }
    &&& r.filter_marks@ == filter_marks_of(c)
}

fn on_off_text(b: bool) -> (r: &'static str)
    ensures
        r@ == on_off(b),
{
    if b { "on" } else { "off" }
}

fn owned(s: &str) -> (r: String)
    ensures
        r@ == s@,
{
    s.to_owned()
}

/// The title of the version list (see `list_title_of`).
fn list_title(c: &CreateTab) -> (r: String)
    ensures
        r@ == list_title_of(*c),
{
    if c.version_search_active {
        let mut t = concat(" Minecraft Versions - Search: ", c.version_search_query.as_str());
        push_str(&mut t, " (");
        push_decimal(&mut t, c.filtered_versions.len() as u64);
        push_str(&mut t, " matches) ");
        t
    } else if c.selected_filtered_version < c.filtered_versions.len() {
        concat3(
            " Minecraft Versions - Selected: ",
            c.filtered_versions[c.selected_filtered_version].name.as_str(),
            " ",
        )
    } else {
        owned(" Minecraft Versions  (Ctrl+S to search) ")
    }
}

/// The Create tab as drawn (see `create_tab_view_of`).
pub fn create_tab_view(c: &CreateTab, is_loading: bool) -> (r: CreateTabView)
    ensures
        create_tab_view_of(*c, is_loading, r),
{
    let empty = c.new_instance_name.as_str().is_empty();
    let can_create = !empty && c.available_versions.len() > 0;
    let name_text = if empty {
        if c.is_editing_name {
            owned("Enter instance name... (editing)")
        } else {
            owned("Enter instance name... (press Ctrl+N to edit)")
        }
    } else {
        c.new_instance_name.clone()
    };
    let name_look = if empty {
        NameLook::Placeholder
    } else if c.is_editing_name {
        NameLook::Editing
    } else {
        NameLook::Plain
    };
    let name_title = if c.is_editing_name {
        owned(" Instance Name (Editing - press Esc to finish) ")
    } else {
        owned(" Instance Name (press Ctrl+N to edit) ")
    };
    let assets_text = if c.download_assets {
        owned("☑ Download assets? (Enables sound/music, but slower)")
    } else {
        owned("☐ Download assets? (Enables sound/music, but slower)")
    };
    let button_text = if is_loading {
        owned("Creating instance... Please wait")
    } else if empty {
        owned("Press Enter to name instance")
    } else if can_create {
        owned("Press Enter to create instance")
    } else {
        owned("No version selected")
    };
    let button_look = if is_loading {
        ButtonLook::Busy
    } else if can_create {
        ButtonLook::Ready
    } else {
        ButtonLook::Blocked
    };
    let list_title = if c.available_versions.len() == 0 {
        None
    } else {
        Some(list_title(c))
    };
    let mut filter_marks = concat("[R:", on_off_text(c.filter_release));
    push_str(&mut filter_marks, "] [S:");
    push_str(&mut filter_marks, on_off_text(c.filter_snapshot));
    push_str(&mut filter_marks, "] [B:");
    push_str(&mut filter_marks, on_off_text(c.filter_beta));
    push_str(&mut filter_marks, "] [A:");
    push_str(&mut filter_marks, on_off_text(c.filter_alpha));
    push_str(&mut filter_marks, "] ");
    CreateTabView {
        name_text,
        name_title,
        name_look,
        assets_text,
        button_text,
        button_look,
        list_title,
        filter_marks,
    }
}

/// The right pane of the Settings tab.
pub enum RightPane {
    /// A section without settings yet: its title and text.
    ComingSoon { title: String, text: String },
    /// The overview of "About & Licenses" while the left menu has the focus.
    LicensesOverview,
    About,
    /// The text of the license at this position of the license list.
    License(usize),
    Empty,
}

/// The Settings tab as drawn: the submenu of "About & Licenses" (`None`
/// shows a hint) and the right pane.
pub struct SettingsTabView {
    pub submenu: Option<Vec<String>>,
    pub right: RightPane,
}

/// The names of the listed licenses.
pub open spec fn license_names() -> Seq<Seq<char>> {
    seq![
        "QuantumLauncher (GPLv3)"@,
        "Forge Installer"@,
        "Fonts (Inter/Jetbrains Mono)"@,
        "Password Asterisks Font"@,
        "LWJGL"@,
    ]
}

/// The mark of the chosen submenu entry.
pub open spec fn chosen_mark(b: bool) -> Seq<char> {
    if b { "  ←"@ } else { Seq::empty() }
}

/// The submenu: About, then each license, the chosen one marked.
pub open spec fn submenu_items(sel: usize) -> Seq<Seq<char>> {
    seq!["  About"@ + chosen_mark(sel == 0)] + Seq::new(
        license_count(),
        |i: int| "  "@ + license_names()[i] + chosen_mark(i + 1 == sel),
    )
}

/// The title and text of a section without settings yet.
pub open spec fn coming_soon(sel: usize) -> (Seq<char>, Seq<char>) {
    if sel == 0 {
        (" General "@, "General settings coming soon!"@)
    } else if sel == 1 {
        (" Java "@, "Java settings coming soon!"@)
    } else if sel == 2 {
        (" UI / Theme "@, "UI / Theme settings coming soon!"@)
    } else {
        (" Launch "@, "Launch options coming soon!"@)
    }
}

/// The Settings tab as drawn from its menus.
pub open spec fn settings_tab_view_of(t: SettingsTab, r: SettingsTabView) -> bool {
    &&& if t.about_selected == 4 {
        r.submenu matches Some(v) && crate::args::views(v@) == submenu_items(t.license_selected)
    } else {
        r.submenu is None
    }
    &&& if t.about_selected < 4 {
        r.right matches RightPane::ComingSoon { title, text } && title@ == coming_soon(t.about_selected).0
            && text@ == coming_soon(t.about_selected).1
    } else if t.about_selected == 4 {
        if t.settings_focus is Left {
            r.right is LicensesOverview
        } else if t.license_selected == 0 {
            r.right is About
        } else {
            r.right == RightPane::License(
                if t.license_selected - 1 < license_count() - 1 { (t.license_selected - 1) as usize } else { (license_count() - 1) as usize },
            )
        }
    } else {
        r.right is Empty
    }
}

fn marked(prefix: &str, name: &str, chosen: bool) -> (r: String)
    ensures
        r@ == prefix@ + name@ + chosen_mark(chosen),
{
    let mut s = concat(prefix, name);
    if chosen {
        push_str(&mut s, "  ←");
    }
    proof {
        if !chosen {
            assert(s@ =~= prefix@ + name@ + chosen_mark(chosen));
        }
    }
    s
}

/// The Settings tab as drawn (see `settings_tab_view_of`).
pub fn settings_tab_view(t: &SettingsTab) -> (r: SettingsTabView)
    ensures
        settings_tab_view_of(*t, r),
{
    let submenu = if t.about_selected == 4 {
        let list = entries();
        let mut items: Vec<String> = Vec::new();
        items.push(marked("  About", "", t.license_selected == 0));
        proof {
            reveal_strlit("");
            assert(""@ =~= Seq::<char>::empty());
            assert(crate::args::views(items@) =~= seq!["  About"@ + chosen_mark(t.license_selected == 0)]);
        }
        let mut i: usize = 0;
        while i < list.len()
            invariant
                crate::licenses::licenses_listed(list@),
                i <= list@.len(),
                list@.len() == license_count(),
                crate::args::views(items@) == submenu_items(t.license_selected).take(i + 1),
            decreases list.len() - i,
        {
            let ghost before = items@;
            items.push(marked("  ", list[i].0, i + 1 == t.license_selected));
            proof {
                assert(list@[i as int].0@ == license_names()[i as int]);
                let full = submenu_items(t.license_selected);
                assert(full[i + 1] == "  "@ + license_names()[i as int] + chosen_mark(i + 1 == t.license_selected));
                assert(full.take(i + 2) =~= full.take(i + 1).push(full[i + 1]));
                assert(crate::args::views(items@) =~= crate::args::views(before).push(items@[i + 1]@));
                assert(crate::args::views(items@) =~= full.take(i + 2));
            }
            i += 1;
        }
        assert(submenu_items(t.license_selected).take((license_count() + 1) as int) =~= submenu_items(t.license_selected));
        Some(items)
    } else {
        None
    };
    let right = if t.about_selected == 0 {
        RightPane::ComingSoon { title: owned(" General "), text: owned("General settings coming soon!") }
    } else if t.about_selected == 1 {
        RightPane::ComingSoon { title: owned(" Java "), text: owned("Java settings coming soon!") }
    } else if t.about_selected == 2 {
        RightPane::ComingSoon { title: owned(" UI / Theme "), text: owned("UI / Theme settings coming soon!") }
    } else if t.about_selected == 3 {
        RightPane::ComingSoon { title: owned(" Launch "), text: owned("Launch options coming soon!") }
    } else if t.about_selected == 4 {
        if let SettingsFocus::Left = t.settings_focus {
            RightPane::LicensesOverview
        } else if t.license_selected == 0 {
            RightPane::About
        } else {
            let last: usize = 4;
            let idx = t.license_selected - 1;
            RightPane::License(if idx < last { idx } else { last })
        }
    } else {
        RightPane::Empty
    };
    SettingsTabView { submenu, right }
}

} // verus!
