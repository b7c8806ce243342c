//! The launcher settings of the launcher window: options, default window
//! size, Safe Mode, and the confirmations before portable mode or
//! system-wide redirection change, as one step from the state and a message
//! to the next state and the work to start.
use vstd::prelude::*;
use crate::accounts::str_eq;
use crate::text::{concat3, parse_unsigned_max, trim, trim_seq, parse_unsigned};
use crate::args::views;
use crate::arg_list::{add_to_arguments_list, edited_arguments};

verus! {

/// The options of the launcher config that the settings change.
pub struct SettingsConfig {
    pub ui_antialiasing: Option<bool>,
    pub save_window_size: bool,
    pub selected_remembered: bool,
    pub selected_instance: Option<String>,
    pub selected_instance_kind: Option<String>,
    pub write_mod_update_changelog: bool,
    pub do_cache: bool,
    pub window_width: Option<u32>,
    pub window_height: Option<u32>,
    pub enable_safe_mode: Option<bool>,
    /// Whether the system draws the window decorations.
    pub system_window_decorations: bool,
    /// The Java arguments given to every instance, once any were added.
    pub extra_java_args: Option<Vec<String>>,
    /// The command words put before the game's command line.
    pub pre_launch_prefix: Vec<String>,
    /// The light or dark mode picked, if one was.
    pub ui_mode: Option<ThemeLightness>,
    /// The name of the colour scheme picked, if one was.
    pub ui_theme: Option<String>,
    /// The name of what the launcher does once the game opens.
    pub after_game_opens: String,
    /// The name of the rendering backend picked, if one was.
    pub launcher_render: Option<String>,
}

/// Light or dark mode.
#[derive(Debug, Clone, Copy, PartialEq, Eq, Structural)]
pub enum ThemeLightness {
    Light,
    Dark,
}

/// Which cleaning a size reported on the settings screen is for.
#[derive(Debug, Clone, Copy, PartialEq, Eq, Structural)]
pub enum SettingsOutmsg {
    Assets,
    Cache,
}

/// The argument lists of the global settings.
#[derive(Debug, Clone, Copy, PartialEq, Eq, Structural)]
pub enum ArgList {
    GlobalJava,
    PreLaunchPrefix,
}

/// An edit of an argument list.
pub enum ListOp {
    /// Append an empty entry.
    Add,
    /// Write text into the entry at the index (see `add_to_arguments_list`).
    Edit(String, usize),
    Delete(usize),
    ShiftUp(usize),
    ShiftDown(usize),
}

/// An argument list after an edit: a new empty entry; an edited entry; an
/// entry removed; or an entry swapped with the one above (below), when
/// there is one.
pub open spec fn list_after(l: Seq<Seq<char>>, op: ListOp) -> Seq<Seq<char>> {
    match op {
        ListOp::Add => l.push(Seq::empty()),
        ListOp::Edit(msg, idx) => edited_arguments(msg@, l, idx as int),
        ListOp::Delete(idx) => if idx < l.len() { l.remove(idx as int) } else { l },
        ListOp::ShiftUp(idx) => if idx > 0 && idx < l.len() {
            l.update(idx as int, l[idx - 1]).update(idx - 1, l[idx as int])
        } else {
            l
        },
        ListOp::ShiftDown(idx) => if idx + 1 < l.len() {
            l.update(idx as int, l[idx + 1]).update(idx + 1, l[idx as int])
        } else {
            l
        },
    }
}

/// Whether an edit can be made without failing: text with a space in it
/// replaces an entry that exists.
pub open spec fn list_op_ok(l: Seq<String>, op: ListOp) -> bool {
    op matches ListOp::Edit(msg, idx) ==> (msg@.contains(' ') ==> idx < l.len())
}

/// The tabs of the settings screen.
#[derive(Debug, Clone, Copy, PartialEq, Eq, Structural)]
pub enum SettingsTab {
    UserInterface,
    Launcher,
    Location,
}

/// What a confirmation dialog confirms.
pub enum ConfirmChoice {
    ClearJavaInstalls,
    DisableSafeMode,
    EnablePortable(String, Vec<String>),
    DisablePortable,
    EnableRedirect(String, Vec<String>),
    DisableRedirect,
    /// Restart so that a new rendering backend takes effect.
    RestartForBackend,
}

/// The screens the settings messages open; `Other` stands for any other.
pub enum SettingsScreen {
    Settings,
    /// A confirmation: what is done, the explanation, and what "yes" does
    /// ("no" goes back to the settings).
    Confirm { msg1: String, msg2: String, choice: ConfirmChoice },
    Other,
}

/// Which path of the settings is edited.
#[derive(Debug, Clone, Copy, PartialEq, Eq, Structural)]
pub enum PathKind {
    Portable,
    SystemRedirect,
}

/// The settings screen and the options it changes.
pub struct LauncherSettingsState {
    pub screen: SettingsScreen,
    pub config: SettingsConfig,
    /// Whether the config changed since it was last saved.
    pub config_unsaved: bool,
    /// The portable and redirection paths typed into the settings.
    pub temp_portable: String,
    pub temp_system_redirect: String,
    /// The flags (such as the graphics backend) stored with them.
    pub temp_portable_flags: Vec<String>,
    pub temp_redirect_flags: Vec<String>,
    /// The paths of the portable mode and of the redirection in force, if
    /// any (empty when they have no path).
    pub portable_current: Option<String>,
    pub redirect_current: Option<String>,
    pub system_dark_mode: bool,
    /// The mode and colour scheme the launcher is drawn in.
    pub theme_lightness: ThemeLightness,
    pub theme_color: String,
    /// The bytes freed by the last cleaning, and which cleaning it was.
    pub outmsg: Option<(SettingsOutmsg, u64)>,
}

/// The launcher settings messages.
pub enum SettingsMsg {
    Open(SettingsTab),
    ToggleAntialiasing(bool),
    ToggleWindowSize(bool),
    ToggleInstanceRemembering(bool),
    ToggleModUpdateChangelog(bool),
    ToggleCaching(bool),
    DefaultMinecraftWidthChanged(String),
    DefaultMinecraftHeightChanged(String),
    ToggleWindowDecorations(bool),
    ToggleSafeMode(bool),
    ToggleSafeModeConfirm(bool),
    ClearJavaInstalls,
    ClearJavaInstallsConfirm,
    CleanAssets,
    ClearDownloadCache,
    ApplyRestart,
    EnablePortableMode,
    EnablePortableModeConfirm(String, Vec<String>),
    DisablePortableMode,
    DisablePortableModeConfirm,
    EnableSystemRedirect,
    EnableSystemRedirectConfirm(String, Vec<String>),
    DisableSystemRedirect,
    DisableSystemRedirectConfirm,
    PickPortablePath,
    PickSystemRedirectPath,
    SetTempPath(PathKind, String),
    /// An edit of the global Java arguments or the pre-launch prefix.
    EditList(ArgList, ListOp),
    /// The portable mode and redirection found: for each, whether it is in
    /// force, with its path (empty when it has none) and flags.
    PortableModeStatusLoaded { portable: Option<(String, Vec<String>)>, redirect: Option<(String, Vec<String>)> },
    /// The system theme was read: whether it is dark, or the error.
    LoadedSystemTheme(Result<bool, String>),
    ThemePicked(ThemeLightness),
    /// A colour scheme picked, by name.
    ColorSchemePicked(String),
    /// What the launcher does once the game opens, by name.
    AfterLaunchBehaviorChanged(String),
    /// A rendering backend picked, by name.
    AppearanceGraphicsBackend(String),
    /// The assets were cleaned: the bytes freed, or the error.
    CleanAssetsFinished(Result<u64, String>),
    /// The download cache was cleared: the bytes freed, or the error.
    ClearDownloadCacheDone(Result<u64, String>),
}

/// The work a settings message asks for.
pub enum SettingsAction {
    Nothing,
    OpenTab(SettingsTab),
    DeleteJavaInstalls,
    CleanAssets,
    ClearCache,
    /// Save the config and restart the launcher.
    SaveAndRestart,
    /// Create the portable-mode file with that path and flags, then restart.
    CreatePortable(String, Vec<String>),
    DeletePortable,
    CreateRedirect(String, Vec<String>),
    DeleteRedirect,
    PickPortablePath,
    PickRedirectPath,
    /// Show this error.
    ShowError(String),
}

/// A number typed as a window size: the trimmed text as a `u32`, if it is
/// one.
pub open spec fn size_of_text(s: Seq<char>) -> Option<u32> {
    match parse_unsigned(trim_seq(s)) {
        Some(v) => if v <= u32::MAX {
            Some(v as u32)
        } else {
            None
        },
        None => None,
    }
}

/// The explanation of restarting for the rendering backend.
pub open spec fn restart_backend_text() -> Seq<char> {
    "The launcher will restart to apply the new rendering backend."@
}

/// The dialog texts for enabling portable mode with `path`, given the
/// portable mode in force.
pub open spec fn portable_texts(path: Seq<char>, current: Option<String>) -> (Seq<char>, Seq<char>) {
    match current {
        Some(c) => if path != c@ {
            ("change portable storage path"@, "The launcher will change its portable storage directory.\nYour existing data will NOT be moved automatically.\n\nThe launcher will automatically restart."@)
        } else {
            ("change graphics backend"@, restart_backend_text())
        },
        None => ("enable portable mode"@, "The launcher will store data next to the executable instead.\nYour existing data will NOT be moved automatically.\n\nThe launcher will automatically restart."@),
    }
}

/// A redirection path, with "." for an empty one.
pub open spec fn dot_if_empty(p: Seq<char>) -> Seq<char> {
    if p.len() == 0 { "."@ } else { p }
}

/// How a redirection path is named in the dialogs.
pub open spec fn redirect_place(path: Seq<char>) -> Seq<char> {
    if path == "."@ { "system data directory"@ } else { path }
}

/// The dialog texts for enabling redirection to `path`, given the
/// redirection in force.
pub open spec fn redirect_texts(path: Seq<char>, current: Option<String>) -> (Seq<char>, Seq<char>) {
    match current {
        Some(c) => if path != dot_if_empty(c@) {
            ("change system-wide redirection path"@, "The launcher will change its global redirection directory to: "@
                + redirect_place(path) + "\nYour existing data will NOT be moved automatically.\n\nThe launcher will automatically restart."@)
        } else {
            ("change graphics backend"@, restart_backend_text())
        },
        None => ("enable system-wide redirection"@, "The launcher will store data globally in: "@ + redirect_place(path)
            + "\nYour existing data will NOT be moved automatically.\n\nThe launcher will automatically restart."@),
    }
}

/// The screen is a confirmation with these texts and this choice.
pub open spec fn confirms(s: SettingsScreen, m1: Seq<char>, m2: Seq<char>, c: ConfirmChoice) -> bool {
    s matches SettingsScreen::Confirm { msg1, msg2, choice } && msg1@ == m1 && msg2@ == m2 && choice == c
}

/// The state with only the config replaced.
pub open spec fn with_config(o: LauncherSettingsState, c: SettingsConfig) -> LauncherSettingsState {
    LauncherSettingsState { config: c, ..o }
}

/// A cleaning finished: the bytes freed are reported on the settings
/// screen (while it is open), an error is shown.
pub open spec fn cleaning_done(
    o: LauncherSettingsState,
    res: Result<u64, String>,
    kind: SettingsOutmsg,
    n: LauncherSettingsState,
    r: SettingsAction,
) -> bool {
    match res {
        Ok(b) => r is Nothing && n == if o.screen is Settings {
            LauncherSettingsState { outmsg: Some((kind, b)), ..o }
        } else {
            o
        },
        Err(e) => n == o && r == SettingsAction::ShowError(e),
    }
}

/// The next state and the work for a settings message.
pub open spec fn settings_effect(o: LauncherSettingsState, msg: SettingsMsg, n: LauncherSettingsState, r: SettingsAction) -> bool {
    let c = o.config;
    match msg {
        SettingsMsg::Open(t) => n == o && r == SettingsAction::OpenTab(t),
        SettingsMsg::ToggleAntialiasing(t) => n == with_config(o, SettingsConfig { ui_antialiasing: Some(t), ..c }) && r is Nothing,
        SettingsMsg::ToggleWindowSize(t) => n == with_config(o, SettingsConfig { save_window_size: t, ..c }) && r is Nothing,
        SettingsMsg::ToggleInstanceRemembering(t) => r is Nothing && n == with_config(o, if t {
            SettingsConfig { selected_remembered: true, ..c }
        } else {
            SettingsConfig { selected_remembered: false, selected_instance: None, selected_instance_kind: None, ..c }
        }),
        SettingsMsg::ToggleModUpdateChangelog(t) => n == with_config(o, SettingsConfig { write_mod_update_changelog: t, ..c }) && r is Nothing,
        SettingsMsg::ToggleCaching(t) => n == with_config(o, SettingsConfig { do_cache: t, ..c }) && r is Nothing,
        SettingsMsg::DefaultMinecraftWidthChanged(s) => n == with_config(o, SettingsConfig { window_width: size_of_text(s@), ..c }) && r is Nothing,
        SettingsMsg::DefaultMinecraftHeightChanged(s) => n == with_config(o, SettingsConfig { window_height: size_of_text(s@), ..c }) && r is Nothing,
        SettingsMsg::ToggleWindowDecorations(b) => n == with_config(o, SettingsConfig { system_window_decorations: !b, ..c }) && r is Nothing,
        SettingsMsg::ToggleSafeMode(t) => r is Nothing && if t {
            n == (LauncherSettingsState { config: SettingsConfig { enable_safe_mode: Some(true), ..c }, config_unsaved: true, ..o })
        } else {
            &&& n == (LauncherSettingsState { screen: n.screen, ..o })
            &&& confirms(n.screen, "disable automatic Safe Mode"@, "Disabling Safe Mode might cause the launcher to CRASH ON STARTUP. This is highly discouraged.\n\nAre you sure you know what you are doing?"@, ConfirmChoice::DisableSafeMode)
        },
        SettingsMsg::ToggleSafeModeConfirm(t) => n == (LauncherSettingsState { config: SettingsConfig { enable_safe_mode: Some(t), ..c }, config_unsaved: true, ..o })
            && r == SettingsAction::OpenTab(SettingsTab::UserInterface),
        SettingsMsg::ClearJavaInstalls => r is Nothing && n == (LauncherSettingsState { screen: n.screen, ..o })
            && confirms(n.screen, "delete auto-installed Java files"@, "They will get reinstalled automatically as needed.\nNote: This does take a while to redownload."@, ConfirmChoice::ClearJavaInstalls),
        SettingsMsg::ClearJavaInstallsConfirm => n == o && r is DeleteJavaInstalls,
        SettingsMsg::CleanAssets => n == o && r is CleanAssets,
        SettingsMsg::ClearDownloadCache => n == o && r is ClearCache,
        SettingsMsg::ApplyRestart => n == o && r is SaveAndRestart,
        SettingsMsg::EnablePortableMode => {
            let path = if o.screen is Settings { o.temp_portable@ } else { Seq::empty() };
            let flags = if o.screen is Settings { o.temp_portable_flags@ } else { Seq::empty() };
            let current = if o.screen is Settings { o.portable_current } else { None };
            let (m1, m2) = portable_texts(path, current);
            &&& r is Nothing
            &&& n == (LauncherSettingsState { screen: n.screen, ..o })
            &&& n.screen matches SettingsScreen::Confirm { msg1, msg2, choice } && msg1@ == m1 && msg2@ == m2
                && (choice matches ConfirmChoice::EnablePortable(p, f) && p@ == path && f@ == flags)
        },
        SettingsMsg::EnablePortableModeConfirm(p, f) => n == o && r == SettingsAction::CreatePortable(p, f),
        SettingsMsg::DisablePortableMode => r is Nothing && n == (LauncherSettingsState { screen: n.screen, ..o })
            && confirms(n.screen, "disable portable mode"@, "The launcher will store data in the system data directory instead.\nYour existing data will NOT be moved automatically.\n\nThe launcher will automatically restart."@, ConfirmChoice::DisablePortable),
        SettingsMsg::DisablePortableModeConfirm => n == o && r is DeletePortable,
        SettingsMsg::EnableSystemRedirect => {
            let typed = if o.screen is Settings { o.temp_system_redirect@ } else { Seq::empty() };
            let path = dot_if_empty(typed);
            let flags = if o.screen is Settings { o.temp_redirect_flags@ } else { Seq::empty() };
            let current = if o.screen is Settings { o.redirect_current } else { None };
            let (m1, m2) = redirect_texts(path, current);
            &&& r is Nothing
            &&& n == (LauncherSettingsState { screen: n.screen, ..o })
            &&& n.screen matches SettingsScreen::Confirm { msg1, msg2, choice } && msg1@ == m1 && msg2@ == m2
                && (choice matches ConfirmChoice::EnableRedirect(p, f) && p@ == path && f@ == flags)
        },
        SettingsMsg::EnableSystemRedirectConfirm(p, f) => n == o && r == SettingsAction::CreateRedirect(p, f),
        SettingsMsg::DisableSystemRedirect => r is Nothing && n == (LauncherSettingsState { screen: n.screen, ..o })
            && confirms(n.screen, "disable system-wide redirection"@, "The launcher will stop reading data globally from the system data directory.\nYour existing data will NOT be moved automatically.\n\nThe launcher will automatically restart."@, ConfirmChoice::DisableRedirect),
        SettingsMsg::DisableSystemRedirectConfirm => n == o && r is DeleteRedirect,
        SettingsMsg::PickPortablePath => n == o && r is PickPortablePath,
        SettingsMsg::PickSystemRedirectPath => n == o && r is PickRedirectPath,
        SettingsMsg::SetTempPath(kind, p) => r is Nothing && if o.screen is Settings {
            match kind {
                PathKind::Portable => n == (LauncherSettingsState { temp_portable: p, ..o }),
                PathKind::SystemRedirect => n == (LauncherSettingsState { temp_system_redirect: p, ..o }),
            }
        } else {
            n == o
        },
        SettingsMsg::PortableModeStatusLoaded { portable, redirect } => r is Nothing && if o.screen is Settings {
            &&& n == (LauncherSettingsState {
                portable_current: n.portable_current,
                redirect_current: n.redirect_current,
                temp_portable: n.temp_portable,
                temp_system_redirect: n.temp_system_redirect,
                temp_portable_flags: n.temp_portable_flags,
                temp_redirect_flags: n.temp_redirect_flags,
                ..o
            })
            &&& match portable {
                Some((p, f)) => n.portable_current == Some(p) && n.temp_portable == p && n.temp_portable_flags == f,
                None => n.portable_current is None && n.temp_portable@.len() == 0 && n.temp_portable_flags@.len() == 0,
            }
            &&& match redirect {
                Some((p, f)) => n.redirect_current == Some(p) && n.temp_system_redirect == p && n.temp_redirect_flags == f,
                None => n.redirect_current is None && n.temp_system_redirect@.len() == 0 && n.temp_redirect_flags@.len() == 0,
            }
        } else {
            n == o
        },
        SettingsMsg::EditList(which, op) => r is Nothing && list_edit_effect(o, which, op, n),
        SettingsMsg::ThemePicked(t) => r is Nothing && n == (LauncherSettingsState {
            config: SettingsConfig { ui_mode: Some(t), ..c },
            theme_lightness: t,
            ..o
        }),
        SettingsMsg::ColorSchemePicked(name) => r is Nothing && n == (LauncherSettingsState {
            config: SettingsConfig { ui_theme: Some(name), ..c },
            theme_color: name,
            ..o
        }),
        SettingsMsg::AfterLaunchBehaviorChanged(b) => r is Nothing && n == (LauncherSettingsState {
            config: SettingsConfig { after_game_opens: b, ..c },
            config_unsaved: true,
            ..o
        }),
        SettingsMsg::AppearanceGraphicsBackend(b) => {
            &&& r is Nothing
            &&& n == (LauncherSettingsState {
                config: SettingsConfig { launcher_render: Some(b), ..c },
                config_unsaved: true,
                screen: n.screen,
                ..o
            })
            &&& confirms(n.screen, "restart to apply rendering backend"@, restart_backend_text(), ConfirmChoice::RestartForBackend)
        },
        SettingsMsg::CleanAssetsFinished(res) => cleaning_done(o, res, SettingsOutmsg::Assets, n, r),
        SettingsMsg::ClearDownloadCacheDone(res) => cleaning_done(o, res, SettingsOutmsg::Cache, n, r),
        SettingsMsg::LoadedSystemTheme(res) => r is Nothing && match res {
            Ok(dark) => n == (LauncherSettingsState { system_dark_mode: dark, ..o }),
            Err(_) => n == o,
        },
    }
}

/// A window size typed into the settings (see `size_of_text`).
fn size_from_text(s: &str) -> (r: Option<u32>)
    ensures
        r == size_of_text(s@),
{
    let t = trim(s);
    match parse_unsigned_max(t.as_str(), 4294967295u64) {
        Some(v) => Some(v as u32),
        None => None,
    }
}

fn copy_opt(o: &Option<String>) -> (r: Option<String>)
    ensures
        r == *o,
{
    match o {
        Some(s) => Some(s.clone()),
        None => None,
    }
}

fn copy_strings(v: &Vec<String>) -> (r: Vec<String>)
    ensures
        r@ == v@,
{
    let mut out: Vec<String> = Vec::new();
    let mut i: usize = 0;
    while i < v.len()
        invariant
            i <= v@.len(),
            out@ == v@.take(i as int),
        decreases v.len() - i,
    {
        out.push(v[i].clone());
        assert(out@ =~= v@.take(i + 1));
        i += 1;
    }
    assert(v@.take(v@.len() as int) =~= v@);
    out
}

/// Makes an edit of an argument list (see `list_after`).
fn apply_list_op(v: &mut Vec<String>, op: ListOp)
    requires
        list_op_ok(old(v)@, op),
    ensures
        views(final(v)@) == list_after(views(old(v)@), op),
{
    let ghost l = views(v@);
    match op {
        ListOp::Add => {
            v.push(String::new());
            assert(views(v@) =~= l.push(Seq::empty()));
        },
        ListOp::Edit(msg, idx) => {
            add_to_arguments_list(msg, v, idx);
        },
        ListOp::Delete(idx) => {
            if idx < v.len() {
                let _ = v.remove(idx);
                assert(views(v@) =~= l.remove(idx as int));
            }
        },
        ListOp::ShiftUp(idx) => {
            if idx > 0 && idx < v.len() {
                let a = v[idx].clone();
                let b = v[idx - 1].clone();
                v.set(idx, b);
                v.set(idx - 1, a);
                assert(views(v@) =~= l.update(idx as int, l[idx - 1]).update(idx - 1, l[idx as int]));
            }
        },
        ListOp::ShiftDown(idx) => {
            if idx < v.len() && idx + 1 < v.len() {
                let a = v[idx].clone();
                let b = v[idx + 1].clone();
                v.set(idx, b);
                v.set(idx + 1, a);
                assert(views(v@) =~= l.update(idx as int, l[idx + 1]).update(idx + 1, l[idx as int]));
            }
        },
    }
}

/// What an edit of one of the argument lists does to the settings: the
/// Java arguments, when they are unset, are only started by `Add`.
pub open spec fn list_edit_effect(
    o: LauncherSettingsState,
    which: ArgList,
    op: ListOp,
    n: LauncherSettingsState,
) -> bool {
    let c = o.config;
    match which {
        ArgList::GlobalJava => match c.extra_java_args {
            Some(v) => {
                &&& n == with_config(o, SettingsConfig { extra_java_args: n.config.extra_java_args, ..c })
                &&& n.config.extra_java_args matches Some(nv) && views(nv@) == list_after(views(v@), op)
            },
            None => if op is Add {
                &&& n == with_config(o, SettingsConfig { extra_java_args: n.config.extra_java_args, ..c })
                &&& n.config.extra_java_args matches Some(nv) && views(nv@) == seq![Seq::<char>::empty()]
            } else {
                n == o
            },
        },
        ArgList::PreLaunchPrefix => {
            &&& n == with_config(o, SettingsConfig { pre_launch_prefix: n.config.pre_launch_prefix, ..c })
            &&& views(n.config.pre_launch_prefix@) == list_after(views(c.pre_launch_prefix@), op)
        },
    }
}

/// Makes an edit of one of the argument lists (see `list_edit_effect`).
fn edit_list(s: &mut LauncherSettingsState, which: ArgList, op: ListOp)
    requires
        match which {
            ArgList::GlobalJava => old(s).config.extra_java_args matches Some(v) ==> list_op_ok(v@, op),
            ArgList::PreLaunchPrefix => list_op_ok(old(s).config.pre_launch_prefix@, op),
        },
    ensures
        list_edit_effect(*old(s), which, op, *final(s)),
{
    match which {
        ArgList::GlobalJava => {
            let current = s.config.extra_java_args.take();
            match current {
                Some(mut v) => {
                    apply_list_op(&mut v, op);
                    s.config.extra_java_args = Some(v);
                },
                None => {
                    if let ListOp::Add = op {
                        let mut v: Vec<String> = Vec::new();
                        v.push(String::new());
                        assert(views(v@) =~= seq![Seq::<char>::empty()]);
                        s.config.extra_java_args = Some(v);
                    }
                },
            }
        },
        ArgList::PreLaunchPrefix => {
            apply_list_op(&mut s.config.pre_launch_prefix, op);
        },
    }
}

/// One step of the launcher settings (see `settings_effect`). Writing text
/// with a space into an argument list needs the entry to exist.
#[verifier::rlimit(40)]
pub fn settings_step(s: &mut LauncherSettingsState, msg: SettingsMsg) -> (r: SettingsAction)
    requires
        msg matches SettingsMsg::EditList(which, op) ==> match which {
            ArgList::GlobalJava => old(s).config.extra_java_args matches Some(v) ==> list_op_ok(v@, op),
            ArgList::PreLaunchPrefix => list_op_ok(old(s).config.pre_launch_prefix@, op),
        },
    ensures
        settings_effect(*old(s), msg, *final(s), r),
{
    proof {
        reveal_strlit(".");
    }
    match msg {
        SettingsMsg::Open(t) => SettingsAction::OpenTab(t),
        SettingsMsg::ToggleAntialiasing(t) => {
            s.config.ui_antialiasing = Some(t);
            SettingsAction::Nothing
        },
        SettingsMsg::ToggleWindowSize(t) => {
            s.config.save_window_size = t;
            SettingsAction::Nothing
        },
        SettingsMsg::ToggleInstanceRemembering(t) => {
            s.config.selected_remembered = t;
            if !t {
                s.config.selected_instance = None;
                s.config.selected_instance_kind = None;
            }
            SettingsAction::Nothing
        },
        SettingsMsg::ToggleModUpdateChangelog(t) => {
            s.config.write_mod_update_changelog = t;
            SettingsAction::Nothing
        },
        SettingsMsg::ToggleCaching(t) => {
            s.config.do_cache = t;
            SettingsAction::Nothing
        },
        SettingsMsg::DefaultMinecraftWidthChanged(text) => {
            s.config.window_width = size_from_text(text.as_str());
            SettingsAction::Nothing
        },
        SettingsMsg::DefaultMinecraftHeightChanged(text) => {
            s.config.window_height = size_from_text(text.as_str());
            SettingsAction::Nothing
        },
        SettingsMsg::ToggleWindowDecorations(b) => {
            s.config.system_window_decorations = !b;
            SettingsAction::Nothing
        },
        SettingsMsg::ToggleSafeMode(t) => {
            if t {
                s.config.enable_safe_mode = Some(true);
                s.config_unsaved = true;
            } else {
                s.screen = SettingsScreen::Confirm {
                    msg1: "disable automatic Safe Mode".to_owned(),
                    msg2: "Disabling Safe Mode might cause the launcher to CRASH ON STARTUP. This is highly discouraged.\n\nAre you sure you know what you are doing?".to_owned(),
                    choice: ConfirmChoice::DisableSafeMode,
                };
            }
            SettingsAction::Nothing
        },
        SettingsMsg::ToggleSafeModeConfirm(t) => {
            s.config.enable_safe_mode = Some(t);
            s.config_unsaved = true;
            SettingsAction::OpenTab(SettingsTab::UserInterface)
        },
        SettingsMsg::ClearJavaInstalls => {
            s.screen = SettingsScreen::Confirm {
                msg1: "delete auto-installed Java files".to_owned(),
                msg2: "They will get reinstalled automatically as needed.\nNote: This does take a while to redownload.".to_owned(),
                choice: ConfirmChoice::ClearJavaInstalls,
            };
            SettingsAction::Nothing
        },
        SettingsMsg::ClearJavaInstallsConfirm => SettingsAction::DeleteJavaInstalls,
        SettingsMsg::CleanAssets => SettingsAction::CleanAssets,
        SettingsMsg::ClearDownloadCache => SettingsAction::ClearCache,
        SettingsMsg::ApplyRestart => SettingsAction::SaveAndRestart,
        SettingsMsg::EnablePortableMode => {
            let (path, flags, current) = match s.screen {
                SettingsScreen::Settings => (s.temp_portable.clone(), copy_strings(&s.temp_portable_flags), copy_opt(&s.portable_current)),
                _ => (String::new(), Vec::new(), None),
            };
            let (msg1, msg2) = match &current {
                Some(c) => if !str_eq(path.as_str(), c.as_str()) {
                    ("change portable storage path".to_owned(), "The launcher will change its portable storage directory.\nYour existing data will NOT be moved automatically.\n\nThe launcher will automatically restart.".to_owned())
                } else {
                    ("change graphics backend".to_owned(), "The launcher will restart to apply the new rendering backend.".to_owned())
                },
                None => ("enable portable mode".to_owned(), "The launcher will store data next to the executable instead.\nYour existing data will NOT be moved automatically.\n\nThe launcher will automatically restart.".to_owned()),
            };
            s.screen = SettingsScreen::Confirm { msg1, msg2, choice: ConfirmChoice::EnablePortable(path, flags) };
            SettingsAction::Nothing
        },
        SettingsMsg::EnablePortableModeConfirm(p, f) => SettingsAction::CreatePortable(p, f),
        SettingsMsg::DisablePortableMode => {
            s.screen = SettingsScreen::Confirm {
                msg1: "disable portable mode".to_owned(),
                msg2: "The launcher will store data in the system data directory instead.\nYour existing data will NOT be moved automatically.\n\nThe launcher will automatically restart.".to_owned(),
                choice: ConfirmChoice::DisablePortable,
            };
            SettingsAction::Nothing
        },
        SettingsMsg::DisablePortableModeConfirm => SettingsAction::DeletePortable,
        SettingsMsg::EnableSystemRedirect => {
            let (mut path, flags, current) = match s.screen {
                SettingsScreen::Settings => (s.temp_system_redirect.clone(), copy_strings(&s.temp_redirect_flags), copy_opt(&s.redirect_current)),
                _ => (String::new(), Vec::new(), None),
            };
            if path.as_str().is_empty() {
                path = ".".to_owned();
            }
            let place = if str_eq(path.as_str(), ".") {
                "system data directory".to_owned()
            } else {
                path.clone()
            };
            let (msg1, msg2) = match &current {
                Some(c) => {
                    let cur = if c.as_str().is_empty() { ".".to_owned() } else { c.clone() };
                    if !str_eq(path.as_str(), cur.as_str()) {
                        ("change system-wide redirection path".to_owned(), concat3(
                            "The launcher will change its global redirection directory to: ",
                            place.as_str(),
                            "\nYour existing data will NOT be moved automatically.\n\nThe launcher will automatically restart.",
                        ))
                    } else {
                        ("change graphics backend".to_owned(), "The launcher will restart to apply the new rendering backend.".to_owned())
                    }
                },
                None => ("enable system-wide redirection".to_owned(), concat3(
                    "The launcher will store data globally in: ",
                    place.as_str(),
                    "\nYour existing data will NOT be moved automatically.\n\nThe launcher will automatically restart.",
                )),
            };
            s.screen = SettingsScreen::Confirm { msg1, msg2, choice: ConfirmChoice::EnableRedirect(path, flags) };
            SettingsAction::Nothing
        },
        SettingsMsg::EnableSystemRedirectConfirm(p, f) => SettingsAction::CreateRedirect(p, f),
        SettingsMsg::DisableSystemRedirect => {
            s.screen = SettingsScreen::Confirm {
                msg1: "disable system-wide redirection".to_owned(),
                msg2: "The launcher will stop reading data globally from the system data directory.\nYour existing data will NOT be moved automatically.\n\nThe launcher will automatically restart.".to_owned(),
                choice: ConfirmChoice::DisableRedirect,
            };
            SettingsAction::Nothing
        },
        SettingsMsg::DisableSystemRedirectConfirm => SettingsAction::DeleteRedirect,
        SettingsMsg::PickPortablePath => SettingsAction::PickPortablePath,
        SettingsMsg::PickSystemRedirectPath => SettingsAction::PickRedirectPath,
        SettingsMsg::SetTempPath(kind, p) => {
            if let SettingsScreen::Settings = s.screen {
                match kind {
                    PathKind::Portable => s.temp_portable = p,
                    PathKind::SystemRedirect => s.temp_system_redirect = p,
                }
            }
            SettingsAction::Nothing
        },
        SettingsMsg::PortableModeStatusLoaded { portable, redirect } => {
            if let SettingsScreen::Settings = s.screen {
                match portable {
                    Some((p, f)) => {
                        s.portable_current = Some(p.clone());
                        s.temp_portable = p;
                        s.temp_portable_flags = f;
                    },
                    None => {
                        s.portable_current = None;
                        s.temp_portable = String::new();
                        s.temp_portable_flags = Vec::new();
                    },
                }
                match redirect {
                    Some((p, f)) => {
                        s.redirect_current = Some(p.clone());
                        s.temp_system_redirect = p;
                        s.temp_redirect_flags = f;
                    },
                    None => {
                        s.redirect_current = None;
                        s.temp_system_redirect = String::new();
                        s.temp_redirect_flags = Vec::new();
                    },
                }
            }
            SettingsAction::Nothing
        },
        SettingsMsg::EditList(which, op) => {
            edit_list(s, which, op);
            SettingsAction::Nothing
        },
        SettingsMsg::LoadedSystemTheme(res) => {
            if let Ok(dark) = res {
                s.system_dark_mode = dark;
            }
            SettingsAction::Nothing
        },
        SettingsMsg::ThemePicked(t) => {
            s.config.ui_mode = Some(t);
            s.theme_lightness = t;
            SettingsAction::Nothing
        },
        SettingsMsg::ColorSchemePicked(name) => {
            s.config.ui_theme = Some(name.clone());
            s.theme_color = name;
            SettingsAction::Nothing
        },
        SettingsMsg::AfterLaunchBehaviorChanged(b) => {
            s.config.after_game_opens = b;
            s.config_unsaved = true;
            SettingsAction::Nothing
        },
        SettingsMsg::AppearanceGraphicsBackend(b) => {
            s.config.launcher_render = Some(b);
            s.config_unsaved = true;
            s.screen = SettingsScreen::Confirm {
                msg1: "restart to apply rendering backend".to_owned(),
                msg2: "The launcher will restart to apply the new rendering backend.".to_owned(),
                choice: ConfirmChoice::RestartForBackend,
            };
            SettingsAction::Nothing
        },
        SettingsMsg::CleanAssetsFinished(res) => cleaning_finished(s, res, SettingsOutmsg::Assets),
        SettingsMsg::ClearDownloadCacheDone(res) => cleaning_finished(s, res, SettingsOutmsg::Cache),
    }
}

/// Reports a finished cleaning (see `cleaning_done`).
fn cleaning_finished(s: &mut LauncherSettingsState, res: Result<u64, String>, kind: SettingsOutmsg) -> (r: SettingsAction)
    ensures
        cleaning_done(*old(s), res, kind, *final(s), r),
{
    match res {
        Ok(b) => {
            if let SettingsScreen::Settings = s.screen {
                s.outmsg = Some((kind, b));
            }
            SettingsAction::Nothing
        },
        Err(e) => SettingsAction::ShowError(e),
    }
}

} // verus!
