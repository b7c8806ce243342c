use quantum_launcher::launcher_settings::{
    settings_step, ArgList, ConfirmChoice, LauncherSettingsState, ListOp, PathKind, SettingsAction, SettingsConfig,
    SettingsMsg, SettingsOutmsg, SettingsScreen, SettingsTab, ThemeLightness,
};

fn state() -> LauncherSettingsState {
    LauncherSettingsState {
        screen: SettingsScreen::Settings,
        config: SettingsConfig {
            ui_antialiasing: None,
            save_window_size: false,
            selected_remembered: true,
            selected_instance: Some("pack".to_string()),
            selected_instance_kind: Some("client".to_string()),
            write_mod_update_changelog: false,
            do_cache: true,
            window_width: None,
            window_height: None,
            enable_safe_mode: None,
            system_window_decorations: false,
            extra_java_args: None,
            pre_launch_prefix: Vec::new(),
            ui_mode: None,
            ui_theme: None,
            after_game_opens: "Nothing".to_string(),
            launcher_render: None,
        },
        config_unsaved: false,
        temp_portable: String::new(),
        temp_system_redirect: String::new(),
        temp_portable_flags: Vec::new(),
        temp_redirect_flags: vec!["wgpu".to_string()],
        portable_current: None,
        redirect_current: None,
        system_dark_mode: false,
        theme_lightness: ThemeLightness::Dark,
        theme_color: "Purple".to_string(),
        outmsg: None,
    }
}

fn dialog(s: &LauncherSettingsState) -> (String, String) {
    match &s.screen {
        SettingsScreen::Confirm { msg1, msg2, .. } => (msg1.clone(), msg2.clone()),
        _ => panic!("expected a confirmation"),
    }
}

#[test]
fn window_size_is_parsed_from_trimmed_text() {
    let mut s = state();
    settings_step(&mut s, SettingsMsg::DefaultMinecraftWidthChanged(" 1280 ".to_string()));
    settings_step(&mut s, SettingsMsg::DefaultMinecraftHeightChanged("72o".to_string()));
    assert_eq!(s.config.window_width, Some(1280));
    assert_eq!(s.config.window_height, None);
    settings_step(&mut s, SettingsMsg::DefaultMinecraftWidthChanged("4294967296".to_string()));
    assert_eq!(s.config.window_width, None);
}

#[test]
fn forgetting_instances_clears_the_remembered_one() {
    let mut s = state();
    settings_step(&mut s, SettingsMsg::ToggleInstanceRemembering(false));
    assert!(!s.config.selected_remembered);
    assert!(s.config.selected_instance.is_none() && s.config.selected_instance_kind.is_none());
}

#[test]
fn safe_mode_off_needs_confirmation() {
    let mut s = state();
    settings_step(&mut s, SettingsMsg::ToggleSafeMode(false));
    assert_eq!(dialog(&s).0, "disable automatic Safe Mode");
    let r = settings_step(&mut s, SettingsMsg::ToggleSafeModeConfirm(false));
    assert_eq!(s.config.enable_safe_mode, Some(false));
    assert!(s.config_unsaved);
    assert!(matches!(r, SettingsAction::OpenTab(SettingsTab::UserInterface)));
}

#[test]
fn redirect_dialog_names_the_place() {
    let mut s = state();
    settings_step(&mut s, SettingsMsg::EnableSystemRedirect);
    let (m1, m2) = dialog(&s);
    assert_eq!(m1, "enable system-wide redirection");
    assert!(m2.starts_with("The launcher will store data globally in: system data directory\n"));
    let mut s = state();
    s.redirect_current = Some(String::new());
    settings_step(&mut s, SettingsMsg::SetTempPath(PathKind::SystemRedirect, "/data".to_string()));
    settings_step(&mut s, SettingsMsg::EnableSystemRedirect);
    let (m1, m2) = dialog(&s);
    assert_eq!(m1, "change system-wide redirection path");
    assert!(m2.starts_with("The launcher will change its global redirection directory to: /data\n"));
    match &s.screen {
        SettingsScreen::Confirm { choice: ConfirmChoice::EnableRedirect(p, f), .. } => {
            assert_eq!(p, "/data");
            assert_eq!(f, &vec!["wgpu".to_string()]);
        }
        _ => panic!("expected a confirmation"),
    }
}

#[test]
fn portable_dialog_depends_on_the_mode_in_force() {
    let mut s = state();
    s.portable_current = Some("/p".to_string());
    s.temp_portable = "/p".to_string();
    settings_step(&mut s, SettingsMsg::EnablePortableMode);
    assert_eq!(dialog(&s).0, "change graphics backend");
}

fn strings(v: &[&str]) -> Vec<String> {
    v.iter().map(|x| x.to_string()).collect()
}

#[test]
fn java_argument_list_starts_with_add() {
    let mut s = state();
    settings_step(&mut s, SettingsMsg::EditList(ArgList::GlobalJava, ListOp::Delete(0)));
    assert_eq!(s.config.extra_java_args, None);
    let r = settings_step(&mut s, SettingsMsg::EditList(ArgList::GlobalJava, ListOp::Add));
    assert!(matches!(r, SettingsAction::Nothing));
    assert_eq!(s.config.extra_java_args, Some(vec![String::new()]));
    settings_step(&mut s, SettingsMsg::EditList(ArgList::GlobalJava, ListOp::Edit("-Xmx2G".to_string(), 0)));
    assert_eq!(s.config.extra_java_args, Some(strings(&["-Xmx2G"])));
}

#[test]
fn argument_text_with_spaces_becomes_several_entries() {
    let mut s = state();
    s.config.pre_launch_prefix = strings(&["a", "b", "c"]);
    settings_step(&mut s, SettingsMsg::EditList(ArgList::PreLaunchPrefix, ListOp::Edit("x  y".to_string(), 1)));
    assert_eq!(s.config.pre_launch_prefix, strings(&["a", "x", "y", "c"]));
    settings_step(&mut s, SettingsMsg::EditList(ArgList::PreLaunchPrefix, ListOp::Edit("z".to_string(), 9)));
    assert_eq!(s.config.pre_launch_prefix, strings(&["a", "x", "y", "c"]));
}

#[test]
fn argument_entries_shift_and_delete() {
    let mut s = state();
    s.config.pre_launch_prefix = strings(&["a", "b", "c"]);
    settings_step(&mut s, SettingsMsg::EditList(ArgList::PreLaunchPrefix, ListOp::ShiftUp(2)));
    assert_eq!(s.config.pre_launch_prefix, strings(&["a", "c", "b"]));
    settings_step(&mut s, SettingsMsg::EditList(ArgList::PreLaunchPrefix, ListOp::ShiftUp(0)));
    assert_eq!(s.config.pre_launch_prefix, strings(&["a", "c", "b"]));
    settings_step(&mut s, SettingsMsg::EditList(ArgList::PreLaunchPrefix, ListOp::ShiftDown(0)));
    assert_eq!(s.config.pre_launch_prefix, strings(&["c", "a", "b"]));
    settings_step(&mut s, SettingsMsg::EditList(ArgList::PreLaunchPrefix, ListOp::ShiftDown(2)));
    assert_eq!(s.config.pre_launch_prefix, strings(&["c", "a", "b"]));
    settings_step(&mut s, SettingsMsg::EditList(ArgList::PreLaunchPrefix, ListOp::Delete(1)));
    assert_eq!(s.config.pre_launch_prefix, strings(&["c", "b"]));
    settings_step(&mut s, SettingsMsg::EditList(ArgList::PreLaunchPrefix, ListOp::Delete(5)));
    assert_eq!(s.config.pre_launch_prefix, strings(&["c", "b"]));
}

#[test]
fn theme_and_colour_picks_apply_at_once() {
    let mut s = state();
    settings_step(&mut s, SettingsMsg::ThemePicked(ThemeLightness::Light));
    assert_eq!(s.config.ui_mode, Some(ThemeLightness::Light));
    assert_eq!(s.theme_lightness, ThemeLightness::Light);
    settings_step(&mut s, SettingsMsg::ColorSchemePicked("Teal".to_string()));
    assert_eq!(s.config.ui_theme, Some("Teal".to_string()));
    assert_eq!(s.theme_color, "Teal");
    assert!(!s.config_unsaved);
    settings_step(&mut s, SettingsMsg::AfterLaunchBehaviorChanged("Minimize".to_string()));
    assert_eq!(s.config.after_game_opens, "Minimize");
    assert!(s.config_unsaved);
}

#[test]
fn graphics_backend_asks_to_restart() {
    let mut s = state();
    let r = settings_step(&mut s, SettingsMsg::AppearanceGraphicsBackend("wgpu".to_string()));
    assert!(matches!(r, SettingsAction::Nothing));
    assert_eq!(s.config.launcher_render, Some("wgpu".to_string()));
    assert!(s.config_unsaved);
    let (m1, m2) = dialog(&s);
    assert_eq!(m1, "restart to apply rendering backend");
    assert_eq!(m2, "The launcher will restart to apply the new rendering backend.");
    assert!(matches!(&s.screen, SettingsScreen::Confirm { choice: ConfirmChoice::RestartForBackend, .. }));
}

#[test]
fn cleaning_reports_the_bytes_freed_or_the_error() {
    let mut s = state();
    settings_step(&mut s, SettingsMsg::CleanAssetsFinished(Ok(2048)));
    assert_eq!(s.outmsg, Some((SettingsOutmsg::Assets, 2048)));
    settings_step(&mut s, SettingsMsg::ClearDownloadCacheDone(Ok(7)));
    assert_eq!(s.outmsg, Some((SettingsOutmsg::Cache, 7)));
    let r = settings_step(&mut s, SettingsMsg::ClearDownloadCacheDone(Err("busy".to_string())));
    assert!(matches!(r, SettingsAction::ShowError(ref e) if e == "busy"));
    assert_eq!(s.outmsg, Some((SettingsOutmsg::Cache, 7)));
    let mut s = state();
    settings_step(&mut s, SettingsMsg::ClearJavaInstalls);
    settings_step(&mut s, SettingsMsg::CleanAssetsFinished(Ok(5)));
    assert_eq!(s.outmsg, None);
}
