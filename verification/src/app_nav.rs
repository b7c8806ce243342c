//! Navigation in the terminal UI: tabs, list selections, the Settings menus
//! and the help popup.
use vstd::prelude::*;
use crate::accounts::AccountType;
use crate::app_state::{
    cyclic_next, cyclic_prev, is_initial_state, next_tab_of, prev_tab_of, AccountForm, AccountList,
    AddAccountFieldFocus, App, ArgsEditKind, CreateTab, EditPopups, InstanceList, InstancePage,
    InstanceSettingsPage, InstanceSettingsTab, LogViews, SettingsFocus, SettingsTab, TabId,
};
use crate::licenses::{license_count, menu_index};
use crate::logs::InstanceLogs;
use crate::text::concat;

verus! {

/// `(i + 1) % n` without overflow.
pub fn cyclic_next_exec(i: usize, n: usize) -> (r: usize)
    requires
        n > 0,
    ensures
        r == cyclic_next(i, n),
        r < n,
{
    let r = (i % n + 1) % n;
    proof {
        vstd::arithmetic::div_mod::lemma_add_mod_noop(i as int, 1, n as int);
        if n > 1 {
            vstd::arithmetic::div_mod::lemma_small_mod(1, n as nat);
        } else {
            assert((i % n + 1) % (n as int) == 0) by (nonlinear_arith)
                requires
                    n == 1,
            ;
            assert((i + 1) % (n as int) == 0) by (nonlinear_arith)
                requires
                    n == 1,
            ;
        }
    }
    r
}

impl App {
    /// A fresh TUI state. Instances, versions and accounts are loaded
    /// afterwards (see `apply_refresh` and `apply_loaded_accounts`).
    pub fn new() -> (r: App)
        ensures
            is_initial_state(r),
            r.wf(),
    {
        App {
            current_tab: TabId::Instances,
            status_message: "Welcome to QuantumLauncher TUI! Press '?' for help, 'q' to quit.".to_owned(),
            should_quit: false,
            is_loading: false,
            show_help_popup: false,
            needs_forced_refresh: false,
            auth_channel_ready: false,
            instance_list: InstanceList {
                instances: Vec::new(),
                selected_instance: 0,
                client_processes: Vec::new(),
            },
            create: CreateTab {
                available_versions: Vec::new(),
                version_search_active: false,
                version_search_query: String::new(),
                filtered_versions: Vec::new(),
                selected_filtered_version: 0,
                filter_release: true,
                filter_snapshot: true,
                filter_beta: true,
                filter_alpha: true,
                new_instance_name: String::new(),
                is_editing_name: false,
                download_assets: true,
            },
            account_list: AccountList { accounts: Vec::new(), selected_account: 0, current_account: None },
            account_form: AccountForm {
                is_add_account_mode: false,
                new_account_type: AccountType::ElyBy,
                new_account_username: String::new(),
                new_account_password: String::new(),
                selected_account_type: 0,
                new_account_otp: None,
                needs_otp: false,
                show_password: false,
                login_error: None,
                add_account_field_focus: AddAccountFieldFocus::Username,
            },
            logs: LogViews {
                game_logs: Vec::new(),
                logs_offset: 0,
                logs_visible_lines: 20,
                logs_auto_follow: true,
                instance_logs: InstanceLogs::new(),
                instance_logs_offset: 0,
                instance_logs_visible_lines: 20,
                instance_logs_auto_follow: true,
            },
            instance_page: InstancePage {
                instance_settings_instance: None,
                instance_settings_tab: InstanceSettingsTab::Overview,
                instance_settings_selected: 0,
                instance_settings_page: InstanceSettingsPage::List,
                show_delete_confirm: false,
                is_renaming_instance: false,
                rename_input: String::new(),
            },
            settings: SettingsTab {
                about_selected: 0,
                about_scroll: 0,
                settings_focus: SettingsFocus::Left,
                license_selected: 0,
                tui_refresh_interval_ms: None,
            },
            popups: EditPopups {
                is_editing_args: false,
                args_edit_input: String::new(),
                args_edit_kind: ArgsEditKind::Java,
                is_editing_memory: false,
                memory_edit_input: String::new(),
                memory_edit_mb: 0,
            },
        }
    }

    pub fn should_quit(&self) -> (r: bool)
        ensures
            r == self.should_quit,
    {
        self.should_quit
    }

    pub fn quit(&mut self)
        ensures
            *final(self) == (App { should_quit: true, ..*old(self) }),
    {
        self.should_quit = true;
    }

    /// Moves to the next tab (the instance settings page leads back to
    /// Instances).
    pub fn next_tab(&mut self)
        ensures
            next_tab_effect(*old(self), *final(self)),
    {
        self.current_tab = match self.current_tab {
            TabId::Instances => TabId::Create,
            TabId::Create => TabId::Settings,
            TabId::Settings => TabId::Accounts,
            TabId::Accounts => TabId::Logs,
            TabId::Logs => TabId::Instances,
            TabId::InstanceSettings => TabId::Instances,
        };
    }

    /// Moves to the previous tab (the instance settings page leads back to
    /// Instances).
    pub fn previous_tab(&mut self)
        ensures
            previous_tab_effect(*old(self), *final(self)),
    {
        self.current_tab = match self.current_tab {
            TabId::Instances => TabId::Logs,
            TabId::Create => TabId::Instances,
            TabId::Settings => TabId::Create,
            TabId::Accounts => TabId::Settings,
            TabId::Logs => TabId::Accounts,
            TabId::InstanceSettings => TabId::Instances,
        };
    }

    pub fn set_tab(&mut self, tab: TabId)
        ensures
            set_tab_effect(*old(self), *final(self), tab),
    {
        self.current_tab = tab;
    }

    pub fn toggle_help_popup(&mut self)
        ensures
            toggle_help_popup_effect(*old(self), *final(self)),
    {
        self.show_help_popup = !self.show_help_popup;
    }

    /// Whether a forced refresh is due; clears the request.
    pub fn check_and_reset_forced_refresh(&mut self) -> (r: bool)
        ensures
            r == old(self).needs_forced_refresh,
            *final(self) == (App { needs_forced_refresh: false, ..*old(self) }),
    {
        let needs_refresh = self.needs_forced_refresh;
        self.needs_forced_refresh = false;
        needs_refresh
    }

    pub fn set_instance_name(&mut self, name: String)
        ensures
            *final(self) == (App {
                create: CreateTab { new_instance_name: name, ..old(self).create },
                ..*old(self)
            }),
    {
        self.create.new_instance_name = name;
    }

    /// Records that an event channel for background work is connected.
    pub fn set_auth_channel(&mut self)
        ensures
            *final(self) == (App { auth_channel_ready: true, ..*old(self) }),
    {
        self.auth_channel_ready = true;
    }

    /// Index of the combined "About & Licenses" entry in the left settings
    /// menu.
    pub fn licenses_menu_index() -> (r: usize)
        ensures
            r == 4,
    {
        menu_index()
    }

    /// The listed licenses (see `licenses::entries`).
    pub fn licenses() -> (r: &'static [(&'static str, &'static [&'static str])])
        ensures
            crate::licenses::licenses_listed(r@),
    {
        crate::licenses::entries()
    }

    /// The built-in notice for a license (see `licenses::fallback_content`).
    pub fn license_fallback_content(index: usize) -> (r: Option<&'static str>)
        ensures
            r is Some <==> index < license_count(),
            r matches Some(t) ==> t@ == crate::licenses::license_notice(index as int),
    {
        crate::licenses::fallback_content(index)
    }

    /// Moves the Settings selection forward: through About and the licenses
    /// when the middle pane of "About & Licenses" has the focus, otherwise
    /// through the five entries of the left menu (resetting the scroll).
    pub fn settings_next_item(&mut self)
        ensures
            if old(self).settings.settings_focus == SettingsFocus::Middle
                && old(self).settings.about_selected == 4 {
                *final(self) == (App {
                    settings: SettingsTab {
                        license_selected: cyclic_next(old(self).settings.license_selected, 6),
                        ..old(self).settings
                    },
                    ..*old(self)
                })
            } else {
                *final(self) == (App {
                    settings: SettingsTab {
                        about_selected: cyclic_next(old(self).settings.about_selected, 5),
                        about_scroll: 0,
                        ..old(self).settings
                    },
                    ..*old(self)
                })
            },
    {
        if self.settings.settings_focus == SettingsFocus::Middle && self.settings.about_selected
            == Self::licenses_menu_index() {
            let count = Self::licenses().len() + 1;
            self.settings.license_selected = cyclic_next_exec(
                self.settings.license_selected,
                count,
            );
        } else {
            let left_count = Self::licenses_menu_index() + 1;
            self.settings.about_selected = cyclic_next_exec(
                self.settings.about_selected,
                left_count,
            );
            self.settings.about_scroll = 0;
        }
    }

    /// Moves the Settings selection backward (see `settings_next_item`).
    pub fn settings_prev_item(&mut self)
        ensures
            if old(self).settings.settings_focus == SettingsFocus::Middle
                && old(self).settings.about_selected == 4 {
                *final(self) == (App {
                    settings: SettingsTab {
                        license_selected: cyclic_prev(old(self).settings.license_selected, 6),
                        ..old(self).settings
                    },
                    ..*old(self)
                })
            } else {
                *final(self) == (App {
                    settings: SettingsTab {
                        about_selected: cyclic_prev(old(self).settings.about_selected, 5),
                        about_scroll: 0,
                        ..old(self).settings
                    },
                    ..*old(self)
                })
            },
    {
        if self.settings.settings_focus == SettingsFocus::Middle && self.settings.about_selected
            == Self::licenses_menu_index() {
            let count = Self::licenses().len() + 1;
            if self.settings.license_selected > 0 {
                self.settings.license_selected -= 1;
            } else {
                self.settings.license_selected = count - 1;
            }
        } else {
            let left_last = Self::licenses_menu_index();
            if self.settings.about_selected > 0 {
                self.settings.about_selected -= 1;
            } else {
                self.settings.about_selected = left_last;
            }
            self.settings.about_scroll = 0;
        }
    }

    /// Moves the selection of the current tab's list forward, cyclically
    /// (instances, filtered versions or accounts; the Settings menus).
    pub fn next_item(&mut self)
        ensures
            next_item_effect(*old(self), *final(self)),
    {
        match self.current_tab {
            TabId::Instances => {
                if self.instance_list.instances.len() > 0 {
                    self.instance_list.selected_instance = cyclic_next_exec(
                        self.instance_list.selected_instance,
                        self.instance_list.instances.len(),
                    );
                }
            },
            TabId::Create => {
                if self.create.filtered_versions.len() > 0 {
                    self.create.selected_filtered_version = cyclic_next_exec(
                        self.create.selected_filtered_version,
                        self.create.filtered_versions.len(),
                    );
                }
            },
            TabId::Accounts => {
                if self.account_list.accounts.len() > 0 {
                    self.account_list.selected_account = cyclic_next_exec(
                        self.account_list.selected_account,
                        self.account_list.accounts.len(),
                    );
                }
            },
            TabId::Settings => {
                self.settings_next_item();
            },
            _ => {},
        }
    }

    /// Moves the selection of the current tab's list backward, cyclically.
    pub fn prev_item(&mut self)
        ensures
            prev_item_effect(*old(self), *final(self)),
    {
        match self.current_tab {
            TabId::Instances => {
                let n = self.instance_list.instances.len();
                if n > 0 && self.instance_list.selected_instance > 0 {
                    self.instance_list.selected_instance -= 1;
                } else if n > 0 {
                    self.instance_list.selected_instance = n - 1;
                }
            },
            TabId::Create => {
                let n = self.create.filtered_versions.len();
                if n > 0 && self.create.selected_filtered_version > 0 {
                    self.create.selected_filtered_version -= 1;
                } else if n > 0 {
                    self.create.selected_filtered_version = n - 1;
                }
            },
            TabId::Accounts => {
                let n = self.account_list.accounts.len();
                if n > 0 && self.account_list.selected_account > 0 {
                    self.account_list.selected_account -= 1;
                } else if n > 0 {
                    self.account_list.selected_account = n - 1;
                }
            },
            TabId::Settings => {
                self.settings_prev_item();
            },
            _ => {},
        }
    }

    /// Enter on a list: on Instances, opens the settings page of the
    /// selected instance; on Create, points to the keys that create an
    /// instance.
    pub fn select_item(&mut self)
        requires
            old(self).current_tab == TabId::Instances ==> old(self).instance_list.selected_instance
                < old(self).instance_list.instances@.len(),
        ensures
            match old(self).current_tab {
                TabId::Instances => {
                    &&& *final(self) == (App {
                        instance_page: InstancePage {
                            instance_settings_instance: Some(
                                old(self).instance_list.selected_instance,
                            ),
                            instance_settings_tab: InstanceSettingsTab::Overview,
                            instance_settings_selected: 0,
                            ..old(self).instance_page
                        },
                        current_tab: TabId::InstanceSettings,
                        status_message: final(self).status_message,
                        ..*old(self)
                    })
                    &&& final(self).status_message@ == "Opened settings for instance: "@
                        + old(self).instance_list.instances@[old(
                        self,
                    ).instance_list.selected_instance as int].name@
                },
                TabId::Create => {
                    &&& *final(self) == (App {
                        status_message: final(self).status_message,
                        ..*old(self)
                    })
                    &&& final(self).status_message@
                        == "Use Enter to create instance or Ctrl+N to edit name"@
                },
                _ => *final(self) == *old(self),
            },
    {
        match self.current_tab {
            TabId::Instances => {
                let sel = self.instance_list.selected_instance;
                self.instance_page.instance_settings_instance = Some(sel);
                self.instance_page.instance_settings_tab = InstanceSettingsTab::Overview;
                self.instance_page.instance_settings_selected = 0;
                self.current_tab = TabId::InstanceSettings;
                let msg = concat(
                    "Opened settings for instance: ",
                    self.instance_list.instances[sel].name.as_str(),
                );
                self.status_message = msg;
            },
            TabId::Create => {
                self.status_message = "Use Enter to create instance or Ctrl+N to edit name".to_owned();
            },
            _ => {},
        }
    }
}

/// What `App::next_tab` does: the state before and after.
pub open spec fn next_tab_effect(o: App, n: App) -> bool {
    n == (App { current_tab: next_tab_of(o.current_tab), ..o })
}

/// What `App::previous_tab` does: the state before and after.
pub open spec fn previous_tab_effect(o: App, n: App) -> bool {
    n == (App { current_tab: prev_tab_of(o.current_tab), ..o })
}

/// What `App::set_tab` does: the state before and after.
pub open spec fn set_tab_effect(o: App, n: App, tab: TabId) -> bool {
    n == (App { current_tab: tab, ..o })
}

/// What `App::toggle_help_popup` does: the state before and after.
pub open spec fn toggle_help_popup_effect(o: App, n: App) -> bool {
    n == (App { show_help_popup: !o.show_help_popup, ..o })
}

/// What `App::next_item` does: the state before and after.
pub open spec fn next_item_effect(o: App, n: App) -> bool {
    match o.current_tab {
            TabId::Instances => if o.instance_list.instances@.len() > 0 {
                n == (App {
                    instance_list: InstanceList {
                        selected_instance: cyclic_next(
                            o.instance_list.selected_instance,
                            o.instance_list.instances@.len() as usize,
                        ),
                        ..o.instance_list
                    },
                    ..o
                })
            } else {
                n == o
            },
            TabId::Create => if o.create.filtered_versions@.len() > 0 {
                n == (App {
                    create: CreateTab {
                        selected_filtered_version: cyclic_next(
                            o.create.selected_filtered_version,
                            o.create.filtered_versions@.len() as usize,
                        ),
                        ..o.create
                    },
                    ..o
                })
            } else {
                n == o
            },
            TabId::Accounts => if o.account_list.accounts@.len() > 0 {
                n == (App {
                    account_list: AccountList {
                        selected_account: cyclic_next(
                            o.account_list.selected_account,
                            o.account_list.accounts@.len() as usize,
                        ),
                        ..o.account_list
                    },
                    ..o
                })
            } else {
                n == o
            },
            TabId::Settings => if o.settings.settings_focus == SettingsFocus::Middle
                && o.settings.about_selected == 4 {
                n == (App {
                    settings: SettingsTab {
                        license_selected: cyclic_next(o.settings.license_selected, 6),
                        ..o.settings
                    },
                    ..o
                })
            } else {
                n == (App {
                    settings: SettingsTab {
                        about_selected: cyclic_next(o.settings.about_selected, 5),
                        about_scroll: 0,
                        ..o.settings
                    },
                    ..o
                })
            },
            _ => n == o,
        }
}

/// What `App::prev_item` does: the state before and after.
pub open spec fn prev_item_effect(o: App, n: App) -> bool {
    match o.current_tab {
            TabId::Instances => if o.instance_list.instances@.len() > 0 {
                n == (App {
                    instance_list: InstanceList {
                        selected_instance: cyclic_prev(
                            o.instance_list.selected_instance,
                            o.instance_list.instances@.len() as usize,
                        ),
                        ..o.instance_list
                    },
                    ..o
                })
            } else {
                n == o
            },
            TabId::Create => if o.create.filtered_versions@.len() > 0 {
                n == (App {
                    create: CreateTab {
                        selected_filtered_version: cyclic_prev(
                            o.create.selected_filtered_version,
                            o.create.filtered_versions@.len() as usize,
                        ),
                        ..o.create
                    },
                    ..o
                })
            } else {
                n == o
            },
            TabId::Accounts => if o.account_list.accounts@.len() > 0 {
                n == (App {
                    account_list: AccountList {
                        selected_account: cyclic_prev(
                            o.account_list.selected_account,
                            o.account_list.accounts@.len() as usize,
                        ),
                        ..o.account_list
                    },
                    ..o
                })
            } else {
                n == o
            },
            TabId::Settings => if o.settings.settings_focus == SettingsFocus::Middle
                && o.settings.about_selected == 4 {
                n == (App {
                    settings: SettingsTab {
                        license_selected: cyclic_prev(o.settings.license_selected, 6),
                        ..o.settings
                    },
                    ..o
                })
            } else {
                n == (App {
                    settings: SettingsTab {
                        about_selected: cyclic_prev(o.settings.about_selected, 5),
                        about_scroll: 0,
                        ..o.settings
                    },
                    ..o
                })
            },
            _ => n == o,
        }
}

} // verus!
