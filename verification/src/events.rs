//! Events from background work (logins, game launches, instance creation,
//! refreshes, game output) and what the terminal UI makes of them, and the
//! launcher log they are written to.
use vstd::prelude::*;
use crate::accounts::Account;
use crate::app_accounts::toggle_add_account_mode_effect;
use crate::app_create::{rebuild_instances, rebuilt_instances};
use crate::app_instance::{has_process, running, untrack};
use crate::app_state::{
    AccountForm, AccountList, AddAccountFieldFocus, App, Instance, InstanceList,
    InstanceSettingsTab, LogViews, TabId,
};
use crate::args::views;
use crate::logs::{capped_push, keep_last, push_capped, trim_newlines_end, INSTANCE_LOG_CAP};
use crate::text::{concat, concat3, decimal, push_decimal, push_str, string_from_chars, chars_of};

verus! {

/// The number of lines the launcher log keeps.
pub const GAME_LOG_CAP: usize = 1000;

/// An account that a login produced, as the launcher config stores it.
pub struct LoggedInAccount {
    /// The name shown for the account.
    pub nice_username: String,
    /// The account kind as it is written ("ElyBy", ...).
    pub account_type: String,
    pub uuid: String,
    /// The key of the account in the launcher config.
    pub config_key: String,
}

/// Events that background work sends to the terminal UI.
pub enum AuthEvent {
    LoginStarted,
    /// A login succeeded; `save_error` holds why storing the account
    /// failed, if it did.
    LoginSuccess { account: LoggedInAccount, save_error: Option<String> },
    LoginNeedsOtp,
    LoginError { error: String },
    LaunchStarted(String),
    /// The game of an instance started, with the process id if known.
    LaunchSuccess(String, Option<u32>),
    LaunchError(String, String),
    LaunchEnded(String),
    /// A line the game of an instance printed.
    InstanceLogLine { instance_name: String, line: String },
    InstanceCreateStarted(String),
    InstanceCreateProgress { instance_name: String, message: String },
    InstanceCreateSuccess { instance_name: String },
    InstanceCreateError { instance_name: String, error: String },
    RefreshStarted,
    RefreshCompleted,
    /// The instances found on disk: (name, version, loader).
    RefreshData { instances: Vec<(String, String, String)> },
}

/// Whether `t` reads as a clock time `HH:MM:SS`.
pub open spec fn is_clock_time(t: Seq<char>) -> bool {
    &&& t.len() == 8
    &&& t[2] == ':' && t[5] == ':'
    &&& forall|i: int| 0 <= i < 8 && i != 2 && i != 5 ==> '0' <= #[trigger] t[i] <= '9'
}

/// The local time of day (`chrono::Local::now().format("%H:%M:%S")`):
/// hours, minutes and seconds of two digits each. Which time it is, is not
/// stated.
#[verifier::external_body]
fn local_time_hms() -> (r: String)
    ensures
        is_clock_time(r@),
{
    format!("{}", chrono::Local::now().format("%H:%M:%S"))
}

/// The launcher log after `line` was added, as `add_log` leaves it.
pub open spec fn log_appended(o: LogViews, n: LogViews, line: Seq<char>) -> bool {
    &&& n == (LogViews { game_logs: n.game_logs, ..o })
    &&& views(n.game_logs@) == capped_push(views(o.game_logs@), line, GAME_LOG_CAP as nat)
}

/// A log line stamped with the time `t`: `[t] text`.
pub open spec fn stamped(t: Seq<char>, text: Seq<char>) -> Seq<char> {
    "["@ + t + "] "@ + text
}

/// The instances with the first one named `name` marked as running or not.
pub open spec fn with_running_mark(list: Seq<Instance>, name: Seq<char>, on: bool) -> Seq<
    Instance,
> {
    if exists|i: int| 0 <= i < list.len() && #[trigger] list[i].name@ == name {
        let i = choose|i: int|
            0 <= i < list.len() && list[i].name@ == name && forall|j: int|
                0 <= j < i ==> #[trigger] list[j].name@ != name;
        list.update(i, Instance { is_running: on, ..list[i] })
    } else {
        list
    }
}

/// The selection after the list was replaced: within the list, or 0 for an
/// empty list.
pub open spec fn selection_within(sel: usize, len: nat) -> usize {
    if len == 0 {
        0
    } else if sel >= len {
        (len - 1) as usize
    } else {
        sel
    }
}

/// The game-start message for an instance and process id.
pub open spec fn launched_message(name: Seq<char>, pid: Option<u32>) -> Seq<char> {
    match pid {
        Some(p) => "✅ Successfully launched "@ + name + "! Game is running with PID: "@ + decimal(
            p as nat,
        ),
        None => "✅ Successfully launched "@ + name + "! Game is running in background."@,
    }
}

/// The state with a new status line and a stamped log line.
pub open spec fn status_and_log(o: App, n: App, status: Seq<char>, t: Seq<char>, text: Seq<char>) -> bool {
    &&& n == (App { status_message: n.status_message, logs: n.logs, ..o })
    &&& n.status_message@ == status
    &&& log_appended(o.logs, n.logs, stamped(t, text))
}

/// What an event does to the state, `t` being the time of day it is handled
/// at.
pub open spec fn auth_event_effect(o: App, e: AuthEvent, t: Seq<char>, n: App) -> bool {
    match e {
        AuthEvent::LoginStarted => n == (App {
            status_message: n.status_message,
            is_loading: true,
            ..o
        }) && n.status_message@ == "🔐 Authenticating with ElyBy..."@,
        AuthEvent::LoginSuccess { account, save_error } => match save_error {
            Some(err) => {
                &&& n == (App {
                    is_loading: false,
                    status_message: n.status_message,
                    account_form: AccountForm { login_error: n.account_form.login_error, ..o.account_form },
                    ..o
                })
                &&& n.account_form.login_error matches Some(m) && m@ == "Failed to save account: "@
                    + err@
                &&& n.status_message@ == "❌ Authentication succeeded but failed to save: "@ + err@
            },
            None => {
                let m = App {
                    is_loading: false,
                    status_message: n.status_message,
                    account_list: AccountList {
                        accounts: n.account_list.accounts,
                        current_account: n.account_list.current_account,
                        ..o.account_list
                    },
                    ..o
                };
                &&& toggle_add_account_mode_effect(m, n)
                &&& n.account_list.accounts@.len() == o.account_list.accounts@.len() + 1
                &&& n.account_list.accounts@.drop_last() == o.account_list.accounts@
                &&& n.account_list.accounts@.last().username@ == account.config_key@
                &&& n.account_list.accounts@.last().account_type@ == account.account_type@
                &&& n.account_list.accounts@.last().uuid@ == account.uuid@
                &&& n.account_list.accounts@.last().is_logged_in
                &&& n.account_list.current_account matches Some(k) && k@ == account.config_key@
                &&& n.status_message@ == "✅ Successfully authenticated and saved as "@
                    + account.nice_username@ + " (set as default)"@
            },
        },
        AuthEvent::LoginNeedsOtp => {
            &&& n == (App {
                is_loading: false,
                status_message: n.status_message,
                account_form: AccountForm {
                    needs_otp: true,
                    new_account_otp: n.account_form.new_account_otp,
                    add_account_field_focus: AddAccountFieldFocus::Otp,
                    ..o.account_form
                },
                ..o
            })
            &&& n.account_form.new_account_otp matches Some(s) && s@.len() == 0
            &&& n.status_message@ == "📱 Two-factor authentication required. Enter your OTP code."@
        },
        AuthEvent::LoginError { error } => {
            &&& n == (App {
                is_loading: false,
                status_message: n.status_message,
                account_form: AccountForm { login_error: n.account_form.login_error, ..o.account_form },
                ..o
            })
            &&& n.account_form.login_error matches Some(m) && m@ == error@
            &&& n.status_message@ == "❌ Authentication failed: "@ + error@
        },
        AuthEvent::LaunchStarted(name) => status_and_log(
            App { is_loading: true, needs_forced_refresh: true, ..o },
            n,
            "LAUNCHING: "@ + name@ + "..."@,
            t,
            "Launch started for instance: "@ + name@,
        ),
        AuthEvent::LaunchSuccess(name, pid) => {
            let m = App {
                is_loading: false,
                needs_forced_refresh: true,
                instance_list: InstanceList {
                    instances: n.instance_list.instances,
                    client_processes: n.instance_list.client_processes,
                    ..o.instance_list
                },
                ..o
            };
            &&& status_and_log(m, n, launched_message(name@, pid), t, launched_message(name@, pid))
            &&& n.instance_list.instances@ == with_running_mark(
                o.instance_list.instances@,
                name@,
                true,
            )
            &&& views(n.instance_list.client_processes@) == (if has_process(
                o.instance_list.client_processes@,
                name@,
            ) {
                views(o.instance_list.client_processes@)
            } else {
                views(o.instance_list.client_processes@).push(name@)
            })
        },
        AuthEvent::LaunchError(name, error) => status_and_log(
            App { is_loading: false, needs_forced_refresh: true, ..o },
            n,
            "❌ Failed to launch "@ + name@ + ": "@ + error@,
            t,
            "❌ Failed to launch "@ + name@ + ": "@ + error@,
        ),
        AuthEvent::LaunchEnded(name) => {
            let m = App {
                instance_list: InstanceList {
                    instances: n.instance_list.instances,
                    client_processes: n.instance_list.client_processes,
                    ..o.instance_list
                },
                ..o
            };
            &&& status_and_log(m, n, "🛑 "@ + name@ + " has stopped"@, t, "🛑 "@ + name@
                + " has stopped"@)
            &&& n.instance_list.instances@ == with_running_mark(
                o.instance_list.instances@,
                name@,
                false,
            )
            &&& forall|k: Seq<char>|
                has_process(n.instance_list.client_processes@, k) <==> has_process(
                    o.instance_list.client_processes@,
                    k,
                ) && k != name@
        },
        AuthEvent::InstanceLogLine { instance_name, line } => {
            let follow = o.current_tab == TabId::InstanceSettings
                && o.instance_page.instance_settings_tab == InstanceSettingsTab::Logs
                && o.logs.instance_logs_auto_follow;
            let old_lines = if o.logs.instance_logs.view().contains_key(instance_name@) {
                o.logs.instance_logs.view()[instance_name@]
            } else {
                Seq::empty()
            };
            &&& n == (App {
                logs: LogViews {
                    instance_logs: n.logs.instance_logs,
                    instance_logs_offset: if follow {
                        0
                    } else {
                        o.logs.instance_logs_offset
                    },
                    ..o.logs
                },
                ..o
            })
            &&& n.logs.instance_logs.wf()
            &&& n.logs.instance_logs.view() == o.logs.instance_logs.view().insert(
                instance_name@,
                keep_last(old_lines.push(trim_newlines_end(line@)), INSTANCE_LOG_CAP as nat),
            )
        },
        AuthEvent::InstanceCreateStarted(name) => status_and_log(
            App { is_loading: true, ..o },
            n,
            "🔨 Creating instance '"@ + name@ + "'... This may take a while"@,
            t,
            "Started creating instance: "@ + name@,
        ),
        AuthEvent::InstanceCreateProgress { instance_name, message } => status_and_log(
            o,
            n,
            "🔨 Creating '"@ + instance_name@ + "': "@ + message@,
            t,
            "Instance '"@ + instance_name@ + "': "@ + message@,
        ),
        AuthEvent::InstanceCreateSuccess { instance_name } => status_and_log(
            App { is_loading: false, current_tab: TabId::Instances, ..o },
            n,
            "✅ Successfully created instance '"@ + instance_name@
                + "'. Press F5 to refresh instances list."@,
            t,
            "✅ Successfully created instance '"@ + instance_name@ + "'"@,
        ),
        AuthEvent::InstanceCreateError { instance_name, error } => status_and_log(
            App { is_loading: false, ..o },
            n,
            "❌ Failed to create instance '"@ + instance_name@ + "': "@ + error@,
            t,
            "❌ Failed to create instance '"@ + instance_name@ + "': "@ + error@,
        ),
        AuthEvent::RefreshStarted => status_and_log(
            App { is_loading: true, ..o },
            n,
            "🔄 Refreshing instances..."@,
            t,
            "Started refreshing instances"@,
        ),
        AuthEvent::RefreshCompleted => status_and_log(
            App { is_loading: false, ..o },
            n,
            "✅ Instances refreshed successfully"@,
            t,
            "Instances refresh completed"@,
        ),
        AuthEvent::RefreshData { instances } => {
            &&& n == (App {
                instance_list: InstanceList {
                    instances: n.instance_list.instances,
                    selected_instance: selection_within(
                        o.instance_list.selected_instance,
                        instances@.len(),
                    ),
                    ..o.instance_list
                },
                ..o
            })
            &&& rebuilt_instances(o.instance_list.instances@, instances@, n.instance_list.instances@)
        },
    }
}

/// Marks the first instance named `name` as running or not.
fn mark_running(list: &mut Vec<Instance>, name: &str, on: bool)
    ensures
        final(list)@ == with_running_mark(old(list)@, name@, on),
{
    let mut i: usize = 0;
    while i < list.len()
        invariant
            list@ == old(list)@,
            i <= list@.len(),
            forall|j: int| 0 <= j < i ==> #[trigger] list@[j].name@ != name@,
        decreases list.len() - i,
    {
        if crate::accounts::str_eq(list[i].name.as_str(), name) {
            let ghost s = list@;
            proof {
                let k = choose|k: int|
                    0 <= k < s.len() && s[k].name@ == name@ && forall|j: int|
                        0 <= j < k ==> #[trigger] s[j].name@ != name@;
                assert(s[i as int].name@ == name@);
                if k < i {
                    assert(s[k].name@ != name@);
                }
                if k > i {
                    assert(s[i as int].name@ != name@);
                }
            }
            let inst = list.remove(i);
            let updated = Instance { is_running: on, ..inst };
            list.insert(i, updated);
            assert(list@ =~= s.update(i as int, Instance { is_running: on, ..s[i as int] }));
            return ;
        }
        i += 1;
    }
}

impl App {
    /// Adds a line to the launcher log, which keeps the last
    /// `GAME_LOG_CAP` lines.
    pub fn add_log(&mut self, line: String)
        ensures
            *final(self) == (App { logs: final(self).logs, ..*old(self) }),
            log_appended(old(self).logs, final(self).logs, line@),
    {
        let ghost before = self.logs.game_logs@;
        let ghost l = line;
        push_capped(&mut self.logs.game_logs, line, GAME_LOG_CAP);
        proof {
            if before.len() + 1 > GAME_LOG_CAP {
                assert(views(before.push(l).drop_first()) =~= views(before).push(l@).drop_first());
            } else {
                assert(views(before.push(l)) =~= views(before).push(l@));
            }
        }
    }

    /// Adds `[t] text` to the launcher log.
    fn add_stamped_log(&mut self, t: &str, text: &str)
        ensures
            *final(self) == (App { logs: final(self).logs, ..*old(self) }),
            log_appended(old(self).logs, final(self).logs, stamped(t@, text@)),
    {
        let mut line = concat3("[", t, "] ");
        push_str(&mut line, text);
        self.add_log(line);
    }

    /// Replaces the status line and logs `[t] text`.
    fn report(&mut self, status: String, t: &str, text: &str)
        ensures
            status_and_log(*old(self), *final(self), status@, t@, text@),
    {
        self.status_message = status;
        self.add_stamped_log(t, text);
    }

    /// Handles an event from background work at time of day `t`.
    #[verifier::rlimit(60)]
    pub fn handle_auth_event_at(&mut self, event: AuthEvent, t: &str)
        requires
            old(self).wf(),
        ensures
            final(self).wf(),
            auth_event_effect(*old(self), event, t@, *final(self)),
    {
        match event {
            AuthEvent::LoginStarted => {
                self.status_message = "🔐 Authenticating with ElyBy...".to_owned();
                self.is_loading = true;
            },
            AuthEvent::LoginSuccess { account, save_error } => {
                self.is_loading = false;
                match save_error {
                    Some(err) => {
                        self.account_form.login_error = Some(
                            concat("Failed to save account: ", err.as_str()),
                        );
                        self.status_message = concat(
                            "❌ Authentication succeeded but failed to save: ",
                            err.as_str(),
                        );
                    },
                    None => {
                        let ghost before = self.account_list.accounts@;
                        self.account_list.accounts.push(
                            Account {
                                username: account.config_key.clone(),
                                account_type: account.account_type,
                                uuid: account.uuid,
                                is_logged_in: true,
                            },
                        );
                        assert(self.account_list.accounts@.drop_last() =~= before);
                        self.account_list.current_account = Some(account.config_key);
                        self.status_message = concat3(
                            "✅ Successfully authenticated and saved as ",
                            account.nice_username.as_str(),
                            " (set as default)",
                        );
                        self.toggle_add_account_mode();
                    },
                }
            },
            AuthEvent::LoginNeedsOtp => {
                self.is_loading = false;
                self.account_form.needs_otp = true;
                self.account_form.new_account_otp = Some(String::new());
                self.account_form.add_account_field_focus = AddAccountFieldFocus::Otp;
                self.status_message = "📱 Two-factor authentication required. Enter your OTP code.".to_owned();
            },
            AuthEvent::LoginError { error } => {
                self.is_loading = false;
                self.status_message = concat("❌ Authentication failed: ", error.as_str());
                self.account_form.login_error = Some(error);
            },
            _ => self.handle_launch_event(event, t),
        }
    }

    #[verifier::rlimit(60)]
    fn handle_launch_event(&mut self, event: AuthEvent, t: &str)
        requires
            old(self).wf(),
            !(event is LoginStarted || event is LoginSuccess || event is LoginNeedsOtp
                || event is LoginError),
        ensures
            final(self).wf(),
            auth_event_effect(*old(self), event, t@, *final(self)),
    {
        match event {
            AuthEvent::LaunchStarted(name) => {
                self.is_loading = true;
                self.needs_forced_refresh = true;
                self.report(
                    concat3("LAUNCHING: ", name.as_str(), "..."),
                    t,
                    concat("Launch started for instance: ", name.as_str()).as_str(),
                );
            },
            AuthEvent::LaunchSuccess(name, pid) => {
                self.is_loading = false;
                self.needs_forced_refresh = true;
                let msg = match pid {
                    Some(p) => {
                        let mut m = concat3(
                            "✅ Successfully launched ",
                            name.as_str(),
                            "! Game is running with PID: ",
                        );
                        push_decimal(&mut m, p as u64);
                        m
                    },
                    None => concat3(
                        "✅ Successfully launched ",
                        name.as_str(),
                        "! Game is running in background.",
                    ),
                };
                let text = string_from_chars(chars_of(msg.as_str()).as_slice());
                self.report(msg, t, text.as_str());
                let ghost procs = self.instance_list.client_processes@;
                if !running(&self.instance_list.client_processes, name.as_str()) {
                    let key = string_from_chars(chars_of(name.as_str()).as_slice());
                    self.instance_list.client_processes.push(key);
                    assert(views(self.instance_list.client_processes@) =~= views(procs).push(
                        name@,
                    ));
                }
                mark_running(&mut self.instance_list.instances, name.as_str(), true);
            },
            AuthEvent::LaunchError(name, error) => {
                self.is_loading = false;
                self.needs_forced_refresh = true;
                let mut msg = concat3("❌ Failed to launch ", name.as_str(), ": ");
                push_str(&mut msg, error.as_str());
                let text = string_from_chars(chars_of(msg.as_str()).as_slice());
                self.report(msg, t, text.as_str());
            },
            AuthEvent::LaunchEnded(name) => {
                self.instance_list.client_processes = untrack(
                    &self.instance_list.client_processes,
                    name.as_str(),
                );
                mark_running(&mut self.instance_list.instances, name.as_str(), false);
                let msg = concat3("🛑 ", name.as_str(), " has stopped");
                let text = string_from_chars(chars_of(msg.as_str()).as_slice());
                self.report(msg, t, text.as_str());
            },
            _ => self.handle_instance_event(event, t),
        }
    }

    #[verifier::rlimit(60)]
    fn handle_instance_event(&mut self, event: AuthEvent, t: &str)
        requires
            old(self).wf(),
            !(event is LoginStarted || event is LoginSuccess || event is LoginNeedsOtp
                || event is LoginError || event is LaunchStarted || event is LaunchSuccess
                || event is LaunchError || event is LaunchEnded),
        ensures
            final(self).wf(),
            auth_event_effect(*old(self), event, t@, *final(self)),
    {
        match event {
            AuthEvent::InstanceLogLine { instance_name, line } => {
                self.logs.instance_logs.push_line(instance_name.as_str(), line.as_str());
                if self.current_tab == TabId::InstanceSettings
                    && self.instance_page.instance_settings_tab == InstanceSettingsTab::Logs
                    && self.logs.instance_logs_auto_follow {
                    self.logs.instance_logs_offset = 0;
                }
            },
            AuthEvent::InstanceCreateStarted(name) => {
                self.is_loading = true;
                self.report(
                    concat3("🔨 Creating instance '", name.as_str(), "'... This may take a while"),
                    t,
                    concat("Started creating instance: ", name.as_str()).as_str(),
                );
            },
            AuthEvent::InstanceCreateProgress { instance_name, message } => {
                let mut status = concat3("🔨 Creating '", instance_name.as_str(), "': ");
                push_str(&mut status, message.as_str());
                let mut text = concat3("Instance '", instance_name.as_str(), "': ");
                push_str(&mut text, message.as_str());
                self.report(status, t, text.as_str());
            },
            AuthEvent::InstanceCreateSuccess { instance_name } => {
                self.is_loading = false;
                self.current_tab = TabId::Instances;
                self.report(
                    concat3(
                        "✅ Successfully created instance '",
                        instance_name.as_str(),
                        "'. Press F5 to refresh instances list.",
                    ),
                    t,
                    concat3("✅ Successfully created instance '", instance_name.as_str(), "'").as_str(),
                );
            },
            AuthEvent::InstanceCreateError { instance_name, error } => {
                self.is_loading = false;
                let mut msg = concat3("❌ Failed to create instance '", instance_name.as_str(), "': ");
                push_str(&mut msg, error.as_str());
                let text = string_from_chars(chars_of(msg.as_str()).as_slice());
                self.report(msg, t, text.as_str());
            },
            AuthEvent::RefreshStarted => {
                self.is_loading = true;
                self.report("🔄 Refreshing instances...".to_owned(), t, "Started refreshing instances");
            },
            AuthEvent::RefreshCompleted => {
                self.is_loading = false;
                self.report(
                    "✅ Instances refreshed successfully".to_owned(),
                    t,
                    "Instances refresh completed",
                );
            },
            AuthEvent::RefreshData { instances } => {
                let rebuilt = rebuild_instances(&self.instance_list.instances, instances);
                self.instance_list.instances = rebuilt;
                let n = self.instance_list.instances.len();
                if self.instance_list.selected_instance >= n && n > 0 {
                    self.instance_list.selected_instance = n - 1;
                } else if n == 0 {
                    self.instance_list.selected_instance = 0;
                }
            },
            _ => {},
        }
    }

    /// Handles an event from background work, stamping log lines with the
    /// local time of day.
    pub fn handle_auth_event(&mut self, event: AuthEvent)
        requires
            old(self).wf(),
        ensures
            final(self).wf(),
            exists|t: Seq<char>| is_clock_time(t) && auth_event_effect(*old(self), event, t, *final(self)),
    {
        let t = local_time_hms();
        self.handle_auth_event_at(event, t.as_str());
    }

    /// Follows the launcher's log store while the view sits at its end:
    /// takes `latest` (its newest lines) when they differ from what is
    /// shown; a view scrolled into the history is left as it is.
    pub fn sync_game_logs(&mut self, latest: Vec<String>)
        ensures
            ({
                let o = *old(self);
                let n = *final(self);
                if o.logs.logs_offset == 0 && o.logs.logs_auto_follow && views(latest@) != views(
                    o.logs.game_logs@,
                ) {
                    n == (App {
                        logs: LogViews { game_logs: latest, logs_offset: 0, ..o.logs },
                        ..o
                    })
                } else {
                    n == o
                }
            }),
    {
        if self.logs.logs_offset == 0 && self.logs.logs_auto_follow {
            if !same_lines(&latest, &self.logs.game_logs) {
                self.logs.game_logs = latest;
                self.logs.logs_offset = 0;
            }
        }
    }
}

/// Whether two lists of lines hold the same lines.
pub fn same_lines(a: &Vec<String>, b: &Vec<String>) -> (r: bool)
    ensures
        r == (views(a@) == views(b@)),
{
    if a.len() != b.len() {
        assert(views(a@).len() != views(b@).len());
        return false;
    }
    let mut i: usize = 0;
    while i < a.len()
        invariant
            a@.len() == b@.len(),
            i <= a@.len(),
            forall|k: int| 0 <= k < i ==> a@[k]@ == b@[k]@,
        decreases a.len() - i,
    {
        if !crate::accounts::str_eq(a[i].as_str(), b[i].as_str()) {
            assert(views(a@)[i as int] != views(b@)[i as int]);
            return false;
        }
        i += 1;
    }
    assert(views(a@) =~= views(b@));
    true
}

} // verus!
