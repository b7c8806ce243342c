//! The Accounts tab: the add-account form, logging out and choosing the
//! default account.
//!
//! Steps that touch the keyring, the launcher config or the network are
//! split in two: a first call decides what is to be done and hands back a
//! request, and a second call takes the outcome of that work.
use vstd::prelude::*;
use crate::accounts::{
    account_type_label, all_account_types, auth_type_of, keyring_name, auth_type_from_name,
    keyring_username, str_eq, Account, AccountType, AuthAccountType,
};
use crate::app_state::{AccountForm, AccountList, AddAccountFieldFocus, App};
use crate::text::{concat, concat3, push_decimal, push_str, string_pop, string_push, decimal};

verus! {

/// An offline account to be saved to the launcher config.
pub struct OfflineAccountRequest {
    pub account: Account,
}

/// An ElyBy login to be performed in the background.
pub struct LoginRequest {
    pub username: String,
    /// The password, followed by `:` and the one-time code when one was
    /// entered.
    pub password: String,
}

/// What `add_new_account` asks to be done next.
pub enum AddAccountRequest {
    /// Nothing: the form shows why (or the event channel is missing).
    Nothing,
    SaveOffline(OfflineAccountRequest),
    Login(LoginRequest),
}

/// An account to be logged out of the keyring and removed from the config.
pub struct LogoutRequest {
    pub username: String,
    pub keyring_username: String,
    pub account_type: AuthAccountType,
}

/// The label of the add-account field that has the focus.
pub open spec fn field_label(f: AddAccountFieldFocus) -> Seq<char> {
    match f {
        AddAccountFieldFocus::Username => "username/email"@,
        AddAccountFieldFocus::Password => "password"@,
        AddAccountFieldFocus::Otp => "OTP code"@,
    }
}

/// The field that Tab moves the focus to.
pub open spec fn next_field(f: AddAccountFieldFocus, needs_otp: bool) -> AddAccountFieldFocus {
    match f {
        AddAccountFieldFocus::Username => AddAccountFieldFocus::Password,
        AddAccountFieldFocus::Password => if needs_otp {
            AddAccountFieldFocus::Otp
        } else {
            AddAccountFieldFocus::Username
        },
        AddAccountFieldFocus::Otp => AddAccountFieldFocus::Username,
    }
}

/// Whether the form's account kind has separate username, password and
/// one-time-code fields.
pub open spec fn has_login_fields(t: AccountType) -> bool {
    t == AccountType::ElyBy || t == AccountType::LittleSkin
}

/// The placeholder UUID of offline accounts.
pub open spec fn offline_uuid() -> Seq<char> {
    "00000000-0000-0000-0000-000000000000"@
}

/// The form as it is reset when the add-account mode is left.
pub open spec fn is_reset_form(f: AccountForm) -> bool {
    &&& !f.is_add_account_mode
    &&& f.new_account_username@.len() == 0
    &&& f.new_account_password@.len() == 0
    &&& f.selected_account_type == 0
    &&& f.new_account_type == AccountType::ElyBy
    &&& f.new_account_otp is None
    &&& !f.needs_otp
    &&& f.login_error is None
    &&& !f.show_password
    &&& f.add_account_field_focus == AddAccountFieldFocus::Username
}

/// The password sent to the login service: the password, then `:` and the
/// one-time code when one was entered.
pub open spec fn login_password(password: Seq<char>, otp: Option<String>) -> Seq<char> {
    match otp {
        Some(o) if o@.len() > 0 => password + ":"@ + o@,
        _ => password,
    }
}

fn label_of_field(f: AddAccountFieldFocus) -> (r: &'static str)
    ensures
        r@ == field_label(f),
{
    match f {
        AddAccountFieldFocus::Username => "username/email",
        AddAccountFieldFocus::Password => "password",
        AddAccountFieldFocus::Otp => "OTP code",
    }
}

impl App {
    /// Enters or leaves the add-account mode; leaving it resets the form.
    pub fn toggle_add_account_mode(&mut self)
        ensures
            toggle_add_account_mode_effect(*old(self), *final(self)),
    {
        self.account_form.is_add_account_mode = !self.account_form.is_add_account_mode;
        if !self.account_form.is_add_account_mode {
            self.account_form.new_account_username = String::new();
            self.account_form.new_account_password = String::new();
            self.account_form.selected_account_type = 0;
            self.account_form.new_account_type = AccountType::ElyBy;
            self.account_form.new_account_otp = None;
            self.account_form.needs_otp = false;
            self.account_form.login_error = None;
            self.account_form.show_password = false;
            self.account_form.add_account_field_focus = AddAccountFieldFocus::Username;
        }
    }

    /// Selects the next account kind in the form, cyclically.
    pub fn next_account_type(&mut self)
        ensures
            next_account_type_effect(*old(self), *final(self)),
    {
        let account_types = AccountType::all();
        let idx = crate::app_nav::cyclic_next_exec(
            self.account_form.selected_account_type,
            account_types.len(),
        );
        self.account_form.selected_account_type = idx;
        self.account_form.new_account_type = account_types[idx];
    }

    /// Selects the previous account kind in the form, cyclically.
    pub fn prev_account_type(&mut self)
        ensures
            prev_account_type_effect(*old(self), *final(self)),
    {
        let account_types = AccountType::all();
        if self.account_form.selected_account_type > 0 {
            self.account_form.selected_account_type -= 1;
        } else {
            self.account_form.selected_account_type = account_types.len() - 1;
        }
        if self.account_form.selected_account_type < account_types.len() {
            self.account_form.new_account_type = account_types[self.account_form.selected_account_type];
        }
    }

    /// Tab in the form: moves the focus to the next field (ElyBy and
    /// LittleSkin only) and says which field is being edited.
    pub fn next_add_account_field(&mut self)
        ensures
            next_add_account_field_effect(*old(self), *final(self)),
    {
        let t = self.account_form.new_account_type;
        if t != AccountType::ElyBy && t != AccountType::LittleSkin {
            return ;
        }
        self.account_form.add_account_field_focus = match self.account_form.add_account_field_focus {
            AddAccountFieldFocus::Username => AddAccountFieldFocus::Password,
            AddAccountFieldFocus::Password => {
                if self.account_form.needs_otp {
                    AddAccountFieldFocus::Otp
                } else {
                    AddAccountFieldFocus::Username
                }
            },
            AddAccountFieldFocus::Otp => AddAccountFieldFocus::Username,
        };
        let label = label_of_field(self.account_form.add_account_field_focus);
        self.status_message = concat("Now editing: ", label);
    }

    /// Types a character into the focused field (into the username for
    /// account kinds without login fields; the one-time-code field only
    /// once a code has been asked for).
    pub fn add_char_to_add_account_field(&mut self, c: char)
        ensures
            add_char_to_add_account_field_effect(*old(self), *final(self), c),
    {
        let t = self.account_form.new_account_type;
        if (t != AccountType::ElyBy && t != AccountType::LittleSkin)
            || self.account_form.add_account_field_focus == AddAccountFieldFocus::Username {
            string_push(&mut self.account_form.new_account_username, c);
            return ;
        }
        match self.account_form.add_account_field_focus {
            AddAccountFieldFocus::Password => string_push(&mut self.account_form.new_account_password, c),
            _ => {
                if let Some(mut otp) = self.account_form.new_account_otp.take() {
                    string_push(&mut otp, c);
                    self.account_form.new_account_otp = Some(otp);
                }
            },
        }
    }

    /// Backspace in the form: removes the last character of the focused
    /// field (see `add_char_to_add_account_field`).
    pub fn remove_char_from_add_account_field(&mut self)
        ensures
            remove_char_from_add_account_field_effect(*old(self), *final(self)),
    {
        let t = self.account_form.new_account_type;
        if (t != AccountType::ElyBy && t != AccountType::LittleSkin)
            || self.account_form.add_account_field_focus == AddAccountFieldFocus::Username {
            string_pop(&mut self.account_form.new_account_username);
            return ;
        }
        match self.account_form.add_account_field_focus {
            AddAccountFieldFocus::Password => {
                string_pop(&mut self.account_form.new_account_password);
            },
            _ => {
                if let Some(mut otp) = self.account_form.new_account_otp.take() {
                    string_pop(&mut otp);
                    self.account_form.new_account_otp = Some(otp);
                }
            },
        }
    }

    pub fn toggle_password_visibility(&mut self)
        ensures
            toggle_password_visibility_effect(*old(self), *final(self)),
    {
        self.account_form.show_password = !self.account_form.show_password;
    }

    /// The selected account, if the selection is within the list.
    pub fn get_selected_account(&self) -> (r: Option<&Account>)
        ensures
            self.account_list.selected_account < self.account_list.accounts@.len() ==> r == Some(
                &self.account_list.accounts@[self.account_list.selected_account as int],
            ),
            self.account_list.selected_account >= self.account_list.accounts@.len() ==> r is None,
    {
        if self.account_list.selected_account < self.account_list.accounts.len() {
            Some(&self.account_list.accounts[self.account_list.selected_account])
        } else {
            None
        }
    }

    /// Enter in the form. Asks for an offline account to be saved, or for
    /// an ElyBy login; Microsoft and LittleSkin accounts are not available,
    /// and a missing username or ElyBy password is reported.
    pub fn add_new_account(&mut self) -> (r: AddAccountRequest)
        ensures
            add_new_account_effect(*old(self), *final(self), r),
    {
        if self.account_form.new_account_username.as_str().is_empty() {
            self.status_message = "Please enter a username".to_owned();
            return AddAccountRequest::Nothing;
        }
        match self.account_form.new_account_type {
            AccountType::Microsoft => {
                self.status_message = "Microsoft accounts are not implemented yet - coming soon!".to_owned();
                self.account_form.login_error = Some(
                    "Microsoft authentication not yet available".to_owned(),
                );
                AddAccountRequest::Nothing
            },
            AccountType::LittleSkin => {
                self.status_message = "LittleSkin accounts are not implemented yet - coming soon!".to_owned();
                self.account_form.login_error = Some(
                    "LittleSkin authentication not yet available".to_owned(),
                );
                AddAccountRequest::Nothing
            },
            AccountType::Offline => {
                let account = Account {
                    username: self.account_form.new_account_username.clone(),
                    account_type: AccountType::Offline.label().to_owned(),
                    uuid: "00000000-0000-0000-0000-000000000000".to_owned(),
                    is_logged_in: true,
                };
                AddAccountRequest::SaveOffline(OfflineAccountRequest { account })
            },
            AccountType::ElyBy => {
                if self.account_form.new_account_password.as_str().is_empty() {
                    self.account_form.login_error = Some(
                        "Password is required for ElyBy accounts".to_owned(),
                    );
                    return AddAccountRequest::Nothing;
                }
                match self.start_elyby_authentication() {
                    Some(req) => AddAccountRequest::Login(req),
                    None => AddAccountRequest::Nothing,
                }
            },
        }
    }

    /// Completes adding an offline account once saving it to the config
    /// was attempted (`save_error` holds the error, if any): the account is
    /// listed and the add-account mode is left.
    pub fn finish_add_offline_account(&mut self, account: Account, save_error: Option<String>)
        ensures
            *final(self) == (App {
                status_message: final(self).status_message,
                account_list: AccountList {
                    accounts: final(self).account_list.accounts,
                    ..old(self).account_list
                },
                account_form: final(self).account_form,
                ..*old(self)
            }),
            final(self).account_list.accounts@ == old(self).account_list.accounts@.push(account),
            final(self).status_message@ == match save_error {
                Some(e) => "Warning: Failed to save offline account to config: "@ + e@,
                None => "Added offline account: "@ + old(self).account_form.new_account_username@
                    + " (ready for launching)"@,
            },
            old(self).account_form.is_add_account_mode ==> is_reset_form(final(self).account_form),
            !old(self).account_form.is_add_account_mode ==> final(self).account_form == (
            AccountForm { is_add_account_mode: true, ..old(self).account_form }),
    {
        match save_error {
            Some(e) => {
                self.status_message = concat(
                    "Warning: Failed to save offline account to config: ",
                    e.as_str(),
                );
            },
            None => {
                self.status_message = concat3(
                    "Added offline account: ",
                    self.account_form.new_account_username.as_str(),
                    " (ready for launching)",
                );
            },
        }
        self.account_list.accounts.push(account);
        self.toggle_add_account_mode();
    }

    /// Starts an ElyBy login when the event channel is connected: clears
    /// the previous error and asks for a login with the form's username and
    /// password (and one-time code).
    pub fn start_elyby_authentication(&mut self) -> (r: Option<LoginRequest>)
        ensures
            elyby_login_started(*old(self), *final(self), match r {
                Some(req) => AddAccountRequest::Login(req),
                None => AddAccountRequest::Nothing,
            }),
    {
        if !self.auth_channel_ready {
            return None;
        }
        self.account_form.login_error = None;
        let mut password = self.account_form.new_account_password.clone();
        if let Some(otp) = &self.account_form.new_account_otp {
            if !otp.as_str().is_empty() {
                let ghost pw = password@;
                string_push(&mut password, ':');
                push_str(&mut password, otp.as_str());
                proof {
                    reveal_strlit(":");
                    assert(password@ =~= pw + ":"@ + otp@);
                }
            }
        }
        let username = self.account_form.new_account_username.clone();
        Some(LoginRequest { username, password })
    }

    /// Logout key on an account: refuses when nothing is selected or the
    /// account is an offline one, and otherwise asks for the account to be
    /// logged out of the keyring and removed from the config.
    pub fn logout_account(&mut self) -> (r: Option<LogoutRequest>)
        ensures
            logout_account_effect(*old(self), *final(self), r),
    {
        let sel = self.account_list.selected_account;
        if sel >= self.account_list.accounts.len() {
            self.status_message = "No account selected to logout".to_owned();
            return None;
        }
        let account = &self.account_list.accounts[sel];
        if str_eq(account.account_type.as_str(), "Offline") {
            self.status_message = "Cannot logout offline accounts - they are always ready to use".to_owned();
            return None;
        }
        let username = account.username.clone();
        let account_type = auth_type_from_name(account.account_type.as_str());
        let keyring = keyring_username(username.as_str(), account_type);
        Some(LogoutRequest { username, keyring_username: keyring, account_type })
    }

    /// Completes a logout once the keyring entry and the config entry were
    /// removed (the errors, if any, are given): the account leaves the list,
    /// stops being the default, and the selection stays within the list.
    pub fn finish_logout(
        &mut self,
        req: &LogoutRequest,
        keyring_error: Option<String>,
        config_error: Option<String>,
    )
        requires
            old(self).account_list.selected_account < old(self).account_list.accounts@.len(),
        ensures
            ({
                let o = old(self).account_list;
                let remaining = o.accounts@.remove(o.selected_account as int);
                &&& *final(self) == (App {
                    status_message: final(self).status_message,
                    account_list: final(self).account_list,
                    ..*old(self)
                })
                &&& final(self).account_list.accounts@ == remaining
                &&& final(self).account_list.current_account == (match o.current_account {
                    Some(c) if c@ == req.username@ => None,
                    _ => o.current_account,
                })
                &&& final(self).account_list.selected_account == (if remaining.len() == 0 {
                    0
                } else if o.selected_account >= remaining.len() {
                    (remaining.len() - 1) as usize
                } else {
                    o.selected_account
                })
                &&& final(self).status_message@ == match config_error {
                    Some(e) => "Warning: Failed to remove account from config: "@ + e@,
                    None => match keyring_error {
                        Some(e) => "Failed to logout keyring for "@ + req.keyring_username@ + ": "@
                            + e@,
                        None => "Successfully logged out: "@ + req.username@,
                    },
                }
            }),
    {
        match keyring_error {
            Some(e) => {
                let mut m = concat3(
                    "Failed to logout keyring for ",
                    req.keyring_username.as_str(),
                    ": ",
                );
                push_str(&mut m, e.as_str());
                self.status_message = m;
            },
            None => {
                self.status_message = concat("Successfully logged out: ", req.username.as_str());
            },
        }
        if let Some(e) = config_error {
            self.status_message = concat(
                "Warning: Failed to remove account from config: ",
                e.as_str(),
            );
        }
        let sel = self.account_list.selected_account;
        self.account_list.accounts.remove(sel);
        let clear = match &self.account_list.current_account {
            Some(c) => str_eq(c.as_str(), req.username.as_str()),
            None => false,
        };
        if clear {
            self.account_list.current_account = None;
        }
        let n = self.account_list.accounts.len();
        if self.account_list.selected_account >= n && n > 0 {
            self.account_list.selected_account = n - 1;
        }
        if n == 0 {
            self.account_list.selected_account = 0;
        }
    }

    /// Makes the selected account the default one and asks for that choice
    /// to be saved (the key is returned); with no accounts, says so.
    pub fn set_default_account(&mut self) -> (r: Option<String>)
        requires
            old(self).account_list.accounts@.len() > 0 ==> old(self).account_list.selected_account
                < old(self).account_list.accounts@.len(),
        ensures
            set_default_account_effect(*old(self), *final(self), r),
    {
        if self.account_list.accounts.len() == 0 {
            self.status_message = "No accounts available to set as default.".to_owned();
            return None;
        }
        let key = self.account_list.accounts[self.account_list.selected_account].username.clone();
        self.account_list.current_account = Some(key.clone());
        Some(key)
    }

    /// Reports whether saving the default account succeeded.
    pub fn finish_set_default_account(&mut self, key: &str, save_error: Option<String>)
        ensures
            *final(self) == (App { status_message: final(self).status_message, ..*old(self) }),
            final(self).status_message@ == match save_error {
                Some(e) => "❌ Failed to save default account: "@ + e@,
                None => "✅ Set "@ + key@ + " as default account"@,
            },
    {
        match save_error {
            Some(e) => {
                self.status_message = concat("❌ Failed to save default account: ", e.as_str());
            },
            None => {
                self.status_message = concat3("✅ Set ", key, " as default account");
            },
        }
    }
}

/// `after` is `before` with an ElyBy login requested through `r` (the
/// previous login error cleared), or unchanged without a request when no
/// event channel is connected.
pub open spec fn elyby_login_started(before: App, after: App, r: AddAccountRequest) -> bool {
    if before.auth_channel_ready {
        &&& after == (App {
            account_form: AccountForm { login_error: None, ..before.account_form },
            ..before
        })
        &&& r matches AddAccountRequest::Login(req) && req.username@
            == before.account_form.new_account_username@ && req.password@ == login_password(
            before.account_form.new_account_password@,
            before.account_form.new_account_otp,
        )
    } else {
        after == before && r is Nothing
    }
}

/// What `App::toggle_add_account_mode` does: the state before and after.
pub open spec fn toggle_add_account_mode_effect(o: App, n: App) -> bool {
    &&& n == (App { account_form: n.account_form, ..o })
    &&& o.account_form.is_add_account_mode ==> is_reset_form(n.account_form)
    &&& !o.account_form.is_add_account_mode ==> n.account_form == (
        AccountForm { is_add_account_mode: true, ..o.account_form })
}

/// What `App::next_account_type` does: the state before and after.
pub open spec fn next_account_type_effect(o: App, n: App) -> bool {
    n == (App {
            account_form: AccountForm {
                selected_account_type: ((o.account_form.selected_account_type + 1)
                    % 4) as usize,
                new_account_type: all_account_types()[(o.account_form.selected_account_type + 1) % 4],
                ..o.account_form
            },
            ..o
        })
}

/// What `App::prev_account_type` does: the state before and after.
pub open spec fn prev_account_type_effect(o: App, n: App) -> bool {
    ({
            let i = o.account_form.selected_account_type;
            let j: usize = if i > 0 {
                (i - 1) as usize
            } else {
                3
            };
            n == (App {
                account_form: AccountForm {
                    selected_account_type: j,
                    new_account_type: if j < 4 {
                        all_account_types()[j as int]
                    } else {
                        o.account_form.new_account_type
                    },
                    ..o.account_form
                },
                ..o
            })
        })
}

/// What `App::next_add_account_field` does: the state before and after.
pub open spec fn next_add_account_field_effect(o: App, n: App) -> bool {
    if has_login_fields(o.account_form.new_account_type) {
            let f = next_field(
                o.account_form.add_account_field_focus,
                o.account_form.needs_otp,
            );
            &&& n == (App {
                account_form: AccountForm {
                    add_account_field_focus: f,
                    ..o.account_form
                },
                status_message: n.status_message,
                ..o
            })
            &&& n.status_message@ == "Now editing: "@ + field_label(f)
        } else {
            n == o
        }
}

/// What `App::add_char_to_add_account_field` does: the state before and after.
pub open spec fn add_char_to_add_account_field_effect(o: App, n: App, c: char) -> bool {
    &&& n == (App { account_form: n.account_form, ..o })
    &&& ({
            let o = o.account_form;
            let n = n.account_form;
            if !has_login_fields(o.new_account_type)
                || o.add_account_field_focus == AddAccountFieldFocus::Username {
                &&& n == (AccountForm { new_account_username: n.new_account_username, ..o })
                &&& n.new_account_username@ == o.new_account_username@.push(c)
            } else if o.add_account_field_focus == AddAccountFieldFocus::Password {
                &&& n == (AccountForm { new_account_password: n.new_account_password, ..o })
                &&& n.new_account_password@ == o.new_account_password@.push(c)
            } else {
                &&& n == (AccountForm { new_account_otp: n.new_account_otp, ..o })
                &&& (o.new_account_otp is None ==> n.new_account_otp is None)
                &&& (o.new_account_otp is Some ==> n.new_account_otp is Some
                    && n.new_account_otp.unwrap()@ == o.new_account_otp.unwrap()@.push(c))
            }
        })
}

/// What `App::remove_char_from_add_account_field` does: the state before and after.
pub open spec fn remove_char_from_add_account_field_effect(o: App, n: App) -> bool {
    &&& n == (App { account_form: n.account_form, ..o })
    &&& ({
            let o = o.account_form;
            let n = n.account_form;
            if !has_login_fields(o.new_account_type)
                || o.add_account_field_focus == AddAccountFieldFocus::Username {
                &&& n == (AccountForm { new_account_username: n.new_account_username, ..o })
                &&& n.new_account_username@ == (if o.new_account_username@.len() > 0 {
                    o.new_account_username@.drop_last()
                } else {
                    o.new_account_username@
                })
            } else if o.add_account_field_focus == AddAccountFieldFocus::Password {
                &&& n == (AccountForm { new_account_password: n.new_account_password, ..o })
                &&& n.new_account_password@ == (if o.new_account_password@.len() > 0 {
                    o.new_account_password@.drop_last()
                } else {
                    o.new_account_password@
                })
            } else {
                &&& n == (AccountForm { new_account_otp: n.new_account_otp, ..o })
                &&& (o.new_account_otp is None ==> n.new_account_otp is None)
                &&& (o.new_account_otp is Some ==> n.new_account_otp is Some
                    && n.new_account_otp.unwrap()@ == (if o.new_account_otp.unwrap()@.len()
                    > 0 {
                    o.new_account_otp.unwrap()@.drop_last()
                } else {
                    o.new_account_otp.unwrap()@
                }))
            }
        })
}

/// What `App::toggle_password_visibility` does: the state before and after.
pub open spec fn toggle_password_visibility_effect(o: App, n: App) -> bool {
    n == (App {
            account_form: AccountForm {
                show_password: !o.account_form.show_password,
                ..o.account_form
            },
            ..o
        })
}

/// What `App::add_new_account` does: the state before and after and its result.
pub open spec fn add_new_account_effect(o: App, n: App, r: AddAccountRequest) -> bool {
    &&& o.account_form.new_account_username@.len() == 0 ==> {
            &&& r is Nothing
            &&& n == (App { status_message: n.status_message, ..o })
            &&& n.status_message@ == "Please enter a username"@
        }
    &&& o.account_form.new_account_username@.len() > 0 ==> match o.account_form.new_account_type {
            AccountType::Microsoft => {
                &&& r is Nothing
                &&& n == (App {
                    status_message: n.status_message,
                    account_form: AccountForm {
                        login_error: n.account_form.login_error,
                        ..o.account_form
                    },
                    ..o
                })
                &&& n.status_message@
                    == "Microsoft accounts are not implemented yet - coming soon!"@
                &&& n.account_form.login_error matches Some(e) && e@
                    == "Microsoft authentication not yet available"@
            },
            AccountType::LittleSkin => {
                &&& r is Nothing
                &&& n == (App {
                    status_message: n.status_message,
                    account_form: AccountForm {
                        login_error: n.account_form.login_error,
                        ..o.account_form
                    },
                    ..o
                })
                &&& n.status_message@
                    == "LittleSkin accounts are not implemented yet - coming soon!"@
                &&& n.account_form.login_error matches Some(e) && e@
                    == "LittleSkin authentication not yet available"@
            },
            AccountType::Offline => {
                &&& n == o
                &&& r matches AddAccountRequest::SaveOffline(req) && req.account.username@
                    == o.account_form.new_account_username@
                    && req.account.account_type@ == "Offline"@ && req.account.uuid@
                    == offline_uuid() && req.account.is_logged_in
            },
            AccountType::ElyBy => if o.account_form.new_account_password@.len()
                == 0 {
                &&& r is Nothing
                &&& n == (App {
                    account_form: AccountForm {
                        login_error: n.account_form.login_error,
                        ..o.account_form
                    },
                    ..o
                })
                &&& n.account_form.login_error matches Some(e) && e@
                    == "Password is required for ElyBy accounts"@
            } else {
                elyby_login_started(o, n, r)
            },
        }
}

/// What `App::logout_account` does: the state before and after and its result.
pub open spec fn logout_account_effect(o: App, n: App, r: Option<LogoutRequest>) -> bool {
    &&& o.account_list.selected_account >= o.account_list.accounts@.len() ==> {
            &&& r is None
            &&& n == (App { status_message: n.status_message, ..o })
            &&& n.status_message@ == "No account selected to logout"@
        }
    &&& o.account_list.selected_account < o.account_list.accounts@.len() ==> {
            let a = o.account_list.accounts@[o.account_list.selected_account as int];
            if a.account_type@ == "Offline"@ {
                &&& r is None
                &&& n == (App { status_message: n.status_message, ..o })
                &&& n.status_message@
                    == "Cannot logout offline accounts - they are always ready to use"@
            } else {
                &&& n == o
                &&& r matches Some(req) && req.username@ == a.username@ && req.account_type
                    == auth_type_of(a.account_type@) && req.keyring_username@ == keyring_name(
                    a.username@,
                    auth_type_of(a.account_type@),
                )
            }
        }
}

/// What `App::set_default_account` does: the state before and after and its result.
pub open spec fn set_default_account_effect(o: App, n: App, r: Option<String>) -> bool {
    &&& o.account_list.accounts@.len() == 0 ==> {
            &&& r is None
            &&& n == (App { status_message: n.status_message, ..o })
            &&& n.status_message@ == "No accounts available to set as default."@
        }
    &&& o.account_list.accounts@.len() > 0 ==> {
            let a = o.account_list.accounts@[o.account_list.selected_account as int];
            &&& n == (App {
                account_list: AccountList {
                    current_account: n.account_list.current_account,
                    ..o.account_list
                },
                ..o
            })
            &&& n.account_list.current_account matches Some(c) && c@ == a.username@
            &&& r matches Some(k) && k@ == a.username@
        }
}


/// An account entry of the launcher config, with whether a token for it
/// was found in the keyring.
pub struct StoredAccount {
    /// The key of the entry.
    pub key: String,
    pub account_type: Option<String>,
    pub uuid: String,
    pub has_token: bool,
}

/// The kind of a stored account: the recorded one, or "Microsoft".
pub open spec fn stored_kind(a: StoredAccount) -> Seq<char> {
    match a.account_type {
        Some(t) => t@,
        None => "Microsoft"@,
    }
}

/// The account the Accounts tab lists for a stored one: offline accounts
/// are always logged in, others when their token was found.
pub open spec fn listed_account(a: StoredAccount, r: Account) -> bool {
    &&& r.username@ == a.key@
    &&& r.account_type@ == stored_kind(a)
    &&& r.uuid@ == a.uuid@
    &&& r.is_logged_in == (stored_kind(a) == "Offline"@ || a.has_token)
}

/// The keyring name and service under which the token of a config entry
/// is stored: the recorded identifier, or the key without the service
/// marker.
pub fn stored_token_key(key: &str, account_type: &str, keyring_identifier: &Option<String>) -> (r: (
    String,
    AuthAccountType,
))
    ensures
        r.1 == auth_type_of(account_type@),
        r.0@ == match keyring_identifier {
            Some(k) => k@,
            None => keyring_name(key@, r.1),
        },
{
    let t = auth_type_from_name(account_type);
    let k = match keyring_identifier {
        Some(k) => k.clone(),
        None => keyring_username(key, t),
    };
    (k, t)
}

impl App {
    /// Whether an offline account is configured.
    pub fn can_launch_offline(&self) -> (r: bool)
        ensures
            r == exists|i: int|
                0 <= i < self.account_list.accounts@.len()
                    && #[trigger] self.account_list.accounts@[i].account_type@ == "Offline"@,
    {
        let mut i: usize = 0;
        while i < self.account_list.accounts.len()
            invariant
                i <= self.account_list.accounts@.len(),
                forall|j: int|
                    0 <= j < i ==> #[trigger] self.account_list.accounts@[j].account_type@
                        != "Offline"@,
            decreases self.account_list.accounts.len() - i,
        {
            if str_eq(self.account_list.accounts[i].account_type.as_str(), "Offline") {
                return true;
            }
            i += 1;
        }
        false
    }

    /// Fills the account list from the launcher config (`Ok(None)` when it
    /// has no accounts section): one account per entry, in order, and the
    /// default account if one is recorded; reports a config that could not
    /// be loaded.
    pub fn load_accounts(&mut self, loaded: Result<Option<(Vec<StoredAccount>, Option<String>)>, String>)
        ensures
            match loaded {
                Err(e) => *final(self) == (App { status_message: final(self).status_message, ..*old(self) })
                    && final(self).status_message@ == "Error loading config: "@ + e@,
                Ok(None) => *final(self) == (App { status_message: final(self).status_message, ..*old(self) })
                    && final(self).status_message@ == old(self).status_message@ + " (No accounts configured)"@,
                Ok(Some((list, selected))) => {
                    &&& *final(self) == (App {
                        account_list: AccountList {
                            accounts: final(self).account_list.accounts,
                            current_account: if selected is Some {
                                selected
                            } else {
                                old(self).account_list.current_account
                            },
                            ..old(self).account_list
                        },
                        status_message: final(self).status_message,
                        ..*old(self)
                    })
                    &&& final(self).account_list.accounts@.len() == list@.len()
                    &&& forall|i: int|
                        0 <= i < list@.len() ==> listed_account(
                            #[trigger] list@[i],
                            final(self).account_list.accounts@[i],
                        )
                    &&& final(self).status_message@ == if list@.len() == 0 {
                        old(self).status_message@ + " (No accounts configured)"@
                    } else {
                        "Loaded "@ + decimal(old(self).instance_list.instances@.len()) + " instances and "@
                            + decimal(list@.len()) + " accounts"@
                    }
                },
            },
    {
        match loaded {
            Err(e) => {
                self.status_message = concat("Error loading config: ", e.as_str());
            },
            Ok(None) => {
                push_str(&mut self.status_message, " (No accounts configured)");
            },
            Ok(Some((list, selected))) => {
                let mut accounts: Vec<Account> = Vec::new();
                let mut i: usize = 0;
                while i < list.len()
                    invariant
                        i <= list@.len(),
                        accounts@.len() == i,
                        forall|j: int|
                            0 <= j < i ==> listed_account(#[trigger] list@[j], accounts@[j]),
                    decreases list.len() - i,
                {
                    let e = &list[i];
                    let kind = match &e.account_type {
                        Some(t) => t.clone(),
                        None => "Microsoft".to_owned(),
                    };
                    let offline = str_eq(kind.as_str(), "Offline");
                    accounts.push(
                        Account {
                            username: e.key.clone(),
                            account_type: kind,
                            uuid: e.uuid.clone(),
                            is_logged_in: offline || e.has_token,
                        },
                    );
                    i += 1;
                }
                let n = accounts.len();
                self.account_list.accounts = accounts;
                if selected.is_some() {
                    self.account_list.current_account = selected;
                }
                if n == 0 {
                    push_str(&mut self.status_message, " (No accounts configured)");
                } else {
                    let mut m = "Loaded ".to_owned();
                    push_decimal(&mut m, self.instance_list.instances.len() as u64);
                    push_str(&mut m, " instances and ");
                    push_decimal(&mut m, n as u64);
                    push_str(&mut m, " accounts");
                    self.status_message = m;
                }
            },
        }
    }
}
} // verus!
