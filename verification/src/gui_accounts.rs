//! The accounts of the launcher window: choosing an account, the login
//! forms of ElyBy, LittleSkin and Blessing Skin, adding a logged-in account
//! and logging out, as one step from the state and a message to the next
//! state and the work to start.
use vstd::prelude::*;
use crate::accounts::{str_eq, strip_suffix_or_keep, strip_suffix_or_keep_exec};
use crate::saved_accounts::{
    distinct_names, put_account, replaced_or_added, SavedAccountEntry, SavedAccountType,
    SavedLogin,
};
use crate::text::{push_str, string_push};

verus! {

/// The dropdown entry for playing offline.
pub open spec fn offline_name() -> Seq<char> {
    "(Offline)"@
}

/// The dropdown entry that opens the login screen.
pub open spec fn new_account_name() -> Seq<char> {
    "+ Add Account"@
}

/// The dropdown entry for playing offline (see `offline_name`).
pub fn offline_account_name() -> (r: &'static str)
    ensures
        r@ == offline_name(),
{
    "(Offline)"
}

/// The dropdown entry that opens the login screen (see `new_account_name`).
pub fn new_account_entry_name() -> (r: &'static str)
    ensures
        r@ == new_account_name(),
{
    "+ Add Account"
}

/// The login form of ElyBy, LittleSkin and Blessing Skin accounts.
pub struct AltLoginMenu {
    pub username: String,
    pub password: String,
    pub is_loading: bool,
    pub otp: Option<String>,
    pub show_password: bool,
    pub is_from_welcome_screen: bool,
    pub is_littleskin: bool,
    pub is_blessing_skin: bool,
    pub blessing_skin_url: String,
    pub device_code_error: Option<String>,
    /// The LittleSkin device code to enter, once one was given.
    pub oauth: Option<DeviceCode>,
}

/// A LittleSkin device code: the code to enter, the page to enter it on,
/// and the seconds it stays valid.
pub struct DeviceCode {
    pub user_code: String,
    pub verification_uri: String,
    pub expires_in: u64,
}

/// The screens of the launcher window that the account messages look at or
/// open; `Other` stands for any other screen.
pub enum AccountScreen {
    Launch,
    /// The choice of login service.
    AccountLogin,
    /// A message while something loads.
    Message(String),
    /// Asking whether to log out of the named account.
    ConfirmLogout(String),
    LoginAlternate(AltLoginMenu),
    /// The warning shown before a Blessing Skin login; whether the login
    /// was started from the welcome screen.
    BlessingSkinWarning(bool),
    /// The Microsoft login: the page and the code to enter there.
    LoginMicrosoft { url: String, code: String, is_from_welcome_screen: bool },
    /// The progress of the last steps of a Microsoft login.
    LoginProgress,
    Other,
}

/// The accounts of the launcher window.
pub struct AccountsState {
    pub screen: AccountScreen,
    /// The loaded accounts by config key.
    pub accounts: Vec<(String, SavedLogin)>,
    /// The entries of the account dropdown.
    pub dropdown: Vec<String>,
    pub selected: Option<String>,
    /// The account entries of the launcher config by key.
    pub config_accounts: Vec<(String, SavedAccountEntry)>,
}

impl AccountsState {
    /// No key occurs twice among the accounts or the config entries.
    pub open spec fn wf(&self) -> bool {
        distinct_names(self.accounts@) && distinct_names(self.config_accounts@)
    }
}

/// What an ElyBy, LittleSkin or Blessing Skin login answered.
pub enum AltAccount {
    /// The account, with the config key it is stored under.
    Account(String, SavedLogin),
    NeedsOtp,
}

/// The account messages of the launcher window.
pub enum AccountMsg {
    Selected(String),
    LogoutCheck,
    LogoutConfirm,
    /// A Microsoft login finished, with the config key of the account.
    Response3(Result<(String, SavedLogin), String>),
    AltLoginResponse(Result<AltAccount, String>),
    BlessingSkinLoginResponse(Result<AltAccount, String>),
    /// A token refresh before launching finished.
    RefreshComplete(Result<(String, SavedLogin), String>),
    OpenMicrosoft(bool),
    OpenElyBy(bool),
    OpenLittleSkin(bool),
    OpenBlessingSkin(bool),
    BlessingSkinWarningGoBack,
    BlessingSkinWarningProceed(bool),
    AltUsernameInput(String),
    AltPasswordInput(String),
    AltOtpInput(String),
    AltShowPassword(bool),
    BlessingSkinUrlInput(String),
    BlessingSkinUsernameInput(String),
    BlessingSkinPasswordInput(String),
    BlessingSkinShowPassword(bool),
    AltLogin,
    BlessingSkinLogin,
    LittleSkinOauthButtonClicked,
    LittleSkinDeviceCodeError(String),
    /// Microsoft gave the code to enter (its page and the code), or failed.
    Response1 { r: Result<(String, String), String>, is_from_welcome_screen: bool },
    /// The code was entered and a token came back, or the login failed.
    Response2(Result<(), String>),
    /// LittleSkin gave a device code.
    LittleSkinDeviceCodeReady {
        user_code: String,
        verification_uri: String,
        expires_in: u64,
        interval: u64,
        device_code: String,
    },
}

/// The work an account message asks for.
pub enum AccountAction {
    Nothing,
    /// Show the error.
    Fail(String),
    /// Load the instance list for the launch screen.
    OpenLaunchScreen,
    /// Load the instance list and launch the game with the account.
    LaunchAfterRefresh(Option<SavedLogin>),
    /// Start a Microsoft login.
    StartMicrosoftLogin(bool),
    LoginElyBy { username: String, password: String },
    LoginLittleSkin { username: String, password: String },
    LoginBlessingSkin { username: String, password: String, url: String },
    /// Remove the stored token of the account, then load the instance list.
    Logout { account_type: SavedAccountType, username: String },
    /// Log out of a Blessing Skin server (an error is only logged), then
    /// open the launch screen.
    LogoutBlessingSkin { username: String, url: String },
    /// Ask LittleSkin for a device code.
    RequestDeviceCode,
    /// Wait until the Microsoft code is entered.
    WaitForMicrosoftCode,
    /// Finish the Microsoft login with the token that came back.
    FinishMicrosoftLogin,
    /// Poll LittleSkin for the token of the device code, every `interval`
    /// seconds for at most `expires_in` seconds.
    PollDeviceToken { device_code: String, interval: u64, expires_in: u64 },
}

/// A fresh login form.
pub open spec fn fresh_menu(m: AltLoginMenu, from_welcome: bool, littleskin: bool, blessing: bool) -> bool {
    &&& m.username@.len() == 0
    &&& m.password@.len() == 0
    &&& !m.is_loading
    &&& m.otp is None
    &&& !m.show_password
    &&& m.is_from_welcome_screen == from_welcome
    &&& m.is_littleskin == littleskin
    &&& m.is_blessing_skin == blessing
    &&& m.blessing_skin_url@.len() == 0
    &&& m.device_code_error is None
    &&& m.oauth is None
}

/// The password sent with a login: the password, then `:` and the one-time
/// code when one is entered.
pub open spec fn login_password(m: AltLoginMenu) -> Seq<char> {
    match m.otp {
        Some(o) => m.password@ + ":"@ + o@,
        None => m.password@,
    }
}

/// The loaded account of a key, if any.
pub open spec fn login_of(v: Seq<(String, SavedLogin)>, key: Seq<char>) -> Option<SavedLogin> {
    if exists|i: int| 0 <= i < v.len() && (#[trigger] v[i]).0@ == key {
        Some(v[choose|i: int| 0 <= i < v.len() && (#[trigger] v[i]).0@ == key].1)
    } else {
        None
    }
}

/// `n` is `o` without the entry of `key`.
pub open spec fn removed_key<V>(o: Seq<(String, V)>, n: Seq<(String, V)>, key: Seq<char>) -> bool {
    ||| exists|i: int| 0 <= i < o.len() && (#[trigger] o[i]).0@ == key && n == o.remove(i)
    ||| (forall|i: int| 0 <= i < o.len() ==> (#[trigger] o[i]).0@ != key) && n == o
}

/// `n` is `o` without its first entry equal to `x`.
pub open spec fn removed_first(o: Seq<String>, n: Seq<String>, x: Seq<char>) -> bool {
    ||| exists|i: int|
        0 <= i < o.len() && (#[trigger] o[i])@ == x && (forall|j: int| 0 <= j < i ==> o[j]@ != x)
            && n == o.remove(i)
    ||| (forall|i: int| 0 <= i < o.len() ==> (#[trigger] o[i])@ != x) && n == o
}

/// The name of a login service as the config records it.
pub open spec fn service_name(t: SavedAccountType) -> Seq<char> {
    match t {
        SavedAccountType::Microsoft => "Microsoft"@,
        SavedAccountType::ElyBy => "ElyBy"@,
        SavedAccountType::LittleSkin => "LittleSkin"@,
        SavedAccountType::BlessingSkin => "BlessingSkin"@,
    }
}

/// The config entry recorded for a logged-in account.
pub open spec fn entry_for(e: SavedAccountEntry, data: SavedLogin) -> bool {
    &&& e.uuid == data.uuid
    &&& e.account_type matches Some(t) && t@ == service_name(data.account_type)
    &&& e.username_nice == Some(data.nice_username)
    &&& e.custom_auth_url == data.custom_auth_url
}

/// The state once a logged-in account was added (`account_response_3`):
/// it heads the dropdown, is stored in the config and among the accounts,
/// and is selected; the launch screen opens.
pub open spec fn account_added(o: AccountsState, n: AccountsState, key: String, data: SavedLogin) -> bool {
    &&& n.screen is Launch
    &&& n.dropdown@ == o.dropdown@.insert(0, data.username)
    &&& n.selected == Some(key)
    &&& replaced_or_added(o.accounts@, n.accounts@, key@)
    &&& exists|i: int| 0 <= i < n.accounts@.len() && (#[trigger] n.accounts@[i]).0@ == key@ && n.accounts@[i].1 == data
    &&& replaced_or_added(o.config_accounts@, n.config_accounts@, key@)
    &&& exists|i: int|
        0 <= i < n.config_accounts@.len() && (#[trigger] n.config_accounts@[i]).0@ == key@
            && entry_for(n.config_accounts@[i].1, data)
}

/// The login form with one field replaced, when the login form is shown.
pub open spec fn form_edited(o: AccountsState, n: AccountsState, f: spec_fn(AltLoginMenu) -> AltLoginMenu) -> bool {
    match o.screen {
        AccountScreen::LoginAlternate(m) => n == (AccountsState { screen: AccountScreen::LoginAlternate(f(m)), ..o }),
        _ => n == o,
    }
}

/// What a login answer does: on the login form loading stops, and then the
/// account is added or a one-time code is asked for.
pub open spec fn alt_answer_effect(o: AccountsState, res: Result<AltAccount, String>, n: AccountsState, r: AccountAction) -> bool {
    match res {
        Err(e) => n == o && r == AccountAction::Fail(e),
        Ok(acc) => match o.screen {
            AccountScreen::LoginAlternate(m) => match acc {
                AltAccount::Account(key, data) => account_added(o, n, key, data) && r is OpenLaunchScreen,
                AltAccount::NeedsOtp => {
                    &&& n == (AccountsState { screen: n.screen, ..o })
                    &&& n.screen matches AccountScreen::LoginAlternate(nm)
                    &&& nm == (AltLoginMenu { is_loading: false, otp: nm.otp, ..m })
                    &&& nm.otp matches Some(s) && s@.len() == 0
                    &&& r is Nothing
                },
            },
            _ => n == o && r is Nothing,
        },
    }
}

/// What logging out of the selected account does: the account leaves the
/// accounts, the config and the dropdown, the first dropdown entry (or
/// offline play) is selected and the launch screen opens. Its stored token
/// is removed; a Blessing Skin account is logged out of its server, when it
/// has one.
pub open spec fn logout_effect(o: AccountsState, n: AccountsState, r: AccountAction) -> bool {
    let u = o.selected->0;
    let t = match login_of(o.accounts@, u@) {
        Some(l) => l.account_type,
        None => SavedAccountType::Microsoft,
    };
    &&& n.screen is Launch
    &&& removed_key(o.accounts@, n.accounts@, u@)
    &&& removed_key(o.config_accounts@, n.config_accounts@, u@)
    &&& removed_first(o.dropdown@, n.dropdown@, u@)
    &&& n.selected matches Some(s) && s@ == (if n.dropdown@.len() > 0 {
        n.dropdown@[0]@
    } else {
        offline_name()
    })
    &&& if t == SavedAccountType::BlessingSkin {
        if login_of(o.accounts@, u@)->0.custom_auth_url is Some {
            r matches AccountAction::LogoutBlessingSkin { username, url } && username == u
                && url == login_of(o.accounts@, u@)->0.custom_auth_url->0
        } else {
            r is OpenLaunchScreen
        }
    } else {
        r matches AccountAction::Logout { account_type, username } && account_type == t
            && username@ == (if t == SavedAccountType::ElyBy {
            strip_suffix_or_keep(u@, " (elyby)"@)
        } else {
            u@
        })
    }
}

/// The next state and the work for an account message.
pub open spec fn account_effect(o: AccountsState, msg: AccountMsg, n: AccountsState, r: AccountAction) -> bool {
    match msg {
        AccountMsg::Selected(a) => r is Nothing && if a@ == new_account_name() {
            n == (AccountsState { screen: AccountScreen::AccountLogin, ..o })
        } else {
            n == (AccountsState { selected: Some(a), ..o })
        },
        AccountMsg::LogoutCheck => r is Nothing && n == (AccountsState {
            screen: AccountScreen::ConfirmLogout(o.selected->0),
            ..o
        }),
        AccountMsg::LogoutConfirm => logout_effect(o, n, r),
        AccountMsg::Response3(res) => match res {
            Ok((key, data)) => account_added(o, n, key, data) && r is OpenLaunchScreen,
            Err(e) => n == o && r == AccountAction::Fail(e),
        },
        AccountMsg::AltLoginResponse(res) => alt_answer_effect(o, res, n, r),
        AccountMsg::BlessingSkinLoginResponse(res) => alt_answer_effect(o, res, n, r),
        AccountMsg::RefreshComplete(res) => match res {
            Ok((key, data)) => {
                &&& n == (AccountsState { screen: AccountScreen::Launch, accounts: n.accounts, ..o })
                &&& replaced_or_added(o.accounts@, n.accounts@, key@)
                &&& exists|i: int| 0 <= i < n.accounts@.len() && (#[trigger] n.accounts@[i]).0@ == key@
                    && n.accounts@[i].1 == data
                &&& r matches AccountAction::LaunchAfterRefresh(launched) && launched == match o.selected {
                    Some(a) => if a@ == new_account_name() || a@ == offline_name() {
                        None
                    } else {
                        login_of(n.accounts@, a@)
                    },
                    None => None,
                }
            },
            Err(e) => n == o && r == AccountAction::Fail(e),
        },
        AccountMsg::OpenMicrosoft(w) => {
            &&& n == (AccountsState { screen: n.screen, ..o })
            &&& n.screen matches AccountScreen::Message(t) && t@ == "Loading Login..."@
            &&& r == AccountAction::StartMicrosoftLogin(w)
        },
        AccountMsg::OpenElyBy(w) => r is Nothing && n == (AccountsState { screen: n.screen, ..o })
            && (n.screen matches AccountScreen::LoginAlternate(m) && fresh_menu(m, w, false, false)),
        AccountMsg::OpenLittleSkin(w) => r is Nothing && n == (AccountsState { screen: n.screen, ..o })
            && (n.screen matches AccountScreen::LoginAlternate(m) && fresh_menu(m, w, true, false)),
        AccountMsg::OpenBlessingSkin(w) => r is Nothing && n == (AccountsState {
            screen: AccountScreen::BlessingSkinWarning(w),
            ..o
        }),
        AccountMsg::BlessingSkinWarningGoBack => r is Nothing && n == (AccountsState {
            screen: AccountScreen::AccountLogin,
            ..o
        }),
        AccountMsg::BlessingSkinWarningProceed(w) => r is Nothing && n == (AccountsState { screen: n.screen, ..o })
            && (n.screen matches AccountScreen::LoginAlternate(m) && fresh_menu(m, w, false, true)),
        AccountMsg::AltUsernameInput(s) => r is Nothing && form_edited(o, n, |m: AltLoginMenu| AltLoginMenu { username: s, ..m }),
        AccountMsg::BlessingSkinUsernameInput(s) => r is Nothing && form_edited(o, n, |m: AltLoginMenu| AltLoginMenu { username: s, ..m }),
        AccountMsg::AltPasswordInput(s) => r is Nothing && form_edited(o, n, |m: AltLoginMenu| AltLoginMenu { password: s, ..m }),
        AccountMsg::BlessingSkinPasswordInput(s) => r is Nothing && form_edited(o, n, |m: AltLoginMenu| AltLoginMenu { password: s, ..m }),
        AccountMsg::AltOtpInput(s) => r is Nothing && form_edited(o, n, |m: AltLoginMenu| AltLoginMenu { otp: Some(s), ..m }),
        AccountMsg::AltShowPassword(b) => r is Nothing && form_edited(o, n, |m: AltLoginMenu| AltLoginMenu { show_password: b, ..m }),
        AccountMsg::BlessingSkinShowPassword(b) => r is Nothing && form_edited(o, n, |m: AltLoginMenu| AltLoginMenu { show_password: b, ..m }),
        AccountMsg::BlessingSkinUrlInput(s) => r is Nothing && form_edited(o, n, |m: AltLoginMenu| AltLoginMenu { blessing_skin_url: s, ..m }),
        AccountMsg::AltLogin => match o.screen {
            AccountScreen::LoginAlternate(m) => {
                &&& n == (AccountsState { screen: AccountScreen::LoginAlternate(AltLoginMenu { is_loading: true, ..m }), ..o })
                &&& if m.is_littleskin {
                    r matches AccountAction::LoginLittleSkin { username, password } && username == m.username
                        && password@ == login_password(m)
                } else {
                    r matches AccountAction::LoginElyBy { username, password } && username == m.username
                        && password@ == login_password(m)
                }
            },
            _ => n == o && r is Nothing,
        },
        AccountMsg::BlessingSkinLogin => match o.screen {
            AccountScreen::LoginAlternate(m) => if m.blessing_skin_url@.len() == 0 {
                n == o && r is Nothing
            } else {
                &&& n == (AccountsState { screen: AccountScreen::LoginAlternate(AltLoginMenu { is_loading: true, ..m }), ..o })
                &&& r matches AccountAction::LoginBlessingSkin { username, password, url } && username == m.username
                    && password@ == login_password(m) && url == m.blessing_skin_url
            },
            _ => n == o && r is Nothing,
        },
        AccountMsg::LittleSkinOauthButtonClicked => r is RequestDeviceCode && form_edited(
            o,
            n,
            |m: AltLoginMenu| AltLoginMenu { is_loading: true, ..m },
        ),
        AccountMsg::LittleSkinDeviceCodeError(e) => r is Nothing && form_edited(
            o,
            n,
            |m: AltLoginMenu| AltLoginMenu { is_loading: false, device_code_error: Some(e), ..m },
        ),
        AccountMsg::Response1 { r: res, is_from_welcome_screen } => match res {
            Ok((url, code)) => r is WaitForMicrosoftCode && n == (AccountsState {
                screen: AccountScreen::LoginMicrosoft { url, code, is_from_welcome_screen },
                ..o
            }),
            Err(e) => n == o && r == AccountAction::Fail(e),
        },
        AccountMsg::Response2(res) => match res {
            Ok(()) => r is FinishMicrosoftLogin && n == (AccountsState { screen: AccountScreen::LoginProgress, ..o }),
            Err(e) => n == o && r == AccountAction::Fail(e),
        },
        AccountMsg::LittleSkinDeviceCodeReady { user_code, verification_uri, expires_in, interval, device_code } => {
            &&& r == (AccountAction::PollDeviceToken { device_code, interval, expires_in })
            &&& form_edited(
                o,
                n,
                |m: AltLoginMenu| AltLoginMenu {
                    oauth: Some(DeviceCode { user_code, verification_uri, expires_in }),
                    is_loading: false,
                    ..m
                },
            )
        },
    }
}

fn copy_opt(o: &Option<String>) -> (r: Option<String>)
    ensures
        r == *o,
{
    match o {
        Some(s) => Some(s.clone()),
        None => None,
    }
}

fn copy_login(l: &SavedLogin) -> (r: SavedLogin)
    ensures
        r == *l,
{
    SavedLogin {
        access_token: copy_opt(&l.access_token),
        uuid: l.uuid.clone(),
        refresh_token: l.refresh_token.clone(),
        needs_refresh: l.needs_refresh,
        account_type: l.account_type,
        username: l.username.clone(),
        nice_username: l.nice_username.clone(),
        custom_auth_url: copy_opt(&l.custom_auth_url),
    }
}

fn service_name_exec(t: SavedAccountType) -> (r: String)
    ensures
        r@ == service_name(t),
{
    match t {
        SavedAccountType::Microsoft => "Microsoft".to_owned(),
        SavedAccountType::ElyBy => "ElyBy".to_owned(),
        SavedAccountType::LittleSkin => "LittleSkin".to_owned(),
        SavedAccountType::BlessingSkin => "BlessingSkin".to_owned(),
    }
}

/// The position of the entry of `key`.
fn key_position<V>(v: &Vec<(String, V)>, key: &str) -> (r: Option<usize>)
    requires
        distinct_names(v@),
    ensures
        r matches Some(i) ==> i < v@.len() && v@[i as int].0@ == key@,
        r is None ==> forall|i: int| 0 <= i < v@.len() ==> (#[trigger] v@[i]).0@ != key@,
{
    let mut i: usize = 0;
    while i < v.len()
        invariant
            i <= v@.len(),
            forall|j: int| 0 <= j < i ==> (#[trigger] v@[j]).0@ != key@,
        decreases v.len() - i,
    {
        if str_eq(v[i].0.as_str(), key) {
            return Some(i);
        }
        i += 1;
    }
    None
}

proof fn lemma_login_of_at(v: Seq<(String, SavedLogin)>, i: int, key: Seq<char>)
    requires
        distinct_names(v),
        0 <= i < v.len(),
        v[i].0@ == key,
    ensures
        login_of(v, key) == Some(v[i].1),
{
    let c = choose|c: int| 0 <= c < v.len() && (#[trigger] v[c]).0@ == key;
    if c != i {
        if c < i {
            assert(v[c].0@ != v[i].0@);
        } else {
            assert(v[i].0@ != v[c].0@);
        }
    }
}

/// Removes the entry of `key`.
fn remove_keyed<V>(v: &mut Vec<(String, V)>, key: &str)
    requires
        distinct_names(old(v)@),
    ensures
        distinct_names(final(v)@),
        removed_key(old(v)@, final(v)@, key@),
{
    match key_position(v, key) {
        Some(i) => {
            let ghost before = v@;
            let _ = v.remove(i);
            assert forall|a: int, b: int| 0 <= a < b < v@.len() implies (#[trigger] v@[a]).0@
                != (#[trigger] v@[b]).0@ by {
                let a0 = if a < i { a } else { a + 1 };
                let b0 = if b < i { b } else { b + 1 };
                assert(v@[a] == before[a0]);
                assert(v@[b] == before[b0]);
                assert(before[a0].0@ != before[b0].0@);
            }
        },
        None => {},
    }
}

/// Removes the first entry equal to `x`.
fn remove_first(v: &mut Vec<String>, x: &str)
    ensures
        removed_first(old(v)@, final(v)@, x@),
{
    let mut i: usize = 0;
    while i < v.len()
        invariant
            i <= v@.len(),
            v@ == old(v)@,
            forall|j: int| 0 <= j < i ==> (#[trigger] v@[j])@ != x@,
        decreases v.len() - i,
    {
        if str_eq(v[i].as_str(), x) {
            let _ = v.remove(i);
            return;
        }
        i += 1;
    }
}

/// The password sent with a login (see `login_password`).
fn password_of(m: &AltLoginMenu) -> (r: String)
    ensures
        r@ == login_password(*m),
{
    let mut p = m.password.clone();
    match &m.otp {
        Some(o) => {
            string_push(&mut p, ':');
            push_str(&mut p, o.as_str());
            assert(p@ =~= m.password@ + ":"@ + o@) by {
                reveal_strlit(":");
            }
        },
        None => {},
    }
    p
}

fn fresh(from_welcome: bool, littleskin: bool, blessing: bool) -> (m: AltLoginMenu)
    ensures
        fresh_menu(m, from_welcome, littleskin, blessing),
{
    AltLoginMenu {
        username: String::new(),
        password: String::new(),
        is_loading: false,
        otp: None,
        show_password: false,
        is_from_welcome_screen: from_welcome,
        is_littleskin: littleskin,
        is_blessing_skin: blessing,
        blessing_skin_url: String::new(),
        device_code_error: None,
        oauth: None,
    }
}

impl AccountsState {
    /// Adds a logged-in account (see `account_added`).
    fn add_account(&mut self, key: String, data: SavedLogin)
        requires
            old(self).wf(),
        ensures
            final(self).wf(),
            account_added(*old(self), *final(self), key, data),
    {
        self.dropdown.insert(0, data.username.clone());
        let entry = SavedAccountEntry {
            uuid: data.uuid.clone(),
            account_type: Some(service_name_exec(data.account_type)),
            username_nice: Some(data.nice_username.clone()),
            custom_auth_url: copy_opt(&data.custom_auth_url),
        };
        let ghost e = entry;
        assert(entry_for(e, data));
        put_account(&mut self.config_accounts, key.clone(), entry);
        self.selected = Some(key.clone());
        put_account(&mut self.accounts, key, data);
        self.screen = AccountScreen::Launch;
        assert(self.dropdown@ == old(self).dropdown@.insert(0, data.username));
        assert(replaced_or_added(old(self).config_accounts@, self.config_accounts@, key@));
        assert(exists|i: int| 0 <= i < self.config_accounts@.len() && (#[trigger] self.config_accounts@[i]).0@ == key@
            && self.config_accounts@[i].1 == e);
    }

    fn logout(&mut self) -> (r: AccountAction)
        requires
            old(self).wf(),
            old(self).selected is Some,
        ensures
            final(self).wf(),
            logout_effect(*old(self), *final(self), r),
    {
        let u = match &self.selected {
            Some(u) => u.clone(),
            None => String::new(),
        };
        let pos = key_position(&self.accounts, u.as_str());
        let t = match pos {
            Some(i) => self.accounts[i].1.account_type,
            None => SavedAccountType::Microsoft,
        };
        proof {
            match pos {
                Some(i) => lemma_login_of_at(self.accounts@, i as int, u@),
                None => {},
            }
        }
        let blessing_url = if t == SavedAccountType::BlessingSkin {
            let i = match pos {
                Some(i) => i,
                None => 0,
            };
            copy_opt(&self.accounts[i].1.custom_auth_url)
        } else {
            None
        };
        remove_keyed(&mut self.config_accounts, u.as_str());
        remove_keyed(&mut self.accounts, u.as_str());
        remove_first(&mut self.dropdown, u.as_str());
        let first = if self.dropdown.len() > 0 {
            self.dropdown[0].clone()
        } else {
            offline_account_name().to_owned()
        };
        self.selected = Some(first);
        self.screen = AccountScreen::Launch;
        if t == SavedAccountType::BlessingSkin {
            match blessing_url {
                Some(url) => AccountAction::LogoutBlessingSkin { username: u, url },
                None => AccountAction::OpenLaunchScreen,
            }
        } else if t == SavedAccountType::ElyBy {
            AccountAction::Logout { account_type: t, username: strip_suffix_or_keep_exec(u.as_str(), " (elyby)") }
        } else {
            AccountAction::Logout { account_type: t, username: u }
        }
    }

    fn alt_answer(&mut self, res: Result<AltAccount, String>) -> (r: AccountAction)
        requires
            old(self).wf(),
        ensures
            final(self).wf(),
            alt_answer_effect(*old(self), res, *final(self), r),
    {
        match res {
            Err(e) => AccountAction::Fail(e),
            Ok(acc) => {
                let on_form = match &self.screen {
                    AccountScreen::LoginAlternate(_) => true,
                    _ => false,
                };
                if !on_form {
                    return AccountAction::Nothing;
                }
                match acc {
                    AltAccount::Account(key, data) => {
                        self.add_account(key, data);
                        AccountAction::OpenLaunchScreen
                    },
                    AltAccount::NeedsOtp => {
                        if let AccountScreen::LoginAlternate(m) = &mut self.screen {
                            m.is_loading = false;
                            m.otp = Some(String::new());
                        }
                        AccountAction::Nothing
                    },
                }
            },
        }
    }
}

/// One step of the account handling of the launcher window (see
/// `account_effect`). Logging out, or asking to, needs a selected account.
pub fn account_step(s: &mut AccountsState, msg: AccountMsg) -> (r: AccountAction)
    requires
        old(s).wf(),
        (msg is LogoutCheck || msg is LogoutConfirm) ==> old(s).selected is Some,
    ensures
        final(s).wf(),
        account_effect(*old(s), msg, *final(s), r),
{
    match msg {
        AccountMsg::Selected(a) => {
            if str_eq(a.as_str(), new_account_entry_name()) {
                s.screen = AccountScreen::AccountLogin;
            } else {
                s.selected = Some(a);
            }
            AccountAction::Nothing
        },
        AccountMsg::LogoutCheck => {
            let u = match &s.selected {
                Some(u) => u.clone(),
                None => String::new(),
            };
            s.screen = AccountScreen::ConfirmLogout(u);
            AccountAction::Nothing
        },
        AccountMsg::LogoutConfirm => s.logout(),
        AccountMsg::Response3(res) => match res {
            Ok((key, data)) => {
                s.add_account(key, data);
                AccountAction::OpenLaunchScreen
            },
            Err(e) => AccountAction::Fail(e),
        },
        AccountMsg::AltLoginResponse(res) => s.alt_answer(res),
        AccountMsg::BlessingSkinLoginResponse(res) => s.alt_answer(res),
        AccountMsg::RefreshComplete(res) => match res {
            Ok((key, data)) => {
                put_account(&mut s.accounts, key, data);
                let launched = match &s.selected {
                    Some(a) => {
                        if str_eq(a.as_str(), new_account_entry_name()) || str_eq(
                            a.as_str(),
                            offline_account_name(),
                        ) {
                            None
                        } else {
                            match key_position(&s.accounts, a.as_str()) {
                                Some(i) => {
                                    proof {
                                        lemma_login_of_at(s.accounts@, i as int, a@);
                                    }
                                    Some(copy_login(&s.accounts[i].1))
                                },
                                None => None,
                            }
                        }
                    },
                    None => None,
                };
                s.screen = AccountScreen::Launch;
                AccountAction::LaunchAfterRefresh(launched)
            },
            Err(e) => AccountAction::Fail(e),
        },
        AccountMsg::OpenMicrosoft(w) => {
            s.screen = AccountScreen::Message("Loading Login...".to_owned());
            AccountAction::StartMicrosoftLogin(w)
        },
        AccountMsg::OpenElyBy(w) => {
            s.screen = AccountScreen::LoginAlternate(fresh(w, false, false));
            AccountAction::Nothing
        },
        AccountMsg::OpenLittleSkin(w) => {
            s.screen = AccountScreen::LoginAlternate(fresh(w, true, false));
            AccountAction::Nothing
        },
        AccountMsg::OpenBlessingSkin(w) => {
            s.screen = AccountScreen::BlessingSkinWarning(w);
            AccountAction::Nothing
        },
        AccountMsg::BlessingSkinWarningGoBack => {
            s.screen = AccountScreen::AccountLogin;
            AccountAction::Nothing
        },
        AccountMsg::BlessingSkinWarningProceed(w) => {
            s.screen = AccountScreen::LoginAlternate(fresh(w, false, true));
            AccountAction::Nothing
        },
        AccountMsg::AltUsernameInput(v) | AccountMsg::BlessingSkinUsernameInput(v) => {
            if let AccountScreen::LoginAlternate(m) = &mut s.screen {
                m.username = v;
            }
            AccountAction::Nothing
        },
        AccountMsg::AltPasswordInput(v) | AccountMsg::BlessingSkinPasswordInput(v) => {
            if let AccountScreen::LoginAlternate(m) = &mut s.screen {
                m.password = v;
            }
            AccountAction::Nothing
        },
        AccountMsg::AltOtpInput(v) => {
            if let AccountScreen::LoginAlternate(m) = &mut s.screen {
                m.otp = Some(v);
            }
            AccountAction::Nothing
        },
        AccountMsg::AltShowPassword(b) | AccountMsg::BlessingSkinShowPassword(b) => {
            if let AccountScreen::LoginAlternate(m) = &mut s.screen {
                m.show_password = b;
            }
            AccountAction::Nothing
        },
        AccountMsg::BlessingSkinUrlInput(v) => {
            if let AccountScreen::LoginAlternate(m) = &mut s.screen {
                m.blessing_skin_url = v;
            }
            AccountAction::Nothing
        },
        AccountMsg::AltLogin => {
            if let AccountScreen::LoginAlternate(m) = &mut s.screen {
                let password = password_of(m);
                m.is_loading = true;
                if m.is_littleskin {
                    AccountAction::LoginLittleSkin { username: m.username.clone(), password }
                } else {
                    AccountAction::LoginElyBy { username: m.username.clone(), password }
                }
            } else {
                AccountAction::Nothing
            }
        },
        AccountMsg::BlessingSkinLogin => {
            if let AccountScreen::LoginAlternate(m) = &mut s.screen {
                if m.blessing_skin_url.as_str().is_empty() {
                    return AccountAction::Nothing;
                }
                let password = password_of(m);
                m.is_loading = true;
                AccountAction::LoginBlessingSkin {
                    username: m.username.clone(),
                    password,
                    url: m.blessing_skin_url.clone(),
                }
            } else {
                AccountAction::Nothing
            }
        },
        AccountMsg::LittleSkinOauthButtonClicked => {
            if let AccountScreen::LoginAlternate(m) = &mut s.screen {
                m.is_loading = true;
            }
            AccountAction::RequestDeviceCode
        },
        AccountMsg::LittleSkinDeviceCodeError(e) => {
            if let AccountScreen::LoginAlternate(m) = &mut s.screen {
                m.is_loading = false;
                m.device_code_error = Some(e);
            }
            AccountAction::Nothing
        },
        AccountMsg::Response1 { r: res, is_from_welcome_screen } => match res {
            Ok((url, code)) => {
                s.screen = AccountScreen::LoginMicrosoft { url, code, is_from_welcome_screen };
                AccountAction::WaitForMicrosoftCode
            },
            Err(e) => AccountAction::Fail(e),
        },
        AccountMsg::Response2(res) => match res {
            Ok(()) => {
                s.screen = AccountScreen::LoginProgress;
                AccountAction::FinishMicrosoftLogin
            },
            Err(e) => AccountAction::Fail(e),
        },
        AccountMsg::LittleSkinDeviceCodeReady { user_code, verification_uri, expires_in, interval, device_code } => {
            if let AccountScreen::LoginAlternate(m) = &mut s.screen {
                m.oauth = Some(DeviceCode { user_code, verification_uri, expires_in });
                m.is_loading = false;
            }
            AccountAction::PollDeviceToken { device_code, interval, expires_in }
        },
    }
}

} // verus!
