//! Launching an instance: which account data and player name the game gets,
//! from the selected account, its entry in the launcher config and the
//! token stored in the keyring.
use vstd::prelude::*;
use crate::accounts::{
    Account, AuthAccountType, auth_type_from_name, auth_type_of, clean_username_for_launch,
    clean_username_for_selected_account, keyring_name, keyring_username, launch_player_name,
    selected_player_name, str_eq,
};
use crate::app_state::App;
use crate::text::{concat, concat3, push_str};

verus! {

/// The entry of an account in the launcher config.
pub struct ConfigAccount {
    /// The name under which the token is stored in the keyring, when it was
    /// recorded.
    pub keyring_identifier: Option<String>,
    pub uuid: String,
    /// The display name of the account.
    pub username_nice: Option<String>,
}

/// What the game is launched with for an account.
pub struct AccountData {
    pub access_token: Option<String>,
    pub uuid: String,
    pub refresh_token: String,
    pub needs_refresh: bool,
    pub account_type: AuthAccountType,
    pub username: String,
    pub nice_username: String,
}

/// A launch to be started by the caller.
pub struct LaunchRequest {
    pub instance_name: String,
    pub username: String,
    pub account_data: Option<AccountData>,
}

/// The name of an authentication service.
pub open spec fn auth_type_name(t: AuthAccountType) -> Seq<char> {
    match t {
        AuthAccountType::Microsoft => "Microsoft"@,
        AuthAccountType::ElyBy => "ElyBy"@,
        AuthAccountType::LittleSkin => "LittleSkin"@,
    }
}

/// The name of an authentication service (see `auth_type_name`).
pub fn auth_type_label(t: AuthAccountType) -> (r: &'static str)
    ensures
        r@ == auth_type_name(t),
{
    match t {
        AuthAccountType::Microsoft => "Microsoft",
        AuthAccountType::ElyBy => "ElyBy",
        AuthAccountType::LittleSkin => "LittleSkin",
    }
}

/// The value of an optional string, or `default`.
pub open spec fn or_default(o: Option<String>, default: Seq<char>) -> Seq<char> {
    match o {
        Some(s) => s@,
        None => default,
    }
}

/// The keyring name of an account's token: the identifier recorded in the
/// config, or the config key without the service marker.
pub open spec fn token_key_of(account: Account, config: ConfigAccount) -> Seq<char> {
    match config.keyring_identifier {
        Some(k) => k@,
        None => keyring_name(account.username@, auth_type_of(account.account_type@)),
    }
}

/// Whether `d` holds the given fields, with the access token "0".
pub open spec fn data_is(
    d: AccountData,
    uuid: Seq<char>,
    refresh: Seq<char>,
    needs_refresh: bool,
    t: AuthAccountType,
    username: Seq<char>,
    nice: Seq<char>,
) -> bool {
    &&& d.access_token matches Some(a) && a@ == "0"@
    &&& d.uuid@ == uuid
    &&& d.refresh_token@ == refresh
    &&& d.needs_refresh == needs_refresh
    &&& d.account_type == t
    &&& d.username@ == username
    &&& d.nice_username@ == nice
}

/// The account data of a non-offline account from its config entry and
/// the token read from the keyring (`None` when reading failed). Without a
/// token, ElyBy and LittleSkin accounts still get data with an empty
/// refresh token; Microsoft accounts get none.
pub open spec fn stored_data_ok(
    account: Account,
    config: ConfigAccount,
    token: Option<String>,
    r: Option<AccountData>,
) -> bool {
    let t = auth_type_of(account.account_type@);
    let key = token_key_of(account, config);
    match token {
        Some(tok) => r matches Some(d) && data_is(
            d,
            config.uuid@,
            tok@,
            true,
            t,
            key,
            or_default(config.username_nice, key),
        ),
        None => if t == AuthAccountType::Microsoft {
            r is None
        } else {
            r matches Some(d) && data_is(
                d,
                config.uuid@,
                Seq::empty(),
                true,
                t,
                account.username@,
                or_default(config.username_nice, account.username@),
            )
        },
    }
}

/// The keyring name and service under which an account's token is stored.
pub fn token_lookup(account: &Account, config: &ConfigAccount) -> (r: (String, AuthAccountType))
    ensures
        r.0@ == token_key_of(*account, *config),
        r.1 == auth_type_of(account.account_type@),
{
    let t = auth_type_from_name(account.account_type.as_str());
    let key = match &config.keyring_identifier {
        Some(k) => k.clone(),
        None => keyring_username(account.username.as_str(), t),
    };
    (key, t)
}

fn opt_clone(o: &Option<String>) -> (r: Option<String>)
    ensures
        r == *o,
{
    match o {
        Some(s) => Some(s.clone()),
        None => None,
    }
}

fn or_default_exec(o: &Option<String>, default: &String) -> (r: String)
    ensures
        r@ == or_default(*o, default@),
{
    match o {
        Some(s) => s.clone(),
        None => default.clone(),
    }
}

/// The account data of a non-offline account (see `stored_data_ok`).
pub fn stored_account_data(account: &Account, config: &ConfigAccount, token: Option<String>) -> (r:
    Option<AccountData>)
    ensures
        stored_data_ok(*account, *config, token, r),
{
    let (key, t) = token_lookup(account, config);
    match token {
        Some(tok) => {
            let nice = or_default_exec(&config.username_nice, &key);
            Some(
                AccountData {
                    access_token: Some("0".to_owned()),
                    uuid: config.uuid.clone(),
                    refresh_token: tok,
                    needs_refresh: true,
                    account_type: t,
                    username: key,
                    nice_username: nice,
                },
            )
        },
        None => {
            if t == AuthAccountType::Microsoft {
                None
            } else {
                Some(
                    AccountData {
                        access_token: Some("0".to_owned()),
                        uuid: config.uuid.clone(),
                        refresh_token: String::new(),
                        needs_refresh: true,
                        account_type: t,
                        username: account.username.clone(),
                        nice_username: or_default_exec(&config.username_nice, &account.username),
                    },
                )
            }
        },
    }
}

/// The data an ElyBy or LittleSkin account is launched with when nothing is
/// stored for it: the account itself with an empty refresh token, under
/// the config's display name if there is one. Other kinds get none.
pub open spec fn minimal_data_ok(account: Account, config_nice: Option<String>, r: Option<
    AccountData,
>) -> bool {
    let t = auth_type_of(account.account_type@);
    if account.account_type@ == "ElyBy"@ || account.account_type@ == "LittleSkin"@ {
        r matches Some(d) && data_is(
            d,
            account.uuid@,
            Seq::empty(),
            true,
            t,
            account.username@,
            or_default(config_nice, account.username@),
        )
    } else {
        r is None
    }
}

/// The data an ElyBy or LittleSkin account is launched with when nothing is
/// stored for it (see `minimal_data_ok`).
pub fn minimal_account_data(account: &Account, config_nice: &Option<String>) -> (r: Option<
    AccountData,
>)
    ensures
        minimal_data_ok(*account, *config_nice, r),
{
    if str_eq(account.account_type.as_str(), "ElyBy") || str_eq(
        account.account_type.as_str(),
        "LittleSkin",
    ) {
        let t = auth_type_from_name(account.account_type.as_str());
        Some(
            AccountData {
                access_token: Some("0".to_owned()),
                uuid: account.uuid.clone(),
                refresh_token: String::new(),
                needs_refresh: true,
                account_type: t,
                username: account.username.clone(),
                nice_username: or_default_exec(config_nice, &account.username),
            },
        )
    } else {
        None
    }
}

/// The selected account, when the selection is within the list.
pub open spec fn selected_of(a: App) -> Option<Account> {
    if a.account_list.selected_account < a.account_list.accounts@.len() {
        Some(a.account_list.accounts@[a.account_list.selected_account as int])
    } else {
        None
    }
}

/// What the launch data of the selected account is, given its config
/// entry (if found) and keyring token: none for no selection or an offline
/// account; otherwise as `stored_data_ok` says, when there is an entry.
pub open spec fn launch_data_ok(
    a: App,
    config: Option<ConfigAccount>,
    token: Option<String>,
    r: Option<AccountData>,
) -> bool {
    match selected_of(a) {
        None => r is None,
        Some(acc) => if acc.account_type@ == "Offline"@ {
            r is None
        } else {
            match config {
                None => r is None,
                Some(c) => stored_data_ok(acc, c, token, r),
            }
        },
    }
}

/// Like `launch_data_ok`, except that an offline account gets data of its
/// own: its name and uuid, an empty refresh token, nothing to refresh.
pub open spec fn selected_data_ok(
    a: App,
    config: Option<ConfigAccount>,
    token: Option<String>,
    r: Option<AccountData>,
) -> bool {
    match selected_of(a) {
        Some(acc) => if acc.account_type@ == "Offline"@ {
            r matches Some(d) && data_is(
                d,
                acc.uuid@,
                Seq::empty(),
                false,
                AuthAccountType::Microsoft,
                acc.username@,
                acc.username@,
            )
        } else {
            launch_data_ok(a, config, token, r)
        },
        None => r is None,
    }
}

impl App {
    /// The account data to launch with for the selected account (see
    /// `launch_data_ok`).
    pub fn account_data_for_launch(&self, config: &Option<ConfigAccount>, token: Option<String>) -> (r:
        Option<AccountData>)
        ensures
            launch_data_ok(*self, *config, token, r),
    {
        if self.account_list.accounts.len() == 0 || self.account_list.selected_account
            >= self.account_list.accounts.len() {
            return None;
        }
        let account = &self.account_list.accounts[self.account_list.selected_account];
        if str_eq(account.account_type.as_str(), "Offline") {
            return None;
        }
        match config {
            Some(c) => stored_account_data(account, c, token),
            None => None,
        }
    }

    /// The account data of the selected account, offline ones included
    /// (see `selected_data_ok`).
    pub fn selected_account_data(&self, config: &Option<ConfigAccount>, token: Option<String>) -> (r:
        Option<AccountData>)
        ensures
            selected_data_ok(*self, *config, token, r),
    {
        if self.account_list.accounts.len() == 0 || self.account_list.selected_account
            >= self.account_list.accounts.len() {
            return None;
        }
        let account = &self.account_list.accounts[self.account_list.selected_account];
        if str_eq(account.account_type.as_str(), "Offline") {
            return Some(
                AccountData {
                    access_token: Some("0".to_owned()),
                    uuid: account.uuid.clone(),
                    refresh_token: String::new(),
                    needs_refresh: false,
                    account_type: AuthAccountType::Microsoft,
                    username: account.username.clone(),
                    nice_username: account.username.clone(),
                },
            );
        }
        self.account_data_for_launch(config, token)
    }
}

/// The player name a launch uses and the status line it shows, before the
/// event channel is checked. `data` is the launch data of the selected
/// account, `fallback` its data as `selected_data_ok` gives it, and
/// `config_nice` its display name in the config.
pub open spec fn launch_name_and_status(
    a: App,
    data: Option<AccountData>,
    fallback: Option<AccountData>,
    config_nice: Option<String>,
) -> (Seq<char>, Seq<char>) {
    match data {
        Some(acc) => {
            let u = launch_player_name(acc.username@, acc.nice_username@, acc.account_type);
            (u, "LAUNCHING: "@ + acc.nice_username@ + " ("@ + auth_type_name(acc.account_type)
                + ")"@)
        },
        None => match selected_of(a) {
            Some(sel) => if sel.account_type@ == "Offline"@ {
                let u = selected_player_name(sel, config_nice);
                (u, "LAUNCHING: offline account "@ + u)
            } else {
                match fallback {
                    Some(acc) => {
                        let u = launch_player_name(
                            acc.username@,
                            acc.nice_username@,
                            acc.account_type,
                        );
                        (u, "LAUNCHING: "@ + acc.nice_username@ + " ("@ + sel.account_type@
                            + ")"@)
                    },
                    None => {
                        let u = selected_player_name(sel, config_nice);
                        (u, "WARNING: Using "@ + u + " ("@ + sel.account_type@
                            + ") offline - may need re-auth"@)
                    },
                }
            },
            None => (
                "Player"@,
                "WARNING: No accounts available. Launching offline as 'Player'. Add account with 'a' then 'n'."@,
            ),
        },
    }
}

/// The account data the game is started with: the launch data if there is
/// some; else, for a selected non-offline account, its fallback data or
/// the minimal data (see `minimal_data_ok`); else none.
pub open spec fn final_data_ok(
    a: App,
    data: Option<AccountData>,
    fallback: Option<AccountData>,
    config_nice: Option<String>,
    r: Option<AccountData>,
) -> bool {
    if data is Some {
        r == data
    } else {
        match selected_of(a) {
            Some(sel) => if sel.account_type@ == "Offline"@ {
                r is None
            } else if fallback is Some {
                r == fallback
            } else {
                minimal_data_ok(sel, config_nice, r)
            },
            None => r is None,
        }
    }
}


impl App {
    /// The player name and status line of a launch (see
    /// `launch_name_and_status`).
    fn launch_name(
        &self,
        data: &Option<AccountData>,
        fallback: &Option<AccountData>,
        config_nice: &Option<String>,
    ) -> (r: (String, String))
        ensures
            ({
                let (u, st) = launch_name_and_status(*self, *data, *fallback, *config_nice);
                r.0@ == u && r.1@ == st
            }),
    {
        match data {
            Some(acc) => {
                let u = clean_username_for_launch(
                    acc.username.as_str(),
                    acc.nice_username.as_str(),
                    acc.account_type,
                );
                let mut st = concat3("LAUNCHING: ", acc.nice_username.as_str(), " (");
                push_str(&mut st, auth_type_label(acc.account_type));
                push_str(&mut st, ")");
                (u, st)
            },
            None => {
                if self.account_list.selected_account < self.account_list.accounts.len() {
                    let sel = &self.account_list.accounts[self.account_list.selected_account];
                    if str_eq(sel.account_type.as_str(), "Offline") {
                        let u = clean_username_for_selected_account(sel, config_nice);
                        let st = concat("LAUNCHING: offline account ", u.as_str());
                        (u, st)
                    } else {
                        match fallback {
                            Some(acc) => {
                                let u = clean_username_for_launch(
                                    acc.username.as_str(),
                                    acc.nice_username.as_str(),
                                    acc.account_type,
                                );
                                let mut st = concat3(
                                    "LAUNCHING: ",
                                    acc.nice_username.as_str(),
                                    " (",
                                );
                                push_str(&mut st, sel.account_type.as_str());
                                push_str(&mut st, ")");
                                (u, st)
                            },
                            None => {
                                let u = clean_username_for_selected_account(sel, config_nice);
                                let mut st = concat3("WARNING: Using ", u.as_str(), " (");
                                push_str(&mut st, sel.account_type.as_str());
                                push_str(&mut st, ") offline - may need re-auth");
                                (u, st)
                            },
                        }
                    }
                } else {
                    (
                        "Player".to_owned(),
                        "WARNING: No accounts available. Launching offline as 'Player'. Add account with 'a' then 'n'.".to_owned(),
                    )
                }
            },
        }
    }

    /// Starts launching an instance: picks the player name and the account
    /// data the game gets and says so in the status line. Without an event
    /// channel for background work nothing is launched and that is
    /// reported. `data` is `account_data_for_launch` of the selected
    /// account, `fallback` its `selected_account_data`, and `config_nice`
    /// its display name in the launcher config.
    pub fn launch_instance(
        &mut self,
        instance_name: &str,
        data: Option<AccountData>,
        fallback: Option<AccountData>,
        config_nice: Option<String>,
    ) -> (r: Option<LaunchRequest>)
        ensures
            ({
                let (u, status) = launch_name_and_status(
                    *old(self),
                    data,
                    fallback,
                    config_nice,
                );
                &&& *final(self) == (App { status_message: final(self).status_message, ..*old(self) })
                &&& if old(self).auth_channel_ready {
                    &&& final(self).status_message@ == status
                    &&& r matches Some(req) && req.instance_name@ == instance_name@
                        && req.username@ == u && final_data_ok(
                        *old(self),
                        data,
                        fallback,
                        config_nice,
                        req.account_data,
                    )
                } else {
                    &&& final(self).status_message@ == "❌ Authentication system not initialized"@
                    &&& r is None
                }
            }),
    {
        let (username, status) = self.launch_name(&data, &fallback, &config_nice);
        if !self.auth_channel_ready {
            self.status_message = "❌ Authentication system not initialized".to_owned();
            return None;
        }
        self.status_message = status;
        let final_data = if data.is_some() {
            data
        } else if self.account_list.selected_account < self.account_list.accounts.len() {
            let sel = &self.account_list.accounts[self.account_list.selected_account];
            if str_eq(sel.account_type.as_str(), "Offline") {
                None
            } else if fallback.is_some() {
                fallback
            } else {
                minimal_account_data(sel, &config_nice)
            }
        } else {
            None
        };
        Some(
            LaunchRequest {
                instance_name: instance_name.to_owned(),
                username,
                account_data: final_data,
            },
        )
    }
}
} // verus!
