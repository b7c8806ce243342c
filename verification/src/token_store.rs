//! Where account tokens are kept (the system keyring or an encrypted file),
//! and what switching between them or deleting the encrypted file does to
//! the account list.

use vstd::prelude::*;
use crate::accounts::str_eq;
use crate::args::views;
use crate::gui_accounts::{new_account_entry_name, new_account_name, offline_account_name, offline_name};
use crate::saved_accounts::SavedLogin;
use crate::token_password::{copy_login, TokenPasswordMenu};

verus! {

/// Where tokens are stored.
#[derive(Debug, Clone, Copy, PartialEq, Eq, Structural)]
pub enum TokenStorage {
    Keyring,
    EncryptedFile,
}

/// The screens the messages open; `Other` stands for any other.
pub enum TokenScreen {
    Prompt(TokenPasswordMenu),
    /// A confirmation: what is done and its explanation; "yes" deletes the
    /// encrypted store, "no" opens the security settings.
    ConfirmDelete { msg1: String, msg2: String },
    Settings,
    Other,
}

/// The token storage settings and the account list.
pub struct TokenStoreState {
    pub screen: TokenScreen,
    /// The storage picked in the config, if one was.
    pub token_storage: Option<TokenStorage>,
    /// The account entries of the config, with where each keeps its token
    /// (`None`: the config has no account table).
    pub config_accounts: Option<Vec<(String, TokenStorage)>>,
    pub accounts: Vec<(String, SavedLogin)>,
    pub dropdown: Vec<String>,
    pub selected: Option<String>,
    pub keyring_available: bool,
}

pub enum TokenStoreMsg {
    /// At startup: the storage in force, whether the encrypted store is
    /// unlocked and whether its file exists.
    TokenEnsureLoaded { storage: TokenStorage, unlocked: bool, file_exists: bool },
    TokenStorageChanged(TokenStorage),
    /// The accounts read from the storage now in force: the accounts, the
    /// account list, the selection, whether reading the keyring failed and,
    /// for the keyring, whether it is available.
    AccountsReloaded {
        storage: TokenStorage,
        accounts: Vec<(String, SavedLogin)>,
        dropdown: Vec<String>,
        selected: Option<String>,
        keyring_failed: bool,
        keyring_available: bool,
    },
    SetupEncryptedStore,
    UnlockEncryptedStore,
    DeleteEncryptedStore,
    DeleteEncryptedStoreConfirm,
    /// The encrypted store's file was deleted (and the store locked), or
    /// deleting it failed.
    StoreDeleted(Result<(), String>),
}

pub enum TokenStoreAction {
    Nothing,
    /// Keep tokens there from now on and read the accounts from it.
    UseStorage(TokenStorage),
    /// Delete the encrypted store's file and lock the store.
    DeleteStore,
    ShowError(String),
}

/// A prompt with nothing typed; `confirm` for a new store.
pub open spec fn fresh_prompt(m: TokenPasswordMenu, confirm: bool) -> bool {
    &&& m.password@.len() == 0
    &&& if confirm { m.confirm_password matches Some(c) && c@.len() == 0 } else { m.confirm_password is None }
    &&& !m.show_password
    &&& m.error is None
    &&& !m.is_loading
}

/// Whether the entries hold the key.
pub open spec fn has_key<V>(v: Seq<(String, V)>, k: Seq<char>) -> bool {
    exists|i: int| 0 <= i < v.len() && (#[trigger] v[i]).0@ == k
}

/// The config entries that do not keep their token in the encrypted file.
pub open spec fn kept_entries(c: Seq<(String, TokenStorage)>) -> Seq<(String, TokenStorage)> {
    c.filter(|e: (String, TokenStorage)| e.1 != TokenStorage::EncryptedFile)
}

/// Whether an account is among the kept config entries.
pub open spec fn still_configured(kept: Option<Seq<(String, TokenStorage)>>) -> spec_fn((String, SavedLogin)) -> bool {
    |e: (String, SavedLogin)| kept matches Some(c) && has_key(c, e.0@)
}

/// Whether a list entry stays: an account that is there, or one of the two
/// fixed entries.
pub open spec fn still_listed(accounts: Seq<(String, SavedLogin)>) -> spec_fn(Seq<char>) -> bool {
    |x: Seq<char>| has_key(accounts, x) || x == offline_name() || x == new_account_name()
}

/// The config entries as sequences.
pub open spec fn entries_view(c: Option<Vec<(String, TokenStorage)>>) -> Option<Seq<(String, TokenStorage)>> {
    match c {
        Some(v) => Some(v@),
        None => None,
    }
}

/// The next state and the work for a token storage message.
pub open spec fn token_store_effect(o: TokenStoreState, msg: TokenStoreMsg, n: TokenStoreState, r: TokenStoreAction) -> bool {
    match msg {
        TokenStoreMsg::TokenEnsureLoaded { storage, unlocked, file_exists } => r is Nothing && if storage
            == TokenStorage::EncryptedFile && !unlocked && file_exists {
            n == (TokenStoreState { screen: n.screen, ..o }) && (n.screen matches TokenScreen::Prompt(m) && fresh_prompt(m, false))
        } else {
            n == o
        },
        TokenStoreMsg::TokenStorageChanged(s) => n == (TokenStoreState { token_storage: Some(s), ..o })
            && r == TokenStoreAction::UseStorage(s),
        TokenStoreMsg::AccountsReloaded { storage, accounts, dropdown, selected, keyring_failed, keyring_available } => {
            &&& r is Nothing
            &&& n == (TokenStoreState {
                accounts,
                dropdown,
                selected,
                keyring_available: if keyring_failed {
                    false
                } else if storage == TokenStorage::Keyring {
                    keyring_available
                } else {
                    o.keyring_available
                },
                ..o
            })
        },
        TokenStoreMsg::SetupEncryptedStore => r is Nothing && n == (TokenStoreState { screen: n.screen, ..o })
            && (n.screen matches TokenScreen::Prompt(m) && fresh_prompt(m, true)),
        TokenStoreMsg::UnlockEncryptedStore => r is Nothing && n == (TokenStoreState { screen: n.screen, ..o })
            && (n.screen matches TokenScreen::Prompt(m) && fresh_prompt(m, false)),
        TokenStoreMsg::DeleteEncryptedStore => r is Nothing && n == (TokenStoreState { screen: n.screen, ..o })
            && (n.screen matches TokenScreen::ConfirmDelete { msg1, msg2 } && msg1@ == "delete the encrypted token store"@
                && msg2@ == "All accounts using encrypted storage will be removed from the launcher."@),
        TokenStoreMsg::DeleteEncryptedStoreConfirm => n == o && r is DeleteStore,
        TokenStoreMsg::StoreDeleted(Err(e)) => n == o && (r matches TokenStoreAction::ShowError(t)
            && t@ == "Could not delete encrypted store: "@ + e@),
        TokenStoreMsg::StoreDeleted(Ok(())) => {
            let kept: Option<Seq<(String, TokenStorage)>> = match o.config_accounts {
                Some(c) => Some(kept_entries(c@)),
                None => None,
            };
            &&& r == TokenStoreAction::UseStorage(TokenStorage::Keyring)
            &&& n == (TokenStoreState {
                screen: TokenScreen::Settings,
                token_storage: Some(TokenStorage::Keyring),
                config_accounts: n.config_accounts,
                accounts: n.accounts,
                dropdown: n.dropdown,
                ..o
            })
            &&& entries_view(n.config_accounts) == kept
            &&& n.accounts@ == o.accounts@.filter(still_configured(kept))
            &&& views(n.dropdown@) == views(o.dropdown@).filter(still_listed(n.accounts@))
        },
    }
}

fn fresh(confirm: bool) -> (m: TokenPasswordMenu)
    ensures
        fresh_prompt(m, confirm),
{
    TokenPasswordMenu {
        password: String::new(),
        confirm_password: if confirm { Some(String::new()) } else { None },
        show_password: false,
        error: None,
        is_loading: false,
    }
}

fn keep_config_entries(c: &Vec<(String, TokenStorage)>) -> (r: Vec<(String, TokenStorage)>)
    ensures
        r@ == kept_entries(c@),
{
    let ghost pred = |e: (String, TokenStorage)| e.1 != TokenStorage::EncryptedFile;
    let mut out: Vec<(String, TokenStorage)> = Vec::new();
    let mut i: usize = 0;
    while i < c.len()
        invariant
            i <= c@.len(),
            pred == (|e: (String, TokenStorage)| e.1 != TokenStorage::EncryptedFile),
            out@ == c@.take(i as int).filter(pred),
        decreases c.len() - i,
    {
        proof {
            assert(c@.take(i + 1) == c@.take(i as int).push(c@[i as int]));
            c@.take(i as int).lemma_filter_push(c@[i as int], pred);
        }
        if c[i].1 != TokenStorage::EncryptedFile {
            out.push((c[i].0.clone(), c[i].1));
        }
        i += 1;
    }
    assert(c@.take(c@.len() as int) == c@);
    out
}

fn holds_key<V>(v: &Vec<(String, V)>, k: &str) -> (r: bool)
    ensures
        r == has_key(v@, k@),
{
    let mut i: usize = 0;
    while i < v.len()
        invariant
            i <= v@.len(),
            forall|j: int| 0 <= j < i ==> (#[trigger] v@[j]).0@ != k@,
        decreases v.len() - i,
    {
        if str_eq(v[i].0.as_str(), k) {
            assert(v@[i as int].0@ == k@);
            return true;
        }
        i += 1;
    }
    false
}

/// The accounts still in the config.
fn keep_accounts(a: &Vec<(String, SavedLogin)>, kept: &Option<Vec<(String, TokenStorage)>>) -> (r: Vec<(String, SavedLogin)>)
    ensures
        r@ == a@.filter(still_configured(entries_view(*kept))),
{
    let ghost pred = still_configured(entries_view(*kept));
    let mut out: Vec<(String, SavedLogin)> = Vec::new();
    let mut i: usize = 0;
    while i < a.len()
        invariant
            i <= a@.len(),
            pred == still_configured(entries_view(*kept)),
            out@ == a@.take(i as int).filter(pred),
        decreases a.len() - i,
    {
        proof {
            assert(a@.take(i + 1) == a@.take(i as int).push(a@[i as int]));
            a@.take(i as int).lemma_filter_push(a@[i as int], pred);
        }
        let keep = match kept {
            Some(c) => holds_key(c, a[i].0.as_str()),
            None => false,
        };
        if keep {
            let e = (a[i].0.clone(), copy_login(&a[i].1));
            assert(e == a@[i as int]);
            out.push(e);
        }
        i += 1;
    }
    assert(a@.take(a@.len() as int) == a@);
    out
}

/// The list entries of accounts still there, and the two fixed entries.
fn keep_entries(d: &Vec<String>, accounts: &Vec<(String, SavedLogin)>) -> (r: Vec<String>)
    ensures
        views(r@) == views(d@).filter(still_listed(accounts@)),
{
    let ghost pred = still_listed(accounts@);
    let mut out: Vec<String> = Vec::new();
    let mut i: usize = 0;
    while i < d.len()
        invariant
            i <= d@.len(),
            pred == still_listed(accounts@),
            views(out@) == views(d@).take(i as int).filter(pred),
        decreases d.len() - i,
    {
        proof {
            assert(views(d@).take(i + 1) == views(d@).take(i as int).push(d@[i as int]@));
            views(d@).take(i as int).lemma_filter_push(d@[i as int]@, pred);
        }
        let keep = holds_key(accounts, d[i].as_str()) || str_eq(d[i].as_str(), offline_account_name())
            || str_eq(d[i].as_str(), new_account_entry_name());
        if keep {
            let ghost before = out@;
            out.push(d[i].clone());
            assert(views(out@) =~= views(before).push(d@[i as int]@));
        }
        i += 1;
    }
    assert(views(d@).take(d@.len() as int) =~= views(d@));
    out
}

/// One step of the token storage settings (see `token_store_effect`).
pub fn token_store_step(s: &mut TokenStoreState, msg: TokenStoreMsg) -> (r: TokenStoreAction)
    ensures
        token_store_effect(*old(s), msg, *final(s), r),
{
    match msg {
        TokenStoreMsg::TokenEnsureLoaded { storage, unlocked, file_exists } => {
            if storage == TokenStorage::EncryptedFile && !unlocked && file_exists {
                s.screen = TokenScreen::Prompt(fresh(false));
            }
            TokenStoreAction::Nothing
        },
        TokenStoreMsg::TokenStorageChanged(t) => {
            s.token_storage = Some(t);
            TokenStoreAction::UseStorage(t)
        },
        TokenStoreMsg::AccountsReloaded { storage, accounts, dropdown, selected, keyring_failed, keyring_available } => {
            s.accounts = accounts;
            s.dropdown = dropdown;
            s.selected = selected;
            if keyring_failed {
                s.keyring_available = false;
            } else if storage == TokenStorage::Keyring {
                s.keyring_available = keyring_available;
            }
            TokenStoreAction::Nothing
        },
        TokenStoreMsg::SetupEncryptedStore => {
            s.screen = TokenScreen::Prompt(fresh(true));
            TokenStoreAction::Nothing
        },
        TokenStoreMsg::UnlockEncryptedStore => {
            s.screen = TokenScreen::Prompt(fresh(false));
            TokenStoreAction::Nothing
        },
        TokenStoreMsg::DeleteEncryptedStore => {
            s.screen = TokenScreen::ConfirmDelete {
                msg1: "delete the encrypted token store".to_owned(),
                msg2: "All accounts using encrypted storage will be removed from the launcher.".to_owned(),
            };
            TokenStoreAction::Nothing
        },
        TokenStoreMsg::DeleteEncryptedStoreConfirm => TokenStoreAction::DeleteStore,
        TokenStoreMsg::StoreDeleted(Err(e)) => {
            TokenStoreAction::ShowError(crate::text::concat("Could not delete encrypted store: ", e.as_str()))
        },
        TokenStoreMsg::StoreDeleted(Ok(())) => {
            let kept = match &s.config_accounts {
                Some(c) => Some(keep_config_entries(c)),
                None => None,
            };
            let accounts = keep_accounts(&s.accounts, &kept);
            let dropdown = keep_entries(&s.dropdown, &accounts);
            s.config_accounts = kept;
            s.accounts = accounts;
            s.dropdown = dropdown;
            s.token_storage = Some(TokenStorage::Keyring);
            s.screen = TokenScreen::Settings;
            TokenStoreAction::UseStorage(TokenStorage::Keyring)
        },
    }
}

} // verus!
