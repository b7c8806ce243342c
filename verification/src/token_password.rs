//! The password prompt of the encrypted token store: typing, the check that
//! a new password was typed twice alike, and bringing the accounts of the
//! unlocked store into the account list.

use vstd::prelude::*;
use crate::accounts::str_eq;
use crate::args::views;
use crate::saved_accounts::{distinct_names, put_account, replaced_or_added, SavedLogin};

verus! {

/// The prompt: the password, the repeated password when a new store is
/// made, whether the password shows, the last error and whether the store
/// is being opened.
pub struct TokenPasswordMenu {
    pub password: String,
    pub confirm_password: Option<String>,
    pub show_password: bool,
    pub error: Option<String>,
    pub is_loading: bool,
}

/// What the opened store holds: its accounts by config key, their entries
/// of the account list, and the account selected in the config.
pub struct ReloadedAccounts {
    pub accounts: Vec<(String, SavedLogin)>,
    pub entries: Vec<String>,
    pub saved_selection: Option<String>,
}

/// The prompt (while it is shown) and the account list.
pub struct TokenPasswordState {
    pub prompt: Option<TokenPasswordMenu>,
    pub accounts: Vec<(String, SavedLogin)>,
    pub dropdown: Vec<String>,
    pub selected: Option<String>,
}

impl TokenPasswordState {
    /// No account key occurs twice.
    pub open spec fn wf(&self) -> bool {
        distinct_names(self.accounts@)
    }
}

pub enum TokenPasswordMsg {
    PasswordChanged(String),
    ConfirmPasswordChanged(String),
    ToggleShowPassword(bool),
    Submit,
    /// The store was made or unlocked and read, or it failed.
    SubmitDone(Result<ReloadedAccounts, String>),
    Skip,
}

pub enum TokenPasswordAction {
    Nothing,
    /// Make a new store locked by the password.
    CreateStore(String),
    /// Unlock the store with the password.
    UnlockStore(String),
    OpenLaunchScreen,
}

/// The login stored under `key`, if any.
pub open spec fn login_of(v: Seq<(String, SavedLogin)>, key: Seq<char>) -> Option<SavedLogin> {
    if exists|i: int| 0 <= i < v.len() && (#[trigger] v[i]).0@ == key {
        Some(v[choose|i: int| 0 <= i < v.len() && (#[trigger] v[i]).0@ == key].1)
    } else {
        None
    }
}

/// The login under `key` once the logins `new` are stored over `old`: the
/// last one of `new` under that key, else the one of `old`.
pub open spec fn merged_login(old: Seq<(String, SavedLogin)>, new: Seq<(String, SavedLogin)>, key: Seq<char>) -> Option<
    SavedLogin,
>
    decreases new.len(),
{
    if new.len() == 0 {
        login_of(old, key)
    } else if new.last().0@ == key {
        Some(new.last().1)
    } else {
        merged_login(old, new.drop_last(), key)
    }
}

/// The account list after the entries `e` are added in turn: one not in
/// the list yet goes to its top.
pub open spec fn with_entries(d: Seq<Seq<char>>, e: Seq<Seq<char>>) -> Seq<Seq<char>>
    decreases e.len(),
{
    if e.len() == 0 {
        d
    } else {
        let before = with_entries(d, e.drop_last());
        if before.contains(e.last()) {
            before
        } else {
            seq![e.last()] + before
        }
    }
}

/// The prompt edited by `f`, when it is shown.
pub open spec fn prompt_edited(o: TokenPasswordState, n: TokenPasswordState, f: spec_fn(TokenPasswordMenu) -> TokenPasswordMenu) -> bool {
    match o.prompt {
        Some(m) => n == (TokenPasswordState { prompt: Some(f(m)), ..o }),
        None => n == o,
    }
}

/// The next state and the work for a prompt message.
pub open spec fn token_password_effect(o: TokenPasswordState, msg: TokenPasswordMsg, n: TokenPasswordState, r: TokenPasswordAction) -> bool {
    match msg {
        TokenPasswordMsg::PasswordChanged(p) => r is Nothing && prompt_edited(
            o,
            n,
            |m: TokenPasswordMenu| TokenPasswordMenu { password: p, error: None, ..m },
        ),
        TokenPasswordMsg::ConfirmPasswordChanged(p) => r is Nothing && prompt_edited(
            o,
            n,
            |m: TokenPasswordMenu| TokenPasswordMenu {
                confirm_password: if m.confirm_password is Some { Some(p) } else { None },
                error: None,
                ..m
            },
        ),
        TokenPasswordMsg::ToggleShowPassword(t) => r is Nothing && prompt_edited(
            o,
            n,
            |m: TokenPasswordMenu| TokenPasswordMenu { show_password: t, ..m },
        ),
        TokenPasswordMsg::Submit => match o.prompt {
            Some(m) => match m.confirm_password {
                Some(c) => if m.password@ != c@ {
                    &&& r is Nothing
                    &&& n.accounts == o.accounts && n.dropdown == o.dropdown && n.selected == o.selected
                    &&& n.prompt matches Some(nm) && nm == (TokenPasswordMenu {
                        is_loading: false,
                        error: nm.error,
                        ..m
                    }) && (nm.error matches Some(e) && e@ == "Passwords do not match."@)
                } else {
                    &&& n == (TokenPasswordState { prompt: Some(TokenPasswordMenu { is_loading: true, ..m }), ..o })
                    &&& r matches TokenPasswordAction::CreateStore(p) && p@ == m.password@
                },
                None => {
                    &&& n == (TokenPasswordState { prompt: Some(TokenPasswordMenu { is_loading: true, ..m }), ..o })
                    &&& r matches TokenPasswordAction::UnlockStore(p) && p@ == m.password@
                },
            },
            None => n == o && r is Nothing,
        },
        TokenPasswordMsg::SubmitDone(res) => match o.prompt {
            Some(m) => match res {
                Ok(re) => {
                    &&& r is OpenLaunchScreen
                    &&& n.prompt == Some(TokenPasswordMenu { is_loading: false, ..m })
                    &&& distinct_names(n.accounts@)
                    &&& forall|k: Seq<char>| #[trigger] login_of(n.accounts@, k) == merged_login(o.accounts@, re.accounts@, k)
                    &&& views(n.dropdown@) == with_entries(views(o.dropdown@), views(re.entries@))
                    &&& n.selected == match re.saved_selection {
                        Some(s) => if login_of(n.accounts@, s@) is Some { Some(s) } else { o.selected },
                        None => o.selected,
                    }
                },
                Err(e) => r is Nothing && n == (TokenPasswordState {
                    prompt: Some(TokenPasswordMenu { is_loading: false, error: Some(e), ..m }),
                    ..o
                }),
            },
            None => n == o && r is Nothing,
        },
        TokenPasswordMsg::Skip => n == o && r is OpenLaunchScreen,
    }
}

/// Looking a key up after a login was stored under `key`.
pub(crate) proof fn lemma_put_login(o: Seq<(String, SavedLogin)>, n: Seq<(String, SavedLogin)>, key: Seq<char>, login: SavedLogin, k: Seq<char>)
    requires
        distinct_names(o),
        distinct_names(n),
        replaced_or_added(o, n, key),
        exists|i: int| 0 <= i < n.len() && (#[trigger] n[i]).0@ == key && n[i].1 == login,
    ensures
        login_of(n, k) == if k == key { Some(login) } else { login_of(o, k) },
{
    if k == key {
        let w = choose|i: int| 0 <= i < n.len() && (#[trigger] n[i]).0@ == key && n[i].1 == login;
        let c = choose|i: int| 0 <= i < n.len() && (#[trigger] n[i]).0@ == k;
        assert(n[w].0@ == k);
        if c != w {
            if c < w {
                assert(n[c].0@ != n[w].0@);
            } else {
                assert(n[w].0@ != n[c].0@);
            }
        }
    } else {
        let old_has = exists|i: int| 0 <= i < o.len() && (#[trigger] o[i]).0@ == key;
        if old_has {
            assert forall|i: int| 0 <= i < o.len() && (#[trigger] o[i]).0@ == k implies n[i] == o[i] by {}
            assert forall|i: int| 0 <= i < n.len() && (#[trigger] n[i]).0@ == k implies o[i] == n[i] by {
                if o[i].0@ == key {
                    assert(n[i].0@ == key);
                }
            }
        } else {
            assert forall|i: int| 0 <= i < o.len() && (#[trigger] o[i]).0@ == k implies n[i] == o[i] by {
                assert(n.drop_last()[i] == o[i]);
            }
            assert forall|i: int| 0 <= i < n.len() && (#[trigger] n[i]).0@ == k implies i < o.len() && o[i] == n[i] by {
                if i == o.len() {
                    assert(n.last().0@ == key);
                }
                assert(n.drop_last()[i] == o[i]);
            }
        }
        if exists|i: int| 0 <= i < o.len() && (#[trigger] o[i]).0@ == k {
            let a = choose|i: int| 0 <= i < o.len() && (#[trigger] o[i]).0@ == k;
            assert(n[a] == o[a]);
            let b = choose|i: int| 0 <= i < n.len() && (#[trigger] n[i]).0@ == k;
            assert(o[b] == n[b]);
            if a != b {
                if a < b {
                    assert(o[a].0@ != o[b].0@);
                } else {
                    assert(o[b].0@ != o[a].0@);
                }
            }
        } else {
            if exists|i: int| 0 <= i < n.len() && (#[trigger] n[i]).0@ == k {
                let b = choose|i: int| 0 <= i < n.len() && (#[trigger] n[i]).0@ == k;
                assert(o[b] == n[b]);
            }
        }
    }
}

pub(crate) fn copy_login(l: &SavedLogin) -> (r: SavedLogin)
    ensures
        r == *l,
{
    SavedLogin {
        access_token: match &l.access_token {
            Some(t) => Some(t.clone()),
            None => None,
        },
        uuid: l.uuid.clone(),
        refresh_token: l.refresh_token.clone(),
        needs_refresh: l.needs_refresh,
        account_type: l.account_type,
        username: l.username.clone(),
        nice_username: l.nice_username.clone(),
        custom_auth_url: match &l.custom_auth_url {
            Some(u) => Some(u.clone()),
            None => None,
        },
    }
}

/// Stores the logins `new` over `accounts` in turn.
fn merge_logins(accounts: &mut Vec<(String, SavedLogin)>, new: &Vec<(String, SavedLogin)>)
    requires
        distinct_names(old(accounts)@),
    ensures
        distinct_names(final(accounts)@),
        forall|k: Seq<char>| #[trigger] login_of(final(accounts)@, k) == merged_login(old(accounts)@, new@, k),
{
    let ghost start = accounts@;
    let mut i: usize = 0;
    while i < new.len()
        invariant
            i <= new@.len(),
            distinct_names(accounts@),
            forall|k: Seq<char>| #[trigger] login_of(accounts@, k) == merged_login(start, new@.take(i as int), k),
        decreases new.len() - i,
    {
        let ghost before = accounts@;
        let key = new[i].0.clone();
        let login = copy_login(&new[i].1);
        put_account(accounts, key, login);
        proof {
            let t = new@.take(i + 1);
            assert(t.drop_last() =~= new@.take(i as int));
            assert(t.last() == new@[i as int]);
            assert forall|k: Seq<char>| #[trigger] login_of(accounts@, k) == merged_login(start, t, k) by {
                lemma_put_login(before, accounts@, new@[i as int].0@, new@[i as int].1, k);
            }
        }
        i += 1;
    }
    assert(new@.take(new@.len() as int) =~= new@);
}

/// Whether the list holds the entry (executable).
fn holds_entry(d: &Vec<String>, e: &String) -> (r: bool)
    ensures
        r == views(d@).contains(e@),
{
    let mut i: usize = 0;
    while i < d.len()
        invariant
            i <= d@.len(),
            forall|j: int| 0 <= j < i ==> d@[j]@ != e@,
        decreases d.len() - i,
    {
        if str_eq(d[i].as_str(), e.as_str()) {
            assert(views(d@)[i as int] == e@);
            return true;
        }
        i += 1;
    }
    proof {
        if views(d@).contains(e@) {
            let j = choose|j: int| 0 <= j < views(d@).len() && views(d@)[j] == e@;
            assert(d@[j]@ == e@);
        }
    }
    false
}

/// Adds the entries to the top of the list (see `with_entries`).
fn add_entries(d: &mut Vec<String>, entries: &Vec<String>)
    ensures
        views(final(d)@) == with_entries(views(old(d)@), views(entries@)),
{
    let ghost start = views(d@);
    let mut i: usize = 0;
    while i < entries.len()
        invariant
            i <= entries@.len(),
            views(d@) == with_entries(start, views(entries@.take(i as int))),
        decreases entries.len() - i,
    {
        proof {
            assert(views(entries@.take(i + 1)).drop_last() =~= views(entries@.take(i as int)));
            assert(views(entries@.take(i + 1)).last() == entries@[i as int]@);
        }
        let ghost before = views(d@);
        if !holds_entry(d, &entries[i]) {
            d.insert(0, entries[i].clone());
            assert(views(d@) =~= seq![entries@[i as int]@] + before);
        }
        i += 1;
    }
    assert(entries@.take(entries@.len() as int) =~= entries@);
}

/// Whether an account is stored under the key (executable).
fn has_login(v: &Vec<(String, SavedLogin)>, key: &String) -> (r: bool)
    ensures
        r == (login_of(v@, key@) is Some),
{
    let mut i: usize = 0;
    while i < v.len()
        invariant
            i <= v@.len(),
            forall|j: int| 0 <= j < i ==> (#[trigger] v@[j]).0@ != key@,
        decreases v.len() - i,
    {
        if str_eq(v[i].0.as_str(), key.as_str()) {
            assert(v@[i as int].0@ == key@);
            return true;
        }
        i += 1;
    }
    false
}

/// One step of the password prompt (see `token_password_effect`).
pub fn token_password_step(s: &mut TokenPasswordState, msg: TokenPasswordMsg) -> (r: TokenPasswordAction)
    requires
        old(s).wf(),
    ensures
        final(s).wf(),
        token_password_effect(*old(s), msg, *final(s), r),
{
    match msg {
        TokenPasswordMsg::PasswordChanged(p) => {
            if let Some(m) = &mut s.prompt {
                m.password = p;
                m.error = None;
            }
            TokenPasswordAction::Nothing
        },
        TokenPasswordMsg::ConfirmPasswordChanged(p) => {
            if let Some(m) = &mut s.prompt {
                if m.confirm_password.is_some() {
                    m.confirm_password = Some(p);
                }
                m.error = None;
            }
            TokenPasswordAction::Nothing
        },
        TokenPasswordMsg::ToggleShowPassword(t) => {
            if let Some(m) = &mut s.prompt {
                m.show_password = t;
            }
            TokenPasswordAction::Nothing
        },
        TokenPasswordMsg::Submit => {
            if let Some(m) = &mut s.prompt {
                m.is_loading = true;
                let password = m.password.clone();
                let confirm = match &m.confirm_password {
                    Some(c) => Some(c.clone()),
                    None => None,
                };
                match confirm {
                    Some(c) => {
                        if !str_eq(password.as_str(), c.as_str()) {
                            m.is_loading = false;
                            m.error = Some("Passwords do not match.".to_owned());
                            TokenPasswordAction::Nothing
                        } else {
                            TokenPasswordAction::CreateStore(password)
                        }
                    },
                    None => TokenPasswordAction::UnlockStore(password),
                }
            } else {
                TokenPasswordAction::Nothing
            }
        },
        TokenPasswordMsg::SubmitDone(res) => {
            if s.prompt.is_none() {
                return TokenPasswordAction::Nothing;
            }
            match res {
                Ok(re) => {
                    if let Some(m) = &mut s.prompt {
                        m.is_loading = false;
                    }
                    merge_logins(&mut s.accounts, &re.accounts);
                    add_entries(&mut s.dropdown, &re.entries);
                    if let Some(saved) = re.saved_selection {
                        if has_login(&s.accounts, &saved) {
                            s.selected = Some(saved);
                        }
                    }
                    TokenPasswordAction::OpenLaunchScreen
                },
                Err(e) => {
                    if let Some(m) = &mut s.prompt {
                        m.is_loading = false;
                        m.error = Some(e);
                    }
                    TokenPasswordAction::Nothing
                },
            }
        },
        TokenPasswordMsg::Skip => TokenPasswordAction::OpenLaunchScreen,
    }
}

} // verus!
