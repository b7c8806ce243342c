//! Loading the accounts saved in the launcher config at startup: which
//! stored token belongs to an account, and what a found or missing token
//! makes of it.
use vstd::prelude::*;
use crate::accounts::{str_eq, strip_suffix_or_keep, strip_suffix_or_keep_exec};
use crate::text::chars_of;

verus! {

/// The login services of saved accounts.
#[derive(Debug, Clone, Copy, PartialEq, Eq, Structural)]
pub enum SavedAccountType {
    Microsoft,
    ElyBy,
    LittleSkin,
    BlessingSkin,
}

/// An account entry of the launcher config.
pub struct SavedAccountEntry {
    /// "ElyBy", "LittleSkin", "BlessingSkin", or another name (Microsoft).
    pub account_type: Option<String>,
    pub uuid: String,
    pub username_nice: Option<String>,
    /// The authentication server of a Blessing Skin account.
    pub custom_auth_url: Option<String>,
}

/// A loaded account, ready to have its token refreshed.
pub struct SavedLogin {
    pub access_token: Option<String>,
    pub uuid: String,
    pub refresh_token: String,
    pub needs_refresh: bool,
    pub account_type: SavedAccountType,
    /// The name the token is stored under.
    pub username: String,
    pub nice_username: String,
    pub custom_auth_url: Option<String>,
}

/// The stored token to look up for an account: its service, the name it is
/// stored under, and for Blessing Skin the server.
pub struct TokenQuery {
    pub account_type: SavedAccountType,
    pub username: String,
    pub auth_url: Option<String>,
}

/// Whether the config names this account type.
pub open spec fn type_named(t: Option<String>, name: Seq<char>) -> bool {
    t matches Some(s) && s@ == name
}

/// The service of a saved account: its recorded type, or else the marker
/// at the end of its config key.
pub open spec fn saved_type_of(username: Seq<char>, t: Option<String>) -> SavedAccountType {
    if type_named(t, "ElyBy"@) || " (elyby)"@.is_suffix_of(username) {
        SavedAccountType::ElyBy
    } else if type_named(t, "LittleSkin"@) || " (littleskin)"@.is_suffix_of(username) {
        SavedAccountType::LittleSkin
    } else if type_named(t, "BlessingSkin"@) || " (blessing)"@.is_suffix_of(username) {
        SavedAccountType::BlessingSkin
    } else {
        SavedAccountType::Microsoft
    }
}

/// The name a token is stored under: the config key without the marker of
/// its service.
pub open spec fn login_name(username: Seq<char>, t: SavedAccountType) -> Seq<char> {
    match t {
        SavedAccountType::ElyBy => strip_suffix_or_keep(username, " (elyby)"@),
        SavedAccountType::LittleSkin => strip_suffix_or_keep(username, " (littleskin)"@),
        SavedAccountType::BlessingSkin => strip_suffix_or_keep(username, " (blessing)"@),
        SavedAccountType::Microsoft => username,
    }
}

/// Whether `q` is the token lookup for the saved account: the service, the
/// stored name, and the server for a Blessing Skin account.
pub open spec fn query_for(username: Seq<char>, e: SavedAccountEntry, q: TokenQuery) -> bool {
    let t = saved_type_of(username, e.account_type);
    &&& q.account_type == t
    &&& q.username@ == login_name(username, t)
    &&& match q.auth_url {
        Some(u) => t == SavedAccountType::BlessingSkin && (e.custom_auth_url matches Some(c) && u@ == c@),
        None => t != SavedAccountType::BlessingSkin,
    }
}

/// Whether `l` is the account loaded from the entry with the token `tok`.
pub open spec fn loaded_from(username: Seq<char>, e: SavedAccountEntry, tok: Seq<char>, l: SavedLogin) -> bool {
    let t = saved_type_of(username, e.account_type);
    let name = login_name(username, t);
    &&& l.access_token is None
    &&& l.uuid@ == e.uuid@
    &&& l.refresh_token@ == tok
    &&& l.needs_refresh
    &&& l.account_type == t
    &&& l.username@ == name
    &&& l.nice_username@ == match e.username_nice {
        Some(n) => n@,
        None => name,
    }
    &&& match l.custom_auth_url {
        Some(u) => t == SavedAccountType::BlessingSkin && (e.custom_auth_url matches Some(c) && u@ == c@),
        None => t != SavedAccountType::BlessingSkin || e.custom_auth_url is None,
    }
}

/// No key occurs twice among the keyed entries.
pub open spec fn distinct_names<V>(v: Seq<(String, V)>) -> bool {
    forall|i: int, j: int| 0 <= i < j < v.len() ==> (#[trigger] v[i]).0@ != (#[trigger] v[j]).0@
}

fn ends_with_marker(s: &str, marker: &str) -> (r: bool)
    requires
        marker@.len() > 0,
    ensures
        r == marker@.is_suffix_of(s@),
{
    let stripped = strip_suffix_or_keep_exec(s, marker);
    chars_of(stripped.as_str()).len() < chars_of(s).len()
}

fn type_is(t: &Option<String>, name: &str) -> (r: bool)
    ensures
        r == type_named(*t, name@),
{
    match t {
        Some(s) => str_eq(s.as_str(), name),
        None => false,
    }
}

fn copy_opt(o: &Option<String>) -> (r: Option<String>)
    ensures
        r == *o,
{
    match o {
        Some(s) => Some(s.clone()),
        None => None,
    }
}

/// The service of a saved account (see `saved_type_of`).
pub fn saved_account_type(username: &str, account_type: &Option<String>) -> (r: SavedAccountType)
    ensures
        r == saved_type_of(username@, *account_type),
{
    proof {
        reveal_strlit(" (elyby)");
        reveal_strlit(" (littleskin)");
        reveal_strlit(" (blessing)");
    }
    if type_is(account_type, "ElyBy") || ends_with_marker(username, " (elyby)") {
        SavedAccountType::ElyBy
    } else if type_is(account_type, "LittleSkin") || ends_with_marker(username, " (littleskin)") {
        SavedAccountType::LittleSkin
    } else if type_is(account_type, "BlessingSkin") || ends_with_marker(username, " (blessing)") {
        SavedAccountType::BlessingSkin
    } else {
        SavedAccountType::Microsoft
    }
}

fn stored_name(username: &str, t: SavedAccountType) -> (r: String)
    ensures
        r@ == login_name(username@, t),
{
    match t {
        SavedAccountType::ElyBy => strip_suffix_or_keep_exec(username, " (elyby)"),
        SavedAccountType::LittleSkin => strip_suffix_or_keep_exec(username, " (littleskin)"),
        SavedAccountType::BlessingSkin => strip_suffix_or_keep_exec(username, " (blessing)"),
        SavedAccountType::Microsoft => username.to_owned(),
    }
}

/// The token lookup for a saved account; none for a Blessing Skin account
/// whose server is not recorded, which cannot be loaded.
pub fn token_query(username: &str, entry: &SavedAccountEntry) -> (r: Option<TokenQuery>)
    ensures
        r is None <==> (saved_type_of(username@, entry.account_type) == SavedAccountType::BlessingSkin
            && entry.custom_auth_url is None),
        r matches Some(q) ==> query_for(username@, *entry, q),
{
    let t = saved_account_type(username, &entry.account_type);
    let auth_url = if t == SavedAccountType::BlessingSkin {
        match &entry.custom_auth_url {
            Some(u) => Some(u.clone()),
            None => {
                return None;
            },
        }
    } else {
        None
    };
    Some(TokenQuery { account_type: t, username: stored_name(username, t), auth_url })
}

/// Loads one saved account, given the result of looking up its stored token
/// (`token_query`): with a token it is added under its config key (in place
/// of an account of that key) and put first in the account list; without
/// one its key joins the accounts to remove from the config. A Blessing
/// Skin account without a recorded server changes nothing.
pub fn load_account(
    accounts: &mut Vec<(String, SavedLogin)>,
    accounts_dropdown: &mut Vec<String>,
    accounts_to_remove: &mut Vec<String>,
    username: &str,
    entry: &SavedAccountEntry,
    token: Result<String, String>,
)
    requires
        distinct_names(old(accounts)@),
    ensures
        distinct_names(final(accounts)@),
        ({
            let skipped = saved_type_of(username@, entry.account_type) == SavedAccountType::BlessingSkin
                && entry.custom_auth_url is None;
            if skipped {
                &&& final(accounts)@ == old(accounts)@
                &&& final(accounts_dropdown)@ == old(accounts_dropdown)@
                &&& final(accounts_to_remove)@ == old(accounts_to_remove)@
            } else {
                match token {
                    Ok(tok) => {
                        &&& final(accounts_to_remove)@ == old(accounts_to_remove)@
                        &&& final(accounts_dropdown)@.len() == old(accounts_dropdown)@.len() + 1
                        &&& final(accounts_dropdown)@[0]@ == username@
                        &&& final(accounts_dropdown)@.drop_first() == old(accounts_dropdown)@
                        &&& replaced_or_added(old(accounts)@, final(accounts)@, username@)
                        &&& exists|i: int| 0 <= i < final(accounts)@.len()
                            && (#[trigger] final(accounts)@[i]).0@ == username@
                            && loaded_from(username@, *entry, tok@, final(accounts)@[i].1)
                    },
                    Err(_) => {
                        &&& final(accounts)@ == old(accounts)@
                        &&& final(accounts_dropdown)@ == old(accounts_dropdown)@
                        &&& final(accounts_to_remove)@.len() == old(accounts_to_remove)@.len() + 1
                        &&& final(accounts_to_remove)@.drop_last() == old(accounts_to_remove)@
                        &&& final(accounts_to_remove)@.last()@ == username@
                    },
                }
            }
        }),
{
    let Some(query) = token_query(username, entry) else {
        return;
    };
    match token {
        Ok(refresh_token) => {
            accounts_dropdown.insert(0, username.to_owned());
            let nice_username = match &entry.username_nice {
                Some(n) => n.clone(),
                None => query.username.clone(),
            };
            let login = SavedLogin {
                access_token: None,
                uuid: entry.uuid.clone(),
                refresh_token,
                needs_refresh: true,
                account_type: query.account_type,
                username: query.username,
                nice_username,
                custom_auth_url: if query.account_type == SavedAccountType::BlessingSkin {
                    copy_opt(&entry.custom_auth_url)
                } else {
                    None
                },
            };
            put_account(accounts, username.to_owned(), login);
        },
        Err(_) => {
            accounts_to_remove.push(username.to_owned());
        },
    }
}

/// The entries after one was stored under `key`: an entry of that key is
/// replaced in place, or else the new one is appended; the others stay.
pub open spec fn replaced_or_added<V>(o: Seq<(String, V)>, n: Seq<(String, V)>, key: Seq<char>) -> bool {
    if exists|i: int| 0 <= i < o.len() && (#[trigger] o[i]).0@ == key {
        &&& n.len() == o.len()
        &&& forall|j: int| 0 <= j < o.len() && o[j].0@ != key ==> #[trigger] n[j] == o[j]
        &&& forall|j: int| 0 <= j < o.len() && o[j].0@ == key ==> (#[trigger] n[j]).0@ == key
    } else {
        &&& n.len() == o.len() + 1
        &&& n.drop_last() == o
        &&& n.last().0@ == key
    }
}

/// Stores a value under its key, replacing one of that key.
pub fn put_account<V>(accounts: &mut Vec<(String, V)>, key: String, login: V)
    requires
        distinct_names(old(accounts)@),
    ensures
        distinct_names(final(accounts)@),
        replaced_or_added(old(accounts)@, final(accounts)@, key@),
        exists|i: int| 0 <= i < final(accounts)@.len() && (#[trigger] final(accounts)@[i]).0@ == key@
            && final(accounts)@[i].1 == login,
{
    let ghost k = key@;
    let mut i: usize = 0;
    while i < accounts.len()
        invariant
            i <= accounts@.len(),
            k == key@,
            accounts@ == old(accounts)@,
            distinct_names(old(accounts)@),
            forall|j: int| 0 <= j < i ==> (#[trigger] accounts@[j]).0@ != key@,
        decreases accounts.len() - i,
    {
        if str_eq(accounts[i].0.as_str(), key.as_str()) {
            let ghost before = accounts@;
            accounts.set(i, (key, login));
            proof {
                assert(before[i as int].0@ == k);
                assert forall|a: int, b: int| 0 <= a < b < accounts@.len() implies (#[trigger] accounts@[a]).0@
                    != (#[trigger] accounts@[b]).0@ by {
                    assert(before[a].0@ != before[b].0@);
                }
                assert forall|j: int| 0 <= j < before.len() && before[j].0@ == k implies j == i by {
                    if j != i {
                        if j < i {
                            assert(before[j].0@ != before[i as int].0@);
                        } else {
                            assert(before[i as int].0@ != before[j].0@);
                        }
                    }
                }
                assert(accounts@[i as int].0@ == k);
            }
            return;
        }
        i += 1;
    }
    let ghost before = accounts@;
    accounts.push((key, login));
    proof {
        assert forall|a: int, b: int| 0 <= a < b < accounts@.len() implies (#[trigger] accounts@[a]).0@
            != (#[trigger] accounts@[b]).0@ by {
            if b == before.len() {
                assert(accounts@[a] == before[a]);
            } else {
                assert(before[a].0@ != before[b].0@);
            }
        }
        assert(!(exists|j: int| 0 <= j < before.len() && (#[trigger] before[j]).0@ == k));
        assert(accounts@.drop_last() =~= before);
        assert(accounts@[before.len() as int].0@ == k);
    }
}

} // verus!
