//! What the launcher window starts on: the first screen (the welcome
//! screen, the changelog after an update, or the launch screen), and the
//! accounts of the config, loaded with their stored tokens.

use vstd::prelude::*;
use crate::accounts::str_eq;
use crate::args::views;
use crate::gui_accounts::{new_account_entry_name, new_account_name, offline_account_name, offline_name};
use crate::saved_accounts::{
    distinct_names, load_account, loaded_from, saved_type_of, SavedAccountEntry, SavedAccountType, SavedLogin,
};
use crate::token_password::{lemma_put_login, login_of};

verus! {

/// The first screen.
pub enum StartScreen {
    Welcome,
    /// The launch screen, with the message given to show on it.
    Launch(Option<String>),
    ChangeLog,
}

/// The launcher version recorded in the config is `current` (a config
/// without one was written by version 0.3.0).
pub open spec fn already_seen(version: Option<String>, current: Seq<char>) -> bool {
    match version {
        Some(v) => v@ == current,
        None => "0.3.0"@ == current,
    }
}

/// The first screen: the welcome screen for a new user, the changelog once
/// after an update (the config then records the running version), else the
/// launch screen.
pub fn startup_screen(message: Option<String>, is_new_user: bool, config_version: &mut Option<String>, current: &str) -> (r:
    StartScreen)
    ensures
        if is_new_user {
            r is Welcome && *final(config_version) == *old(config_version)
        } else if already_seen(*old(config_version), current@) {
            r == StartScreen::Launch(message) && *final(config_version) == *old(config_version)
        } else {
            r is ChangeLog && (*final(config_version) matches Some(v) && v@ == current@)
        },
{
    if is_new_user {
        return StartScreen::Welcome;
    }
    let seen = match config_version {
        Some(v) => str_eq(v.as_str(), current),
        None => str_eq("0.3.0", current),
    };
    if seen {
        StartScreen::Launch(message)
    } else {
        *config_version = Some(current.to_owned());
        StartScreen::ChangeLog
    }
}

/// An account is left out: a Blessing Skin account whose server is not
/// recorded.
pub open spec fn skipped(key: Seq<char>, e: SavedAccountEntry) -> bool {
    saved_type_of(key, e.account_type) == SavedAccountType::BlessingSkin && e.custom_auth_url is None
}

/// An account is loaded: not left out, and its token was found.
pub open spec fn loaded_ok(key: Seq<char>, e: SavedAccountEntry, tok: Result<String, String>) -> bool {
    !skipped(key, e) && tok is Ok
}

/// An account is dropped from the config: not left out, and its token was
/// not found.
pub open spec fn dropped(key: Seq<char>, e: SavedAccountEntry, tok: Result<String, String>) -> bool {
    !skipped(key, e) && tok is Err
}

/// The account list after loading: the loaded accounts, the last loaded
/// first, then the offline entry and the entry that adds an account.
pub open spec fn startup_dropdown(c: Seq<(String, SavedAccountEntry)>, t: Seq<Result<String, String>>) -> Seq<Seq<char>>
    decreases c.len(),
{
    if c.len() == 0 || t.len() == 0 {
        seq![offline_name(), new_account_name()]
    } else {
        let d = startup_dropdown(c.drop_last(), t.drop_last());
        if loaded_ok(c.last().0@, c.last().1, t.last()) {
            seq![c.last().0@] + d
        } else {
            d
        }
    }
}

/// The list always holds the two fixed entries.
proof fn lemma_dropdown_len(c: Seq<(String, SavedAccountEntry)>, t: Seq<Result<String, String>>)
    ensures
        startup_dropdown(c, t).len() >= 2,
    decreases c.len(),
{
    if c.len() > 0 && t.len() > 0 {
        lemma_dropdown_len(c.drop_last(), t.drop_last());
    }
}

/// The keys of the accounts dropped from the config, in order.
pub open spec fn dropped_keys(c: Seq<(String, SavedAccountEntry)>, t: Seq<Result<String, String>>) -> Seq<Seq<char>>
    decreases c.len(),
{
    if c.len() == 0 || t.len() == 0 {
        Seq::empty()
    } else {
        let d = dropped_keys(c.drop_last(), t.drop_last());
        if dropped(c.last().0@, c.last().1, t.last()) {
            d.push(c.last().0@)
        } else {
            d
        }
    }
}

/// Whether a config entry stays.
pub open spec fn kept_in_config(removed: Seq<Seq<char>>) -> spec_fn((String, SavedAccountEntry)) -> bool {
    |e: (String, SavedAccountEntry)| !removed.contains(e.0@)
}

proof fn lemma_take_last<A, B>(c: Seq<A>, t: Seq<B>, i: int)
    requires
        0 <= i < c.len(),
        c.len() == t.len(),
    ensures
        c.take(i + 1).drop_last() == c.take(i),
        t.take(i + 1).drop_last() == t.take(i),
        c.take(i + 1).last() == c[i],
        t.take(i + 1).last() == t[i],
        c.take(i + 1).len() > 0,
        t.take(i + 1).len() > 0,
{
    assert(c.take(i + 1).drop_last() =~= c.take(i));
    assert(t.take(i + 1).drop_last() =~= t.take(i));
}

/// Loads the accounts of the config with the results of looking up their
/// tokens (one per entry, in order): the loaded accounts by key, the
/// account list and its first entry (the selection); the entries whose
/// token was not found leave the config.
pub fn startup_accounts(config: &mut Vec<(String, SavedAccountEntry)>, tokens: Vec<Result<String, String>>) -> (r: (
    Vec<(String, SavedLogin)>,
    Vec<String>,
    String,
))
    requires
        distinct_names(old(config)@),
        tokens@.len() == old(config)@.len(),
    ensures
        distinct_names(r.0@),
        forall|i: int|
            0 <= i < old(config)@.len() ==> (if loaded_ok(old(config)@[i].0@, old(config)@[i].1, tokens@[i]) {
                login_of(r.0@, old(config)@[i].0@) matches Some(l) && (tokens@[i] matches Ok(tok) && loaded_from(
                    old(config)@[i].0@,
                    old(config)@[i].1,
                    tok@,
                    l,
                ))
            } else {
                login_of(r.0@, old(config)@[i].0@) is None
            }),
        forall|k: Seq<char>| #[trigger] login_of(r.0@, k) is Some ==> exists|i: int|
            0 <= i < old(config)@.len() && (#[trigger] old(config)@[i]).0@ == k,
        views(r.1@) == startup_dropdown(old(config)@, tokens@),
        r.2@ == startup_dropdown(old(config)@, tokens@)[0],
        final(config)@ == old(config)@.filter(kept_in_config(dropped_keys(old(config)@, tokens@))),
{
    let ghost c0 = config@;
    let ghost t0 = tokens@;
    let mut accounts: Vec<(String, SavedLogin)> = Vec::new();
    let mut dropdown: Vec<String> = Vec::new();
    dropdown.push(offline_account_name().to_owned());
    dropdown.push(new_account_entry_name().to_owned());
    assert(views(dropdown@) =~= startup_dropdown(c0.take(0), t0.take(0)));
    let mut to_remove: Vec<String> = Vec::new();
    let mut i: usize = 0;
    while i < config.len()
        invariant
            config@ == c0,
            tokens@ == t0,
            t0.len() == c0.len(),
            distinct_names(c0),
            i <= c0.len(),
            distinct_names(accounts@),
            forall|j: int|
                0 <= j < i ==> (if loaded_ok(c0[j].0@, c0[j].1, t0[j]) {
                    login_of(accounts@, c0[j].0@) matches Some(l) && (t0[j] matches Ok(tok) && loaded_from(
                        c0[j].0@,
                        c0[j].1,
                        tok@,
                        l,
                    ))
                } else {
                    login_of(accounts@, c0[j].0@) is None
                }),
            forall|j: int| i <= j < c0.len() ==> login_of(accounts@, (#[trigger] c0[j]).0@) is None,
            forall|k: Seq<char>| #[trigger] login_of(accounts@, k) is Some ==> exists|j: int|
                0 <= j < i && (#[trigger] c0[j]).0@ == k,
            views(dropdown@) == startup_dropdown(c0.take(i as int), t0.take(i as int)),
            views(to_remove@) == dropped_keys(c0.take(i as int), t0.take(i as int)),
        decreases c0.len() - i,
    {
        let ghost acc0 = accounts@;
        let ghost dd0 = dropdown@;
        let ghost rm0 = to_remove@;
        let token = match &tokens[i] {
            Ok(t) => Ok(t.clone()),
            Err(e) => Err(e.clone()),
        };
        load_account(&mut accounts, &mut dropdown, &mut to_remove, config[i].0.as_str(), &config[i].1, token);
        proof {
            lemma_take_last(c0, t0, i as int);
            let key = c0[i as int].0@;
            let e = c0[i as int].1;
            if loaded_ok(key, e, t0[i as int]) {
                let w = choose|w: int| 0 <= w < accounts@.len() && (#[trigger] accounts@[w]).0@ == key
                    && loaded_from(key, e, t0[i as int]->Ok_0@, accounts@[w].1);
                assert forall|k: Seq<char>| #[trigger] login_of(accounts@, k) == if k == key {
                    Some(accounts@[w].1)
                } else {
                    login_of(acc0, k)
                } by {
                    lemma_put_login(acc0, accounts@, key, accounts@[w].1, k);
                }
                assert forall|j: int| 0 <= j < c0.len() && j != i implies (#[trigger] c0[j]).0@ != key by {
                    if j < i {
                        assert(c0[j].0@ != c0[i as int].0@);
                    } else {
                        assert(c0[i as int].0@ != c0[j].0@);
                    }
                }
                assert(views(dropdown@) =~= seq![key] + views(dd0));
                assert(views(to_remove@) =~= views(rm0));
            } else {
                assert(views(dropdown@) =~= views(dd0));
                if dropped(key, e, t0[i as int]) {
                    assert(views(to_remove@) =~= views(rm0).push(key));
                } else {
                    assert(views(to_remove@) =~= views(rm0));
                }
            }
        }
        i += 1;
    }
    proof {
        assert(c0.take(c0.len() as int) =~= c0);
        assert(t0.take(t0.len() as int) =~= t0);
    }
    let ghost removed = views(to_remove@);
    let ghost pred = kept_in_config(removed);
    let mut kept: Vec<(String, SavedAccountEntry)> = Vec::new();
    let mut j: usize = 0;
    while j < config.len()
        invariant
            config@ == c0,
            j <= c0.len(),
            removed == views(to_remove@),
            pred == kept_in_config(removed),
            kept@ == c0.take(j as int).filter(pred),
        decreases c0.len() - j,
    {
        proof {
            assert(c0.take(j + 1) == c0.take(j as int).push(c0[j as int]));
            c0.take(j as int).lemma_filter_push(c0[j as int], pred);
        }
        if !listed(&to_remove, &config[j].0) {
            let entry = (config[j].0.clone(), copy_entry(&config[j].1));
            assert(entry == c0[j as int]);
            kept.push(entry);
        }
        j += 1;
    }
    assert(c0.take(c0.len() as int) == c0);
    *config = kept;
    proof {
        lemma_dropdown_len(c0, t0);
    }
    let selected = dropdown[0].clone();
    (accounts, dropdown, selected)
}

fn listed(v: &Vec<String>, s: &String) -> (r: bool)
    ensures
        r == views(v@).contains(s@),
{
    let mut i: usize = 0;
    while i < v.len()
        invariant
            i <= v@.len(),
            forall|j: int| 0 <= j < i ==> v@[j]@ != s@,
        decreases v.len() - i,
    {
        if str_eq(v[i].as_str(), s.as_str()) {
            assert(views(v@)[i as int] == s@);
            return true;
        }
        i += 1;
    }
    proof {
        if views(v@).contains(s@) {
            let j = choose|j: int| 0 <= j < views(v@).len() && views(v@)[j] == s@;
            assert(v@[j]@ == s@);
        }
    }
    false
}

fn copy_opt(o: &Option<String>) -> (r: Option<String>)
    ensures
        r == *o,
{
    match o {
        Some(s) => Some(s.clone()),
        None => None,
    }
}

fn copy_entry(e: &SavedAccountEntry) -> (r: SavedAccountEntry)
    ensures
        r == *e,
{
    SavedAccountEntry {
        account_type: copy_opt(&e.account_type),
        uuid: e.uuid.clone(),
        username_nice: copy_opt(&e.username_nice),
        custom_auth_url: copy_opt(&e.custom_auth_url),
    }
}

} // verus!
