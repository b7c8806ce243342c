//! Accounts: the kinds the TUI can add, the keyring names under which their
//! tokens are stored, and the player names used when launching the game.
use vstd::prelude::*;
use crate::text::{alphanumeric, chars_of, is_alphanumeric, string_from_chars};

verus! {

/// The kinds of account the add-account form offers.
#[derive(Debug, Clone, Copy, PartialEq, Eq, Structural)]
pub enum AccountType {
    Microsoft,
    ElyBy,
    LittleSkin,
    Offline,
}

/// The form's account kinds in the order they are cycled through.
pub open spec fn all_account_types() -> Seq<AccountType> {
    seq![AccountType::Microsoft, AccountType::ElyBy, AccountType::LittleSkin, AccountType::Offline]
}

/// The label shown for an account kind.
pub open spec fn account_type_label(t: AccountType) -> Seq<char> {
    match t {
        AccountType::Microsoft => "Microsoft (Coming Soon)"@,
        AccountType::ElyBy => "ElyBy"@,
        AccountType::LittleSkin => "LittleSkin (Coming Soon)"@,
        AccountType::Offline => "Offline"@,
    }
}

impl AccountType {
    /// All account kinds, in the order the form cycles through them.
    pub fn all() -> (r: Vec<AccountType>)
        ensures
            r@ == all_account_types(),
    {
        let mut v = Vec::new();
        v.push(AccountType::Microsoft);
        v.push(AccountType::ElyBy);
        v.push(AccountType::LittleSkin);
        v.push(AccountType::Offline);
        assert(v@ =~= all_account_types());
        v
    }

    /// The label shown for this account kind.
    pub fn label(&self) -> (r: &'static str)
        ensures
            r@ == account_type_label(*self),
    {
        match self {
            AccountType::Microsoft => "Microsoft (Coming Soon)",
            AccountType::ElyBy => "ElyBy",
            AccountType::LittleSkin => "LittleSkin (Coming Soon)",
            AccountType::Offline => "Offline",
        }
    }
}

/// An account as the Accounts tab lists it.
pub struct Account {
    /// The key under which the account is stored in the launcher config.
    pub username: String,
    /// "Microsoft", "ElyBy", "LittleSkin" or "Offline".
    pub account_type: String,
    pub uuid: String,
    pub is_logged_in: bool,
}

impl Clone for Account {
    fn clone(&self) -> (r: Self)
        ensures
            r == *self,
    {
        Account {
            username: self.username.clone(),
            account_type: self.account_type.clone(),
            uuid: self.uuid.clone(),
            is_logged_in: self.is_logged_in,
        }
    }
}

/// The authentication services that tokens are stored for.
#[derive(Debug, Clone, Copy, PartialEq, Eq, Structural)]
pub enum AuthAccountType {
    Microsoft,
    ElyBy,
    LittleSkin,
}

/// The service an account type name stands for: "ElyBy", "LittleSkin", and
/// Microsoft for any other name.
pub open spec fn auth_type_of(name: Seq<char>) -> AuthAccountType {
    if name == "ElyBy"@ {
        AuthAccountType::ElyBy
    } else if name == "LittleSkin"@ {
        AuthAccountType::LittleSkin
    } else {
        AuthAccountType::Microsoft
    }
}

/// Whether two strings hold the same characters.
pub fn str_eq(a: &str, b: &str) -> (r: bool)
    ensures
        r == (a@ == b@),
{
    let x = chars_of(a);
    let y = chars_of(b);
    if x.len() != y.len() {
        return false;
    }
    let mut i: usize = 0;
    while i < x.len()
        invariant
            x@ == a@,
            y@ == b@,
            x@.len() == y@.len(),
            i <= x@.len(),
            forall|k: int| 0 <= k < i ==> x@[k] == y@[k],
        decreases x.len() - i,
    {
        if x[i] != y[i] {
            return false;
        }
        i += 1;
    }
    assert(x@ =~= y@);
    true
}

/// The service an account type name stands for (see `auth_type_of`).
pub fn auth_type_from_name(name: &str) -> (r: AuthAccountType)
    ensures
        r == auth_type_of(name@),
{
    if str_eq(name, "ElyBy") {
        AuthAccountType::ElyBy
    } else if str_eq(name, "LittleSkin") {
        AuthAccountType::LittleSkin
    } else {
        AuthAccountType::Microsoft
    }
}

/// `s` without `suffix` at its end, when it ends with it (`strip_suffix`
/// followed by `unwrap_or(s)`).
pub open spec fn strip_suffix_or_keep(s: Seq<char>, suffix: Seq<char>) -> Seq<char> {
    if suffix.is_suffix_of(s) {
        s.take(s.len() - suffix.len())
    } else {
        s
    }
}

/// Removes `suffix` from the end of `s` when it ends with it.
pub fn strip_suffix_or_keep_exec(s: &str, suffix: &str) -> (r: String)
    ensures
        r@ == strip_suffix_or_keep(s@, suffix@),
{
    let v = chars_of(s);
    let p = chars_of(suffix);
    if p.len() > v.len() {
        return string_from_chars(v.as_slice());
    }
    let vl = v.len();
    let off = vl - p.len();
    let mut k: usize = 0;
    while k < p.len()
        invariant
            v@ == s@,
            p@ == suffix@,
            vl == v@.len(),
            off + p@.len() == vl,
            k <= p@.len(),
            forall|m: int| 0 <= m < k ==> v@[off + m] == p@[m],
        decreases p.len() - k,
    {
        if v[off + k] != p[k] {
            assert(!suffix@.is_suffix_of(s@));
            return string_from_chars(v.as_slice());
        }
        k += 1;
    }
    assert(suffix@.is_suffix_of(s@));
    let mut w: Vec<char> = Vec::new();
    let mut i: usize = 0;
    while i < off
        invariant
            v@ == s@,
            off <= v@.len(),
            i <= off,
            w@ == v@.take(i as int),
        decreases off - i,
    {
        w.push(v[i]);
        assert(v@.take(i as int).push(v@[i as int]) =~= v@.take(i + 1));
        i += 1;
    }
    string_from_chars(w.as_slice())
}

/// The name under which an account's token is stored in the keyring: the
/// config key without the " (elyby)" or " (littleskin)" marker that the
/// launcher appends for those services.
pub open spec fn keyring_name(username: Seq<char>, t: AuthAccountType) -> Seq<char> {
    match t {
        AuthAccountType::ElyBy => strip_suffix_or_keep(username, " (elyby)"@),
        AuthAccountType::LittleSkin => strip_suffix_or_keep(username, " (littleskin)"@),
        AuthAccountType::Microsoft => username,
    }
}

/// The keyring name of an account (see `keyring_name`).
pub fn keyring_username(username: &str, t: AuthAccountType) -> (r: String)
    ensures
        r@ == keyring_name(username@, t),
{
    match t {
        AuthAccountType::ElyBy => strip_suffix_or_keep_exec(username, " (elyby)"),
        AuthAccountType::LittleSkin => strip_suffix_or_keep_exec(username, " (littleskin)"),
        AuthAccountType::Microsoft => username.to_owned(),
    }
}

/// Whether a character may appear in a player name.
pub open spec fn name_char(c: char) -> bool {
    alphanumeric(c) || c == '_'
}

/// The characters of `s` that may appear in a player name.
pub open spec fn name_chars(s: Seq<char>) -> Seq<char>
    decreases s.len(),
{
    if s.len() == 0 {
        Seq::empty()
    } else if name_char(s.last()) {
        name_chars(s.drop_last()).push(s.last())
    } else {
        name_chars(s.drop_last())
    }
}

/// The alphanumeric characters of `s`.
pub open spec fn alnum_chars(s: Seq<char>) -> Seq<char>
    decreases s.len(),
{
    if s.len() == 0 {
        Seq::empty()
    } else if alphanumeric(s.last()) {
        alnum_chars(s.drop_last()).push(s.last())
    } else {
        alnum_chars(s.drop_last())
    }
}

/// The first `n` elements of `s` (all of them when there are fewer).
pub open spec fn take_at_most<T>(s: Seq<T>, n: nat) -> Seq<T> {
    if s.len() > n {
        s.take(n as int)
    } else {
        s
    }
}

/// The name characters of `s`, at most `n` of them, or only alphanumerics
/// when `alnum_only` is set.
fn filter_name_chars(s: &[char], n: usize, alnum_only: bool) -> (r: Vec<char>)
    ensures
        r@ == take_at_most(if alnum_only { alnum_chars(s@) } else { name_chars(s@) }, n as nat),
{
    let mut all: Vec<char> = Vec::new();
    let mut i: usize = 0;
    while i < s.len()
        invariant
            i <= s@.len(),
            all@ == (if alnum_only { alnum_chars(s@.take(i as int)) } else { name_chars(s@.take(i as int)) }),
        decreases s.len() - i,
    {
        assert(s@.take(i + 1).drop_last() =~= s@.take(i as int));
        let c = s[i];
        let a = is_alphanumeric(c);
        if a || (!alnum_only && c == '_') {
            all.push(c);
        }
        i += 1;
    }
    assert(s@.take(s@.len() as int) =~= s@);
    if all.len() > n {
        let mut r: Vec<char> = Vec::new();
        let mut k: usize = 0;
        while k < n
            invariant
                k <= n,
                n < all@.len(),
                r@ == all@.take(k as int),
            decreases n - k,
        {
            r.push(all[k]);
            assert(all@.take(k as int).push(all@[k as int]) =~= all@.take(k + 1));
            k += 1;
        }
        r
    } else {
        all
    }
}

/// Whether a name from the config can be used as the player name as it
/// is: only name characters and at most 16 bytes long.
pub open spec fn usable_as_player_name(nice: Seq<char>) -> bool {
    (forall|k: int| 0 <= k < nice.len() ==> name_char(#[trigger] nice[k]))
        && vstd::utf8::encode_utf8(nice).len() <= 16
}

/// The part of `s` before its first `@`, if it has one.
pub open spec fn local_part(s: Seq<char>) -> Option<Seq<char>> {
    if s.contains('@') {
        let i = choose|i: int| 0 <= i < s.len() && s[i] == '@' && forall|k: int| 0 <= k < i ==> s[k] != '@';
        Some(s.take(i))
    } else {
        None
    }
}

/// The player name derived from a user name: its name characters, at most
/// 16, or "Player" when none remain.
pub open spec fn player_name_from(s: Seq<char>) -> Seq<char> {
    let clean = take_at_most(name_chars(s), 16);
    if clean.len() == 0 {
        "Player"@
    } else {
        clean
    }
}

/// The player name derived from a user name when no usable nice name is at
/// hand: for ElyBy and LittleSkin e-mail style names, the cleaned part before
/// the `@` (or "User_" and the first eight alphanumerics of the name when
/// that part cleans to nothing); otherwise the cleaned user name.
pub open spec fn derived_player_name(username: Seq<char>, t: AuthAccountType) -> Seq<char> {
    match t {
        AuthAccountType::Microsoft => player_name_from(username),
        _ => match local_part(username) {
            Some(local) => {
                let clean = take_at_most(name_chars(local), 16);
                if clean.len() == 0 {
                    "User_"@ + take_at_most(alnum_chars(username), 8)
                } else {
                    clean
                }
            },
            None => player_name_from(username),
        },
    }
}

/// The player name used to launch with an authenticated account: the nice
/// name when it is usable as it is, otherwise the derived name.
pub open spec fn launch_player_name(username: Seq<char>, nice: Seq<char>, t: AuthAccountType) -> Seq<char> {
    if usable_as_player_name(nice) {
        nice
    } else {
        derived_player_name(username, t)
    }
}

fn nice_usable(nice: &str) -> (r: bool)
    ensures
        r == usable_as_player_name(nice@),
{
    let v = chars_of(nice);
    let mut i: usize = 0;
    while i < v.len()
        invariant
            v@ == nice@,
            i <= v@.len(),
            forall|k: int| 0 <= k < i ==> name_char(#[trigger] nice@[k]),
        decreases v.len() - i,
    {
        if !(is_alphanumeric(v[i]) || v[i] == '_') {
            return false;
        }
        i += 1;
    }
    proof {
        lemma_utf8_len_bounds(nice@);
    }
    if v.len() > 16 {
        return false;
    }
    nice.len() <= 16
}

/// A character takes one to four bytes in UTF-8.
proof fn lemma_utf8_len_bounds(s: Seq<char>)
    ensures
        s.len() <= vstd::utf8::encode_utf8(s).len() <= 4 * s.len(),
    decreases s.len(),
{
    if s.len() > 0 {
        lemma_utf8_len_bounds(s.drop_first());
        let e = vstd::utf8::encode_scalar(s[0] as u32);
        assert(1 <= e.len() <= 4);
    }
}

fn player_name_exec(s: &[char]) -> (r: String)
    ensures
        r@ == player_name_from(s@),
{
    let clean = filter_name_chars(s, 16, false);
    if clean.len() == 0 {
        "Player".to_owned()
    } else {
        string_from_chars(clean.as_slice())
    }
}

/// The derived player name (see `derived_player_name`).
fn derived_player_name_exec(username: &str, t: AuthAccountType) -> (r: String)
    ensures
        r@ == derived_player_name(username@, t),
{
    let u = chars_of(username);
    match t {
        AuthAccountType::Microsoft => player_name_exec(u.as_slice()),
        _ => {
            let mut i: usize = 0;
            while i < u.len() && u[i] != '@'
                invariant
                    u@ == username@,
                    i <= u@.len(),
                    forall|k: int| 0 <= k < i ==> u@[k] != '@',
                decreases u.len() - i,
            {
                i += 1;
            }
            if i < u.len() {
                proof {
                    assert(username@[i as int] == '@');
                    assert(username@.contains('@'));
                    let j = choose|j: int|
                        0 <= j < username@.len() && username@[j] == '@' && forall|k: int|
                            0 <= k < j ==> username@[k] != '@';
                    if j < i {
                        assert(u@[j] != '@');
                    } else if j > i {
                        assert(username@[i as int] != '@');
                    }
                }
                let mut local: Vec<char> = Vec::new();
                let mut k: usize = 0;
                while k < i
                    invariant
                        u@ == username@,
                        k <= i <= u@.len(),
                        local@ == u@.take(k as int),
                    decreases i - k,
                {
                    local.push(u[k]);
                    assert(u@.take(k as int).push(u@[k as int]) =~= u@.take(k + 1));
                    k += 1;
                }
                let clean = filter_name_chars(local.as_slice(), 16, false);
                if clean.len() == 0 {
                    let tail = filter_name_chars(u.as_slice(), 8, true);
                    let mut r = "User_".to_owned();
                    let t = string_from_chars(tail.as_slice());
                    crate::text::push_str(&mut r, t.as_str());
                    r
                } else {
                    string_from_chars(clean.as_slice())
                }
            } else {
                assert(!username@.contains('@'));
                player_name_exec(u.as_slice())
            }
        },
    }
}

/// The player name for launching with an authenticated account (see
/// `launch_player_name`).
pub fn clean_username_for_launch(username: &str, nice_username: &str, t: AuthAccountType) -> (r: String)
    ensures
        r@ == launch_player_name(username@, nice_username@, t),
{
    if nice_usable(nice_username) {
        nice_username.to_owned()
    } else {
        derived_player_name_exec(username, t)
    }
}

/// The player name for launching with an account of the list, given the
/// nice name stored for it in the launcher config (if any): offline
/// accounts use their cleaned name; others use the stored nice name when it
/// is usable as it is, and otherwise the derived name (e-mail style for
/// ElyBy and LittleSkin accounts).
pub open spec fn selected_player_name(account: Account, config_nice: Option<String>) -> Seq<char> {
    if account.account_type@ == "Offline"@ {
        player_name_from(account.username@)
    } else if config_nice is Some && usable_as_player_name(config_nice.unwrap()@) {
        config_nice.unwrap()@
    } else if account.account_type@ == "ElyBy"@ || account.account_type@ == "LittleSkin"@ {
        derived_player_name(account.username@, AuthAccountType::ElyBy)
    } else {
        player_name_from(account.username@)
    }
}

/// The player name for an account of the list (see `selected_player_name`).
pub fn clean_username_for_selected_account(account: &Account, config_nice: &Option<String>) -> (r: String)
    ensures
        r@ == selected_player_name(*account, *config_nice),
{
    if str_eq(account.account_type.as_str(), "Offline") {
        let u = chars_of(account.username.as_str());
        return player_name_exec(u.as_slice());
    }
    if let Some(n) = config_nice {
        if nice_usable(n.as_str()) {
            return n.clone();
        }
    }
    if str_eq(account.account_type.as_str(), "ElyBy") || str_eq(account.account_type.as_str(), "LittleSkin") {
        derived_player_name_exec(account.username.as_str(), AuthAccountType::ElyBy)
    } else {
        let u = chars_of(account.username.as_str());
        player_name_exec(u.as_slice())
    }
}

proof fn lemma_name_chars_clean(s: Seq<char>)
    ensures
        forall|k: int| 0 <= k < name_chars(s).len() ==> name_char(#[trigger] name_chars(s)[k]),
        forall|k: int| 0 <= k < alnum_chars(s).len() ==> alphanumeric(#[trigger] alnum_chars(s)[k]),
    decreases s.len(),
{
    if s.len() > 0 {
        lemma_name_chars_clean(s.drop_last());
        let p = name_chars(s.drop_last());
        let q = alnum_chars(s.drop_last());
        assert forall|k: int| 0 <= k < name_chars(s).len() implies name_char(#[trigger] name_chars(s)[k]) by {
            if k < p.len() {
                assert(name_chars(s)[k] == p[k]);
            }
        }
        assert forall|k: int| 0 <= k < alnum_chars(s).len() implies alphanumeric(#[trigger] alnum_chars(s)[k]) by {
            if k < q.len() {
                assert(alnum_chars(s)[k] == q[k]);
            }
        }
    }
}

/// The player name given to the game is never empty, holds only letters,
/// digits and `_`, and is at most 16 characters long; a nice name that is
/// usable as it is is kept. (An empty nice name counts as usable and is
/// given unchanged, so it is left out.)
pub proof fn law_player_name_clean(username: Seq<char>, nice: Seq<char>, t: AuthAccountType)
    requires
        nice.len() > 0,
    ensures
        launch_player_name(username, nice, t).len() > 0,
        launch_player_name(username, nice, t).len() <= 16,
        forall|k: int| 0 <= k < launch_player_name(username, nice, t).len() ==> name_char(
            #[trigger] launch_player_name(username, nice, t)[k],
        ),
        usable_as_player_name(nice) ==> launch_player_name(username, nice, t) == nice,
{
    reveal_strlit("Player");
    reveal_strlit("User_");
    lemma_utf8_len_bounds(nice);
    lemma_name_chars_clean(username);
    let r = launch_player_name(username, nice, t);
    if !usable_as_player_name(nice) {
        let clean = take_at_most(name_chars(username), 16);
        assert forall|k: int| 0 <= k < clean.len() implies name_char(#[trigger] clean[k]) by {
            assert(clean[k] == name_chars(username)[k]);
        }
        match local_part(username) {
            Some(local) => {
                if t != AuthAccountType::Microsoft {
                    lemma_name_chars_clean(local);
                    let lc = take_at_most(name_chars(local), 16);
                    assert forall|k: int| 0 <= k < lc.len() implies name_char(#[trigger] lc[k]) by {
                        assert(lc[k] == name_chars(local)[k]);
                    }
                    let a = take_at_most(alnum_chars(username), 8);
                    let u = "User_"@ + a;
                    assert forall|k: int| 0 <= k < u.len() implies name_char(#[trigger] u[k]) by {
                        if k >= 5 {
                            assert(u[k] == a[k - 5]);
                            assert(a[k - 5] == alnum_chars(username)[k - 5]);
                        }
                    }
                }
            },
            None => {},
        }
    }
}

} // verus!
