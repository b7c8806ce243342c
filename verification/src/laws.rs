//! Properties of the terminal UI that span several operations: what the
//! edit popups read back of what they show, how key bindings behave while
//! a popup is open, how tabs and log scrolling move back and forth.
use vstd::prelude::*;
use crate::app_state::{App, TabId, next_tab_of, prev_tab_of};
use crate::args::{format_args_spec, is_separator, parse_args_spec, quote_arg, round_trips, law_format_then_parse};
use crate::accounts::AccountType;
use crate::keys::{KeyAction, KeyCode, KeyCommand, KeyPress, command_effect, key_command_of, terminal_command_of};
use crate::popups::{
    MemoryReading, WindowSizeUpdate, clamp_memory, memory_reading, parse_bounded,
    refresh_interval_of, window_size_text, window_size_update_of, first_separator, size_part,
    ascii_lowercase, without_suffix, MEMORY_MAX_MB, MEMORY_MIN_MB,
};
use crate::text::{
    all_digits, decimal, digit_char, digits_value, is_ws, parse_unsigned, trim_end_seq, trim_seq,
    trim_start_seq, unsigned_digits,
};

verus! {

/// Going to the next tab and back (or back and on) returns to the tab one
/// started from, for each of the five main tabs.
pub proof fn law_tab_round_trip(t: TabId)
    requires
        t != TabId::InstanceSettings,
    ensures
        prev_tab_of(next_tab_of(t)) == t,
        next_tab_of(prev_tab_of(t)) == t,
{
}

/// While the help popup is open (and no deletion waits for confirmation),
/// a key either closes the popup or does nothing at all.
pub proof fn law_help_popup_is_modal(a: App, k: KeyPress, n: App, r: KeyAction)
    requires
        a.show_help_popup,
        !a.instance_page.show_delete_confirm,
        command_effect(a, terminal_command_of(a, k), n, r),
    ensures
        r is Nothing,
        n == a || n == (App { show_help_popup: false, ..a }),
{
}

/// While a deletion waits for confirmation, a key either confirms it,
/// cancels it, or does nothing at all.
pub proof fn law_delete_confirm_is_modal(a: App, k: KeyPress)
    requires
        a.instance_page.show_delete_confirm,
    ensures
        terminal_command_of(a, k) is ConfirmDelete || terminal_command_of(a, k) is CancelDelete
            || terminal_command_of(a, k) is Ignore,
{
}

/// Scrolling the launcher log up by some lines and down by as many comes
/// back to the same place (when the offset does not saturate).
pub proof fn law_log_scroll_round_trip(o: App, d: usize, m: App, n: App, r1: KeyAction, r2: KeyAction)
    requires
        o.logs.logs_offset + d <= usize::MAX,
        command_effect(o, KeyCommand::LogsUp(d), m, r1),
        command_effect(m, KeyCommand::LogsDown(d), n, r2),
    ensures
        n.logs.logs_offset == o.logs.logs_offset,
        n.logs.logs_auto_follow == (o.logs.logs_offset == 0),
{
}

/// The memory saved is always within 256..=16384 MB, and a value already
/// in that range is kept as it is.
pub proof fn law_memory_in_range(mb: nat)
    ensures
        MEMORY_MIN_MB <= clamp_memory(mb) <= MEMORY_MAX_MB,
        MEMORY_MIN_MB <= mb <= MEMORY_MAX_MB ==> clamp_memory(mb) == mb,
{
}

/// A refresh interval taken from the popup is never below 50 ms.
pub proof fn law_refresh_interval_floor(s: Seq<char>)
    ensures
        refresh_interval_of(s) matches Ok(Some(v)) ==> v >= 50,
{
}

/// The digits of a number read back as that number.
pub proof fn law_decimal_parses_back(n: nat)
    ensures
        all_digits(decimal(n)),
        decimal(n).len() > 0,
        parse_unsigned(decimal(n)) == Some(n),
        trim_seq(decimal(n)) == decimal(n),
    decreases n,
{
    if n >= 10 {
        law_decimal_parses_back(n / 10);
        let d = decimal(n / 10);
        let s = d.push(digit_char(n % 10));
        assert(s.drop_last() =~= d);
        assert(all_digits(s));
        assert((digit_char((n % 10) as nat) as u32) - ('0' as u32) == n % 10);
        assert(digits_value(s) == digits_value(d) * 10 + n % 10);
        assert(n == (n / 10) * 10 + n % 10);
        assert(s == decimal(n));
    } else {
        assert(decimal(n).drop_last() =~= Seq::<char>::empty());
        assert((digit_char(n) as u32) - ('0' as u32) == n);
        assert(digits_value(decimal(n)) == digits_value(Seq::<char>::empty()) * 10 + n);
    }
    let s = decimal(n);
    assert(!is_ws(s[0]));
    assert(!is_ws(s.last()));
    assert(s[0] != '+');
    assert(unsigned_digits(s) == s);
    assert(trim_start_seq(s) == s);
    assert(trim_end_seq(s) == s);
}

proof fn lemma_digits_have_no_separator(s: Seq<char>)
    requires
        all_digits(s),
    ensures
        first_separator(s) is None,
        trim_seq(s) == s || s.len() == 0,
{
    assert(!(exists|i: int| 0 <= i < s.len() && crate::popups::is_size_separator(#[trigger] s[i])))
        by {
        assert forall|i: int| 0 <= i < s.len() implies !crate::popups::is_size_separator(s[i]) by {
            assert(crate::text::is_digit(s[i]));
        }
    }
    if s.len() > 0 {
        assert(!is_ws(s[0]));
        assert(!is_ws(s.last()));
    }
}

/// The window size text the popup opens on reads back as the same size.
pub proof fn law_window_size_round_trip(w: u32, h: u32)
    ensures
        window_size_update_of(
            window_size_text(Some(w), Some(h)),
            WindowSizeUpdate::Resize(Some(w), Some(h)),
        ),
{
    law_decimal_parses_back(w as nat);
    law_decimal_parses_back(h as nat);
    reveal_strlit(",");
    let dw = decimal(w as nat);
    let dh = decimal(h as nat);
    let t = dw + ","@ + dh;
    assert(!is_ws(t[0]));
    assert(!is_ws(t.last()));
    assert(trim_start_seq(t) == t);
    assert(trim_end_seq(t) == t);
    let i = dw.len() as int;
    assert(t[i] == ',');
    assert forall|j: int| 0 <= j < i implies !crate::popups::is_size_separator(#[trigger] t[j]) by {
        assert(t[j] == dw[j]);
        assert(crate::text::is_digit(dw[j]));
    }
    assert(first_separator(t) == Some(i)) by {
        let k = choose|k: int|
            0 <= k < t.len() && crate::popups::is_size_separator(t[k]) && forall|j: int|
                0 <= j < k ==> !crate::popups::is_size_separator(#[trigger] t[j]);
        if k > i {
            assert(!crate::popups::is_size_separator(t[i]));
        }
        if k < i {
            assert(!crate::popups::is_size_separator(t[k]));
        }
    }
    assert(t.take(i) =~= dw);
    assert(t.skip(i + 1) =~= dh);
    lemma_digits_have_no_separator(dh);
    lemma_digits_have_no_separator(dw);
}

/// The refresh interval text the popup opens on (for an interval of at
/// least 50 ms) reads back as the same interval.
pub proof fn law_refresh_interval_round_trip(v: u64)
    requires
        v >= 50,
    ensures
        refresh_interval_of(decimal(v as nat)) == Ok::<Option<u64>, ()>(Some(v)),
{
    law_decimal_parses_back(v as nat);
}

/// The memory text the popup opens on reads back as the same number of
/// megabytes.
pub proof fn law_memory_round_trip(mb: usize)
    ensures
        memory_reading(decimal(mb as nat)) == MemoryReading::Megabytes(mb as nat),
{
    law_decimal_parses_back(mb as nat);
    let s = decimal(mb as nat);
    assert(ascii_lowercase(s) =~= s) by {
        assert forall|i: int| 0 <= i < s.len() implies #[trigger] crate::text::ascii_lower(s[i]) == s[i] by {
            assert(crate::text::is_digit(s[i]));
        }
    }
    reveal_strlit("gb");
    reveal_strlit("g");
    reveal_strlit("mb");
    reveal_strlit("m");
    assert(crate::text::is_digit(s.last()));
    assert(!"gb"@.is_suffix_of(s)) by {
        if "gb"@.is_suffix_of(s) {
            assert(s[s.len() - 1] == "gb"@[1]);
        }
    }
    assert(!"g"@.is_suffix_of(s)) by {
        if "g"@.is_suffix_of(s) {
            assert(s[s.len() - 1] == "g"@[0]);
        }
    }
    assert(!"mb"@.is_suffix_of(s)) by {
        if "mb"@.is_suffix_of(s) {
            assert(s[s.len() - 1] == "mb"@[1]);
        }
    }
    assert(!"m"@.is_suffix_of(s)) by {
        if "m"@.is_suffix_of(s) {
            assert(s[s.len() - 1] == "m"@[0]);
        }
    }
}


proof fn lemma_format_first(args: Seq<Seq<char>>)
    requires
        args.len() > 0,
    ensures
        format_args_spec(args).len() > 0,
        format_args_spec(args)[0] == quote_arg(args[0])[0],
        format_args_spec(args).last() == quote_arg(args.last()).last(),
    decreases args.len(),
{
    assert(quote_arg(args.last()).len() > 0);
    assert(quote_arg(args[0]).len() > 0);
    if args.len() > 1 {
        lemma_format_first(args.drop_last());
        assert(args.drop_last()[0] == args[0]);
    }
}

/// The arguments popup reads back the arguments it opened on: the text
/// shown for a list of arguments, trimmed and parsed, is that list again
/// (for arguments that hold no quote or backslash).
pub proof fn law_args_popup_round_trip(args: Seq<Seq<char>>)
    requires
        forall|i: int| 0 <= i < args.len() ==> round_trips(#[trigger] args[i]),
    ensures
        parse_args_spec(trim_seq(format_args_spec(args))) == args,
{
    law_format_then_parse(args);
    let f = format_args_spec(args);
    if args.len() > 0 {
        lemma_format_first(args);
        let a0 = args[0];
        let al = args.last();
        assert(round_trips(a0));
        assert(round_trips(al));
        if !crate::args::has_separator(a0) && a0.len() > 0 {
            assert(!is_separator(a0[0]));
        }
        if !crate::args::has_separator(al) && al.len() > 0 {
            assert(!is_separator(al[al.len() - 1]));
        }
        assert(!is_ws(f[0]));
        assert(!is_ws(f.last()));
    }
    assert(trim_start_seq(f) == f);
    assert(trim_end_seq(f) == f);
}

/// A cleaned instance name holds none of the characters that are not
/// allowed in names, and does not start or end with white space.
pub proof fn law_sanitized_name_clean(s: Seq<char>)
    ensures
        forall|i: int|
            0 <= i < crate::app_instance::sanitized_name(s).len()
                ==> !crate::app_instance::disallowed_in_name(
                #[trigger] crate::app_instance::sanitized_name(s)[i],
            ),
        crate::app_instance::sanitized_name(s).len() > 0 ==> !is_ws(
            crate::app_instance::sanitized_name(s)[0],
        ) && !is_ws(crate::app_instance::sanitized_name(s).last()),
{
    let a = crate::app_instance::allowed_chars(s);
    lemma_allowed_chars_clean(s);
    let (start, end) = lemma_trim_is_slice(a);
    let t = crate::app_instance::sanitized_name(s);
    assert forall|i: int| 0 <= i < t.len() implies !crate::app_instance::disallowed_in_name(
        #[trigger] t[i],
    ) by {
        assert(t[i] == a[start + i]);
    }
}

proof fn lemma_allowed_chars_clean(s: Seq<char>)
    ensures
        forall|i: int|
            0 <= i < crate::app_instance::allowed_chars(s).len()
                ==> !crate::app_instance::disallowed_in_name(
                #[trigger] crate::app_instance::allowed_chars(s)[i],
            ),
    decreases s.len(),
{
    if s.len() > 0 {
        lemma_allowed_chars_clean(s.drop_last());
        let r = crate::app_instance::allowed_chars(s.drop_last());
        let t = crate::app_instance::allowed_chars(s);
        assert forall|i: int| 0 <= i < t.len() implies !crate::app_instance::disallowed_in_name(
            #[trigger] t[i],
        ) by {
            if !crate::app_instance::disallowed_in_name(s.last()) {
                assert(t == r.push(s.last()));
                if i < r.len() {
                    assert(t[i] == r[i]);
                }
            }
        }
    }
}

proof fn lemma_trim_start_is_skip(s: Seq<char>) -> (k: int)
    ensures
        0 <= k <= s.len(),
        trim_start_seq(s) == s.skip(k),
        trim_start_seq(s).len() > 0 ==> !is_ws(trim_start_seq(s)[0]),
    decreases s.len(),
{
    if s.len() > 0 && is_ws(s[0]) {
        let k = lemma_trim_start_is_skip(s.drop_first());
        assert(s.drop_first().skip(k) =~= s.skip(k + 1));
        k + 1
    } else {
        assert(s.skip(0) =~= s);
        0
    }
}

proof fn lemma_trim_end_is_take(s: Seq<char>) -> (k: int)
    ensures
        0 <= k <= s.len(),
        trim_end_seq(s) == s.take(k),
        trim_end_seq(s).len() > 0 ==> !is_ws(trim_end_seq(s).last()),
    decreases s.len(),
{
    if s.len() > 0 && is_ws(s.last()) {
        let k = lemma_trim_end_is_take(s.drop_last());
        assert(s.drop_last().take(k) =~= s.take(k));
        k
    } else {
        assert(s.take(s.len() as int) =~= s);
        s.len() as int
    }
}

proof fn lemma_trim_is_slice(s: Seq<char>) -> (r: (int, int))
    ensures
        0 <= r.0 <= r.1 <= s.len(),
        trim_seq(s) == s.subrange(r.0, r.1),
        trim_seq(s).len() > 0 ==> !is_ws(trim_seq(s)[0]) && !is_ws(trim_seq(s).last()),
{
    let a = lemma_trim_start_is_skip(s);
    let t = trim_start_seq(s);
    let b = lemma_trim_end_is_take(t);
    assert(t.take(b) =~= s.subrange(a, a + b));
    if trim_seq(s).len() > 0 {
        assert(trim_seq(s)[0] == t[0]);
    }
    (a, a + b)
}

/// The lines kept for an instance never exceed the cap, and are the
/// newest ones.
pub proof fn law_instance_log_bounded(lines: Seq<Seq<char>>, cap: nat)
    ensures
        crate::logs::keep_last(lines, cap).len() == if lines.len() > cap {
            cap
        } else {
            lines.len()
        },
        crate::logs::keep_last(lines, cap).is_suffix_of(lines),
{
    let k = crate::logs::keep_last(lines, cap);
    if lines.len() > cap {
        assert(lines.subrange(lines.len() - k.len(), lines.len() as int) =~= k);
    } else {
        assert(lines.subrange(0, lines.len() as int) =~= lines);
    }
}

/// With the name shown as the status, and no URL given, the activity can
/// always be built.
pub proof fn law_presence_name_display_builds(
    details: Option<String>,
    state: Option<String>,
)
    ensures
        !crate::presence::presence_build_fails(
            crate::presence::PresenceStatusDisplayType::Name,
            details,
            None,
            state,
            None,
        ),
{
}

/// The selection after a Ctrl+click on a mod (see `ModSelection::select_mod`).
pub open spec fn after_ctrl_click(
    s: Set<(int, Seq<char>, Seq<char>)>,
    h: Set<(int, Seq<char>, Seq<char>)>,
    k: (int, Seq<char>, Seq<char>),
) -> Set<(int, Seq<char>, Seq<char>)> {
    let s1 = crate::mod_select::after_modifiers(s, h, k, true, false).0;
    if s1.contains(k) {
        s1.remove(k)
    } else {
        s1.insert(k)
    }
}

/// Ctrl+clicking the same mod twice leaves the selection as it was, and
/// a Ctrl+click changes the selection in that mod alone.
pub proof fn law_ctrl_click_twice(
    s: Set<(int, Seq<char>, Seq<char>)>,
    h: Set<(int, Seq<char>, Seq<char>)>,
    k: (int, Seq<char>, Seq<char>),
)
    ensures
        after_ctrl_click(after_ctrl_click(s, h, k), Set::empty(), k) == s,
        forall|x| x != k ==> (#[trigger] after_ctrl_click(s, h, k).contains(x) <==> s.contains(x)),
        after_ctrl_click(s, h, k).contains(k) <==> !s.contains(k),
{
    let t = after_ctrl_click(s, h, k);
    if s.contains(k) {
        assert(t.insert(k) =~= s);
    } else {
        assert(t.remove(k) =~= s);
    }
}
/// Whether the dropdown lists an entry.
pub open spec fn lists(dd: Seq<String>, x: Seq<char>) -> bool {
    exists|i: int| 0 <= i < dd.len() && (#[trigger] dd[i])@ == x
}

/// The account dropdown offers offline play and holds the selected
/// account.
pub open spec fn dropdown_ok(s: crate::gui_accounts::AccountsState) -> bool {
    &&& lists(s.dropdown@, crate::gui_accounts::offline_name())
    &&& s.selected matches Some(x) && lists(s.dropdown@, x@)
}

/// Every account message keeps offline play in the dropdown and the
/// selected account listed in it, given that a chosen entry comes from
/// the dropdown, that offline play is not logged out of, and that an added
/// account is listed under its config key.
pub proof fn law_dropdown_keeps_selection(
    o: crate::gui_accounts::AccountsState,
    msg: crate::gui_accounts::AccountMsg,
    n: crate::gui_accounts::AccountsState,
    r: crate::gui_accounts::AccountAction,
)
    requires
        o.wf(),
        dropdown_ok(o),
        crate::gui_accounts::account_effect(o, msg, n, r),
        msg matches crate::gui_accounts::AccountMsg::Selected(a) ==> lists(o.dropdown@, a@)
            || a@ == crate::gui_accounts::new_account_name(),
        msg is LogoutConfirm ==> o.selected->0@ != crate::gui_accounts::offline_name(),
        msg matches crate::gui_accounts::AccountMsg::Response3(Ok((key, data))) ==> key@ == data.username@,
        msg matches crate::gui_accounts::AccountMsg::AltLoginResponse(Ok(crate::gui_accounts::AltAccount::Account(key, data)))
            ==> key@ == data.username@,
        msg matches crate::gui_accounts::AccountMsg::BlessingSkinLoginResponse(Ok(crate::gui_accounts::AltAccount::Account(key, data)))
            ==> key@ == data.username@,
    ensures
        dropdown_ok(n),
{
    let off = crate::gui_accounts::offline_name();
    let k = choose|k: int| 0 <= k < o.dropdown@.len() && (#[trigger] o.dropdown@[k])@ == off;
    match msg {
        crate::gui_accounts::AccountMsg::LogoutConfirm => {
            let u = o.selected->0@;
            if n != o {
                if exists|i: int| 0 <= i < o.dropdown@.len() && (#[trigger] o.dropdown@[i])@ == u
                    && (forall|j: int| 0 <= j < i ==> o.dropdown@[j]@ != u) && n.dropdown@ == o.dropdown@.remove(i) {
                    let i = choose|i: int| 0 <= i < o.dropdown@.len() && (#[trigger] o.dropdown@[i])@ == u
                        && (forall|j: int| 0 <= j < i ==> o.dropdown@[j]@ != u) && n.dropdown@ == o.dropdown@.remove(i);
                    let k2 = if k < i { k } else { k - 1 };
                    assert(k != i);
                    assert(n.dropdown@[k2] == o.dropdown@[k]);
                } else {
                    assert(n.dropdown@[k] == o.dropdown@[k]);
                }
                assert(lists(n.dropdown@, off));
                assert(n.dropdown@.len() > 0);
                assert(lists(n.dropdown@, n.dropdown@[0]@));
            }
        },
        crate::gui_accounts::AccountMsg::Response3(Ok((key, data))) => {
            assert(n.dropdown@[k + 1] == o.dropdown@[k]);
            assert(n.dropdown@[0] == data.username);
        },
        crate::gui_accounts::AccountMsg::AltLoginResponse(Ok(crate::gui_accounts::AltAccount::Account(key, data))) => {
            if n != o {
                assert(n.dropdown@[k + 1] == o.dropdown@[k]);
                assert(n.dropdown@[0] == data.username);
            }
        },
        crate::gui_accounts::AccountMsg::BlessingSkinLoginResponse(Ok(crate::gui_accounts::AltAccount::Account(key, data))) => {
            if n != o {
                assert(n.dropdown@[k + 1] == o.dropdown@[k]);
                assert(n.dropdown@[0] == data.username);
            }
        },
        _ => {},
    }
}

proof fn lemma_cyclic_round_trip(i: usize, n: usize)
    requires
        i < n,
    ensures
        crate::app_state::cyclic_next(i, n) < n,
        crate::app_state::cyclic_prev(i, n) < n,
        crate::app_state::cyclic_prev(crate::app_state::cyclic_next(i, n), n) == i,
        crate::app_state::cyclic_next(crate::app_state::cyclic_prev(i, n), n) == i,
{
    if i + 1 < n {
        vstd::arithmetic::div_mod::lemma_small_mod((i + 1) as nat, n as nat);
    } else {
        vstd::arithmetic::div_mod::lemma_mod_self_0(n as int);
    }
    if i > 0 {
        vstd::arithmetic::div_mod::lemma_small_mod(i as nat, n as nat);
    } else {
        vstd::arithmetic::div_mod::lemma_mod_self_0(n as int);
    }
}

/// In the instance, version and account lists, moving the selection down
/// and then up (or up and then down) returns to the same entry, and each
/// move keeps the selection within the list.
pub proof fn law_prev_undoes_next(o: App, m: App, n: App)
    requires
        o.current_tab == TabId::Instances ==> o.instance_list.selected_instance < o.instance_list.instances@.len(),
        o.current_tab == TabId::Create ==> o.create.selected_filtered_version < o.create.filtered_versions@.len(),
        o.current_tab == TabId::Accounts ==> o.account_list.selected_account < o.account_list.accounts@.len(),
        o.current_tab == TabId::Instances || o.current_tab == TabId::Create || o.current_tab == TabId::Accounts,
    ensures
        crate::app_nav::next_item_effect(o, m) && crate::app_nav::prev_item_effect(m, n) ==> n == o,
        crate::app_nav::prev_item_effect(o, m) && crate::app_nav::next_item_effect(m, n) ==> n == o,
        crate::app_nav::next_item_effect(o, m) || crate::app_nav::prev_item_effect(o, m) ==> (
            (o.current_tab == TabId::Instances ==> m.instance_list.selected_instance < m.instance_list.instances@.len())
            && (o.current_tab == TabId::Create ==> m.create.selected_filtered_version < m.create.filtered_versions@.len())
            && (o.current_tab == TabId::Accounts ==> m.account_list.selected_account < m.account_list.accounts@.len())),
{
    broadcast use vstd::std_specs::vec::axiom_spec_len;
    match o.current_tab {
        TabId::Instances => lemma_cyclic_round_trip(o.instance_list.selected_instance, o.instance_list.instances.len()),
        TabId::Create => lemma_cyclic_round_trip(o.create.selected_filtered_version, o.create.filtered_versions.len()),
        TabId::Accounts => lemma_cyclic_round_trip(o.account_list.selected_account, o.account_list.accounts.len()),
        _ => {},
    }
}

/// While a deletion waits for confirmation only `y` or `Y` deletes: any
/// other key asks for no deletion and leaves the instances as they are,
/// and `n`, `N` or Esc close the popup with "Instance deletion cancelled.".
pub proof fn law_only_yes_deletes(a: App, k: KeyPress, n: App, r: KeyAction)
    requires
        a.instance_page.show_delete_confirm,
        k.pressed,
        command_effect(a, terminal_command_of(a, k), n, r),
    ensures
        terminal_command_of(a, k) is ConfirmDelete <==> (k.code == KeyCode::Char('y') || k.code == KeyCode::Char(
            'Y',
        )),
        terminal_command_of(a, k) is CancelDelete <==> (k.code == KeyCode::Char('n') || k.code == KeyCode::Char(
            'N',
        ) || k.code == KeyCode::Esc),
        k.code != KeyCode::Char('y') && k.code != KeyCode::Char('Y') ==> !(r is DeleteInstance)
            && n.instance_list == a.instance_list,
        k.code == KeyCode::Char('n') || k.code == KeyCode::Char('N') || k.code == KeyCode::Esc ==> {
            &&& r is Nothing
            &&& !n.instance_page.show_delete_confirm
            &&& n.instance_list == a.instance_list
            &&& n.status_message@ == "Instance deletion cancelled."@
        },
{
}

/// In the add-account form of any account kind but ElyBy, every character
/// key is typed into the form, `p` included (only ElyBy takes `p` to show
/// the password); for offline and Microsoft accounts it lands at the end of
/// the username.
pub proof fn law_form_types_every_char(a: App, k: KeyPress, c: char, n: App, r: KeyAction)
    requires
        a.current_tab == TabId::Accounts,
        a.account_form.is_add_account_mode,
        a.account_form.new_account_type != AccountType::ElyBy,
        !a.show_help_popup,
        k.pressed,
        k.code == KeyCode::Char(c),
    ensures
        key_command_of(a, k) == KeyCommand::AddAccountChar(c),
        !a.instance_page.show_delete_confirm ==> terminal_command_of(a, k) == KeyCommand::AddAccountChar(c),
        (a.account_form.new_account_type == AccountType::Offline || a.account_form.new_account_type
            == AccountType::Microsoft) && command_effect(a, key_command_of(a, k), n, r)
            ==> n.account_form.new_account_username@ == a.account_form.new_account_username@.push(c),
{
}

/// In the ElyBy form, `p` shows or hides the password instead of being
/// typed.
pub proof fn law_elyby_p_toggles_password(a: App, k: KeyPress)
    requires
        a.current_tab == TabId::Accounts,
        a.account_form.is_add_account_mode,
        a.account_form.new_account_type == AccountType::ElyBy,
        !a.show_help_popup,
        k.pressed,
        k.code == KeyCode::Char('p'),
    ensures
        key_command_of(a, k) == KeyCommand::TogglePasswordVisibility,
{
}

/// The keys of the add-account form: Esc leaves the form, Enter adds the
/// account, Up and Down change the kind of account, Backspace deletes a
/// character, and Tab moves to the next field only for ElyBy.
pub proof fn law_form_keys(a: App, k: KeyPress)
    requires
        a.current_tab == TabId::Accounts,
        a.account_form.is_add_account_mode,
        !a.show_help_popup,
        k.pressed,
    ensures
        k.code == KeyCode::Esc ==> key_command_of(a, k) == KeyCommand::ToggleAddAccountMode,
        k.code == KeyCode::Enter ==> key_command_of(a, k) == KeyCommand::AddNewAccount,
        k.code == KeyCode::Up ==> key_command_of(a, k) == KeyCommand::PrevAccountType,
        k.code == KeyCode::Down ==> key_command_of(a, k) == KeyCommand::NextAccountType,
        k.code == KeyCode::Backspace ==> key_command_of(a, k) == KeyCommand::RemoveAccountChar,
        k.code == KeyCode::Tab ==> key_command_of(a, k) == if a.account_form.new_account_type
            == AccountType::ElyBy {
            KeyCommand::NextAccountField
        } else {
            KeyCommand::Ignore
        },
{
}

/// While the instance name is edited on the Create tab, every character key
/// goes into the name (`q`, `c` and the other tab keys included), Backspace
/// deletes from it and Esc ends the editing.
pub proof fn law_name_edit_takes_every_char(a: App, k: KeyPress, c: char)
    requires
        a.current_tab == TabId::Create,
        a.create.is_editing_name,
        !a.show_help_popup,
        k.pressed,
    ensures
        k.code == KeyCode::Char(c) ==> key_command_of(a, k) == KeyCommand::PushNameChar(c),
        k.code == KeyCode::Backspace ==> key_command_of(a, k) == KeyCommand::PopNameChar,
        k.code == KeyCode::Esc ==> key_command_of(a, k) == KeyCommand::FinishNameEdit,
{
}

} // verus!
