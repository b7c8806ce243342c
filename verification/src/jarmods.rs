//! The jar mods menu: a list of jar patches, each enabled or not, with a
//! selection that can be toggled, deleted and moved up or down the list.
//!
//! Operations act on the first mod of each selected file name.
use vstd::prelude::*;
use crate::accounts::str_eq;
use crate::args::{lemma_contains_push, views};

verus! {

/// A jar patch of an instance.
pub struct JarMod {
    pub filename: String,
    pub enabled: bool,
}

/// How much of the list is selected.
#[derive(Debug, Clone, Copy, PartialEq, Eq, Structural)]
pub enum SelectedState {
    All,
    Partial,
    Empty,
}

/// The jar mods menu.
pub struct JarModsMenu {
    pub mods: Vec<JarMod>,
    /// The selected file names, each once.
    pub selected: Vec<String>,
    pub selected_state: SelectedState,
}

/// The file names of the mods.
pub open spec fn filenames(s: Seq<JarMod>) -> Seq<Seq<char>> {
    s.map_values(|m: JarMod| m.filename@)
}

/// Whether mod `i` is the first one with its file name.
pub open spec fn first_of_name(s: Seq<JarMod>, i: int) -> bool {
    forall|j: int| 0 <= j < i ==> #[trigger] s[j].filename@ != s[i].filename@
}

/// Whether mod `i` is acted on for the selection: the first mod of a
/// selected name.
pub open spec fn picked(s: Seq<JarMod>, names: Seq<Seq<char>>, i: int) -> bool {
    0 <= i < s.len() && first_of_name(s, i) && names.contains(s[i].filename@)
}

impl JarModsMenu {
    /// The selection names each file once.
    pub open spec fn wf(&self) -> bool {
        views(self.selected@).no_duplicates()
    }

    /// The selected names.
    pub open spec fn selection(&self) -> Seq<Seq<char>> {
        views(self.selected@)
    }
}

/// Whether `s` holds `x`.
fn holds(s: &Vec<String>, x: &str) -> (r: bool)
    ensures
        r == views(s@).contains(x@),
{
    let mut i: usize = 0;
    while i < s.len()
        invariant
            i <= s@.len(),
            forall|k: int| 0 <= k < i ==> s@[k]@ != x@,
        decreases s.len() - i,
    {
        if str_eq(s[i].as_str(), x) {
            assert(views(s@)[i as int] == x@);
            return true;
        }
        i += 1;
    }
    assert forall|k: int| 0 <= k < views(s@).len() implies views(s@)[k] != x@ by {
        assert(views(s@)[k] == s@[k]@);
    }
    false
}

/// Whether mod `i` is the first with its name (executable).
fn is_first_of_name(s: &Vec<JarMod>, i: usize) -> (r: bool)
    requires
        i < s@.len(),
    ensures
        r == first_of_name(s@, i as int),
{
    let mut j: usize = 0;
    while j < i
        invariant
            i < s@.len(),
            j <= i,
            forall|k: int| 0 <= k < j ==> #[trigger] s@[k].filename@ != s@[i as int].filename@,
        decreases i - j,
    {
        if str_eq(s[j].filename.as_str(), s[i].filename.as_str()) {
            return false;
        }
        j += 1;
    }
    true
}

/// The mods with the picked ones enabled or disabled the other way.
pub open spec fn toggled(s: Seq<JarMod>, names: Seq<Seq<char>>) -> Seq<JarMod> {
    Seq::new(
        s.len(),
        |i: int|
            JarMod {
                filename: s[i].filename,
                enabled: if picked(s, names, i) {
                    !s[i].enabled
                } else {
                    s[i].enabled
                },
            },
    )
}

/// The mods without the picked ones.
pub open spec fn without_picked(s: Seq<JarMod>, names: Seq<Seq<char>>) -> Seq<JarMod>
    decreases s.len(),
{
    if s.len() == 0 {
        Seq::empty()
    } else {
        let rest = without_picked(s.drop_last(), names);
        if picked(s, names, s.len() - 1) {
            rest
        } else {
            rest.push(s.last())
        }
    }
}

/// The positions of the picked mods, in increasing order.
pub open spec fn picked_positions(s: Seq<JarMod>, names: Seq<Seq<char>>) -> Seq<int> {
    Seq::new(s.len(), |i: int| i).filter(|i: int| picked(s, names, i))
}

/// Mod `i` moved one place up (towards the start) or down, when there is
/// a place to move to.
pub open spec fn move_one(s: Seq<JarMod>, i: int, up: bool) -> Seq<JarMod> {
    if up && 0 < i < s.len() {
        s.update(i - 1, s[i]).update(i, s[i - 1])
    } else if !up && 0 <= i && i + 1 < s.len() {
        s.update(i, s[i + 1]).update(i + 1, s[i])
    } else {
        s
    }
}

/// The mods after moving the mod at each position of `idxs` in turn.
pub open spec fn moved(s: Seq<JarMod>, idxs: Seq<int>, up: bool) -> Seq<JarMod>
    decreases idxs.len(),
{
    if idxs.len() == 0 {
        s
    } else {
        move_one(moved(s, idxs.drop_last(), up), idxs.last(), up)
    }
}

proof fn lemma_first_of_name_prefix(s: Seq<JarMod>, n: int, i: int)
    requires
        0 <= i < n <= s.len(),
    ensures
        first_of_name(s.take(n), i) == first_of_name(s, i),
{
    let t = s.take(n);
    assert(t[i] == s[i]);
    if first_of_name(s, i) {
        assert forall|j: int| 0 <= j < i implies #[trigger] t[j].filename@ != t[i].filename@ by {
            assert(t[j] == s[j]);
            assert(s[j].filename@ != s[i].filename@);
        }
    }
    if first_of_name(t, i) {
        assert forall|j: int| 0 <= j < i implies #[trigger] s[j].filename@ != s[i].filename@ by {
            assert(t[j] == s[j]);
            assert(t[j].filename@ != t[i].filename@);
        }
    }
}

impl JarModsMenu {
    /// "Select all": clears a full selection; otherwise selects every mod.
    pub fn select_all(&mut self)
        requires
            old(self).wf(),
        ensures
            final(self).wf(),
            final(self).mods == old(self).mods,
            old(self).selected_state == SelectedState::All ==> final(self).selection().len() == 0
                && final(self).selected_state == SelectedState::Empty,
            old(self).selected_state != SelectedState::All ==> final(self).selection().to_set()
                == filenames(old(self).mods@).to_set() && final(self).selected_state
                == SelectedState::All,
    {
        if self.selected_state == SelectedState::All {
            self.selected = Vec::new();
            self.selected_state = SelectedState::Empty;
            assert(views(self.selected@) =~= Seq::<Seq<char>>::empty());
            return ;
        }
        let mut sel: Vec<String> = Vec::new();
        let mut i: usize = 0;
        while i < self.mods.len()
            invariant
                i <= self.mods@.len(),
                views(sel@).no_duplicates(),
                forall|x: Seq<char>| #[trigger] views(sel@).contains(x) <==> filenames(
                    self.mods@.take(i as int),
                ).contains(x),
            decreases self.mods.len() - i,
        {
            let ghost before = sel@;
            let f = self.mods[i].filename.as_str();
            let ghost take_i = filenames(self.mods@.take(i as int));
            assert(filenames(self.mods@.take(i + 1)) =~= take_i.push(f@));
            if !holds(&sel, f) {
                sel.push(self.mods[i].filename.clone());
                assert(views(sel@) =~= views(before).push(f@));
            }
            assert forall|x: Seq<char>| #[trigger] views(sel@).contains(x) <==> filenames(
                self.mods@.take(i + 1),
            ).contains(x) by {
                lemma_contains_push(take_i, f@, x);
                lemma_contains_push(views(before), f@, x);
            }
            i += 1;
        }
        assert(self.mods@.take(self.mods@.len() as int) =~= self.mods@);
        self.selected = sel;
        self.selected_state = SelectedState::All;
        assert(views(self.selected@).to_set() =~= filenames(self.mods@).to_set());
    }

    /// Checks or unchecks one file name.
    pub fn toggle_checkbox(&mut self, name: String, enable: bool)
        requires
            old(self).wf(),
        ensures
            final(self).wf(),
            final(self).mods == old(self).mods,
            enable ==> final(self).selection().to_set() == old(self).selection().to_set().insert(
                name@,
            ) && final(self).selected_state == SelectedState::Partial,
            !enable ==> final(self).selection().to_set() == old(self).selection().to_set().remove(
                name@,
            ) && final(self).selected_state == (if final(self).selection().len() == 0 {
                SelectedState::Empty
            } else {
                SelectedState::Partial
            }),
    {
        let ghost before = views(self.selected@);
        if enable {
            if !holds(&self.selected, name.as_str()) {
                let ghost n = name@;
                self.selected.push(name);
                assert(views(self.selected@) =~= before.push(n));
            }
            self.selected_state = SelectedState::Partial;
            assert forall|x: Seq<char>| #[trigger] views(self.selected@).to_set().contains(x)
                == before.to_set().insert(name@).contains(x) by {
                lemma_contains_push(before, name@, x);
            }
            assert(views(self.selected@).to_set() =~= before.to_set().insert(name@));
        } else {
            let mut kept: Vec<String> = Vec::new();
            let mut i: usize = 0;
            while i < self.selected.len()
                invariant
                    before == views(self.selected@),
                    before.no_duplicates(),
                    i <= before.len(),
                    views(kept@) == before.take(i as int).filter(|x: Seq<char>| x != name@),
                decreases self.selected.len() - i,
            {
                proof {
                    assert(before.take(i + 1) =~= before.take(i as int).push(before[i as int]));
                    before.take(i as int).lemma_filter_push(before[i as int], |x: Seq<char>| x != name@);
                }
                if !str_eq(self.selected[i].as_str(), name.as_str()) {
                    let ghost k0 = kept@;
                    kept.push(self.selected[i].clone());
                    assert(views(kept@) =~= views(k0).push(before[i as int]));
                }
                i += 1;
            }
            assert(before.take(before.len() as int) =~= before);
            let ghost pred = |x: Seq<char>| x != name@;
            proof {
                broadcast use vstd::seq_lib::group_filter_ensures;

                let f = before.filter(pred);
                assert forall|a: int, b: int| 0 <= a < f.len() && 0 <= b < f.len() && a != b implies f[a] != f[b] by {
                    lemma_filter_distinct(before, pred, a, b);
                }
                assert forall|x: Seq<char>| #[trigger] f.contains(x) <==> before.contains(x) && x != name@ by {
                    if before.contains(x) && x != name@ {
                        let k = choose|k: int| 0 <= k < before.len() && before[k] == x;
                        before.lemma_filter_contains(pred, k);
                    }
                    if f.contains(x) {
                        before.lemma_filter_contains_rev(pred, x);
                        let k = choose|k: int| 0 <= k < f.len() && f[k] == x;
                        before.lemma_filter_pred(pred, k);
                    }
                }
                assert(f.to_set() =~= before.to_set().remove(name@));
            }
            self.selected = kept;
            self.selected_state = if self.selected.len() == 0 {
                SelectedState::Empty
            } else {
                SelectedState::Partial
            };
        }
    }
}

impl JarModsMenu {
    /// Enables or disables, the other way round, the first mod of each
    /// selected name.
    pub fn toggle_selected(&mut self)
        requires
            old(self).wf(),
        ensures
            final(self).mods@ == toggled(old(self).mods@, old(self).selection()),
            final(self).selected == old(self).selected,
            final(self).selected_state == old(self).selected_state,
    {
        let ghost m0 = self.mods@;
        let ghost names = views(self.selected@);
        let ghost sel0 = self.selected;
        let ghost st0 = self.selected_state;
        let mut i: usize = 0;
        while i < self.mods.len()
            invariant
                names == views(self.selected@),
                self.selected == sel0,
                self.selected_state == st0,
                self.mods@.len() == m0.len(),
                i <= m0.len(),
                forall|k: int| 0 <= k < m0.len() ==> #[trigger] self.mods@[k].filename == m0[k].filename,
                forall|k: int| 0 <= k < i ==> #[trigger] self.mods@[k] == toggled(m0, names)[k],
                forall|k: int| i <= k < m0.len() ==> #[trigger] self.mods@[k] == m0[k],
            decreases self.mods.len() - i,
        {
            proof {
                assert forall|j: int| 0 <= j < i implies #[trigger] self.mods@[j].filename@
                    == m0[j].filename@ by {}
            }
            let first = is_first_of_name(&self.mods, i);
            assert(first == first_of_name(m0, i as int)) by {
                assert forall|j: int| 0 <= j < i implies (self.mods@[j].filename@
                    != self.mods@[i as int].filename@) == (m0[j].filename@ != m0[i as int].filename@) by {
                    assert(self.mods@[j].filename == m0[j].filename);
                }
            }
            if first && holds(&self.selected, self.mods[i].filename.as_str()) {
                let m = self.mods.remove(i);
                let flipped = JarMod { filename: m.filename, enabled: !m.enabled };
                self.mods.insert(i, flipped);
            }
            i += 1;
        }
        assert(self.mods@ =~= toggled(m0, names));
    }

    /// Takes the first mod of each selected name off the list and clears
    /// the selection; returns the selected names, whose files are to be
    /// deleted.
    pub fn delete_selected(&mut self) -> (r: Vec<String>)
        requires
            old(self).wf(),
        ensures
            final(self).wf(),
            final(self).mods@ == without_picked(old(self).mods@, old(self).selection()),
            final(self).selection().len() == 0,
            final(self).selected_state == old(self).selected_state,
            views(r@) == old(self).selection(),
    {
        let ghost m0 = self.mods@;
        let ghost names = views(self.selected@);
        let mut kept: Vec<JarMod> = Vec::new();
        let mut i: usize = 0;
        while i < self.mods.len()
            invariant
                names == views(self.selected@),
                m0 == self.mods@,
                i <= m0.len(),
                kept@ == without_picked(m0.take(i as int), names),
            decreases self.mods.len() - i,
        {
            let first = is_first_of_name(&self.mods, i);
            let sel = holds(&self.selected, self.mods[i].filename.as_str());
            proof {
                let t = m0.take(i + 1);
                assert(t.drop_last() =~= m0.take(i as int));
                assert(t.last() == m0[i as int]);
                lemma_first_of_name_prefix(m0, i + 1, i as int);
                assert(t[i as int] == m0[i as int]);
            }
            if !(first && sel) {
                let m = JarMod {
                    filename: self.mods[i].filename.clone(),
                    enabled: self.mods[i].enabled,
                };
                assert(m == m0[i as int]);
                kept.push(m);
            }
            i += 1;
        }
        assert(m0.take(m0.len() as int) =~= m0);
        self.mods = kept;
        let mut out: Vec<String> = Vec::new();
        std::mem::swap(&mut out, &mut self.selected);
        assert(views(self.selected@) =~= Seq::<Seq<char>>::empty());
        out
    }

    /// Moves the first mod of each selected name one place up (or down),
    /// handling the mods from the top (from the bottom when moving down).
    pub fn move_up_or_down(&mut self, up: bool)
        requires
            old(self).wf(),
        ensures
            final(self).mods@ == moved(
                old(self).mods@,
                if up {
                    picked_positions(old(self).mods@, old(self).selection())
                } else {
                    picked_positions(old(self).mods@, old(self).selection()).reverse()
                },
                up,
            ),
            final(self).selected == old(self).selected,
            final(self).selected_state == old(self).selected_state,
    {
        let ghost m0 = self.mods@;
        let ghost names = views(self.selected@);
        let ghost pred = |k: int| picked(m0, names, k);
        let ghost sel0 = self.selected;
        let ghost st0 = self.selected_state;
        let mut pos: Vec<usize> = Vec::new();
        let mut i: usize = 0;
        while i < self.mods.len()
            invariant
                m0 == self.mods@,
                names == views(self.selected@),
                pred == (|k: int| picked(m0, names, k)),
                i <= m0.len(),
                pos@.map_values(|p: usize| p as int) == Seq::new(i as nat, |k: int| k).filter(pred),
                forall|k: int| 0 <= k < pos@.len() ==> #[trigger] pos@[k] < m0.len(),
            decreases self.mods.len() - i,
        {
            let ghost before = pos@;
            proof {
                assert(Seq::new((i + 1) as nat, |k: int| k) =~= Seq::new(i as nat, |k: int| k).push(
                    i as int,
                ));
                Seq::new(i as nat, |k: int| k).lemma_filter_push(i as int, pred);
            }
            if is_first_of_name(&self.mods, i) && holds(
                &self.selected,
                self.mods[i].filename.as_str(),
            ) {
                pos.push(i);
                assert(pos@.map_values(|p: usize| p as int) =~= before.map_values(
                    |p: usize| p as int,
                ).push(i as int));
            }
            i += 1;
        }
        let ghost positions = pos@.map_values(|p: usize| p as int);
        assert(positions == picked_positions(m0, names)) by {
            assert(Seq::new(m0.len(), |k: int| k) =~= Seq::new(i as nat, |k: int| k));
        }
        let ghost order = if up {
            positions
        } else {
            positions.reverse()
        };
        let n = pos.len();
        let mut k: usize = 0;
        while k < n
            invariant
                n == pos@.len(),
                positions == pos@.map_values(|p: usize| p as int),
                order == (if up {
                    positions
                } else {
                    positions.reverse()
                }),
                k <= n,
                self.mods@ == moved(m0, order.take(k as int), up),
                names == views(self.selected@),
                self.selected == sel0,
                self.selected_state == st0,
            decreases n - k,
        {
            let idx = if up {
                pos[k]
            } else {
                pos[n - 1 - k]
            };
            assert(order[k as int] == idx as int);
            assert(order.take(k + 1).drop_last() =~= order.take(k as int));
            let ghost cur = self.mods@;
            let len = self.mods.len();
            if up && idx > 0 && idx < len {
                let m = self.mods.remove(idx);
                self.mods.insert(idx - 1, m);
                assert(self.mods@ =~= move_one(cur, idx as int, up));
            } else if !up && idx < len && idx + 1 < len {
                let m = self.mods.remove(idx);
                self.mods.insert(idx + 1, m);
                assert(self.mods@ =~= move_one(cur, idx as int, up));
            }
            k += 1;
        }
        assert(order.take(n as int) =~= order);
    }
}

/// The elements a filter keeps stay distinct.
proof fn lemma_filter_distinct(s: Seq<Seq<char>>, pred: spec_fn(Seq<char>) -> bool, a: int, b: int)
    requires
        s.no_duplicates(),
        0 <= a < s.filter(pred).len(),
        0 <= b < s.filter(pred).len(),
        a != b,
    ensures
        s.filter(pred)[a] != s.filter(pred)[b],
    decreases s.len(),
{
    reveal(Seq::filter);
    let rest = s.drop_last().filter(pred);
    assert(s.drop_last().no_duplicates()) by {
        assert forall|i: int, j: int|
            0 <= i < s.drop_last().len() && 0 <= j < s.drop_last().len() && i != j implies s.drop_last()[i]
            != s.drop_last()[j] by {
            assert(s[i] != s[j]);
        }
    }
    if pred(s.last()) {
        let n = rest.len() as int;
        if a < n && b < n {
            lemma_filter_distinct(s.drop_last(), pred, a, b);
        } else {
            let k = if a < n {
                a
            } else {
                b
            };
            assert(rest.contains(rest[k]));
            s.drop_last().lemma_filter_contains_rev(pred, rest[k]);
            let m = choose|m: int| 0 <= m < s.drop_last().len() && s.drop_last()[m] == rest[k];
            assert(s[m] != s[s.len() - 1]);
        }
    } else {
        lemma_filter_distinct(s.drop_last(), pred, a, b);
    }
}

/// Whether a mod is left alone by a move: its name is not selected.
pub open spec fn unselected(names: Seq<Seq<char>>) -> spec_fn(JarMod) -> bool {
    |m: JarMod| !names.contains(m.filename@)
}

proof fn lemma_pair_filter(x: JarMod, y: JarMod, pred: spec_fn(JarMod) -> bool)
    requires
        !pred(x) || !pred(y),
    ensures
        seq![x, y].filter(pred) == seq![y, x].filter(pred),
{
    reveal_with_fuel(Seq::filter, 3);
    assert(seq![x, y].drop_last() =~= seq![x]);
    assert(seq![y, x].drop_last() =~= seq![y]);
    assert(seq![x].drop_last() =~= Seq::<JarMod>::empty());
    assert(seq![y].drop_last() =~= Seq::<JarMod>::empty());
}

/// Swapping the mods at `j` and `j + 1`, one of them selected, keeps the
/// mods and the order of the unselected ones.
proof fn lemma_swap(cur: Seq<JarMod>, j: int, names: Seq<Seq<char>>)
    requires
        0 <= j,
        j + 1 < cur.len(),
        names.contains(cur[j].filename@) || names.contains(cur[j + 1].filename@),
    ensures
        ({
            let t = cur.update(j, cur[j + 1]).update(j + 1, cur[j]);
            &&& t.to_multiset() == cur.to_multiset()
            &&& t.filter(unselected(names)) == cur.filter(unselected(names))
        }),
{
    broadcast use {
        vstd::seq_lib::to_multiset_update,
        vstd::multiset::group_multiset_properties,
        vstd::multiset::group_multiset_axioms,
    };
    let t = cur.update(j, cur[j + 1]).update(j + 1, cur[j]);
    let t1 = cur.update(j, cur[j + 1]);
    assert(t1[j + 1] == cur[j + 1]);
    let m = cur.to_multiset();
    let a = cur[j];
    let b = cur[j + 1];
    vstd::seq_lib::to_multiset_contains(cur, a);
    vstd::seq_lib::to_multiset_contains(cur, b);
    assert(cur.contains(a) && cur.contains(b));
    assert(t1.to_multiset() == m.insert(b).remove(a));
    assert(t.to_multiset() == m.insert(b).remove(a).insert(a).remove(b));
    assert forall|x| #[trigger] t.to_multiset().count(x) == m.count(x) by {
    }
    assert(t.to_multiset() =~= cur.to_multiset());
    let pre = cur.take(j);
    let post = cur.skip(j + 2);
    assert(cur =~= pre + seq![cur[j], cur[j + 1]] + post);
    assert(t =~= pre + seq![cur[j + 1], cur[j]] + post);
    let pred = unselected(names);
    lemma_pair_filter(cur[j], cur[j + 1], pred);
    Seq::filter_distributes_over_add(pre + seq![cur[j], cur[j + 1]], post, pred);
    Seq::filter_distributes_over_add(pre, seq![cur[j], cur[j + 1]], pred);
    Seq::filter_distributes_over_add(pre + seq![cur[j + 1], cur[j]], post, pred);
    Seq::filter_distributes_over_add(pre, seq![cur[j + 1], cur[j]], pred);
    assert((pre + seq![cur[j], cur[j + 1]] + post).filter(pred) == pre.filter(pred) + seq![cur[j], cur[j + 1]].filter(pred)
        + post.filter(pred));
    assert((pre + seq![cur[j + 1], cur[j]] + post).filter(pred) == pre.filter(pred) + seq![cur[j + 1], cur[j]].filter(pred)
        + post.filter(pred));
}

/// A filter of a strictly increasing sequence is strictly increasing and
/// takes its elements from it.
proof fn lemma_filter_increasing(x: Seq<int>, pred: spec_fn(int) -> bool)
    requires
        forall|a: int, b: int| 0 <= a < b < x.len() ==> x[a] < x[b],
    ensures
        forall|a: int, b: int| 0 <= a < b < x.filter(pred).len() ==> x.filter(pred)[a] < x.filter(pred)[b],
        forall|a: int| 0 <= a < x.filter(pred).len() ==> x.contains(#[trigger] x.filter(pred)[a]) && pred(x.filter(pred)[a]),
    decreases x.len(),
{
    reveal(Seq::filter);
    broadcast use vstd::seq_lib::group_filter_ensures;
    if x.len() > 0 {
        let d = x.drop_last();
        lemma_filter_increasing(d, pred);
        let f = d.filter(pred);
        assert forall|a: int| 0 <= a < f.len() implies f[a] < x.last() by {
            let k = choose|k: int| 0 <= k < d.len() && d[k] == f[a];
            assert(x[k] == d[k]);
        }
        assert forall|a: int| 0 <= a < x.filter(pred).len() implies x.contains(#[trigger] x.filter(pred)[a]) by {
            if a < f.len() {
                let k = choose|k: int| 0 <= k < d.len() && d[k] == f[a];
                assert(x[k] == d[k]);
            } else {
                assert(x[x.len() - 1] == x.last());
            }
        }
    }
}

/// The picked positions are in range, picked, and increasing.
proof fn lemma_picked_positions(s: Seq<JarMod>, names: Seq<Seq<char>>)
    ensures
        forall|a: int| 0 <= a < picked_positions(s, names).len() ==> picked(s, names, #[trigger] picked_positions(s, names)[a]),
        forall|a: int, b: int| 0 <= a < b < picked_positions(s, names).len() ==> picked_positions(s, names)[a]
            < picked_positions(s, names)[b],
{
    let x = Seq::new(s.len(), |i: int| i);
    let pred = |i: int| picked(s, names, i);
    lemma_filter_increasing(x, pred);
}

/// Moving the mods at `order` one after another (increasing positions when
/// moving up, decreasing when moving down), each of them selected, keeps
/// the mods and the order of the unselected ones, and leaves the mods past
/// the last moved position (before it, when moving down) where they were.
proof fn lemma_moved_prefix(s: Seq<JarMod>, names: Seq<Seq<char>>, order: Seq<int>, up: bool, k: int)
    requires
        0 <= k <= order.len(),
        forall|a: int| 0 <= a < order.len() ==> 0 <= #[trigger] order[a] < s.len() && names.contains(s[order[a]].filename@),
        up ==> forall|a: int, b: int| 0 <= a < b < order.len() ==> order[a] < order[b],
        !up ==> forall|a: int, b: int| 0 <= a < b < order.len() ==> order[a] > order[b],
    ensures
        moved(s, order.take(k), up).len() == s.len(),
        moved(s, order.take(k), up).to_multiset() == s.to_multiset(),
        moved(s, order.take(k), up).filter(unselected(names)) == s.filter(unselected(names)),
        k > 0 && up ==> forall|i: int| order[k - 1] < i < s.len() ==> moved(s, order.take(k), up)[i] == s[i],
        k > 0 && !up ==> forall|i: int| 0 <= i < order[k - 1] ==> moved(s, order.take(k), up)[i] == s[i],
    decreases k,
{
    if k == 0 {
        assert(order.take(0).len() == 0);
    } else {
        lemma_moved_prefix(s, names, order, up, k - 1);
        assert(order.take(k).drop_last() =~= order.take(k - 1));
        assert(order.take(k).last() == order[k - 1]);
        let cur = moved(s, order.take(k - 1), up);
        let p = order[k - 1];
        assert(cur[p] == s[p]) by {
            if k - 1 > 0 {
                assert(order[k - 2] < p || order[k - 2] > p);
            }
        }
        if up && 0 < p < cur.len() {
            lemma_swap(cur, p - 1, names);
        } else if !up && 0 <= p && p + 1 < cur.len() {
            lemma_swap(cur, p, names);
        }
        if k - 1 > 0 {
            assert(up ==> order[k - 2] < p);
            assert(!up ==> order[k - 2] > p);
        }
    }
}

/// Moving the selected jar mods up or down keeps the same mods (a
/// permutation) and keeps the unselected mods in their order.
pub proof fn law_jar_move_keeps_mods(s: Seq<JarMod>, names: Seq<Seq<char>>, up: bool)
    ensures
        ({
            let pp = picked_positions(s, names);
            let r = moved(s, if up { pp } else { pp.reverse() }, up);
            &&& r.len() == s.len()
            &&& r.to_multiset() == s.to_multiset()
            &&& r.filter(unselected(names)) == s.filter(unselected(names))
        }),
{
    let pp = picked_positions(s, names);
    lemma_picked_positions(s, names);
    let order = if up { pp } else { pp.reverse() };
    assert forall|a: int| 0 <= a < order.len() implies 0 <= #[trigger] order[a] < s.len() && names.contains(s[order[a]].filename@) by {
        if up {
            assert(picked(s, names, pp[a]));
        } else {
            assert(order[a] == pp[pp.len() - 1 - a]);
            assert(picked(s, names, pp[pp.len() - 1 - a]));
        }
    }
    if !up {
        assert forall|a: int, b: int| 0 <= a < b < order.len() implies order[a] > order[b] by {
            assert(order[a] == pp[pp.len() - 1 - a]);
            assert(order[b] == pp[pp.len() - 1 - b]);
        }
    }
    lemma_moved_prefix(s, names, order, up, order.len() as int);
    assert(order.take(order.len() as int) =~= order);
}

proof fn lemma_moved_concat(s: Seq<JarMod>, x: Seq<int>, y: Seq<int>, up: bool)
    ensures
        moved(s, x + y, up) == moved(moved(s, x, up), y, up),
    decreases y.len(),
{
    if y.len() == 0 {
        assert(x + y =~= x);
    } else {
        assert((x + y).drop_last() =~= x + y.drop_last());
        assert((x + y).last() == y.last());
        lemma_moved_concat(s, x, y.drop_last(), up);
    }
}

/// Moves that all happen above position `j` (below it, when moving down)
/// leave the mod at `j` in place.
proof fn lemma_moves_away(t: Seq<JarMod>, qs: Seq<int>, j: int, up: bool)
    requires
        0 <= j < t.len(),
        forall|a: int| 0 <= a < qs.len() ==> (if up { #[trigger] qs[a] - 1 > j } else { qs[a] + 1 < j }),
    ensures
        moved(t, qs, up).len() == t.len(),
        moved(t, qs, up)[j] == t[j],
    decreases qs.len(),
{
    if qs.len() > 0 {
        assert forall|a: int| 0 <= a < qs.drop_last().len() implies (if up { #[trigger] qs.drop_last()[a] - 1 > j } else { qs.drop_last()[a] + 1 < j }) by {
            assert(qs.drop_last()[a] == qs[a]);
        }
        lemma_moves_away(t, qs.drop_last(), j, up);
        assert(qs.last() == qs[qs.len() - 1]);
    }
}

/// With distinct file names, a selected mod whose neighbour above (below,
/// when moving down) is not selected moves into that neighbour's place.
pub proof fn law_jar_move_places_selected(s: Seq<JarMod>, names: Seq<Seq<char>>, up: bool, i: int)
    requires
        forall|a: int, b: int| 0 <= a < b < s.len() ==> (#[trigger] s[a]).filename@ != (#[trigger] s[b]).filename@,
        0 <= i < s.len(),
        names.contains(s[i].filename@),
        up ==> i > 0 && !names.contains(s[i - 1].filename@),
        !up ==> i + 1 < s.len() && !names.contains(s[i + 1].filename@),
    ensures
        ({
            let pp = picked_positions(s, names);
            let r = moved(s, if up { pp } else { pp.reverse() }, up);
            &&& up ==> r[i - 1] == s[i]
            &&& !up ==> r[i + 1] == s[i]
        }),
{
    let pp = picked_positions(s, names);
    lemma_picked_positions(s, names);
    let x = Seq::new(s.len(), |k: int| k);
    let pred = |k: int| picked(s, names, k);
    assert(first_of_name(s, i)) by {
        assert forall|j: int| 0 <= j < i implies #[trigger] s[j].filename@ != s[i].filename@ by {
            assert(s[j].filename@ != s[i].filename@);
        }
    }
    assert(pred(x[i]));
    x.lemma_filter_contains(pred, i);
    assert(pp.contains(i));
    let a = choose|a: int| 0 <= a < pp.len() && pp[a] == i;
    let order = if up { pp } else { pp.reverse() };
    let ao = if up { a } else { pp.len() - 1 - a };
    assert(order[ao] == i);
    assert forall|c: int| 0 <= c < order.len() implies 0 <= #[trigger] order[c] < s.len() && names.contains(s[order[c]].filename@) by {
        if up {
            assert(picked(s, names, pp[c]));
        } else {
            assert(order[c] == pp[pp.len() - 1 - c]);
            assert(picked(s, names, pp[pp.len() - 1 - c]));
        }
    }
    if !up {
        assert forall|c: int, d: int| 0 <= c < d < order.len() implies order[c] > order[d] by {
            assert(order[c] == pp[pp.len() - 1 - c]);
            assert(order[d] == pp[pp.len() - 1 - d]);
        }
    }
    lemma_moved_prefix(s, names, order, up, ao);
    let cur = moved(s, order.take(ao), up);
    if ao > 0 {
        let prev = order[ao - 1];
        assert(names.contains(s[prev].filename@));
        if up {
            assert(prev < i);
            assert(prev != i - 1);
        } else {
            assert(prev > i);
            assert(prev != i + 1);
        }
    } else {
        assert(order.take(0) =~= Seq::<int>::empty());
    }
    assert(cur[i] == s[i]);
    assert(order.take(ao + 1).drop_last() =~= order.take(ao));
    assert(order.take(ao + 1).last() == i);
    let cur2 = moved(s, order.take(ao + 1), up);
    assert(cur2 == move_one(cur, i, up));
    let rest = order.skip(ao + 1);
    let j = if up { i - 1 } else { i + 1 };
    assert forall|c: int| 0 <= c < rest.len() implies (if up { #[trigger] rest[c] - 1 > j } else { rest[c] + 1 < j }) by {
        assert(rest[c] == order[ao + 1 + c]);
    }
    lemma_moves_away(cur2, rest, j, up);
    lemma_moved_concat(s, order.take(ao + 1), rest, up);
    assert(order.take(ao + 1) + rest =~= order);
}

} // verus!
