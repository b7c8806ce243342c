//! Selecting mods in the mod list: a click selects one mod, Ctrl+click adds
//! or removes one, and Shift+click selects the range from the last clicked
//! mod, replacing the range that an earlier Shift+click added.
use vstd::prelude::*;
use crate::accounts::str_eq;
use crate::mods::{ModSource, SelectedMod};

verus! {

/// What identifies a selected mod: its variant, and its fields as text.
pub open spec fn mod_key(m: SelectedMod) -> (int, Seq<char>, Seq<char>) {
    match m {
        SelectedMod::Downloaded { name, id } => match id {
            ModSource::Modrinth(p) => (0, name@, p@),
            ModSource::Curseforge(p) => (1, name@, p@),
        },
        SelectedMod::Local { file_name, is_mod } => (
            if is_mod {
                2
            } else {
                3
            },
            file_name@,
            Seq::empty(),
        ),
    }
}

/// The mods of a list, as a set of keys.
pub open spec fn key_set(v: Seq<SelectedMod>) -> Set<(int, Seq<char>, Seq<char>)> {
    Set::new(|k: (int, Seq<char>, Seq<char>)| exists|i: int| 0 <= i < v.len() && #[trigger] mod_key(v[i]) == k)
}

/// No mod occurs twice.
pub open spec fn distinct_keys(v: Seq<SelectedMod>) -> bool {
    forall|i: int, j: int| 0 <= i < j < v.len() ==> mod_key(#[trigger] v[i]) != mod_key(#[trigger] v[j])
}

/// The position of a mod in the list, or 0 when it is not listed.
pub open spec fn list_index(list: Seq<SelectedMod>, k: (int, Seq<char>, Seq<char>)) -> int {
    if exists|i: int| 0 <= i < list.len() && #[trigger] mod_key(list[i]) == k {
        let i = choose|i: int| 0 <= i < list.len() && #[trigger] mod_key(list[i]) == k
            && forall|j: int| 0 <= j < i ==> #[trigger] mod_key(list[j]) != k;
        i
    } else {
        0
    }
}

/// The selection of the mod list: the selected mods, the mods that the
/// last Shift+click added, and where the last plain or Ctrl click was.
pub struct ModSelection {
    pub selected_mods: Vec<SelectedMod>,
    pub shift_selected_mods: Vec<SelectedMod>,
    pub list_shift_index: Option<usize>,
    /// The open modal of the mod list: the right-click menu of the mod of
    /// that id, if one is open.
    pub modal: Option<String>,
}

impl ModSelection {
    /// Neither list holds a mod twice.
    pub open spec fn wf(&self) -> bool {
        distinct_keys(self.selected_mods@) && distinct_keys(self.shift_selected_mods@)
    }

    /// The selected mods.
    pub open spec fn selected(&self) -> Set<(int, Seq<char>, Seq<char>)> {
        key_set(self.selected_mods@)
    }

    /// The mods the last Shift+click added.
    pub open spec fn shift_selected(&self) -> Set<(int, Seq<char>, Seq<char>)> {
        key_set(self.shift_selected_mods@)
    }
}

/// The selected and shift-selected mods after the modifier keys of a click
/// were looked at: Ctrl keeps the selection and forgets the last range; a
/// plain click clears the selection unless it is exactly the clicked mod.
pub open spec fn after_modifiers(
    s: Set<(int, Seq<char>, Seq<char>)>,
    h: Set<(int, Seq<char>, Seq<char>)>,
    k: (int, Seq<char>, Seq<char>),
    ctrl: bool,
    shift: bool,
) -> (Set<(int, Seq<char>, Seq<char>)>, Set<(int, Seq<char>, Seq<char>)>) {
    if ctrl {
        (s, Set::empty())
    } else if !shift {
        (if s == set![k] { s } else { Set::empty() }, h)
    } else {
        (s, h)
    }
}

/// Whether a click selects a range: Shift is held and the last click was
/// elsewhere in the list.
pub open spec fn selects_range(
    last: Option<usize>,
    list: Seq<SelectedMod>,
    k: (int, Seq<char>, Seq<char>),
    shift: bool,
) -> bool {
    shift && last is Some && last->0 != list_index(list, k)
}

/// The mods between the last click and this one, both included.
pub open spec fn range_keys(list: Seq<SelectedMod>, a: int, b: int) -> Set<(int, Seq<char>, Seq<char>)> {
    let lo = if a < b { a } else { b };
    let hi = if a < b { b } else { a };
    key_set(list.subrange(lo, hi + 1))
}

pub(crate) fn copy_source(s: &ModSource) -> (r: ModSource)
    ensures
        match (*s, r) {
            (ModSource::Modrinth(a), ModSource::Modrinth(b)) => a@ == b@,
            (ModSource::Curseforge(a), ModSource::Curseforge(b)) => a@ == b@,
            _ => false,
        },
{
    match s {
        ModSource::Modrinth(p) => ModSource::Modrinth(p.clone()),
        ModSource::Curseforge(p) => ModSource::Curseforge(p.clone()),
    }
}

/// A copy of a selected mod.
fn copy_mod(m: &SelectedMod) -> (r: SelectedMod)
    ensures
        mod_key(r) == mod_key(*m),
{
    match m {
        SelectedMod::Downloaded { name, id } => SelectedMod::Downloaded {
            name: name.clone(),
            id: copy_source(id),
        },
        SelectedMod::Local { file_name, is_mod } => SelectedMod::Local {
            file_name: file_name.clone(),
            is_mod: *is_mod,
        },
    }
}

/// Whether two selected mods are the same mod.
pub fn same_mod(a: &SelectedMod, b: &SelectedMod) -> (r: bool)
    ensures
        r == (mod_key(*a) == mod_key(*b)),
{
    match (a, b) {
        (
            SelectedMod::Downloaded { name: n1, id: i1 },
            SelectedMod::Downloaded { name: n2, id: i2 },
        ) => {
            let same_source = match (i1, i2) {
                (ModSource::Modrinth(p), ModSource::Modrinth(q)) => str_eq(p.as_str(), q.as_str()),
                (ModSource::Curseforge(p), ModSource::Curseforge(q)) => str_eq(
                    p.as_str(),
                    q.as_str(),
                ),
                _ => false,
            };
            same_source && str_eq(n1.as_str(), n2.as_str())
        },
        (
            SelectedMod::Local { file_name: f1, is_mod: m1 },
            SelectedMod::Local { file_name: f2, is_mod: m2 },
        ) => *m1 == *m2 && str_eq(f1.as_str(), f2.as_str()),
        _ => false,
    }
}

proof fn lemma_key_set_push(v: Seq<SelectedMod>, m: SelectedMod)
    ensures
        key_set(v.push(m)) == key_set(v).insert(mod_key(m)),
{
    let w = v.push(m);
    assert forall|k| key_set(w).contains(k) implies #[trigger] key_set(v).insert(mod_key(m)).contains(k) by {
        let i = choose|i: int| 0 <= i < w.len() && #[trigger] mod_key(w[i]) == k;
        if i < v.len() {
            assert(mod_key(v[i]) == k);
        }
    }
    assert forall|k| key_set(v).insert(mod_key(m)).contains(k) implies #[trigger] key_set(w).contains(k) by {
        if k == mod_key(m) {
            assert(mod_key(w[v.len() as int]) == k);
        } else {
            let i = choose|i: int| 0 <= i < v.len() && #[trigger] mod_key(v[i]) == k;
            assert(mod_key(w[i]) == k);
        }
    }
    assert(key_set(w) =~= key_set(v).insert(mod_key(m)));
}

proof fn lemma_key_set_empty()
    ensures
        key_set(Seq::<SelectedMod>::empty()) == Set::<(int, Seq<char>, Seq<char>)>::empty(),
{
    assert(key_set(Seq::<SelectedMod>::empty()) =~= Set::<(int, Seq<char>, Seq<char>)>::empty());
}

/// Whether the list holds the mod.
fn holds(v: &Vec<SelectedMod>, m: &SelectedMod) -> (r: bool)
    ensures
        r == key_set(v@).contains(mod_key(*m)),
{
    let mut i: usize = 0;
    while i < v.len()
        invariant
            i <= v@.len(),
            forall|j: int| 0 <= j < i ==> #[trigger] mod_key(v@[j]) != mod_key(*m),
        decreases v.len() - i,
    {
        if same_mod(&v[i], m) {
            assert(mod_key(v@[i as int]) == mod_key(*m));
            return true;
        }
        i += 1;
    }
    false
}

/// The list without the entries whose key `drop` holds.
fn without(v: &Vec<SelectedMod>, drop: &Vec<SelectedMod>) -> (r: Vec<SelectedMod>)
    requires
        distinct_keys(v@),
    ensures
        distinct_keys(r@),
        key_set(r@) == key_set(v@).difference(key_set(drop@)),
{
    let mut out: Vec<SelectedMod> = Vec::new();
    let mut i: usize = 0;
    proof {
        lemma_key_set_empty();
    }
    while i < v.len()
        invariant
            i <= v@.len(),
            distinct_keys(v@),
            distinct_keys(out@),
            key_set(out@) == key_set(v@.take(i as int)).difference(key_set(drop@)),
        decreases v.len() - i,
    {
        let keep = !holds(drop, &v[i]);
        let ghost before = out@;
        proof {
            assert(v@.take(i + 1) == v@.take(i as int).push(v@[i as int]));
            lemma_key_set_push(v@.take(i as int), v@[i as int]);
        }
        if keep {
            let c = copy_mod(&v[i]);
            proof {
                assert forall|j: int| 0 <= j < before.len() implies mod_key(#[trigger] before[j])
                    != mod_key(c) by {
                    assert(key_set(out@).contains(mod_key(before[j])));
                    let t = choose|t: int| 0 <= t < i && #[trigger] mod_key(v@.take(i as int)[t])
                        == mod_key(before[j]);
                    assert(v@.take(i as int)[t] == v@[t]);
                }
                lemma_key_set_push(before, c);
            }
            out.push(c);
        }
        i += 1;
        proof {
            assert(key_set(out@) =~= key_set(v@.take(i as int)).difference(key_set(drop@)));
        }
    }
    proof {
        assert(v@.take(v@.len() as int) == v@);
    }
    out
}

/// Adds the mod to the list unless it holds it; says whether it was added.
pub(crate) fn insert_mod(v: &mut Vec<SelectedMod>, m: &SelectedMod) -> (added: bool)
    requires
        distinct_keys(old(v)@),
    ensures
        distinct_keys(final(v)@),
        added == !key_set(old(v)@).contains(mod_key(*m)),
        key_set(final(v)@) == key_set(old(v)@).insert(mod_key(*m)),
{
    if holds(v, m) {
        proof {
            assert(key_set(v@).insert(mod_key(*m)) =~= key_set(v@));
        }
        false
    } else {
        let c = copy_mod(m);
        proof {
            assert forall|j: int| 0 <= j < v@.len() implies mod_key(#[trigger] v@[j]) != mod_key(
                c,
            ) by {
                if mod_key(v@[j]) == mod_key(c) {
                    assert(key_set(v@).contains(mod_key(*m)));
                }
            }
            lemma_key_set_push(v@, c);
        }
        v.push(c);
        true
    }
}

/// Removes the mod from the list.
fn remove_mod(v: &mut Vec<SelectedMod>, m: &SelectedMod)
    requires
        distinct_keys(old(v)@),
    ensures
        distinct_keys(final(v)@),
        key_set(final(v)@) == key_set(old(v)@).remove(mod_key(*m)),
{
    let mut one: Vec<SelectedMod> = Vec::new();
    one.push(copy_mod(m));
    proof {
        lemma_key_set_empty();
        lemma_key_set_push(Seq::empty(), one@[0]);
        assert(Seq::<SelectedMod>::empty().push(one@[0]) == one@);
    }
    let r = without(v, &one);
    proof {
        assert(key_set(r@) =~= key_set(v@).remove(mod_key(*m)));
    }
    *v = r;
}

/// The position of the mod in the list, or 0 when it is not listed.
pub fn index_in(list: &Vec<SelectedMod>, m: &SelectedMod) -> (r: usize)
    ensures
        r == list_index(list@, mod_key(*m)),
{
    let mut i: usize = 0;
    while i < list.len()
        invariant
            i <= list@.len(),
            forall|j: int| 0 <= j < i ==> #[trigger] mod_key(list@[j]) != mod_key(*m),
        decreases list.len() - i,
    {
        if same_mod(&list[i], m) {
            let ghost k = mod_key(*m);
            proof {
                assert(mod_key(list@[i as int]) == k);
                let c = choose|c: int| 0 <= c < list@.len() && #[trigger] mod_key(list@[c]) == k
                    && forall|j: int| 0 <= j < c ==> #[trigger] mod_key(list@[j]) != k;
                if c < i {
                } else if c > i {
                    assert(mod_key(list@[i as int]) != k);
                }
            }
            return i;
        }
        i += 1;
    }
    0
}

/// The selection after a click on the mod `m` of `list` with Ctrl and Shift
/// as held (see `ModSelection::select_mod`).
pub open spec fn clicked(o: ModSelection, list: Seq<SelectedMod>, m: SelectedMod, ctrl: bool, shift: bool, n: ModSelection) -> bool {
    let k = mod_key(m);
    let (s1, h1) = after_modifiers(o.selected(), o.shift_selected(), k, ctrl, shift);
    let idx = list_index(list, k);
    if selects_range(o.list_shift_index, list, k, shift) {
        let r = range_keys(list, idx, o.list_shift_index->0 as int);
        &&& n.selected() == s1.difference(h1).union(r)
        &&& n.shift_selected() == r.difference(s1.difference(h1))
        &&& n.list_shift_index == o.list_shift_index
    } else {
        &&& n.selected() == if s1.contains(k) { s1.remove(k) } else { s1.insert(k) }
        &&& n.shift_selected() == h1
        &&& n.list_shift_index == Some(idx as usize)
    }
}

impl ModSelection {
    /// A click on a mod of the list (`list` holds the listed mods in their
    /// order), with Ctrl and Shift as held. Ctrl forgets the last range and
    /// keeps the selection; a plain click clears the selection unless it is
    /// exactly this mod. Then a Shift+click away from the last click selects
    /// the range between them in place of the last range; any other click
    /// toggles the mod and becomes the last click. Any open modal closes.
    pub fn select_mod(&mut self, list: &Vec<SelectedMod>, selected_mod: SelectedMod, pressed_ctrl: bool, pressed_shift: bool)
        requires
            old(self).wf(),
            selects_range(old(self).list_shift_index, list@, mod_key(selected_mod), pressed_shift)
                ==> old(self).list_shift_index->0 < list@.len() && list_index(list@, mod_key(selected_mod)) < list@.len(),
        ensures
            final(self).wf(),
            final(self).modal is None,
            clicked(*old(self), list@, selected_mod, pressed_ctrl, pressed_shift, *final(self)),
    {
        let ghost k = mod_key(selected_mod);
        self.modal = None;
        if pressed_ctrl {
            self.shift_selected_mods = Vec::new();
            proof {
                lemma_key_set_empty();
            }
        } else if !pressed_shift {
            let single = self.selected_mods.len() == 1 && same_mod(&selected_mod, &self.selected_mods[0]);
            proof {
                let s = self.selected_mods@;
                if s.len() == 1 {
                    assert(key_set(s) =~= set![mod_key(s[0])]);
                } else {
                    if key_set(s) == set![k] {
                        assert(key_set(s).contains(k));
                        let i = choose|i: int| 0 <= i < s.len() && #[trigger] mod_key(s[i]) == k;
                        if s.len() == 0 {
                        } else {
                            let o = if i == 0 { 1int } else { 0int };
                            assert(key_set(s).contains(mod_key(s[o])));
                            assert(mod_key(s[o]) == k);
                        }
                    }
                }
            }
            if !single {
                self.selected_mods = Vec::new();
                proof {
                    lemma_key_set_empty();
                }
            }
        }
        let ghost (s1, h1) = after_modifiers(old(self).selected(), old(self).shift_selected(), k, pressed_ctrl, pressed_shift);
        assert(self.selected() == s1 && self.shift_selected() == h1);
        let idx = index_in(list, &selected_mod);
        let range = match self.list_shift_index {
            Some(shift_idx) => pressed_shift && shift_idx != idx,
            None => false,
        };
        if range {
            let shift_idx = match self.list_shift_index {
                Some(s) => s,
                None => 0,
            };
            let kept = without(&self.selected_mods, &self.shift_selected_mods);
            let ghost base = key_set(kept@);
            self.selected_mods = kept;
            self.shift_selected_mods = Vec::new();
            proof {
                lemma_key_set_empty();
            }
            let lo = if idx < shift_idx { idx } else { shift_idx };
            let hi = if idx < shift_idx { shift_idx } else { idx };
            let mut i: usize = lo;
            while i <= hi
                invariant
                    lo <= i <= hi + 1,
                    hi < list@.len(),
                    list@.len() == list.len(),
                    self.list_shift_index == old(self).list_shift_index,
                    self.modal is None,
                    distinct_keys(self.selected_mods@),
                    distinct_keys(self.shift_selected_mods@),
                    key_set(self.selected_mods@) == base.union(key_set(list@.subrange(lo as int, i as int))),
                    key_set(self.shift_selected_mods@) == key_set(list@.subrange(lo as int, i as int)).difference(base),
                decreases hi + 1 - i,
            {
                proof {
                    assert(list@.subrange(lo as int, i + 1) == list@.subrange(lo as int, i as int).push(list@[i as int]));
                    lemma_key_set_push(list@.subrange(lo as int, i as int), list@[i as int]);
                }
                let ghost sel_before = key_set(self.selected_mods@);
                if insert_mod(&mut self.selected_mods, &list[i]) {
                    let ghost key = mod_key(list@[i as int]);
                    proof {
                        assert(!base.contains(key));
                        assert(!key_set(self.shift_selected_mods@).contains(key));
                    }
                    let _ = insert_mod(&mut self.shift_selected_mods, &list[i]);
                } else {
                    proof {
                        let key = mod_key(list@[i as int]);
                        assert(sel_before.contains(key));
                    }
                }
                i += 1;
                proof {
                    assert(key_set(self.selected_mods@) =~= base.union(key_set(list@.subrange(lo as int, i as int))));
                    assert(key_set(self.shift_selected_mods@) =~= key_set(list@.subrange(lo as int, i as int)).difference(base));
                }
            }
        } else {
            self.list_shift_index = Some(idx);
            if holds(&self.selected_mods, &selected_mod) {
                remove_mod(&mut self.selected_mods, &selected_mod);
            } else {
                let _ = insert_mod(&mut self.selected_mods, &selected_mod);
            }
        }
    }
}

} // verus!
