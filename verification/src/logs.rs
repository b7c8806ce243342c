//! Log buffers: the launcher's own log lines and the lines that each running
//! game instance prints, both kept to a bounded number of recent lines.
use vstd::prelude::*;
use crate::args::views;
use crate::text::{chars_of, string_from_chars};

verus! {

/// The game log of one instance, as the GUI keeps it.
pub struct InstanceLog {
    pub log: Vec<String>,
    pub has_crashed: bool,
    pub command: String,
}

/// What `push_capped` leaves: the line appended, then the oldest line
/// dropped when the buffer has grown beyond `cap`.
pub open spec fn capped_push<T>(buf: Seq<T>, line: T, cap: nat) -> Seq<T> {
    if buf.len() + 1 > cap {
        buf.push(line).drop_first()
    } else {
        buf.push(line)
    }
}

/// Push a line into the provided buffer with a maximum length constraint.
/// Returns the new length.
pub fn push_capped(buf: &mut Vec<String>, line: String, cap: usize) -> (len: usize)
    ensures
        final(buf)@ == capped_push(old(buf)@, line, cap as nat),
        len == final(buf)@.len(),
{
    buf.push(line);
    if buf.len() > cap {
        buf.remove(0);
    }
    buf.len()
}

/// The last `n` elements of `s` (all of them when there are fewer).
pub open spec fn keep_last<T>(s: Seq<T>, n: nat) -> Seq<T> {
    if s.len() > n {
        s.skip(s.len() - n)
    } else {
        s
    }
}

/// Pushing onto a buffer that holds the last `cap` lines of a history keeps
/// it the last `cap` lines of the history with the new line.
pub proof fn law_push_capped_keeps_window<T>(history: Seq<T>, line: T, cap: nat)
    ensures
        capped_push(keep_last(history, cap), line, cap) == keep_last(history.push(line), cap),
{
    let h2 = history.push(line);
    if history.len() > cap {
        assert(keep_last(history, cap).push(line).drop_first() =~= keep_last(h2, cap));
    } else if history.len() + 1 > cap {
        assert(history.push(line).drop_first() =~= keep_last(h2, cap));
    } else {
        assert(history.push(line) =~= keep_last(h2, cap));
    }
}

/// A buffer that starts within its cap stays within it, and its last line
/// is the one pushed (for a positive cap).
pub proof fn law_push_capped_bounded<T>(buf: Seq<T>, line: T, cap: nat)
    requires
        buf.len() <= cap,
    ensures
        capped_push(buf, line, cap).len() <= cap,
        cap > 0 ==> capped_push(buf, line, cap).last() == line,
{
}

/// `s` without its trailing newline characters.
pub open spec fn trim_newlines_end(s: Seq<char>) -> Seq<char>
    decreases s.len(),
{
    if s.len() > 0 && s.last() == '\n' {
        trim_newlines_end(s.drop_last())
    } else {
        s
    }
}

proof fn lemma_trim_newlines_take(s: Seq<char>, j: int)
    requires
        0 <= j <= s.len(),
        forall|k: int| j <= k < s.len() ==> s[k] == '\n',
    ensures
        trim_newlines_end(s) == trim_newlines_end(s.take(j)),
    decreases s.len() - j,
{
    if j < s.len() {
        assert(s.drop_last().take(j) =~= s.take(j));
        lemma_trim_newlines_take(s.drop_last(), j);
    } else {
        assert(s.take(j) =~= s);
    }
}

/// The line without its trailing newlines (`trim_end_matches('\n')`).
pub fn strip_trailing_newlines(line: &str) -> (r: String)
    ensures
        r@ == trim_newlines_end(line@),
{
    let v = chars_of(line);
    let mut j = v.len();
    while j > 0 && v[j - 1] == '\n'
        invariant
            v@ == line@,
            j <= v@.len(),
            forall|k: int| j <= k < v@.len() ==> v@[k] == '\n',
        decreases j,
    {
        j -= 1;
    }
    proof {
        lemma_trim_newlines_take(line@, j as int);
    }
    let mut w: Vec<char> = Vec::new();
    let mut k: usize = 0;
    while k < j
        invariant
            v@ == line@,
            k <= j <= v@.len(),
            w@ == v@.take(k as int),
        decreases j - k,
    {
        w.push(v[k]);
        assert(v@.take(k as int).push(v@[k as int]) =~= v@.take(k + 1));
        k += 1;
    }
    string_from_chars(w.as_slice())
}

/// The number of recent lines kept for each instance.
pub const INSTANCE_LOG_CAP: usize = 2000;

/// The per-instance log lines, keyed by instance name.
pub struct InstanceLogs {
    pub entries: Vec<(String, Vec<String>)>,
}

impl InstanceLogs {
    /// No instance name appears twice.
    pub open spec fn wf(&self) -> bool {
        forall|i: int, j: int|
            0 <= i < j < self.entries@.len() ==> #[trigger] self.entries@[i].0@
                != #[trigger] self.entries@[j].0@
    }

    /// Each instance name with the lines kept for it.
    pub open spec fn view(&self) -> Map<Seq<char>, Seq<Seq<char>>> {
        Map::new(
            |k: Seq<char>| exists|i: int| 0 <= i < self.entries@.len() && self.entries@[i].0@ == k,
            |k: Seq<char>|
                {
                    let i = choose|i: int| 0 <= i < self.entries@.len() && self.entries@[i].0@ == k;
                    views(self.entries@[i].1@)
                },
        )
    }

    /// An empty store.
    pub fn new() -> (r: Self)
        ensures
            r.wf(),
            r.view() == Map::<Seq<char>, Seq<Seq<char>>>::empty(),
    {
        let r = InstanceLogs { entries: Vec::new() };
        assert(r.view() =~= Map::<Seq<char>, Seq<Seq<char>>>::empty());
        r
    }

    /// The position of the entry for `name`, if there is one.
    fn position(&self, name: &str) -> (r: Option<usize>)
        requires
            self.wf(),
        ensures
            r matches Some(i) ==> i < self.entries@.len() && self.entries@[i as int].0@ == name@,
            r is None ==> forall|i: int|
                0 <= i < self.entries@.len() ==> self.entries@[i].0@ != name@,
    {
        let target = chars_of(name);
        let mut i: usize = 0;
        while i < self.entries.len()
            invariant
                target@ == name@,
                i <= self.entries@.len(),
                forall|k: int| 0 <= k < i ==> self.entries@[k].0@ != name@,
            decreases self.entries.len() - i,
        {
            let cand = chars_of(self.entries[i].0.as_str());
            if cand.len() == target.len() {
                let mut k: usize = 0;
                let mut same = true;
                while k < cand.len()
                    invariant
                        k <= cand@.len(),
                        cand@.len() == target@.len(),
                        same == (forall|m: int| 0 <= m < k ==> cand@[m] == target@[m]),
                    decreases cand.len() - k,
                {
                    if cand[k] != target[k] {
                        same = false;
                    }
                    k += 1;
                }
                if same {
                    assert(cand@ =~= target@);
                    return Some(i);
                }
            }
            i += 1;
        }
        None
    }

    /// The lines kept for `name`, if any.
    pub fn get(&self, name: &str) -> (r: Option<&Vec<String>>)
        requires
            self.wf(),
        ensures
            r matches Some(v) ==> self.view().contains_key(name@) && views(v@) == self.view()[name@],
            r is None ==> !self.view().contains_key(name@),
    {
        match self.position(name) {
            Some(i) => {
                proof {
                    let j = choose|j: int|
                        0 <= j < self.entries@.len() && self.entries@[j].0@ == name@;
                    if j != i {
                        if j < i {
                            assert(self.entries@[j].0@ != self.entries@[i as int].0@);
                        } else {
                            assert(self.entries@[i as int].0@ != self.entries@[j].0@);
                        }
                    }
                }
                Some(&self.entries[i].1)
            },
            None => None,
        }
    }

    /// Appends a line (without its trailing newlines) to the lines of
    /// `name`, keeping the most recent `INSTANCE_LOG_CAP` lines.
    pub fn push_line(&mut self, name: &str, line: &str)
        requires
            old(self).wf(),
        ensures
            final(self).wf(),
            final(self).view() == old(self).view().insert(
                name@,
                keep_last(
                    (if old(self).view().contains_key(name@) {
                        old(self).view()[name@]
                    } else {
                        Seq::empty()
                    }).push(trim_newlines_end(line@)),
                    INSTANCE_LOG_CAP as nat,
                ),
            ),
    {
        let ln = strip_trailing_newlines(line);
        let ghost old_view = self.view();
        match self.position(name) {
            Some(i) => {
                let ghost before = self.entries@;
                assert(old_view.contains_key(name@));
                proof {
                    let j = choose|j: int| 0 <= j < before.len() && before[j].0@ == name@;
                    if j != i {
                        if j < i {
                            assert(before[j].0@ != before[i as int].0@);
                        } else {
                            assert(before[i as int].0@ != before[j].0@);
                        }
                    }
                    assert(old_view[name@] == views(before[i as int].1@));
                }
                let (key, mut lines) = self.entries.remove(i);
                let ghost old_lines = lines@;
                lines.push(ln);
                if lines.len() > INSTANCE_LOG_CAP {
                    let excess = lines.len() - INSTANCE_LOG_CAP;
                    lines = lines.split_off(excess);
                }
                assert(views(lines@) =~= keep_last(views(old_lines).push(trim_newlines_end(line@)), INSTANCE_LOG_CAP as nat));
                self.entries.insert(i, (key, lines));
                proof {
                    let after = self.entries@;
                    assert(after == before.update(i as int, after[i as int]));
                    assert forall|a: int, b: int|
                        0 <= a < b < after.len() implies #[trigger] after[a].0@ != #[trigger] after[b].0@ by {
                        assert(after[a].0@ == before[a].0@);
                        assert(after[b].0@ == before[b].0@);
                    }
                    assert forall|k: Seq<char>| #[trigger] self.view().contains_key(k) <==> old_view.insert(name@, views(lines@)).contains_key(k) by {
                        if old_view.contains_key(k) {
                            let j = choose|j: int| 0 <= j < before.len() && before[j].0@ == k;
                            assert(after[j].0@ == k);
                        }
                        if self.view().contains_key(k) {
                            let j = choose|j: int| 0 <= j < after.len() && after[j].0@ == k;
                            assert(before[j].0@ == k);
                        }
                    }
                    assert forall|k: Seq<char>| #[trigger] self.view().contains_key(k) implies self.view()[k] == old_view.insert(name@, views(lines@))[k] by {
                        let j = choose|j: int| 0 <= j < after.len() && after[j].0@ == k;
                        let j0 = choose|j0: int| 0 <= j0 < before.len() && before[j0].0@ == k;
                        if j != j0 {
                            if j < j0 {
                                assert(after[j].0@ != after[j0].0@);
                            } else {
                                assert(after[j0].0@ != after[j].0@);
                            }
                        }
                        if k == name@ {
                            if j != i {
                                if j < i {
                                    assert(after[j].0@ != after[i as int].0@);
                                } else {
                                    assert(after[i as int].0@ != after[j].0@);
                                }
                            }
                        } else {
                            assert(j != i);
                        }
                    }
                    assert(self.view() =~= old_view.insert(name@, views(lines@)));
                }
            },
            None => {
                let ghost before = self.entries@;
                assert(!old_view.contains_key(name@));
                let key = string_from_chars(chars_of(name).as_slice());
                let mut lines: Vec<String> = Vec::new();
                lines.push(ln);
                assert(views(lines@) =~= keep_last(Seq::<Seq<char>>::empty().push(trim_newlines_end(line@)), INSTANCE_LOG_CAP as nat));
                self.entries.push((key, lines));
                proof {
                    let after = self.entries@;
                    let n = before.len() as int;
                    assert forall|a: int, b: int|
                        0 <= a < b < after.len() implies #[trigger] after[a].0@ != #[trigger] after[b].0@ by {
                        if b == n {
                            assert(after[a].0@ == before[a].0@);
                        } else {
                            assert(after[a] == before[a]);
                            assert(after[b] == before[b]);
                        }
                    }
                    assert forall|k: Seq<char>| #[trigger] self.view().contains_key(k) <==> old_view.insert(name@, views(lines@)).contains_key(k) by {
                        if old_view.contains_key(k) {
                            let j = choose|j: int| 0 <= j < before.len() && before[j].0@ == k;
                            assert(after[j].0@ == k);
                        }
                        if k == name@ {
                            assert(after[n].0@ == k);
                        }
                        if self.view().contains_key(k) {
                            let j = choose|j: int| 0 <= j < after.len() && after[j].0@ == k;
                            if j < n {
                                assert(before[j].0@ == k);
                            }
                        }
                    }
                    assert forall|k: Seq<char>| #[trigger] self.view().contains_key(k) implies self.view()[k] == old_view.insert(name@, views(lines@))[k] by {
                        let j = choose|j: int| 0 <= j < after.len() && after[j].0@ == k;
                        if k == name@ {
                            if j != n {
                                assert(before[j].0@ == k);
                            }
                        } else {
                            assert(j != n);
                            let j0 = choose|j0: int| 0 <= j0 < before.len() && before[j0].0@ == k;
                            assert(after[j0].0@ == k);
                            if j != j0 {
                                if j < j0 {
                                    assert(after[j].0@ != after[j0].0@);
                                } else {
                                    assert(after[j0].0@ != after[j].0@);
                                }
                            }
                        }
                    }
                    assert(self.view() =~= old_view.insert(name@, views(lines@)));
                }
            },
        }
    }
}

} // verus!
