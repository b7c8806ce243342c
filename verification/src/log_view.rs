//! What the log panes show: the log lines wrapped into rows of the pane's
//! width, and the window of rows that the scroll offset (counted in rows up
//! from the bottom) leaves in view.

use vstd::prelude::*;
use crate::args::views;
use crate::app_state::LogViews;

verus! {

/// The rows that `textwrap::wrap` makes of one line at `width` columns,
/// breaking words longer than a row.
pub uninterp spec fn wrapped_rows(line: Seq<char>, width: usize) -> Seq<Seq<char>>;

/// `textwrap::wrap` with `Options::new(width).break_words(true)`: the claim
/// is only that its rows, as owned strings, are `wrapped_rows` of the line
/// and the width (a function of the two alone).
#[verifier::external_body]
fn wrap_line(line: &str, width: usize) -> (r: Vec<String>)
    requires
        width >= 1,
    ensures
        views(r@) == wrapped_rows(line@, width),
{
    let options = textwrap::Options::new(width).break_words(true);
    textwrap::wrap(line, options).into_iter().map(|row| row.into_owned()).collect()
}

/// A pane is at least one column wide and one row high.
pub open spec fn at_least_one(n: usize) -> usize {
    if n == 0 { 1 } else { n }
}

/// The rows of one line: an empty line is one empty row.
pub open spec fn rows_of_line(line: Seq<char>, width: usize) -> Seq<Seq<char>> {
    if line.len() == 0 {
        seq![Seq::<char>::empty()]
    } else {
        wrapped_rows(line, width)
    }
}

/// The rows of all the lines, in order.
pub open spec fn rows_of_lines(lines: Seq<Seq<char>>, width: usize) -> Seq<Seq<char>>
    decreases lines.len(),
{
    if lines.len() == 0 {
        Seq::empty()
    } else {
        rows_of_lines(lines.drop_last(), width) + rows_of_line(lines.last(), width)
    }
}

/// The scroll offset kept within what can be scrolled: no further up than
/// the first row at the top of the pane.
pub open spec fn clamped_offset(total: nat, visible: nat, offset: nat) -> nat {
    let max_offset: nat = if total >= visible { (total - visible) as nat } else { 0 };
    if offset > max_offset { max_offset } else { offset }
}

/// The first row in view: `visible` rows end `offset` rows above the bottom.
pub open spec fn window_start(total: nat, visible: nat, offset: nat) -> nat {
    let off = clamped_offset(total, visible, offset);
    if total >= visible + off { (total - (visible + off)) as nat } else { 0 }
}

/// The rows from the first in view to the bottom: what the original slice
/// `rows[start..end]` shows.
pub open spec fn log_window_of(rows: Seq<Seq<char>>, visible: nat, offset: nat) -> Seq<Seq<char>> {
    rows.subrange(window_start(rows.len(), visible, offset) as int, rows.len() as int)
}

/// Keeping the offset in range a second time changes nothing, and at
/// offset 0 the pane follows the newest rows: the window is the last
/// `visible` rows (all of them when there are fewer).
pub proof fn law_log_window_follows_bottom(rows: Seq<Seq<char>>, visible: nat, offset: nat)
    ensures
        clamped_offset(rows.len(), visible, clamped_offset(rows.len(), visible, offset)) == clamped_offset(
            rows.len(),
            visible,
            offset,
        ),
        log_window_of(rows, visible, 0) == rows.subrange(
            if rows.len() >= visible { rows.len() - visible } else { 0 },
            rows.len() as int,
        ),
{
}

proof fn lemma_views_add(a: Seq<String>, b: Seq<String>)
    ensures
        views(a + b) == views(a) + views(b),
{
    assert(views(a + b) =~= views(a) + views(b));
}

/// Wraps the lines into rows at a pane width (taken as at least one column).
pub fn wrap_log_lines(lines: &Vec<String>, width: usize) -> (r: Vec<String>)
    ensures
        views(r@) == rows_of_lines(views(lines@), at_least_one(width)),
{
    let w: usize = if width == 0 { 1 } else { width };
    let mut out: Vec<String> = Vec::new();
    let mut i: usize = 0;
    while i < lines.len()
        invariant
            w == at_least_one(width),
            w >= 1,
            i <= lines@.len(),
            views(out@) == rows_of_lines(views(lines@).take(i as int), w),
        decreases lines.len() - i,
    {
        let ghost before = out@;
        let mut part: Vec<String> = if lines[i].as_str().is_empty() {
            let mut one: Vec<String> = Vec::new();
            one.push(String::new());
            assert(views(one@) =~= seq![Seq::<char>::empty()]);
            one
        } else {
            wrap_line(lines[i].as_str(), w)
        };
        assert(views(part@) == rows_of_line(views(lines@)[i as int], w));
        let ghost added = part@;
        out.append(&mut part);
        proof {
            let ghost l = views(lines@);
            assert(l.take(i + 1).drop_last() =~= l.take(i as int));
            assert(l.take(i + 1).last() == l[i as int]);
            lemma_views_add(before, added);
        }
        i += 1;
    }
    assert(views(lines@).take(lines@.len() as int) =~= views(lines@));
    out
}

/// The rows of a pane `visible` rows high scrolled `offset` rows up, from
/// the first in view to the bottom (the pane draws as many as fit), and the
/// offset kept within range.
pub fn log_window(rows: &Vec<String>, visible: usize, offset: usize) -> (r: (Vec<String>, usize))
    ensures
        r.1 == clamped_offset(rows@.len(), visible as nat, offset as nat),
        r.0@ == rows@.subrange(window_start(rows@.len(), visible as nat, offset as nat) as int, rows@.len() as int),
{
    let total = rows.len();
    let max_offset: usize = if total >= visible { total - visible } else { 0 };
    let off: usize = if offset > max_offset { max_offset } else { offset };
    let start: usize = if total - off >= visible { total - off - visible } else { 0 };
    let mut out: Vec<String> = Vec::new();
    let mut k: usize = start;
    while k < total
        invariant
            start <= k <= total,
            total == rows@.len(),
            out@ == rows@.subrange(start as int, k as int),
        decreases total - k,
    {
        out.push(rows[k].clone());
        assert(out@ =~= rows@.subrange(start as int, k + 1));
        k += 1;
    }
    (out, off)
}

impl LogViews {
    /// Lays the launcher log out in a pane of `width` columns and `height`
    /// rows (each at least one): records the pane height, keeps the offset
    /// in range and gives the rows in view.
    pub fn game_log_view(&mut self, width: usize, height: usize) -> (r: Vec<String>)
        ensures
            ({
                let rows = rows_of_lines(views(old(self).game_logs@), at_least_one(width));
                let vis = at_least_one(height);
                &&& *final(self) == (LogViews {
                    logs_visible_lines: vis,
                    logs_offset: clamped_offset(rows.len(), vis as nat, old(self).logs_offset as nat) as usize,
                    ..*old(self)
                })
                &&& views(r@) == log_window_of(rows, vis as nat, old(self).logs_offset as nat)
            }),
    {
        let vis: usize = if height == 0 { 1 } else { height };
        let rows = wrap_log_lines(&self.game_logs, width);
        let (shown, off) = log_window(&rows, vis, self.logs_offset);
        self.logs_visible_lines = vis;
        self.logs_offset = off;
        assert(views(shown@) =~= log_window_of(views(rows@), vis as nat, old(self).logs_offset as nat));
        shown
    }

    /// Lays the output of instance `name` out in a pane of `width` columns
    /// and `height` rows (each at least one): records the pane height and,
    /// where the instance has output, keeps the offset in range and gives
    /// the rows in view; `None` where it has none.
    pub fn instance_log_view(&mut self, name: &str, width: usize, height: usize) -> (r: Option<Vec<String>>)
        requires
            old(self).instance_logs.wf(),
        ensures
            ({
                let vis = at_least_one(height);
                let logs = old(self).instance_logs.view();
                if logs.contains_key(name@) {
                    let rows = rows_of_lines(logs[name@], at_least_one(width));
                    &&& *final(self) == (LogViews {
                        instance_logs_visible_lines: vis,
                        instance_logs_offset: clamped_offset(
                            rows.len(),
                            vis as nat,
                            old(self).instance_logs_offset as nat,
                        ) as usize,
                        ..*old(self)
                    })
                    &&& r matches Some(v) && views(v@) == log_window_of(
                        rows,
                        vis as nat,
                        old(self).instance_logs_offset as nat,
                    )
                } else {
                    &&& *final(self) == (LogViews { instance_logs_visible_lines: vis, ..*old(self) })
                    &&& r is None
                }
            }),
    {
        let vis: usize = if height == 0 { 1 } else { height };
        self.instance_logs_visible_lines = vis;
        let rows = match self.instance_logs.get(name) {
            Some(lines) => wrap_log_lines(lines, width),
            None => {
                return None;
            },
        };
        let (shown, off) = log_window(&rows, vis, self.instance_logs_offset);
        self.instance_logs_offset = off;
        assert(views(shown@) =~= log_window_of(
            views(rows@),
            vis as nat,
            old(self).instance_logs_offset as nat,
        ));
        Some(shown)
    }
}

} // verus!
