//! Editing one entry of an argument list: text typed into the entry with
//! spaces in it becomes several entries.
use vstd::prelude::*;
use crate::args::views;
use crate::text::{chars_of, string_from_chars};

verus! {

/// Whether `s` ends in a character other than a space.
pub open spec fn ends_in_word(s: Seq<char>) -> bool {
    s.len() > 0 && s.last() != ' '
}

/// The maximal runs of characters other than `' '` in `s`, in order: what
/// `s.split(' ')` yields once the empty pieces are dropped.
pub open spec fn space_words(s: Seq<char>) -> Seq<Seq<char>>
    decreases s.len(),
{
    if s.len() == 0 {
        Seq::empty()
    } else {
        let rest = space_words(s.drop_last());
        let c = s.last();
        if c == ' ' {
            rest
        } else if ends_in_word(s.drop_last()) {
            rest.update(rest.len() - 1, rest.last().push(c))
        } else {
            rest.push(seq![c])
        }
    }
}

proof fn lemma_words_nonempty(s: Seq<char>)
    requires
        ends_in_word(s),
    ensures
        space_words(s).len() > 0,
        space_words(s).last().len() > 0,
        space_words(s).last().last() == s.last(),
    decreases s.len(),
{
    if ends_in_word(s.drop_last()) {
        lemma_words_nonempty(s.drop_last());
    }
}

/// The words of `s` separated by spaces, empty ones left out.
pub fn split_on_spaces(s: &str) -> (r: Vec<String>)
    ensures
        views(r@) == space_words(s@),
{
    let cs = chars_of(s);
    let mut out: Vec<String> = Vec::new();
    let mut cur: Vec<char> = Vec::new();
    let mut i: usize = 0;
    while i < cs.len()
        invariant
            cs@ == s@,
            i <= cs@.len(),
            cur@.len() > 0 ==> ends_in_word(cs@.take(i as int)),
            cur@.len() > 0 ==> space_words(cs@.take(i as int)).len() > 0,
            ends_in_word(cs@.take(i as int)) ==> cur@.len() > 0,
            space_words(cs@.take(i as int)) == if cur@.len() > 0 {
                views(out@).push(cur@)
            } else {
                views(out@)
            },
        decreases cs.len() - i,
    {
        let c = cs[i];
        let ghost before = cs@.take(i as int);
        proof {
            assert(cs@.take(i + 1).drop_last() =~= before);
            assert(cs@.take(i + 1).last() == c);
            if ends_in_word(before) {
                lemma_words_nonempty(before);
            }
        }
        if c == ' ' {
            if cur.len() > 0 {
                let w = string_from_chars(cur.as_slice());
                let ghost old_out = out@;
                out.push(w);
                assert(views(out@) =~= views(old_out).push(cur@));
                cur = Vec::new();
            }
        } else {
            let ghost old_cur = cur@;
            cur.push(c);
            proof {
                let sw = space_words(before);
                if old_cur.len() > 0 {
                    assert(views(out@).push(cur@) =~= sw.update(sw.len() - 1, sw.last().push(c)));
                } else {
                    assert(cur@ =~= seq![c]);
                }
            }
        }
        i += 1;
    }
    if cur.len() > 0 {
        let w = string_from_chars(cur.as_slice());
        let ghost old_out = out@;
        out.push(w);
        assert(views(out@) =~= views(old_out).push(cur@));
    }
    assert(cs@.take(cs@.len() as int) =~= s@);
    out
}

/// The argument list after the entry at `idx` was edited to `msg`.
pub open spec fn edited_arguments(msg: Seq<char>, args: Seq<Seq<char>>, idx: int) -> Seq<
    Seq<char>,
> {
    if msg.contains(' ') {
        args.take(idx) + space_words(msg) + args.skip(idx + 1)
    } else if 0 <= idx < args.len() {
        args.update(idx, msg)
    } else {
        args
    }
}

/// Writes `msg` into the entry at `idx`. Text with a space in it replaces
/// the entry by its words, each an entry of its own; other text replaces
/// the entry, if there is one.
pub fn add_to_arguments_list(msg: String, args: &mut Vec<String>, idx: usize)
    requires
        msg@.contains(' ') ==> idx < old(args)@.len(),
    ensures
        views(final(args)@) == edited_arguments(msg@, views(old(args)@), idx as int),
{
    let ghost old_views = views(args@);
    let cs = chars_of(msg.as_str());
    let mut has_space = false;
    let mut k: usize = 0;
    while k < cs.len()
        invariant
            cs@ == msg@,
            k <= cs@.len(),
            has_space <==> exists|j: int| 0 <= j < k && cs@[j] == ' ',
        decreases cs.len() - k,
    {
        if cs[k] == ' ' {
            has_space = true;
        }
        k += 1;
    }
    assert(has_space <==> msg@.contains(' '));
    if has_space {
        let words = split_on_spaces(msg.as_str());
        let mut out: Vec<String> = Vec::new();
        let mut i: usize = 0;
        while i < idx
            invariant
                i <= idx,
                idx < args@.len(),
                views(out@) == views(args@).take(i as int),
            decreases idx - i,
        {
            let ghost o = out@;
            out.push(args[i].clone());
            assert(views(out@) =~= views(args@).take(i + 1)) by {
                assert(views(out@) =~= views(o).push(args@[i as int]@));
            }
            i += 1;
        }
        let mut w: usize = 0;
        while w < words.len()
            invariant
                w <= words@.len(),
                idx < args@.len(),
                views(out@) == views(args@).take(idx as int) + views(words@).take(w as int),
            decreases words.len() - w,
        {
            let ghost o = out@;
            out.push(words[w].clone());
            assert(views(out@) =~= views(args@).take(idx as int) + views(words@).take(w + 1)) by {
                assert(views(out@) =~= views(o).push(words@[w as int]@));
            }
            w += 1;
        }
        assert(views(words@).take(words@.len() as int) =~= views(words@));
        let n: usize = args.len();
        assert(idx < n);
        let mut j: usize = idx + 1;
        while j < args.len()
            invariant
                idx < j <= args@.len(),
                views(out@) == views(args@).take(idx as int) + views(words@) + views(
                    args@,
                ).subrange(idx + 1, j as int),
            decreases args.len() - j,
        {
            let ghost o = out@;
            out.push(args[j].clone());
            assert(views(out@) =~= views(args@).take(idx as int) + views(words@) + views(
                args@,
            ).subrange(idx + 1, j + 1)) by {
                assert(views(out@) =~= views(o).push(args@[j as int]@));
            }
            j += 1;
        }
        assert(views(args@).subrange(idx + 1, args@.len() as int) =~= old_views.skip(idx + 1));
        *args = out;
    } else if idx < args.len() {
        let ghost o = args@;
        args.set(idx, msg);
        assert(views(args@) =~= views(o).update(idx as int, cs@));
    }
}

} // verus!
