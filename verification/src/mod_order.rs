//! The order of the mod list: mods installed by hand first, then local mod
//! files, then mods installed as dependencies, each group by name.
use vstd::prelude::*;
use vstd::seq_lib::{to_multiset_build, to_multiset_insert};
use crate::text::chars_of;

verus! {

/// The configuration of a downloaded mod, as far as the list order needs
/// it.
pub struct ModConfig {
    pub name: String,
    pub manually_installed: bool,
}

/// An entry of the mod list.
pub enum ModListEntry {
    /// A mod installed from a store, with its index key.
    Downloaded { id: String, name: String, manually_installed: bool },
    /// A mod file found in the mods folder.
    Local { file_name: String },
}

/// The group an entry is listed in: 0 for mods installed by hand, 1 for
/// local files, 2 for mods installed as dependencies.
pub open spec fn entry_group(e: ModListEntry) -> int {
    match e {
        ModListEntry::Downloaded { manually_installed, .. } => if manually_installed {
            0
        } else {
            2
        },
        ModListEntry::Local { .. } => 1,
    }
}

/// The name an entry is ordered by within its group.
pub open spec fn entry_text(e: ModListEntry) -> Seq<char> {
    match e {
        ModListEntry::Downloaded { name, .. } => name@,
        ModListEntry::Local { file_name } => file_name@,
    }
}

/// Lexicographic order of texts by character code, the order `str::cmp`
/// gives (UTF-8 keeps the order of code points).
pub open spec fn text_le(a: Seq<char>, b: Seq<char>) -> bool
    decreases a.len(),
{
    if a.len() == 0 {
        true
    } else if b.len() == 0 {
        false
    } else if a[0] != b[0] {
        a[0] < b[0]
    } else {
        text_le(a.drop_first(), b.drop_first())
    }
}

/// The order of the mod list: by group, then by name.
pub open spec fn entry_le(x: ModListEntry, y: ModListEntry) -> bool {
    entry_group(x) < entry_group(y) || (entry_group(x) == entry_group(y) && text_le(
        entry_text(x),
        entry_text(y),
    ))
}

/// Whether the entries are in list order.
pub open spec fn entries_sorted(s: Seq<ModListEntry>) -> bool {
    forall|i: int, j: int| 0 <= i < j < s.len() ==> entry_le(#[trigger] s[i], #[trigger] s[j])
}

proof fn lemma_text_le_total(a: Seq<char>, b: Seq<char>)
    ensures
        text_le(a, b) || text_le(b, a),
    decreases a.len(),
{
    if a.len() > 0 && b.len() > 0 {
        if a[0] == b[0] {
            lemma_text_le_total(a.drop_first(), b.drop_first());
        } else {
        }
    }
}

proof fn lemma_text_le_trans(a: Seq<char>, b: Seq<char>, c: Seq<char>)
    requires
        text_le(a, b),
        text_le(b, c),
    ensures
        text_le(a, c),
    decreases a.len(),
{
    if a.len() > 0 && b.len() > 0 && c.len() > 0 && a[0] == b[0] && b[0] == c[0] {
        lemma_text_le_trans(a.drop_first(), b.drop_first(), c.drop_first());
    }
}

proof fn lemma_entry_le_total(x: ModListEntry, y: ModListEntry)
    ensures
        entry_le(x, y) || entry_le(y, x),
{
    lemma_text_le_total(entry_text(x), entry_text(y));
}

proof fn lemma_entry_le_trans(x: ModListEntry, y: ModListEntry, z: ModListEntry)
    requires
        entry_le(x, y),
        entry_le(y, z),
    ensures
        entry_le(x, z),
{
    if entry_group(x) == entry_group(y) && entry_group(y) == entry_group(z) {
        lemma_text_le_trans(entry_text(x), entry_text(y), entry_text(z));
    }
}

/// `text_le` on strings.
fn text_le_exec(a: &str, b: &str) -> (r: bool)
    ensures
        r == text_le(a@, b@),
{
    let x = chars_of(a);
    let y = chars_of(b);
    let mut i: usize = 0;
    assert(x@.skip(0) =~= x@ && y@.skip(0) =~= y@);
    while i < x.len() && i < y.len() && x[i] == y[i]
        invariant
            x@ == a@,
            y@ == b@,
            i <= x@.len(),
            i <= y@.len(),
            text_le(a@, b@) == text_le(x@.skip(i as int), y@.skip(i as int)),
        decreases x.len() - i,
    {
        proof {
            let xs = x@.skip(i as int);
            let ys = y@.skip(i as int);
            assert(xs.drop_first() =~= x@.skip(i + 1));
            assert(ys.drop_first() =~= y@.skip(i + 1));
        }
        i += 1;
    }
    if i == x.len() {
        true
    } else if i == y.len() {
        false
    } else {
        x[i] < y[i]
    }
}

fn entry_le_exec(x: &ModListEntry, y: &ModListEntry) -> (r: bool)
    ensures
        r == entry_le(*x, *y),
{
    let gx: u8 = match x {
        ModListEntry::Downloaded { manually_installed, .. } => if *manually_installed {
            0
        } else {
            2
        },
        ModListEntry::Local { .. } => 1,
    };
    let gy: u8 = match y {
        ModListEntry::Downloaded { manually_installed, .. } => if *manually_installed {
            0
        } else {
            2
        },
        ModListEntry::Local { .. } => 1,
    };
    if gx != gy {
        return gx < gy;
    }
    let tx = match x {
        ModListEntry::Downloaded { name, .. } => name.as_str(),
        ModListEntry::Local { file_name } => file_name.as_str(),
    };
    let ty = match y {
        ModListEntry::Downloaded { name, .. } => name.as_str(),
        ModListEntry::Local { file_name } => file_name.as_str(),
    };
    text_le_exec(tx, ty)
}

/// Puts the entries in list order.
pub fn sort_entries(entries: Vec<ModListEntry>) -> (r: Vec<ModListEntry>)
    ensures
        entries_sorted(r@),
        r@.to_multiset() == entries@.to_multiset(),
{
    let ghost all = entries@;
    let mut src = entries;
    let mut r: Vec<ModListEntry> = Vec::new();
    proof {
        broadcast use vstd::multiset::group_multiset_axioms;

        vstd::seq_lib::to_multiset_len(r@);
        vstd::multiset::lemma_multiset_empty_len(r@.to_multiset());
        assert(r@.to_multiset().add(src@.to_multiset()) =~= all.to_multiset());
    }
    while src.len() > 0
        invariant
            entries_sorted(r@),
            r@.to_multiset().add(src@.to_multiset()) == all.to_multiset(),
        decreases src.len(),
    {
        let ghost before = src@;
        let e = src.pop().unwrap();
        proof {
            assert(before =~= src@.push(e));
            to_multiset_build(src@, e);
        }
        let mut p: usize = 0;
        while p < r.len() && entry_le_exec(&r[p], &e)
            invariant
                p <= r@.len(),
                forall|q: int| 0 <= q < p ==> entry_le(#[trigger] r@[q], e),
            decreases r.len() - p,
        {
            p += 1;
        }
        let ghost old_r = r@;
        proof {
            if p < old_r.len() {
                lemma_entry_le_total(old_r[p as int], e);
                assert forall|q: int| p <= q < old_r.len() implies entry_le(e, #[trigger] old_r[q]) by {
                    if q > p {
                        lemma_entry_le_trans(e, old_r[p as int], old_r[q]);
                    }
                }
            }
            to_multiset_insert(old_r, p as int, e);
        }
        r.insert(p, e);
        proof {
            assert forall|i: int, j: int| 0 <= i < j < r@.len() implies entry_le(
                #[trigger] r@[i],
                #[trigger] r@[j],
            ) by {
                if j < p {
                    assert(r@[i] == old_r[i] && r@[j] == old_r[j]);
                } else if j == p {
                    assert(r@[i] == old_r[i]);
                } else if i < p {
                    assert(r@[i] == old_r[i] && r@[j] == old_r[j - 1]);
                    lemma_entry_le_trans(old_r[i], e, old_r[j - 1]);
                } else if i == p {
                    assert(r@[j] == old_r[j - 1]);
                } else {
                    assert(r@[i] == old_r[i - 1] && r@[j] == old_r[j - 1]);
                }
            }
            broadcast use vstd::multiset::group_multiset_axioms;

            assert(old_r.to_multiset().insert(e).add(src@.to_multiset()) =~= old_r.to_multiset().add(
                src@.to_multiset().insert(e),
            ));
        }
    }
    proof {
        broadcast use vstd::multiset::group_multiset_axioms;

        vstd::seq_lib::to_multiset_len(src@);
        vstd::multiset::lemma_multiset_empty_len(src@.to_multiset());
        assert(r@.to_multiset().add(src@.to_multiset()) =~= r@.to_multiset());
    }
    r
}

/// The entries for the downloaded mods (with their index keys) followed
/// by those for the local mod files.
pub open spec fn initial_entries(downloaded: Seq<(String, ModConfig)>, local: Seq<String>) -> Seq<
    ModListEntry,
> {
    downloaded.map_values(
        |d: (String, ModConfig)|
            ModListEntry::Downloaded {
                id: d.0,
                name: d.1.name,
                manually_installed: d.1.manually_installed,
            },
    ) + local.map_values(|f: String| ModListEntry::Local { file_name: f })
}

/// The mod list of an instance, in list order: the downloaded mods (each
/// with its index key and configuration) and the local mod files.
pub fn sort_dependencies(downloaded: Vec<(String, ModConfig)>, local: Vec<String>) -> (r: Vec<
    ModListEntry,
>)
    ensures
        entries_sorted(r@),
        r@.to_multiset() == initial_entries(downloaded@, local@).to_multiset(),
{
    let ghost d0 = downloaded@;
    let ghost l0 = local@;
    let mut entries: Vec<ModListEntry> = Vec::new();
    let mut dl = downloaded;
    let mut rev: Vec<(String, ModConfig)> = Vec::new();
    while dl.len() > 0
        invariant
            dl@ + rev@.reverse() == d0,
        decreases dl.len(),
    {
        let ghost b = dl@;
        let x = dl.pop().unwrap();
        let ghost rv = rev@;
        rev.push(x);
        assert(dl@ + rev@.reverse() =~= d0) by {
            assert(rev@.reverse() =~= seq![x] + rv.reverse());
            assert(b =~= dl@.push(x));
        }
    }
    assert(rev@.reverse() =~= d0);
    while rev.len() > 0
        invariant
            entries@ + rev@.reverse().map_values(
                |d: (String, ModConfig)|
                    ModListEntry::Downloaded {
                        id: d.0,
                        name: d.1.name,
                        manually_installed: d.1.manually_installed,
                    },
            ) == d0.map_values(
                |d: (String, ModConfig)|
                    ModListEntry::Downloaded {
                        id: d.0,
                        name: d.1.name,
                        manually_installed: d.1.manually_installed,
                    },
            ),
        decreases rev.len(),
    {
        let ghost b = rev@;
        let (key, cfg) = rev.pop().unwrap();
        let ghost eb = entries@;
        entries.push(
            ModListEntry::Downloaded {
                id: key,
                name: cfg.name,
                manually_installed: cfg.manually_installed,
            },
        );
        proof {
            assert(b =~= rev@.push((key, cfg)));
            assert(b.reverse() =~= seq![(key, cfg)] + rev@.reverse());
        }
        assert(entries@ + rev@.reverse().map_values(
            |d: (String, ModConfig)|
                ModListEntry::Downloaded {
                    id: d.0,
                    name: d.1.name,
                    manually_installed: d.1.manually_installed,
                },
        ) =~= eb + b.reverse().map_values(
            |d: (String, ModConfig)|
                ModListEntry::Downloaded {
                    id: d.0,
                    name: d.1.name,
                    manually_installed: d.1.manually_installed,
                },
        ));
    }
    assert(entries@ =~= d0.map_values(
        |d: (String, ModConfig)|
            ModListEntry::Downloaded {
                id: d.0,
                name: d.1.name,
                manually_installed: d.1.manually_installed,
            },
    ));
    let mut lrev: Vec<String> = Vec::new();
    let mut lo = local;
    while lo.len() > 0
        invariant
            lo@ + lrev@.reverse() == l0,
        decreases lo.len(),
    {
        let ghost b = lo@;
        let x = lo.pop().unwrap();
        let ghost rv = lrev@;
        lrev.push(x);
        assert(lo@ + lrev@.reverse() =~= l0) by {
            assert(lrev@.reverse() =~= seq![x] + rv.reverse());
            assert(b =~= lo@.push(x));
        }
    }
    assert(lrev@.reverse() =~= l0);
    while lrev.len() > 0
        invariant
            entries@ + lrev@.reverse().map_values(|f: String| ModListEntry::Local { file_name: f })
                == initial_entries(d0, l0),
        decreases lrev.len(),
    {
        let ghost b = lrev@;
        let f = lrev.pop().unwrap();
        let ghost eb = entries@;
        entries.push(ModListEntry::Local { file_name: f });
        proof {
            assert(b =~= lrev@.push(f));
            assert(b.reverse() =~= seq![f] + lrev@.reverse());
        }
        assert(entries@ + lrev@.reverse().map_values(
            |f: String| ModListEntry::Local { file_name: f },
        ) =~= eb + b.reverse().map_values(|f: String| ModListEntry::Local { file_name: f }));
    }
    assert(entries@ =~= initial_entries(d0, l0));
    sort_entries(entries)
}

} // verus!
