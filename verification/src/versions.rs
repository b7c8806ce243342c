//! Minecraft version names: their category (release, snapshot, beta, alpha)
//! and the filtered list that the Create tab shows.
use vstd::prelude::*;
use crate::text::{
    chars_of, contains_str, has_substring, is_ascii_letter, is_digit, lowercase, occurs_at,
    starts_with_str, to_lowercase,
};

verus! {

/// One entry of the list of versions that can be installed.
pub struct ListEntry {
    pub name: String,
}

impl Clone for ListEntry {
    fn clone(&self) -> (r: Self)
        ensures
            r == *self,
    {
        ListEntry { name: self.name.clone() }
    }
}

/// The kind of a Minecraft version.
#[derive(Debug, Clone, Copy, PartialEq, Eq, Structural)]
pub enum VersionCategory {
    Release,
    Snapshot,
    Beta,
    Alpha,
}

/// Whether a weekly-snapshot name starts at position `i` of `s`: two ASCII
/// digits, a `w`, any number of ASCII digits and then an ASCII letter (as in
/// `24w14a`).
pub open spec fn snapshot_at(s: Seq<char>, i: int) -> bool {
    &&& 0 <= i
    &&& i + 3 < s.len()
    &&& is_digit(s[i])
    &&& is_digit(s[i + 1])
    &&& s[i + 2] == 'w'
    &&& exists|j: int|
        #![trigger s[j]]
        i + 3 <= j < s.len() && is_ascii_letter(s[j]) && forall|k: int|
            i + 3 <= k < j ==> is_digit(#[trigger] s[k])
}

/// Whether a version name holds a weekly-snapshot name anywhere.
pub open spec fn has_snapshot_pattern(s: Seq<char>) -> bool {
    exists|i: int| snapshot_at(s, i)
}

/// The category of a version name: snapshots (weekly snapshot names, `-pre`
/// and `-rc` releases) first, then alphas (`a…`), betas (`b…`, `inf-…`), and
/// releases for everything else.
pub open spec fn version_category(s: Seq<char>) -> VersionCategory {
    if has_snapshot_pattern(s) || has_substring(s, "-pre"@) || has_substring(s, "-rc"@) {
        VersionCategory::Snapshot
    } else if s.len() > 0 && s[0] == 'a' {
        VersionCategory::Alpha
    } else if (s.len() > 0 && s[0] == 'b') || "inf-"@.is_prefix_of(s) {
        VersionCategory::Beta
    } else {
        VersionCategory::Release
    }
}

fn ascii_digit(c: char) -> (r: bool)
    ensures
        r == is_digit(c),
{
    '0' <= c && c <= '9'
}

fn ascii_letter(c: char) -> (r: bool)
    ensures
        r == is_ascii_letter(c),
{
    ('a' <= c && c <= 'z') || ('A' <= c && c <= 'Z')
}

/// Whether a weekly-snapshot name starts at position `i` (executable).
fn snapshot_starts_at(s: &Vec<char>, i: usize) -> (r: bool)
    ensures
        r == snapshot_at(s@, i as int),
{
    let n = s.len();
    if n < 4 || i > n - 4 {
        return false;
    }
    if !(ascii_digit(s[i]) && ascii_digit(s[i + 1]) && s[i + 2] == 'w') {
        return false;
    }
    let mut j: usize = i + 3;
    while j < n && ascii_digit(s[j])
        invariant
            n == s@.len(),
            i + 3 <= j <= n,
            forall|k: int| i + 3 <= k < j ==> is_digit(#[trigger] s@[k]),
        decreases n - j,
    {
        j += 1;
    }
    if j < n && ascii_letter(s[j]) {
        assert(s@[j as int] == s@[j as int]);
        true
    } else {
        assert forall|jj: int|
            i + 3 <= jj < s@.len() && is_ascii_letter(#[trigger] s@[jj]) implies !(forall|k: int|
            i + 3 <= k < jj ==> is_digit(#[trigger] s@[k])) by {
            if jj > j {
                assert(!is_digit(s@[j as int]));
            } else if jj < j {
                assert(is_digit(s@[jj]));
            }
        }
        false
    }
}

/// Whether a version name holds a weekly-snapshot name (executable).
fn looks_like_snapshot(s: &Vec<char>) -> (r: bool)
    ensures
        r == has_snapshot_pattern(s@),
{
    let mut i: usize = 0;
    while i < s.len()
        invariant
            i <= s@.len(),
            forall|k: int| 0 <= k < i ==> !snapshot_at(s@, k),
        decreases s.len() - i,
    {
        if snapshot_starts_at(s, i) {
            return true;
        }
        i += 1;
    }
    assert forall|k: int| !snapshot_at(s@, k) by {
        if 0 <= k < i {
        }
    }
    false
}

/// The category of a version name (see `version_category`).
pub fn classify_version(name: &str) -> (r: VersionCategory)
    ensures
        r == version_category(name@),
{
    let v = chars_of(name);
    if looks_like_snapshot(&v) || contains_str(name, "-pre") || contains_str(name, "-rc") {
        return VersionCategory::Snapshot;
    }
    if v.len() > 0 && v[0] == 'a' {
        return VersionCategory::Alpha;
    }
    if (v.len() > 0 && v[0] == 'b') || starts_with_str(name, "inf-") {
        return VersionCategory::Beta;
    }
    VersionCategory::Release
}

/// Which version categories the Create tab shows.
#[derive(Debug, Clone, Copy, PartialEq, Eq, Structural)]
pub struct VersionFilters {
    pub release: bool,
    pub snapshot: bool,
    pub beta: bool,
    pub alpha: bool,
}

/// Whether a category passes the filters.
pub open spec fn category_shown(c: VersionCategory, f: VersionFilters) -> bool {
    match c {
        VersionCategory::Release => f.release,
        VersionCategory::Snapshot => f.snapshot,
        VersionCategory::Beta => f.beta,
        VersionCategory::Alpha => f.alpha,
    }
}

/// Whether a version is shown for the lowercased search text `query` and
/// the filters: its category is enabled and, when the query is not empty,
/// its lowercased name contains the query.
pub open spec fn version_visible(name: Seq<char>, query: Seq<char>, f: VersionFilters) -> bool {
    category_shown(version_category(name), f) && (query.len() == 0 || has_substring(
        lowercase(name),
        query,
    ))
}

/// The versions of `s` that are shown, in their original order.
pub open spec fn visible_versions(s: Seq<ListEntry>, query: Seq<char>, f: VersionFilters) -> Seq<
    ListEntry,
>
    decreases s.len(),
{
    if s.len() == 0 {
        Seq::empty()
    } else if version_visible(s.last().name@, query, f) {
        visible_versions(s.drop_last(), query, f).push(s.last())
    } else {
        visible_versions(s.drop_last(), query, f)
    }
}

/// The versions shown for a search text (lowercased here) and the filters.
pub fn filter_versions(available: &Vec<ListEntry>, search: &str, f: VersionFilters) -> (r: Vec<
    ListEntry,
>)
    ensures
        r@ == visible_versions(available@, lowercase(search@), f),
{
    let query = to_lowercase(search);
    let qlen = chars_of(query.as_str()).len();
    let mut out: Vec<ListEntry> = Vec::new();
    let mut i: usize = 0;
    while i < available.len()
        invariant
            i <= available@.len(),
            query@ == lowercase(search@),
            qlen == query@.len(),
            out@ == visible_versions(available@.take(i as int), query@, f),
        decreases available.len() - i,
    {
        let v = &available[i];
        assert(available@.take(i + 1).drop_last() =~= available@.take(i as int));
        let cat = classify_version(v.name.as_str());
        let type_ok = match cat {
            VersionCategory::Release => f.release,
            VersionCategory::Snapshot => f.snapshot,
            VersionCategory::Beta => f.beta,
            VersionCategory::Alpha => f.alpha,
        };
        if type_ok {
            let matched = if qlen == 0 {
                true
            } else {
                let lower = to_lowercase(v.name.as_str());
                contains_str(lower.as_str(), query.as_str())
            };
            if matched {
                out.push(v.clone());
            }
        }
        i += 1;
    }
    assert(available@.take(available@.len() as int) =~= available@);
    out
}

/// Each version shown has its own category's filter on (an alpha only with
/// the alpha filter, a beta only with the beta filter, and so on) and
/// matches the search; and every version of the list whose own category's
/// filter is on and that matches the search is shown.
pub proof fn law_filters_follow_own_category(s: Seq<ListEntry>, query: Seq<char>, f: VersionFilters)
    ensures
        forall|i: int| #![trigger visible_versions(s, query, f)[i]]
            0 <= i < visible_versions(s, query, f).len() ==> {
                let v = visible_versions(s, query, f)[i];
                let c = version_category(v.name@);
                &&& s.contains(v)
                &&& c == VersionCategory::Release ==> f.release
                &&& c == VersionCategory::Snapshot ==> f.snapshot
                &&& c == VersionCategory::Beta ==> f.beta
                &&& c == VersionCategory::Alpha ==> f.alpha
                &&& query.len() == 0 || has_substring(lowercase(v.name@), query)
            },
        forall|j: int| #![trigger s[j]]
            0 <= j < s.len() && {
                let c = version_category(s[j].name@);
                &&& c == VersionCategory::Release ==> f.release
                &&& c == VersionCategory::Snapshot ==> f.snapshot
                &&& c == VersionCategory::Beta ==> f.beta
                &&& c == VersionCategory::Alpha ==> f.alpha
                &&& query.len() == 0 || has_substring(lowercase(s[j].name@), query)
            } ==> visible_versions(s, query, f).contains(s[j]),
        visible_versions(s, query, f) == s.filter(
            |v: ListEntry|
                {
                    let c = version_category(v.name@);
                    &&& c == VersionCategory::Release ==> f.release
                    &&& c == VersionCategory::Snapshot ==> f.snapshot
                    &&& c == VersionCategory::Beta ==> f.beta
                    &&& c == VersionCategory::Alpha ==> f.alpha
                    &&& query.len() == 0 || has_substring(lowercase(v.name@), query)
                },
        ),
    decreases s.len(),
{
    let pred = |v: ListEntry|
        {
            let c = version_category(v.name@);
            &&& c == VersionCategory::Release ==> f.release
            &&& c == VersionCategory::Snapshot ==> f.snapshot
            &&& c == VersionCategory::Beta ==> f.beta
            &&& c == VersionCategory::Alpha ==> f.alpha
            &&& query.len() == 0 || has_substring(lowercase(v.name@), query)
        };
    if s.len() == 0 {
        assert(s.filter(pred) =~= Seq::<ListEntry>::empty()) by {
            reveal(Seq::filter);
        }
    } else {
        s.drop_last().lemma_filter_push(s.last(), pred);
        assert(s.drop_last().push(s.last()) =~= s);
    }
    if s.len() > 0 {
        let t = s.drop_last();
        law_filters_follow_own_category(t, query, f);
        let vt = visible_versions(t, query, f);
        let vs = visible_versions(s, query, f);
        assert forall|i: int| 0 <= i < t.len() implies #[trigger] s.contains(t[i]) by {
            assert(s[i] == t[i]);
        }
        assert(s[s.len() - 1] == s.last());
        assert forall|i: int| 0 <= i < vt.len() implies s.contains(#[trigger] vt[i]) by {
            let w = vt[i];
            assert(t.contains(w));
            let m = choose|m: int| 0 <= m < t.len() && t[m] == w;
            assert(s[m] == w);
        }
        assert forall|j: int| 0 <= j < s.len() && {
            let c = version_category(s[j].name@);
            &&& c == VersionCategory::Release ==> f.release
            &&& c == VersionCategory::Snapshot ==> f.snapshot
            &&& c == VersionCategory::Beta ==> f.beta
            &&& c == VersionCategory::Alpha ==> f.alpha
            &&& query.len() == 0 || has_substring(lowercase(s[j].name@), query)
        } implies vs.contains(#[trigger] s[j]) by {
            if j < s.len() - 1 {
                assert(t[j] == s[j]);
                assert(vt.contains(t[j]));
                let m = choose|m: int| 0 <= m < vt.len() && vt[m] == t[j];
                if version_visible(s.last().name@, query, f) {
                    assert(vs[m] == vt[m]);
                }
            } else {
                assert(vs[vs.len() - 1] == s.last());
            }
        }
    }
}

} // verus!
