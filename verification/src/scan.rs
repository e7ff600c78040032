use vstd::prelude::*;
use crate::order::{pair_lt, pair_lt_exec, strictly_sorted, lemma_sorted_insert};
use crate::types::ControllerDef;
use crate::text::{lex_lt, str_eq, str_lt, lemma_lex_total, lemma_lex_transitive};

verus! {

/// A controller profile, or a folder that holds profiles, as the menu lists it.
#[derive(Debug, Clone)]
pub struct ControllerEntry {
    pub name: String,
    pub path: String,
    pub icon_data_url: Option<String>,
    pub is_controller: bool,
}

/// A top-level group card of the menu.
#[derive(Debug, Clone)]
pub struct GroupEntry {
    pub name: String,
    pub path: String,
    pub icon_data_url: Option<String>,
}

/// A menu entry: something with a display name and a directory path.
pub trait ListEntry: Sized {
    spec fn name_view(&self) -> Seq<char>;

    spec fn path_view(&self) -> Seq<char>;

    fn entry_name(&self) -> (r: &str)
        ensures
            r@ == self.name_view(),
    ;

    fn entry_path(&self) -> (r: &str)
        ensures
            r@ == self.path_view(),
    ;
}

impl ListEntry for ControllerEntry {
    open spec fn name_view(&self) -> Seq<char> {
        self.name@
    }

    open spec fn path_view(&self) -> Seq<char> {
        self.path@
    }

    fn entry_name(&self) -> (r: &str) {
        self.name.as_str()
    }

    fn entry_path(&self) -> (r: &str) {
        self.path.as_str()
    }
}

impl ListEntry for GroupEntry {
    open spec fn name_view(&self) -> Seq<char> {
        self.name@
    }

    open spec fn path_view(&self) -> Seq<char> {
        self.path@
    }

    fn entry_name(&self) -> (r: &str) {
        self.name.as_str()
    }

    fn entry_path(&self) -> (r: &str) {
        self.path.as_str()
    }
}

/// The menu entry of a profile directory at `path`, once its profile has
/// been loaded (or failed to load): a loaded profile is listed under the
/// name its `[controller]` gives, with the directory's icon, as a
/// controller; one that failed to load is not listed.
pub fn make_controller_entry(
    path: String,
    icon_data_url: Option<String>,
    loaded: Result<ControllerDef, String>,
) -> (r: Option<ControllerEntry>)
    ensures
        loaded is Err ==> r is None,
        loaded matches Ok(def) ==> r == Some(
            (ControllerEntry {
                name: def.controller.name,
                path: path,
                icon_data_url: icon_data_url,
                is_controller: true,
            }),
        ),
{
    match loaded {
        Ok(def) => Some(
            ControllerEntry {
                name: def.controller.name,
                path,
                icon_data_url,
                is_controller: true,
            },
        ),
        Err(_) => None,
    }
}

/// The directories searched for profiles, in order: those found beside
/// the program and in the user's configuration (`found`, in that order),
/// then the working directory's `controllers` when it exists (`cwd`) and is
/// not one of them already; when there is none at all, `fallback` (the
/// relative `controllers`).
pub fn controller_bases<T>(found: Vec<T>, cwd: Option<T>, cwd_already_found: bool, fallback: T) -> (r: Vec<T>)
    ensures
        r@ == ({
            let s = match cwd {
                Some(c) => if cwd_already_found {
                    found@
                } else {
                    found@.push(c)
                },
                None => found@,
            };
            if s.len() == 0 {
                seq![fallback]
            } else {
                s
            }
        }),
{
    let mut dirs = found;
    match cwd {
        Some(c) => {
            if !cwd_already_found {
                dirs.push(c);
            }
        },
        None => {},
    }
    if dirs.len() == 0 {
        dirs.push(fallback);
        assert(dirs@ =~= seq![fallback]);
    }
    dirs
}

/// How a directory is listed in a menu: as a profile (`Some(true)`) when it
/// holds a `controller.toml` that loads; as a group (`Some(false)`) when it
/// holds no `controller.toml` but has one somewhere below; otherwise not at
/// all (a profile that fails to load is left out).
pub fn listing_kind(has_profile: bool, profile_loads: bool, has_profile_below: bool) -> (r: Option<bool>)
    ensures
        r == (if has_profile {
            if profile_loads {
                Some(true)
            } else {
                None
            }
        } else if has_profile_below {
            Some(false)
        } else {
            None
        }),
{
    if has_profile {
        if profile_loads {
            Some(true)
        } else {
            None
        }
    } else if has_profile_below {
        Some(false)
    } else {
        None
    }
}

/// The icon of a listed directory, relative to it: a profile's is
/// `images/Icon.webp`, a group's `Icon.webp`.
pub fn icon_file(is_controller: bool) -> (r: &'static str)
    ensures
        r@ == (if is_controller {
            "images/Icon.webp"@
        } else {
            "Icon.webp"@
        }),
{
    if is_controller {
        "images/Icon.webp"
    } else {
        "Icon.webp"
    }
}

/// The (name, path) key by which menu lists are ordered.
pub open spec fn name_path_key<E: ListEntry>(e: E) -> (Seq<char>, Seq<char>) {
    (e.name_view(), e.path_view())
}

/// Whether entry `i` is the first entry of `s` with its path.
pub open spec fn is_first_with_path<E: ListEntry>(s: Seq<E>, i: int) -> bool {
    forall|j: int| 0 <= j < i ==> (#[trigger] s[j]).path_view() != s[i].path_view()
}

/// Every path has a first entry: some entry at or before `j` has the path of
/// entry `j` and is the first with it.
pub proof fn lemma_first_with_path<E: ListEntry>(s: Seq<E>, j: int)
    requires
        0 <= j < s.len(),
    ensures
        exists|f: int|
            0 <= f <= j && is_first_with_path(s, f) && (#[trigger] s[f]).path_view() == s[j].path_view(),
    decreases j,
{
    if !is_first_with_path(s, j) {
        let k = choose|k: int| 0 <= k < j && (#[trigger] s[k]).path_view() == s[j].path_view();
        lemma_first_with_path(s, k);
        let f = choose|f: int|
            0 <= f <= k && is_first_with_path(s, f) && (#[trigger] s[f]).path_view()
                == s[k].path_view();
        assert(s[f].path_view() == s[j].path_view());
    } else {
        assert(s[j].path_view() == s[j].path_view());
    }
}

/// Whether `e` is the first entry of `s` with its path.
pub open spec fn kept_first<E: ListEntry>(s: Seq<E>, e: E) -> bool {
    exists|i: int| 0 <= i < s.len() && is_first_with_path(s, i) && #[trigger] s[i] == e
}

/// Whether `e` is one of the entries of `s`.
pub open spec fn listed<E>(s: Seq<E>, e: E) -> bool {
    exists|k: int| 0 <= k < s.len() && s[k] == e
}

/// A menu listing after removing repeated paths and sorting: for each path,
/// the first entry with it is kept; the kept entries are ordered by name,
/// and entries with equal names by path.
pub fn dedup_sort_by_name<E: ListEntry>(entries: Vec<E>) -> (r: Vec<E>)
    ensures
        strictly_sorted(r@.map_values(|e: E| name_path_key(e))),
        forall|k: int| 0 <= k < r@.len() ==> kept_first(entries@, #[trigger] r@[k]),
        forall|i: int|
            0 <= i < entries@.len() && #[trigger] is_first_with_path(entries@, i) ==> listed(
                r@,
                entries@[i],
            ),
{
    let ghost orig = entries@;
    assert(orig.len() == entries.len());
    let mut rest = entries;
    let mut out: Vec<E> = Vec::new();
    let ghost mut w: Seq<int> = Seq::empty();
    let mut i: usize = 0;
    while rest.len() > 0
        invariant
            i + rest@.len() == orig.len(),
            orig.len() <= usize::MAX,
            rest@ == orig.subrange(i as int, orig.len() as int),
            strictly_sorted(out@.map_values(|e: E| name_path_key(e))),
            w.len() == out@.len(),
            forall|k: int|
                0 <= k < out@.len() ==> 0 <= #[trigger] w[k] < i && is_first_with_path(orig, w[k])
                    && out@[k] == orig[w[k]],
            forall|j: int| 0 <= j < i && is_first_with_path(orig, j) ==> #[trigger] w.contains(j),
        decreases rest@.len(),
    {
        let e = rest.remove(0);
        assert(e == orig[i as int]);
        let mut seen = false;
        let mut k: usize = 0;
        while k < out.len()
            invariant
                k <= out@.len(),
                seen ==> exists|m: int| 0 <= m < out@.len() && (#[trigger] out@[m]).path_view() == e.path_view(),
                !seen ==> forall|m: int| 0 <= m < k ==> (#[trigger] out@[m]).path_view() != e.path_view(),
            decreases out@.len() - k,
        {
            if str_eq(out[k].entry_path(), e.entry_path()) {
                seen = true;
            }
            k = k + 1;
        }
        let ghost keys = out@.map_values(|x: E| name_path_key(x));
        if seen {
            proof {
                let m = choose|m: int| 0 <= m < out@.len() && (#[trigger] out@[m]).path_view() == e.path_view();
                assert(orig[w[m]].path_view() == orig[i as int].path_view());
                assert(!is_first_with_path(orig, i as int));
                assert forall|j: int| 0 <= j < i + 1 && is_first_with_path(orig, j) implies #[trigger] w.contains(j) by {}
            }
        } else {
            proof {
                assert forall|j: int| 0 <= j < i implies (#[trigger] orig[j]).path_view() != orig[i as int].path_view() by {
                    if orig[j].path_view() == orig[i as int].path_view() {
                        lemma_first_with_path(orig, j);
                        let f = choose|f: int|
                            0 <= f <= j && is_first_with_path(orig, f) && (#[trigger] orig[f]).path_view() == orig[j].path_view();
                        assert(w.contains(f));
                        let m = choose|m: int| 0 <= m < w.len() && w[m] == f;
                        assert(out@[m].path_view() == e.path_view());
                    }
                }
                assert(is_first_with_path(orig, i as int));
            }
            let mut pos: usize = 0;
            while pos < out.len() && pair_lt_exec(out[pos].entry_name(), out[pos].entry_path(), e.entry_name(), e.entry_path())
                invariant
                    pos <= out@.len(),
                    keys == out@.map_values(|x: E| name_path_key(x)),
                    forall|a: int| 0 <= a < pos ==> pair_lt(#[trigger] keys[a], name_path_key(e)),
                decreases out@.len() - pos,
            {
                pos = pos + 1;
            }
            proof {
                if pos < out@.len() {
                    assert(keys[pos as int].1 != e.path_view());
                }
                lemma_sorted_insert(keys, name_path_key(e), pos as int);
            }
            let ghost old_out = out@;
            let ghost old_w = w;
            out.insert(pos, e);
            proof {
                w = w.insert(pos as int, i as int);
                assert(out@.map_values(|x: E| name_path_key(x)) =~= keys.insert(pos as int, name_path_key(e)));
                assert forall|k: int| 0 <= k < out@.len() implies 0 <= #[trigger] w[k] < i + 1
                    && is_first_with_path(orig, w[k]) && out@[k] == orig[w[k]] by {
                    if k < pos {
                        assert(w[k] == old_w[k]);
                        assert(out@[k] == old_out[k]);
                    } else if k > pos {
                        assert(w[k] == old_w[k - 1]);
                        assert(out@[k] == old_out[k - 1]);
                    }
                }
                assert forall|j: int| 0 <= j < i + 1 && is_first_with_path(orig, j) implies #[trigger] w.contains(j) by {
                    if j < i {
                        assert(old_w.contains(j));
                        let m = choose|m: int| 0 <= m < old_w.len() && old_w[m] == j;
                        if m < pos {
                            assert(w[m] == j);
                        } else {
                            assert(w[m + 1] == j);
                        }
                    } else {
                        assert(w[pos as int] == j);
                    }
                }
            }
        }
        assert(rest@ =~= orig.subrange(i + 1, orig.len() as int));
        i = i + 1;
    }
    proof {
        assert forall|k: int| 0 <= k < out@.len() implies kept_first(orig, #[trigger] out@[k]) by {
            assert(is_first_with_path(orig, w[k]));
            assert(orig[w[k]] == out@[k]);
        }
        assert forall|j: int| 0 <= j < orig.len() && #[trigger] is_first_with_path(orig, j) implies listed(out@, orig[j]) by {
            assert(w.contains(j));
            let m = choose|m: int| 0 <= m < w.len() && w[m] == j;
            assert(out@[m] == orig[j]);
        }
    }
    out
}

/// Whether `r`, through the positions `p`, is `orig` sorted by name with
/// entries of equal names kept in their input order: `r[k]` is
/// `orig[p[k]]`, no position is used twice, and (name, position) strictly
/// increases along `r`.
pub open spec fn stably_sorted_by_name<E: ListEntry>(orig: Seq<E>, r: Seq<E>, p: Seq<int>) -> bool {
    &&& p.len() == r.len()
    &&& r.len() == orig.len()
    &&& forall|k: int| 0 <= k < r.len() ==> 0 <= #[trigger] p[k] < orig.len() && r[k] == orig[p[k]]
    &&& forall|a: int, b: int| 0 <= a < b < r.len() ==> #[trigger] p[a] != #[trigger] p[b]
    &&& forall|a: int, b: int|
        0 <= a < b < r.len() ==> lex_lt((#[trigger] r[a]).name_view(), (#[trigger] r[b]).name_view())
            || (r[a].name_view() == r[b].name_view() && p[a] < p[b])
}

/// Whether some positions make `r` the stable sort of `orig` by name.
pub open spec fn is_stable_sort_by_name<E: ListEntry>(orig: Seq<E>, r: Seq<E>) -> bool {
    exists|p: Seq<int>| stably_sorted_by_name(orig, r, p)
}

/// Sorts entries by name; entries with equal names keep their order
/// (`sort_by` on the name is stable).
pub fn sort_by_name<E: ListEntry>(entries: Vec<E>) -> (r: Vec<E>)
    ensures
        is_stable_sort_by_name(entries@, r@),
{
    let ghost orig = entries@;
    assert(orig.len() == entries.len());
    let mut rest = entries;
    let mut out: Vec<E> = Vec::new();
    let ghost mut p: Seq<int> = Seq::empty();
    let mut i: usize = 0;
    while rest.len() > 0
        invariant
            i + rest@.len() == orig.len(),
            orig.len() <= usize::MAX,
            rest@ == orig.subrange(i as int, orig.len() as int),
            p.len() == out@.len(),
            out@.len() == i,
            forall|k: int| 0 <= k < out@.len() ==> 0 <= #[trigger] p[k] < i && out@[k] == orig[p[k]],
            forall|a: int, b: int| 0 <= a < b < out@.len() ==> #[trigger] p[a] != #[trigger] p[b],
            forall|a: int, b: int|
                0 <= a < b < out@.len() ==> lex_lt(
                    (#[trigger] out@[a]).name_view(),
                    (#[trigger] out@[b]).name_view(),
                ) || (out@[a].name_view() == out@[b].name_view() && p[a] < p[b]),
        decreases rest@.len(),
    {
        let e = rest.remove(0);
        assert(e == orig[i as int]);
        let mut pos: usize = 0;
        while pos < out.len() && !str_lt(e.entry_name(), out[pos].entry_name())
            invariant
                pos <= out@.len(),
                forall|a: int| 0 <= a < pos ==> !lex_lt(e.name_view(), (#[trigger] out@[a]).name_view()),
            decreases out@.len() - pos,
        {
            pos = pos + 1;
        }
        let ghost old_out = out@;
        let ghost old_p = p;
        out.insert(pos, e);
        proof {
            p = p.insert(pos as int, i as int);
            assert forall|k: int| 0 <= k < out@.len() implies 0 <= #[trigger] p[k] < i + 1 && out@[k] == orig[p[k]] by {
                if k < pos {
                    assert(p[k] == old_p[k]);
                } else if k > pos {
                    assert(p[k] == old_p[k - 1]);
                }
            }
            assert forall|a: int, b: int| 0 <= a < b < out@.len() implies #[trigger] p[a] != #[trigger] p[b] by {
                if a < pos && b > pos {
                    assert(p[b] == old_p[b - 1]);
                } else if a > pos {
                    assert(p[a] == old_p[a - 1]);
                    assert(p[b] == old_p[b - 1]);
                } else if a == pos {
                    assert(p[b] == old_p[b - 1]);
                }
            }
            assert forall|a: int, b: int| 0 <= a < b < out@.len() implies lex_lt(
                (#[trigger] out@[a]).name_view(),
                (#[trigger] out@[b]).name_view(),
            ) || (out@[a].name_view() == out@[b].name_view() && p[a] < p[b]) by {
                if a < pos && b == pos {
                    assert(out@[a] == old_out[a]);
                    lemma_lex_total(old_out[a].name_view(), e.name_view());
                } else if a < pos && b > pos {
                    assert(out@[b] == old_out[b - 1]);
                    assert(p[b] == old_p[b - 1]);
                } else if a == pos && b > pos {
                    assert(out@[b] == old_out[b - 1]);
                    assert(lex_lt(e.name_view(), old_out[pos as int].name_view()));
                    if b - 1 > pos {
                        let x = old_out[pos as int].name_view();
                        let y = old_out[b - 1].name_view();
                        if lex_lt(x, y) {
                            lemma_lex_transitive(e.name_view(), x, y);
                        }
                    }
                } else if a > pos {
                    assert(out@[a] == old_out[a - 1]);
                    assert(out@[b] == old_out[b - 1]);
                    assert(p[a] == old_p[a - 1]);
                    assert(p[b] == old_p[b - 1]);
                }
            }
        }
        assert(rest@ =~= orig.subrange(i + 1, orig.len() as int));
        i = i + 1;
    }
    assert(stably_sorted_by_name(orig, out@, p));
    out
}

} // verus!
