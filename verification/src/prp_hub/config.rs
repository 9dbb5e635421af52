use vstd::prelude::*;

use crate::text::{chars_eq, chars_of, copy_chars, split_chars, split_seq};

verus! {

/// Which repositories are left out of poly-repo commit sessions.
#[derive(Debug, Default)]
pub struct PrpConfig {
    /// Repository paths, as strings.
    pub excluded_repos: Vec<String>,
}

/// Where the configuration is stored, relative to the working directory.
pub fn config_path() -> (r: &'static str)
    ensures
        r@ == ".gitlink/prp_config.json"@,
{
    ".gitlink/prp_config.json"
}

impl PrpConfig {
    /// The excluded paths as character sequences, in stored order.
    pub open spec fn excluded(&self) -> Seq<Seq<char>> {
        self.excluded_repos.deep_view()
    }
}

/// The sequence without any occurrence of `x`, in the original order.
pub open spec fn remove_all(s: Seq<Seq<char>>, x: Seq<char>) -> Seq<Seq<char>>
    decreases s.len(),
{
    if s.len() == 0 {
        s
    } else {
        let r = remove_all(s.drop_last(), x);
        if s.last() == x {
            r
        } else {
            r.push(s.last())
        }
    }
}

// ─── Paths compared by their components ─────────────────────────────────────

/// The pieces of a path that name something: the pieces between separators, without
/// empty pieces (repeated or trailing separators) and without "." pieces.
pub open spec fn normal_parts(ps: Seq<Seq<char>>) -> Seq<Seq<char>>
    decreases ps.len(),
{
    if ps.len() == 0 {
        Seq::empty()
    } else {
        let r = normal_parts(ps.drop_last());
        if ps.last().len() == 0 || ps.last() == "."@ {
            r
        } else {
            r.push(ps.last())
        }
    }
}

/// What a Unix path is made of, as `Path::components` reads it: whether it starts at the
/// root, whether it starts with the current directory (a leading "." of a relative
/// path), and its other components in order.
pub open spec fn path_key(s: Seq<char>) -> (bool, bool, Seq<Seq<char>>) {
    let rooted = s.len() > 0 && s[0] == '/';
    let pieces = split_seq(s, '/');
    (rooted, !rooted && pieces[0] == "."@, normal_parts(pieces))
}

/// Two paths are the same path: they have the same components, as `Path`'s `==`
/// compares them.
pub open spec fn same_path(a: Seq<char>, b: Seq<char>) -> bool {
    path_key(a) == path_key(b)
}

/// Some path of the list is the same path as `p`.
pub open spec fn lists_path(s: Seq<Seq<char>>, p: Seq<char>) -> bool {
    exists|i: int| 0 <= i < s.len() && #[trigger] same_path(s[i], p)
}

/// The list without the paths that are the same path as `x`, in the original order.
pub open spec fn remove_path(s: Seq<Seq<char>>, x: Seq<char>) -> Seq<Seq<char>>
    decreases s.len(),
{
    if s.len() == 0 {
        s
    } else {
        let r = remove_path(s.drop_last(), x);
        if same_path(s.last(), x) {
            r
        } else {
            r.push(s.last())
        }
    }
}

/// No path is listed twice, under any spelling.
pub open spec fn no_duplicates(s: Seq<Seq<char>>) -> bool {
    forall|i: int, j: int| 0 <= i < j < s.len() ==> !same_path(#[trigger] s[i], #[trigger] s[j])
}

/// The components of a path (see `path_key`).
pub(crate) fn path_parts(s: &str) -> (r: (bool, bool, Vec<Vec<char>>))
    ensures
        (r.0, r.1, r.2@.map_values(|l: Vec<char>| l@)) == path_key(s@),
{
    let cs = chars_of(s);
    let rooted = cs.len() > 0 && cs[0] == '/';
    let pieces = split_chars(&cs, '/');
    let ghost pv = pieces@.map_values(|l: Vec<char>| l@);
    assert(pv.len() > 0);
    assert(pv[0] == pieces@[0]@);
    let dot = chars_of(".");
    let lead = !rooted && chars_eq(&pieces[0], &dot);
    let mut parts: Vec<Vec<char>> = Vec::new();
    let mut i: usize = 0;
    while i < pieces.len()
        invariant
            i <= pieces.len(),
            pv == pieces@.map_values(|l: Vec<char>| l@),
            dot@ == "."@,
            parts@.map_values(|l: Vec<char>| l@) =~= normal_parts(pv.take(i as int)),
        decreases pieces.len() - i,
    {
        assert(pv.take(i + 1).drop_last() =~= pv.take(i as int));
        assert(pv[i as int] == pieces@[i as int]@);
        if pieces[i].len() > 0 && !chars_eq(&pieces[i], &dot) {
            let ghost before = parts@;
            let p = copy_chars(&pieces[i]);
            parts.push(p);
            assert(parts@.map_values(|l: Vec<char>| l@) =~= before.map_values(|l: Vec<char>| l@).push(
                p@,
            ));
        }
        i += 1;
    }
    assert(pv.take(pieces.len() as int) =~= pv);
    (rooted, lead, parts)
}

/// Whether two paths are the same path (see `same_path`).
pub fn paths_equal(a: &str, b: &str) -> (r: bool)
    ensures
        r == same_path(a@, b@),
{
    let (ra, la, pa) = path_parts(a);
    let (rb, lb, pb) = path_parts(b);
    let ghost va = pa@.map_values(|l: Vec<char>| l@);
    let ghost vb = pb@.map_values(|l: Vec<char>| l@);
    assert(va.len() == pa.len() && vb.len() == pb.len());
    assert(va == path_key(a@).2 && vb == path_key(b@).2);
    if ra != rb || la != lb || pa.len() != pb.len() {
        assert(path_key(a@) != path_key(b@));
        return false;
    }
    let mut i: usize = 0;
    while i < pa.len()
        invariant
            i <= pa.len() == pb.len(),
            va == pa@.map_values(|l: Vec<char>| l@),
            vb == pb@.map_values(|l: Vec<char>| l@),
            va == path_key(a@).2,
            vb == path_key(b@).2,
            forall|j: int| 0 <= j < i ==> va[j] == vb[j],
        decreases pa.len() - i,
    {
        assert(va[i as int] == pa@[i as int]@ && vb[i as int] == pb@[i as int]@);
        if !chars_eq(&pa[i], &pb[i]) {
            assert(va[i as int] != vb[i as int]);
            assert(va == path_key(a@).2);
            assert(vb == path_key(b@).2);
            assert(path_key(a@).2 != path_key(b@).2);
            return false;
        }
        i += 1;
    }
    assert(va =~= vb);
    true
}

/// Whether `path` is excluded: some excluded path is the same path.
pub fn is_excluded(config: &PrpConfig, path: &str) -> (b: bool)
    ensures
        b == lists_path(config.excluded(), path@),
{
    let mut i: usize = 0;
    while i < config.excluded_repos.len()
        invariant
            i <= config.excluded_repos.len(),
            forall|j: int| 0 <= j < i ==> !same_path(#[trigger] config.excluded()[j], path@),
        decreases config.excluded_repos.len() - i,
    {
        if paths_equal(config.excluded_repos[i].as_str(), path) {
            assert(same_path(config.excluded()[i as int], path@));
            return true;
        }
        i += 1;
    }
    false
}

/// Excludes `path`; a path already excluded, under any spelling, is not listed again.
pub fn exclude_repo(config: &mut PrpConfig, path: String)
    ensures
        final(config).excluded() == if lists_path(old(config).excluded(), path@) {
            old(config).excluded()
        } else {
            old(config).excluded().push(path@)
        },
{
    if !is_excluded(config, path.as_str()) {
        config.excluded_repos.push(path);
        assert(config.excluded() =~= old(config).excluded().push(path@));
    }
}

/// Takes every spelling of `path` off the excluded list; the other paths keep their order.
pub fn include_repo(config: &mut PrpConfig, path: &str)
    ensures
        final(config).excluded() == remove_path(old(config).excluded(), path@),
{
    let mut kept: Vec<String> = Vec::new();
    let ghost orig = config.excluded();
    let mut i: usize = 0;
    while i < config.excluded_repos.len()
        invariant
            i <= config.excluded_repos.len(),
            orig == config.excluded(),
            kept.deep_view() == remove_path(orig.take(i as int), path@),
        decreases config.excluded_repos.len() - i,
    {
        assert(orig.take(i + 1).drop_last() =~= orig.take(i as int));
        if !paths_equal(config.excluded_repos[i].as_str(), path) {
            let s = config.excluded_repos[i].clone();
            kept.push(s);
            assert(kept.deep_view() =~= remove_path(orig.take(i as int), path@).push(orig[i as int]));
        }
        i += 1;
    }
    assert(orig.take(config.excluded_repos.len() as int) =~= orig);
    config.excluded_repos = kept;
}

// ─── Laws ────────────────────────────────────────────────────────────────────

proof fn lemma_remove_path_props(s: Seq<Seq<char>>, x: Seq<char>)
    ensures
        !lists_path(remove_path(s, x), x),
        forall|y: Seq<char>| !same_path(y, x) ==> (lists_path(remove_path(s, x), y) <==> lists_path(s, y)),
        !lists_path(s, x) ==> remove_path(s, x) == s,
    decreases s.len(),
{
    if s.len() > 0 {
        let t = s.drop_last();
        let r = remove_path(t, x);
        lemma_remove_path_props(t, x);
        let out = remove_path(s, x);
        if lists_path(out, x) {
            let k = choose|k: int| 0 <= k < out.len() && same_path(out[k], x);
            if !same_path(s.last(), x) && k == r.len() {
            } else {
                assert(same_path(r[k], x));
            }
        }
        assert forall|y: Seq<char>| !same_path(y, x) implies (lists_path(out, y) <==> lists_path(s, y)) by {
            if lists_path(s, y) {
                let k = choose|k: int| 0 <= k < s.len() && same_path(s[k], y);
                if k < s.len() - 1 {
                    assert(same_path(t[k], y));
                    assert(lists_path(r, y));
                    let m = choose|m: int| 0 <= m < r.len() && same_path(r[m], y);
                    assert(same_path(out[m], y));
                } else {
                    assert(!same_path(s.last(), x));
                    assert(same_path(out[out.len() - 1], y));
                }
            }
            if lists_path(out, y) {
                let k = choose|k: int| 0 <= k < out.len() && same_path(out[k], y);
                if !same_path(s.last(), x) && k == r.len() {
                    assert(same_path(s[s.len() - 1], y));
                } else {
                    assert(same_path(r[k], y));
                    assert(lists_path(t, y));
                    let m = choose|m: int| 0 <= m < t.len() && same_path(t[m], y);
                    assert(same_path(s[m], y));
                }
            }
        }
        if !lists_path(s, x) {
            assert(!same_path(s.last(), x)) by {
                if same_path(s.last(), x) {
                    assert(same_path(s[s.len() - 1], x));
                }
            }
            assert(!lists_path(t, x)) by {
                if lists_path(t, x) {
                    let k = choose|k: int| 0 <= k < t.len() && same_path(t[k], x);
                    assert(same_path(s[k], x));
                }
            }
            assert(s =~= t.push(s.last()));
        }
    }
}

/// After a path is excluded it is reported as excluded, under every spelling, and every
/// other path keeps its status.
pub proof fn law_exclude_then_is_excluded(c: Seq<Seq<char>>, p: Seq<char>, q: Seq<char>)
    ensures
        ({
            let after = if lists_path(c, p) { c } else { c.push(p) };
            &&& same_path(q, p) ==> lists_path(after, q)
            &&& !same_path(q, p) ==> (lists_path(after, q) <==> lists_path(c, q))
        }),
{
    let after = if lists_path(c, p) { c } else { c.push(p) };
    if same_path(q, p) {
        if lists_path(c, p) {
            let k = choose|k: int| 0 <= k < c.len() && same_path(c[k], p);
            assert(same_path(c[k], q));
        } else {
            assert(same_path(c.push(p)[c.len() as int], q));
        }
    } else if !lists_path(c, p) {
        if lists_path(c.push(p), q) {
            let k = choose|k: int| 0 <= k < c.push(p).len() && same_path(c.push(p)[k], q);
            assert(k < c.len());
            assert(same_path(c[k], q));
        }
        if lists_path(c, q) {
            let k = choose|k: int| 0 <= k < c.len() && same_path(c[k], q);
            assert(same_path(c.push(p)[k], q));
        }
    }
}

/// After a path is included no spelling of it is excluded, and every other path keeps its
/// status.
pub proof fn law_include_then_not_excluded(c: Seq<Seq<char>>, p: Seq<char>, q: Seq<char>)
    ensures
        same_path(q, p) ==> !lists_path(remove_path(c, p), q),
        !same_path(q, p) ==> (lists_path(remove_path(c, p), q) <==> lists_path(c, q)),
{
    lemma_remove_path_props(c, p);
    if same_path(q, p) && lists_path(remove_path(c, p), q) {
        let r = remove_path(c, p);
        let k = choose|k: int| 0 <= k < r.len() && same_path(r[k], q);
        assert(same_path(r[k], p));
    }
}

/// Excluding a path that was not excluded and then including it again restores the list.
pub proof fn law_exclude_then_include(c: Seq<Seq<char>>, p: Seq<char>)
    requires
        !lists_path(c, p),
    ensures
        remove_path(c.push(p), p) == c,
{
    lemma_remove_path_props(c, p);
    assert(c.push(p).drop_last() =~= c);
}

/// Excluding a path twice, under any two spellings, is the same as excluding it once.
pub proof fn law_exclude_idempotent(c: Seq<Seq<char>>, p: Seq<char>, p2: Seq<char>)
    requires
        same_path(p, p2),
    ensures
        ({
            let once = if lists_path(c, p) { c } else { c.push(p) };
            (if lists_path(once, p2) { once } else { once.push(p2) }) == once
        }),
{
    law_exclude_then_is_excluded(c, p, p2);
}

/// Excluding keeps the list free of duplicates.
pub proof fn law_exclude_keeps_no_duplicates(c: Seq<Seq<char>>, p: Seq<char>)
    requires
        no_duplicates(c),
    ensures
        no_duplicates(if lists_path(c, p) { c } else { c.push(p) }),
{
    if !lists_path(c, p) {
        assert forall|i: int, j: int| 0 <= i < j < c.push(p).len() implies !same_path(
            #[trigger] c.push(p)[i],
            #[trigger] c.push(p)[j],
        ) by {
            if j == c.len() {
                if same_path(c[i], p) {
                    assert(lists_path(c, p));
                }
            }
        }
    }
}

} // verus!
