use vstd::prelude::*;

use crate::prp_hub::config::{path_key, path_parts};
use crate::prp_hub::errors::PrpError;
use crate::prp_hub::session::RepositoryInfo;
use crate::text::{
    chars_eq, chars_lt, lemma_text_lt_irreflexive, lemma_text_lt_total, lemma_text_lt_transitive, text_lt,
};

verus! {

// ─── Paths ordered as `Path`'s `Ord` orders them ────────────────────────────

/// A path component as `Path`'s order sees it: its kind (1 the root, 2 a leading ".",
/// 3 "..", 4 a name), in the order of `Component`'s variants, and its text for a name.
pub open spec fn component_of(part: Seq<char>) -> (nat, Seq<char>) {
    if part == ".."@ {
        (3, Seq::empty())
    } else {
        (4, part)
    }
}

/// The components of a Unix path, in order (see `path_key`).
#[verifier::opaque]
pub open spec fn path_comps(p: Seq<char>) -> Seq<(nat, Seq<char>)> {
    let k = path_key(p);
    (if k.0 { seq![(1nat, Seq::<char>::empty())] } else { Seq::empty() }) + (if k.1 {
        seq![(2nat, Seq::<char>::empty())]
    } else {
        Seq::empty()
    }) + k.2.map_values(|q: Seq<char>| component_of(q))
}

/// One component comes before another: by kind, then names by text.
pub open spec fn comp_lt(a: (nat, Seq<char>), b: (nat, Seq<char>)) -> bool {
    a.0 < b.0 || (a.0 == b.0 && text_lt(a.1, b.1))
}

/// One sequence of components comes before another, lexicographically.
pub open spec fn comps_lt(x: Seq<(nat, Seq<char>)>, y: Seq<(nat, Seq<char>)>) -> bool
    decreases x.len(),
{
    if x.len() == 0 {
        y.len() > 0
    } else if y.len() == 0 {
        false
    } else if x[0] != y[0] {
        comp_lt(x[0], y[0])
    } else {
        comps_lt(x.drop_first(), y.drop_first())
    }
}

proof fn lemma_comps_lt_irreflexive(x: Seq<(nat, Seq<char>)>)
    ensures
        !comps_lt(x, x),
    decreases x.len(),
{
    if x.len() > 0 {
        lemma_comps_lt_irreflexive(x.drop_first());
    }
}

proof fn lemma_comps_lt_transitive(x: Seq<(nat, Seq<char>)>, y: Seq<(nat, Seq<char>)>, z: Seq<(nat, Seq<char>)>)
    requires
        comps_lt(x, y),
        comps_lt(y, z),
    ensures
        comps_lt(x, z),
    decreases x.len(),
{
    if x.len() > 0 && y.len() > 0 && z.len() > 0 {
        if x[0] == y[0] && y[0] == z[0] {
            lemma_comps_lt_transitive(x.drop_first(), y.drop_first(), z.drop_first());
        } else if x[0] != y[0] && y[0] != z[0] {
            if x[0].0 == y[0].0 && y[0].0 == z[0].0 {
                lemma_text_lt_transitive(x[0].1, y[0].1, z[0].1);
            }
            if x[0] == z[0] {
                if x[0].0 == y[0].0 {
                    lemma_text_lt_transitive(x[0].1, y[0].1, x[0].1);
                    lemma_text_lt_irreflexive(x[0].1);
                }
            }
        }
    }
}

proof fn lemma_comps_lt_total(x: Seq<(nat, Seq<char>)>, y: Seq<(nat, Seq<char>)>)
    requires
        x != y,
    ensures
        comps_lt(x, y) || comps_lt(y, x),
    decreases x.len(),
{
    if x.len() == 0 && y.len() == 0 {
        assert(x =~= y);
    } else if x.len() > 0 && y.len() > 0 {
        if x[0] == y[0] {
            if x.drop_first() == y.drop_first() {
                assert(x =~= seq![x[0]] + x.drop_first());
                assert(y =~= seq![y[0]] + y.drop_first());
            }
            lemma_comps_lt_total(x.drop_first(), y.drop_first());
        } else if x[0].0 == y[0].0 {
            lemma_text_lt_total(x[0].1, y[0].1);
        }
    }
}

/// The components of a path, as values (see `path_comps`).
fn comps_exec(s: &str) -> (r: Vec<(u8, Vec<char>)>)
    ensures
        r@.map_values(|c: (u8, Vec<char>)| (c.0 as nat, c.1@)) == path_comps(s@),
{
    proof {
        reveal(path_comps);
    }
    let (rooted, lead, parts) = path_parts(s);
    let ghost pv = parts@.map_values(|l: Vec<char>| l@);
    let mut r: Vec<(u8, Vec<char>)> = Vec::new();
    if rooted {
        r.push((1u8, Vec::new()));
    }
    if lead {
        r.push((2u8, Vec::new()));
    }
    let ghost head = r@.map_values(|c: (u8, Vec<char>)| (c.0 as nat, c.1@));
    assert(head =~= (if rooted { seq![(1nat, Seq::<char>::empty())] } else { Seq::empty() }) + (if lead {
        seq![(2nat, Seq::<char>::empty())]
    } else {
        Seq::empty()
    }));
    let dots: Vec<char> = vec!['.', '.'];
    assert(dots@ =~= ".."@) by {
        reveal_strlit("..");
    }
    let mut i: usize = 0;
    while i < parts.len()
        invariant
            i <= parts.len(),
            pv == parts@.map_values(|l: Vec<char>| l@),
            pv == path_key(s@).2,
            dots@ == ".."@,
            r@.map_values(|c: (u8, Vec<char>)| (c.0 as nat, c.1@)) =~= head + pv.take(i as int).map_values(
                |q: Seq<char>| component_of(q),
            ),
        decreases parts.len() - i,
    {
        let ghost before = r@;
        assert(pv[i as int] == parts@[i as int]@);
        if chars_eq(&parts[i], &dots) {
            r.push((3u8, Vec::new()));
        } else {
            let mut name: Vec<char> = Vec::new();
            let mut k: usize = 0;
            while k < parts[i].len()
                invariant
                    k <= parts@[i as int].len(),
                    i < parts.len(),
                    name@ == parts@[i as int]@.take(k as int),
                decreases parts@[i as int].len() - k,
            {
                name.push(parts[i][k]);
                k += 1;
                assert(name@ =~= parts@[i as int]@.take(k as int));
            }
            assert(parts@[i as int]@.take(k as int) =~= parts@[i as int]@);
            r.push((4u8, name));
        }
        assert(pv.take(i + 1).map_values(|q: Seq<char>| component_of(q)) =~= pv.take(i as int).map_values(
            |q: Seq<char>| component_of(q),
        ).push(component_of(pv[i as int])));
        assert(r@.map_values(|c: (u8, Vec<char>)| (c.0 as nat, c.1@)) =~= before.map_values(
            |c: (u8, Vec<char>)| (c.0 as nat, c.1@),
        ).push(component_of(pv[i as int])));
        i += 1;
    }
    assert(pv.take(parts.len() as int) =~= pv);
    r
}

/// The components as mathematical values.
pub open spec fn key_view(k: Vec<(u8, Vec<char>)>) -> Seq<(nat, Seq<char>)> {
    k@.map_values(|c: (u8, Vec<char>)| (c.0 as nat, c.1@))
}

/// Whether one sequence of components comes before another (see `comps_lt`).
fn comps_less(x: &Vec<(u8, Vec<char>)>, y: &Vec<(u8, Vec<char>)>) -> (r: bool)
    ensures
        r == comps_lt(key_view(*x), key_view(*y)),
{
    let ghost xv = key_view(*x);
    let ghost yv = key_view(*y);
    let mut i: usize = 0;
    assert(xv.skip(0) =~= xv);
    assert(yv.skip(0) =~= yv);
    while i < x.len() && i < y.len() && x[i].0 == y[i].0 && chars_eq(&x[i].1, &y[i].1)
        invariant
            i <= x.len(),
            i <= y.len(),
            xv == key_view(*x),
            yv == key_view(*y),
            comps_lt(xv, yv) == comps_lt(xv.skip(i as int), yv.skip(i as int)),
        decreases x.len() - i,
    {
        assert(xv[i as int] == yv[i as int]);
        assert(xv.skip(i as int).drop_first() =~= xv.skip(i + 1));
        assert(yv.skip(i as int).drop_first() =~= yv.skip(i + 1));
        i += 1;
    }
    if i == x.len() {
        assert(xv.skip(i as int).len() == 0);
        i < y.len()
    } else if i == y.len() {
        false
    } else {
        assert(xv.skip(i as int)[0] == xv[i as int]);
        assert(yv.skip(i as int)[0] == yv[i as int]);
        assert(xv[i as int] != yv[i as int]);
        x[i].0 < y[i].0 || (x[i].0 == y[i].0 && chars_lt(&x[i].1, &y[i].1))
    }
}

// ─── Discovered repositories, each once, in path order ──────────────────────

/// No repository before position `j` has the same path as the one at `j`.
pub open spec fn first_of(found: Seq<RepositoryInfo>, j: int) -> bool {
    forall|k: int| 0 <= k < j ==> path_comps(#[trigger] found[k].path@) != path_comps(found[j].path@)
}

/// `x` has the name and path of the repository found at `j`, which is the first with
/// that path.
pub open spec fn copy_at(found: Seq<RepositoryInfo>, x: RepositoryInfo, j: int) -> bool {
    first_of(found, j) && x.name@ == found[j].name@ && x.path@ == found[j].path@
}

/// `x` is a first occurrence among the first `n` repositories found (see `copy_at`).
pub open spec fn first_copy(found: Seq<RepositoryInfo>, x: RepositoryInfo, n: int) -> bool {
    exists|j: int| 0 <= j < n && #[trigger] copy_at(found, x, j)
}

/// Some repository of `out` has the same path as `p`.
pub open spec fn has_path(out: Seq<RepositoryInfo>, p: Seq<char>) -> bool {
    exists|a: int| 0 <= a < out.len() && path_comps(#[trigger] out[a].path@) == path_comps(p)
}

/// The repositories are in strictly increasing path order.
pub open spec fn path_sorted(out: Seq<RepositoryInfo>) -> bool {
    forall|a: int, b: int|
        0 <= a < b < out.len() ==> comps_lt(path_comps(#[trigger] out[a].path@), path_comps(#[trigger] out[b].path@))
}

/// `out` holds, in path order, the first occurrence of each path among the first `n`
/// repositories of `found`.
#[verifier::opaque]
pub open spec fn ordered_prefix(found: Seq<RepositoryInfo>, out: Seq<RepositoryInfo>, n: int) -> bool {
    &&& path_sorted(out)
    &&& forall|a: int| 0 <= a < out.len() ==> first_copy(found, #[trigger] out[a], n)
    &&& forall|j: int| 0 <= j < n ==> #[trigger] has_path(out, found[j].path@)
}

/// `out` holds each path of `found` once, as its first occurrence, ordered by path as
/// `Path`'s `Ord` orders them.
pub open spec fn ordered_once(found: Seq<RepositoryInfo>, out: Seq<RepositoryInfo>) -> bool {
    ordered_prefix(found, out, found.len() as int)
}

proof fn lemma_dup_step(found: Seq<RepositoryInfo>, o: Seq<RepositoryInfo>, i: int, p: int)
    requires
        ordered_prefix(found, o, i),
        0 <= i < found.len(),
        0 <= p < o.len(),
        path_comps(o[p].path@) == path_comps(found[i].path@),
    ensures
        ordered_prefix(found, o, i + 1),
{
    reveal(ordered_prefix);
    assert forall|a: int| 0 <= a < o.len() implies first_copy(found, #[trigger] o[a], i + 1) by {
        assert(first_copy(found, o[a], i));
        let j = choose|j: int| 0 <= j < i && #[trigger] copy_at(found, o[a], j);
        assert(copy_at(found, o[a], j));
    }
    assert forall|j: int| 0 <= j < i + 1 implies #[trigger] has_path(o, found[j].path@) by {
        if j == i {
            assert(path_comps(o[p].path@) == path_comps(found[j].path@));
        } else {
            assert(has_path(o, found[j].path@));
        }
    }
}

proof fn lemma_insert_step(found: Seq<RepositoryInfo>, o: Seq<RepositoryInfo>, i: int, p: int, x: RepositoryInfo)
    requires
        ordered_prefix(found, o, i),
        0 <= i < found.len(),
        0 <= p <= o.len(),
        x.name@ == found[i].name@,
        x.path@ == found[i].path@,
        forall|a: int| 0 <= a < p ==> comps_lt(path_comps(#[trigger] o[a].path@), path_comps(x.path@)),
        p < o.len() ==> comps_lt(path_comps(x.path@), path_comps(o[p].path@)),
    ensures
        ordered_prefix(found, o.insert(p, x), i + 1),
{
    reveal(ordered_prefix);
    let kv = path_comps(x.path@);
    let n = o.insert(p, x);
    assert forall|kk: int| 0 <= kk < i implies path_comps(#[trigger] found[kk].path@) != path_comps(found[i].path@) by {
        assert(has_path(o, found[kk].path@));
        let a = choose|a: int| 0 <= a < o.len() && path_comps(#[trigger] o[a].path@) == path_comps(found[kk].path@);
        if path_comps(found[kk].path@) == kv {
            lemma_comps_lt_irreflexive(kv);
            if a > p {
                lemma_comps_lt_transitive(kv, path_comps(o[p].path@), path_comps(o[a].path@));
            }
        }
    }
    assert(first_of(found, i));
    assert forall|a: int, b: int| 0 <= a < b < n.len() implies comps_lt(
        path_comps(#[trigger] n[a].path@),
        path_comps(#[trigger] n[b].path@),
    ) by {
        if b < p {
            assert(n[a] == o[a] && n[b] == o[b]);
        } else if b == p {
            assert(n[a] == o[a]);
        } else if a == p {
            assert(n[b] == o[b - 1]);
            if b - 1 > p {
                lemma_comps_lt_transitive(kv, path_comps(o[p].path@), path_comps(o[b - 1].path@));
            }
        } else if a < p {
            assert(n[a] == o[a] && n[b] == o[b - 1]);
            if b - 1 > p {
                lemma_comps_lt_transitive(kv, path_comps(o[p].path@), path_comps(o[b - 1].path@));
            }
            lemma_comps_lt_transitive(path_comps(o[a].path@), kv, path_comps(o[b - 1].path@));
        } else {
            assert(n[a] == o[a - 1] && n[b] == o[b - 1]);
        }
    }
    assert forall|a: int| 0 <= a < n.len() implies first_copy(found, #[trigger] n[a], i + 1) by {
        if a == p {
            assert(copy_at(found, n[a], i));
        } else {
            let b = if a < p { a } else { a - 1 };
            assert(n[a] == o[b]);
            assert(first_copy(found, o[b], i));
            let j = choose|j: int| 0 <= j < i && #[trigger] copy_at(found, o[b], j);
            assert(copy_at(found, n[a], j));
        }
    }
    assert forall|j: int| 0 <= j < i + 1 implies #[trigger] has_path(n, found[j].path@) by {
        if j == i {
            assert(path_comps(n[p].path@) == path_comps(found[j].path@));
        } else {
            assert(has_path(o, found[j].path@));
            let a = choose|a: int| 0 <= a < o.len() && path_comps(#[trigger] o[a].path@) == path_comps(found[j].path@);
            if a < p {
                assert(n[a] == o[a]);
                assert(path_comps(n[a].path@) == path_comps(found[j].path@));
            } else {
                assert(n[a + 1] == o[a]);
                assert(path_comps(n[a + 1].path@) == path_comps(found[j].path@));
            }
        }
    }
}

/// The repositories found, each path once (its first occurrence) and sorted by path
/// (see `ordered_once`); an error when none was found.
pub fn order_repositories(found: &Vec<RepositoryInfo>) -> (r: Result<Vec<RepositoryInfo>, PrpError>)
    ensures
        found.len() == 0 <==> r is Err,
        r matches Err(e) ==> e is NoRepositoriesFound,
        r matches Ok(out) ==> ordered_once(found@, out@),
{
    if found.len() == 0 {
        return Err(PrpError::NoRepositoriesFound);
    }
    let mut out: Vec<RepositoryInfo> = Vec::new();
    let mut ks: Vec<Vec<(u8, Vec<char>)>> = Vec::new();
    let mut i: usize = 0;
    proof {
        reveal(ordered_prefix);
    }
    while i < found.len()
        invariant
            i <= found.len(),
            ks.len() == out.len(),
            forall|a: int| 0 <= a < out.len() ==> #[trigger] key_view(ks@[a]) == path_comps(out@[a].path@),
            ordered_prefix(found@, out@, i as int),
        decreases found.len() - i,
    {
        let k = comps_exec(found[i].path.as_str());
        let ghost kv = path_comps(found@[i as int].path@);
        let mut p: usize = 0;
        while p < out.len() && comps_less(&ks[p], &k)
            invariant
                p <= out.len(),
                ks.len() == out.len(),
                key_view(k) == kv,
                forall|a: int| 0 <= a < out.len() ==> #[trigger] key_view(ks@[a]) == path_comps(out@[a].path@),
                forall|a: int| 0 <= a < p ==> comps_lt(path_comps(#[trigger] out@[a].path@), kv),
            decreases out.len() - p,
        {
            p += 1;
        }
        let ghost old_out = out@;
        let ghost old_ks = ks@;
        if p < out.len() && !comps_less(&k, &ks[p]) {
            proof {
                assert(key_view(ks@[p as int]) == path_comps(out@[p as int].path@));
                if path_comps(out@[p as int].path@) != kv {
                    lemma_comps_lt_total(path_comps(out@[p as int].path@), kv);
                }
                lemma_dup_step(found@, out@, i as int, p as int);
            }
        } else {
            let copy = RepositoryInfo { name: found[i].name.clone(), path: found[i].path.clone() };
            proof {
                if p < out.len() {
                    assert(key_view(ks@[p as int]) == path_comps(out@[p as int].path@));
                }
                lemma_insert_step(found@, out@, i as int, p as int, copy);
            }
            out.insert(p, copy);
            ks.insert(p, k);
            proof {
                assert(out@ == old_out.insert(p as int, copy));
                assert forall|a: int| 0 <= a < out.len() implies #[trigger] key_view(ks@[a]) == path_comps(
                    out@[a].path@,
                ) by {
                    if a < p {
                        assert(ks@[a] == old_ks[a] && out@[a] == old_out[a]);
                    } else if a > p {
                        assert(ks@[a] == old_ks[a - 1] && out@[a] == old_out[a - 1]);
                    }
                }
            }
        }
        i += 1;
    }
    Ok(out)
}


/// No path is listed twice in a result of `order_repositories`.
pub proof fn law_ordered_paths_distinct(found: Seq<RepositoryInfo>, out: Seq<RepositoryInfo>)
    requires
        ordered_once(found, out),
    ensures
        forall|a: int, b: int|
            0 <= a < b < out.len() ==> path_comps(#[trigger] out[a].path@) != path_comps(#[trigger] out[b].path@),
{
    reveal(ordered_prefix);
    assert forall|a: int, b: int| 0 <= a < b < out.len() implies path_comps(#[trigger] out[a].path@) != path_comps(
        #[trigger] out[b].path@,
    ) by {
        lemma_comps_lt_irreflexive(path_comps(out[a].path@));
    }
}

} // verus!
