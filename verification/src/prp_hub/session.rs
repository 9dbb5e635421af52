use vstd::prelude::*;

use crate::prp_hub::config::{is_excluded, lists_path, PrpConfig};
use crate::prp_hub::errors::PrpError;
use crate::prp_hub::status::StatusFlags;
use crate::text::{byte_prefix, cut_ok, prefix_bytes, push_str, str_eq, string_from};

verus! {

/// A repository found on disk.
#[derive(Debug, Clone)]
pub struct RepositoryInfo {
    pub name: String,
    /// Its canonical path.
    pub path: String,
}

/// The paths of the repositories found; none when the search failed.
pub fn discover_repo_names(found: Result<Vec<RepositoryInfo>, PrpError>) -> (r: Vec<String>)
    ensures
        match found {
            Ok(rs) => r.deep_view() == rs@.map_values(|x: RepositoryInfo| x.path@),
            Err(_) => r.len() == 0,
        },
{
    match found {
        Ok(rs) => {
            let mut r: Vec<String> = Vec::new();
            let mut i: usize = 0;
            while i < rs.len()
                invariant
                    i <= rs.len(),
                    r.len() == i,
                    forall|j: int| 0 <= j < i ==> #[trigger] r@[j]@ == rs@[j].path@,
                decreases rs.len() - i,
            {
                r.push(rs[i].path.clone());
                i += 1;
            }
            assert(r.deep_view() =~= rs@.map_values(|x: RepositoryInfo| x.path@));
            r
        },
        Err(_) => Vec::new(),
    }
}

/// The commit message with the session's group trailer.
pub open spec fn group_message(message: Seq<char>, group_id: Seq<char>) -> Seq<char> {
    message + "\n\nGroup-ID: "@ + group_id
}

/// The commit message with the session's group trailer (see `group_message`).
pub fn message_with_group(message: &str, group_id: &str) -> (r: String)
    ensures
        r@ == group_message(message@, group_id@),
{
    let mut r = string_from(message);
    push_str(&mut r, "\n\nGroup-ID: ");
    push_str(&mut r, group_id);
    r
}

/// A path with these flags has something to commit: it is changed and not ignored.
pub open spec fn is_change(f: StatusFlags) -> bool {
    !f.current && !f.ignored
}

/// Whether any path has something to commit.
pub fn has_changes(flags: &Vec<StatusFlags>) -> (b: bool)
    ensures
        b == exists|i: int| 0 <= i < flags.len() && is_change(#[trigger] flags@[i]),
{
    let mut i: usize = 0;
    while i < flags.len()
        invariant
            i <= flags.len(),
            forall|j: int| 0 <= j < i ==> !is_change(#[trigger] flags@[j]),
        decreases flags.len() - i,
    {
        if !flags[i].current && !flags[i].ignored {
            return true;
        }
        i += 1;
    }
    false
}

/// A fresh session group id: "gitlink-" and a random UUID.
pub fn new_group_id() -> (r: String)
    ensures
        r@.len() == 44,
        r@.subrange(0, 8) == "gitlink-"@,
{
    let mut r = string_from("gitlink-");
    let ghost p = r@;
    proof {
        reveal_strlit("gitlink-");
    }
    push_str(&mut r, crate::ids::random_uuid().as_str());
    assert(r@.subrange(0, 8) =~= p);
    r
}

/// Why a rollback is refused when HEAD is no longer the session's commit.
pub open spec fn head_moved_reason(head: Seq<char>, committed: Seq<char>) -> Seq<char> {
    "HEAD ("@ + byte_prefix(head, 8) + ") does not match session commit ("@ + byte_prefix(committed, 8)
        + "); skipping rollback for safety"@
}

/// A rollback may go ahead only while HEAD is still the commit the session made;
/// otherwise the reason it is refused (see `head_moved_reason`). Commit ids are hex.
pub fn rollback_check(head: &str, committed: &str) -> (r: Option<String>)
    requires
        cut_ok(head@, 8),
        cut_ok(committed@, 8),
    ensures
        head@ == committed@ <==> r is None,
        r is Some ==> r.unwrap()@ == head_moved_reason(head@, committed@),
{
    if str_eq(head, committed) {
        None
    } else {
        let mut m = string_from("HEAD (");
        push_str(&mut m, prefix_bytes(head, 8).as_str());
        push_str(&mut m, ") does not match session commit (");
        push_str(&mut m, prefix_bytes(committed, 8).as_str());
        push_str(&mut m, "); skipping rollback for safety");
        Some(m)
    }
}

/// The repositories that the session committed in, in discovery order.
pub open spec fn committed_repos(repos: Seq<RepositoryInfo>, committed: Seq<Seq<char>>) -> Seq<RepositoryInfo>
    decreases repos.len(),
{
    if repos.len() == 0 {
        Seq::empty()
    } else {
        let r = committed_repos(repos.drop_last(), committed);
        if committed.contains(repos.last().path@) {
            r.push(repos.last())
        } else {
            r
        }
    }
}

/// The repositories whose path is among the committed paths, in order (see
/// `committed_repos`); these are the ones to push.
pub fn repos_to_push(repos: &Vec<RepositoryInfo>, committed: &Vec<String>) -> (r: Vec<RepositoryInfo>)
    ensures
        r@.map_values(|x: RepositoryInfo| (x.name@, x.path@)) == committed_repos(repos@, committed.deep_view()).map_values(
            |x: RepositoryInfo| (x.name@, x.path@),
        ),
{
    let mut r: Vec<RepositoryInfo> = Vec::new();
    let mut i: usize = 0;
    while i < repos.len()
        invariant
            i <= repos.len(),
            r@.map_values(|x: RepositoryInfo| (x.name@, x.path@)) == committed_repos(
                repos@.take(i as int),
                committed.deep_view(),
            ).map_values(|x: RepositoryInfo| (x.name@, x.path@)),
        decreases repos.len() - i,
    {
        assert(repos@.take(i + 1).drop_last() =~= repos@.take(i as int));
        let mut found = false;
        let mut j: usize = 0;
        while j < committed.len()
            invariant
                j <= committed.len(),
                i < repos.len(),
                found == exists|k: int| 0 <= k < j && committed.deep_view()[k] == repos@[i as int].path@,
            decreases committed.len() - j,
        {
            if str_eq(committed[j].as_str(), repos[i].path.as_str()) {
                assert(committed.deep_view()[j as int] == repos@[i as int].path@);
                found = true;
            }
            j += 1;
        }
        let ghost before = committed_repos(repos@.take(i as int), committed.deep_view());
        if found {
            let ghost rv = r@.map_values(|x: RepositoryInfo| (x.name@, x.path@));
            let copy = RepositoryInfo { name: repos[i].name.clone(), path: repos[i].path.clone() };
            r.push(copy);
            assert(committed.deep_view().contains(repos@[i as int].path@));
            assert(r@.map_values(|x: RepositoryInfo| (x.name@, x.path@)) =~= rv.push(
                (repos@[i as int].name@, repos@[i as int].path@),
            ));
            assert(committed_repos(repos@.take(i + 1), committed.deep_view()) == before.push(repos@[i as int]));
            assert(committed_repos(repos@.take(i + 1), committed.deep_view()).map_values(
                |x: RepositoryInfo| (x.name@, x.path@),
            ) =~= before.map_values(|x: RepositoryInfo| (x.name@, x.path@)).push(
                (repos@[i as int].name@, repos@[i as int].path@),
            ));
        } else {
            assert(!committed.deep_view().contains(repos@[i as int].path@));
        }
        i += 1;
    }
    assert(repos@.take(repos.len() as int) =~= repos@);
    r
}


/// The names and paths of the repositories whose exclusion is `excluded` (listed in the
/// exclusion list when `excluded`, not listed otherwise), in order.
pub open spec fn repos_where(rs: Seq<RepositoryInfo>, excl: Seq<Seq<char>>, excluded: bool) -> Seq<
    (Seq<char>, Seq<char>),
>
    decreases rs.len(),
{
    if rs.len() == 0 {
        Seq::empty()
    } else {
        let r = repos_where(rs.drop_last(), excl, excluded);
        if lists_path(excl, rs.last().path@) == excluded {
            r.push((rs.last().name@, rs.last().path@))
        } else {
            r
        }
    }
}

/// The repositories that take part in sessions and those left out, each in order
/// (see `repos_where`).
pub fn split_by_exclusion(repos: &Vec<RepositoryInfo>, config: &PrpConfig) -> (r: (
    Vec<RepositoryInfo>,
    Vec<RepositoryInfo>,
))
    ensures
        r.0@.map_values(|x: RepositoryInfo| (x.name@, x.path@)) == repos_where(repos@, config.excluded(), false),
        r.1@.map_values(|x: RepositoryInfo| (x.name@, x.path@)) == repos_where(repos@, config.excluded(), true),
{
    let mut active: Vec<RepositoryInfo> = Vec::new();
    let mut left_out: Vec<RepositoryInfo> = Vec::new();
    let mut i: usize = 0;
    assert(repos@.take(0) =~= Seq::<RepositoryInfo>::empty());
    while i < repos.len()
        invariant
            i <= repos.len(),
            active@.map_values(|x: RepositoryInfo| (x.name@, x.path@)) == repos_where(
                repos@.take(i as int),
                config.excluded(),
                false,
            ),
            left_out@.map_values(|x: RepositoryInfo| (x.name@, x.path@)) == repos_where(
                repos@.take(i as int),
                config.excluded(),
                true,
            ),
        decreases repos.len() - i,
    {
        assert(repos@.take(i + 1).drop_last() =~= repos@.take(i as int));
        assert(repos@.take(i + 1).last() == repos@[i as int]);
        let copy = RepositoryInfo { name: repos[i].name.clone(), path: repos[i].path.clone() };
        let ghost pair = (repos@[i as int].name@, repos@[i as int].path@);
        if is_excluded(config, repos[i].path.as_str()) {
            let ghost before = left_out@;
            left_out.push(copy);
            assert(left_out@.map_values(|x: RepositoryInfo| (x.name@, x.path@)) =~= before.map_values(
                |x: RepositoryInfo| (x.name@, x.path@),
            ).push(pair));
        } else {
            let ghost before = active@;
            active.push(copy);
            assert(active@.map_values(|x: RepositoryInfo| (x.name@, x.path@)) =~= before.map_values(
                |x: RepositoryInfo| (x.name@, x.path@),
            ).push(pair));
        }
        i += 1;
    }
    assert(repos@.take(repos.len() as int) =~= repos@);
    (active, left_out)
}

/// An entry of `git status` is something to commit exactly when it is neither unchanged
/// nor ignored: a new untracked file, a staged or unstaged change and a deletion all
/// count; and a repository has changes exactly when one of its entries is such.
pub proof fn law_change_is_any_unignored_entry(flags: Seq<StatusFlags>, f: StatusFlags)
    ensures
        !f.current && !f.ignored ==> is_change(f),
        f.current || f.ignored ==> !is_change(f),
        f.wt_new && !f.current && !f.ignored ==> is_change(f),
        (exists|i: int| 0 <= i < flags.len() && is_change(#[trigger] flags[i])) <==> (exists|i: int|
            0 <= i < flags.len() && !(#[trigger] flags[i]).current && !flags[i].ignored),
{
}

} // verus!
