use vstd::prelude::*;

use crate::text::{
    chars_eq, chars_lt, push_str, lemma_text_lt_total, lemma_text_lt_transitive, text_lt,
    byte_prefix, chars_of, copy_chars, cut_ok, join_chars, join_seq, lines_chars, lines_seq,
    prefix_bytes, split_str_chars, split_str_seq, starts_with_chars, starts_with_seq, string_from,
    string_of, trim_chars, trim_seq, trim_start_matches_chars, trim_start_matches_seq, utf8_len,
    utf8_len_at_least, decimal,
};

verus! {

/// A commit that carries a `Group-ID:` trailer.
#[derive(Debug, Clone)]
pub struct CommitInfo {
    pub repo_name: String,
    pub short_sha: String,
    pub first_line: String,
}

/// The abstract value of a commit entry.
pub struct CommitInfoView {
    pub repo_name: Seq<char>,
    pub short_sha: Seq<char>,
    pub first_line: Seq<char>,
}

impl View for CommitInfo {
    type V = CommitInfoView;

    open spec fn view(&self) -> CommitInfoView {
        CommitInfoView {
            repo_name: self.repo_name@,
            short_sha: self.short_sha@,
            first_line: self.first_line@,
        }
    }
}

/// A commit together with the group it belongs to.
#[derive(Debug, Clone)]
pub struct GroupedCommit {
    pub group_id: String,
    pub commit: CommitInfo,
}

pub open spec fn grouped_view(g: GroupedCommit) -> (Seq<char>, CommitInfoView) {
    (g.group_id@, g.commit@)
}

/// The marker that ends each commit in the log format used here.
pub open spec fn commit_end() -> Seq<char> {
    "---COMMIT_END---"@
}

/// The group id of the first line that is a `Group-ID:` trailer, if any.
pub open spec fn first_group_id(ls: Seq<Seq<char>>) -> Option<Seq<char>>
    decreases ls.len(),
{
    if ls.len() == 0 {
        None
    } else if starts_with_seq(trim_seq(ls[0]), "Group-ID:"@) {
        Some(trim_seq(trim_start_matches_seq(trim_seq(ls[0]), "Group-ID:"@)))
    } else {
        first_group_id(ls.drop_first())
    }
}

/// The first line that is not blank, if any.
pub open spec fn first_nonblank(ls: Seq<Seq<char>>) -> Option<Seq<char>>
    decreases ls.len(),
{
    if ls.len() == 0 {
        None
    } else if trim_seq(ls[0]).len() > 0 {
        Some(ls[0])
    } else {
        first_nonblank(ls.drop_first())
    }
}

/// The commit id line of a block: the first line, trimmed.
pub open spec fn block_sha(block: Seq<char>) -> Seq<char> {
    trim_seq(lines_seq(trim_seq(block))[0])
}

/// The block holds a commit id of at least 8 bytes.
pub open spec fn block_has_sha(block: Seq<char>) -> bool {
    &&& trim_seq(block).len() > 0
    &&& lines_seq(trim_seq(block)).len() > 0
    &&& utf8_len(block_sha(block)) >= 8
}

/// Cutting the commit id of a block to 8 bytes does not split a character.
pub open spec fn block_ok(block: Seq<char>) -> bool {
    block_has_sha(block) ==> cut_ok(block_sha(block), 8)
}

/// The commit message lines of a block, as they are read back after joining.
pub open spec fn block_body_lines(block: Seq<char>) -> Seq<Seq<char>> {
    lines_seq(join_seq(lines_seq(trim_seq(block)).drop_first(), "\n"@))
}

/// The commit that a block of the log describes, with its group, if it has a group.
pub open spec fn block_commit(repo_name: Seq<char>, block: Seq<char>) -> Option<
    (Seq<char>, CommitInfoView),
> {
    if !block_has_sha(block) {
        None
    } else {
        match first_group_id(block_body_lines(block)) {
            None => None,
            Some(gid) => Some(
                (
                    gid,
                    CommitInfoView {
                        repo_name,
                        short_sha: byte_prefix(block_sha(block), 8),
                        first_line: match first_nonblank(block_body_lines(block)) {
                            Some(l) => l,
                            None => "(no message)"@,
                        },
                    },
                ),
            ),
        }
    }
}

/// The grouped commits of a list of blocks, in order.
pub open spec fn blocks_commits(repo_name: Seq<char>, blocks: Seq<Seq<char>>) -> Seq<
    (Seq<char>, CommitInfoView),
>
    decreases blocks.len(),
{
    if blocks.len() == 0 {
        Seq::empty()
    } else {
        let r = blocks_commits(repo_name, blocks.drop_last());
        match block_commit(repo_name, blocks.last()) {
            Some(c) => r.push(c),
            None => r,
        }
    }
}

/// The grouped commits that a log in the format `%H%n%B%n---COMMIT_END---` lists.
pub open spec fn log_commits(repo_name: Seq<char>, raw: Seq<char>) -> Seq<(Seq<char>, CommitInfoView)> {
    blocks_commits(repo_name, split_str_seq(raw, commit_end()))
}

/// Every block of the log can be shortened to its 8-byte commit id without splitting a
/// character (true of any log whose commit ids are hexadecimal).
pub open spec fn log_ok(raw: Seq<char>) -> bool {
    forall|i: int|
        0 <= i < split_str_seq(raw, commit_end()).len() ==> block_ok(
            #[trigger] split_str_seq(raw, commit_end())[i],
        )
}

fn first_group_id_exec(ls: &Vec<Vec<char>>) -> (r: Option<Vec<char>>)
    ensures
        match r {
            Some(g) => first_group_id(ls@.map_values(|l: Vec<char>| l@)) == Some(g@),
            None => first_group_id(ls@.map_values(|l: Vec<char>| l@)) is None,
        },
{
    let ghost v = ls@.map_values(|l: Vec<char>| l@);
    let prefix = chars_of("Group-ID:");
    let mut i: usize = 0;
    assert(v.skip(0) =~= v);
    while i < ls.len()
        invariant
            i <= ls.len(),
            v == ls@.map_values(|l: Vec<char>| l@),
            prefix@ == "Group-ID:"@,
            first_group_id(v) == first_group_id(v.skip(i as int)),
        decreases ls.len() - i,
    {
        assert(v.skip(i as int)[0] == ls@[i as int]@);
        assert(v.skip(i as int).drop_first() =~= v.skip(i + 1));
        let t = trim_chars(&ls[i]);
        if starts_with_chars(&t, &prefix) {
            let rest = trim_start_matches_chars(&t, &prefix);
            return Some(trim_chars(&rest));
        }
        i += 1;
    }
    assert(v.skip(i as int) =~= Seq::<Seq<char>>::empty());
    None
}

fn first_nonblank_exec(ls: &Vec<Vec<char>>) -> (r: Option<Vec<char>>)
    ensures
        match r {
            Some(g) => first_nonblank(ls@.map_values(|l: Vec<char>| l@)) == Some(g@),
            None => first_nonblank(ls@.map_values(|l: Vec<char>| l@)) is None,
        },
{
    let ghost v = ls@.map_values(|l: Vec<char>| l@);
    let mut i: usize = 0;
    assert(v.skip(0) =~= v);
    while i < ls.len()
        invariant
            i <= ls.len(),
            v == ls@.map_values(|l: Vec<char>| l@),
            first_nonblank(v) == first_nonblank(v.skip(i as int)),
        decreases ls.len() - i,
    {
        assert(v.skip(i as int)[0] == ls@[i as int]@);
        assert(v.skip(i as int).drop_first() =~= v.skip(i + 1));
        let t = trim_chars(&ls[i]);
        if t.len() > 0 {
            return Some(copy_chars(&ls[i]));
        }
        i += 1;
    }
    assert(v.skip(i as int) =~= Seq::<Seq<char>>::empty());
    None
}

/// The commit that one block of the log describes, if it has a group.
fn parse_block(repo_name: &str, block: &Vec<char>) -> (r: Option<GroupedCommit>)
    requires
        block_ok(block@),
    ensures
        match r {
            Some(g) => block_commit(repo_name@, block@) == Some(grouped_view(g)),
            None => block_commit(repo_name@, block@) is None,
        },
{
    let b = trim_chars(block);
    if b.len() == 0 {
        return None;
    }
    let ls = lines_chars(&b);
    if ls.len() == 0 {
        return None;
    }
    assert(ls@.map_values(|l: Vec<char>| l@)[0] == ls@[0]@);
    let sha = trim_chars(&ls[0]);
    if !utf8_len_at_least(&sha, 8) {
        return None;
    }
    let mut rest: Vec<Vec<char>> = Vec::new();
    let mut k: usize = 1;
    while k < ls.len()
        invariant
            1 <= k <= ls.len(),
            rest@.map_values(|l: Vec<char>| l@) == ls@.map_values(|l: Vec<char>| l@).subrange(
                1,
                k as int,
            ),
        decreases ls.len() - k,
    {
        let ghost before = rest@;
        let c = copy_chars(&ls[k]);
        rest.push(c);
        assert(rest@.map_values(|l: Vec<char>| l@) =~= before.map_values(|l: Vec<char>| l@).push(
            ls@[k as int]@,
        ));
        assert(rest@.map_values(|l: Vec<char>| l@) =~= ls@.map_values(|l: Vec<char>| l@).subrange(
            1,
            k + 1,
        ));
        k += 1;
    }
    assert(ls@.map_values(|l: Vec<char>| l@).subrange(1, ls.len() as int) =~= ls@.map_values(
        |l: Vec<char>| l@,
    ).drop_first());
    let nl = chars_of("\n");
    let body = join_chars(&rest, &nl);
    let body_lines = lines_chars(&body);
    let gid = match first_group_id_exec(&body_lines) {
        Some(g) => g,
        None => {
            return None;
        },
    };
    let first_line = match first_nonblank_exec(&body_lines) {
        Some(l) => string_of(&l),
        None => string_from("(no message)"),
    };
    let sha_s = string_of(&sha);
    let short_sha = prefix_bytes(sha_s.as_str(), 8);
    Some(
        GroupedCommit {
            group_id: string_of(&gid),
            commit: CommitInfo { repo_name: string_from(repo_name), short_sha, first_line },
        },
    )
}

/// Whether one block of the log can be read (see `block_ok`).
fn block_is_ok(block: &Vec<char>) -> (b: bool)
    ensures
        b == block_ok(block@),
{
    let t = trim_chars(block);
    if t.len() == 0 {
        return true;
    }
    let ls = lines_chars(&t);
    if ls.len() == 0 {
        return true;
    }
    assert(ls@.map_values(|l: Vec<char>| l@)[0] == ls@[0]@);
    let sha = trim_chars(&ls[0]);
    if !utf8_len_at_least(&sha, 8) {
        return true;
    }
    crate::text::cut_is_ok(string_of(&sha).as_str(), 8)
}

/// Whether the output of `git log` can be read: every commit id of 8 bytes or more can be
/// cut to its first 8 bytes (see `log_ok`).
pub fn commit_log_ok(raw: &str) -> (b: bool)
    ensures
        b == log_ok(raw@),
{
    let cs = chars_of(raw);
    let marker = chars_of("---COMMIT_END---");
    proof {
        reveal_strlit("---COMMIT_END---");
    }
    let blocks = split_str_chars(&cs, &marker);
    let ghost bv = blocks@.map_values(|l: Vec<char>| l@);
    let mut i: usize = 0;
    while i < blocks.len()
        invariant
            i <= blocks.len(),
            bv == blocks@.map_values(|l: Vec<char>| l@),
            bv == split_str_seq(raw@, commit_end()),
            forall|j: int| 0 <= j < i ==> block_ok(#[trigger] bv[j]),
        decreases blocks.len() - i,
    {
        assert(bv[i as int] == blocks@[i as int]@);
        if !block_is_ok(&blocks[i]) {
            return false;
        }
        i += 1;
    }
    true
}

/// Reads the output of `git log --format=%H%n%B%n---COMMIT_END---` and lists, in log order,
/// each commit that carries a `Group-ID:` trailer, with its short id and first message line.
pub fn parse_commit_log(repo_name: &str, raw: &str) -> (r: Vec<GroupedCommit>)
    requires
        log_ok(raw@),
    ensures
        r@.map_values(|g: GroupedCommit| grouped_view(g)) == log_commits(repo_name@, raw@),
{
    let cs = chars_of(raw);
    let marker = chars_of("---COMMIT_END---");
    proof {
        reveal_strlit("---COMMIT_END---");
    }
    let blocks = split_str_chars(&cs, &marker);
    let ghost bv = blocks@.map_values(|l: Vec<char>| l@);
    let mut out: Vec<GroupedCommit> = Vec::new();
    let mut i: usize = 0;
    while i < blocks.len()
        invariant
            i <= blocks.len(),
            bv == blocks@.map_values(|l: Vec<char>| l@),
            bv == split_str_seq(raw@, commit_end()),
            log_ok(raw@),
            out@.map_values(|g: GroupedCommit| grouped_view(g)) == blocks_commits(
                repo_name@,
                bv.take(i as int),
            ),
        decreases blocks.len() - i,
    {
        assert(bv.take(i + 1).drop_last() =~= bv.take(i as int));
        assert(bv[i as int] == blocks@[i as int]@);
        assert(block_ok(bv[i as int]));
        let ghost before = out@;
        match parse_block(repo_name, &blocks[i]) {
            Some(g) => {
                out.push(g);
                assert(out@.map_values(|g: GroupedCommit| grouped_view(g)) =~= before.map_values(
                    |g: GroupedCommit| grouped_view(g),
                ).push(grouped_view(g)));
            },
            None => {},
        }
        i += 1;
    }
    assert(bv.take(blocks.len() as int) =~= bv);
    out
}

} // verus!

verus! {

// ─── Commit groups across repositories ───────────────────────────────────────

/// The commits of one group, across repositories.
pub struct CommitGroup {
    pub group_id: String,
    /// In repository order, and in log order within a repository.
    pub commits: Vec<CommitInfo>,
    /// Number of repositories the group spans (consecutive commits of one repository
    /// count once).
    pub repo_count: usize,
}

/// The commits of group `g`, in order.
pub open spec fn members(all: Seq<(Seq<char>, CommitInfoView)>, g: Seq<char>) -> Seq<CommitInfoView>
    decreases all.len(),
{
    if all.len() == 0 {
        Seq::empty()
    } else {
        let r = members(all.drop_last(), g);
        if all.last().0 == g {
            r.push(all.last().1)
        } else {
            r
        }
    }
}

/// Number of runs of equal consecutive repository names.
pub open spec fn repo_runs(cs: Seq<CommitInfoView>) -> nat
    decreases cs.len(),
{
    if cs.len() == 0 {
        0
    } else if cs.len() >= 2 && cs.last().repo_name == cs[cs.len() - 2].repo_name {
        repo_runs(cs.drop_last())
    } else {
        repo_runs(cs.drop_last()) + 1
    }
}

/// The texts are in strictly increasing order.
pub open spec fn strictly_sorted(ids: Seq<Seq<char>>) -> bool {
    forall|i: int, j: int| 0 <= i < j < ids.len() ==> text_lt(#[trigger] ids[i], #[trigger] ids[j])
}

/// Some commit belongs to group `g`.
pub open spec fn has_group(all: Seq<(Seq<char>, CommitInfoView)>, g: Seq<char>) -> bool {
    exists|i: int| 0 <= i < all.len() && #[trigger] all[i].0 == g
}

/// The groups of `all`: their ids in increasing order, each with its commits in order
/// and the number of repositories it spans.
pub open spec fn groups_of(all: Seq<(Seq<char>, CommitInfoView)>, r: Seq<CommitGroup>) -> bool {
    let ids = r.map_values(|c: CommitGroup| c.group_id@);
    &&& strictly_sorted(ids)
    &&& forall|g: Seq<char>| has_group(all, g) <==> ids.contains(g)
    &&& forall|k: int| 0 <= k < r.len() ==> {
        &&& (#[trigger] r[k]).commits@.map_values(|c: CommitInfo| c@) == members(all, r[k].group_id@)
        &&& r[k].repo_count == repo_runs(members(all, r[k].group_id@))
    }
}

/// Inserts `x` into a strictly increasing list unless it is there already.
fn insert_sorted(ids: &mut Vec<String>, x: &String)
    requires
        strictly_sorted(old(ids).deep_view()),
    ensures
        strictly_sorted(final(ids).deep_view()),
        forall|g: Seq<char>| final(ids).deep_view().contains(g) <==> (old(ids).deep_view().contains(g)
            || g == x@),
{
    let xc = chars_of(x.as_str());
    let mut k: usize = 0;
    while k < ids.len()
        invariant
            k <= ids.len(),
            ids.deep_view() == old(ids).deep_view(),
            xc@ == x@,
            strictly_sorted(ids.deep_view()),
            forall|j: int| 0 <= j < k ==> text_lt(#[trigger] ids.deep_view()[j], x@),
        ensures
            k <= ids.len(),
            ids.deep_view() == old(ids).deep_view(),
            strictly_sorted(ids.deep_view()),
            forall|j: int| 0 <= j < k ==> text_lt(#[trigger] ids.deep_view()[j], x@),
            k < ids.len() ==> text_lt(x@, ids.deep_view()[k as int]),
        decreases ids.len() - k,
    {
        let c = chars_of(ids[k].as_str());
        assert(ids.deep_view()[k as int] == ids@[k as int]@);
        if chars_eq(&c, &xc) {
            assert(ids.deep_view().contains(x@) ==> true);
            assert(ids.deep_view()[k as int] == x@);
            return;
        }
        if chars_lt(&xc, &c) {
            break;
        }
        proof {
            lemma_text_lt_total(c@, x@);
        }
        k += 1;
    }
    let ghost before = ids.deep_view();
    assert forall|j: int| k <= j < before.len() implies text_lt(x@, #[trigger] before[j]) by {
        if j > k {
            lemma_text_lt_transitive(x@, before[k as int], before[j]);
        }
    }
    ids.insert(k, x.clone());
    let ghost after = ids.deep_view();
    assert(after =~= before.insert(k as int, x@));
    assert forall|i: int, j: int| 0 <= i < j < after.len() implies text_lt(
        #[trigger] after[i],
        #[trigger] after[j],
    ) by {
        if j < k {
        } else if i < k && j == k {
        } else if i < k && j > k {
            lemma_text_lt_transitive(after[i], x@, after[j]);
        } else if i == k {
        } else {
        }
    }
    assert forall|g: Seq<char>| after.contains(g) <==> (before.contains(g) || g == x@) by {
        if after.contains(g) {
            let i = choose|i: int| 0 <= i < after.len() && after[i] == g;
            if i < k {
                assert(before[i] == g);
            } else if i > k {
                assert(before[i - 1] == g);
            }
        }
        if before.contains(g) {
            let i = choose|i: int| 0 <= i < before.len() && before[i] == g;
            if i < k {
                assert(after[i] == g);
            } else {
                assert(after[i + 1] == g);
            }
        }
        if g == x@ {
            assert(after[k as int] == g);
        }
    }
}


/// The commits of group `g`, and the number of repositories they span.
fn group_members(all: &Vec<GroupedCommit>, g: &String) -> (r: (Vec<CommitInfo>, usize))
    ensures
        r.0@.map_values(|c: CommitInfo| c@) == members(
            all@.map_values(|x: GroupedCommit| grouped_view(x)),
            g@,
        ),
        r.1 == repo_runs(members(all@.map_values(|x: GroupedCommit| grouped_view(x)), g@)),
{
    let ghost allv = all@.map_values(|x: GroupedCommit| grouped_view(x));
    let mut out: Vec<CommitInfo> = Vec::new();
    let mut runs: usize = 0;
    let mut i: usize = 0;
    while i < all.len()
        invariant
            i <= all.len(),
            allv == all@.map_values(|x: GroupedCommit| grouped_view(x)),
            out@.map_values(|c: CommitInfo| c@) == members(allv.take(i as int), g@),
            runs == repo_runs(members(allv.take(i as int), g@)),
            runs <= out.len(),
            out.len() <= i,
        decreases all.len() - i,
    {
        assert(allv.take(i + 1).drop_last() =~= allv.take(i as int));
        assert(allv[i as int] == grouped_view(all@[i as int]));
        if all[i].group_id == *g {
            let c = all[i].commit.clone_info();
            let ghost before = out@.map_values(|c: CommitInfo| c@);
            let same = out.len() > 0 && out[out.len() - 1].repo_name == c.repo_name;
            if !same {
                runs = runs + 1;
            }
            out.push(c);
            assert(out@.map_values(|c: CommitInfo| c@) =~= before.push(c@));
            proof {
                let now = out@.map_values(|c: CommitInfo| c@);
                assert(now.drop_last() =~= before);
                if before.len() > 0 {
                    assert(now[now.len() - 2] == before.last());
                    assert(before.last() == out@[out.len() - 2]@);
                }
            }
        }
        i += 1;
    }
    assert(allv.take(all.len() as int) =~= allv);
    (out, runs)
}

impl CommitInfo {
    /// A copy with the same abstract value.
    pub fn clone_info(&self) -> (r: CommitInfo)
        ensures
            r@ == self@,
    {
        CommitInfo {
            repo_name: self.repo_name.clone(),
            short_sha: self.short_sha.clone(),
            first_line: self.first_line.clone(),
        }
    }
}

/// Gathers the commits of all repositories (given in repository order, each in log
/// order) into groups ordered by group id (see `groups_of`).
pub fn collect_groups(all: &Vec<GroupedCommit>) -> (r: Vec<CommitGroup>)
    ensures
        groups_of(all@.map_values(|x: GroupedCommit| grouped_view(x)), r@),
{
    let ghost allv = all@.map_values(|x: GroupedCommit| grouped_view(x));
    let mut ids: Vec<String> = Vec::new();
    let mut i: usize = 0;
    assert(ids.deep_view() =~= Seq::<Seq<char>>::empty());
    while i < all.len()
        invariant
            i <= all.len(),
            allv == all@.map_values(|x: GroupedCommit| grouped_view(x)),
            strictly_sorted(ids.deep_view()),
            forall|g: Seq<char>| ids.deep_view().contains(g) <==> has_group(allv.take(i as int), g),
        decreases all.len() - i,
    {
        let ghost before = ids.deep_view();
        insert_sorted(&mut ids, &all[i].group_id);
        assert(allv[i as int] == grouped_view(all@[i as int]));
        assert forall|g: Seq<char>| ids.deep_view().contains(g) <==> has_group(
            allv.take(i + 1),
            g,
        ) by {
            let t = allv.take(i + 1);
            if has_group(t, g) {
                let j = choose|j: int| 0 <= j < t.len() && t[j].0 == g;
                if j < i {
                    assert(allv.take(i as int)[j].0 == g);
                }
            }
            if has_group(allv.take(i as int), g) {
                let j = choose|j: int| 0 <= j < i && allv.take(i as int)[j].0 == g;
                assert(t[j].0 == g);
            }
            if g == all@[i as int].group_id@ {
                assert(t[i as int].0 == g);
            }
        }
        i += 1;
    }
    assert(allv.take(all.len() as int) =~= allv);
    let mut r: Vec<CommitGroup> = Vec::new();
    let mut k: usize = 0;
    while k < ids.len()
        invariant
            k <= ids.len(),
            allv == all@.map_values(|x: GroupedCommit| grouped_view(x)),
            r.len() == k,
            forall|j: int| 0 <= j < k ==> (#[trigger] r@[j]).group_id@ == ids.deep_view()[j],
            forall|j: int| 0 <= j < k ==> {
                &&& (#[trigger] r@[j]).commits@.map_values(|c: CommitInfo| c@) == members(
                    allv,
                    r@[j].group_id@,
                )
                &&& r@[j].repo_count == repo_runs(members(allv, r@[j].group_id@))
            },
        decreases ids.len() - k,
    {
        assert(ids.deep_view()[k as int] == ids@[k as int]@);
        let (commits, repo_count) = group_members(all, &ids[k]);
        r.push(CommitGroup { group_id: ids[k].clone(), commits, repo_count });
        k += 1;
    }
    assert(r@.map_values(|c: CommitGroup| c.group_id@) =~= ids.deep_view());
    r
}


// ─── The membership menu of `prp list` ───────────────────────────────────────

/// What a choice in the membership menu asks for.
#[derive(Debug, Clone, Copy, PartialEq, Eq, Structural)]
pub enum MenuChoice {
    ShowGroups,
    /// Exclude the active repository at this position.
    Exclude(usize),
    /// Re-add the excluded repository at this position.
    Readd(usize),
    Quit,
}

/// The menu entry that excludes a repository.
pub open spec fn exclude_entry(n: Seq<char>) -> Seq<char> {
    "🚫 Exclude '"@ + n + "' from sync"@
}

/// The menu entry that re-adds a repository.
pub open spec fn readd_entry(n: Seq<char>) -> Seq<char> {
    "✅ Re-add '"@ + n + "' to sync"@
}

/// The menu: show groups, then one exclude entry per active repository, one re-add
/// entry per excluded one, then quit.
pub open spec fn menu_text(active: Seq<Seq<char>>, excluded: Seq<Seq<char>>) -> Seq<Seq<char>> {
    seq!["📋 Show commit groups"@] + active.map_values(|n: Seq<char>| exclude_entry(n))
        + excluded.map_values(|n: Seq<char>| readd_entry(n)) + seq!["← Quit"@]
}

/// The menu entries `f` gives for `names`, one per name.
fn entries(names: &Vec<String>, exclude: bool) -> (r: Vec<String>)
    ensures
        exclude ==> r.deep_view() == names.deep_view().map_values(|n: Seq<char>| exclude_entry(n)),
        !exclude ==> r.deep_view() == names.deep_view().map_values(|n: Seq<char>| readd_entry(n)),
{
    let mut r: Vec<String> = Vec::new();
    let mut i: usize = 0;
    while i < names.len()
        invariant
            i <= names.len(),
            r.len() == i,
            forall|j: int| 0 <= j < i ==> #[trigger] r@[j]@ == (if exclude {
                exclude_entry(names@[j]@)
            } else {
                readd_entry(names@[j]@)
            }),
        decreases names.len() - i,
    {
        let e = if exclude {
            let mut e = string_from("🚫 Exclude '");
            push_str(&mut e, names[i].as_str());
            push_str(&mut e, "' from sync");
            e
        } else {
            let mut e = string_from("✅ Re-add '");
            push_str(&mut e, names[i].as_str());
            push_str(&mut e, "' to sync");
            e
        };
        r.push(e);
        i += 1;
    }
    if exclude {
        assert(r.deep_view() =~= names.deep_view().map_values(|n: Seq<char>| exclude_entry(n)));
    } else {
        assert(r.deep_view() =~= names.deep_view().map_values(|n: Seq<char>| readd_entry(n)));
    }
    r
}

/// Appends copies of `more` to `v`.
fn extend_with(v: &mut Vec<String>, more: &Vec<String>)
    ensures
        final(v).deep_view() == old(v).deep_view() + more.deep_view(),
{
    let mut i: usize = 0;
    while i < more.len()
        invariant
            i <= more.len(),
            v.deep_view() == old(v).deep_view() + more.deep_view().take(i as int),
        decreases more.len() - i,
    {
        let ghost before = v.deep_view();
        v.push(more[i].clone());
        assert(v.deep_view() =~= before.push(more[i as int]@));
        assert(old(v).deep_view() + more.deep_view().take(i + 1) =~= (old(v).deep_view()
            + more.deep_view().take(i as int)).push(more[i as int]@));
        i += 1;
    }
    assert(more.deep_view().take(more.len() as int) =~= more.deep_view());
}

/// The membership menu for the given active and excluded repository names.
pub fn membership_menu(active: &Vec<String>, excluded: &Vec<String>) -> (r: Vec<String>)
    ensures
        r.deep_view() == menu_text(active.deep_view(), excluded.deep_view()),
{
    let mut r: Vec<String> = Vec::new();
    let first = string_from("📋 Show commit groups");
    let ghost f = first@;
    r.push(first);
    assert(r.deep_view() =~= seq![f]);
    extend_with(&mut r, &entries(active, true));
    extend_with(&mut r, &entries(excluded, false));
    let last = string_from("← Quit");
    let ghost before = r.deep_view();
    let ghost l = last@;
    r.push(last);
    assert(r.deep_view() =~= before + seq![l]);
    r
}

/// What choosing entry `choice` of the menu asks for; `None` for an entry outside it.
pub open spec fn menu_meaning(choice: nat, n_active: nat, n_excluded: nat) -> Option<MenuChoice> {
    if choice == 0 {
        Some(MenuChoice::ShowGroups)
    } else if choice == n_active + n_excluded + 1 {
        Some(MenuChoice::Quit)
    } else if choice <= n_active {
        Some(MenuChoice::Exclude((choice - 1) as usize))
    } else if choice < n_active + n_excluded + 1 {
        Some(MenuChoice::Readd((choice - n_active - 1) as usize))
    } else {
        None
    }
}

/// What choosing entry `choice` of the menu asks for (see `menu_meaning`).
pub fn menu_choice(choice: usize, n_active: usize, n_excluded: usize) -> (r: Option<MenuChoice>)
    requires
        n_active + n_excluded + 1 <= usize::MAX,
    ensures
        r == menu_meaning(choice as nat, n_active as nat, n_excluded as nat),
{
    let back = n_active + n_excluded + 1;
    if choice == 0 {
        Some(MenuChoice::ShowGroups)
    } else if choice == back {
        Some(MenuChoice::Quit)
    } else if choice <= n_active {
        Some(MenuChoice::Exclude(choice - 1))
    } else if choice < back {
        Some(MenuChoice::Readd(choice - n_active - 1))
    } else {
        None
    }
}


// ─── Listings ────────────────────────────────────────────────────────────────

/// `n` copies of `c`.
pub open spec fn repeated(c: char, n: nat) -> Seq<char> {
    Seq::new(n, |i: int| c)
}

fn repeated_text(c: char, n: usize) -> (r: String)
    ensures
        r@ == repeated(c, n as nat),
{
    let mut r = String::new();
    let mut i: usize = 0;
    while i < n
        invariant
            i <= n,
            r@ == repeated(c, i as nat),
        decreases n - i,
    {
        crate::text::push_char(&mut r, c);
        assert(r@ =~= repeated(c, (i + 1) as nat));
        i += 1;
    }
    r
}

/// One commit of a group: its repository, short id and first line.
pub open spec fn group_commit_line(c: CommitInfoView) -> Seq<char> {
    "   ["@ + c.repo_name + "]  "@ + c.short_sha + "  "@ + c.first_line + "\n"@
}

/// The lines of the commits of a group.
pub open spec fn group_commit_lines(cs: Seq<CommitInfoView>) -> Seq<char>
    decreases cs.len(),
{
    if cs.len() == 0 {
        Seq::empty()
    } else {
        group_commit_lines(cs.drop_last()) + group_commit_line(cs.last())
    }
}

/// The block of one group: its id, how many repositories it spans, and its commits.
pub open spec fn group_block(g: CommitGroup) -> Seq<char> {
    repeated('=', 80) + "\n📦 Group-ID: "@ + g.group_id@ + "\n   Spans "@ + decimal(
        g.repo_count as nat,
    ) + " repo(s)\n"@ + repeated('-', 80) + "\n"@ + group_commit_lines(
        g.commits@.map_values(|c: CommitInfo| c@),
    ) + "\n"@
}

/// The blocks of the groups, one after the other.
pub open spec fn group_blocks(gs: Seq<CommitGroup>) -> Seq<char>
    decreases gs.len(),
{
    if gs.len() == 0 {
        Seq::empty()
    } else {
        group_blocks(gs.drop_last()) + group_block(gs.last())
    }
}

/// The report of the commit groups found in `n_repos` active repositories: each group
/// with its commits and the number of groups, or a note that there are none.
pub open spec fn groups_report(n_repos: nat, gs: Seq<CommitGroup>) -> Seq<char> {
    "\n🔍 Scanning "@ + decimal(n_repos) + " active repositories for linked commit groups...\n\n"@ + (
    if gs.len() == 0 {
        "ℹ️  No commits with Group-ID trailers found.\n"@
    } else {
        group_blocks(gs) + repeated('=', 80) + "\nTotal groups found: "@ + decimal(gs.len()) + "\n"@
    })
}

fn commit_lines_text(cs: &Vec<CommitInfo>) -> (r: String)
    ensures
        r@ == group_commit_lines(cs@.map_values(|c: CommitInfo| c@)),
{
    let ghost cv = cs@.map_values(|c: CommitInfo| c@);
    let mut r = String::new();
    let mut i: usize = 0;
    assert(cv.take(0) =~= Seq::<CommitInfoView>::empty());
    while i < cs.len()
        invariant
            i <= cs.len(),
            cv == cs@.map_values(|c: CommitInfo| c@),
            r@ == group_commit_lines(cv.take(i as int)),
        decreases cs.len() - i,
    {
        assert(cv.take(i + 1).drop_last() =~= cv.take(i as int));
        assert(cv[i as int] == cs@[i as int]@);
        let c = &cs[i];
        push_str(&mut r, "   [");
        push_str(&mut r, c.repo_name.as_str());
        push_str(&mut r, "]  ");
        push_str(&mut r, c.short_sha.as_str());
        push_str(&mut r, "  ");
        push_str(&mut r, c.first_line.as_str());
        push_str(&mut r, "\n");
        assert(r@ =~= group_commit_lines(cv.take(i + 1)));
        i += 1;
    }
    assert(cv.take(cs.len() as int) =~= cv);
    r
}

/// The report of the commit groups (see `groups_report`).
pub fn groups_report_text(n_repos: usize, gs: &Vec<CommitGroup>) -> (r: String)
    ensures
        r@ == groups_report(n_repos as nat, gs@),
{
    let mut r = string_from("\n🔍 Scanning ");
    push_str(&mut r, crate::text::usize_text(n_repos).as_str());
    push_str(&mut r, " active repositories for linked commit groups...\n\n");
    if gs.len() == 0 {
        push_str(&mut r, "ℹ️  No commits with Group-ID trailers found.\n");
        return r;
    }
    let ghost head = r@;
    let mut i: usize = 0;
    assert(gs@.take(0) =~= Seq::<CommitGroup>::empty());
    assert(r@ =~= head + group_blocks(gs@.take(0)));
    while i < gs.len()
        invariant
            i <= gs.len(),
            r@ == head + group_blocks(gs@.take(i as int)),
        decreases gs.len() - i,
    {
        assert(gs@.take(i + 1).drop_last() =~= gs@.take(i as int));
        let g = &gs[i];
        let mut b = repeated_text('=', 80);
        push_str(&mut b, "\n📦 Group-ID: ");
        push_str(&mut b, g.group_id.as_str());
        push_str(&mut b, "\n   Spans ");
        push_str(&mut b, crate::text::usize_text(g.repo_count).as_str());
        push_str(&mut b, " repo(s)\n");
        push_str(&mut b, repeated_text('-', 80).as_str());
        push_str(&mut b, "\n");
        push_str(&mut b, commit_lines_text(&g.commits).as_str());
        push_str(&mut b, "\n");
        assert(b@ =~= group_block(gs@[i as int]));
        push_str(&mut r, b.as_str());
        assert(r@ =~= head + group_blocks(gs@.take(i + 1)));
        i += 1;
    }
    assert(gs@.take(gs.len() as int) =~= gs@);
    push_str(&mut r, repeated_text('=', 80).as_str());
    push_str(&mut r, "\nTotal groups found: ");
    push_str(&mut r, crate::text::usize_text(gs.len()).as_str());
    push_str(&mut r, "\n");
    assert(r@ =~= groups_report(n_repos as nat, gs@));
    r
}

/// A repository in a membership list: its name and its path in brackets.
pub open spec fn member_line(r: (Seq<char>, Seq<char>)) -> Seq<char> {
    "   • "@ + r.0 + " ("@ + r.1 + ")\n"@
}

/// The lines of the repositories of a membership list.
pub open spec fn member_lines(rs: Seq<(Seq<char>, Seq<char>)>) -> Seq<char>
    decreases rs.len(),
{
    if rs.len() == 0 {
        Seq::empty()
    } else {
        member_lines(rs.drop_last()) + member_line(rs.last())
    }
}

/// The sync membership screen: the active repositories, then the excluded ones if any,
/// each as name and path.
pub open spec fn membership_text(
    active: Seq<(Seq<char>, Seq<char>)>,
    excluded: Seq<(Seq<char>, Seq<char>)>,
) -> Seq<char> {
    "\n"@ + repeated('=', 80) + "\n🔗 GitLink PRP Hub — Repository Sync Membership\n"@ + repeated('=', 80)
        + "\n\n✅ Active repos ("@ + decimal(active.len()) + "):\n"@ + member_lines(active) + (if excluded.len() > 0 {
        "\n🚫 Excluded repos ("@ + decimal(excluded.len()) + "):\n"@ + member_lines(excluded)
    } else {
        Seq::empty()
    })
}

fn member_lines_text(rs: &Vec<(String, String)>) -> (r: String)
    ensures
        r@ == member_lines(rs@.map_values(|x: (String, String)| (x.0@, x.1@))),
{
    let ghost rv = rs@.map_values(|x: (String, String)| (x.0@, x.1@));
    let mut r = String::new();
    let mut i: usize = 0;
    assert(rv.take(0) =~= Seq::<(Seq<char>, Seq<char>)>::empty());
    while i < rs.len()
        invariant
            i <= rs.len(),
            rv == rs@.map_values(|x: (String, String)| (x.0@, x.1@)),
            r@ == member_lines(rv.take(i as int)),
        decreases rs.len() - i,
    {
        assert(rv.take(i + 1).drop_last() =~= rv.take(i as int));
        assert(rv[i as int] == (rs@[i as int].0@, rs@[i as int].1@));
        push_str(&mut r, "   • ");
        push_str(&mut r, rs[i].0.as_str());
        push_str(&mut r, " (");
        push_str(&mut r, rs[i].1.as_str());
        push_str(&mut r, ")\n");
        assert(r@ =~= member_lines(rv.take(i + 1)));
        i += 1;
    }
    assert(rv.take(rs.len() as int) =~= rv);
    r
}

/// The sync membership screen (see `membership_text`); each repository is given as its
/// name and path.
pub fn membership_screen(active: &Vec<(String, String)>, excluded: &Vec<(String, String)>) -> (r: String)
    ensures
        r@ == membership_text(
            active@.map_values(|x: (String, String)| (x.0@, x.1@)),
            excluded@.map_values(|x: (String, String)| (x.0@, x.1@)),
        ),
{
    let mut r = string_from("\n");
    push_str(&mut r, repeated_text('=', 80).as_str());
    push_str(&mut r, "\n🔗 GitLink PRP Hub — Repository Sync Membership\n");
    push_str(&mut r, repeated_text('=', 80).as_str());
    push_str(&mut r, "\n\n✅ Active repos (");
    push_str(&mut r, crate::text::usize_text(active.len()).as_str());
    push_str(&mut r, "):\n");
    push_str(&mut r, member_lines_text(active).as_str());
    if excluded.len() > 0 {
        push_str(&mut r, "\n🚫 Excluded repos (");
        push_str(&mut r, crate::text::usize_text(excluded.len()).as_str());
        push_str(&mut r, "):\n");
        push_str(&mut r, member_lines_text(excluded).as_str());
    }
    assert(r@ =~= membership_text(
        active@.map_values(|x: (String, String)| (x.0@, x.1@)),
        excluded@.map_values(|x: (String, String)| (x.0@, x.1@)),
    ));
    r
}

} // verus!
