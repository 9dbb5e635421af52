use vstd::prelude::*;

use crate::prp_hub::config::remove_all;
use crate::text::str_eq;

verus! {

/// The changes in a repository's working tree, by kind.
#[derive(Debug, Default)]
pub struct RepoStatus {
    pub modified: Vec<String>,
    pub added: Vec<String>,
    pub deleted: Vec<String>,
    pub untracked: Vec<String>,
}

/// The abstract value of a repository status.
pub struct RepoStatusView {
    pub modified: Seq<Seq<char>>,
    pub added: Seq<Seq<char>>,
    pub deleted: Seq<Seq<char>>,
    pub untracked: Seq<Seq<char>>,
}

impl View for RepoStatus {
    type V = RepoStatusView;

    open spec fn view(&self) -> RepoStatusView {
        RepoStatusView {
            modified: self.modified.deep_view(),
            added: self.added.deep_view(),
            deleted: self.deleted.deep_view(),
            untracked: self.untracked.deep_view(),
        }
    }
}

/// The status flags git reports for one path.
#[derive(Debug, Clone, Copy)]
pub struct StatusFlags {
    /// No flag is set: the file is unchanged.
    pub current: bool,
    pub index_new: bool,
    pub index_modified: bool,
    pub index_deleted: bool,
    pub wt_new: bool,
    pub wt_modified: bool,
    pub wt_deleted: bool,
    pub ignored: bool,
}

/// One entry of `git status`: a path and its flags.
#[derive(Debug, Clone)]
pub struct StatusEntry {
    pub path: String,
    pub flags: StatusFlags,
}

pub open spec fn empty_status() -> RepoStatusView {
    RepoStatusView {
        modified: Seq::empty(),
        added: Seq::empty(),
        deleted: Seq::empty(),
        untracked: Seq::empty(),
    }
}

/// How one status entry changes the summary.
pub open spec fn classify_step(r: RepoStatusView, path: Seq<char>, st: StatusFlags) -> RepoStatusView {
    if st.ignored || st.current {
        r
    } else {
        let untracked = if st.index_new || st.wt_new {
            r.untracked.push(path)
        } else {
            r.untracked
        };
        let modified = if st.index_modified || st.wt_modified {
            r.modified.push(path)
        } else {
            r.modified
        };
        let deleted = if st.index_deleted || st.wt_deleted {
            r.deleted.push(path)
        } else {
            r.deleted
        };
        if st.index_new && !st.wt_new {
            RepoStatusView {
                modified,
                deleted,
                untracked: remove_all(untracked, path),
                added: if r.added.contains(path) {
                    r.added
                } else {
                    r.added.push(path)
                },
            }
        } else {
            RepoStatusView { modified, deleted, untracked, added: r.added }
        }
    }
}

/// The summary of a list of status entries, taken in order.
pub open spec fn classify(entries: Seq<StatusEntry>) -> RepoStatusView
    decreases entries.len(),
{
    if entries.len() == 0 {
        empty_status()
    } else {
        classify_step(
            classify(entries.drop_last()),
            entries.last().path@,
            entries.last().flags,
        )
    }
}

fn contains_string(v: &Vec<String>, s: &String) -> (b: bool)
    ensures
        b == v.deep_view().contains(s@),
{
    let mut i: usize = 0;
    while i < v.len()
        invariant
            i <= v.len(),
            forall|j: int| 0 <= j < i ==> v.deep_view()[j] != s@,
        decreases v.len() - i,
    {
        if str_eq(v[i].as_str(), s.as_str()) {
            assert(v.deep_view()[i as int] == s@);
            return true;
        }
        i += 1;
    }
    false
}

fn remove_string(v: &mut Vec<String>, s: &String)
    ensures
        final(v).deep_view() == remove_all(old(v).deep_view(), s@),
{
    let ghost orig = v.deep_view();
    let mut kept: Vec<String> = Vec::new();
    let mut i: usize = 0;
    while i < v.len()
        invariant
            i <= v.len(),
            orig == v.deep_view(),
            kept.deep_view() == remove_all(orig.take(i as int), s@),
        decreases v.len() - i,
    {
        assert(orig.take(i + 1).drop_last() =~= orig.take(i as int));
        if !str_eq(v[i].as_str(), s.as_str()) {
            kept.push(v[i].clone());
            assert(kept.deep_view() =~= remove_all(orig.take(i as int), s@).push(orig[i as int]));
        }
        i += 1;
    }
    assert(orig.take(v.len() as int) =~= orig);
    *v = kept;
}

fn push_string(v: &mut Vec<String>, s: &String)
    ensures
        final(v).deep_view() == old(v).deep_view().push(s@),
{
    v.push(s.clone());
    assert(v.deep_view() =~= old(v).deep_view().push(s@));
}

/// Sorts status entries into modified, added (staged new), deleted and untracked paths.
/// Ignored and unchanged paths are skipped.
pub fn classify_statuses(entries: &Vec<StatusEntry>) -> (r: RepoStatus)
    ensures
        r@ == classify(entries@),
{
    let mut result = RepoStatus {
        modified: Vec::new(),
        added: Vec::new(),
        deleted: Vec::new(),
        untracked: Vec::new(),
    };
    assert(result@.modified =~= Seq::<Seq<char>>::empty());
    assert(result@.added =~= Seq::<Seq<char>>::empty());
    assert(result@.deleted =~= Seq::<Seq<char>>::empty());
    assert(result@.untracked =~= Seq::<Seq<char>>::empty());
    assert(entries@.take(0) =~= Seq::<StatusEntry>::empty());
    let mut i: usize = 0;
    while i < entries.len()
        invariant
            i <= entries.len(),
            result@ == classify(entries@.take(i as int)),
        decreases entries.len() - i,
    {
        let e = &entries[i];
        let st = e.flags;
        assert(entries@.take(i + 1).drop_last() =~= entries@.take(i as int));
        let ghost before = result@;
        if !(st.ignored || st.current) {
            if st.index_new || st.wt_new {
                push_string(&mut result.untracked, &e.path);
            }
            if st.index_modified || st.wt_modified {
                push_string(&mut result.modified, &e.path);
            }
            if st.index_deleted || st.wt_deleted {
                push_string(&mut result.deleted, &e.path);
            }
            if st.index_new && !st.wt_new {
                remove_string(&mut result.untracked, &e.path);
                if !contains_string(&result.added, &e.path) {
                    push_string(&mut result.added, &e.path);
                }
            }
        }
        let ghost want = classify_step(before, e.path@, st);
        assert(result@.modified =~= want.modified);
        assert(result@.added =~= want.added);
        assert(result@.deleted =~= want.deleted);
        assert(result@.untracked =~= want.untracked);
        i += 1;
    }
    assert(entries@.take(entries.len() as int) =~= entries@);
    result
}

impl RepoStatus {
    /// No changes of any kind.
    pub fn is_empty(&self) -> (b: bool)
        ensures
            b == (self.modified.len() == 0 && self.added.len() == 0 && self.deleted.len() == 0
                && self.untracked.len() == 0),
    {
        self.modified.len() == 0 && self.added.len() == 0 && self.deleted.len() == 0
            && self.untracked.len() == 0
    }

    /// The number of changed paths, counted once per kind.
    pub fn total(&self) -> (n: usize)
        requires
            self.modified.len() + self.added.len() + self.deleted.len() + self.untracked.len()
                <= usize::MAX,
        ensures
            n == self.modified.len() + self.added.len() + self.deleted.len() + self.untracked.len(),
    {
        self.modified.len() + self.added.len() + self.deleted.len() + self.untracked.len()
    }
}


/// A status is empty exactly when its total is zero: no list holds a path.
pub proof fn law_empty_iff_no_total(st: RepoStatus)
    ensures
        (st.modified.len() + st.added.len() + st.deleted.len() + st.untracked.len() == 0) == (
        st.modified.len() == 0 && st.added.len() == 0 && st.deleted.len() == 0 && st.untracked.len()
            == 0),
{
}

} // verus!
