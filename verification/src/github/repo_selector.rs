use vstd::prelude::*;

use crate::github::graphql::{BranchRef, Owner, RepositoryInfo, Target};
use crate::text::{
    ascii_lower, ascii_lower_char, ascii_upper, ascii_upper_char, contains_seq, is_ascii_text, lowercase_of, occurs_at, push_str, str_contains, string_from,
    to_lowercase,
};

verus! {

/// A copy of an optional text, equal to it.
fn copy_opt(o: &Option<String>) -> (r: Option<String>)
    ensures
        r == *o,
{
    match o {
        Some(s) => Some(s.clone()),
        None => None,
    }
}

impl RepositoryInfo {
    /// A copy equal to this repository in every field.
    pub fn duplicate(&self) -> (r: RepositoryInfo)
        ensures
            r == *self,
    {
        RepositoryInfo {
            name: self.name.clone(),
            name_with_owner: self.name_with_owner.clone(),
            description: copy_opt(&self.description),
            is_private: self.is_private,
            default_branch_ref: match &self.default_branch_ref {
                Some(b) => Some(
                    BranchRef {
                        name: b.name.clone(),
                        target: Target { oid: b.target.oid.clone(), committed_date: copy_opt(&b.target.committed_date) },
                    },
                ),
                None => None,
            },
            updated_at: self.updated_at.clone(),
            url: self.url.clone(),
            ssh_url: self.ssh_url.clone(),
            owner: Owner { login: self.owner.login.clone() },
        }
    }
}

/// Chooses among the user's repositories.
pub struct RepoSelector {
    repos: Vec<RepositoryInfo>,
}

/// A repository matches a search: its lowercase name, or its lowercase description,
/// contains the lowercase search text.
pub open spec fn repo_matches(r: RepositoryInfo, search: Seq<char>) -> bool {
    contains_seq(lowercase_of(r.name@), lowercase_of(search)) || match r.description {
        Some(d) => contains_seq(lowercase_of(d@), lowercase_of(search)),
        None => false,
    }
}

/// The matching repositories, in order.
pub open spec fn matching_repos(rs: Seq<RepositoryInfo>, search: Seq<char>) -> Seq<RepositoryInfo>
    decreases rs.len(),
{
    if rs.len() == 0 {
        Seq::empty()
    } else {
        let r = matching_repos(rs.drop_last(), search);
        if repo_matches(rs.last(), search) {
            r.push(rs.last())
        } else {
            r
        }
    }
}

impl RepoSelector {
    /// A selector over the given repositories.
    pub fn from_repos(repos: Vec<RepositoryInfo>) -> (s: RepoSelector)
        ensures
            s.repositories() == repos@,
    {
        RepoSelector { repos }
    }

    /// The repositories to choose from.
    pub closed spec fn repositories(&self) -> Seq<RepositoryInfo> {
        self.repos@
    }

    /// Copies of the repositories whose name or description contains the search text,
    /// ignoring case (see `repo_matches`), in order and equal to them in every field.
    pub fn filter_by_name(&self, search: &str) -> (r: Vec<RepositoryInfo>)
        ensures
            r@ == matching_repos(self.repositories(), search@),
            is_ascii_text(search@) ==> lowercase_of(search@) == ascii_lower(search@),
    {
        let q = to_lowercase(search);
        let mut r: Vec<RepositoryInfo> = Vec::new();
        let mut i: usize = 0;
        while i < self.repos.len()
            invariant
                i <= self.repos.len(),
                q@ == lowercase_of(search@),
                r@ == matching_repos(self.repos@.take(i as int), search@),
            decreases self.repos.len() - i,
        {
            assert(self.repos@.take(i + 1).drop_last() =~= self.repos@.take(i as int));
            let repo = &self.repos[i];
            let hit = str_contains(to_lowercase(repo.name.as_str()).as_str(), q.as_str()) || match &repo.description {
                Some(d) => str_contains(to_lowercase(d.as_str()).as_str(), q.as_str()),
                None => false,
            };
            if hit {
                let c = repo.duplicate();
                r.push(c);
            }
            i += 1;
        }
        assert(self.repos@.take(self.repos.len() as int) =~= self.repos@);
        r
    }
}

/// How a repository is listed: privacy icon, owner/name and description.
pub open spec fn repo_label_text(r: RepositoryInfo) -> Seq<char> {
    (if r.is_private { "🔒"@ } else { "🌍"@ }) + " "@ + r.name_with_owner@ + " - "@ + match r.description {
        Some(d) => d@,
        None => "No description"@,
    }
}

/// How a repository is listed (see `repo_label_text`).
pub fn repo_label(r: &RepositoryInfo) -> (s: String)
    ensures
        s@ == repo_label_text(*r),
{
    let mut s = string_from(if r.is_private { "🔒" } else { "🌍" });
    push_str(&mut s, " ");
    push_str(&mut s, r.name_with_owner.as_str());
    push_str(&mut s, " - ");
    match &r.description {
        Some(d) => push_str(&mut s, d.as_str()),
        None => push_str(&mut s, "No description"),
    }
    s
}

// ─── Paging through the list ─────────────────────────────────────────────────

/// Repositories shown per page.
pub open spec fn page_size() -> nat {
    5
}

/// The range of positions shown on page `page` of `len` repositories.
pub open spec fn page_range(page: nat, len: nat) -> (nat, nat) {
    let start = page * page_size();
    let end = if start + page_size() < len { start + page_size() } else { len };
    (start, end)
}

/// What choosing an entry of a page asks for.
#[derive(Debug, Clone, Copy, PartialEq, Eq, Structural)]
pub enum PageChoice {
    Previous,
    Next,
    Search,
    Cancel,
    /// The repository at this position of the filtered list.
    Pick(usize),
}

/// The entries of page `page`: "previous page" unless it is the first, one per
/// repository, "next page" unless it is the last, then search and cancel.
pub open spec fn page_entries(labels: Seq<Seq<char>>, page: nat) -> Seq<Seq<char>> {
    let (start, end) = page_range(page, labels.len());
    (if page > 0 { seq!["⬆️  Previous page"@] } else { Seq::empty() }) + labels.subrange(
        start as int,
        end as int,
    ) + (if end < labels.len() { seq!["⬇️  Next page"@] } else { Seq::empty() }) + seq![
        "🔍 Search repositories"@,
        "❌ Cancel"@,
    ]
}

/// What choosing entry `sel` of page `page` of `len` repositories asks for, with
/// `n_items` entries shown. The "next page" check uses the entry count less three, plus
/// one when there is no "previous page" entry.
pub open spec fn page_choice_of(sel: nat, page: nat, len: nat, n_items: nat) -> PageChoice {
    let (start, end) = page_range(page, len);
    let has_prev = page > 0;
    let has_next = end < len;
    if has_prev && sel == 0 {
        PageChoice::Previous
    } else if has_next && sel == (if has_prev { n_items - 3 } else { n_items - 3 + 1 }) {
        PageChoice::Next
    } else if sel == n_items - 2 {
        PageChoice::Search
    } else if sel == n_items - 1 {
        PageChoice::Cancel
    } else {
        PageChoice::Pick((start + sel - (if has_prev { 1int } else { 0int })) as usize)
    }
}

/// What choosing entry `sel` of a page asks for (see `page_choice_of`).
pub fn page_choice(sel: usize, page: usize, len: usize, n_items: usize) -> (c: PageChoice)
    requires
        n_items >= 3,
        page * 5 + 5 <= usize::MAX,
        page * 5 + sel <= usize::MAX,
    ensures
        c == page_choice_of(sel as nat, page as nat, len as nat, n_items as nat),
{
    let start = page * 5;
    let end = if start + 5 < len {
        start + 5
    } else {
        len
    };
    let has_prev = page > 0;
    let has_next = end < len;
    let next_index = if has_prev {
        n_items - 3
    } else {
        n_items - 3 + 1
    };
    if has_prev && sel == 0 {
        PageChoice::Previous
    } else if has_next && sel == next_index {
        PageChoice::Next
    } else if sel == n_items - 2 {
        PageChoice::Search
    } else if sel == n_items - 1 {
        PageChoice::Cancel
    } else if has_prev {
        PageChoice::Pick(start + sel - 1)
    } else {
        PageChoice::Pick(start + sel)
    }
}


// ─── Laws of the search ─────────────────────────────────────────────────────

/// The search depends on the search text only through its lowercase form: two texts
/// with the same lowercase form find the same repositories, in the same order.
pub proof fn law_filter_by_lowercase(rs: Seq<RepositoryInfo>, s1: Seq<char>, s2: Seq<char>)
    requires
        lowercase_of(s1) == lowercase_of(s2),
    ensures
        matching_repos(rs, s1) == matching_repos(rs, s2),
    decreases rs.len(),
{
    if rs.len() > 0 {
        law_filter_by_lowercase(rs.drop_last(), s1, s2);
    }
}

/// A search whose lowercase form is empty finds every repository, in order.
pub proof fn law_empty_search_finds_all(rs: Seq<RepositoryInfo>, s: Seq<char>)
    requires
        lowercase_of(s).len() == 0,
    ensures
        matching_repos(rs, s) == rs,
    decreases rs.len(),
{
    if rs.len() > 0 {
        law_empty_search_finds_all(rs.drop_last(), s);
        assert(lowercase_of(rs.last().name@).subrange(0, 0) =~= lowercase_of(s));
        assert(occurs_at(lowercase_of(rs.last().name@), lowercase_of(s), 0));
        assert(rs.drop_last().push(rs.last()) =~= rs);
    }
}

/// Making the ASCII letters of a text capital does not change its ASCII lowercase form,
/// and keeps it ASCII: so an ASCII search finds the same repositories as the same search
/// in capitals (with `law_filter_by_lowercase` and what `filter_by_name` states of ASCII
/// text).
pub proof fn law_ascii_case_folds(s: Seq<char>)
    requires
        is_ascii_text(s),
    ensures
        is_ascii_text(ascii_upper(s)),
        ascii_lower(ascii_upper(s)) == ascii_lower(s),
{
    assert forall|i: int| 0 <= i < s.len() implies ascii_lower_char(ascii_upper_char(#[trigger] s[i]))
        == ascii_lower_char(s[i]) && (ascii_upper_char(s[i]) as u32) < 128 by {
        let c = s[i];
        if 'a' <= c <= 'z' {
            assert(((c as u32) - 32) as char as u32 == (c as u32) - 32);
            assert((((c as u32) - 32) as char as u32 + 32) as char == c);
        } else if 'A' <= c <= 'Z' {
        }
    }
    assert(ascii_lower(ascii_upper(s)) =~= ascii_lower(s));
    assert forall|i: int| 0 <= i < ascii_upper(s).len() implies (#[trigger] ascii_upper(s)[i] as u32) < 128 by {
        assert(ascii_upper(s)[i] == ascii_upper_char(s[i]));
    }
}

} // verus!
