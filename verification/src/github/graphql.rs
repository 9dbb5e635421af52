use vstd::prelude::*;

verus! {

// ─── User activity ───────────────────────────────────────────────────────────

/// Reply to the user activity query.
#[derive(Debug)]
pub struct UserActivity {
    pub viewer: Viewer,
}

#[derive(Debug)]
pub struct Viewer {
    pub login: String,
    pub name: Option<String>,
    pub contributions_collection: ContributionsCollection,
}

#[derive(Debug)]
pub struct ContributionsCollection {
    pub total_commit_contributions: i32,
    pub total_pull_request_contributions: i32,
    pub total_issue_contributions: i32,
    pub total_repository_contributions: i32,
    pub contribution_calendar: ContributionCalendar,
}

#[derive(Debug)]
pub struct ContributionCalendar {
    pub total_contributions: i32,
    pub weeks: Vec<ContributionWeek>,
}

#[derive(Debug)]
pub struct ContributionWeek {
    pub contribution_days: Vec<ContributionDay>,
}

#[derive(Debug)]
pub struct ContributionDay {
    pub date: String,
    pub contribution_count: i32,
}

// ─── Recent commits ──────────────────────────────────────────────────────────

/// Reply to the recent commits query.
#[derive(Debug)]
pub struct UserCommitsResponse {
    pub viewer: ViewerCommits,
}

#[derive(Debug)]
pub struct ViewerCommits {
    pub login: String,
    pub repositories: RepositoriesWithCommits,
}

#[derive(Debug)]
pub struct RepositoriesWithCommits {
    pub nodes: Vec<RepositoryWithCommits>,
}

#[derive(Debug)]
pub struct RepositoryWithCommits {
    pub name: String,
    pub name_with_owner: String,
    pub default_branch_ref: Option<BranchWithCommits>,
}

#[derive(Debug)]
pub struct BranchWithCommits {
    pub target: CommitTarget,
}

#[derive(Debug)]
pub struct CommitTarget {
    pub history: CommitHistory,
}

#[derive(Debug)]
pub struct CommitHistory {
    pub nodes: Vec<Commit>,
}

#[derive(Debug)]
pub struct Commit {
    pub message: String,
    pub committed_date: String,
    pub oid: String,
    pub additions: i32,
    pub deletions: i32,
    pub author: CommitAuthor,
}

#[derive(Debug)]
pub struct CommitAuthor {
    pub name: Option<String>,
    pub email: Option<String>,
    pub date: String,
}

#[derive(Debug)]
pub struct Repository {
    pub name: String,
    pub name_with_owner: String,
}

// ─── Pull requests ───────────────────────────────────────────────────────────

/// Reply to the pull requests query.
#[derive(Debug)]
pub struct PullRequestsResponse {
    pub viewer: ViewerPRs,
}

#[derive(Debug)]
pub struct ViewerPRs {
    pub login: String,
    pub pull_requests: PullRequestConnection,
}

#[derive(Debug)]
pub struct PullRequestConnection {
    pub nodes: Vec<PullRequest>,
    pub total_count: i32,
}

#[derive(Debug)]
pub struct PullRequest {
    pub title: String,
    pub number: i32,
    pub state: String,
    pub created_at: String,
    pub updated_at: String,
    pub repository: Repository,
    pub author: Option<Author>,
    pub reviews: Option<ReviewConnection>,
    pub mergeable: String,
}

#[derive(Debug)]
pub struct Author {
    pub login: String,
}

#[derive(Debug)]
pub struct ReviewConnection {
    pub total_count: i32,
    pub nodes: Vec<Review>,
}

#[derive(Debug)]
pub struct Review {
    pub state: String,
    pub author: Option<Author>,
}

// ─── Repositories ────────────────────────────────────────────────────────────

/// Reply to the repositories query.
#[derive(Debug, Clone)]
pub struct RepositoriesResponse {
    pub viewer: ViewerRepos,
}

#[derive(Debug, Clone)]
pub struct ViewerRepos {
    pub login: String,
    pub repositories: RepositoryConnection,
}

#[derive(Debug, Clone)]
pub struct RepositoryConnection {
    pub nodes: Vec<RepositoryInfo>,
    pub total_count: i32,
}

/// A repository of the user on GitHub.
#[derive(Debug, Clone)]
pub struct RepositoryInfo {
    pub name: String,
    pub name_with_owner: String,
    pub description: Option<String>,
    pub is_private: bool,
    pub default_branch_ref: Option<BranchRef>,
    pub updated_at: String,
    pub url: String,
    pub ssh_url: String,
    pub owner: Owner,
}

#[derive(Debug, Clone)]
pub struct BranchRef {
    pub name: String,
    pub target: Target,
}

#[derive(Debug, Clone)]
pub struct Target {
    pub oid: String,
    pub committed_date: Option<String>,
}

#[derive(Debug, Clone)]
pub struct Owner {
    pub login: String,
}

// ─── Repository sync ─────────────────────────────────────────────────────────

/// Reply to the repository sync query.
#[derive(Debug)]
pub struct RepoSyncResponse {
    pub repository: RepositorySync,
}

#[derive(Debug)]
pub struct RepositorySync {
    pub name: String,
    pub name_with_owner: String,
    pub default_branch_ref: Option<BranchRefSync>,
    pub refs: Option<RefsConnection>,
}

#[derive(Debug)]
pub struct BranchRefSync {
    pub name: String,
    pub target: TargetSync,
}

#[derive(Debug)]
pub struct TargetSync {
    pub oid: String,
    pub committed_date: Option<String>,
    pub history: Option<CommitHistoryCount>,
}

#[derive(Debug)]
pub struct CommitHistoryCount {
    pub total_count: i32,
}

#[derive(Debug)]
pub struct RefsConnection {
    pub nodes: Vec<BranchRefSync>,
}

} // verus!
