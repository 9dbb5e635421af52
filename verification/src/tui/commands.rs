use vstd::prelude::*;

verus! {

/// A slash command and its description.
#[derive(Debug, Clone, Copy)]
pub struct Command {
    pub name: &'static str,
    pub description: &'static str,
}

/// The slash commands, in the order they are suggested.
pub open spec fn command_list() -> Seq<(Seq<char>, Seq<char>)> {
    seq![
        ("help"@, "Show all available commands"@),
        ("auth"@, "Manage GitHub authentication (login/logout/status)"@),
        ("scan"@, "Run the secret scanner on current directory"@),
        ("scan history"@, "Scan git history for exposed secrets"@),
        ("scan ignored"@, "List all permanently ignored findings"@),
        ("plan"@, "Open the task planner"@),
        ("prp"@, "Start a poly-repo commit session"@),
        ("prp list"@, "List all PRP session groups"@),
        ("show-activity"@, "Show your GitHub contribution activity"@),
        ("commits"@, "Show recent commits for a repository"@),
        ("pull-requests"@, "Show open pull requests"@),
        ("repo-sync"@, "Select a repository and check sync status"@),
        ("multi-sync"@, "Check sync status across multiple repositories"@),
        ("push-check"@, "Check if latest commit is pushed to remote"@),
        ("push-verify"@, "Verify if pushing is currently possible"@),
        ("branches"@, "Show local and remote branches"@),
        ("issues"@, "Show issues and GitHub Actions status"@),
        ("user-info"@, "Show basic GitHub user info (REST API)"@),
        ("clear"@, "Clear the output history"@),
        ("quit"@, "Exit GitLink TUI"@),
    ]
}

/// The abstract value of a list of commands.
pub open spec fn commands_view(s: Seq<Command>) -> Seq<(Seq<char>, Seq<char>)> {
    s.map_values(|c: Command| (c.name@, c.description@))
}

fn cmd(name: &'static str, description: &'static str) -> (c: Command)
    ensures
        c.name@ == name@,
        c.description@ == description@,
{
    Command { name, description }
}

/// The slash commands, in the order they are suggested.
pub fn commands() -> (r: Vec<Command>)
    ensures
        commands_view(r@) == command_list(),
{
    let mut v: Vec<Command> = Vec::new();
    v.push(cmd("help", "Show all available commands"));
    v.push(cmd("auth", "Manage GitHub authentication (login/logout/status)"));
    v.push(cmd("scan", "Run the secret scanner on current directory"));
    v.push(cmd("scan history", "Scan git history for exposed secrets"));
    v.push(cmd("scan ignored", "List all permanently ignored findings"));
    v.push(cmd("plan", "Open the task planner"));
    v.push(cmd("prp", "Start a poly-repo commit session"));
    v.push(cmd("prp list", "List all PRP session groups"));
    v.push(cmd("show-activity", "Show your GitHub contribution activity"));
    v.push(cmd("commits", "Show recent commits for a repository"));
    v.push(cmd("pull-requests", "Show open pull requests"));
    v.push(cmd("repo-sync", "Select a repository and check sync status"));
    v.push(cmd("multi-sync", "Check sync status across multiple repositories"));
    v.push(cmd("push-check", "Check if latest commit is pushed to remote"));
    v.push(cmd("push-verify", "Verify if pushing is currently possible"));
    v.push(cmd("branches", "Show local and remote branches"));
    v.push(cmd("issues", "Show issues and GitHub Actions status"));
    v.push(cmd("user-info", "Show basic GitHub user info (REST API)"));
    v.push(cmd("clear", "Clear the output history"));
    v.push(cmd("quit", "Exit GitLink TUI"));
    assert(commands_view(v@) =~= command_list());
    v
}

} // verus!
