use vstd::prelude::*;

verus! {

/// One possible secret found by the scanner.
#[derive(Debug, Clone)]
pub struct Finding {
    pub secret_type: String,
    pub file: String,
    /// 1-based line number.
    pub line: usize,
    /// 1-based column, counted in bytes from the start of the line.
    pub column: usize,
    /// The line, without trailing whitespace.
    pub content: String,
    pub fingerprint: String,
    /// The commit, for findings in git history.
    pub commit: Option<String>,
}


/// The abstract value of a finding.
pub struct FindingView {
    pub secret_type: Seq<char>,
    pub file: Seq<char>,
    pub line: usize,
    pub column: usize,
    pub content: Seq<char>,
    pub fingerprint: Seq<char>,
    pub commit: Option<Seq<char>>,
}

impl View for Finding {
    type V = FindingView;

    open spec fn view(&self) -> FindingView {
        FindingView {
            secret_type: self.secret_type@,
            file: self.file@,
            line: self.line,
            column: self.column,
            content: self.content@,
            fingerprint: self.fingerprint@,
            commit: self.commit.deep_view(),
        }
    }
}

} // verus!
