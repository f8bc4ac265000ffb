use vstd::prelude::*;

verus! {

/// Outcome of one control. `PASS` and `FAIL` are determinations; `SKIP` and
/// `WARN` mark an indeterminate outcome.
#[derive(Clone, Copy, Debug, PartialEq, Eq, Structural)]
pub enum CheckStatus {
    PASS,
    FAIL,
    SKIP,
    WARN,
}

/// Whether a control can be evaluated by machine.
#[derive(Clone, Copy, Debug, PartialEq, Eq, Structural)]
pub enum Mode {
    Automatic,
    Manual,
}

/// Immutable descriptor of a control.
#[derive(Debug)]
pub struct CheckerMetadata {
    pub title: String,
    pub id: String,
    pub level: u8,
    pub name: String,
    pub mode: Mode,
}

/// Mathematical view of [`CheckerMetadata`].
pub struct MetadataView {
    pub title: Seq<char>,
    pub id: Seq<char>,
    pub level: u8,
    pub name: Seq<char>,
    pub mode: Mode,
}

impl View for CheckerMetadata {
    type V = MetadataView;

    open spec fn view(&self) -> MetadataView {
        MetadataView {
            title: self.title@,
            id: self.id@,
            level: self.level,
            name: self.name@,
            mode: self.mode,
        }
    }
}

/// What executing a control produced: a status and a free-text diagnostic.
#[derive(Debug)]
pub struct CheckerResult {
    pub status: CheckStatus,
    pub error: String,
}

/// Mathematical view of [`CheckerResult`].
pub struct ResultView {
    pub status: CheckStatus,
    pub error: Seq<char>,
}

impl View for CheckerResult {
    type V = ResultView;

    open spec fn view(&self) -> ResultView {
        ResultView { status: self.status, error: self.error@ }
    }
}

impl ResultView {
    /// A passing result never carries a diagnostic.
    pub open spec fn wf(self) -> bool {
        self.status == CheckStatus::PASS ==> self.error.len() == 0
    }
}

/// A result that passed.
pub open spec fn pass_view() -> ResultView {
    ResultView { status: CheckStatus::PASS, error: Seq::empty() }
}

/// A result that failed with the given diagnostic.
pub open spec fn fail_view(error: Seq<char>) -> ResultView {
    ResultView { status: CheckStatus::FAIL, error }
}

impl Default for CheckerResult {
    /// The result before any determination: not passing, no diagnostic.
    fn default() -> (r: CheckerResult)
        ensures
            r@ == fail_view(Seq::empty()),
    {
        CheckerResult { status: CheckStatus::FAIL, error: String::new() }
    }
}

impl CheckerResult {
    /// A passing result with an empty diagnostic.
    pub fn pass() -> (r: CheckerResult)
        ensures
            r@ == pass_view(),
    {
        CheckerResult { status: CheckStatus::PASS, error: String::new() }
    }

    /// A failing result carrying `error`.
    pub fn fail(error: String) -> (r: CheckerResult)
        ensures
            r@ == fail_view(error@),
    {
        CheckerResult { status: CheckStatus::FAIL, error }
    }
}

} // verus!
