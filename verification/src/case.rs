//! Test cases and the way a case reports that it did not pass.

use vstd::prelude::*;
use crate::event::RunStatus;
use crate::event::text_of;
use crate::state::State;

verus! {

/// Where a test lives in its project.
#[derive(Copy, Clone, Debug, PartialEq, Eq, Hash, Structural)]
pub enum TestKind {
    /// Unit tests sit beside the code, in the source folder.
    UnitTest,
    /// Integration tests sit in the tests folder.
    IntegrationTest,
    /// Documentation tests are extracted from doc comments.
    DocTest,
    /// Anything that follows no layout convention.
    Unknown,
}

impl Default for TestKind {
    fn default() -> (r: Self)
        ensures
            r == TestKind::Unknown,
    {
        TestKind::Unknown
    }
}

/// Where a case was defined.
#[derive(Debug)]
#[non_exhaustive]
pub enum Source {
    Rust {
        source_file: String,
        start_line: usize,
        start_col: usize,
        end_line: usize,
        end_col: usize,
    },
    Path(String),
}

/// One independently runnable, named test.
pub trait Case: Send + Sync + 'static {
    /// The name that [`Case::name`] returns.
    spec fn name_text(&self) -> Seq<char>;

    /// The name of the case, unique within a run. By convention a path of
    /// identifiers separated by double colons.
    fn name(&self) -> (r: &str)
        ensures
            r@ == self.name_text(),
    ;

    fn kind(&self) -> TestKind;

    fn source(&self) -> Option<&Source>;

    /// Whether the case must not run while any other case runs.
    fn exclusive(&self, state: &State) -> bool;

    /// Whether the case may be run in `state`.
    spec fn runnable(&self, state: &State) -> bool;

    fn run(&self, state: &State) -> Result<(), RunError>
        requires
            self.runnable(state),
    ;
}

pub type RunResult = Result<(), RunError>;

/// Why a case did not pass: it failed, or it asked to be ignored.
#[derive(Debug)]
pub struct RunError {
    status: RunStatus,
    cause: Option<String>,
}

impl RunError {
    pub closed spec fn status_of(&self) -> RunStatus {
        self.status
    }

    pub closed spec fn cause_text(&self) -> Option<Seq<char>> {
        text_of(self.cause)
    }

    /// A failure whose cause reads `cause`.
    pub fn with_cause(cause: String) -> (r: Self)
        ensures
            r.status_of() == RunStatus::Failed,
            r.cause_text() == Some(cause@),
    {
        RunError { status: RunStatus::Failed, cause: Some(cause) }
    }

    /// A failure with the message `cause`.
    pub fn fail(cause: &str) -> (r: Self)
        ensures
            r.status_of() == RunStatus::Failed,
            r.cause_text() == Some(cause@),
    {
        Self::with_cause(cause.to_owned())
    }

    /// The signal of a case that opts out without giving a reason.
    pub fn ignore() -> (r: Self)
        ensures
            r.status_of() == RunStatus::Ignored,
            r.cause_text() is None,
    {
        RunError { status: RunStatus::Ignored, cause: None }
    }

    /// The signal of a case that opts out because of `reason`.
    pub fn ignore_for(reason: String) -> (r: Self)
        ensures
            r.status_of() == RunStatus::Ignored,
            r.cause_text() == Some(reason@),
    {
        RunError { status: RunStatus::Ignored, cause: Some(reason) }
    }

    pub fn status(&self) -> (r: RunStatus)
        ensures
            r == self.status_of(),
    {
        self.status
    }

    /// The message that explains the error, if it has one.
    pub fn cause(&self) -> (r: Option<&str>)
        ensures
            match r {
                Some(text) => self.cause_text() == Some(text@),
                None => self.cause_text() is None,
            },
    {
        match &self.cause {
            Some(text) => Some(text.as_str()),
            None => None,
        }
    }
}

/// A case made of a name and a function to run.
pub struct Trial<F: Fn(&State) -> Result<(), RunError> + Send + Sync + 'static> {
    name: String,
    runner: F,
}

impl<F: Fn(&State) -> Result<(), RunError> + Send + Sync + 'static> Trial<F> {
    #[verifier::type_invariant]
    spec fn total(self) -> bool {
        forall|state: &State| call_requires(self.runner, (state,))
    }

    pub closed spec fn text(&self) -> Seq<char> {
        self.name@
    }

    /// The function that runs the test.
    pub closed spec fn body(&self) -> F {
        self.runner
    }

    /// A test called `name` whose body is `runner`, which can run in any
    /// state.
    pub fn test(name: &str, runner: F) -> (r: Self)
        requires
            forall|state: &State| call_requires(runner, (state,)),
        ensures
            r.text() == name@,
            r.name_text() == name@,
            r.body() == runner,
    {
        Trial { name: name.to_owned(), runner }
    }
}

impl<F: Fn(&State) -> Result<(), RunError> + Send + Sync + 'static> Case for Trial<F> {
    closed spec fn name_text(&self) -> Seq<char> {
        self.name@
    }

    fn name(&self) -> (r: &str) {
        self.name.as_str()
    }

    fn kind(&self) -> (r: TestKind)
        ensures
            r == TestKind::Unknown,
    {
        TestKind::Unknown
    }

    fn source(&self) -> (r: Option<&Source>)
        ensures
            r is None,
    {
        None
    }

    fn exclusive(&self, state: &State) -> (r: bool)
        ensures
            !r,
    {
        false
    }

    open spec fn runnable(&self, state: &State) -> bool {
        true
    }

    fn run(&self, state: &State) -> (r: Result<(), RunError>)
        ensures
            call_ensures(self.body(), (state,), r),
    {
        proof {
            use_type_invariant(self);
        }
        (self.runner)(state)
    }
}

} // verus!
