//! The context that a running case consults.

use vstd::prelude::*;
use crate::case::RunError;
use crate::event::RunMode;
use crate::event::RunStatus;

verus! {

/// What a run tells the cases it runs: the mode, and whether cases that
/// would opt out are to run all the same.
#[derive(Debug)]
pub struct State {
    mode: RunMode,
    run_ignored: bool,
}

impl State {
    pub closed spec fn mode_of(&self) -> RunMode {
        self.mode
    }

    /// Whether ignored cases are being run.
    pub closed spec fn runs_ignored(&self) -> bool {
        self.run_ignored
    }

    /// The context of a run of tests that leaves ignored cases out.
    pub fn new() -> (r: Self)
        ensures
            r.mode_of() == RunMode::Test,
            !r.runs_ignored(),
    {
        State { mode: RunMode::Test, run_ignored: false }
    }

    pub fn set_mode(&mut self, mode: RunMode)
        ensures
            final(self).mode_of() == mode,
            final(self).runs_ignored() == old(self).runs_ignored(),
    {
        self.mode = mode;
    }

    pub fn set_run_ignored(&mut self, yes: bool)
        ensures
            final(self).runs_ignored() == yes,
            final(self).mode_of() == old(self).mode_of(),
    {
        self.run_ignored = yes;
    }

    /// Whether ignored cases are being run.
    pub fn should_run_ignored(&self) -> (r: bool)
        ensures
            r == self.runs_ignored(),
    {
        self.run_ignored
    }

    /// Lets the calling case go on where ignored cases run, and hands it
    /// the signal to opt out with where they do not.
    pub fn ignore(&self) -> (r: Result<(), RunError>)
        ensures
            self.runs_ignored() ==> r is Ok,
            !self.runs_ignored() ==> r is Err && r->Err_0.status_of() == RunStatus::Ignored
                && r->Err_0.cause_text() is None,
    {
        if self.run_ignored {
            Ok(())
        } else {
            Err(RunError::ignore())
        }
    }

    /// As [`State::ignore`], with the reason for opting out.
    pub fn ignore_for(&self, reason: &str) -> (r: Result<(), RunError>)
        ensures
            self.runs_ignored() ==> r is Ok,
            !self.runs_ignored() ==> r is Err && r->Err_0.status_of() == RunStatus::Ignored
                && r->Err_0.cause_text() == Some(reason@),
    {
        if self.run_ignored {
            Ok(())
        } else {
            Err(RunError::ignore_for(reason.to_owned()))
        }
    }

    pub fn current_mode(&self) -> (r: RunMode)
        ensures
            r == self.mode_of(),
    {
        self.mode
    }
}

} // verus!
