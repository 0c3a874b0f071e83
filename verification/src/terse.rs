//! The renderers that write little: a list of the selected cases, and one
//! character per case.

use vstd::prelude::*;
use crate::event::Event;
use crate::event::EventView;
use crate::event::RunStatus;
use crate::style::Paint;
use crate::style::push_styled;
use crate::style::styled;
use crate::summary::Summary;
use crate::summary::SummaryView;
use crate::summary::absorb;
use crate::summary::bump;
use crate::summary::complete_text;
use crate::summary::empty_summary;
use crate::summary::start_text;
use crate::text::decimal;
use crate::text::push_decimal;
use crate::text::push_text;

verus! {

/// How many selected cases a list holds after one more event.
pub open spec fn list_next(tests: nat, e: EventView) -> nat {
    match e {
        EventView::DiscoverCase { run, .. } => if run {
            bump(tests)
        } else {
            tests
        },
        _ => tests,
    }
}

/// What the list writes for an event, given the count after it: a line
/// for each selected case, and the count at the end.
pub open spec fn list_text(tests_after: nat, e: EventView) -> Seq<char> {
    match e {
        EventView::DiscoverCase { name, mode, run } => if run {
            Seq::<char>::empty() + name + ": "@ + mode.word() + "\n"@
        } else {
            Seq::<char>::empty()
        },
        EventView::DiscoverComplete { .. } => Seq::<char>::empty() + "\n"@ + decimal(tests_after)
            + " tests\n"@ + "\n"@,
        _ => Seq::<char>::empty(),
    }
}

/// The renderer that lists the selected cases.
#[derive(Debug)]
pub struct TerseListNotifier {
    tests: usize,
}

impl TerseListNotifier {
    /// How many selected cases were listed.
    pub closed spec fn count(&self) -> nat {
        self.tests as nat
    }

    pub fn new() -> (r: Self)
        ensures
            r.count() == 0,
    {
        TerseListNotifier { tests: 0 }
    }

    /// Takes in an event and returns what is to be written for it.
    pub fn notify(&mut self, event: &Event) -> (r: String)
        ensures
            final(self).count() == list_next(old(self).count(), event@),
            r@ == list_text(final(self).count(), event@),
    {
        let mut out = String::new();
        match event {
            Event::DiscoverCase { name, mode, run } => {
                if *run {
                    push_text(&mut out, name.as_str());
                    push_text(&mut out, ": ");
                    push_text(&mut out, mode.as_str());
                    push_text(&mut out, "\n");
                    if self.tests < usize::MAX {
                        self.tests = self.tests + 1;
                    }
                }
            },
            Event::DiscoverComplete { .. } => {
                push_text(&mut out, "\n");
                push_decimal(&mut out, self.tests as u128);
                push_text(&mut out, " tests\n");
                push_text(&mut out, "\n");
            },
            _ => {},
        }
        out
    }
}

/// The character and colour that show how a case ended.
pub open spec fn dot(status: Option<RunStatus>) -> Seq<char> {
    match status {
        Some(RunStatus::Ignored) => styled(Paint::Ignored, "i"@),
        Some(RunStatus::Failed) => styled(Paint::Failed, "F"@),
        None => styled(Paint::Passed, "."@),
    }
}

/// What the terse renderer writes for an event, given the tally after it.
pub open spec fn terse_text(after: SummaryView, e: EventView) -> Seq<char> {
    match e {
        EventView::SuiteStart => start_text(after),
        EventView::CaseComplete { status, .. } => dot(status),
        EventView::SuiteComplete { .. } => complete_text(after),
        _ => Seq::<char>::empty(),
    }
}

/// The renderer that writes one character per case.
#[derive(Debug)]
pub struct TerseRunNotifier {
    summary: Summary,
}

impl TerseRunNotifier {
    /// The tally that the renderer keeps.
    pub closed spec fn tally(&self) -> SummaryView {
        self.summary@
    }

    pub fn new() -> (r: Self)
        ensures
            r.tally() == empty_summary(),
    {
        TerseRunNotifier { summary: Summary::new() }
    }

    /// Takes in an event and returns what is to be written for it.
    pub fn notify(&mut self, event: &Event) -> (r: String)
        ensures
            final(self).tally() == absorb(old(self).tally(), event@),
            r@ == terse_text(final(self).tally(), event@),
    {
        self.summary.notify(event);
        let mut out = String::new();
        match event {
            Event::SuiteStart => {
                out = self.summary.write_start();
            },
            Event::CaseComplete { status, .. } => {
                match status {
                    Some(RunStatus::Ignored) => push_styled(&mut out, Paint::Ignored, "i"),
                    Some(RunStatus::Failed) => push_styled(&mut out, Paint::Failed, "F"),
                    None => push_styled(&mut out, Paint::Passed, "."),
                }
                assert(out@ =~= dot(*status));
            },
            Event::SuiteComplete { .. } => {
                out = self.summary.write_complete();
            },
            _ => {},
        }
        out
    }
}

} // verus!
