//! The renderer that writes one line per case.

use vstd::prelude::*;
use vstd::utf8::encode_utf8;
use crate::event::Event;
use crate::event::EventView;
use crate::event::RunStatus;
use crate::style::Paint;
use crate::style::push_styled;
use crate::style::styled;
use crate::summary::Summary;
use crate::summary::SummaryView;
use crate::summary::absorb;
use crate::summary::complete_text;
use crate::summary::empty_summary;
use crate::summary::start_text;
use crate::text::byte_len;
use crate::text::padded;
use crate::text::push_padded;
use crate::text::push_text;

verus! {

/// The mathematical content of a [`PrettyRunNotifier`].
pub struct PrettyView {
    pub is_multithreaded: bool,
    pub summary: SummaryView,
    pub name_width: nat,
}

/// The word and colour that show how a case ended.
pub open spec fn verdict(status: Option<RunStatus>) -> Seq<char> {
    match status {
        Some(RunStatus::Ignored) => styled(Paint::Ignored, "ignored"@),
        Some(RunStatus::Failed) => styled(Paint::Failed, "FAILED"@),
        None => styled(Paint::Passed, "ok"@),
    }
}

/// The start of the line of a case: its name, padded to the longest.
pub open spec fn case_lead(name: Seq<char>, width: nat) -> Seq<char> {
    Seq::<char>::empty() + "test "@ + padded(name, width) + " ... "@
}

/// The renderer after one more event. The width of the name column is
/// the greatest length, in bytes, of the name of a selected case.
pub open spec fn pretty_next(v: PrettyView, e: EventView) -> PrettyView {
    PrettyView {
        is_multithreaded: v.is_multithreaded,
        summary: absorb(v.summary, e),
        name_width: match e {
            EventView::DiscoverCase { name, run, .. } => if run && encode_utf8(name).len()
                > v.name_width {
                encode_utf8(name).len()
            } else {
                v.name_width
            },
            _ => v.name_width,
        },
    }
}

/// What the renderer writes for an event, given what it is after it. In a
/// sequential run the name is written when the case starts and the result
/// when it completes; where cases may interleave, both are written on
/// completion.
pub open spec fn pretty_text(after: PrettyView, e: EventView) -> Seq<char> {
    match e {
        EventView::SuiteStart => start_text(after.summary),
        EventView::CaseStart { name } => if after.is_multithreaded {
            Seq::<char>::empty()
        } else {
            case_lead(name, after.name_width)
        },
        EventView::CaseComplete { name, status, .. } => (if after.is_multithreaded {
            case_lead(name, after.name_width)
        } else {
            Seq::<char>::empty()
        }) + verdict(status) + "\n"@,
        EventView::SuiteComplete { .. } => complete_text(after.summary),
        _ => Seq::<char>::empty(),
    }
}

/// Appends the word and colour that show how a case ended.
pub fn push_verdict(out: &mut String, status: &Option<RunStatus>)
    ensures
        final(out)@ == old(out)@ + verdict(*status),
{
    match status {
        Some(RunStatus::Ignored) => push_styled(out, Paint::Ignored, "ignored"),
        Some(RunStatus::Failed) => push_styled(out, Paint::Failed, "FAILED"),
        None => push_styled(out, Paint::Passed, "ok"),
    }
}

/// The renderer that writes one line per case.
#[derive(Debug)]
pub struct PrettyRunNotifier {
    is_multithreaded: bool,
    summary: Summary,
    name_width: usize,
}

impl View for PrettyRunNotifier {
    type V = PrettyView;

    closed spec fn view(&self) -> PrettyView {
        PrettyView {
            is_multithreaded: self.is_multithreaded,
            summary: self.summary@,
            name_width: self.name_width as nat,
        }
    }
}

impl PrettyRunNotifier {
    pub fn new() -> (r: Self)
        ensures
            r@ == (PrettyView {
                is_multithreaded: false,
                summary: empty_summary(),
                name_width: 0,
            }),
    {
        PrettyRunNotifier { is_multithreaded: false, summary: Summary::new(), name_width: 0 }
    }

    /// Tells the renderer whether cases may interleave.
    pub fn threaded(&mut self, yes: bool)
        ensures
            final(self)@ == (PrettyView { is_multithreaded: yes, ..old(self)@ }),
    {
        self.is_multithreaded = yes;
    }

    fn push_lead(&self, out: &mut String, name: &str)
        ensures
            final(out)@ == old(out)@ + case_lead(name@, self@.name_width),
    {
        push_text(out, "test ");
        push_padded(out, name, self.name_width);
        push_text(out, " ... ");
        assert(out@ =~= old(out)@ + case_lead(name@, self@.name_width));
    }

    /// Takes in an event and returns what is to be written for it.
    pub fn notify(&mut self, event: &Event) -> (r: String)
        ensures
            final(self)@ == pretty_next(old(self)@, event@),
            r@ == pretty_text(final(self)@, event@),
    {
        self.summary.notify(event);
        let mut out = String::new();
        match event {
            Event::DiscoverCase { name, run, .. } => {
                let width: usize = byte_len(name.as_str());
                if *run && width > self.name_width {
                    self.name_width = width;
                }
            },
            Event::SuiteStart => {
                out = self.summary.write_start();
            },
            Event::CaseStart { name } => {
                if !self.is_multithreaded {
                    self.push_lead(&mut out, name.as_str());
                }
            },
            Event::CaseComplete { name, status, .. } => {
                if self.is_multithreaded {
                    self.push_lead(&mut out, name.as_str());
                }
                push_verdict(&mut out, status);
                push_text(&mut out, "\n");
                assert(out@ =~= pretty_text(self@, event@));
            },
            Event::SuiteComplete { .. } => {
                out = self.summary.write_complete();
            },
            _ => {},
        }
        out
    }
}

} // verus!
