//! The running tally of a run, kept from the events alone.

use vstd::prelude::*;
use crate::event::Elapsed;
use crate::event::Event;
use crate::event::EventView;
use crate::event::RunStatus;
use crate::event::display_text;
use crate::event::text_of;
use crate::style::Paint;
use crate::style::push_styled;
use crate::style::styled;
use crate::text::decimal;
use crate::text::lex_le;
use crate::text::lex_le_antisymmetric;
use crate::text::lex_le_reflexive;
use crate::text::lex_le_total;
use crate::text::lex_le_transitive;
use crate::text::lex_lt;
use crate::text::push_decimal;
use crate::text::push_text;
use crate::text::same_text;
use crate::text::sorts_before;

verus! {

/// A failed case: its name and, where it gave one, its message.
pub type Failure = (Seq<char>, Option<Seq<char>>);

/// The mathematical content of a [`Summary`].
pub struct SummaryView {
    pub seed: Option<u64>,
    pub failures: Seq<Failure>,
    pub elapsed_s: Elapsed,
    pub num_run: nat,
    pub num_filtered_out: nat,
    pub num_passed: nat,
    pub num_failed: nat,
    pub num_ignored: nat,
}

/// The tally before any event.
pub open spec fn empty_summary() -> SummaryView {
    SummaryView {
        seed: None,
        failures: Seq::empty(),
        elapsed_s: Elapsed { secs: 0, nanos: 0 },
        num_run: 0,
        num_filtered_out: 0,
        num_passed: 0,
        num_failed: 0,
        num_ignored: 0,
    }
}

/// One more, up to the largest count that is kept.
pub open spec fn bump(n: nat) -> nat {
    if n < usize::MAX {
        n + 1
    } else {
        n
    }
}

/// The failures with one more recorded: in the order of the names, and
/// with one entry per name, the latest.
pub open spec fn recorded(failures: Seq<Failure>, name: Seq<char>, message: Option<Seq<char>>) -> Seq<
    Failure,
>
    decreases failures.len(),
{
    if failures.len() == 0 {
        seq![(name, message)]
    } else if failures[0].0 == name {
        failures.update(0, (name, message))
    } else if lex_le(name, failures[0].0) {
        seq![(name, message)] + failures
    } else {
        seq![failures[0]] + recorded(failures.drop_first(), name, message)
    }
}

/// The names go up strictly: the failures are in order, one per name.
pub open spec fn strictly_sorted(failures: Seq<Failure>) -> bool {
    forall|i: int, j: int|
        0 <= i < j < failures.len() ==> lex_lt(#[trigger] failures[i].0, #[trigger] failures[j].0)
}

/// The tally after one more event.
pub open spec fn absorb(s: SummaryView, e: EventView) -> SummaryView {
    match e {
        EventView::DiscoverCase { run, .. } => if run {
            SummaryView { num_run: bump(s.num_run), ..s }
        } else {
            SummaryView { num_filtered_out: bump(s.num_filtered_out), ..s }
        },
        EventView::DiscoverComplete { seed, .. } => SummaryView { seed, ..s },
        EventView::CaseComplete { name, status, message, .. } => match status {
            Some(RunStatus::Ignored) => SummaryView { num_ignored: bump(s.num_ignored), ..s },
            Some(RunStatus::Failed) => SummaryView {
                num_failed: bump(s.num_failed),
                failures: recorded(s.failures, name, message),
                ..s
            },
            None => SummaryView { num_passed: bump(s.num_passed), ..s },
        },
        EventView::SuiteComplete { elapsed_s } => SummaryView { elapsed_s, ..s },
        _ => s,
    }
}

/// The tally of a sequence of events.
pub open spec fn summary_of(events: Seq<EventView>) -> SummaryView
    decreases events.len(),
{
    if events.len() == 0 {
        empty_summary()
    } else {
        absorb(summary_of(events.drop_last()), events.last())
    }
}

/// The line that opens the report of a run.
pub open spec fn start_text(s: SummaryView) -> Seq<char> {
    Seq::<char>::empty() + "\n"@ + "running "@ + decimal(s.num_run) + " test"@ + (if s.num_run
        == 1 {
        ""@
    } else {
        "s"@
    }) + (match s.seed {
        Some(seed) => " (shuffle seed: "@ + decimal(seed as nat) + ")"@,
        None => ""@,
    }) + "\n"@
}

/// A failure with its message, as the report shows it.
pub open spec fn failure_block(f: Failure) -> Seq<char> {
    match f.1 {
        Some(message) => "---- "@ + f.0 + " ----\n"@ + message + "\n"@ + "\n"@,
        None => Seq::<char>::empty(),
    }
}

/// The failures that have a message, each with its message.
pub open spec fn failure_blocks(failures: Seq<Failure>) -> Seq<char>
    decreases failures.len(),
{
    if failures.len() == 0 {
        Seq::<char>::empty()
    } else {
        failure_blocks(failures.drop_last()) + failure_block(failures.last())
    }
}

/// The names of the failures, one to a line.
pub open spec fn failure_names(failures: Seq<Failure>) -> Seq<char>
    decreases failures.len(),
{
    if failures.len() == 0 {
        Seq::<char>::empty()
    } else {
        failure_names(failures.drop_last()) + "    "@ + failures.last().0 + "\n"@
    }
}

/// The failures of a run: first with their messages, then by name alone.
pub open spec fn failures_text(s: SummaryView) -> Seq<char> {
    if s.num_failed > 0 {
        Seq::<char>::empty() + "\n"@ + "failures:\n"@ + "\n"@ + failure_blocks(s.failures) + "\n"@
            + "failures:\n"@ + failure_names(s.failures)
    } else {
        Seq::<char>::empty()
    }
}

/// The verdict of a run and its counts.
pub open spec fn result_text(s: SummaryView) -> Seq<char> {
    Seq::<char>::empty() + "\n"@ + "test result: "@ + (if s.num_failed > 0 {
        styled(Paint::Failed, "FAILED"@)
    } else {
        styled(Paint::Passed, "ok"@)
    }) + ". "@ + decimal(s.num_passed) + " passed; "@ + decimal(s.num_failed) + " failed; "@
        + decimal(s.num_ignored) + " ignored; "@ + decimal(s.num_filtered_out)
        + " filtered out; finished in "@ + display_text(s.elapsed_s) + "\n"@ + "\n"@
}

/// The text that closes the report of a run.
pub open spec fn complete_text(s: SummaryView) -> Seq<char> {
    failures_text(s) + result_text(s)
}

/// The running tally of a run.
#[derive(Debug)]
pub struct Summary {
    seed: Option<u64>,
    failures: Vec<(String, Option<String>)>,
    elapsed_s: Elapsed,
    num_run: usize,
    num_filtered_out: usize,
    num_passed: usize,
    num_failed: usize,
    num_ignored: usize,
}

/// The content of a list of failures.
pub open spec fn failure_views(failures: Seq<(String, Option<String>)>) -> Seq<Failure> {
    failures.map_values(|f: (String, Option<String>)| (f.0@, text_of(f.1)))
}

fn bumped(n: usize) -> (r: usize)
    ensures
        r == bump(n as nat),
{
    if n < usize::MAX {
        n + 1
    } else {
        n
    }
}

proof fn recorded_skips(failures: Seq<Failure>, name: Seq<char>, message: Option<Seq<char>>, at: int)
    requires
        0 <= at <= failures.len(),
        forall|k: int| 0 <= k < at ==> lex_lt(#[trigger] failures[k].0, name),
    ensures
        recorded(failures, name, message) == failures.take(at) + recorded(
            failures.skip(at),
            name,
            message,
        ),
    decreases at,
{
    if at == 0 {
        assert(failures.skip(0) =~= failures);
        assert(failures.take(0) + failures =~= failures);
    } else {
        let rest = failures.drop_first();
        assert(lex_lt(failures[0].0, name));
        if lex_le(name, failures[0].0) {
            lex_le_antisymmetric(name, failures[0].0);
        }
        assert forall|k: int| 0 <= k < at - 1 implies lex_lt(#[trigger] rest[k].0, name) by {
            assert(rest[k] == failures[k + 1]);
        }
        recorded_skips(rest, name, message, at - 1);
        assert(rest.skip(at - 1) =~= failures.skip(at));
        assert(seq![failures[0]] + (rest.take(at - 1) + recorded(
            failures.skip(at),
            name,
            message,
        )) =~= failures.take(at) + recorded(failures.skip(at), name, message));
    }
}

/// Recording a failure keeps the failures in order, one per name.
pub proof fn recorded_stays_sorted(
    failures: Seq<Failure>,
    name: Seq<char>,
    message: Option<Seq<char>>,
)
    requires
        strictly_sorted(failures),
    ensures
        strictly_sorted(recorded(failures, name, message)),
        forall|k: int|
            0 <= k < recorded(failures, name, message).len() ==> #[trigger] recorded(
                failures,
                name,
                message,
            )[k].0 == name || exists|j: int|
                0 <= j < failures.len() && #[trigger] failures[j] == recorded(
                    failures,
                    name,
                    message,
                )[k],
    decreases failures.len(),
{
    let out = recorded(failures, name, message);
    if failures.len() == 0 {
    } else if failures[0].0 == name {
        assert forall|i: int, j: int| 0 <= i < j < out.len() implies lex_lt(
            #[trigger] out[i].0,
            #[trigger] out[j].0,
        ) by {
            assert(out[i].0 == failures[i].0);
            assert(out[j].0 == failures[j].0);
        }
        assert forall|k: int| 0 <= k < out.len() implies #[trigger] out[k].0 == name || exists|
            j: int,
        |
            0 <= j < failures.len() && #[trigger] failures[j] == out[k] by {
            if k > 0 {
                assert(failures[k] == out[k]);
            }
        }
    } else if lex_le(name, failures[0].0) {
        assert forall|i: int, j: int| 0 <= i < j < out.len() implies lex_lt(
            #[trigger] out[i].0,
            #[trigger] out[j].0,
        ) by {
            if i == 0 {
                assert(out[j] == failures[j - 1]);
                if j - 1 > 0 {
                    assert(lex_lt(failures[0].0, failures[j - 1].0));
                    lex_le_transitive(name, failures[0].0, failures[j - 1].0);
                    if name == failures[j - 1].0 {
                        lex_le_antisymmetric(failures[0].0, name);
                    }
                }
            } else {
                assert(out[i] == failures[i - 1]);
                assert(out[j] == failures[j - 1]);
            }
        }
        assert forall|k: int| 0 <= k < out.len() implies #[trigger] out[k].0 == name || exists|
            j: int,
        |
            0 <= j < failures.len() && #[trigger] failures[j] == out[k] by {
            if k > 0 {
                assert(failures[k - 1] == out[k]);
            }
        }
    } else {
        let rest = failures.drop_first();
        assert forall|i: int, j: int| 0 <= i < j < rest.len() implies lex_lt(
            #[trigger] rest[i].0,
            #[trigger] rest[j].0,
        ) by {
            assert(rest[i] == failures[i + 1]);
            assert(rest[j] == failures[j + 1]);
        }
        recorded_stays_sorted(rest, name, message);
        let tail = recorded(rest, name, message);
        lex_le_total(name, failures[0].0);
        assert forall|i: int, j: int| 0 <= i < j < out.len() implies lex_lt(
            #[trigger] out[i].0,
            #[trigger] out[j].0,
        ) by {
            assert(out[j] == tail[j - 1]);
            if i == 0 {
                if tail[j - 1].0 == name {
                } else {
                    let w = choose|w: int| 0 <= w < rest.len() && #[trigger] rest[w] == tail[j - 1];
                    assert(rest[w] == failures[w + 1]);
                    assert(lex_lt(failures[0].0, failures[w + 1].0));
                }
            } else {
                assert(out[i] == tail[i - 1]);
            }
        }
        assert forall|k: int| 0 <= k < out.len() implies #[trigger] out[k].0 == name || exists|
            j: int,
        |
            0 <= j < failures.len() && #[trigger] failures[j] == out[k] by {
            if k == 0 {
                assert(failures[0] == out[0]);
            } else {
                assert(out[k] == tail[k - 1]);
                if tail[k - 1].0 != name {
                    let w = choose|w: int| 0 <= w < rest.len() && #[trigger] rest[w] == tail[k - 1];
                    assert(failures[w + 1] == out[k]);
                }
            }
        }
    }
}

/// Taking in an event keeps the failures in order, one per name.
pub proof fn absorb_keeps_failures_sorted(s: SummaryView, e: EventView)
    requires
        strictly_sorted(s.failures),
    ensures
        strictly_sorted(absorb(s, e).failures),
{
    match e {
        EventView::CaseComplete { name, status, message, .. } => {
            if status == Some(RunStatus::Failed) {
                recorded_stays_sorted(s.failures, name, message);
            }
        },
        _ => {},
    }
}

/// The failures in the tally of any events are in the order of their
/// names, one per name.
pub proof fn failures_are_sorted(events: Seq<EventView>)
    ensures
        strictly_sorted(summary_of(events).failures),
    decreases events.len(),
{
    if events.len() > 0 {
        failures_are_sorted(events.drop_last());
        absorb_keeps_failures_sorted(summary_of(events.drop_last()), events.last());
    }
}

impl View for Summary {
    type V = SummaryView;

    closed spec fn view(&self) -> SummaryView {
        SummaryView {
            seed: self.seed,
            failures: failure_views(self.failures@),
            elapsed_s: self.elapsed_s,
            num_run: self.num_run as nat,
            num_filtered_out: self.num_filtered_out as nat,
            num_passed: self.num_passed as nat,
            num_failed: self.num_failed as nat,
            num_ignored: self.num_ignored as nat,
        }
    }
}

impl Summary {
    /// The tally before any event.
    pub fn new() -> (r: Self)
        ensures
            r@ == empty_summary(),
    {
        let r = Summary {
            seed: None,
            failures: Vec::new(),
            elapsed_s: Elapsed { secs: 0, nanos: 0 },
            num_run: 0,
            num_filtered_out: 0,
            num_passed: 0,
            num_failed: 0,
            num_ignored: 0,
        };
        assert(failure_views(r.failures@) =~= Seq::<Failure>::empty());
        r
    }

    pub fn has_failed(&self) -> (r: bool)
        ensures
            r == (self@.num_failed > 0),
    {
        0 < self.num_failed
    }

    pub fn num_run(&self) -> (r: usize)
        ensures
            r == self@.num_run,
    {
        self.num_run
    }

    pub fn num_filtered_out(&self) -> (r: usize)
        ensures
            r == self@.num_filtered_out,
    {
        self.num_filtered_out
    }

    pub fn num_passed(&self) -> (r: usize)
        ensures
            r == self@.num_passed,
    {
        self.num_passed
    }

    pub fn num_failed(&self) -> (r: usize)
        ensures
            r == self@.num_failed,
    {
        self.num_failed
    }

    pub fn num_ignored(&self) -> (r: usize)
        ensures
            r == self@.num_ignored,
    {
        self.num_ignored
    }

    pub fn seed(&self) -> (r: Option<u64>)
        ensures
            r == self@.seed,
    {
        self.seed
    }

    fn record_failure(&mut self, name: &str, message: &Option<String>)
        ensures
            final(self)@ == (SummaryView {
                failures: recorded(old(self)@.failures, name@, text_of(*message)),
                ..old(self)@
            }),
    {
        let ghost before = failure_views(self.failures@);
        let ghost note = text_of(*message);
        let copy: Option<String> = match message {
            Some(text) => Some(text.clone()),
            None => None,
        };
        let mut at: usize = 0;
        while at < self.failures.len() && !sorts_before(name, self.failures[at].0.as_str())
            invariant
                at <= self.failures@.len(),
                *self == *old(self),
                before == failure_views(self.failures@),
                forall|k: int| 0 <= k < at ==> lex_lt(#[trigger] before[k].0, name@),
            decreases self.failures@.len() - at,
        {
            proof {
                lex_le_total(name@, before[at as int].0);
                if before[at as int].0 == name@ {
                    lex_le_reflexive(name@);
                }
            }
            at += 1;
        }
        proof {
            recorded_skips(before, name@, note, at as int);
        }
        if at < self.failures.len() && same_text(self.failures[at].0.as_str(), name) {
            let kept = self.failures.remove(at);
            self.failures.insert(at, (kept.0, copy));
            proof {
                let rest = before.skip(at as int);
                assert(rest[0] == before[at as int]);
                assert(recorded(rest, name@, note) == rest.update(0, (name@, note)));
                assert(failure_views(self.failures@) =~= before.take(at as int) + rest.update(
                    0,
                    (name@, note),
                ));
            }
        } else {
            self.failures.insert(at, (name.to_owned(), copy));
            proof {
                let rest = before.skip(at as int);
                if at < before.len() {
                    assert(rest[0] == before[at as int]);
                    assert(recorded(rest, name@, note) == seq![(name@, note)] + rest);
                } else {
                    assert(rest.len() == 0);
                }
                assert(failure_views(self.failures@) =~= before.take(at as int) + (seq![
                    (name@, note),
                ] + rest));
            }
        }
    }

    /// Takes one more event into the tally.
    pub fn notify(&mut self, event: &Event)
        ensures
            final(self)@ == absorb(old(self)@, event@),
    {
        match event {
            Event::DiscoverCase { run, .. } => {
                if *run {
                    self.num_run = bumped(self.num_run);
                } else {
                    self.num_filtered_out = bumped(self.num_filtered_out);
                }
            },
            Event::DiscoverComplete { seed, .. } => {
                self.seed = *seed;
            },
            Event::CaseComplete { name, status, message, .. } => match status {
                Some(RunStatus::Ignored) => {
                    self.num_ignored = bumped(self.num_ignored);
                },
                Some(RunStatus::Failed) => {
                    self.num_failed = bumped(self.num_failed);
                    self.record_failure(name.as_str(), message);
                },
                None => {
                    self.num_passed = bumped(self.num_passed);
                },
            },
            Event::SuiteComplete { elapsed_s } => {
                self.elapsed_s = *elapsed_s;
            },
            _ => {},
        }
    }

    /// The line that opens the report of a run.
    pub fn write_start(&self) -> (r: String)
        ensures
            r@ == start_text(self@),
    {
        let mut out = String::new();
        push_text(&mut out, "\n");
        push_text(&mut out, "running ");
        push_decimal(&mut out, self.num_run as u128);
        push_text(&mut out, " test");
        if self.num_run == 1 {
            push_text(&mut out, "");
        } else {
            push_text(&mut out, "s");
        }
        let ghost head = out@;
        match self.seed {
            Some(seed) => {
                push_text(&mut out, " (shuffle seed: ");
                push_decimal(&mut out, seed as u128);
                push_text(&mut out, ")");
                assert(out@ =~= head + (" (shuffle seed: "@ + decimal(seed as nat) + ")"@));
            },
            None => {
                push_text(&mut out, "");
            },
        }
        push_text(&mut out, "\n");
        out
    }

    fn write_failure_blocks(&self, out: &mut String)
        ensures
            final(out)@ == old(out)@ + failure_blocks(self@.failures),
    {
        let ghost all = failure_views(self.failures@);
        let mut i: usize = 0;
        assert(old(out)@ + failure_blocks(all.take(0)) =~= old(out)@);
        while i < self.failures.len()
            invariant
                i <= self.failures@.len(),
                all == failure_views(self.failures@),
                out@ == old(out)@ + failure_blocks(all.take(i as int)),
            decreases self.failures@.len() - i,
        {
            let ghost head = out@;
            proof {
                assert(all.take(i + 1).drop_last() =~= all.take(i as int));
                assert(all.take(i + 1).last() == all[i as int]);
            }
            match &self.failures[i].1 {
                Some(message) => {
                    push_text(out, "---- ");
                    push_text(out, self.failures[i].0.as_str());
                    push_text(out, " ----\n");
                    push_text(out, message.as_str());
                    push_text(out, "\n");
                    push_text(out, "\n");
                    assert(out@ =~= head + failure_block(all[i as int]));
                },
                None => {
                    assert(out@ =~= head + failure_block(all[i as int]));
                },
            }
            assert(out@ =~= old(out)@ + failure_blocks(all.take(i + 1)));
            i += 1;
        }
        assert(all.take(i as int) =~= all);
    }

    fn write_failure_names(&self, out: &mut String)
        ensures
            final(out)@ == old(out)@ + failure_names(self@.failures),
    {
        let ghost all = failure_views(self.failures@);
        let mut i: usize = 0;
        assert(old(out)@ + failure_names(all.take(0)) =~= old(out)@);
        while i < self.failures.len()
            invariant
                i <= self.failures@.len(),
                all == failure_views(self.failures@),
                out@ == old(out)@ + failure_names(all.take(i as int)),
            decreases self.failures@.len() - i,
        {
            proof {
                assert(all.take(i + 1).drop_last() =~= all.take(i as int));
                assert(all.take(i + 1).last() == all[i as int]);
            }
            push_text(out, "    ");
            push_text(out, self.failures[i].0.as_str());
            push_text(out, "\n");
            assert(out@ =~= old(out)@ + failure_names(all.take(i + 1)));
            i += 1;
        }
        assert(all.take(i as int) =~= all);
    }

    /// The failures of the run, shown twice: with their messages, then by
    /// name alone. Empty where nothing failed.
    pub fn write_failures(&self) -> (r: String)
        ensures
            r@ == failures_text(self@),
    {
        let mut out = String::new();
        if self.has_failed() {
            push_text(&mut out, "\n");
            push_text(&mut out, "failures:\n");
            push_text(&mut out, "\n");
            self.write_failure_blocks(&mut out);
            push_text(&mut out, "\n");
            push_text(&mut out, "failures:\n");
            self.write_failure_names(&mut out);
        }
        out
    }

    /// The verdict of the run and its counts.
    pub fn write_result(&self) -> (r: String)
        ensures
            r@ == result_text(self@),
    {
        let mut out = String::new();
        push_text(&mut out, "\n");
        push_text(&mut out, "test result: ");
        if self.has_failed() {
            push_styled(&mut out, Paint::Failed, "FAILED");
        } else {
            push_styled(&mut out, Paint::Passed, "ok");
        }
        push_text(&mut out, ". ");
        push_decimal(&mut out, self.num_passed as u128);
        push_text(&mut out, " passed; ");
        push_decimal(&mut out, self.num_failed as u128);
        push_text(&mut out, " failed; ");
        push_decimal(&mut out, self.num_ignored as u128);
        push_text(&mut out, " ignored; ");
        push_decimal(&mut out, self.num_filtered_out as u128);
        push_text(&mut out, " filtered out; finished in ");
        let elapsed = self.elapsed_s.display();
        push_text(&mut out, elapsed.as_str());
        push_text(&mut out, "\n");
        push_text(&mut out, "\n");
        out
    }

    /// The text that closes the report of a run.
    pub fn write_complete(&self) -> (r: String)
        ensures
            r@ == complete_text(self@),
    {
        let mut out = self.write_failures();
        let verdict = self.write_result();
        push_text(&mut out, verdict.as_str());
        out
    }
}

} // verus!
