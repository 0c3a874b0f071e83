//! The coordinator of a run: which case starts next, how many may run at
//! once, and when the run is over.
//!
//! The scheduler decides and records; it runs nothing itself. Its caller
//! asks for the next step, starts the case it is told to start on a worker
//! (or runs it on the spot), and reports each completion as it arrives.
//! With one worker this is a sequential run.

use vstd::prelude::*;
use crate::case::RunError;
use crate::clock::start_timer;
use crate::clock::time_since;
use crate::event::Elapsed;
use crate::event::Event;
use crate::event::EventView;
use crate::event::RunMode;
use crate::event::RunStatus;
use crate::options::texts;

verus! {

/// One entry in the history of a run. Cases are told apart by their place
/// in the list of selected cases.
pub enum Mark {
    SuiteStarted,
    Started(int),
    Completed(int, bool),
    SuiteCompleted,
}

/// How often the case at `index` was started in `trace`.
pub open spec fn starts_of(trace: Seq<Mark>, index: int) -> nat
    decreases trace.len(),
{
    if trace.len() == 0 {
        0
    } else {
        starts_of(trace.drop_last(), index) + if trace.last() == Mark::Started(index) {
            1nat
        } else {
            0nat
        }
    }
}

/// Whether `mark` records that the case at `index` was started.
pub open spec fn starts(mark: Mark, index: int) -> bool {
    mark == Mark::Started(index)
}

/// Whether `mark` records that the case at `index` completed.
pub open spec fn completes(mark: Mark, index: int) -> bool {
    match mark {
        Mark::Completed(i, _) => i == index,
        _ => false,
    }
}

/// Whether `mark` records a failure.
pub open spec fn fails(mark: Mark) -> bool {
    match mark {
        Mark::Completed(_, failed) => failed,
        _ => false,
    }
}

/// How often the case at `index` completed in `trace`.
pub open spec fn completions_of(trace: Seq<Mark>, index: int) -> nat
    decreases trace.len(),
{
    if trace.len() == 0 {
        0
    } else {
        completions_of(trace.drop_last(), index) + if completes(trace.last(), index) {
            1nat
        } else {
            0nat
        }
    }
}

/// Whether a case result counts as a failure.
pub open spec fn is_failure(outcome: &Result<(), RunError>) -> bool {
    match outcome {
        Ok(_) => false,
        Err(e) => e.status_of() == RunStatus::Failed,
    }
}

/// The event that reports how the case called `name` ended.
pub open spec fn completion(
    name: Seq<char>,
    outcome: &Result<(), RunError>,
    elapsed: Elapsed,
) -> EventView {
    EventView::CaseComplete {
        name,
        mode: RunMode::Test,
        status: match outcome {
            Ok(_) => None,
            Err(e) => Some(e.status_of()),
        },
        message: match outcome {
            Ok(_) => None,
            Err(e) => e.cause_text(),
        },
        elapsed_s: Some(elapsed),
    }
}

/// Reports how the case called `name` ended.
pub fn case_complete(name: &str, outcome: &Result<(), RunError>, elapsed: Elapsed) -> (event:
    Event)
    ensures
        event@ == completion(name@, outcome, elapsed),
{
    match outcome {
        Ok(_) => Event::CaseComplete {
            name: name.to_owned(),
            mode: RunMode::Test,
            status: None,
            message: None,
            elapsed_s: Some(elapsed),
        },
        Err(e) => {
            let message = match e.cause() {
                Some(text) => Some(text.to_owned()),
                None => None,
            };
            Event::CaseComplete {
                name: name.to_owned(),
                mode: RunMode::Test,
                status: Some(e.status()),
                message,
                elapsed_s: Some(elapsed),
            }
        },
    }
}

proof fn push_contains<T>(s: Seq<T>, x: T, y: T)
    ensures
        s.push(x).contains(y) == (s.contains(y) || x == y),
{
    if s.contains(y) {
        let k = choose|k: int| 0 <= k < s.len() && s[k] == y;
        assert(s.push(x)[k] == y);
    }
    if x == y {
        assert(s.push(x)[s.len() as int] == y);
    }
    if s.push(x).contains(y) {
        let k = choose|k: int| 0 <= k < s.push(x).len() && s.push(x)[k] == y;
        if k < s.len() {
            assert(s[k] == y);
        }
    }
}

/// What the caller of a scheduler does next.
pub enum Step {
    /// Announce `event`, then start the case at `index`.
    Start { index: usize, event: Event },
    /// Wait for a running case to complete, and report it.
    Wait,
    /// Nothing is running and nothing more will start: end the suite.
    Finish,
}

/// The coordinator of one run.
pub struct Scheduler {
    names: Vec<String>,
    next: usize,
    in_flight: Vec<usize>,
    threads: usize,
    fail_fast: bool,
    success: bool,
    finished: bool,
    timer: std::time::Instant,
    trace: Ghost<Seq<Mark>>,
}

impl Scheduler {
    /// The names of the selected cases, in the order in which they start.
    pub closed spec fn names(&self) -> Seq<Seq<char>> {
        texts(self.names@)
    }

    /// The history of the run so far.
    pub closed spec fn trace(&self) -> Seq<Mark> {
        self.trace@
    }

    /// How many cases have been started: the cases before this place.
    pub closed spec fn started(&self) -> int {
        self.next as int
    }

    /// The cases that were started and have not completed.
    pub closed spec fn running(&self) -> Seq<usize> {
        self.in_flight@
    }

    /// The most cases that run at once.
    pub closed spec fn workers(&self) -> int {
        self.threads as int
    }

    /// Whether the run stops starting cases after a failure.
    pub closed spec fn fails_fast(&self) -> bool {
        self.fail_fast
    }

    /// Whether no case has failed so far.
    pub closed spec fn succeeded(&self) -> bool {
        self.success
    }

    /// Whether the suite has been ended.
    pub closed spec fn is_finished(&self) -> bool {
        self.finished
    }

    /// Whether the run has given up starting cases.
    pub open spec fn halted(&self) -> bool {
        self.fails_fast() && !self.succeeded()
    }

    /// Whether the next step starts a case.
    pub open spec fn can_start(&self) -> bool {
        &&& !self.is_finished()
        &&& !self.halted()
        &&& self.running().len() < self.workers()
        &&& self.started() < self.names().len()
    }

    /// What always holds of a scheduler.
    pub closed spec fn wf(&self) -> bool {
        let trace = self.trace@;
        let flight = self.in_flight@;
        &&& self.threads >= 1
        &&& self.next <= self.names@.len()
        &&& flight.len() <= self.threads
        &&& flight.no_duplicates()
        &&& forall|k: int| 0 <= k < flight.len() ==> #[trigger] flight[k] < self.next
        &&& trace.len() >= 1
        &&& trace[0] == Mark::SuiteStarted
        &&& forall|j: int|
            1 <= j < trace.len() ==> !(#[trigger] trace[j] == Mark::SuiteStarted)
        &&& forall|j: int|
            0 <= j < trace.len() - 1 ==> !(#[trigger] trace[j] == Mark::SuiteCompleted)
        &&& self.finished == (trace.last() == Mark::SuiteCompleted)
        &&& self.finished ==> flight.len() == 0 && (self.next == self.names@.len()
            || self.halted())
        &&& forall|i: int|
            #![trigger starts_of(trace, i)]
            starts_of(trace, i) == if 0 <= i < self.next {
                1nat
            } else {
                0nat
            }
        &&& forall|i: int|
            #![trigger completions_of(trace, i)]
            completions_of(trace, i) == if 0 <= i < self.next && !flight.contains(i as usize) {
                1nat
            } else {
                0nat
            }
        &&& forall|j: int, i: int|
            0 <= j < trace.len() && completes(#[trigger] trace[j], i) ==> #[trigger] starts_of(
                trace.take(j),
                i,
            ) == 1
        &&& forall|j: int, a: int, b: int|
            0 <= j < trace.len() && #[trigger] starts(trace[j], b) && 0 <= a < b
                ==> #[trigger] starts_of(trace.take(j), a) == 1
        &&& self.success == (forall|j: int| 0 <= j < trace.len() ==> !fails(#[trigger] trace[j]))
    }

    /// A scheduler for the cases called `names`, with at most `threads`
    /// running at once; no workers counts as one. Returns it with the event
    /// that opens the suite.
    pub fn new(names: Vec<String>, threads: usize, fail_fast: bool) -> (r: (Self, Event))
        ensures
            r.0.wf(),
            r.0.names() == texts(names@),
            r.0.trace() == seq![Mark::SuiteStarted],
            r.0.started() == 0,
            r.0.running().len() == 0,
            r.0.workers() == if threads == 0 {
                1int
            } else {
                threads as int
            },
            r.0.fails_fast() == fail_fast,
            r.0.succeeded(),
            !r.0.is_finished(),
            r.1@ == EventView::SuiteStart,
    {
        let timer = start_timer();
        let workers: usize = if threads == 0 {
            1
        } else {
            threads
        };
        let ghost opening = seq![Mark::SuiteStarted];
        let trace: Ghost<Seq<Mark>> = Ghost(opening);
        let s = Scheduler {
            names,
            next: 0,
            in_flight: Vec::new(),
            threads: workers,
            fail_fast,
            success: true,
            finished: false,
            timer,
            trace,
        };
        proof {
            let trace = s.trace@;
            assert(trace.drop_last() =~= Seq::<Mark>::empty());
            assert forall|i: int| starts_of(trace, i) == 0 && completions_of(trace, i) == 0 by {
                reveal_with_fuel(starts_of, 2);
                reveal_with_fuel(completions_of, 2);
            }
        }
        (s, Event::SuiteStart)
    }

    /// Whether more than one case may run at once.
    pub fn is_multithreaded(&self) -> (r: bool)
        ensures
            r == (self.workers() > 1),
    {
        1 < self.threads
    }

    /// Whether no case has failed so far.
    pub fn success(&self) -> (r: bool)
        ensures
            r == self.succeeded(),
    {
        self.success
    }

    /// The name of the case at `index`.
    pub fn name_of(&self, index: usize) -> (r: Option<&str>)
        ensures
            match r {
                Some(name) => index < self.names().len() && name@ == self.names()[index as int],
                None => index >= self.names().len(),
            },
    {
        if index < self.names.len() {
            Some(self.names[index].as_str())
        } else {
            None
        }
    }

    /// Decides the next step. Where a worker is free, a case is left and
    /// the run has not given up, the next case in line is started;
    /// otherwise the caller waits while anything runs, and is done when
    /// nothing does.
    pub fn next_step(&mut self) -> (step: Step)
        requires
            old(self).wf(),
        ensures
            final(self).wf(),
            final(self).names() == old(self).names(),
            final(self).workers() == old(self).workers(),
            final(self).fails_fast() == old(self).fails_fast(),
            final(self).succeeded() == old(self).succeeded(),
            final(self).is_finished() == old(self).is_finished(),
            old(self).can_start() ==> {
                &&& step matches Step::Start { index, event }
                &&& index == old(self).started()
                &&& event@ == EventView::CaseStart { name: old(self).names()[index as int] }
                &&& final(self).started() == old(self).started() + 1
                &&& final(self).running() == old(self).running().push(index)
                &&& final(self).trace() == old(self).trace().push(Mark::Started(index as int))
            },
            !old(self).can_start() ==> {
                &&& (step is Wait <==> old(self).running().len() > 0)
                &&& (step is Finish <==> old(self).running().len() == 0)
                &&& final(self).started() == old(self).started()
                &&& final(self).running() == old(self).running()
                &&& final(self).trace() == old(self).trace()
            },
    {
        let halted = self.fail_fast && !self.success;
        if !self.finished && !halted && self.in_flight.len() < self.threads && self.next
            < self.names.len() {
            let index: usize = self.next;
            let event = Event::CaseStart { name: self.names[index].clone() };
            let ghost before = self.trace@;
            let ghost flight = self.in_flight@;
            self.in_flight.push(index);
            self.next = index + 1;
            proof {
                let mark = Mark::Started(index as int);
                let after = before.push(mark);
                self.trace = Ghost(after);
                assert(after.drop_last() =~= before);
                assert(after.last() == mark);
                assert forall|k: int| 0 <= k < before.len() implies after.take(k) == before.take(
                    k,
                ) by {
                    assert(after.take(k) =~= before.take(k));
                }
                assert(after.take(before.len() as int) =~= before);
                assert(!flight.contains(index)) by {
                    if flight.contains(index) {
                        let k = choose|k: int| 0 <= k < flight.len() && flight[k] == index;
                        assert(flight[k] < index);
                    }
                }
                assert(self.in_flight@.no_duplicates());
                assert(self.in_flight@ == flight.push(index));
                assert forall|i: int| #![trigger completions_of(after, i)]
                    completions_of(after, i) == if 0 <= i < self.next
                        && !self.in_flight@.contains(i as usize) {
                        1nat
                    } else {
                        0nat
                    } by {
                    push_contains(flight, index, i as usize);
                    assert(completions_of(after, i) == completions_of(before, i));
                }
                assert forall|i: int| #![trigger starts_of(after, i)]
                    starts_of(after, i) == if 0 <= i < self.next {
                        1nat
                    } else {
                        0nat
                    } by {
                    assert(starts_of(after, i) == starts_of(before, i) + if mark
                        == Mark::Started(i) {
                        1nat
                    } else {
                        0nat
                    });
                }
                assert forall|j: int, a: int, b: int|
                    0 <= j < after.len() && #[trigger] starts(after[j], b) && 0 <= a
                        < b implies #[trigger] starts_of(after.take(j), a) == 1 by {
                    if j == before.len() {
                        assert(b == index);
                    } else {
                        assert(starts(before[j], b));
                    }
                }
                assert forall|j: int, i: int|
                    0 <= j < after.len() && completes(
                        #[trigger] after[j],
                        i,
                    ) implies #[trigger] starts_of(after.take(j), i) == 1 by {
                    assert(j < before.len());
                    assert(completes(before[j], i));
                }
                assert forall|j: int| 0 <= j < after.len() implies (!fails(#[trigger] after[j])
                    == !fails(if j < before.len() {
                    before[j]
                } else {
                    mark
                })) by {}
                assert(self.success == (forall|j: int|
                    0 <= j < after.len() ==> !fails(#[trigger] after[j]))) by {
                    if self.success {
                        assert forall|j: int| 0 <= j < after.len() implies !fails(
                            #[trigger] after[j],
                        ) by {
                            if j < before.len() {
                                assert(!fails(before[j]));
                            }
                        }
                    } else {
                        let j = choose|j: int| 0 <= j < before.len() && fails(#[trigger] before[j]);
                        assert(fails(after[j]));
                    }
                }
                assert forall|j: int| 1 <= j < after.len() implies !(#[trigger] after[j]
                    == Mark::SuiteStarted) by {
                    if j < before.len() {
                        assert(!(before[j] == Mark::SuiteStarted));
                    }
                }
                assert forall|j: int| 0 <= j < after.len() - 1 implies !(#[trigger] after[j]
                    == Mark::SuiteCompleted) by {
                    if j < before.len() - 1 {
                        assert(!(before[j] == Mark::SuiteCompleted));
                    } else {
                        assert(before.last() == before[j]);
                    }
                }
            }
            Step::Start { index, event }
        } else if self.in_flight.len() > 0 {
            Step::Wait
        } else {
            Step::Finish
        }
    }

    /// Records that the case at `index` completed with `outcome` after
    /// `elapsed`, and returns the event that reports it. A case that is not
    /// running is not recorded, and `None` is returned.
    pub fn complete(&mut self, index: usize, outcome: &Result<(), RunError>, elapsed: Elapsed) -> (r:
        Option<Event>)
        requires
            old(self).wf(),
        ensures
            final(self).wf(),
            final(self).names() == old(self).names(),
            final(self).workers() == old(self).workers(),
            final(self).fails_fast() == old(self).fails_fast(),
            final(self).is_finished() == old(self).is_finished(),
            final(self).started() == old(self).started(),
            old(self).running().contains(index) ==> {
                &&& index < old(self).started()
                &&& r is Some
                &&& r->0@ == completion(old(self).names()[index as int], outcome, elapsed)
                &&& final(self).trace() == old(self).trace().push(
                    Mark::Completed(index as int, is_failure(outcome)),
                )
                &&& final(self).running() == old(self).running().remove_value(index)
                &&& final(self).running().len() == old(self).running().len() - 1
                &&& forall|other: usize|
                    final(self).running().contains(other) <==> old(self).running().contains(other)
                        && other != index
                &&& final(self).succeeded() == (old(self).succeeded() && !is_failure(outcome))
            },
            !old(self).running().contains(index) ==> {
                &&& r is None
                &&& final(self).trace() == old(self).trace()
                &&& final(self).running() == old(self).running()
                &&& final(self).succeeded() == old(self).succeeded()
            },
    {
        let mut at: usize = 0;
        while at < self.in_flight.len() && self.in_flight[at] != index
            invariant
                at <= self.in_flight@.len(),
                *self == *old(self),
                forall|k: int| 0 <= k < at ==> self.in_flight@[k] != index,
            decreases self.in_flight@.len() - at,
        {
            at += 1;
        }
        if at == self.in_flight.len() {
            return None;
        }
        let ghost before = self.trace@;
        let ghost flight = self.in_flight@;
        assert(flight[at as int] < self.next);
        let failed = match outcome {
            Ok(_) => false,
            Err(e) => e.status() == RunStatus::Failed,
        };
        let event = case_complete(self.names[index].as_str(), outcome, elapsed);
        self.in_flight.remove(at);
        self.success = self.success && !failed;
        proof {
            let mark = Mark::Completed(index as int, failed);
            let after = before.push(mark);
            self.trace = Ghost(after);
            let left = self.in_flight@;
            assert(flight.index_of_first(index) == Some(at as int)) by {
                flight.index_of_first_ensures(index);
            }
            assert(left == flight.remove_value(index));
            assert(after.drop_last() =~= before);
            assert(after.last() == mark);
            assert forall|k: int| 0 <= k < before.len() implies after.take(k) == before.take(k) by {
                assert(after.take(k) =~= before.take(k));
            }
            assert(after.take(before.len() as int) =~= before);
            assert forall|y: usize| left.contains(y) == (flight.contains(y) && y != index) by {
                remove_contains(flight, at as int, y);
            }
            assert(left.no_duplicates());
            assert forall|i: int| #![trigger completions_of(after, i)]
                completions_of(after, i) == if 0 <= i < self.next && !left.contains(i as usize) {
                    1nat
                } else {
                    0nat
                } by {
                assert(completions_of(after, i) == completions_of(before, i) + if completes(
                    mark,
                    i,
                ) {
                    1nat
                } else {
                    0nat
                });
                if i == index {
                    assert(flight.contains(i as usize));
                }
            }
            assert forall|i: int| #![trigger starts_of(after, i)]
                starts_of(after, i) == if 0 <= i < self.next {
                    1nat
                } else {
                    0nat
                } by {
                assert(starts_of(after, i) == starts_of(before, i));
            }
            assert forall|j: int, a: int, b: int|
                0 <= j < after.len() && #[trigger] starts(after[j], b) && 0 <= a < b implies #[trigger] starts_of(
                after.take(j),
                a,
            ) == 1 by {
                assert(j < before.len());
                assert(starts(before[j], b));
            }
            assert forall|j: int, i: int|
                0 <= j < after.len() && completes(#[trigger] after[j], i) implies #[trigger] starts_of(
                after.take(j),
                i,
            ) == 1 by {
                if j < before.len() {
                    assert(completes(before[j], i));
                }
            }
            assert(self.success == (forall|j: int|
                0 <= j < after.len() ==> !fails(#[trigger] after[j]))) by {
                if self.success {
                    assert forall|j: int| 0 <= j < after.len() implies !fails(
                        #[trigger] after[j],
                    ) by {
                        if j < before.len() {
                            assert(!fails(before[j]));
                        }
                    }
                } else if failed {
                    assert(fails(after[before.len() as int]));
                } else {
                    let j = choose|j: int| 0 <= j < before.len() && fails(#[trigger] before[j]);
                    assert(fails(after[j]));
                }
            }
            assert forall|j: int| 1 <= j < after.len() implies !(#[trigger] after[j]
                == Mark::SuiteStarted) by {
                if j < before.len() {
                    assert(!(before[j] == Mark::SuiteStarted));
                }
            }
            assert forall|j: int| 0 <= j < after.len() - 1 implies !(#[trigger] after[j]
                == Mark::SuiteCompleted) by {
                if j < before.len() - 1 {
                    assert(!(before[j] == Mark::SuiteCompleted));
                } else {
                    assert(before.last() == before[j]);
                }
            }
        }
        Some(event)
    }

    /// Whether the suite can be ended: it has not been, nothing runs, and
    /// every case was started or the run has given up starting them.
    pub open spec fn can_finish(&self) -> bool {
        &&& !self.is_finished()
        &&& self.running().len() == 0
        &&& (self.started() == self.names().len() || self.halted())
    }

    /// Ends the suite after `elapsed` and returns the event that closes
    /// it; `None`, with nothing changed, where the suite cannot be ended.
    pub fn finish_with(&mut self, elapsed: Elapsed) -> (r: Option<Event>)
        requires
            old(self).wf(),
        ensures
            final(self).wf(),
            final(self).names() == old(self).names(),
            final(self).workers() == old(self).workers(),
            final(self).fails_fast() == old(self).fails_fast(),
            final(self).started() == old(self).started(),
            final(self).running() == old(self).running(),
            final(self).succeeded() == old(self).succeeded(),
            old(self).can_finish() ==> {
                &&& r is Some
                &&& r->0@ == EventView::SuiteComplete { elapsed_s: elapsed }
                &&& final(self).trace() == old(self).trace().push(Mark::SuiteCompleted)
                &&& final(self).is_finished()
            },
            !old(self).can_finish() ==> {
                &&& r is None
                &&& final(self).trace() == old(self).trace()
                &&& final(self).is_finished() == old(self).is_finished()
            },
    {
        let halted = self.fail_fast && !self.success;
        if self.finished || self.in_flight.len() > 0 || !(self.next == self.names.len()
            || halted) {
            return None;
        }
        let ghost before = self.trace@;
        self.finished = true;
        proof {
            let mark = Mark::SuiteCompleted;
            let after = before.push(mark);
            self.trace = Ghost(after);
            assert(after.drop_last() =~= before);
            assert(after.last() == mark);
            assert forall|k: int| 0 <= k < before.len() implies after.take(k) == before.take(k) by {
                assert(after.take(k) =~= before.take(k));
            }
            assert forall|i: int| #![trigger completions_of(after, i)]
                completions_of(after, i) == completions_of(before, i) by {}
            assert forall|i: int| #![trigger starts_of(after, i)]
                starts_of(after, i) == starts_of(before, i) by {}
            assert forall|j: int, a: int, b: int|
                0 <= j < after.len() && #[trigger] starts(after[j], b) && 0 <= a < b implies #[trigger] starts_of(
                after.take(j),
                a,
            ) == 1 by {
                assert(j < before.len());
                assert(starts(before[j], b));
            }
            assert forall|j: int, i: int|
                0 <= j < after.len() && completes(#[trigger] after[j], i) implies #[trigger] starts_of(
                after.take(j),
                i,
            ) == 1 by {
                assert(j < before.len());
                assert(completes(before[j], i));
            }
            assert(self.success == (forall|j: int|
                0 <= j < after.len() ==> !fails(#[trigger] after[j]))) by {
                if self.success {
                    assert forall|j: int| 0 <= j < after.len() implies !fails(
                        #[trigger] after[j],
                    ) by {
                        if j < before.len() {
                            assert(!fails(before[j]));
                        }
                    }
                } else {
                    let j = choose|j: int| 0 <= j < before.len() && fails(#[trigger] before[j]);
                    assert(fails(after[j]));
                }
            }
            assert forall|j: int| 1 <= j < after.len() implies !(#[trigger] after[j]
                == Mark::SuiteStarted) by {
                if j < before.len() {
                    assert(!(before[j] == Mark::SuiteStarted));
                }
            }
            assert forall|j: int| 0 <= j < after.len() - 1 implies !(#[trigger] after[j]
                == Mark::SuiteCompleted) by {
                if j < before.len() - 1 {
                    assert(!(before[j] == Mark::SuiteCompleted));
                } else {
                    assert(before.last() == before[j]);
                }
            }
        }
        Some(Event::SuiteComplete { elapsed_s: elapsed })
    }

    /// Ends the suite, with the time since the scheduler was made as its
    /// duration. Everything but the duration is as [`Scheduler::finish_with`]
    /// states it.
    pub fn finish(&mut self) -> (r: Option<Event>)
        requires
            old(self).wf(),
        ensures
            final(self).wf(),
            final(self).names() == old(self).names(),
            final(self).workers() == old(self).workers(),
            final(self).fails_fast() == old(self).fails_fast(),
            final(self).started() == old(self).started(),
            final(self).running() == old(self).running(),
            final(self).succeeded() == old(self).succeeded(),
            old(self).can_finish() ==> {
                &&& r is Some
                &&& r->0@ is SuiteComplete
                &&& final(self).trace() == old(self).trace().push(Mark::SuiteCompleted)
                &&& final(self).is_finished()
            },
            !old(self).can_finish() ==> {
                &&& r is None
                &&& final(self).trace() == old(self).trace()
                &&& final(self).is_finished() == old(self).is_finished()
            },
    {
        let elapsed = time_since(&self.timer);
        self.finish_with(elapsed)
    }
}

/// A case that was started was started exactly once; no other case was
/// started at all.
pub proof fn started_exactly_once(s: &Scheduler, index: int)
    requires
        s.wf(),
    ensures
        starts_of(s.trace(), index) == if 0 <= index < s.started() {
            1nat
        } else {
            0nat
        },
        0 <= s.started() <= s.names().len(),
{
}

/// A case that was started and no longer runs completed exactly once; a
/// case that still runs, or was never started, has not completed.
pub proof fn completed_exactly_once(s: &Scheduler, index: int)
    requires
        s.wf(),
    ensures
        completions_of(s.trace(), index) == if 0 <= index < s.started() && !s.running().contains(
            index as usize,
        ) {
            1nat
        } else {
            0nat
        },
{
}

/// A completion never precedes the start of its case: the history before
/// the completion holds the start.
pub proof fn start_precedes_completion(s: &Scheduler, place: int, index: int)
    requires
        s.wf(),
        0 <= place < s.trace().len(),
        completes(s.trace()[place], index),
    ensures
        starts_of(s.trace().take(place), index) == 1,
{
}

/// Cases start in the order of the list: when a case starts, every case
/// before it in the list has started.
pub proof fn starts_follow_the_list(s: &Scheduler, place: int, earlier: int, later: int)
    requires
        s.wf(),
        0 <= place < s.trace().len(),
        starts(s.trace()[place], later),
        0 <= earlier < later,
    ensures
        starts_of(s.trace().take(place), earlier) == 1,
{
}

/// The opening of the suite is the first entry of the history and only
/// the first; the closing, where there is one, is the last and only the
/// last. So every start and completion lies between the two.
pub proof fn suite_brackets_cases(s: &Scheduler, place: int)
    requires
        s.wf(),
        0 <= place < s.trace().len(),
    ensures
        (s.trace()[place] == Mark::SuiteStarted) <==> place == 0,
        (s.trace()[place] == Mark::SuiteCompleted) ==> place == s.trace().len() - 1,
        s.is_finished() <==> s.trace().last() == Mark::SuiteCompleted,
{
}

/// No more cases run at once than there are workers.
pub proof fn workers_bound_running(s: &Scheduler)
    requires
        s.wf(),
    ensures
        s.running().len() <= s.workers(),
        s.workers() >= 1,
        s.running().no_duplicates(),
        forall|k: int| 0 <= k < s.running().len() ==> #[trigger] s.running()[k] < s.started(),
{
}

/// The run has succeeded so far exactly when no completion was a failure.
pub proof fn success_is_no_failure(s: &Scheduler)
    requires
        s.wf(),
    ensures
        s.succeeded() <==> forall|place: int|
            0 <= place < s.trace().len() ==> !fails(#[trigger] s.trace()[place]),
{
    let trace = s.trace();
    if s.succeeded() {
        assert forall|place: int| 0 <= place < trace.len() implies !fails(
            #[trigger] trace[place],
        ) by {}
    } else {
        let place = choose|place: int| 0 <= place < trace.len() && fails(#[trigger] trace[place]);
        assert(fails(s.trace()[place]));
    }
}

/// Once the suite is closed nothing runs, and every case that was started
/// has started once and completed once. Unless the run gave up after a
/// failure, which it does only where it is told to fail fast, every
/// selected case was started.
pub proof fn finished_run_is_complete(s: &Scheduler)
    requires
        s.wf(),
        s.is_finished(),
    ensures
        s.running().len() == 0,
        forall|index: int|
            0 <= index < s.started() ==> #[trigger] starts_of(s.trace(), index) == 1
                && completions_of(s.trace(), index) == 1,
        !s.halted() ==> s.started() == s.names().len(),
        !s.fails_fast() ==> s.started() == s.names().len(),
{
    assert forall|index: int| 0 <= index < s.started() implies #[trigger] starts_of(
        s.trace(),
        index,
    ) == 1 && completions_of(s.trace(), index) == 1 by {
        completed_exactly_once(s, index);
        started_exactly_once(s, index);
    }
}

proof fn remove_contains<T>(s: Seq<T>, at: int, y: T)
    requires
        0 <= at < s.len(),
        s.no_duplicates(),
    ensures
        s.remove(at).contains(y) == (s.contains(y) && y != s[at]),
        s.remove(at).no_duplicates(),
{
    let r = s.remove(at);
    if s.contains(y) && y != s[at] {
        let k = choose|k: int| 0 <= k < s.len() && s[k] == y;
        if k < at {
            assert(r[k] == y);
        } else {
            assert(r[k - 1] == y);
        }
    }
    if r.contains(y) {
        let k = choose|k: int| 0 <= k < r.len() && r[k] == y;
        if k < at {
            assert(s[k] == y);
        } else {
            assert(s[k + 1] == y);
        }
    }
    assert forall|i: int, j: int| 0 <= i < r.len() && 0 <= j < r.len() && i != j implies r[i]
        != r[j] by {
        let si = if i < at {
            i
        } else {
            i + 1
        };
        let sj = if j < at {
            j
        } else {
            j + 1
        };
        assert(r[i] == s[si]);
        assert(r[j] == s[sj]);
    }
}

} // verus!
