//! What a run is made of: the cases, the choice of renderer, the number of
//! workers, and how the run ends.

use vstd::prelude::*;
use crate::case::Case;
use crate::case::RunError;
use crate::event::Event;
use crate::event::EventView;
use crate::event::RunStatus;
use crate::json::JsonNotifier;
use crate::json::NotifyError;
use crate::json::json_text;
use crate::junit::JunitRunNotifier;
use crate::junit::junit_next;
use crate::junit::junit_text;
use crate::options::OutputFormat;
use crate::options::RunIgnored;
use crate::options::TestOpts;
use crate::options::texts;
use crate::order::names_of;
use crate::pretty::PrettyRunNotifier;
use crate::pretty::PrettyView;
use crate::pretty::pretty_next;
use crate::pretty::pretty_text;
use crate::scheduler::Scheduler;
use crate::state::State;
use crate::summary::absorb;
use crate::terse::TerseListNotifier;
use crate::terse::TerseRunNotifier;
use crate::terse::list_next;
use crate::terse::list_text;
use crate::terse::terse_text;
use crate::text::push_text;

verus! {

/// The cases of a test binary and the arguments it was started with.
pub struct Harness<C: Case> {
    raw: Vec<String>,
    cases: Vec<C>,
}

impl<C: Case> Harness<C> {
    /// The arguments that the harness was made with.
    pub closed spec fn args(&self) -> Seq<Seq<char>> {
        texts(self.raw@)
    }

    /// The cases registered so far, in the order of their registration.
    pub closed spec fn registered(&self) -> Seq<C> {
        self.cases@
    }

    /// A harness without cases, for the arguments `args`.
    pub fn with_args(args: Vec<String>) -> (r: Self)
        ensures
            r.args() == texts(args@),
            r.registered() == Seq::<C>::empty(),
    {
        Harness { raw: args, cases: Vec::new() }
    }

    /// Registers a case.
    pub fn case(self, case: C) -> (r: Self)
        ensures
            r.args() == self.args(),
            r.registered() == self.registered().push(case),
    {
        let mut h = self;
        h.cases.push(case);
        h
    }

    /// Registers cases, in their order.
    pub fn cases(self, cases: Vec<C>) -> (r: Self)
        ensures
            r.args() == self.args(),
            r.registered() == self.registered() + cases@,
    {
        let mut h = self;
        let mut more = cases;
        h.cases.append(&mut more);
        h
    }

    /// The arguments and the cases.
    pub fn into_parts(self) -> (r: (Vec<String>, Vec<C>))
        ensures
            texts(r.0@) == self.args(),
            r.1@ == self.registered(),
    {
        (self.raw, self.cases)
    }
}

/// The names of the cases, in their order.
pub fn case_names<C: Case>(cases: &Vec<C>) -> (r: Vec<String>)
    ensures
        texts(r@) == names_of(cases@),
{
    let mut names: Vec<String> = Vec::new();
    let mut i: usize = 0;
    while i < cases.len()
        invariant
            i <= cases@.len(),
            names@.len() == i,
            forall|k: int| 0 <= k < i ==> #[trigger] names@[k]@ == cases@[k].name_text(),
        decreases cases@.len() - i,
    {
        names.push(cases[i].name().to_owned());
        i += 1;
    }
    assert(texts(names@) =~= names_of(cases@));
    names
}

/// The renderers.
#[derive(Copy, Clone, Debug, PartialEq, Eq, Structural)]
pub enum RendererKind {
    Json,
    TerseList,
    Pretty,
    Terse,
    Junit,
}

/// The renderer of a run: JSON where that format is asked for; else the
/// list where the run only lists; else the renderer of the format.
pub open spec fn renderer_for(format: OutputFormat, list: bool) -> RendererKind {
    match format {
        OutputFormat::Json => RendererKind::Json,
        OutputFormat::Pretty => if list {
            RendererKind::TerseList
        } else {
            RendererKind::Pretty
        },
        OutputFormat::Terse => if list {
            RendererKind::TerseList
        } else {
            RendererKind::Terse
        },
        OutputFormat::Junit => if list {
            RendererKind::TerseList
        } else {
            RendererKind::Junit
        },
    }
}

/// The one consumer of the events of a run.
#[derive(Debug)]
pub enum Renderer {
    Json(JsonNotifier),
    TerseList(TerseListNotifier),
    Pretty(PrettyRunNotifier),
    Terse(TerseRunNotifier),
    Junit(JunitRunNotifier),
}

impl Renderer {
    pub open spec fn kind(&self) -> RendererKind {
        match self {
            Renderer::Json(_) => RendererKind::Json,
            Renderer::TerseList(_) => RendererKind::TerseList,
            Renderer::Pretty(_) => RendererKind::Pretty,
            Renderer::Terse(_) => RendererKind::Terse,
            Renderer::Junit(_) => RendererKind::Junit,
        }
    }

    /// Whether `self` is a renderer that has seen no event.
    pub open spec fn is_fresh(&self) -> bool {
        match self {
            Renderer::Json(_) => true,
            Renderer::TerseList(n) => n.count() == 0,
            Renderer::Pretty(n) => n@ == (PrettyView {
                is_multithreaded: false,
                summary: crate::summary::empty_summary(),
                name_width: 0,
            }),
            Renderer::Terse(n) => n.tally() == crate::summary::empty_summary(),
            Renderer::Junit(n) => n.held() == Seq::<EventView>::empty(),
        }
    }

    /// Tells the renderer whether cases may interleave. Only the pretty
    /// renderer changes with it.
    pub fn threaded(&mut self, yes: bool)
        ensures
            match (*old(self), *final(self)) {
                (Renderer::Pretty(a), Renderer::Pretty(b)) => b@ == (PrettyView {
                    is_multithreaded: yes,
                    ..a@
                }),
                (a, b) => a == b,
            },
    {
        match self {
            Renderer::Pretty(n) => n.threaded(yes),
            _ => {},
        }
    }

    /// What `notify` does to a renderer that was `before` and returns for
    /// an event: each renderer goes by its own rule.
    pub open spec fn renders(
        before: Renderer,
        after: Renderer,
        e: EventView,
        r: Result<String, NotifyError>,
    ) -> bool {
        match (before, after) {
            (Renderer::Json(_), Renderer::Json(_)) => crate::json::rendered(json_text(e), r),
            (Renderer::TerseList(a), Renderer::TerseList(b)) => {
                &&& b.count() == list_next(a.count(), e)
                &&& r matches Ok(text)
                &&& text@ == list_text(b.count(), e)
            },
            (Renderer::Pretty(a), Renderer::Pretty(b)) => {
                &&& b@ == pretty_next(a@, e)
                &&& r matches Ok(text)
                &&& text@ == pretty_text(b@, e)
            },
            (Renderer::Terse(a), Renderer::Terse(b)) => {
                &&& b.tally() == absorb(a.tally(), e)
                &&& r matches Ok(text)
                &&& text@ == terse_text(b.tally(), e)
            },
            (Renderer::Junit(a), Renderer::Junit(b)) => {
                &&& b.held() == junit_next(a.held(), e)
                &&& r matches Ok(text)
                &&& text@ == junit_text(a.held(), e)
            },
            _ => false,
        }
    }

    /// Takes in an event and returns what is to be written for it.
    pub fn notify(&mut self, event: &Event) -> (r: Result<String, NotifyError>)
        ensures
            Self::renders(*old(self), *final(self), event@, r),
    {
        match self {
            Renderer::Json(n) => n.notify(event),
            Renderer::TerseList(n) => Ok(n.notify(event)),
            Renderer::Pretty(n) => Ok(n.notify(event)),
            Renderer::Terse(n) => Ok(n.notify(event)),
            Renderer::Junit(n) => Ok(n.notify(event)),
        }
    }
}

/// The renderer for a run with options `opts`.
pub fn notifier(opts: &TestOpts) -> (r: Renderer)
    ensures
        r.kind() == renderer_for(opts.format, opts.list),
        r.is_fresh(),
{
    match opts.format {
        OutputFormat::Json => Renderer::Json(JsonNotifier::new()),
        _ => if opts.list {
            Renderer::TerseList(TerseListNotifier::new())
        } else {
            match opts.format {
                OutputFormat::Pretty => Renderer::Pretty(PrettyRunNotifier::new()),
                OutputFormat::Terse => Renderer::Terse(TerseRunNotifier::new()),
                _ => Renderer::Junit(JunitRunNotifier::new()),
            }
        },
    }
}

/// The number of workers of a run: one where a single case is selected or
/// no number is given, else the number given, and never less than one.
pub open spec fn workers_for(threads: Option<usize>, selected: nat) -> int {
    if selected == 1 {
        1
    } else {
        match threads {
            Some(t) => if t == 0 {
                1
            } else {
                t as int
            },
            None => 1,
        }
    }
}

/// The number of workers for a run of `selected` cases.
pub fn worker_count(opts: &TestOpts, selected: usize) -> (r: usize)
    ensures
        r == workers_for(opts.test_threads, selected as nat),
{
    if selected == 1 {
        1
    } else {
        match opts.test_threads {
            Some(t) => if t == 0 {
                1
            } else {
                t
            },
            None => 1,
        }
    }
}

/// The context that the cases of a run see: ignored cases run where the
/// options ask for them, alone or with the others.
pub fn run_state(opts: &TestOpts) -> (r: State)
    ensures
        r.runs_ignored() == (opts.run_ignored != RunIgnored::No),
        r.mode_of() == crate::event::RunMode::Test,
{
    let mut state = State::new();
    let run_ignored = match opts.run_ignored {
        RunIgnored::Yes => true,
        RunIgnored::Only => true,
        RunIgnored::No => false,
    };
    state.set_run_ignored(run_ignored);
    state
}

/// The option, if any, that a run cannot honour.
pub open spec fn first_unsupported(opts: &TestOpts) -> Option<Seq<char>> {
    if opts.force_run_in_process {
        Some("`--force-run-in-process` is not yet supported"@)
    } else if opts.exclude_should_panic {
        Some("`--exclude-should-panic` is not yet supported"@)
    } else if opts.nocapture {
        Some("`--nocapture` is not yet supported"@)
    } else if opts.time_options is Some {
        Some("`--report-time` / `--ensure-time` are not yet supported"@)
    } else if opts.options.display_output {
        Some("`--show-output` is not yet supported"@)
    } else if opts.options.panic_abort {
        Some("panic-abort is not yet supported"@)
    } else if opts.logfile is Some {
        Some("`--logfile` is not yet supported"@)
    } else {
        None
    }
}

/// Says which option of `opts`, if any, a run cannot honour.
pub fn unsupported(opts: &TestOpts) -> (r: Option<&'static str>)
    ensures
        crate::json::slice_text(r) == first_unsupported(opts),
{
    if opts.force_run_in_process {
        Some("`--force-run-in-process` is not yet supported")
    } else if opts.exclude_should_panic {
        Some("`--exclude-should-panic` is not yet supported")
    } else if opts.nocapture {
        Some("`--nocapture` is not yet supported")
    } else if opts.time_options.is_some() {
        Some("`--report-time` / `--ensure-time` are not yet supported")
    } else if opts.options.display_output {
        Some("`--show-output` is not yet supported")
    } else if opts.options.panic_abort {
        Some("panic-abort is not yet supported")
    } else if opts.logfile.is_some() {
        Some("`--logfile` is not yet supported")
    } else {
        None
    }
}

/// The scheduler for a run of `cases` with options `opts`, and the event
/// that opens the suite.
pub fn run<C: Case>(opts: &TestOpts, cases: &Vec<C>) -> (r: (Scheduler, Event))
    ensures
        r.0.wf(),
        r.0.names() == names_of(cases@),
        r.0.trace() == seq![crate::scheduler::Mark::SuiteStarted],
        r.0.started() == 0,
        r.0.running().len() == 0,
        r.0.workers() == workers_for(opts.test_threads, cases@.len()),
        r.0.fails_fast() == opts.fail_fast,
        r.0.succeeded(),
        !r.0.is_finished(),
        r.1@ == EventView::SuiteStart,
{
    let names = case_names(cases);
    let threads = worker_count(opts, cases.len());
    Scheduler::new(names, threads, opts.fail_fast)
}

/// The message of a case that crashed: what it crashed with, where that
/// was a text.
pub open spec fn crash_text(payload: Option<Seq<char>>) -> Seq<char> {
    match payload {
        Some(p) => "test panicked: "@ + p,
        None => "test panicked"@,
    }
}

/// The result of a case that crashed: a failure, with the message of the
/// crash.
pub fn crashed(payload: Option<&str>) -> (r: RunError)
    ensures
        r.status_of() == RunStatus::Failed,
        r.cause_text() == Some(crash_text(crate::json::slice_text(payload))),
{
    let mut message = String::new();
    match payload {
        Some(p) => {
            push_text(&mut message, "test panicked: ");
            push_text(&mut message, p);
            assert(message@ =~= "test panicked: "@ + p@);
        },
        None => {
            push_text(&mut message, "test panicked");
            assert(message@ =~= "test panicked"@);
        },
    }
    RunError::with_cause(message)
}

/// The result of a case whose worker ended abnormally after the case had
/// reported a pass: a failure. Any other result stands.
pub fn after_join(outcome: Result<(), RunError>, worker_crashed: bool) -> (r: Result<
    (),
    RunError,
>)
    ensures
        worker_crashed && outcome is Ok ==> r is Err && r->Err_0.status_of() == RunStatus::Failed
            && r->Err_0.cause_text() == Some("panicked after reporting success"@),
        !(worker_crashed && outcome is Ok) ==> r == outcome,
{
    match outcome {
        Ok(_) => if worker_crashed {
            Err(RunError::fail("panicked after reporting success"))
        } else {
            outcome
        },
        Err(_) => outcome,
    }
}

/// Whether the cases are run after their discovery: not where the run
/// only lists them.
pub fn runs_cases(opts: &TestOpts) -> (r: bool)
    ensures
        r == !opts.list,
{
    !opts.list
}

/// How a run ended.
#[derive(Copy, Clone, Debug, PartialEq, Eq, Structural)]
pub enum Ending {
    /// The options were invalid; nothing was discovered.
    Misconfigured,
    /// The cases were listed and none was run.
    Listed,
    /// The cases were run; `success` says that none failed.
    Ran { success: bool },
    /// An event could not be written.
    OutputFailed,
}

pub const ERROR_EXIT_CODE: i32 = 101;

/// The exit code of the process: zero after a list or a run without
/// failures, 101 after failures or lost output, one for invalid options.
pub open spec fn exit_code_of(ending: Ending) -> i32 {
    match ending {
        Ending::Misconfigured => 1,
        Ending::Listed => 0,
        Ending::Ran { success } => if success {
            0
        } else {
            101
        },
        Ending::OutputFailed => 101,
    }
}

pub fn exit_code(ending: Ending) -> (r: i32)
    ensures
        r == exit_code_of(ending),
{
    match ending {
        Ending::Misconfigured => 1,
        Ending::Listed => 0,
        Ending::Ran { success } => if success {
            0
        } else {
            ERROR_EXIT_CODE
        },
        Ending::OutputFailed => ERROR_EXIT_CODE,
    }
}

} // verus!
