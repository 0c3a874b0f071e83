use libtest2::case::Case;
use libtest2::case::RunError;
use libtest2::case::TestKind;
use libtest2::case::Trial;
use libtest2::discover::discover;
use libtest2::discover::discover_with;
use libtest2::event::Elapsed;
use libtest2::event::Event;
use libtest2::event::RunMode;
use libtest2::event::RunStatus;
use libtest2::filter::is_selected;
use libtest2::filter::matches_any_filter;
use libtest2::filter::matches_filter;
use libtest2::harness::after_join;
use libtest2::harness::case_names;
use libtest2::harness::crashed;
use libtest2::harness::exit_code;
use libtest2::harness::notifier;
use libtest2::harness::run;
use libtest2::harness::run_state;
use libtest2::harness::runs_cases;
use libtest2::harness::unsupported;
use libtest2::harness::worker_count;
use libtest2::harness::Ending;
use libtest2::harness::Harness;
use libtest2::harness::Renderer;
use libtest2::options::OutputFormat;
use libtest2::options::RunIgnored;
use libtest2::options::TestOpts;
use libtest2::options::TestTimeOptions;
use libtest2::order::sort_by_name;
use libtest2::order::swap_items;
use libtest2::scheduler::case_complete;
use libtest2::scheduler::Scheduler;
use libtest2::scheduler::Step;
use libtest2::shuffle::get_shuffle_seed;
use libtest2::shuffle::shuffle;
use libtest2::shuffle::shuffle_tests;
use libtest2::shuffle::Rng;
use libtest2::state::State;

type Runner = Box<dyn Fn(&State) -> Result<(), RunError> + Send + Sync>;

fn trial(name: &str, runner: fn(&State) -> Result<(), RunError>) -> Trial<Runner> {
    let runner: Runner = Box::new(runner);
    Trial::test(name, runner)
}

fn pass(_state: &State) -> Result<(), RunError> {
    Ok(())
}

fn fail_x(_state: &State) -> Result<(), RunError> {
    Err(RunError::fail("x"))
}

fn crash(_state: &State) -> Result<(), RunError> {
    Err(crashed(Some("out of luck")))
}

fn passing(names: &[&str]) -> Vec<Trial<Runner>> {
    names.iter().map(|n| trial(n, pass)).collect()
}

fn names_of(cases: &[Trial<Runner>]) -> Vec<String> {
    cases.iter().map(|c| c.name().to_string()).collect()
}

fn strings(items: &[&str]) -> Vec<String> {
    items.iter().map(|i| i.to_string()).collect()
}

fn zero() -> Elapsed {
    Elapsed { secs: 0, nanos: 0 }
}

/// Runs the scheduler to the end. Every case runs when it is started; of
/// the cases that are running, the one started last reports first.
fn drive(names: &[&str], outcomes: &[bool], workers: usize, fail_fast: bool) -> (Vec<Event>, bool) {
    let (mut scheduler, opening) = Scheduler::new(strings(names), workers, fail_fast);
    let mut events = vec![opening];
    let mut running: Vec<usize> = Vec::new();
    loop {
        match scheduler.next_step() {
            Step::Start { index, event } => {
                events.push(event);
                running.push(index);
            }
            Step::Wait => {
                let index = running.pop().expect("a case is running");
                let outcome = if outcomes[index] {
                    Ok(())
                } else {
                    Err(RunError::fail("no"))
                };
                let event = scheduler.complete(index, &outcome, zero());
                events.push(event.expect("the case was running"));
            }
            Step::Finish => break,
        }
    }
    events.push(scheduler.finish_with(zero()).expect("the suite can be closed"));
    (events, scheduler.success())
}

fn starts(events: &[Event], name: &str) -> Vec<usize> {
    let mut places = Vec::new();
    for (place, event) in events.iter().enumerate() {
        if let Event::CaseStart { name: n } = event {
            if n == name {
                places.push(place);
            }
        }
    }
    places
}

fn completions(events: &[Event], name: &str) -> Vec<usize> {
    let mut places = Vec::new();
    for (place, event) in events.iter().enumerate() {
        if let Event::CaseComplete { name: n, .. } = event {
            if n == name {
                places.push(place);
            }
        }
    }
    places
}

#[test]
fn every_case_starts_once_and_completes_once_after_it() {
    let names = ["a", "b", "c", "d", "e"];
    let outcomes = [true, false, true, true, false];
    for workers in 1..=6 {
        let (events, success) = drive(&names, &outcomes, workers, false);
        assert!(!success);
        assert_eq!(events.len(), 2 + 2 * names.len());
        assert_eq!(events.first(), Some(&Event::SuiteStart));
        assert!(matches!(events.last(), Some(Event::SuiteComplete { .. })));
        for name in names {
            let started = starts(&events, name);
            let completed = completions(&events, name);
            assert_eq!(started.len(), 1);
            assert_eq!(completed.len(), 1);
            assert!(started[0] < completed[0]);
        }
    }
}

#[test]
fn cases_start_in_the_order_of_the_list() {
    let names = ["a", "b", "c", "d"];
    let (events, _) = drive(&names, &[true, true, true, true], 3, false);
    let order: Vec<usize> = names.iter().map(|n| starts(&events, n)[0]).collect();
    assert!(order.windows(2).all(|pair| pair[0] < pair[1]));
}

#[test]
fn no_more_cases_run_than_there_are_workers() {
    let (mut scheduler, _) = Scheduler::new(strings(&["a", "b", "c"]), 2, false);
    assert!(scheduler.is_multithreaded());
    assert!(matches!(scheduler.next_step(), Step::Start { index: 0, .. }));
    assert!(matches!(scheduler.next_step(), Step::Start { index: 1, .. }));
    assert!(matches!(scheduler.next_step(), Step::Wait));
    assert!(scheduler.complete(0, &Ok(()), zero()).is_some());
    assert!(matches!(scheduler.next_step(), Step::Start { index: 2, .. }));
    assert!(matches!(scheduler.next_step(), Step::Wait));
}

#[test]
fn sequential_run_alternates_start_and_completion() {
    let (events, success) = drive(&["a", "b"], &[true, true], 1, false);
    assert!(success);
    let shape: Vec<&str> = events
        .iter()
        .map(|e| match e {
            Event::SuiteStart => "suite-start",
            Event::CaseStart { .. } => "start",
            Event::CaseComplete { .. } => "complete",
            Event::SuiteComplete { .. } => "suite-complete",
            _ => "other",
        })
        .collect();
    assert_eq!(
        shape,
        vec!["suite-start", "start", "complete", "start", "complete", "suite-complete"]
    );
}

#[test]
fn no_workers_counts_as_one() {
    let (scheduler, _) = Scheduler::new(strings(&["a"]), 0, false);
    assert!(!scheduler.is_multithreaded());
}

#[test]
fn fail_fast_starts_nothing_after_a_failure() {
    let (events, success) = drive(&["a", "b", "c"], &[false, true, true], 1, true);
    assert!(!success);
    assert_eq!(starts(&events, "a").len(), 1);
    assert_eq!(completions(&events, "a").len(), 1);
    assert!(starts(&events, "b").is_empty());
    assert!(starts(&events, "c").is_empty());
    assert!(matches!(events.last(), Some(Event::SuiteComplete { .. })));
}

#[test]
fn fail_fast_lets_running_cases_report() {
    let (mut scheduler, _) = Scheduler::new(strings(&["a", "b", "c"]), 2, true);
    assert!(matches!(scheduler.next_step(), Step::Start { index: 0, .. }));
    assert!(matches!(scheduler.next_step(), Step::Start { index: 1, .. }));
    let failed = scheduler.complete(0, &Err(RunError::fail("no")), zero());
    assert!(matches!(
        failed,
        Some(Event::CaseComplete { status: Some(RunStatus::Failed), .. })
    ));
    assert!(scheduler.finish_with(zero()).is_none());
    assert!(matches!(scheduler.next_step(), Step::Wait));
    let passed = scheduler.complete(1, &Ok(()), zero());
    assert!(matches!(passed, Some(Event::CaseComplete { status: None, .. })));
    assert!(matches!(scheduler.next_step(), Step::Finish));
    assert!(scheduler.finish_with(zero()).is_some());
    assert!(!scheduler.success());
}

#[test]
fn a_case_that_is_not_running_is_not_recorded() {
    let (mut scheduler, _) = Scheduler::new(strings(&["a", "b"]), 1, false);
    assert!(scheduler.complete(0, &Ok(()), zero()).is_none());
    assert!(matches!(scheduler.next_step(), Step::Start { index: 0, .. }));
    assert!(scheduler.complete(1, &Ok(()), zero()).is_none());
    assert!(scheduler.complete(7, &Ok(()), zero()).is_none());
    assert!(scheduler.complete(0, &Ok(()), zero()).is_some());
    assert!(scheduler.complete(0, &Ok(()), zero()).is_none());
}

#[test]
fn a_suite_closes_once_and_only_when_nothing_is_left() {
    let (mut scheduler, _) = Scheduler::new(strings(&["a"]), 1, false);
    assert!(scheduler.finish_with(zero()).is_none());
    assert!(matches!(scheduler.next_step(), Step::Start { index: 0, .. }));
    assert!(scheduler.finish_with(zero()).is_none());
    assert!(scheduler.complete(0, &Ok(()), zero()).is_some());
    let closing = scheduler.finish_with(Elapsed { secs: 3, nanos: 7 });
    assert_eq!(
        closing,
        Some(Event::SuiteComplete { elapsed_s: Elapsed { secs: 3, nanos: 7 } })
    );
    assert!(scheduler.finish_with(zero()).is_none());
    assert!(scheduler.finish().is_none());
    assert!(matches!(scheduler.next_step(), Step::Finish));
}

#[test]
fn an_empty_suite_finishes_at_once() {
    let (events, success) = drive(&[], &[], 4, false);
    assert!(success);
    assert_eq!(events.len(), 2);
}

#[test]
fn the_scheduler_knows_its_names() {
    let (scheduler, _) = Scheduler::new(strings(&["a", "b"]), 1, false);
    assert_eq!(scheduler.name_of(1), Some("b"));
    assert_eq!(scheduler.name_of(2), None);
}

#[test]
fn a_crash_fails_its_case_alone() {
    let cases = vec![trial("first", pass), trial("second", crash), trial("third", pass)];
    let opts = TestOpts::default();
    let state = run_state(&opts);
    let (mut scheduler, _) = run(&opts, &cases);
    let mut seen = Vec::new();
    loop {
        match scheduler.next_step() {
            Step::Start { index, .. } => {
                let outcome = cases[index].run(&state);
                seen.push(scheduler.complete(index, &outcome, zero()).expect("it ran"));
            }
            Step::Wait => unreachable!(),
            Step::Finish => break,
        }
    }
    assert_eq!(
        seen,
        vec![
            Event::CaseComplete {
                name: "first".to_string(),
                mode: RunMode::Test,
                status: None,
                message: None,
                elapsed_s: Some(zero()),
            },
            Event::CaseComplete {
                name: "second".to_string(),
                mode: RunMode::Test,
                status: Some(RunStatus::Failed),
                message: Some("test panicked: out of luck".to_string()),
                elapsed_s: Some(zero()),
            },
            Event::CaseComplete {
                name: "third".to_string(),
                mode: RunMode::Test,
                status: None,
                message: None,
                elapsed_s: Some(zero()),
            },
        ]
    );
    assert!(!scheduler.success());
}

#[test]
fn a_crash_without_a_message_says_so() {
    let error = crashed(None);
    assert_eq!(error.status(), RunStatus::Failed);
    assert_eq!(error.cause(), Some("test panicked"));
}

#[test]
fn a_worker_that_ends_badly_after_a_pass_fails_the_case() {
    let late = after_join(Ok(()), true).expect_err("a failure");
    assert_eq!(late.status(), RunStatus::Failed);
    assert_eq!(late.cause(), Some("panicked after reporting success"));
    assert!(after_join(Ok(()), false).is_ok());
    let kept = after_join(Err(RunError::ignore_for("slow".to_string())), true).expect_err("kept");
    assert_eq!(kept.status(), RunStatus::Ignored);
    assert_eq!(kept.cause(), Some("slow"));
}

#[test]
fn completion_reports_the_outcome() {
    let ignored = case_complete("frog", &Err(RunError::ignore()), zero());
    assert_eq!(
        ignored,
        Event::CaseComplete {
            name: "frog".to_string(),
            mode: RunMode::Test,
            status: Some(RunStatus::Ignored),
            message: None,
            elapsed_s: Some(zero()),
        }
    );
    let failed = case_complete("dog", &Err(RunError::with_cause("bad".to_string())), zero());
    assert!(matches!(
        failed,
        Event::CaseComplete { status: Some(RunStatus::Failed), message: Some(m), .. } if m == "bad"
    ));
}

#[test]
fn three_cases_without_filters_are_all_selected() {
    let mut cases = passing(&["foo", "bar", "barro"]);
    let opts = TestOpts::default();
    let events = discover_with(&opts, &mut cases, None, zero());
    assert_eq!(
        events,
        vec![
            Event::DiscoverStart,
            Event::DiscoverCase { name: "bar".to_string(), mode: RunMode::Test, run: true },
            Event::DiscoverCase { name: "barro".to_string(), mode: RunMode::Test, run: true },
            Event::DiscoverCase { name: "foo".to_string(), mode: RunMode::Test, run: true },
            Event::DiscoverComplete { elapsed_s: zero(), seed: None },
        ]
    );
    assert_eq!(names_of(&cases), vec!["bar", "barro", "foo"]);
}

#[test]
fn a_filter_selects_the_names_that_hold_it() {
    let mut cases = passing(&["foo", "bar", "barro"]);
    let mut opts = TestOpts::default();
    opts.filters = strings(&["bar"]);
    let events = discover_with(&opts, &mut cases, None, zero());
    assert_eq!(names_of(&cases), vec!["bar", "barro"]);
    assert_eq!(
        events[3],
        Event::DiscoverCase { name: "foo".to_string(), mode: RunMode::Test, run: false }
    );
    let mut summary = notifier(&opts);
    let mut out = String::new();
    for event in &events {
        out.push_str(&summary.notify(event).expect("rendered"));
    }
    let (mut scheduler, opening) = run(&opts, &cases);
    out.push_str(&summary.notify(&opening).expect("rendered"));
    while let Step::Start { index, event } = scheduler.next_step() {
        out.push_str(&summary.notify(&event).expect("rendered"));
        let done = scheduler.complete(index, &Ok(()), zero()).expect("it ran");
        out.push_str(&summary.notify(&done).expect("rendered"));
    }
    let closing = scheduler.finish_with(zero()).expect("closed");
    out.push_str(&summary.notify(&closing).expect("rendered"));
    let plain = anstream::adapter::strip_str(&out).to_string();
    assert!(plain.contains("2 passed; 0 failed; 0 ignored; 1 filtered out"));
}

#[test]
fn listing_announces_every_case_and_runs_none() {
    let mut cases = passing(&["c", "a", "b", "d"]);
    let mut opts = TestOpts::default();
    opts.list = true;
    opts.skip = strings(&["b"]);
    let events = discover(&opts, &mut cases, 0);
    assert_eq!(events.len(), 4 + 2);
    let announced = events.iter().filter(|e| matches!(e, Event::DiscoverCase { .. })).count();
    assert_eq!(announced, 4);
    assert!(events.iter().all(|e| matches!(
        e,
        Event::DiscoverStart | Event::DiscoverCase { .. } | Event::DiscoverComplete { .. }
    )));
    assert!(!runs_cases(&opts));
    assert!(runs_cases(&TestOpts::default()));
    match events.last() {
        Some(Event::DiscoverComplete { elapsed_s, seed }) => {
            assert!(elapsed_s.nanos < 1_000_000_000);
            assert_eq!(*seed, None);
        }
        _ => unreachable!(),
    }
}

#[test]
fn selection_composes_filters_and_skips() {
    let filters = strings(&["bar", "zoo"]);
    let skip = strings(&["barro"]);
    let none: Vec<String> = Vec::new();
    for name in ["foo", "bar", "barro", "zoo", "kazoo", ""] {
        let in_a_filter = filters.iter().any(|f| name.contains(f.as_str()));
        let skipped = skip.iter().any(|s| name.contains(s.as_str()));
        assert_eq!(is_selected(name, &filters, &skip, false), in_a_filter && !skipped);
        assert_eq!(matches_any_filter(name, &filters, false), in_a_filter);
        assert_eq!(is_selected(name, &none, &skip, false), !skipped);
        assert!(is_selected(name, &none, &none, false));
        assert!(is_selected(name, &none, &none, true));
    }
    assert!(is_selected("bar", &filters, &skip, true));
    assert!(!is_selected("kazoo", &filters, &skip, true));
    assert!(is_selected("barro", &filters, &strings(&["bar"]), true) == false);
    assert!(!is_selected("bar", &filters, &strings(&["bar"]), true));
}

#[test]
fn a_pattern_matches_exactly_or_anywhere() {
    assert!(matches_filter("barro", "bar", false));
    assert!(matches_filter("barro", "rro", false));
    assert!(matches_filter("barro", "", false));
    assert!(matches_filter("", "", false));
    assert!(!matches_filter("bar", "barro", false));
    assert!(!matches_filter("barro", "bro", false));
    assert!(!matches_filter("barro", "bar", true));
    assert!(matches_filter("bar", "bar", true));
    assert!(!matches_filter("bar", "", true));
    assert!(matches_filter("caf\u{e9}::na\u{ef}ve", "\u{e9}::na", false));
}

#[test]
fn the_same_seed_gives_the_same_order() {
    let names = ["owl", "cat", "fly", "dog", "fox", "bear", "frog", "bunny"];
    for seed in [0u64, 1, 2, 77, u64::MAX] {
        let mut first = passing(&names);
        let mut second = passing(&names);
        shuffle_tests(seed, &mut first);
        shuffle_tests(seed, &mut second);
        assert_eq!(names_of(&first), names_of(&second));
        let mut sorted = names_of(&first);
        sorted.sort();
        let mut expected = strings(&names);
        expected.sort();
        assert_eq!(sorted, expected);
    }
}

#[test]
fn seeds_one_and_two_give_the_known_orders() {
    let names = ["bear", "bunny", "cat", "dog", "fly", "fox", "frog", "owl"];
    let mut one = passing(&names);
    shuffle_tests(1, &mut one);
    assert_eq!(
        names_of(&one),
        vec!["fox", "cat", "fly", "bear", "owl", "frog", "bunny", "dog"]
    );
    let mut two = passing(&names);
    shuffle_tests(2, &mut two);
    assert_eq!(
        names_of(&two),
        vec!["owl", "dog", "fox", "frog", "bear", "fly", "bunny", "cat"]
    );
}

#[test]
fn a_generator_is_set_by_its_seed() {
    let mut a = Rng::new(5, 9);
    let mut b = Rng::new(5, 9);
    let first = a.rand_u64();
    assert_eq!(first, b.rand_u64());
    assert_eq!(a.state, first);
    assert_ne!(first, 5);
    let next = a.rand_range(10, 20);
    assert!((10..20).contains(&next));
    assert_eq!(next, 10 + a.state % 10);
    assert_eq!(b.rand_range(10, 20), next);
    let mut c = Rng::new(6, 9);
    assert_ne!(c.rand_u64(), first);
    let mut items = vec![1, 2, 3, 4, 5, 6];
    let mut again = items.clone();
    shuffle(&mut Rng::new(3, 4), &mut items);
    shuffle(&mut Rng::new(3, 4), &mut again);
    assert_eq!(items, again);
    items.sort();
    assert_eq!(items, vec![1, 2, 3, 4, 5, 6]);
}

#[test]
fn an_explicit_seed_comes_before_the_clock() {
    let mut opts = TestOpts::default();
    assert_eq!(get_shuffle_seed(&opts, 99), None);
    opts.shuffle = true;
    assert_eq!(get_shuffle_seed(&opts, 99), Some(99));
    opts.shuffle_seed = Some(7);
    assert_eq!(get_shuffle_seed(&opts, 99), Some(7));
    opts.shuffle = false;
    assert_eq!(get_shuffle_seed(&opts, 99), Some(7));
}

#[test]
fn discovery_reports_the_seed_it_shuffled_with() {
    let mut cases = passing(&["bear", "bunny", "cat", "dog", "fly", "fox", "frog", "owl"]);
    let mut opts = TestOpts::default();
    opts.shuffle_seed = Some(1);
    let events = discover(&opts, &mut cases, 5);
    assert_eq!(
        names_of(&cases),
        vec!["fox", "cat", "fly", "bear", "owl", "frog", "bunny", "dog"]
    );
    assert!(matches!(events.last(), Some(Event::DiscoverComplete { seed: Some(1), .. })));
    assert!(matches!(&events[1], Event::DiscoverCase { name, .. } if name == "fox"));
}

#[test]
fn cases_sort_by_the_characters_of_their_names() {
    let mut cases = passing(&["b", "", "ab", "a", "B", "abc", "\u{e9}", "z"]);
    sort_by_name(&mut cases);
    assert_eq!(names_of(&cases), vec!["", "B", "a", "ab", "abc", "b", "z", "\u{e9}"]);
    let mut items = vec!['x', 'y', 'z'];
    swap_items(&mut items, 2, 0);
    assert_eq!(items, vec!['z', 'y', 'x']);
    swap_items(&mut items, 1, 1);
    assert_eq!(items, vec!['z', 'y', 'x']);
}

#[test]
fn a_single_case_runs_on_one_worker() {
    let mut opts = TestOpts::default();
    assert_eq!(worker_count(&opts, 5), 1);
    opts.test_threads = Some(4);
    assert_eq!(worker_count(&opts, 5), 4);
    assert_eq!(worker_count(&opts, 1), 1);
    assert_eq!(worker_count(&opts, 0), 4);
    opts.test_threads = Some(0);
    assert_eq!(worker_count(&opts, 5), 1);
}

#[test]
fn options_that_cannot_be_honoured_are_named() {
    let mut opts = TestOpts::default();
    assert_eq!(unsupported(&opts), None);
    opts.logfile = Some("log".to_string());
    assert_eq!(unsupported(&opts), Some("`--logfile` is not yet supported"));
    opts.options.panic_abort = true;
    assert_eq!(unsupported(&opts), Some("panic-abort is not yet supported"));
    opts.options.display_output = true;
    assert_eq!(unsupported(&opts), Some("`--show-output` is not yet supported"));
    opts.time_options = Some(TestTimeOptions::default());
    assert_eq!(
        unsupported(&opts),
        Some("`--report-time` / `--ensure-time` are not yet supported")
    );
    opts.nocapture = true;
    assert_eq!(unsupported(&opts), Some("`--nocapture` is not yet supported"));
    opts.exclude_should_panic = true;
    assert_eq!(unsupported(&opts), Some("`--exclude-should-panic` is not yet supported"));
    opts.force_run_in_process = true;
    assert_eq!(unsupported(&opts), Some("`--force-run-in-process` is not yet supported"));
}

#[test]
fn exit_codes_tell_how_the_run_ended() {
    assert_eq!(exit_code(Ending::Misconfigured), 1);
    assert_eq!(exit_code(Ending::Listed), 0);
    assert_eq!(exit_code(Ending::Ran { success: true }), 0);
    assert_eq!(exit_code(Ending::Ran { success: false }), 101);
    assert_eq!(exit_code(Ending::OutputFailed), 101);
}

#[test]
fn the_renderer_follows_the_format_and_the_list_flag() {
    let mut opts = TestOpts::default();
    assert!(matches!(notifier(&opts), Renderer::Pretty(_)));
    opts.format = OutputFormat::Terse;
    assert!(matches!(notifier(&opts), Renderer::Terse(_)));
    opts.format = OutputFormat::Junit;
    assert!(matches!(notifier(&opts), Renderer::Junit(_)));
    opts.list = true;
    assert!(matches!(notifier(&opts), Renderer::TerseList(_)));
    opts.format = OutputFormat::Json;
    assert!(matches!(notifier(&opts), Renderer::Json(_)));
    opts.list = false;
    assert!(matches!(notifier(&opts), Renderer::Json(_)));
}

#[test]
fn a_case_opts_out_unless_ignored_cases_run() {
    let mut state = State::new();
    assert_eq!(state.current_mode(), RunMode::Test);
    assert!(!state.should_run_ignored());
    let bare = state.ignore().expect_err("ignored");
    assert_eq!(bare.status(), RunStatus::Ignored);
    assert_eq!(bare.cause(), None);
    let told = state.ignore_for("slow").expect_err("ignored");
    assert_eq!(told.status(), RunStatus::Ignored);
    assert_eq!(told.cause(), Some("slow"));
    state.set_run_ignored(true);
    assert!(state.ignore().is_ok());
    assert!(state.ignore_for("slow").is_ok());
    assert_eq!(state.current_mode(), RunMode::Test);
    state.set_mode(RunMode::Bench);
    assert_eq!(state.current_mode(), RunMode::Bench);
    assert!(state.should_run_ignored());
    let mut opts = TestOpts::default();
    assert!(!run_state(&opts).should_run_ignored());
    opts.run_ignored = RunIgnored::Only;
    assert!(run_state(&opts).should_run_ignored());
    opts.run_ignored = RunIgnored::Yes;
    assert!(run_state(&opts).should_run_ignored());
}

#[test]
fn a_trial_is_a_case_with_a_name_and_a_body() {
    let case = trial("mod::check", fail_x);
    assert_eq!(case.name(), "mod::check");
    assert_eq!(case.kind(), TestKind::Unknown);
    assert_eq!(TestKind::default(), TestKind::Unknown);
    assert!(case.source().is_none());
    assert!(!case.exclusive(&State::new()));
    let error = case.run(&State::new()).expect_err("it fails");
    assert_eq!(error.status(), RunStatus::Failed);
    assert_eq!(error.cause(), Some("x"));
}

#[test]
fn a_harness_keeps_its_cases_in_order() {
    let harness = Harness::with_args(strings(&["bin", "--list"]))
        .case(trial("b", pass))
        .cases(passing(&["c", "a"]))
        .case(trial("d", pass));
    let (args, cases) = harness.into_parts();
    assert_eq!(args, strings(&["bin", "--list"]));
    assert_eq!(names_of(&cases), vec!["b", "c", "a", "d"]);
    assert_eq!(case_names(&cases), strings(&["b", "c", "a", "d"]));
}
