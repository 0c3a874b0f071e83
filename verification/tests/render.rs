use libtest2::event::Elapsed;
use libtest2::event::Event;
use libtest2::event::RunMode;
use libtest2::event::RunStatus;
use libtest2::json::json_record;
use libtest2::json::JsonNotifier;
use libtest2::junit::parse_class_name;
use libtest2::junit::write_document;
use libtest2::junit::JunitRunNotifier;
use libtest2::pretty::PrettyRunNotifier;
use libtest2::style::push_styled;
use libtest2::style::Paint;
use libtest2::summary::Summary;
use libtest2::terse::TerseListNotifier;
use libtest2::terse::TerseRunNotifier;
use libtest2::text::byte_len;
use libtest2::text::chars_of;
use libtest2::text::decimal_string;
use libtest2::text::push_decimal;
use libtest2::text::push_padded;
use libtest2::text::push_repeated;
use libtest2::text::push_text;
use libtest2::text::sorts_before;
use libtest2::text::string_of;

fn zero() -> Elapsed {
    Elapsed { secs: 0, nanos: 0 }
}

fn announce(name: &str, run: bool) -> Event {
    Event::DiscoverCase { name: name.to_string(), mode: RunMode::Test, run }
}

fn start(name: &str) -> Event {
    Event::CaseStart { name: name.to_string() }
}

fn complete(name: &str, status: Option<RunStatus>, message: Option<&str>) -> Event {
    Event::CaseComplete {
        name: name.to_string(),
        mode: RunMode::Test,
        status,
        message: message.map(|m| m.to_string()),
        elapsed_s: Some(zero()),
    }
}

/// The events of a run of `cat`, `dog` and `fox`, of which `dog` fails
/// with the message `x`.
fn cat_dog_fox() -> Vec<Event> {
    vec![
        Event::DiscoverStart,
        announce("cat", true),
        announce("dog", true),
        announce("fox", true),
        Event::DiscoverComplete { elapsed_s: zero(), seed: None },
        Event::SuiteStart,
        start("cat"),
        complete("cat", None, None),
        start("dog"),
        complete("dog", Some(RunStatus::Failed), Some("x")),
        start("fox"),
        complete("fox", None, None),
        Event::SuiteComplete { elapsed_s: Elapsed { secs: 1, nanos: 234_567_890 } },
    ]
}

fn plain(styled: &str) -> String {
    anstream::adapter::strip_str(styled).to_string()
}

#[test]
fn terse_writes_one_character_per_case() {
    let mut renderer = TerseRunNotifier::new();
    let mut pieces = Vec::new();
    for event in cat_dog_fox() {
        pieces.push(renderer.notify(&event));
    }
    assert_eq!(pieces[5], "\nrunning 3 tests\n");
    assert_eq!(pieces[6], "");
    assert_eq!(pieces[7], "\u{1b}[32m.\u{1b}[0m");
    assert_eq!(pieces[9], "\u{1b}[31mF\u{1b}[0m");
    assert_eq!(pieces[11], "\u{1b}[32m.\u{1b}[0m");
    let marks: String = [&pieces[7], &pieces[9], &pieces[11]].iter().map(|p| plain(p)).collect();
    assert_eq!(marks, ".F.");
    assert_eq!(
        plain(&pieces[12]),
        "\nfailures:\n\n---- dog ----\nx\n\n\nfailures:\n    dog\n\ntest result: FAILED. \
         2 passed; 1 failed; 0 ignored; 0 filtered out; finished in 1.235s\n\n"
    );
    let ignored = renderer.notify(&complete("bee", Some(RunStatus::Ignored), None));
    assert_eq!(ignored, "\u{1b}[33mi\u{1b}[0m");
}

#[test]
fn pretty_writes_one_line_per_case() {
    let mut renderer = PrettyRunNotifier::new();
    let mut out = String::new();
    let mut events = cat_dog_fox();
    events.insert(1, announce("elephant", false));
    events.insert(1, announce("bear", true));
    events.insert(10, start("bear"));
    events.insert(11, complete("bear", Some(RunStatus::Ignored), Some("fails")));
    for event in &events {
        out.push_str(&renderer.notify(event));
    }
    assert_eq!(
        plain(&out),
        "\nrunning 4 tests\ntest cat  ... ok\ntest bear ... ignored\ntest dog  ... FAILED\n\
         test fox  ... ok\n\nfailures:\n\n---- dog ----\nx\n\n\nfailures:\n    dog\n\n\
         test result: FAILED. 2 passed; 1 failed; 1 ignored; 1 filtered out; finished in 1.235s\n\n"
    );
    assert!(out.contains("\u{1b}[32mok\u{1b}[0m"));
    assert!(out.contains("\u{1b}[31mFAILED\u{1b}[0m"));
    assert!(out.contains("\u{1b}[33mignored\u{1b}[0m"));
}

#[test]
fn pretty_names_the_case_on_completion_where_cases_interleave() {
    let mut renderer = PrettyRunNotifier::new();
    renderer.threaded(true);
    assert_eq!(renderer.notify(&announce("long_name", true)), "");
    assert_eq!(renderer.notify(&announce("a_much_longer_name", false)), "");
    assert_eq!(renderer.notify(&start("cat")), "");
    assert_eq!(plain(&renderer.notify(&complete("cat", None, None))), "test cat       ... ok\n");
    renderer.threaded(false);
    assert_eq!(renderer.notify(&start("cat")), "test cat       ... ");
    assert_eq!(plain(&renderer.notify(&complete("cat", None, None))), "ok\n");
    assert_eq!(renderer.notify(&start("a_name_that_is_too_long")), "test a_name_that_is_too_long ... ");
}

#[test]
fn the_name_column_is_as_wide_as_the_longest_name_in_bytes() {
    let mut renderer = PrettyRunNotifier::new();
    renderer.notify(&announce("\u{e9}\u{e9}", true));
    assert_eq!(byte_len("\u{e9}\u{e9}"), 4);
    assert_eq!(renderer.notify(&start("ab")), "test ab   ... ");
    assert_eq!(renderer.notify(&start("\u{e9}\u{e9}")), "test \u{e9}\u{e9}   ... ");
}

#[test]
fn the_list_names_the_selected_cases_and_counts_them() {
    let mut renderer = TerseListNotifier::new();
    let mut out = String::new();
    out.push_str(&renderer.notify(&Event::DiscoverStart));
    out.push_str(&renderer.notify(&announce("bear", true)));
    out.push_str(&renderer.notify(&announce("bunny", false)));
    out.push_str(&renderer.notify(&Event::DiscoverCase {
        name: "cat".to_string(),
        mode: RunMode::Bench,
        run: true,
    }));
    out.push_str(&renderer.notify(&Event::DiscoverComplete { elapsed_s: zero(), seed: None }));
    out.push_str(&renderer.notify(&Event::SuiteStart));
    out.push_str(&renderer.notify(&complete("bear", None, None)));
    assert_eq!(out, "bear: test\ncat: bench\n\n2 tests\n\n");
}

#[test]
fn the_summary_counts_what_the_events_say() {
    let mut summary = Summary::new();
    assert!(!summary.has_failed());
    assert_eq!(summary.write_start(), "\nrunning 0 tests\n");
    for event in cat_dog_fox() {
        summary.notify(&event);
    }
    summary.notify(&announce("zebra", false));
    summary.notify(&complete("owl", Some(RunStatus::Ignored), Some("slow")));
    assert!(summary.has_failed());
    assert_eq!(summary.num_run(), 3);
    assert_eq!(summary.num_filtered_out(), 1);
    assert_eq!(summary.num_passed(), 2);
    assert_eq!(summary.num_failed(), 1);
    assert_eq!(summary.num_ignored(), 1);
    assert_eq!(summary.seed(), None);
    assert_eq!(summary.write_start(), "\nrunning 3 tests\n");
    assert_eq!(summary.write_failures(), "\nfailures:\n\n---- dog ----\nx\n\n\nfailures:\n    dog\n");
    assert_eq!(
        plain(&summary.write_result()),
        "\ntest result: FAILED. 2 passed; 1 failed; 1 ignored; 1 filtered out; finished in 1.235s\n\n"
    );
    assert_eq!(
        summary.write_complete(),
        format!("{}{}", summary.write_failures(), summary.write_result())
    );
}

#[test]
fn three_passes_make_a_run_that_is_ok() {
    let mut summary = Summary::new();
    summary.notify(&announce("foo", true));
    summary.notify(&announce("bar", true));
    summary.notify(&announce("barro", true));
    summary.notify(&complete("bar", None, None));
    summary.notify(&complete("barro", None, None));
    summary.notify(&complete("foo", None, None));
    summary.notify(&Event::SuiteComplete { elapsed_s: zero() });
    assert_eq!(summary.write_failures(), "");
    assert_eq!(
        summary.write_complete(),
        "\ntest result: \u{1b}[32mok\u{1b}[0m. 3 passed; 0 failed; 0 ignored; 0 filtered out; \
         finished in 0.000s\n\n"
    );
}

#[test]
fn one_selected_case_is_one_test_and_the_seed_is_shown() {
    let mut summary = Summary::new();
    summary.notify(&announce("only", true));
    assert_eq!(summary.write_start(), "\nrunning 1 test\n");
    summary.notify(&Event::DiscoverComplete { elapsed_s: zero(), seed: Some(42) });
    assert_eq!(summary.seed(), Some(42));
    assert_eq!(summary.write_start(), "\nrunning 1 test (shuffle seed: 42)\n");
    summary.notify(&announce("other", true));
    assert_eq!(summary.write_start(), "\nrunning 2 tests (shuffle seed: 42)\n");
}

#[test]
fn failures_are_listed_by_name_with_the_latest_message() {
    let mut summary = Summary::new();
    summary.notify(&complete("m", Some(RunStatus::Failed), Some("first")));
    summary.notify(&complete("z", Some(RunStatus::Failed), None));
    summary.notify(&complete("a", Some(RunStatus::Failed), Some("early")));
    summary.notify(&complete("m", Some(RunStatus::Failed), Some("second")));
    summary.notify(&complete("ma", Some(RunStatus::Failed), Some("between")));
    assert_eq!(summary.num_failed(), 5);
    assert_eq!(
        summary.write_failures(),
        "\nfailures:\n\n---- a ----\nearly\n\n---- m ----\nsecond\n\n---- ma ----\nbetween\n\n\n\
         failures:\n    a\n    m\n    ma\n    z\n"
    );
}

#[test]
fn durations_show_three_decimals() {
    let shown = |secs: u64, nanos: u32| Elapsed { secs, nanos }.display();
    assert_eq!(shown(0, 0), "0.000s");
    assert_eq!(shown(1, 500_000_000), "1.500s");
    assert_eq!(shown(0, 1_499_999), "0.001s");
    assert_eq!(shown(0, 499_999), "0.000s");
    assert_eq!(shown(0, 500_000), "0.001s");
    assert_eq!(shown(0, 999_500_000), "1.000s");
    assert_eq!(shown(12, 34_000_000), "12.034s");
    assert_eq!(shown(0, 2_000_000_000), "2.000s");
    assert_eq!(shown(u64::MAX, 999_999_999), "18446744073709551616.000s");
}

#[test]
fn durations_go_on_the_wire_in_the_shortest_notation() {
    let wire = |secs: u64, nanos: u32| Elapsed { secs, nanos }.wire();
    assert_eq!(wire(0, 0), "0");
    assert_eq!(wire(1, 0), "1");
    assert_eq!(wire(1, 500_000_000), "1.5");
    assert_eq!(wire(0, 12_345), "0.000012345");
    assert_eq!(wire(0, 1), "0.000000001");
    assert_eq!(wire(3, 120_000_000), "3.12");
    assert_eq!(wire(0, 1_000_000_001), "1.000000001");
    assert_eq!(Elapsed::default(), zero());
}

#[test]
fn every_event_has_its_record() {
    let mut renderer = JsonNotifier::new();
    let record = |renderer: &mut JsonNotifier, event: Event| renderer.notify(&event).expect("encoded");
    assert_eq!(record(&mut renderer, Event::DiscoverStart), "{\"event\":\"discover-start\"}\n");
    assert_eq!(
        record(&mut renderer, announce("bear", true)),
        "{\"event\":\"discover-case\",\"name\":\"bear\",\"mode\":\"test\",\"run\":true}\n"
    );
    assert_eq!(
        record(
            &mut renderer,
            Event::DiscoverCase { name: "b".to_string(), mode: RunMode::Bench, run: false }
        ),
        "{\"event\":\"discover-case\",\"name\":\"b\",\"mode\":\"bench\",\"run\":false}\n"
    );
    assert_eq!(
        record(&mut renderer, Event::DiscoverComplete { elapsed_s: zero(), seed: None }),
        "{\"event\":\"discover-complete\",\"elapsed_s\":\"0\",\"seed\":null}\n"
    );
    assert_eq!(
        record(
            &mut renderer,
            Event::DiscoverComplete { elapsed_s: Elapsed { secs: 0, nanos: 5_000 }, seed: Some(7) }
        ),
        "{\"event\":\"discover-complete\",\"elapsed_s\":\"0.000005\",\"seed\":7}\n"
    );
    assert_eq!(record(&mut renderer, Event::SuiteStart), "{\"event\":\"suite-start\"}\n");
    assert_eq!(
        record(&mut renderer, start("bear")),
        "{\"event\":\"case-start\",\"name\":\"bear\"}\n"
    );
    assert_eq!(
        record(&mut renderer, complete("bear", Some(RunStatus::Ignored), Some("fails"))),
        "{\"event\":\"case-complete\",\"name\":\"bear\",\"mode\":\"test\",\"status\":\"ignored\",\
         \"message\":\"fails\",\"elapsed_s\":\"0\"}\n"
    );
    assert_eq!(
        record(&mut renderer, complete("cat", None, None)),
        "{\"event\":\"case-complete\",\"name\":\"cat\",\"mode\":\"test\",\"status\":null,\
         \"message\":null,\"elapsed_s\":\"0\"}\n"
    );
    assert_eq!(
        record(
            &mut renderer,
            Event::CaseComplete {
                name: "dog".to_string(),
                mode: RunMode::Test,
                status: Some(RunStatus::Failed),
                message: None,
                elapsed_s: None,
            }
        ),
        "{\"event\":\"case-complete\",\"name\":\"dog\",\"mode\":\"test\",\"status\":\"failed\",\
         \"message\":null,\"elapsed_s\":null}\n"
    );
    assert_eq!(
        record(&mut renderer, Event::SuiteComplete { elapsed_s: Elapsed { secs: 2, nanos: 0 } }),
        "{\"event\":\"suite-complete\",\"elapsed_s\":\"2\"}\n"
    );
}

#[test]
fn records_escape_what_json_asks_for() {
    let mut renderer = JsonNotifier::new();
    let line = renderer
        .notify(&complete("say \"hi\"", Some(RunStatus::Failed), Some("a\\b\nc\t\u{1}")))
        .expect("encoded");
    assert_eq!(
        line,
        "{\"event\":\"case-complete\",\"name\":\"say \\\"hi\\\"\",\"mode\":\"test\",\
         \"status\":\"failed\",\"message\":\"a\\\\b\\nc\\t\\u0001\",\"elapsed_s\":\"0\"}\n"
    );
    let parsed: serde_json::Value = serde_json::from_str(&line).expect("valid JSON");
    assert_eq!(parsed["name"], "say \"hi\"");
    assert_eq!(parsed["message"], "a\\b\nc\t\u{1}");
}

#[test]
fn a_record_is_put_together_from_written_texts() {
    let event = complete("x", Some(RunStatus::Failed), Some("m"));
    assert_eq!(
        json_record(&event, "N", Some("M"), None),
        "{\"event\":\"case-complete\",\"name\":N,\"mode\":\"test\",\"status\":\"failed\",\
         \"message\":M,\"elapsed_s\":null}\n"
    );
    assert_eq!(
        json_record(&Event::SuiteComplete { elapsed_s: zero() }, "", None, Some("E")),
        "{\"event\":\"suite-complete\",\"elapsed_s\":E}\n"
    );
}

#[test]
fn the_class_is_the_name_up_to_the_last_separator() {
    let split = |name: &str| parse_class_name(name);
    assert_eq!(split("cat"), ("crate".to_string(), "cat".to_string()));
    assert_eq!(split("zoo::cat"), ("zoo".to_string(), "cat".to_string()));
    assert_eq!(split("a::b::c"), ("a::b".to_string(), "c".to_string()));
    assert_eq!(split(""), ("crate".to_string(), "".to_string()));
    assert_eq!(split("::"), ("".to_string(), "".to_string()));
    assert_eq!(split("a::"), ("a".to_string(), "".to_string()));
    assert_eq!(split("::b"), ("".to_string(), "b".to_string()));
    assert_eq!(split("a:::b"), ("a".to_string(), ":b".to_string()));
    assert_eq!(split("a::::b"), ("a::".to_string(), "b".to_string()));
    assert_eq!(split("a:b"), ("crate".to_string(), "a:b".to_string()));
}

#[test]
fn the_document_holds_the_cases_that_ran() {
    let mut renderer = JunitRunNotifier::new();
    let mut events = cat_dog_fox();
    events.insert(4, announce("gnu", false));
    events.insert(13, complete("zoo::emu", Some(RunStatus::Ignored), Some("slow")));
    events.insert(13, complete("zoo::yak", Some(RunStatus::Failed), None));
    let last = events.len() - 1;
    for event in &events[..last] {
        assert_eq!(renderer.notify(event), "");
    }
    let document = renderer.notify(&events[last]);
    assert_eq!(
        document,
        "<?xml version=\"1.0\" encoding=\"UTF-8\"?>\n<testsuites>\n\
         <testsuite name=\"test\" package=\"test\" id=\"0\" tests=\"3\" errors=\"0\" \
         failures=\"2\" skipped=\"1\" >\n\
         <testcase classname=\"crate\" name=\"cat\" time=\"0.000s\"/>\n\
         <testcase classname=\"crate\" name=\"dog\" time=\"0.000s\">\n\
         <failure message=\"x\" type=\"assert\"/>\n</testcase>\n\
         <testcase classname=\"crate\" name=\"fox\" time=\"0.000s\"/>\n\
         <testcase classname=\"zoo\" name=\"yak\" time=\"0.000s\">\n\
         <failure type=\"assert\"/>\n</testcase>\n\
         <system-out/>\n<system-err/>\n</testsuite>\n</testsuites>\n"
    );
    assert_eq!(document, write_document(&events));
    assert_eq!(
        renderer.notify(&Event::SuiteComplete { elapsed_s: zero() }),
        write_document(&[Event::SuiteComplete { elapsed_s: zero() }].to_vec())
    );
}

#[test]
fn words_are_coloured_and_reset() {
    let mut out = "[".to_string();
    push_styled(&mut out, Paint::Failed, "no");
    push_styled(&mut out, Paint::Passed, "yes");
    push_styled(&mut out, Paint::Ignored, "");
    assert_eq!(out, "[\u{1b}[31mno\u{1b}[0m\u{1b}[32myes\u{1b}[0m\u{1b}[33m\u{1b}[0m");
}

#[test]
fn text_is_built_piece_by_piece() {
    let mut out = String::new();
    push_text(&mut out, "n=");
    push_decimal(&mut out, 0);
    push_text(&mut out, ",");
    push_decimal(&mut out, 1_000_000);
    push_repeated(&mut out, '-', 3);
    push_repeated(&mut out, '-', 0);
    push_padded(&mut out, "ab", 4);
    push_padded(&mut out, "abcdef", 4);
    push_padded(&mut out, "", 0);
    assert_eq!(out, "n=0,1000000---ab  abcdef");
    assert_eq!(decimal_string(u128::MAX), "340282366920938463463374607431768211455");
    assert_eq!(decimal_string(9), "9");
    assert_eq!(decimal_string(10), "10");
    assert_eq!(chars_of("a\u{e9}z"), vec!['a', '\u{e9}', 'z']);
    assert_eq!(string_of(&vec!['a', '\u{e9}', 'z']), "a\u{e9}z");
    assert_eq!(string_of(&chars_of("")), "");
    assert!(sorts_before("", "a"));
    assert!(sorts_before("a", "a"));
    assert!(sorts_before("a", "ab"));
    assert!(!sorts_before("ab", "a"));
    assert!(sorts_before("Z", "a"));
    assert!(!sorts_before("b", "a"));
    assert!(sorts_before("z", "\u{e9}"));
}

#[test]
fn modes_and_statuses_have_their_words() {
    assert_eq!(RunMode::Test.as_str(), "test");
    assert_eq!(RunMode::Bench.as_str(), "bench");
    assert_eq!(RunMode::default(), RunMode::Test);
    assert_eq!(RunStatus::Ignored.as_str(), "ignored");
    assert_eq!(RunStatus::Failed.as_str(), "failed");
    let event = complete("a", Some(RunStatus::Failed), Some("m"));
    assert_eq!(event.clone(), event);
}
