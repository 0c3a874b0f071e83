//! The renderer that writes one JUnit document per run.

use vstd::prelude::*;
use crate::event::Elapsed;
use crate::event::Event;
use crate::event::EventView;
use crate::event::RunStatus;
use crate::event::display_text;
use crate::event::views;
use crate::text::chars_of;
use crate::text::decimal;
use crate::text::push_char;
use crate::text::push_decimal;
use crate::text::push_text;

verus! {

/// Where the last `::` of `name` begins, reading from `from` on and taking
/// each `::` whole; `found` where there is none from there on.
pub open spec fn last_separator(name: Seq<char>, from: int, found: Option<int>) -> Option<int>
    decreases name.len() - from,
{
    if from < 0 || from + 2 > name.len() {
        found
    } else if name[from] == ':' && name[from + 1] == ':' {
        last_separator(name, from + 2, Some(from))
    } else {
        last_separator(name, from + 1, found)
    }
}

/// The class of a case: its name up to the last `::`, or `crate` where
/// the name has none.
pub open spec fn class_of(name: Seq<char>) -> Seq<char> {
    match last_separator(name, 0, None) {
        Some(at) => name.take(at),
        None => "crate"@,
    }
}

/// The name of a case within its class: what follows the last `::`.
pub open spec fn test_of(name: Seq<char>) -> Seq<char> {
    match last_separator(name, 0, None) {
        Some(at) => name.skip(at + 2),
        None => name,
    }
}

/// Splits the name of a case into its class and its name within the class.
pub fn parse_class_name(name: &str) -> (r: (String, String))
    ensures
        r.0@ == class_of(name@),
        r.1@ == test_of(name@),
{
    let chars = chars_of(name);
    let n: usize = chars.len();
    let mut found: Option<usize> = None;
    let mut from: usize = 0;
    while n >= 2 && from <= n - 2
        invariant
            n == chars@.len(),
            chars@ == name@,
            from <= n,
            found matches Some(at) ==> at + 2 <= n,
            last_separator(name@, 0, None) == last_separator(
                name@,
                from as int,
                match found {
                    Some(at) => Some(at as int),
                    None => None,
                },
            ),
        decreases n - from,
    {
        if chars[from] == ':' && chars[from + 1] == ':' {
            found = Some(from);
            from += 2;
        } else {
            from += 1;
        }
    }
    match found {
        None => {
            let mut class = String::new();
            push_text(&mut class, "crate");
            assert(class@ =~= "crate"@);
            (class, name.to_owned())
        },
        Some(at) => {
            let mut class = String::new();
            let mut i: usize = 0;
            while i < at
                invariant
                    i <= at,
                    at + 2 <= chars@.len(),
                    class@ == chars@.take(i as int),
                decreases at - i,
            {
                push_char(&mut class, chars[i]);
                i += 1;
                assert(class@ =~= chars@.take(i as int));
            }
            let mut test = String::new();
            let mut k: usize = at + 2;
            while k < n
                invariant
                    at + 2 <= k <= n,
                    n == chars@.len(),
                    test@ == chars@.subrange(at + 2, k as int),
                decreases n - k,
            {
                push_char(&mut test, chars[k]);
                k += 1;
                assert(test@ =~= chars@.subrange(at + 2, k as int));
            }
            assert(test@ =~= name@.skip(at + 2));
            (class, test)
        },
    }
}

/// How many of the events announce a selected case.
pub open spec fn selected_count(events: Seq<EventView>) -> nat
    decreases events.len(),
{
    if events.len() == 0 {
        0
    } else {
        selected_count(events.drop_last()) + (match events.last() {
            EventView::DiscoverCase { run, .. } => if run {
                1nat
            } else {
                0nat
            },
            _ => 0nat,
        })
    }
}

/// How many of the events report a case that ended with `status`.
pub open spec fn status_count(events: Seq<EventView>, status: RunStatus) -> nat
    decreases events.len(),
{
    if events.len() == 0 {
        0
    } else {
        status_count(events.drop_last(), status) + (match events.last() {
            EventView::CaseComplete { status: s, .. } => if s == Some(status) {
                1nat
            } else {
                0nat
            },
            _ => 0nat,
        })
    }
}

/// The duration that a test case is reported with.
pub open spec fn time_of(elapsed: Option<Elapsed>) -> Seq<char> {
    display_text(
        match elapsed {
            Some(t) => t,
            None => Elapsed { secs: 0, nanos: 0 },
        },
    )
}

/// The opening tag of a test case, without its end.
pub open spec fn testcase_open(name: Seq<char>, elapsed: Option<Elapsed>) -> Seq<char> {
    Seq::<char>::empty() + "<testcase classname=\""@ + class_of(name) + "\" name=\""@ + test_of(
        name,
    ) + "\" time=\""@ + time_of(elapsed) + "\""@
}

/// The element of an event in the document: a test case for a case that
/// passed or failed, with a failure inside where it failed; nothing for
/// an ignored case or any other event.
pub open spec fn testcase(e: EventView) -> Seq<char> {
    match e {
        EventView::CaseComplete { name, status, message, elapsed_s, .. } => match status {
            Some(RunStatus::Ignored) => Seq::<char>::empty(),
            Some(RunStatus::Failed) => testcase_open(name, elapsed_s) + ">\n"@ + (match message {
                Some(m) => "<failure message=\""@ + m + "\" type=\"assert\"/>\n"@,
                None => "<failure type=\"assert\"/>\n"@,
            }) + "</testcase>\n"@,
            None => testcase_open(name, elapsed_s) + "/>\n"@,
        },
        _ => Seq::<char>::empty(),
    }
}

/// The elements of the events, in their order.
pub open spec fn testcases(events: Seq<EventView>) -> Seq<char>
    decreases events.len(),
{
    if events.len() == 0 {
        Seq::<char>::empty()
    } else {
        testcases(events.drop_last()) + testcase(events.last())
    }
}

/// The document of a run: one suite with its counts and its test cases.
pub open spec fn document(events: Seq<EventView>) -> Seq<char> {
    Seq::<char>::empty() + "<?xml version=\"1.0\" encoding=\"UTF-8\"?>\n"@ + "<testsuites>\n"@
        + "<testsuite name=\"test\" package=\"test\" id=\"0\" tests=\""@ + decimal(
        selected_count(events),
    ) + "\" errors=\"0\" failures=\""@ + decimal(status_count(events, RunStatus::Failed))
        + "\" skipped=\""@ + decimal(status_count(events, RunStatus::Ignored)) + "\" >\n"@
        + testcases(events) + "<system-out/>\n"@ + "<system-err/>\n"@ + "</testsuite>\n"@
        + "</testsuites>\n"@
}

/// The events that the renderer holds after one more: all of them until
/// the suite completes, none after.
pub open spec fn junit_next(held: Seq<EventView>, e: EventView) -> Seq<EventView> {
    if e is SuiteComplete {
        Seq::<EventView>::empty()
    } else {
        held.push(e)
    }
}

/// What the renderer writes for an event: the document of everything it
/// has seen when the suite completes, nothing before.
pub open spec fn junit_text(held: Seq<EventView>, e: EventView) -> Seq<char> {
    if e is SuiteComplete {
        document(held.push(e))
    } else {
        Seq::<char>::empty()
    }
}

fn push_testcase_open(out: &mut String, name: &str, elapsed: &Option<Elapsed>)
    ensures
        final(out)@ == old(out)@ + testcase_open(name@, *elapsed),
{
    let (class_name, test_name) = parse_class_name(name);
    let time = match elapsed {
        Some(t) => t.display(),
        None => (Elapsed { secs: 0, nanos: 0 }).display(),
    };
    push_text(out, "<testcase classname=\"");
    push_text(out, class_name.as_str());
    push_text(out, "\" name=\"");
    push_text(out, test_name.as_str());
    push_text(out, "\" time=\"");
    push_text(out, time.as_str());
    push_text(out, "\"");
    assert(out@ =~= old(out)@ + testcase_open(name@, *elapsed));
}

fn push_testcase(out: &mut String, event: &Event)
    ensures
        final(out)@ == old(out)@ + testcase(event@),
{
    match event {
        Event::CaseComplete { name, status, message, elapsed_s, .. } => match status {
            Some(RunStatus::Ignored) => {
                assert(out@ =~= old(out)@ + testcase(event@));
            },
            Some(RunStatus::Failed) => {
                push_testcase_open(out, name.as_str(), elapsed_s);
                push_text(out, ">\n");
                let ghost head = out@;
                match message {
                    Some(m) => {
                        push_text(out, "<failure message=\"");
                        push_text(out, m.as_str());
                        push_text(out, "\" type=\"assert\"/>\n");
                        assert(out@ =~= head + ("<failure message=\""@ + m@
                            + "\" type=\"assert\"/>\n"@));
                    },
                    None => {
                        push_text(out, "<failure type=\"assert\"/>\n");
                    },
                }
                push_text(out, "</testcase>\n");
                assert(out@ =~= old(out)@ + testcase(event@));
            },
            None => {
                push_testcase_open(out, name.as_str(), elapsed_s);
                push_text(out, "/>\n");
                assert(out@ =~= old(out)@ + testcase(event@));
            },
        },
        _ => {
            assert(out@ =~= old(out)@ + testcase(event@));
        },
    }
}

/// The JUnit document of a run with these events.
pub fn write_document(events: &Vec<Event>) -> (r: String)
    ensures
        r@ == document(views(events@)),
{
    let ghost all = views(events@);
    let mut num_run: usize = 0;
    let mut num_failed: usize = 0;
    let mut num_ignored: usize = 0;
    let mut i: usize = 0;
    while i < events.len()
        invariant
            i <= events@.len(),
            all == views(events@),
            num_run == selected_count(all.take(i as int)),
            num_failed == status_count(all.take(i as int), RunStatus::Failed),
            num_ignored == status_count(all.take(i as int), RunStatus::Ignored),
            num_run <= i,
            num_failed <= i,
            num_ignored <= i,
        decreases events@.len() - i,
    {
        proof {
            assert(all.take(i + 1).drop_last() =~= all.take(i as int));
            assert(all.take(i + 1).last() == events@[i as int]@);
        }
        match &events[i] {
            Event::DiscoverCase { run, .. } => {
                if *run {
                    num_run += 1;
                }
            },
            Event::CaseComplete { status, .. } => match status {
                Some(RunStatus::Ignored) => {
                    num_ignored += 1;
                },
                Some(RunStatus::Failed) => {
                    num_failed += 1;
                },
                None => {},
            },
            _ => {},
        }
        i += 1;
    }
    assert(all.take(i as int) =~= all);
    let mut out = String::new();
    push_text(&mut out, "<?xml version=\"1.0\" encoding=\"UTF-8\"?>\n");
    push_text(&mut out, "<testsuites>\n");
    push_text(&mut out, "<testsuite name=\"test\" package=\"test\" id=\"0\" tests=\"");
    push_decimal(&mut out, num_run as u128);
    push_text(&mut out, "\" errors=\"0\" failures=\"");
    push_decimal(&mut out, num_failed as u128);
    push_text(&mut out, "\" skipped=\"");
    push_decimal(&mut out, num_ignored as u128);
    push_text(&mut out, "\" >\n");
    let ghost head = out@;
    let mut k: usize = 0;
    assert(head + testcases(all.take(0)) =~= head);
    while k < events.len()
        invariant
            k <= events@.len(),
            all == views(events@),
            out@ == head + testcases(all.take(k as int)),
        decreases events@.len() - k,
    {
        proof {
            assert(all.take(k + 1).drop_last() =~= all.take(k as int));
            assert(all.take(k + 1).last() == events@[k as int]@);
        }
        push_testcase(&mut out, &events[k]);
        assert(out@ =~= head + testcases(all.take(k + 1)));
        k += 1;
    }
    assert(all.take(k as int) =~= all);
    push_text(&mut out, "<system-out/>\n");
    push_text(&mut out, "<system-err/>\n");
    push_text(&mut out, "</testsuite>\n");
    push_text(&mut out, "</testsuites>\n");
    out
}

/// The renderer that writes one JUnit document per run.
#[derive(Debug)]
pub struct JunitRunNotifier {
    events: Vec<Event>,
}

impl JunitRunNotifier {
    /// The events that the renderer holds.
    pub closed spec fn held(&self) -> Seq<EventView> {
        views(self.events@)
    }

    pub fn new() -> (r: Self)
        ensures
            r.held() == Seq::<EventView>::empty(),
    {
        let r = JunitRunNotifier { events: Vec::new() };
        assert(views(r.events@) =~= Seq::<EventView>::empty());
        r
    }

    /// Takes in an event and returns what is to be written for it.
    pub fn notify(&mut self, event: &Event) -> (r: String)
        ensures
            final(self).held() == junit_next(old(self).held(), event@),
            r@ == junit_text(old(self).held(), event@),
    {
        let copy = event.clone();
        proof {
            assert(views(self.events@.push(copy)) =~= views(self.events@).push(event@));
        }
        self.events.push(copy);
        match event {
            Event::SuiteComplete { .. } => {
                let out = write_document(&self.events);
                self.events = Vec::new();
                assert(views(self.events@) =~= Seq::<EventView>::empty());
                out
            },
            _ => String::new(),
        }
    }
}

} // verus!
