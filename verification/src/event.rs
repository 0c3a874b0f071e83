//! The lifecycle events through which execution talks to presentation.

use vstd::prelude::*;
use crate::text::decimal;
use crate::text::decimal_string;
use crate::text::digit_char;
use crate::text::push_decimal;
use crate::text::push_text;

verus! {

/// What a case is being run as.
#[derive(Copy, Clone, Debug, PartialEq, Eq, Structural)]
pub enum RunMode {
    Test,
    Bench,
}

impl Default for RunMode {
    fn default() -> (r: Self)
        ensures
            r == RunMode::Test,
    {
        RunMode::Test
    }
}

impl RunMode {
    /// The word that names the mode in listings and records.
    pub open spec fn word(self) -> Seq<char> {
        match self {
            RunMode::Test => "test"@,
            RunMode::Bench => "bench"@,
        }
    }

    pub fn as_str(&self) -> (r: &'static str)
        ensures
            r@ == self.word(),
    {
        match self {
            RunMode::Test => "test",
            RunMode::Bench => "bench",
        }
    }
}

/// How a case that did not pass ended.
#[derive(Copy, Clone, Debug, PartialEq, Eq, Structural)]
pub enum RunStatus {
    Ignored,
    Failed,
}

impl RunStatus {
    /// The word that names the status in records.
    pub open spec fn word(self) -> Seq<char> {
        match self {
            RunStatus::Ignored => "ignored"@,
            RunStatus::Failed => "failed"@,
        }
    }

    pub fn as_str(&self) -> (r: &'static str)
        ensures
            r@ == self.word(),
    {
        match self {
            RunStatus::Ignored => "ignored",
            RunStatus::Failed => "failed",
        }
    }
}

/// A span of wall-clock time: whole seconds and the nanoseconds beyond them.
#[derive(Copy, Clone, Debug, Default, PartialEq, Eq, Structural)]
pub struct Elapsed {
    pub secs: u64,
    pub nanos: u32,
}

/// One step in the life of a run, as a renderer sees it.
#[derive(Debug, PartialEq, Eq)]
#[allow(inconsistent_fields)]
pub enum Event {
    DiscoverStart,
    DiscoverCase { name: String, mode: RunMode, run: bool },
    DiscoverComplete { elapsed_s: Elapsed, seed: Option<u64> },
    SuiteStart,
    CaseStart { name: String },
    CaseComplete {
        name: String,
        mode: RunMode,
        status: Option<RunStatus>,
        message: Option<String>,
        elapsed_s: Option<Elapsed>,
    },
    SuiteComplete { elapsed_s: Elapsed },
}

/// The mathematical content of an [`Event`]: text as character sequences.
#[allow(inconsistent_fields)]
pub enum EventView {
    DiscoverStart,
    DiscoverCase { name: Seq<char>, mode: RunMode, run: bool },
    DiscoverComplete { elapsed_s: Elapsed, seed: Option<u64> },
    SuiteStart,
    CaseStart { name: Seq<char> },
    CaseComplete {
        name: Seq<char>,
        mode: RunMode,
        status: Option<RunStatus>,
        message: Option<Seq<char>>,
        elapsed_s: Option<Elapsed>,
    },
    SuiteComplete { elapsed_s: Elapsed },
}

/// The text of an optional string.
pub open spec fn text_of(s: Option<String>) -> Option<Seq<char>> {
    match s {
        Some(t) => Some(t@),
        None => None,
    }
}

impl View for Event {
    type V = EventView;

    open spec fn view(&self) -> EventView {
        match *self {
            Event::DiscoverStart => EventView::DiscoverStart,
            Event::DiscoverCase { name, mode, run } => EventView::DiscoverCase {
                name: name@,
                mode,
                run,
            },
            Event::DiscoverComplete { elapsed_s, seed } => EventView::DiscoverComplete {
                elapsed_s,
                seed,
            },
            Event::SuiteStart => EventView::SuiteStart,
            Event::CaseStart { name } => EventView::CaseStart { name: name@ },
            Event::CaseComplete { name, mode, status, message, elapsed_s } => {
                EventView::CaseComplete {
                    name: name@,
                    mode,
                    status,
                    message: text_of(message),
                    elapsed_s,
                }
            },
            Event::SuiteComplete { elapsed_s } => EventView::SuiteComplete { elapsed_s },
        }
    }
}

fn clone_text(s: &Option<String>) -> (r: Option<String>)
    ensures
        text_of(r) == text_of(*s),
{
    match s {
        Some(t) => Some(t.clone()),
        None => None,
    }
}

impl Clone for Event {
    fn clone(&self) -> (r: Self)
        ensures
            r@ == self@,
    {
        match self {
            Event::DiscoverStart => Event::DiscoverStart,
            Event::DiscoverCase { name, mode, run } => Event::DiscoverCase {
                name: name.clone(),
                mode: *mode,
                run: *run,
            },
            Event::DiscoverComplete { elapsed_s, seed } => Event::DiscoverComplete {
                elapsed_s: *elapsed_s,
                seed: *seed,
            },
            Event::SuiteStart => Event::SuiteStart,
            Event::CaseStart { name } => Event::CaseStart { name: name.clone() },
            Event::CaseComplete { name, mode, status, message, elapsed_s } => Event::CaseComplete {
                name: name.clone(),
                mode: *mode,
                status: *status,
                message: clone_text(message),
                elapsed_s: *elapsed_s,
            },
            Event::SuiteComplete { elapsed_s } => Event::SuiteComplete { elapsed_s: *elapsed_s },
        }
    }
}

/// The contents of a sequence of events.
pub open spec fn views(events: Seq<Event>) -> Seq<EventView> {
    events.map_values(|e: Event| e@)
}

} // verus!

verus! {

/// The span in nanoseconds.
pub open spec fn total_nanos(e: Elapsed) -> nat {
    (e.secs * 1_000_000_000 + e.nanos) as nat
}

/// The span in milliseconds, rounded to the nearest, halves upwards.
pub open spec fn rounded_millis(e: Elapsed) -> nat {
    (total_nanos(e) + 500_000) / 1_000_000
}

/// `n` in base ten in exactly `width` digits: with leading zeros, and
/// without the digits that do not fit.
pub open spec fn fixed_width(n: nat, width: nat) -> Seq<char>
    decreases width,
{
    if width == 0 {
        Seq::<char>::empty()
    } else {
        fixed_width(n / 10, (width - 1) as nat).push(digit_char((n % 10) as int))
    }
}

/// The span as seconds with three decimals and the unit: `1.500s`.
pub open spec fn display_text(e: Elapsed) -> Seq<char> {
    decimal(rounded_millis(e) / 1000) + seq!['.'] + fixed_width(rounded_millis(e) % 1000, 3)
        + seq!['s']
}

/// A fraction of `width` digits without its trailing zeros.
pub open spec fn trimmed_fraction(n: nat, width: nat) -> Seq<char>
    decreases width,
{
    if width == 0 || n == 0 {
        Seq::<char>::empty()
    } else if n % 10 == 0 {
        trimmed_fraction(n / 10, (width - 1) as nat)
    } else {
        fixed_width(n, width)
    }
}

/// The span as a number of seconds in the shortest decimal notation:
/// `0`, `1.5`, `0.000012345`.
pub open spec fn wire_text(e: Elapsed) -> Seq<char> {
    let whole = total_nanos(e) / 1_000_000_000;
    let part = total_nanos(e) % 1_000_000_000;
    if part == 0 {
        decimal(whole)
    } else {
        decimal(whole) + seq!['.'] + trimmed_fraction(part, 9)
    }
}

fn push_fixed_width(out: &mut String, n: u128, width: usize)
    ensures
        final(out)@ == old(out)@ + fixed_width(n as nat, width as nat),
    decreases width,
{
    if width > 0 {
        push_fixed_width(out, n / 10, width - 1);
        let d = decimal_string(n % 10);
        proof {
            reveal_with_fuel(decimal, 2);
            assert(d@ =~= seq![digit_char((n % 10) as int)]);
        }
        push_text(out, d.as_str());
        assert(out@ =~= old(out)@ + fixed_width(n as nat, width as nat));
    } else {
        assert(out@ =~= old(out)@ + fixed_width(n as nat, width as nat));
    }
}

fn push_trimmed_fraction(out: &mut String, n: u128, width: usize)
    ensures
        final(out)@ == old(out)@ + trimmed_fraction(n as nat, width as nat),
    decreases width,
{
    if width == 0 || n == 0 {
        assert(out@ =~= old(out)@ + trimmed_fraction(n as nat, width as nat));
    } else if n % 10 == 0 {
        push_trimmed_fraction(out, n / 10, width - 1);
    } else {
        push_fixed_width(out, n, width);
    }
}

impl Elapsed {
    fn nanos_total(&self) -> (r: u128)
        ensures
            r == total_nanos(*self),
    {
        self.secs as u128 * 1_000_000_000 + self.nanos as u128
    }

    /// The span as seconds with three decimals and the unit.
    pub fn display(&self) -> (r: String)
        ensures
            r@ == display_text(*self),
    {
        let millis: u128 = (self.nanos_total() + 500_000) / 1_000_000;
        let mut out = String::new();
        push_decimal(&mut out, millis / 1000);
        push_text(&mut out, ".");
        push_fixed_width(&mut out, millis % 1000, 3);
        push_text(&mut out, "s");
        proof {
            reveal_strlit(".");
            reveal_strlit("s");
            assert("."@ =~= seq!['.']);
            assert("s"@ =~= seq!['s']);
            assert(out@ =~= display_text(*self));
        }
        out
    }

    /// The span as a number of seconds in the shortest decimal notation.
    pub fn wire(&self) -> (r: String)
        ensures
            r@ == wire_text(*self),
    {
        let total: u128 = self.nanos_total();
        let whole: u128 = total / 1_000_000_000;
        let part: u128 = total % 1_000_000_000;
        let mut out = String::new();
        push_decimal(&mut out, whole);
        if part != 0 {
            push_text(&mut out, ".");
            push_trimmed_fraction(&mut out, part, 9);
            proof {
                reveal_strlit(".");
                assert("."@ =~= seq!['.']);
            }
        }
        assert(out@ =~= wire_text(*self));
        out
    }
}

} // verus!
