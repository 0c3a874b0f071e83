//! From the command line to the options of a run, one argument at a time.

use vstd::prelude::*;
use crate::args::Arg;
use crate::args::ArgView;
use crate::args::ErrorContext;
use crate::args::ErrorContextView;
use crate::args::Parser;
use crate::args::ParserView;
use crate::args::arg_of;
use crate::args::find_char;
use crate::args::first_of;
use crate::args::flag_value_of;
use crate::args::substring;
use crate::event::text_of;
use crate::options::ColorConfig;
use crate::options::Options;
use crate::options::OutputFormat;
use crate::options::RunIgnored;
use crate::options::TestOpts;
use crate::options::TestTimeOptions;
use crate::options::TimeThreshold;
use crate::options::texts;
use crate::text::chars_of;
use crate::text::parse_count;
use crate::text::parse_u64;
use crate::text::parsed_count;
use crate::text::parsed_u64;
use crate::text::push_text;
use crate::text::same_text;
use crate::value::OptionContextExt;
use crate::value::choices_text;
use crate::value::missing_text;
use crate::value::number_error;
use crate::value::one_of;
use crate::value::parse_number;
use crate::value::parse_workers;

verus! {

/// The feature that unlocks the unstable options.
pub const UNSTABLE_OPTIONS: &'static str = "unstable-options";

/// The mathematical content of [`TestOpts`].
pub struct OptsView {
    pub list: bool,
    pub filters: Seq<Seq<char>>,
    pub filter_exact: bool,
    pub force_run_in_process: bool,
    pub exclude_should_panic: bool,
    pub run_ignored: RunIgnored,
    pub run_tests: bool,
    pub bench_benchmarks: bool,
    pub nocapture: bool,
    pub color: ColorConfig,
    pub format: OutputFormat,
    pub shuffle: bool,
    pub shuffle_seed: Option<u64>,
    pub test_threads: Option<usize>,
    pub skip: Seq<Seq<char>>,
    pub time_options: Option<TestTimeOptions>,
    pub fail_fast: bool,
    pub options: Options,
    pub allowed_unstable: Seq<Seq<char>>,
    pub logfile: Option<Seq<char>>,
}

impl View for TestOpts {
    type V = OptsView;

    open spec fn view(&self) -> OptsView {
        OptsView {
            list: self.list,
            filters: texts(self.filters@),
            filter_exact: self.filter_exact,
            force_run_in_process: self.force_run_in_process,
            exclude_should_panic: self.exclude_should_panic,
            run_ignored: self.run_ignored,
            run_tests: self.run_tests,
            bench_benchmarks: self.bench_benchmarks,
            nocapture: self.nocapture,
            color: self.color,
            format: self.format,
            shuffle: self.shuffle,
            shuffle_seed: self.shuffle_seed,
            test_threads: self.test_threads,
            skip: texts(self.skip@),
            time_options: self.time_options,
            fail_fast: self.fail_fast,
            options: self.options,
            allowed_unstable: texts(self.allowed_unstable@),
            logfile: text_of(self.logfile),
        }
    }
}

/// The options before any argument.
pub open spec fn default_opts() -> OptsView {
    OptsView {
        list: false,
        filters: Seq::empty(),
        filter_exact: false,
        force_run_in_process: false,
        exclude_should_panic: false,
        run_ignored: RunIgnored::No,
        run_tests: false,
        bench_benchmarks: false,
        nocapture: false,
        color: ColorConfig::AutoColor,
        format: OutputFormat::Pretty,
        shuffle: false,
        shuffle_seed: None,
        test_threads: None,
        skip: Seq::empty(),
        time_options: None,
        fail_fast: false,
        options: Options { display_output: false, panic_abort: false },
        allowed_unstable: Seq::empty(),
        logfile: None,
    }
}

/// What the environment says to a run, read before the arguments are.
#[derive(Debug)]
pub struct Env {
    /// Whether unstable features may be asked for.
    pub nightly: bool,
    /// `RUST_TEST_SHUFFLE`
    pub shuffle: Option<String>,
    /// `RUST_TEST_SHUFFLE_SEED`
    pub shuffle_seed: Option<String>,
    /// `RUST_TEST_NOCAPTURE`
    pub nocapture: Option<String>,
    /// `RUST_TEST_THREADS`
    pub test_threads: Option<String>,
    /// `RUST_TEST_TIME_UNIT`
    pub time_unit: Option<String>,
    /// `RUST_TEST_TIME_INTEGRATION`
    pub time_integration: Option<String>,
    /// `RUST_TEST_TIME_DOCTEST`
    pub time_doctest: Option<String>,
}

/// The mathematical content of an [`Env`].
pub struct EnvView {
    pub nightly: bool,
    pub shuffle: Option<Seq<char>>,
    pub shuffle_seed: Option<Seq<char>>,
    pub nocapture: Option<Seq<char>>,
    pub test_threads: Option<Seq<char>>,
    pub time_unit: Option<Seq<char>>,
    pub time_integration: Option<Seq<char>>,
    pub time_doctest: Option<Seq<char>>,
}

impl View for Env {
    type V = EnvView;

    open spec fn view(&self) -> EnvView {
        EnvView {
            nightly: self.nightly,
            shuffle: text_of(self.shuffle),
            shuffle_seed: text_of(self.shuffle_seed),
            nocapture: text_of(self.nocapture),
            test_threads: text_of(self.test_threads),
            time_unit: text_of(self.time_unit),
            time_integration: text_of(self.time_integration),
            time_doctest: text_of(self.time_doctest),
        }
    }
}

impl Env {
    /// An environment that says nothing, on a compiler that allows
    /// unstable features.
    pub fn empty() -> (r: Self)
        ensures
            r@ == (EnvView {
                nightly: true,
                shuffle: None,
                shuffle_seed: None,
                nocapture: None,
                test_threads: None,
                time_unit: None,
                time_integration: None,
                time_doctest: None,
            }),
    {
        Env {
            nightly: true,
            shuffle: None,
            shuffle_seed: None,
            nocapture: None,
            test_threads: None,
            time_unit: None,
            time_integration: None,
            time_doctest: None,
        }
    }
}

/// Whether `arg` is the long flag called `name`.
#[verifier::opaque]
pub open spec fn long_flag(arg: ArgView, name: Seq<char>) -> bool {
    arg == ArgView::Long(name)
}

/// Whether `arg` is the short flag called `name`.
#[verifier::opaque]
pub open spec fn short_flag(arg: ArgView, name: Seq<char>) -> bool {
    arg == ArgView::Short(name)
}

/// An error that is a message and nothing else.
pub open spec fn plain(msg: Seq<char>) -> ErrorContextView {
    ErrorContextView { msg, within: None, unexpected: None }
}

/// The time limits that the variable `name` sets, where it is set to
/// `value`: a warning time and a critical time in milliseconds, with a
/// comma between them.
pub open spec fn threshold_of(name: Seq<char>, value: Option<Seq<char>>) -> Result<
    Option<TimeThreshold>,
    ErrorContextView,
> {
    match value {
        None => Ok(None),
        Some(v) => match first_of(v, ',', 0) {
            None => Err(
                plain(
                    "Duration variable "@ + name
                        + " expected to have 2 numbers separated by comma, but got "@ + v,
                ),
            ),
            Some(at) => {
                let first = v.subrange(0, at);
                let second = v.subrange(at + 1, v.len() as int);
                match parsed_u64(first) {
                    Err(_) => Err(
                        plain(
                            "Duration value in variable "@ + name
                                + " is expected to be a number, but got "@ + first,
                        ),
                    ),
                    Ok(warn) => match parsed_u64(second) {
                        Err(_) => Err(
                            plain(
                                "Duration value in variable "@ + name
                                    + " is expected to be a number, but got "@ + second,
                            ),
                        ),
                        Ok(critical) => if warn > critical {
                            Err(
                                plain(
                                    "Test execution warn time should be less or equal to the critical time"@,
                                ),
                            )
                        } else {
                            Ok(Some(TimeThreshold { warn, critical }))
                        },
                    },
                }
            },
        },
    }
}

fn not_a_number(name: &str, got: &str) -> (r: ErrorContext)
    ensures
        r@ == plain(
            "Duration value in variable "@ + name@ + " is expected to be a number, but got "@
                + got@,
        ),
{
    let mut message = String::new();
    push_text(&mut message, "Duration value in variable ");
    push_text(&mut message, name);
    push_text(&mut message, " is expected to be a number, but got ");
    push_text(&mut message, got);
    assert(message@ =~= "Duration value in variable "@ + name@
        + " is expected to be a number, but got "@ + got@);
    ErrorContext::msg(message.as_str())
}

impl TimeThreshold {
    /// The time limits that the environment variable `name` sets, where it
    /// is set to `value`; `None` where it is not set.
    pub fn from_env_var(name: &str, value: &Option<String>) -> (r: Result<
        Option<TimeThreshold>,
        ErrorContext,
    >)
        ensures
            match threshold_of(name@, text_of(*value)) {
                Ok(t) => r == Ok::<Option<TimeThreshold>, ErrorContext>(t),
                Err(e) => r is Err && r->Err_0@ == e,
            },
    {
        let durations = match value {
            None => {
                return Ok(None);
            },
            Some(v) => v,
        };
        let chars = chars_of(durations.as_str());
        let at = match find_char(&chars, ',', 0) {
            None => {
                let mut message = String::new();
                push_text(&mut message, "Duration variable ");
                push_text(&mut message, name);
                push_text(
                    &mut message,
                    " expected to have 2 numbers separated by comma, but got ",
                );
                push_text(&mut message, durations.as_str());
                assert(message@ =~= "Duration variable "@ + name@
                    + " expected to have 2 numbers separated by comma, but got "@ + durations@);
                return Err(ErrorContext::msg(message.as_str()));
            },
            Some(at) => at,
        };
        let n: usize = chars.len();
        let first = substring(&chars, 0, at);
        let second = substring(&chars, at + 1, n);
        let warn = match parse_u64(first.as_str()) {
            Ok(n) => n,
            Err(_) => {
                return Err(not_a_number(name, first.as_str()));
            },
        };
        let critical = match parse_u64(second.as_str()) {
            Ok(n) => n,
            Err(_) => {
                return Err(not_a_number(name, second.as_str()));
            },
        };
        if warn > critical {
            return Err(
                ErrorContext::msg(
                    "Test execution warn time should be less or equal to the critical time",
                ),
            );
        }
        Ok(Some(TimeThreshold { warn, critical }))
    }
}

/// The mathematical content of a [`TestOptsBuilder`].
pub struct BuilderView {
    pub opts: OptsView,
    pub quiet: bool,
    pub format: Option<OutputFormat>,
    pub include_ignored: bool,
    pub ignored: bool,
}

/// What reading one argument comes to: the builder and the parser after
/// it, and the argument handed back where it is not one of the options, or
/// an error.
pub struct Parsed {
    pub builder: BuilderView,
    pub parser: ParserView,
    pub result: Result<Option<ArgView>, ErrorContextView>,
}

/// The argument was taken, with this effect on the builder.
pub open spec fn taken(builder: BuilderView, parser: ParserView) -> Parsed {
    Parsed { builder, parser, result: Ok(None) }
}

/// The argument could not be read.
pub open spec fn failed(builder: BuilderView, parser: ParserView, e: ErrorContextView) -> Parsed {
    Parsed { builder, parser, result: Err(e) }
}

/// The time options with the limits that the environment sets, where the
/// run is to fail on excess: the limits of unit tests, of integration
/// tests and of doctests, in that order, up to the first that is wrong.
pub open spec fn ensured_time(time: TestTimeOptions, env: EnvView) -> (
    TestTimeOptions,
    Option<ErrorContextView>,
) {
    let t0 = TestTimeOptions { error_on_excess: true, ..time };
    match threshold_of("RUST_TEST_TIME_UNIT"@, env.time_unit) {
        Err(e) => (t0, Some(e)),
        Ok(unit) => {
            let t1 = match unit {
                Some(t) => TestTimeOptions { unit_threshold: t, ..t0 },
                None => t0,
            };
            match threshold_of("RUST_TEST_TIME_INTEGRATION"@, env.time_integration) {
                Err(e) => (t1, Some(e)),
                Ok(integration) => {
                    let t2 = match integration {
                        Some(t) => TestTimeOptions { integration_threshold: t, ..t1 },
                        None => t1,
                    };
                    match threshold_of("RUST_TEST_TIME_DOCTEST"@, env.time_doctest) {
                        Err(e) => (t2, Some(e)),
                        Ok(doctest) => (
                            match doctest {
                                Some(t) => TestTimeOptions { doctest_threshold: t, ..t2 },
                                None => t2,
                            },
                            None,
                        ),
                    }
                },
            }
        },
    }
}

/// The time options that are in force, or the usual ones.
pub open spec fn time_or_default(time: Option<TestTimeOptions>) -> TestTimeOptions {
    match time {
        Some(t) => t,
        None => TestTimeOptions {
            error_on_excess: false,
            unit_threshold: TimeThreshold { warn: 50, critical: 100 },
            integration_threshold: TimeThreshold { warn: 50, critical: 100 },
            doctest_threshold: TimeThreshold { warn: 50, critical: 100 },
        },
    }
}

/// The error of a flag that came without its value.
pub open spec fn missing_value(arg: ArgView, placeholder: Seq<char>) -> ErrorContextView {
    ErrorContextView {
        msg: missing_text(ArgView::Value(placeholder)),
        within: Some(arg),
        unexpected: None,
    }
}

/// The names of the colours.
pub open spec fn color_names() -> Seq<&'static str> {
    seq!["auto", "always", "never"]
}

/// The names of the formats.
pub open spec fn format_names() -> Seq<&'static str> {
    seq!["pretty", "terse", "json", "junit"]
}

/// The colours by name.
pub open spec fn color_named(name: Seq<char>) -> Option<ColorConfig> {
    if name == "auto"@ {
        Some(ColorConfig::AutoColor)
    } else if name == "always"@ {
        Some(ColorConfig::AlwaysColor)
    } else if name == "never"@ {
        Some(ColorConfig::NeverColor)
    } else {
        None
    }
}

/// The formats by name.
pub open spec fn format_named(name: Seq<char>) -> Option<OutputFormat> {
    if name == "pretty"@ {
        Some(OutputFormat::Pretty)
    } else if name == "terse"@ {
        Some(OutputFormat::Terse)
    } else if name == "json"@ {
        Some(OutputFormat::Json)
    } else if name == "junit"@ {
        Some(OutputFormat::Junit)
    } else {
        None
    }
}

/// What a flag does with its value.
pub enum EffectView {
    Threads(usize),
    Skip(Seq<char>),
    Color(ColorConfig),
    Format(OutputFormat),
    Unstable(Seq<char>),
    Seed(u64),
}

/// What a flag does with its value.
pub enum Effect {
    Threads(usize),
    Skip(String),
    Color(ColorConfig),
    Format(OutputFormat),
    Unstable(String),
    Seed(u64),
}

impl View for Effect {
    type V = EffectView;

    open spec fn view(&self) -> EffectView {
        match self {
            Effect::Threads(n) => EffectView::Threads(*n),
            Effect::Skip(s) => EffectView::Skip(s@),
            Effect::Color(c) => EffectView::Color(*c),
            Effect::Format(f) => EffectView::Format(*f),
            Effect::Unstable(s) => EffectView::Unstable(s@),
            Effect::Seed(n) => EffectView::Seed(*n),
        }
    }
}

/// What the flag `arg`, which takes a value, makes of the value `v`: a
/// number of workers, a pattern to skip, a colour, a format, a feature to
/// unlock, or a seed; or the error of a value that does not fit.
pub open spec fn effect_of(arg: ArgView, env: EnvView, v: Seq<char>) -> Result<
    EffectView,
    ErrorContextView,
> {
    if long_flag(arg, "test-threads"@) {
        match parsed_count(v) {
            Ok(n) => Ok(EffectView::Threads(n)),
            Err(e) => Err(ErrorContextView { within: Some(arg), ..number_error(v, e) }),
        }
    } else if long_flag(arg, "skip"@) {
        Ok(EffectView::Skip(v))
    } else if long_flag(arg, "color"@) {
        match color_named(v) {
            Some(color) => Ok(EffectView::Color(color)),
            None => Err(
                ErrorContextView { within: Some(arg), ..plain(choices_text(color_names())) },
            ),
        }
    } else if long_flag(arg, "format"@) {
        match format_named(v) {
            Some(format) => Ok(EffectView::Format(format)),
            None => Err(
                ErrorContextView { within: Some(arg), ..plain(choices_text(format_names())) },
            ),
        }
    } else if short_flag(arg, "Z"@) {
        if env.nightly {
            Ok(EffectView::Unstable(v))
        } else {
            Err(ErrorContextView { unexpected: Some(arg), ..plain("expected nightly compiler"@) })
        }
    } else {
        match parsed_u64(v) {
            Ok(n) => Ok(EffectView::Seed(n)),
            Err(e) => Err(ErrorContextView { within: Some(arg), ..number_error(v, e) }),
        }
    }
}

/// The builder after a flag has taken its value.
pub open spec fn applied(b: BuilderView, effect: EffectView) -> BuilderView {
    let o = b.opts;
    BuilderView {
        opts: OptsView {
            test_threads: match effect {
                EffectView::Threads(n) => Some(n),
                _ => o.test_threads,
            },
            skip: match effect {
                EffectView::Skip(v) => o.skip.push(v),
                _ => o.skip,
            },
            color: match effect {
                EffectView::Color(c) => c,
                _ => o.color,
            },
            allowed_unstable: match effect {
                EffectView::Unstable(v) => o.allowed_unstable.push(v),
                _ => o.allowed_unstable,
            },
            shuffle_seed: match effect {
                EffectView::Seed(n) => Some(n),
                _ => o.shuffle_seed,
            },
            ..o
        },
        format: match effect {
            EffectView::Format(f) => Some(f),
            _ => b.format,
        },
        ..b
    }
}

/// The placeholder for the value of a flag that takes one.
pub open spec fn placeholder_of(arg: ArgView) -> Option<Seq<char>> {
    if long_flag(arg, "test-threads"@) {
        Some("NUM"@)
    } else if long_flag(arg, "skip"@) {
        Some("NAME"@)
    } else if long_flag(arg, "color"@) {
        Some("WHEN"@)
    } else if long_flag(arg, "format"@) {
        Some("FORMAT"@)
    } else if short_flag(arg, "Z"@) {
        Some("FEATURE"@)
    } else if long_flag(arg, "shuffle-seed"@) {
        Some("SEED"@)
    } else {
        None
    }
}

/// Whether `arg` is a flag without a value, or a filter.
pub open spec fn is_switch(arg: ArgView) -> bool {
    ||| long_flag(arg, "include-ignored"@)
    ||| long_flag(arg, "ignored"@)
    ||| long_flag(arg, "force-run-in-process"@)
    ||| long_flag(arg, "exclude-should-panic"@)
    ||| long_flag(arg, "test"@)
    ||| long_flag(arg, "bench"@)
    ||| long_flag(arg, "list"@)
    ||| long_flag(arg, "nocapture"@)
    ||| long_flag(arg, "exact"@)
    ||| short_flag(arg, "q"@)
    ||| long_flag(arg, "quiet"@)
    ||| long_flag(arg, "show-output"@)
    ||| long_flag(arg, "report-time"@)
    ||| long_flag(arg, "shuffle"@)
    ||| arg is Value
}

/// The builder after a flag without a value, or a filter: each flag sets
/// its option, `--quiet` also forgets the format, `--report-time` brings
/// the time options in, and a value joins the filters. Any other argument
/// changes nothing.
pub open spec fn switched(b: BuilderView, arg: ArgView) -> BuilderView {
    let o = b.opts;
    let quiet = short_flag(arg, "q"@) || long_flag(arg, "quiet"@);
    BuilderView {
        opts: OptsView {
            force_run_in_process: o.force_run_in_process || long_flag(arg, "force-run-in-process"@),
            exclude_should_panic: o.exclude_should_panic || long_flag(arg, "exclude-should-panic"@),
            run_tests: o.run_tests || long_flag(arg, "test"@),
            bench_benchmarks: o.bench_benchmarks || long_flag(arg, "bench"@),
            list: o.list || long_flag(arg, "list"@),
            nocapture: o.nocapture || long_flag(arg, "nocapture"@),
            filter_exact: o.filter_exact || long_flag(arg, "exact"@),
            shuffle: o.shuffle || long_flag(arg, "shuffle"@),
            options: Options {
                display_output: o.options.display_output || long_flag(arg, "show-output"@),
                ..o.options
            },
            time_options: if long_flag(arg, "report-time"@) {
                Some(time_or_default(o.time_options))
            } else {
                o.time_options
            },
            filters: match arg {
                ArgView::Value(filter) => o.filters.push(filter),
                _ => o.filters,
            },
            ..o
        },
        quiet: b.quiet || quiet,
        format: if quiet {
            None
        } else {
            b.format
        },
        include_ignored: b.include_ignored || long_flag(arg, "include-ignored"@),
        ignored: b.ignored || long_flag(arg, "ignored"@),
    }
}

/// Reading one argument.
///
/// A flag that takes a value reads it from the parser; `--format` stops
/// being quiet before it does. Without a value, the flag fails and names
/// the value that is missing. `--ensure-time` takes its limits from the
/// environment. A value is a filter. Anything that is no option of a test
/// run is handed back.
pub open spec fn parse_step(b: BuilderView, p: ParserView, arg: ArgView, env: EnvView) -> Parsed {
    match placeholder_of(arg) {
        Some(placeholder) => {
            let b1 = BuilderView { quiet: b.quiet && !long_flag(arg, "format"@), ..b };
            let (p1, value) = flag_value_of(p);
            match value {
                None => failed(b1, p1, missing_value(arg, placeholder)),
                Some(v) => match effect_of(arg, env, v) {
                    Ok(effect) => taken(applied(b1, effect), p1),
                    Err(e) => failed(b1, p1, e),
                },
            }
        },
        None => if long_flag(arg, "ensure-time"@) {
            let (time, error) = ensured_time(time_or_default(b.opts.time_options), env);
            let b1 = BuilderView { opts: OptsView { time_options: Some(time), ..b.opts }, ..b };
            match error {
                Some(e) => failed(b1, p, e),
                None => taken(b1, p),
            }
        } else {
            Parsed {
                builder: switched(b, arg),
                parser: p,
                result: if is_switch(arg) {
                    Ok(None)
                } else {
                    Ok(Some(arg))
                },
            }
        },
    }
}

/// The content of what [`TestOptsBuilder::parse_next`] returns.
pub open spec fn result_of(r: Result<Option<Arg>, ErrorContext>) -> Result<
    Option<ArgView>,
    ErrorContextView,
> {
    match r {
        Ok(a) => Ok(arg_of(a)),
        Err(e) => Err(e@),
    }
}

/// Whether the unstable options are unlocked.
pub open spec fn unlocked(features: Seq<Seq<char>>) -> bool {
    exists|i: int| 0 <= i < features.len() && #[trigger] features[i] == "unstable-options"@
}

/// Whether a variable is set to anything but `0`.
pub open spec fn is_on(value: Option<Seq<char>>) -> bool {
    match value {
        Some(v) => v != "0"@,
        None => false,
    }
}

/// The options that a builder comes to.
///
/// The unstable options are refused unless they are unlocked. What the
/// command line leaves open, the environment settles: shuffling and its
/// seed where the unstable options are unlocked, capturing, and the
/// number of workers. `--quiet` means the terse format unless a format is
/// given. Tests run unless only benchmarks are asked for.
pub open spec fn finished(b: BuilderView, env: EnvView) -> Result<OptsView, ErrorContextView> {
    let o = b.opts;
    let open = unlocked(o.allowed_unstable);
    if o.force_run_in_process && !open {
        Err(plain("`--force-run-in-process` requires `-Zunstable-options`"@))
    } else if o.exclude_should_panic && !open {
        Err(plain("`--exclude-should-panic` requires `-Zunstable-options`"@))
    } else if o.shuffle && !open {
        Err(plain("`--shuffle` requires `-Zunstable-options`"@))
    } else if o.shuffle_seed is Some && !open {
        Err(plain("`--shuffle-seed` requires `-Zunstable-options`"@))
    } else if o.shuffle_seed is None && open && env.shuffle_seed is Some && parsed_u64(
        env.shuffle_seed->0,
    ) is Err {
        Err(plain("RUST_TEST_SHUFFLE_SEED is `{val}`, should be a number."@))
    } else if b.format is Some && !open {
        Err(plain("`--format` requires `-Zunstable-options`"@))
    } else if b.include_ignored && b.ignored {
        Err(plain("`--include-ignored` and `--ignored` are mutually exclusive"@))
    } else if o.test_threads is None && env.test_threads is Some && parsed_count(
        env.test_threads->0,
    ) is Err {
        Err(
            plain(
                "RUST_TEST_THREADS is `"@ + env.test_threads->0
                    + "`, should be a positive integer."@,
            ),
        )
    } else {
        Ok(
            OptsView {
                shuffle: if !o.shuffle && open {
                    is_on(env.shuffle)
                } else {
                    o.shuffle
                },
                shuffle_seed: if o.shuffle_seed is None && open && env.shuffle_seed is Some {
                    Some(parsed_u64(env.shuffle_seed->0)->Ok_0)
                } else {
                    o.shuffle_seed
                },
                nocapture: o.nocapture || is_on(env.nocapture),
                format: match b.format {
                    Some(f) => f,
                    None => if b.quiet {
                        OutputFormat::Terse
                    } else {
                        o.format
                    },
                },
                run_tests: o.run_tests || !o.bench_benchmarks,
                run_ignored: if b.include_ignored {
                    RunIgnored::Yes
                } else if b.ignored {
                    RunIgnored::Only
                } else {
                    RunIgnored::No
                },
                test_threads: if o.test_threads is None && env.test_threads is Some {
                    Some(parsed_count(env.test_threads->0)->Ok_0)
                } else {
                    o.test_threads
                },
                ..o
            },
        )
    }
}

/// The options of a run in the making.
#[derive(Debug)]
pub struct TestOptsBuilder {
    opts: TestOpts,
    quiet: bool,
    format: Option<OutputFormat>,
    include_ignored: bool,
    ignored: bool,
}

impl View for TestOptsBuilder {
    type V = BuilderView;

    closed spec fn view(&self) -> BuilderView {
        BuilderView {
            opts: self.opts@,
            quiet: self.quiet,
            format: self.format,
            include_ignored: self.include_ignored,
            ignored: self.ignored,
        }
    }
}

fn is_on_exec(value: &Option<String>) -> (r: bool)
    ensures
        r == is_on(text_of(*value)),
{
    match value {
        Some(v) => !same_text(v.as_str(), "0"),
        None => false,
    }
}

fn is_unlocked(features: &Vec<String>) -> (r: bool)
    ensures
        r == unlocked(texts(features@)),
{
    let mut i: usize = 0;
    while i < features.len()
        invariant
            i <= features@.len(),
            forall|k: int| 0 <= k < i ==> #[trigger] texts(features@)[k] != "unstable-options"@,
        decreases features@.len() - i,
    {
        if same_text(features[i].as_str(), UNSTABLE_OPTIONS) {
            assert(texts(features@)[i as int] == "unstable-options"@);
            return true;
        }
        i += 1;
    }
    false
}

fn is_long(arg: &Arg, name: &str) -> (r: bool)
    ensures
        r == long_flag(arg@, name@),
{
    reveal(long_flag);
    match arg {
        Arg::Long(n) => same_text(n.as_str(), name),
        _ => false,
    }
}

fn is_short(arg: &Arg, name: &str) -> (r: bool)
    ensures
        r == short_flag(arg@, name@),
{
    reveal(short_flag);
    match arg {
        Arg::Short(n) => same_text(n.as_str(), name),
        _ => false,
    }
}

fn placeholder(arg: &Arg) -> (r: Option<&'static str>)
    ensures
        crate::json::slice_text(r) == placeholder_of(arg@),
{
    if is_long(arg, "test-threads") {
        Some("NUM")
    } else if is_long(arg, "skip") {
        Some("NAME")
    } else if is_long(arg, "color") {
        Some("WHEN")
    } else if is_long(arg, "format") {
        Some("FORMAT")
    } else if is_short(arg, "Z") {
        Some("FEATURE")
    } else if is_long(arg, "shuffle-seed") {
        Some("SEED")
    } else {
        None
    }
}

fn color_choice(value: &str, arg: Arg) -> (r: Result<ColorConfig, ErrorContext>)
    ensures
        match color_named(value@) {
            Some(c) => r == Ok::<ColorConfig, ErrorContext>(c),
            None => r is Err && r->Err_0@ == (ErrorContextView {
                within: Some(arg@),
                ..plain(choices_text(color_names()))
            }),
        },
{
    let mut possible: Vec<&str> = Vec::new();
    possible.push("auto");
    possible.push("always");
    possible.push("never");
    assert(possible@ =~= color_names());
    proof {
        if color_named(value@) is Some {
            if value@ == "auto"@ {
                assert(possible@[0]@ == value@);
            } else if value@ == "always"@ {
                assert(possible@[1]@ == value@);
            } else {
                assert(possible@[2]@ == value@);
            }
        }
    }
    match one_of(value, &possible) {
        Err(e) => Err(e.within(arg)),
        Ok(_) => {
            if same_text(value, "auto") {
                Ok(ColorConfig::AutoColor)
            } else if same_text(value, "always") {
                Ok(ColorConfig::AlwaysColor)
            } else {
                Ok(ColorConfig::NeverColor)
            }
        },
    }
}

fn format_choice(value: &str, arg: Arg) -> (r: Result<OutputFormat, ErrorContext>)
    ensures
        match format_named(value@) {
            Some(f) => r == Ok::<OutputFormat, ErrorContext>(f),
            None => r is Err && r->Err_0@ == (ErrorContextView {
                within: Some(arg@),
                ..plain(choices_text(format_names()))
            }),
        },
{
    let mut possible: Vec<&str> = Vec::new();
    possible.push("pretty");
    possible.push("terse");
    possible.push("json");
    possible.push("junit");
    assert(possible@ =~= format_names());
    proof {
        if format_named(value@) is Some {
            if value@ == "pretty"@ {
                assert(possible@[0]@ == value@);
            } else if value@ == "terse"@ {
                assert(possible@[1]@ == value@);
            } else if value@ == "json"@ {
                assert(possible@[2]@ == value@);
            } else {
                assert(possible@[3]@ == value@);
            }
        }
    }
    match one_of(value, &possible) {
        Err(e) => Err(e.within(arg)),
        Ok(_) => {
            if same_text(value, "pretty") {
                Ok(OutputFormat::Pretty)
            } else if same_text(value, "terse") {
                Ok(OutputFormat::Terse)
            } else if same_text(value, "json") {
                Ok(OutputFormat::Json)
            } else {
                Ok(OutputFormat::Junit)
            }
        },
    }
}
/// What the flag `arg` makes of the value `value`.
fn value_effect(arg: Arg, env: &Env, value: String) -> (r: Result<Effect, ErrorContext>)
    ensures
        match effect_of(arg@, env@, value@) {
            Ok(effect) => r is Ok && r->Ok_0@ == effect,
            Err(e) => r is Err && r->Err_0@ == e,
        },
{
    if is_long(&arg, "test-threads") {
        match parse_workers(value.as_str()) {
            Ok(n) => Ok(Effect::Threads(n)),
            Err(e) => Err(e.within(arg)),
        }
    } else if is_long(&arg, "skip") {
        Ok(Effect::Skip(value))
    } else if is_long(&arg, "color") {
        match color_choice(value.as_str(), arg) {
            Ok(color) => Ok(Effect::Color(color)),
            Err(e) => Err(e),
        }
    } else if is_long(&arg, "format") {
        match format_choice(value.as_str(), arg) {
            Ok(format) => Ok(Effect::Format(format)),
            Err(e) => Err(e),
        }
    } else if is_short(&arg, "Z") {
        if env.nightly {
            Ok(Effect::Unstable(value))
        } else {
            Err(ErrorContext::msg("expected nightly compiler").unexpected(arg))
        }
    } else {
        match parse_number(value.as_str()) {
            Ok(n) => Ok(Effect::Seed(n)),
            Err(e) => Err(e.within(arg)),
        }
    }
}

/// The time options for a run that fails on excess, with the limits that
/// the environment sets, and the error of the first limit that is wrong.
fn ensure_time(time: TestTimeOptions, env: &Env) -> (r: (TestTimeOptions, Option<ErrorContext>))
    ensures
        r.0 == ensured_time(time, env@).0,
        match ensured_time(time, env@).1 {
            Some(e) => r.1 is Some && r.1->0@ == e,
            None => r.1 is None,
        },
{
    let mut time = time;
    time.error_on_excess = true;
    match TimeThreshold::from_env_var("RUST_TEST_TIME_UNIT", &env.time_unit) {
        Err(e) => {
            return (time, Some(e));
        },
        Ok(Some(threshold)) => {
            time.unit_threshold = threshold;
        },
        Ok(None) => {},
    }
    match TimeThreshold::from_env_var("RUST_TEST_TIME_INTEGRATION", &env.time_integration) {
        Err(e) => {
            return (time, Some(e));
        },
        Ok(Some(threshold)) => {
            time.integration_threshold = threshold;
        },
        Ok(None) => {},
    }
    match TimeThreshold::from_env_var("RUST_TEST_TIME_DOCTEST", &env.time_doctest) {
        Err(e) => {
            return (time, Some(e));
        },
        Ok(Some(threshold)) => {
            time.doctest_threshold = threshold;
        },
        Ok(None) => {},
    }
    (time, None)
}

/// The time options of a run that fails on excess, and what reading
/// `--ensure-time` comes to.
fn ensured(time: Option<TestTimeOptions>, env: &Env) -> (r: (
    Option<TestTimeOptions>,
    Result<Option<Arg>, ErrorContext>,
))
    ensures
        r.0 == Some(ensured_time(time_or_default(time), env@).0),
        result_of(r.1) == (match ensured_time(time_or_default(time), env@).1 {
            Some(e) => Err::<Option<ArgView>, ErrorContextView>(e),
            None => Ok(None),
        }),
{
    let time = match time {
        Some(t) => t,
        None => TestTimeOptions::default(),
    };
    let (time, error) = ensure_time(time, env);
    let result = match error {
        Some(e) => Err(e),
        None => Ok(None),
    };
    (Some(time), result)
}

fn is_value(arg: &Arg) -> (r: bool)
    ensures
        r == arg@ is Value,
{
    match arg {
        Arg::Value(_) => true,
        _ => false,
    }
}

fn threads_after(effect: &Effect, old: Option<usize>) -> (r: Option<usize>)
    ensures
        r == (match effect@ {
            EffectView::Threads(n) => Some(n),
            _ => old,
        }),
{
    match effect {
        Effect::Threads(n) => Some(*n),
        _ => old,
    }
}

fn color_after(effect: &Effect, old: ColorConfig) -> (r: ColorConfig)
    ensures
        r == (match effect@ {
            EffectView::Color(c) => c,
            _ => old,
        }),
{
    match effect {
        Effect::Color(c) => *c,
        _ => old,
    }
}

fn seed_after(effect: &Effect, old: Option<u64>) -> (r: Option<u64>)
    ensures
        r == (match effect@ {
            EffectView::Seed(n) => Some(n),
            _ => old,
        }),
{
    match effect {
        Effect::Seed(n) => Some(*n),
        _ => old,
    }
}

fn format_after(effect: &Effect, old: Option<OutputFormat>) -> (r: Option<OutputFormat>)
    ensures
        r == (match effect@ {
            EffectView::Format(f) => Some(f),
            _ => old,
        }),
{
    match effect {
        Effect::Format(f) => Some(*f),
        _ => old,
    }
}

/// The pattern to skip and the feature to unlock that an effect holds.
fn texts_in(effect: Effect) -> (r: (Option<String>, Option<String>))
    ensures
        text_of(r.0) == (match effect@ {
            EffectView::Skip(v) => Some(v),
            _ => None,
        }),
        text_of(r.1) == (match effect@ {
            EffectView::Unstable(v) => Some(v),
            _ => None,
        }),
{
    match effect {
        Effect::Skip(v) => (Some(v), None),
        Effect::Unstable(v) => (None, Some(v)),
        _ => (None, None),
    }
}

/// The filter that an argument is, where it is a value.
fn filter_in(arg: &Arg) -> (r: Option<String>)
    ensures
        text_of(r) == (match arg@ {
            ArgView::Value(filter) => Some(filter),
            _ => None,
        }),
{
    match arg {
        Arg::Value(filter) => Some(filter.clone()),
        _ => None,
    }
}

/// The list with one more text, where there is one.
fn with_text(list: Vec<String>, more: Option<String>) -> (r: Vec<String>)
    ensures
        texts(r@) == (match text_of(more) {
            Some(v) => texts(list@).push(v),
            None => texts(list@),
        }),
{
    let mut list = list;
    match more {
        Some(v) => {
            proof {
                assert(texts(list@.push(v)) =~= texts(list@).push(v@));
            }
            list.push(v);
        },
        None => {},
    }
    list
}

fn reported(time: Option<TestTimeOptions>, report: bool) -> (r: Option<TestTimeOptions>)
    ensures
        r == (if report {
            Some(time_or_default(time))
        } else {
            time
        }),
{
    if report {
        Some(
            match time {
                Some(t) => t,
                None => TestTimeOptions::default(),
            },
        )
    } else {
        time
    }
}

fn quieted(format: Option<OutputFormat>, quiet: bool) -> (r: Option<OutputFormat>)
    ensures
        r == (if quiet {
            None
        } else {
            format
        }),
{
    if quiet {
        None
    } else {
        format
    }
}

/// What the rest of the command line and the environment settle.
struct Settled {
    shuffle: bool,
    shuffle_seed: Option<u64>,
    nocapture: bool,
    format: OutputFormat,
    run_tests: bool,
    run_ignored: RunIgnored,
    test_threads: Option<usize>,
}

impl TestOptsBuilder {
    /// A builder that has read nothing.
    pub fn new() -> (r: Self)
        ensures
            r@ == (BuilderView {
                opts: default_opts(),
                quiet: false,
                format: None,
                include_ignored: false,
                ignored: false,
            }),
    {
        let opts = TestOpts::default();
        assert(opts@.filters =~= Seq::<Seq<char>>::empty());
        assert(opts@.skip =~= Seq::<Seq<char>>::empty());
        assert(opts@.allowed_unstable =~= Seq::<Seq<char>>::empty());
        TestOptsBuilder { opts, quiet: false, format: None, include_ignored: false, ignored: false }
    }

    fn apply(self, effect: Effect) -> (r: Self)
        ensures
            r@ == applied(self@, effect@),
    {
        let TestOptsBuilder { opts, quiet, format, include_ignored, ignored } = self;
        let TestOpts {
            list,
            filters,
            filter_exact,
            force_run_in_process,
            exclude_should_panic,
            run_ignored,
            run_tests,
            bench_benchmarks,
            nocapture,
            color,
            format: output,
            shuffle,
            shuffle_seed,
            test_threads,
            skip,
            time_options,
            fail_fast,
            options,
            allowed_unstable,
            logfile,
        } = opts;
        let test_threads = threads_after(&effect, test_threads);
        let color = color_after(&effect, color);
        let shuffle_seed = seed_after(&effect, shuffle_seed);
        let format = format_after(&effect, format);
        let (skipped, unlocked) = texts_in(effect);
        let skip = with_text(skip, skipped);
        let allowed_unstable = with_text(allowed_unstable, unlocked);
        TestOptsBuilder {
            opts: TestOpts {
                list,
                filters,
                filter_exact,
                force_run_in_process,
                exclude_should_panic,
                run_ignored,
                run_tests,
                bench_benchmarks,
                nocapture,
                color,
                format: output,
                shuffle,
                shuffle_seed,
                test_threads,
                skip,
                time_options,
                fail_fast,
                options,
                allowed_unstable,
                logfile,
            },
            quiet,
            format,
            include_ignored,
            ignored,
        }
    }

    fn switch(self, arg: &Arg) -> (r: (Self, bool))
        ensures
            r.0@ == switched(self@, arg@),
            r.1 == is_switch(arg@),
    {
        let TestOptsBuilder { opts, quiet, format, include_ignored, ignored } = self;
        let TestOpts {
            list,
            filters,
            filter_exact,
            force_run_in_process,
            exclude_should_panic,
            run_ignored,
            run_tests,
            bench_benchmarks,
            nocapture,
            color,
            format: output,
            shuffle,
            shuffle_seed,
            test_threads,
            skip,
            time_options,
            fail_fast,
            options,
            allowed_unstable,
            logfile,
        } = opts;
        let is_q = is_short(arg, "q");
        let is_quiet_flag = is_long(arg, "quiet");
        let is_quiet = is_q || is_quiet_flag;
        let is_report = is_long(arg, "report-time");
        let is_include_ignored = is_long(arg, "include-ignored");
        let is_ignored = is_long(arg, "ignored");
        let is_force = is_long(arg, "force-run-in-process");
        let is_exclude = is_long(arg, "exclude-should-panic");
        let is_test = is_long(arg, "test");
        let is_bench = is_long(arg, "bench");
        let is_list = is_long(arg, "list");
        let is_nocapture = is_long(arg, "nocapture");
        let is_exact = is_long(arg, "exact");
        let is_shuffle = is_long(arg, "shuffle");
        let is_show = is_long(arg, "show-output");
        let is_filter = is_value(arg);
        let filters = with_text(filters, filter_in(arg));
        let time_options = reported(time_options, is_report);
        let format = quieted(format, is_quiet);
        let handled = is_quiet || is_report || is_include_ignored || is_ignored || is_force
            || is_exclude || is_test || is_bench || is_list || is_nocapture || is_exact
            || is_shuffle || is_show || is_filter;
        proof {
            reveal(long_flag);
            reveal(short_flag);
        }
        let next = TestOptsBuilder {
            opts: TestOpts {
                list: list || is_list,
                filters,
                filter_exact: filter_exact || is_exact,
                force_run_in_process: force_run_in_process || is_force,
                exclude_should_panic: exclude_should_panic || is_exclude,
                run_ignored,
                run_tests: run_tests || is_test,
                bench_benchmarks: bench_benchmarks || is_bench,
                nocapture: nocapture || is_nocapture,
                color,
                format: output,
                shuffle: shuffle || is_shuffle,
                shuffle_seed,
                test_threads,
                skip,
                time_options,
                fail_fast,
                options: Options {
                    display_output: options.display_output || is_show,
                    panic_abort: options.panic_abort,
                },
                allowed_unstable,
                logfile,
            },
            quiet: quiet || is_quiet,
            format,
            include_ignored: include_ignored || is_include_ignored,
            ignored: ignored || is_ignored,
        };
        (next, handled)
    }

    fn with_flag_value(self, parser: &mut Parser, arg: Arg, name: &str, env: &Env) -> (r: (
        Self,
        Result<Option<Arg>, ErrorContext>,
    ))
        requires
            placeholder_of(arg@) == Some(name@),
        ensures
            r.0@ == parse_step(self@, old(parser)@, arg@, env@).builder,
            final(parser)@ == parse_step(self@, old(parser)@, arg@, env@).parser,
            result_of(r.1) == parse_step(self@, old(parser)@, arg@, env@).result,
    {
        let TestOptsBuilder { opts, quiet, format, include_ignored, ignored } = self;
        let b = TestOptsBuilder {
            opts,
            quiet: quiet && !is_long(&arg, "format"),
            format,
            include_ignored,
            ignored,
        };
        let value = parser.next_flag_value().ok_or_missing(Arg::Value(name.to_owned()));
        match value {
            Err(e) => (b, Err(e.within(arg))),
            Ok(v) => match value_effect(arg, env, v) {
                Ok(effect) => (b.apply(effect), Ok(None)),
                Err(e) => (b, Err(e)),
            },
        }
    }

    fn with_ensured_time(self, env: &Env) -> (r: (Self, Result<Option<Arg>, ErrorContext>))
        ensures
            r.0@ == (BuilderView {
                opts: OptsView {
                    time_options: Some(
                        ensured_time(time_or_default(self@.opts.time_options), env@).0,
                    ),
                    ..self@.opts
                },
                ..self@
            }),
            result_of(r.1) == (match ensured_time(
                time_or_default(self@.opts.time_options),
                env@,
            ).1 {
                Some(e) => Err::<Option<ArgView>, ErrorContextView>(e),
                None => Ok(None),
            }),
    {
        let mut b = self;
        let (time, result) = ensured(b.opts.time_options, env);
        b.opts.time_options = time;
        (b, result)
    }

    fn step(self, parser: &mut Parser, arg: Arg, env: &Env) -> (r: (
        Self,
        Result<Option<Arg>, ErrorContext>,
    ))
        ensures
            r.0@ == parse_step(self@, old(parser)@, arg@, env@).builder,
            final(parser)@ == parse_step(self@, old(parser)@, arg@, env@).parser,
            result_of(r.1) == parse_step(self@, old(parser)@, arg@, env@).result,
    {
        match placeholder(&arg) {
            Some(name) => self.with_flag_value(parser, arg, name, env),
            None => {
                if is_long(&arg, "ensure-time") {
                    self.with_ensured_time(env)
                } else {
                    let (next, handled) = self.switch(&arg);
                    let r = if handled {
                        Ok(None)
                    } else {
                        Ok(Some(arg))
                    };
                    (next, r)
                }
            },
        }
    }

    /// Reads one argument: takes it where it is an option of a test run,
    /// with its value from `parser` where it has one, and hands it back
    /// where it is not.
    pub fn parse_next(&mut self, parser: &mut Parser, arg: Arg, env: &Env) -> (r: Result<
        Option<Arg>,
        ErrorContext,
    >)
        ensures
            final(self)@ == parse_step(old(self)@, old(parser)@, arg@, env@).builder,
            final(parser)@ == parse_step(old(self)@, old(parser)@, arg@, env@).parser,
            result_of(r) == parse_step(old(self)@, old(parser)@, arg@, env@).result,
    {
        let mut b = TestOptsBuilder::new();
        std::mem::swap(self, &mut b);
        let (next, r) = b.step(parser, arg, env);
        *self = next;
        r
    }

    /// What the environment and the rest of the command line settle, or
    /// the error of options that do not go together.
    fn settle(&self, env: &Env) -> (r: Result<Settled, ErrorContext>)
        ensures
            match finished(self@, env@) {
                Ok(o) => {
                    &&& r is Ok
                    &&& r->Ok_0.shuffle == o.shuffle
                    &&& r->Ok_0.shuffle_seed == o.shuffle_seed
                    &&& r->Ok_0.nocapture == o.nocapture
                    &&& r->Ok_0.format == o.format
                    &&& r->Ok_0.run_tests == o.run_tests
                    &&& r->Ok_0.run_ignored == o.run_ignored
                    &&& r->Ok_0.test_threads == o.test_threads
                },
                Err(e) => r is Err && r->Err_0@ == e,
            },
    {
        let open = is_unlocked(&self.opts.allowed_unstable);
        if self.opts.force_run_in_process && !open {
            return Err(
                ErrorContext::msg("`--force-run-in-process` requires `-Zunstable-options`"),
            );
        }
        if self.opts.exclude_should_panic && !open {
            return Err(
                ErrorContext::msg("`--exclude-should-panic` requires `-Zunstable-options`"),
            );
        }
        if self.opts.shuffle && !open {
            return Err(ErrorContext::msg("`--shuffle` requires `-Zunstable-options`"));
        }
        let shuffle = if !self.opts.shuffle && open {
            is_on_exec(&env.shuffle)
        } else {
            self.opts.shuffle
        };
        if self.opts.shuffle_seed.is_some() && !open {
            return Err(ErrorContext::msg("`--shuffle-seed` requires `-Zunstable-options`"));
        }
        let mut shuffle_seed = self.opts.shuffle_seed;
        if self.opts.shuffle_seed.is_none() && open {
            match &env.shuffle_seed {
                Some(val) => match parse_u64(val.as_str()) {
                    Ok(n) => {
                        shuffle_seed = Some(n);
                    },
                    Err(_) => {
                        return Err(
                            ErrorContext::msg(
                                "RUST_TEST_SHUFFLE_SEED is `{val}`, should be a number.",
                            ),
                        );
                    },
                },
                None => {},
            }
        }
        let nocapture = self.opts.nocapture || is_on_exec(&env.nocapture);
        if self.format.is_some() && !open {
            return Err(ErrorContext::msg("`--format` requires `-Zunstable-options`"));
        }
        let format = match self.format {
            Some(format) => format,
            None => if self.quiet {
                OutputFormat::Terse
            } else {
                self.opts.format
            },
        };
        let run_tests = self.opts.run_tests || !self.opts.bench_benchmarks;
        if self.include_ignored && self.ignored {
            return Err(
                ErrorContext::msg("`--include-ignored` and `--ignored` are mutually exclusive"),
            );
        }
        let run_ignored = if self.include_ignored {
            RunIgnored::Yes
        } else if self.ignored {
            RunIgnored::Only
        } else {
            RunIgnored::No
        };
        let mut test_threads = self.opts.test_threads;
        if self.opts.test_threads.is_none() {
            match &env.test_threads {
                Some(value) => match parse_count(value.as_str()) {
                    Ok(n) => {
                        test_threads = Some(n);
                    },
                    Err(_) => {
                        let mut message = String::new();
                        push_text(&mut message, "RUST_TEST_THREADS is `");
                        push_text(&mut message, value.as_str());
                        push_text(&mut message, "`, should be a positive integer.");
                        assert(message@ =~= "RUST_TEST_THREADS is `"@ + value@
                            + "`, should be a positive integer."@);
                        return Err(ErrorContext::msg(message.as_str()));
                    },
                },
                None => {},
            }
        }
        Ok(
            Settled {
                shuffle,
                shuffle_seed,
                nocapture,
                format,
                run_tests,
                run_ignored,
                test_threads,
            },
        )
    }

    /// Ends the reading and settles the options.
    pub fn finish(self, env: &Env) -> (r: Result<TestOpts, ErrorContext>)
        ensures
            match finished(self@, env@) {
                Ok(o) => r is Ok && r->Ok_0@ == o,
                Err(e) => r is Err && r->Err_0@ == e,
            },
    {
        match self.settle(env) {
            Err(e) => Err(e),
            Ok(settled) => {
                let mut opts = self.opts;
                opts.shuffle = settled.shuffle;
                opts.shuffle_seed = settled.shuffle_seed;
                opts.nocapture = settled.nocapture;
                opts.format = settled.format;
                opts.run_tests = settled.run_tests;
                opts.run_ignored = settled.run_ignored;
                opts.test_threads = settled.test_threads;
                Ok(opts)
            },
        }
    }
}

} // verus!
