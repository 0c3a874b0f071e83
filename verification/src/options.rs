//! The options of one run, as the command line and the environment give
//! them.

use vstd::prelude::*;

verus! {

/// Whether ignored tests are run.
#[derive(Copy, Clone, Debug, PartialEq, Eq, Structural)]
pub enum RunIgnored {
    Yes,
    No,
    /// Run only ignored tests.
    Only,
}

impl Default for RunIgnored {
    fn default() -> (r: Self)
        ensures
            r == RunIgnored::No,
    {
        RunIgnored::No
    }
}

/// Whether console output is coloured.
#[derive(Copy, Clone, Debug, PartialEq, Eq, Structural)]
pub enum ColorConfig {
    AutoColor,
    AlwaysColor,
    NeverColor,
}

impl Default for ColorConfig {
    fn default() -> (r: Self)
        ensures
            r == ColorConfig::AutoColor,
    {
        ColorConfig::AutoColor
    }
}

/// The format of the report.
#[derive(Copy, Clone, Debug, PartialEq, Eq, Structural)]
pub enum OutputFormat {
    /// One line per case.
    Pretty,
    /// One character per case.
    Terse,
    /// One JSON record per event.
    Json,
    /// One JUnit document per run.
    Junit,
}

impl Default for OutputFormat {
    fn default() -> (r: Self)
        ensures
            r == OutputFormat::Pretty,
    {
        OutputFormat::Pretty
    }
}

/// The time limits of a test, in milliseconds.
#[derive(Copy, Clone, Debug, Default, PartialEq, Eq, Structural)]
pub struct TimeThreshold {
    pub warn: u64,
    pub critical: u64,
}

/// How the time that tests take is judged.
#[derive(Copy, Clone, Debug, PartialEq, Eq, Structural)]
pub struct TestTimeOptions {
    /// Whether a test that exceeds its critical limit has failed.
    pub error_on_excess: bool,
    pub unit_threshold: TimeThreshold,
    pub integration_threshold: TimeThreshold,
    pub doctest_threshold: TimeThreshold,
}

impl Default for TestTimeOptions {
    fn default() -> (r: Self)
        ensures
            r == (TestTimeOptions {
                error_on_excess: false,
                unit_threshold: TimeThreshold { warn: 50, critical: 100 },
                integration_threshold: TimeThreshold { warn: 50, critical: 100 },
                doctest_threshold: TimeThreshold { warn: 50, critical: 100 },
            }),
    {
        TestTimeOptions {
            error_on_excess: false,
            unit_threshold: TimeThreshold { warn: 50, critical: 100 },
            integration_threshold: TimeThreshold { warn: 50, critical: 100 },
            doctest_threshold: TimeThreshold { warn: 50, critical: 100 },
        }
    }
}

/// Options that the caller sets, not the command line.
#[derive(Copy, Clone, Debug, Default, PartialEq, Eq, Structural)]
pub struct Options {
    pub display_output: bool,
    pub panic_abort: bool,
}

/// The options of one run.
#[derive(Debug)]
pub struct TestOpts {
    pub list: bool,
    pub filters: Vec<String>,
    pub filter_exact: bool,
    pub force_run_in_process: bool,
    pub exclude_should_panic: bool,
    pub run_ignored: RunIgnored,
    pub run_tests: bool,
    pub bench_benchmarks: bool,
    pub nocapture: bool,
    pub color: ColorConfig,
    pub format: OutputFormat,
    pub shuffle: bool,
    pub shuffle_seed: Option<u64>,
    /// The number of workers; `None` runs one case at a time.
    pub test_threads: Option<usize>,
    pub skip: Vec<String>,
    pub time_options: Option<TestTimeOptions>,
    /// Stop starting cases once one has failed.
    pub fail_fast: bool,
    pub options: Options,
    pub allowed_unstable: Vec<String>,
    pub logfile: Option<String>,
}

/// The texts of a sequence of strings.
pub open spec fn texts(strings: Seq<String>) -> Seq<Seq<char>> {
    strings.map_values(|s: String| s@)
}

impl Default for TestOpts {
    fn default() -> (r: Self)
        ensures
            !r.list,
            r.filters@.len() == 0,
            !r.filter_exact,
            !r.force_run_in_process,
            !r.exclude_should_panic,
            r.run_ignored == RunIgnored::No,
            !r.run_tests,
            !r.bench_benchmarks,
            !r.nocapture,
            r.color == ColorConfig::AutoColor,
            r.format == OutputFormat::Pretty,
            !r.shuffle,
            r.shuffle_seed is None,
            r.test_threads is None,
            r.skip@.len() == 0,
            r.time_options is None,
            !r.fail_fast,
            r.options == (Options { display_output: false, panic_abort: false }),
            r.allowed_unstable@.len() == 0,
            r.logfile is None,
    {
        TestOpts {
            list: false,
            filters: Vec::new(),
            filter_exact: false,
            force_run_in_process: false,
            exclude_should_panic: false,
            run_ignored: RunIgnored::No,
            run_tests: false,
            bench_benchmarks: false,
            nocapture: false,
            color: ColorConfig::AutoColor,
            format: OutputFormat::Pretty,
            shuffle: false,
            shuffle_seed: None,
            test_threads: None,
            skip: Vec::new(),
            time_options: None,
            fail_fast: false,
            options: Options { display_output: false, panic_abort: false },
            allowed_unstable: Vec::new(),
            logfile: None,
        }
    }
}

} // verus!
