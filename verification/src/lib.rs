//! A test-execution engine: discovery, filtering, reproducible shuffling,
//! scheduling and event rendering for named test cases.
//!
//! The engine decides and renders; it neither runs a case nor writes a
//! byte. A caller registers cases with a [`Harness`], reads the options
//! with a [`builder::TestOptsBuilder`], lets [`discover::discover`] order
//! and select the cases, and then follows a [`scheduler::Scheduler`]: it
//! runs the case that the scheduler starts and reports how it ended. Every
//! event goes to one [`harness::Renderer`], which returns the text to
//! write.

pub mod args;
pub mod builder;
pub mod case;
pub mod clock;
pub mod discover;
pub mod event;
pub mod ext;
pub mod filter;
pub mod harness;
pub mod json;
pub mod junit;
pub mod options;
pub mod order;
pub mod pretty;
pub mod scheduler;
pub mod shuffle;
pub mod state;
pub mod style;
pub mod summary;
pub mod terse;
pub mod text;
pub mod value;

pub use crate::case::Case;
pub use crate::case::RunError;
pub use crate::case::RunResult;
pub use crate::case::Source;
pub use crate::case::TestKind;
pub use crate::case::Trial;
pub use crate::event::RunMode;
pub use crate::harness::Harness;
pub use crate::state::State;
