//! Reading the values of flags, and adding to errors where they arose.

use vstd::prelude::*;
use crate::args::Arg;
use crate::args::ArgView;
use crate::args::ErrorContext;
use crate::args::ErrorContextView;
use crate::args::arg_text;
use crate::text::NumberError;
use crate::text::parse_count;
use crate::text::parse_u64;
use crate::text::parsed_count;
use crate::text::parsed_u64;
use crate::text::push_text;
use crate::text::same_text;

verus! {

/// The content of a result that may hold an error of reading arguments.
pub open spec fn error_of<T>(r: Result<T, ErrorContext>) -> Option<ErrorContextView> {
    match r {
        Ok(_) => None,
        Err(e) => Some(e@),
    }
}

/// Adds to an error where it arose.
pub trait ResultContextExt: Sized {
    /// Names the argument that an error, if there is one, occurred within.
    fn within(self, within: Arg) -> Self;
}

impl<T> ResultContextExt for Result<T, ErrorContext> {
    fn within(self, within: Arg) -> (r: Self)
        ensures
            match self {
                Ok(v) => r == self,
                Err(e) => r is Err && r->Err_0@ == (ErrorContextView {
                    within: Some(within@),
                    ..e@
                }),
            },
    {
        match self {
            Ok(v) => Ok(v),
            Err(e) => Err(e.within(within)),
        }
    }
}

/// The message for a required argument that is missing.
pub open spec fn missing_text(expected: ArgView) -> Seq<char> {
    "missing required `"@ + arg_text(expected) + "`"@
}

/// Makes the absence of a required argument an error.
pub trait OptionContextExt<T>: Sized {
    /// The value, or the error that `expected` is missing; for a value,
    /// `expected` holds a placeholder.
    fn ok_or_missing(self, expected: Arg) -> Result<T, ErrorContext>;
}

impl<T> OptionContextExt<T> for Option<T> {
    fn ok_or_missing(self, expected: Arg) -> (r: Result<T, ErrorContext>)
        ensures
            match self {
                Some(v) => r == Ok::<T, ErrorContext>(v),
                None => r is Err && r->Err_0@ == (ErrorContextView {
                    msg: missing_text(expected@),
                    within: None,
                    unexpected: None,
                }),
            },
    {
        match self {
            Some(v) => Ok(v),
            None => {
                let mut message = String::new();
                push_text(&mut message, "missing required `");
                crate::args::push_arg(&mut message, &expected);
                push_text(&mut message, "`");
                assert(message@ =~= missing_text(expected@));
                Err(ErrorContext::msg(message.as_str()))
            },
        }
    }
}

/// Whether `value` is one of `possible`.
pub open spec fn is_one_of(value: Seq<char>, possible: Seq<&str>) -> bool {
    exists|i: int| 0 <= i < possible.len() && (#[trigger] possible[i])@ == value
}

/// The possible values from the second on, each after a comma.
pub open spec fn further_choices(possible: Seq<&str>) -> Seq<char>
    decreases possible.len(),
{
    if possible.len() <= 1 {
        Seq::<char>::empty()
    } else {
        further_choices(possible.drop_last()) + ", `"@ + possible.last()@ + "`"@
    }
}

/// The message for a value that is none of the possible ones.
pub open spec fn choices_text(possible: Seq<&str>) -> Seq<char> {
    Seq::<char>::empty() + "expected one of `"@ + possible[0]@ + "`"@ + further_choices(possible)
}

/// Checks that `value` is one of `possible`, which are at least one.
pub fn one_of(value: &str, possible: &Vec<&str>) -> (r: Result<(), ErrorContext>)
    requires
        possible@.len() > 0,
    ensures
        is_one_of(value@, possible@) ==> r is Ok,
        !is_one_of(value@, possible@) ==> r is Err && r->Err_0@ == (ErrorContextView {
            msg: choices_text(possible@),
            within: None,
            unexpected: None,
        }),
{
    let mut i: usize = 0;
    while i < possible.len()
        invariant
            i <= possible@.len(),
            forall|k: int| 0 <= k < i ==> (#[trigger] possible@[k])@ != value@,
        decreases possible@.len() - i,
    {
        if same_text(possible[i], value) {
            return Ok(());
        }
        i += 1;
    }
    let mut message = String::new();
    push_text(&mut message, "expected one of `");
    push_text(&mut message, possible[0]);
    push_text(&mut message, "`");
    let ghost head = message@;
    let mut k: usize = 1;
    assert(possible@.take(1).len() == 1);
    assert(head + further_choices(possible@.take(1)) =~= head);
    while k < possible.len()
        invariant
            1 <= k <= possible@.len(),
            message@ == head + further_choices(possible@.take(k as int)),
        decreases possible@.len() - k,
    {
        proof {
            assert(possible@.take(k + 1).drop_last() =~= possible@.take(k as int));
            assert(possible@.take(k + 1).last() == possible@[k as int]);
        }
        push_text(&mut message, ", `");
        push_text(&mut message, possible[k]);
        push_text(&mut message, "`");
        assert(message@ =~= head + further_choices(possible@.take(k + 1)));
        k += 1;
    }
    assert(possible@.take(k as int) =~= possible@);
    Err(ErrorContext::msg(message.as_str()))
}

/// The error of a value that is not a number.
pub open spec fn number_error(value: Seq<char>, e: NumberError) -> ErrorContextView {
    ErrorContextView {
        msg: e.sentence(),
        within: None,
        unexpected: Some(ArgView::Value(value)),
    }
}

/// Reads a value as an unsigned 64-bit number.
pub fn parse_number(value: &str) -> (r: Result<u64, ErrorContext>)
    ensures
        match parsed_u64(value@) {
            Ok(n) => r == Ok::<u64, ErrorContext>(n),
            Err(e) => r is Err && r->Err_0@ == number_error(value@, e),
        },
{
    match parse_u64(value) {
        Ok(n) => Ok(n),
        Err(e) => Err(ErrorContext::msg(e.message()).unexpected(Arg::Value(value.to_owned()))),
    }
}

/// Reads a value as a number of workers.
pub fn parse_workers(value: &str) -> (r: Result<usize, ErrorContext>)
    ensures
        match parsed_count(value@) {
            Ok(n) => r == Ok::<usize, ErrorContext>(n),
            Err(e) => r is Err && r->Err_0@ == number_error(value@, e),
        },
{
    match parse_count(value) {
        Ok(n) => Ok(n),
        Err(e) => Err(ErrorContext::msg(e.message()).unexpected(Arg::Value(value.to_owned()))),
    }
}

} // verus!
