//! Which cases a run selects: include filters and skip patterns.

use vstd::prelude::*;
use crate::options::texts;
use crate::text::contains;
use crate::text::contains_seq;
use crate::text::same_text;

verus! {

/// A name matches a pattern when it equals it (`exact`) or contains it.
pub open spec fn matches(name: Seq<char>, pattern: Seq<char>, exact: bool) -> bool {
    if exact {
        name == pattern
    } else {
        contains_seq(name, pattern)
    }
}

/// A name matches at least one of the patterns.
pub open spec fn matches_any(name: Seq<char>, patterns: Seq<Seq<char>>, exact: bool) -> bool {
    exists|i: int| 0 <= i < patterns.len() && matches(name, #[trigger] patterns[i], exact)
}

/// A case is selected when no filter is given or one matches its name, and
/// no skip pattern matches it.
pub open spec fn selected(
    name: Seq<char>,
    filters: Seq<Seq<char>>,
    skip: Seq<Seq<char>>,
    exact: bool,
) -> bool {
    (filters.len() == 0 || matches_any(name, filters, exact)) && !matches_any(name, skip, exact)
}

/// Whether `name` matches `filter`.
pub fn matches_filter(name: &str, filter: &str, exact: bool) -> (r: bool)
    ensures
        r == matches(name@, filter@, exact),
{
    if exact {
        same_text(name, filter)
    } else {
        contains(name, filter)
    }
}

/// Whether `name` matches one of `patterns`.
pub fn matches_any_filter(name: &str, patterns: &Vec<String>, exact: bool) -> (r: bool)
    ensures
        r == matches_any(name@, texts(patterns@), exact),
{
    let mut i: usize = 0;
    while i < patterns.len()
        invariant
            i <= patterns@.len(),
            forall|j: int| 0 <= j < i ==> !matches(name@, #[trigger] texts(patterns@)[j], exact),
        decreases patterns@.len() - i,
    {
        if matches_filter(name, patterns[i].as_str(), exact) {
            assert(matches(name@, texts(patterns@)[i as int], exact));
            return true;
        }
        i += 1;
    }
    false
}

/// Whether a run with these filters and skip patterns selects `name`.
pub fn is_selected(name: &str, filters: &Vec<String>, skip: &Vec<String>, exact: bool) -> (r:
    bool)
    ensures
        r == selected(name@, texts(filters@), texts(skip@), exact),
{
    let filtered_in = filters.len() == 0 || matches_any_filter(name, filters, exact);
    let filtered_out = skip.len() != 0 && matches_any_filter(name, skip, exact);
    filtered_in && !filtered_out
}

/// With at least one filter, a case is selected exactly when its name
/// matches some filter and matches no skip pattern.
pub proof fn selection_is_filters_minus_skips(
    name: Seq<char>,
    filters: Seq<Seq<char>>,
    skip: Seq<Seq<char>>,
    exact: bool,
)
    requires
        filters.len() > 0,
    ensures
        selected(name, filters, skip, exact) <==> (matches_any(name, filters, exact)
            && !matches_any(name, skip, exact)),
{
}

/// A skip pattern that matches a name keeps the case out, whatever the
/// filters are.
pub proof fn skip_wins(
    name: Seq<char>,
    filters: Seq<Seq<char>>,
    skip: Seq<Seq<char>>,
    exact: bool,
)
    requires
        matches_any(name, skip, exact),
    ensures
        !selected(name, filters, skip, exact),
{
}

} // verus!
