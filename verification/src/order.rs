//! Reordering a list of cases in place: exchanging two entries and sorting
//! by name.

use vstd::prelude::*;
use crate::case::Case;
use crate::text::lex_le;
use crate::text::lex_le_total;
use crate::text::sorts_before;

verus! {

/// The sequence with the entries at `i` and `j` exchanged.
pub open spec fn swapped<T>(s: Seq<T>, i: int, j: int) -> Seq<T> {
    s.update(i, s[j]).update(j, s[i])
}

/// Exchanging two entries keeps every entry, each as often as before.
pub proof fn swapped_is_permutation<T>(s: Seq<T>, i: int, j: int)
    requires
        0 <= i < s.len(),
        0 <= j < s.len(),
    ensures
        swapped(s, i, j).to_multiset() == s.to_multiset(),
        swapped(s, i, j).len() == s.len(),
{
    broadcast use vstd::multiset::group_multiset_axioms;

    if i == j {
        assert(swapped(s, i, j) =~= s);
    } else {
        let mid = s.update(i, s[j]);
        vstd::seq_lib::to_multiset_update(s, i, s[j]);
        vstd::seq_lib::to_multiset_update(mid, j, s[i]);
        vstd::seq_lib::to_multiset_contains(s, s[i]);
        vstd::seq_lib::to_multiset_contains(s, s[j]);
        assert(s.contains(s[i]));
        assert(s.contains(s[j]));
        assert(mid[j] == s[j]);
        let whole = s.to_multiset();
        let result = whole.insert(s[j]).remove(s[i]).insert(s[i]).remove(s[j]);
        assert(swapped(s, i, j).to_multiset() == result);
        assert forall|v: T| result.count(v) == whole.count(v) by {}
        assert(result =~= whole);
    }
}

/// Exchanges the entries at `i` and `j`.
pub fn swap_items<T>(v: &mut Vec<T>, i: usize, j: usize)
    requires
        i < old(v)@.len(),
        j < old(v)@.len(),
    ensures
        final(v)@ == swapped(old(v)@, i as int, j as int),
{
    if i == j {
        assert(swapped(v@, i as int, j as int) =~= v@);
        return ;
    }
    let lo: usize = if i < j {
        i
    } else {
        j
    };
    let hi: usize = if i < j {
        j
    } else {
        i
    };
    let high = v.remove(hi);
    let low = v.remove(lo);
    v.insert(lo, high);
    v.insert(hi, low);
    assert(v@ =~= swapped(old(v)@, i as int, j as int));
}

/// The names of a sequence of cases.
pub open spec fn names_of<C: Case>(cases: Seq<C>) -> Seq<Seq<char>> {
    cases.map_values(|c: C| c.name_text())
}

/// Each name sorts at or before the one that follows it.
pub open spec fn sorted_by_name(names: Seq<Seq<char>>) -> bool {
    forall|i: int| 0 <= i < names.len() - 1 ==> lex_le(#[trigger] names[i], names[i + 1])
}

/// Sorts the cases by name, in the order of the names' characters.
pub fn sort_by_name<C: Case>(cases: &mut Vec<C>)
    ensures
        sorted_by_name(names_of(final(cases)@)),
        final(cases)@.to_multiset() == old(cases)@.to_multiset(),
        final(cases)@.len() == old(cases)@.len(),
{
    let n: usize = cases.len();
    let mut i: usize = 1;
    while i < n
        invariant
            1 <= i,
            n == cases@.len(),
            cases@.to_multiset() == old(cases)@.to_multiset(),
            forall|k: int| 0 <= k < i - 1 && k < n - 1 ==> lex_le(
                #[trigger] names_of(cases@)[k],
                names_of(cases@)[k + 1],
            ),
        decreases n - i,
    {
        let mut j: usize = i;
        while j > 0 && !sorts_before(cases[j - 1].name(), cases[j].name())
            invariant
                j <= i < n,
                n == cases@.len(),
                cases@.to_multiset() == old(cases)@.to_multiset(),
                forall|k: int| 0 <= k < i && k != j - 1 ==> lex_le(
                    #[trigger] names_of(cases@)[k],
                    names_of(cases@)[k + 1],
                ),
                0 < j < i ==> lex_le(names_of(cases@)[j - 1], names_of(cases@)[j + 1]),
            decreases j,
        {
            let ghost before = cases@;
            proof {
                lex_le_total(before[j - 1].name_text(), before[j as int].name_text());
                swapped_is_permutation(before, j - 1, j as int);
            }
            swap_items(cases, j - 1, j);
            proof {
                let after = cases@;
                assert forall|k: int| 0 <= k < i && k != j - 2 implies lex_le(
                    #[trigger] names_of(after)[k],
                    names_of(after)[k + 1],
                ) by {
                    if k == j - 1 {
                        assert(names_of(after)[k] == names_of(before)[j as int]);
                        assert(names_of(after)[k + 1] == names_of(before)[j - 1]);
                    } else if k == j {
                        assert(names_of(after)[k] == names_of(before)[j - 1]);
                        assert(names_of(after)[k + 1] == names_of(before)[j + 1]);
                    } else {
                        assert(names_of(after)[k] == names_of(before)[k]);
                        assert(names_of(after)[k + 1] == names_of(before)[k + 1]);
                    }
                }
                if 0 < j - 1 {
                    assert(names_of(after)[j - 2] == names_of(before)[j - 2]);
                    assert(names_of(after)[j as int] == names_of(before)[j - 1]);
                    assert(lex_le(names_of(before)[j - 2], names_of(before)[j - 2 + 1]));
                }
            }
            j -= 1;
        }
        i += 1;
    }
}

} // verus!
