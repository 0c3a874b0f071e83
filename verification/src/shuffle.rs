//! Reproducible shuffling of the case list.
//!
//! The order is a function of the seed and of the names of the cases, so
//! that the same seed on the same set of tests gives the same order again.

use vstd::prelude::*;
use std::hash::BuildHasher;
use crate::case::Case;
use crate::options::TestOpts;
use crate::options::texts;
use crate::order::names_of;
use crate::order::swap_items;
use crate::order::swapped;
use crate::order::swapped_is_permutation;

verus! {

/// The hash that the standard library's default hasher gives to a list of
/// names.
pub uninterp spec fn names_hash(names: Seq<Seq<char>>) -> u64;

/// The hash that the standard library's default hasher gives to a pair of
/// numbers.
pub uninterp spec fn pair_hash(state: u64, extra: u64) -> u64;

/// Hashes a list of names with `BuildHasher::hash_one` on the standard
/// library's default hasher. The hasher starts from fixed keys, so the
/// result depends on the names alone.
#[verifier::external_body]
fn hash_names(names: &Vec<String>) -> (r: u64)
    ensures
        r == names_hash(texts(names@)),
{
    std::hash::BuildHasherDefault::<std::collections::hash_map::DefaultHasher>::default().hash_one(
        names,
    )
}

/// Hashes a pair of numbers with `BuildHasher::hash_one` on the standard
/// library's default hasher. The hasher starts from fixed keys, so the
/// result depends on the pair alone.
#[verifier::external_body]
fn hash_pair(state: u64, extra: u64) -> (r: u64)
    ensures
        r == pair_hash(state, extra),
{
    std::hash::BuildHasherDefault::<std::collections::hash_map::DefaultHasher>::default().hash_one(
        (state, extra),
    )
}

/// The seed that a run shuffles with: the one given, else, where shuffling
/// is asked for, the clock reading `now`; `None` where the run does not
/// shuffle.
pub open spec fn seed_for(explicit: Option<u64>, shuffle: bool, now: u64) -> Option<u64> {
    match explicit {
        Some(seed) => Some(seed),
        None => if shuffle {
            Some(now)
        } else {
            None
        },
    }
}

/// The seed for a run with options `opts`, where `now` is the time in
/// nanoseconds since the epoch.
pub fn get_shuffle_seed(opts: &TestOpts, now: u64) -> (r: Option<u64>)
    ensures
        r == seed_for(opts.shuffle_seed, opts.shuffle, now),
{
    match opts.shuffle_seed {
        Some(seed) => Some(seed),
        None => if opts.shuffle {
            Some(now)
        } else {
            None
        },
    }
}

/// A generator of pseudo-random numbers: each draw hashes the state
/// together with a constant and makes the hash the new state.
pub struct Rng {
    pub state: u64,
    pub extra: u64,
}

/// The state of a generator after `draws` draws.
pub open spec fn state_after(state: u64, extra: u64, draws: nat) -> u64
    decreases draws,
{
    if draws == 0 {
        state
    } else {
        state_after(pair_hash(state, extra), extra, (draws - 1) as nat)
    }
}

/// A number brought into `start..end`: the remainder of its division by
/// the width of the range, counted from `start`.
pub open spec fn reduced(draw: u64, start: u64, end: u64) -> u64 {
    (start + draw % ((end - start) as u64)) as u64
}

/// Brings a number into `start..end`.
pub fn reduce(draw: u64, start: u64, end: u64) -> (r: u64)
    requires
        start < end,
    ensures
        r == reduced(draw, start, end),
        start <= r < end,
{
    draw % (end - start) + start
}

impl Rng {
    pub fn new(seed: u64, extra: u64) -> (r: Self)
        ensures
            r.state == seed,
            r.extra == extra,
    {
        Rng { state: seed, extra }
    }

    /// The next number.
    pub fn rand_u64(&mut self) -> (r: u64)
        ensures
            r == pair_hash(old(self).state, old(self).extra),
            final(self).state == r,
            final(self).extra == old(self).extra,
    {
        self.state = hash_pair(self.state, self.extra);
        self.state
    }

    /// The next number, reduced into `start..end`.
    pub fn rand_range(&mut self, start: u64, end: u64) -> (r: u64)
        requires
            start < end,
        ensures
            r == reduced(pair_hash(old(self).state, old(self).extra), start, end),
            start <= r < end,
            final(self).state == pair_hash(old(self).state, old(self).extra),
            final(self).extra == old(self).extra,
    {
        let draw = self.rand_u64();
        reduce(draw, start, end)
    }
}

/// The order that a shuffle gives once the first `i` places are settled:
/// each further place, in turn, gets an entry drawn from those that remain.
pub open spec fn shuffled_from<T>(s: Seq<T>, state: u64, extra: u64, i: nat) -> Seq<T>
    decreases s.len() - i,
{
    if i >= s.len() {
        s
    } else {
        let next = pair_hash(state, extra);
        let pick = i + (next as nat) % ((s.len() - i) as nat);
        shuffled_from(swapped(s, i as int, pick as int), next, extra, i + 1)
    }
}

/// A shuffle keeps every entry, each as often as before.
pub proof fn shuffled_is_permutation<T>(s: Seq<T>, state: u64, extra: u64, i: nat)
    ensures
        shuffled_from(s, state, extra, i).to_multiset() == s.to_multiset(),
        shuffled_from(s, state, extra, i).len() == s.len(),
    decreases s.len() - i,
{
    if i < s.len() {
        let next = pair_hash(state, extra);
        let pick = i + (next as nat) % ((s.len() - i) as nat);
        swapped_is_permutation(s, i as int, pick as int);
        shuffled_is_permutation(swapped(s, i as int, pick as int), next, extra, i + 1);
    }
}

/// Shuffling commutes with reading a property off each entry: which place
/// an entry goes to does not depend on what the entries are.
pub proof fn shuffled_maps<T, U>(
    s: Seq<T>,
    f: spec_fn(T) -> U,
    state: u64,
    extra: u64,
    i: nat,
)
    ensures
        shuffled_from(s, state, extra, i).map_values(f) == shuffled_from(
            s.map_values(f),
            state,
            extra,
            i,
        ),
    decreases s.len() - i,
{
    if i < s.len() {
        let next = pair_hash(state, extra);
        let pick = i + (next as nat) % ((s.len() - i) as nat);
        let t = swapped(s, i as int, pick as int);
        assert(t.map_values(f) =~= swapped(s.map_values(f), i as int, pick as int));
        shuffled_maps(t, f, next, extra, i + 1);
    }
}

/// Shuffles `items` with the numbers that `rng` draws.
pub fn shuffle<T>(rng: &mut Rng, items: &mut Vec<T>)
    ensures
        final(items)@ == shuffled_from(old(items)@, old(rng).state, old(rng).extra, 0),
        final(rng).state == state_after(old(rng).state, old(rng).extra, old(items)@.len()),
        final(rng).extra == old(rng).extra,
{
    let n: usize = items.len();
    let mut i: usize = 0;
    while i < n
        invariant
            i <= n,
            n == items@.len(),
            n == old(items)@.len(),
            rng.extra == old(rng).extra,
            shuffled_from(items@, rng.state, rng.extra, i as nat) == shuffled_from(
                old(items)@,
                old(rng).state,
                old(rng).extra,
                0,
            ),
            state_after(rng.state, rng.extra, (n - i) as nat) == state_after(
                old(rng).state,
                old(rng).extra,
                n as nat,
            ),
        decreases n - i,
    {
        let rest: u64 = (n - i) as u64;
        let pick: u64 = rng.rand_range(0, rest);
        swap_items(items, i, i + pick as usize);
        i += 1;
    }
}

/// The order in which a run with seed `seed` takes `cases`.
pub open spec fn shuffled_order<C: Case>(seed: u64, cases: Seq<C>) -> Seq<C> {
    shuffled_from(cases, seed, names_hash(names_of(cases)), 0)
}

/// Shuffles the cases with `shuffle_seed`. The generator is seeded with
/// the seed and a hash of the names in their present order.
pub fn shuffle_tests<C: Case>(shuffle_seed: u64, tests: &mut Vec<C>)
    ensures
        final(tests)@ == shuffled_order(shuffle_seed, old(tests)@),
        final(tests)@.to_multiset() == old(tests)@.to_multiset(),
        final(tests)@.len() == old(tests)@.len(),
{
    let mut test_names: Vec<String> = Vec::new();
    let mut i: usize = 0;
    while i < tests.len()
        invariant
            i <= tests@.len(),
            tests@ == old(tests)@,
            test_names@.len() == i,
            texts(test_names@) == names_of(tests@).take(i as int),
        decreases tests@.len() - i,
    {
        let name = tests[i].name().to_owned();
        proof {
            let grown = texts(test_names@.push(name));
            let wanted = names_of(tests@).take(i + 1);
            assert(grown.len() == wanted.len());
            assert forall|k: int| 0 <= k < grown.len() implies grown[k] == wanted[k] by {
                if k < i {
                    assert(grown[k] == texts(test_names@)[k]);
                    assert(wanted[k] == names_of(tests@).take(i as int)[k]);
                }
            }
            assert(grown =~= wanted);
        }
        test_names.push(name);
        i += 1;
    }
    proof {
        assert(names_of(tests@).take(i as int) =~= names_of(tests@));
        shuffled_is_permutation(tests@, shuffle_seed, names_hash(names_of(tests@)), 0);
    }
    let test_names_hash = hash_names(&test_names);
    let mut rng = Rng::new(shuffle_seed, test_names_hash);
    shuffle(&mut rng, tests);
}

/// The same seed on the same names gives the same order of names: the
/// order after a shuffle depends on nothing but the seed and the names in
/// the order they had before.
pub proof fn shuffle_is_reproducible<C: Case>(seed: u64, first: Seq<C>, second: Seq<C>)
    requires
        names_of(first) == names_of(second),
    ensures
        names_of(shuffled_order(seed, first)) == names_of(shuffled_order(seed, second)),
{
    let f = |c: C| c.name_text();
    shuffled_maps(first, f, seed, names_hash(names_of(first)), 0);
    shuffled_maps(second, f, seed, names_hash(names_of(second)), 0);
}

} // verus!
