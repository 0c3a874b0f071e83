//! Discovery: putting the registered cases in order, deciding which of
//! them a run selects, and announcing each.

use vstd::prelude::*;
use crate::case::Case;
use crate::clock::start_timer;
use crate::clock::time_since;
use crate::event::Elapsed;
use crate::event::Event;
use crate::event::EventView;
use crate::event::RunMode;
use crate::event::views;
use crate::filter::is_selected;
use crate::filter::selected;
use crate::options::TestOpts;
use crate::options::texts;
use crate::order::names_of;
use crate::order::sort_by_name;
use crate::order::sorted_by_name;
use crate::shuffle::get_shuffle_seed;
use crate::shuffle::seed_for;
use crate::shuffle::shuffle_tests;
use crate::shuffle::shuffled_order;

verus! {

/// The order in which a run takes cases that are sorted by name: shuffled
/// where there is a seed, as they are where there is none.
pub open spec fn arranged<C: Case>(sorted: Seq<C>, seed: Option<u64>) -> Seq<C> {
    match seed {
        Some(s) => shuffled_order(s, sorted),
        None => sorted,
    }
}

/// The announcement of one case.
pub open spec fn announcement(name: Seq<char>, opts: &TestOpts) -> EventView {
    EventView::DiscoverCase {
        name,
        mode: RunMode::Test,
        run: selected(name, texts(opts.filters@), texts(opts.skip@), opts.filter_exact),
    }
}

/// The announcements of the cases, in their order.
pub open spec fn announcements<C: Case>(order: Seq<C>, opts: &TestOpts) -> Seq<EventView> {
    order.map_values(|c: C| announcement(c.name_text(), opts))
}

/// Whether a run with options `opts` selects a case.
pub open spec fn keeps<C: Case>(opts: &TestOpts) -> spec_fn(C) -> bool {
    |c: C| selected(c.name_text(), texts(opts.filters@), texts(opts.skip@), opts.filter_exact)
}

/// The cases of `order` that the run selects, in their order.
pub open spec fn retained<C: Case>(order: Seq<C>, opts: &TestOpts) -> Seq<C> {
    order.filter(keeps(opts))
}

/// The events of a discovery that takes the cases in `order`.
pub open spec fn discovery<C: Case>(
    order: Seq<C>,
    opts: &TestOpts,
    seed: Option<u64>,
    elapsed: Elapsed,
) -> Seq<EventView> {
    seq![EventView::DiscoverStart] + announcements(order, opts) + seq![
        EventView::DiscoverComplete { elapsed_s: elapsed, seed },
    ]
}

/// `sorted` holds the cases of `cases`, sorted by name.
pub open spec fn is_sorting_of<C: Case>(sorted: Seq<C>, cases: Seq<C>) -> bool {
    &&& sorted.to_multiset() == cases.to_multiset()
    &&& sorted.len() == cases.len()
    &&& sorted_by_name(names_of(sorted))
}

/// Announces every case of `order` and keeps the selected ones.
fn announce_and_retain<C: Case>(opts: &TestOpts, cases: &mut Vec<C>, events: &mut Vec<Event>)
    ensures
        views(final(events)@) == views(old(events)@) + announcements(old(cases)@, opts),
        final(cases)@ == retained(old(cases)@, opts),
{
    let ghost order = cases@;
    let ghost keep = keeps::<C>(opts);
    let mut flags: Vec<bool> = Vec::new();
    let mut i: usize = 0;
    while i < cases.len()
        invariant
            i <= cases@.len(),
            cases@ == order,
            flags@.len() == i,
            keep == keeps::<C>(opts),
            forall|k: int| 0 <= k < i ==> flags@[k] == keep(#[trigger] order[k]),
            views(events@) == views(old(events)@) + announcements(order, opts).take(i as int),
        decreases cases@.len() - i,
    {
        let name = cases[i].name();
        let run = is_selected(name, &opts.filters, &opts.skip, opts.filter_exact);
        let event = Event::DiscoverCase { name: name.to_owned(), mode: RunMode::Test, run };
        proof {
            assert(event@ == announcements(order, opts)[i as int]);
            assert(views(events@.push(event)) =~= views(events@).push(event@));
            assert(announcements(order, opts).take(i + 1) =~= announcements(order, opts).take(
                i as int,
            ).push(event@));
        }
        flags.push(run);
        events.push(event);
        i += 1;
    }
    proof {
        assert(announcements(order, opts).take(i as int) =~= announcements(order, opts));
        assert(order.skip(i as int) =~= Seq::<C>::empty());
        reveal(Seq::filter);
        assert(order.skip(i as int).filter(keep) =~= Seq::<C>::empty());
        assert(cases@ =~= order.take(i as int) + order.skip(i as int).filter(keep));
    }
    while i > 0
        invariant
            i <= order.len(),
            flags@.len() == order.len(),
            keep == keeps::<C>(opts),
            forall|k: int| 0 <= k < order.len() ==> flags@[k] == keep(#[trigger] order[k]),
            cases@ == order.take(i as int) + order.skip(i as int).filter(keep),
        decreases i,
    {
        i -= 1;
        proof {
            let tail = order.skip(i + 1);
            assert(order.skip(i as int) =~= seq![order[i as int]] + tail);
            tail.lemma_filter_prepend(order[i as int], keep);
        }
        if !flags[i] {
            cases.remove(i);
            proof {
                assert(cases@ =~= order.take(i as int) + order.skip(i as int).filter(keep));
            }
        } else {
            proof {
                assert(cases@ =~= order.take(i as int) + order.skip(i as int).filter(keep));
            }
        }
    }
    proof {
        assert(order.skip(0) =~= order);
        assert(cases@ =~= order.filter(keep));
    }
}

/// A discovery of `before` with `seed` that took `elapsed`, by way of the
/// sorting `sorted`, emits `events` and leaves the cases `after`.
pub open spec fn discovers<C: Case>(
    sorted: Seq<C>,
    elapsed: Elapsed,
    before: Seq<C>,
    opts: &TestOpts,
    seed: Option<u64>,
    events: Seq<EventView>,
    after: Seq<C>,
) -> bool {
    &&& is_sorting_of(sorted, before)
    &&& events == discovery(arranged(sorted, seed), opts, seed, elapsed)
    &&& after == retained(arranged(sorted, seed), opts)
}

/// Everything in a discovery up to its last event; returns the events and
/// the sorting that it went by.
fn discover_cases<C: Case>(opts: &TestOpts, cases: &mut Vec<C>, seed: Option<u64>) -> (r: (
    Vec<Event>,
    Ghost<Seq<C>>,
))
    ensures
        is_sorting_of(r.1@, old(cases)@),
        views(r.0@) == seq![EventView::DiscoverStart] + announcements(
            arranged(r.1@, seed),
            opts,
        ),
        final(cases)@ == retained(arranged(r.1@, seed), opts),
        r.0@.len() == old(cases)@.len() + 1,
{
    let mut events: Vec<Event> = Vec::new();
    events.push(Event::DiscoverStart);
    sort_by_name(cases);
    let ghost sorted = cases@;
    match seed {
        Some(s) => {
            shuffle_tests(s, cases);
        },
        None => {},
    }
    assert(views(events@) =~= seq![EventView::DiscoverStart]);
    announce_and_retain(opts, cases, &mut events);
    proof {
        assert(views(events@).len() == events@.len());
    }
    (events, Ghost(sorted))
}

/// Discovery with a given seed and a given duration: sorts the cases by
/// name, shuffles them where there is a seed, announces each case with
/// whether it is selected, and leaves the selected cases in `cases`.
pub fn discover_with<C: Case>(
    opts: &TestOpts,
    cases: &mut Vec<C>,
    seed: Option<u64>,
    elapsed: Elapsed,
) -> (events: Vec<Event>)
    ensures
        exists|sorted: Seq<C>| #[trigger]
            discovers(sorted, elapsed, old(cases)@, opts, seed, views(events@), final(cases)@),
        events@.len() == old(cases)@.len() + 2,
{
    let (mut events, sorted) = discover_cases(opts, cases, seed);
    let done = Event::DiscoverComplete { elapsed_s: elapsed, seed };
    proof {
        assert(views(events@.push(done)) =~= views(events@).push(done@));
        assert(views(events@.push(done)) =~= discovery(
            arranged(sorted@, seed),
            opts,
            seed,
            elapsed,
        ));
        assert(discovers(
            sorted@,
            elapsed,
            old(cases)@,
            opts,
            seed,
            views(events@.push(done)),
            cases@,
        ));
    }
    events.push(done);
    events
}

/// Discovery as a run performs it: the seed is the one that `opts` give
/// or, where they ask for a shuffle without one, the clock reading `now`;
/// the duration is measured. Everything but the duration is as
/// [`discover_with`] states it.
pub fn discover<C: Case>(opts: &TestOpts, cases: &mut Vec<C>, now: u64) -> (events: Vec<Event>)
    ensures
        exists|sorted: Seq<C>, elapsed: Elapsed| #[trigger]
            discovers(
                sorted,
                elapsed,
                old(cases)@,
                opts,
                seed_for(opts.shuffle_seed, opts.shuffle, now),
                views(events@),
                final(cases)@,
            ),
        events@.len() == old(cases)@.len() + 2,
{
    let timer = start_timer();
    let seed = get_shuffle_seed(opts, now);
    let (mut events, sorted) = discover_cases(opts, cases, seed);
    let elapsed = time_since(&timer);
    let done = Event::DiscoverComplete { elapsed_s: elapsed, seed };
    proof {
        assert(views(events@.push(done)) =~= views(events@).push(done@));
        assert(views(events@.push(done)) =~= discovery(
            arranged(sorted@, seed),
            opts,
            seed,
            elapsed,
        ));
        assert(discovers(
            sorted@,
            elapsed,
            old(cases)@,
            opts,
            seed,
            views(events@.push(done)),
            cases@,
        ));
    }
    events.push(done);
    events
}

/// Discovery announces every registered case once, selected or not, in
/// the order that the run takes them in, between the two events that open
/// and close it. It starts no suite and no case: listing runs nothing.
pub proof fn discovery_only_announces<C: Case>(
    order: Seq<C>,
    opts: &TestOpts,
    seed: Option<u64>,
    elapsed: Elapsed,
)
    ensures
        discovery(order, opts, seed, elapsed).len() == order.len() + 2,
        discovery(order, opts, seed, elapsed)[0] == EventView::DiscoverStart,
        discovery(order, opts, seed, elapsed).last() == (EventView::DiscoverComplete {
            elapsed_s: elapsed,
            seed,
        }),
        forall|i: int|
            0 <= i < order.len() ==> #[trigger] discovery(order, opts, seed, elapsed)[i + 1]
                == announcement(order[i].name_text(), opts),
        forall|i: int|
            0 <= i < discovery(order, opts, seed, elapsed).len() ==> {
                let e = #[trigger] discovery(order, opts, seed, elapsed)[i];
                e is DiscoverStart || e is DiscoverCase || e is DiscoverComplete
            },
{
    let events = discovery(order, opts, seed, elapsed);
    assert forall|i: int| 0 <= i < order.len() implies #[trigger] events[i + 1] == announcement(
        order[i].name_text(),
        opts,
    ) by {
        assert(events[i + 1] == announcements(order, opts)[i]);
    }
    assert forall|i: int| 0 <= i < events.len() implies {
        let e = #[trigger] events[i];
        e is DiscoverStart || e is DiscoverCase || e is DiscoverComplete
    } by {
        if 0 < i && i < order.len() + 1 {
            assert(events[i] == announcements(order, opts)[i - 1]);
        }
    }
}

/// The cases that a run keeps are the cases that it selects: those whose
/// name matches a filter, where there are filters, and matches no skip
/// pattern.
pub proof fn retained_are_the_selected<C: Case>(order: Seq<C>, opts: &TestOpts, case: C)
    ensures
        retained(order, opts).contains(case) <==> order.contains(case) && selected(
            case.name_text(),
            texts(opts.filters@),
            texts(opts.skip@),
            opts.filter_exact,
        ),
{
    let keep = keeps::<C>(opts);
    if retained(order, opts).contains(case) {
        order.lemma_filter_contains_rev(keep, case);
        let i = choose|i: int| 0 <= i < order.filter(keep).len() && order.filter(keep)[i] == case;
        order.lemma_filter_pred(keep, i);
    }
    if order.contains(case) && keep(case) {
        let i = choose|i: int| 0 <= i < order.len() && order[i] == case;
        order.lemma_filter_contains(keep, i);
    }
}

/// The order of a run holds the registered cases, each as often as it was
/// registered: sorting and shuffling lose no case and add none.
pub proof fn arranged_is_permutation<C: Case>(sorted: Seq<C>, cases: Seq<C>, seed: Option<u64>)
    requires
        is_sorting_of(sorted, cases),
    ensures
        arranged(sorted, seed).to_multiset() == cases.to_multiset(),
        arranged(sorted, seed).len() == cases.len(),
{
    match seed {
        Some(s) => {
            crate::shuffle::shuffled_is_permutation(
                sorted,
                s,
                crate::shuffle::names_hash(names_of(sorted)),
                0,
            );
        },
        None => {},
    }
}

} // verus!
