//! How a scan runs along the sweep: the proofs that the laws rest on.

use vstd::prelude::*;
use crate::cluster::{
    finds_record, listing_place, opening, read_place, run, run_from, said, sweep, tail_read,
    topic_sweep, Cluster, Run,
};
use crate::location::Location;
use crate::probe::{concluded, next, scan_next, with_data, ActionView, StateView};
use crate::records::PartitionView;
use crate::report::{Classification, ReportLine};

verus! {

/// The place of the first probe of `plan` that finds a record, or the
/// length of `plan` where none does.
pub(crate) open spec fn first_find(cluster: Cluster, plan: Seq<ActionView>) -> nat
    decreases plan.len(),
{
    if plan.len() == 0 {
        0
    } else if finds_record(cluster, plan[0]) {
        0
    } else {
        1 + first_find(cluster, plan.drop_first())
    }
}

/// `first_find` is the least place at which a probe finds a record.
pub(crate) proof fn lemma_first_find(cluster: Cluster, plan: Seq<ActionView>)
    ensures
        first_find(cluster, plan) <= plan.len(),
        first_find(cluster, plan) < plan.len() ==> finds_record(
            cluster,
            plan[first_find(cluster, plan) as int],
        ),
        forall|i: int| 0 <= i < first_find(cluster, plan) ==> !finds_record(cluster, plan[i]),
    decreases plan.len(),
{
    if plan.len() > 0 && !finds_record(cluster, plan[0]) {
        let tail = plan.drop_first();
        lemma_first_find(cluster, tail);
        assert forall|i: int| 0 <= i < first_find(cluster, plan) implies !finds_record(
            cluster,
            plan[i],
        ) by {
            if i > 0 {
                assert(plan[i] == tail[i - 1]);
            }
        }
    }
}

/// A place at which a probe finds a record, with none before it, is the
/// first; so is the end of a plan in which no probe finds one.
pub(crate) proof fn lemma_first_find_is(cluster: Cluster, plan: Seq<ActionView>, at: int)
    requires
        0 <= at <= plan.len(),
        at < plan.len() ==> finds_record(cluster, plan[at]),
        forall|i: int| 0 <= i < at ==> !finds_record(cluster, plan[i]),
    ensures
        first_find(cluster, plan) == at,
{
    lemma_first_find(cluster, plan);
    let first = first_find(cluster, plan) as int;
    if first < at {
        assert(!finds_record(cluster, plan[first]));
    }
}

/// What a scan along `plan` comes to. It makes the probes of the plan up to
/// the first that finds a record, prints nothing, and ends with that record
/// as evidence; or, where no probe finds one, it makes them all, says that
/// the brokers are empty, and ends so.
pub(crate) open spec fn scan_of(
    cluster: Cluster,
    location: Location,
    plan: Seq<ActionView>,
) -> Run {
    let first = first_find(cluster, plan) as int;
    if first < plan.len() {
        Run {
            probes: plan.take(first + 1),
            lines: Seq::empty(),
            end: with_data(location, cluster.record(plan[first]->partition)),
        }
    } else {
        Run {
            probes: plan,
            lines: seq![ReportLine::SpusEmpty],
            end: concluded(Classification::RunningEmpty, location),
        }
    }
}

/// The run that a step leads into: what the step prints, and the run from
/// the state it gives.
pub(crate) open spec fn led_by(cluster: Cluster, step: (StateView, Option<ReportLine>)) -> Run {
    let rest = run_from(cluster, step.0);
    Run { probes: rest.probes, lines: said(step.1) + rest.lines, end: rest.end }
}

/// A run with one more probe in front.
pub(crate) open spec fn asked_first(action: ActionView, rest: Run) -> Run {
    Run { probes: seq![action] + rest.probes, lines: rest.lines, end: rest.end }
}

/// A probe that finds no record, put in front of a plan, puts itself in
/// front of the scan along the plan and changes nothing else.
pub(crate) proof fn lemma_scan_asked_first(
    cluster: Cluster,
    location: Location,
    action: ActionView,
    plan: Seq<ActionView>,
)
    requires
        !finds_record(cluster, action),
    ensures
        scan_of(cluster, location, seq![action] + plan) == asked_first(
            action,
            scan_of(cluster, location, plan),
        ),
{
    let longer = seq![action] + plan;
    assert(longer.drop_first() =~= plan);
    let first = first_find(cluster, plan) as int;
    lemma_first_find(cluster, plan);
    assert(first_find(cluster, longer) == 1 + first);
    if first < plan.len() {
        assert(longer.take(first + 2) =~= seq![action] + plan.take(first + 1));
        assert(longer[first + 1] == plan[first]);
    }
}

/// A run that waits for a tail read goes on as a scan along the reads that
/// are left of the topic and the sweep of the topics after it.
pub(crate) proof fn lemma_reads(
    cluster: Cluster,
    location: Location,
    topic: Seq<char>,
    index: nat,
    rest: Seq<Seq<char>>,
)
    requires
        index < cluster.count(topic),
        led_by(cluster, scan_next(location, rest)) == scan_of(
            cluster,
            location,
            sweep(cluster, rest),
        ),
    ensures
        run_from(
            cluster,
            StateView::ReadingTail { location, topic, count: cluster.count(topic), index, rest },
        ) == scan_of(
            cluster,
            location,
            topic_sweep(cluster, topic).skip(1 + index as int) + sweep(cluster, rest),
        ),
    decreases cluster.count(topic) - index,
{
    let count = cluster.count(topic);
    let state = StateView::ReadingTail { location, topic, count, index, rest };
    let action = tail_read(topic, index);
    let reads = topic_sweep(cluster, topic).skip(1 + index as int);
    let plan = reads + sweep(cluster, rest);
    let step = next(state, cluster.answer(action)->0);
    assert(state.pending() == action);
    assert(plan[0] == reads[0] && reads[0] == action);
    if cluster.has_record(PartitionView { topic, index }) {
        // The read finds the record: the scan ends with it, and so does the
        // run.
        assert(first_find(cluster, plan) == 0);
        assert(plan.take(1) =~= seq![action]);
        assert(run_from(cluster, state).probes =~= seq![action]);
        assert(run_from(cluster, state).lines =~= Seq::<ReportLine>::empty());
    } else {
        // The read finds nothing: the run goes on as the scan along what
        // is left of the plan.
        let after = if index + 1 < count {
            topic_sweep(cluster, topic).skip(2 + index as int) + sweep(cluster, rest)
        } else {
            sweep(cluster, rest)
        };
        assert(plan =~= seq![action] + after);
        lemma_scan_asked_first(cluster, location, action, after);
        if index + 1 < count {
            lemma_reads(cluster, location, topic, index + 1, rest);
        }
        assert(led_by(cluster, step) == scan_of(cluster, location, after));
        assert(run_from(cluster, state).lines =~= led_by(cluster, step).lines);
    }
}

/// A run that turns to the topics still to scan goes on as a scan along
/// their sweep.
pub(crate) proof fn lemma_scan(cluster: Cluster, location: Location, rest: Seq<Seq<char>>)
    ensures
        led_by(cluster, scan_next(location, rest)) == scan_of(
            cluster,
            location,
            sweep(cluster, rest),
        ),
    decreases rest.len(),
{
    let turn = scan_next(location, rest);
    if rest.len() == 0 {
        // No topic is left: the run ends at once, and the sweep is empty.
        assert(led_by(cluster, turn).lines =~= seq![ReportLine::SpusEmpty]);
        assert(first_find(cluster, sweep(cluster, rest)) == 0);
    } else {
        // The run lists the partitions of the first topic, which finds no
        // record, and goes on as the scan along what is left of the sweep.
        let topic = rest[0];
        let later = rest.drop_first();
        let state = StateView::ListingPartitions { location, topic, rest: later };
        let action = ActionView::ListPartitions { topic };
        let step = next(state, cluster.answer(action)->0);
        let after = topic_sweep(cluster, topic).skip(1) + sweep(cluster, later);
        assert(sweep(cluster, rest) =~= seq![action] + after);
        lemma_scan_asked_first(cluster, location, action, after);
        lemma_scan(cluster, location, later);
        if cluster.count(topic) > 0 {
            lemma_reads(cluster, location, topic, 0, later);
        } else {
            assert(after =~= sweep(cluster, later));
        }
        assert(led_by(cluster, step) == scan_of(cluster, location, after));
        assert(run_from(cluster, state).lines =~= led_by(cluster, step).lines);
        assert(led_by(cluster, turn).lines =~= run_from(cluster, state).lines);
    }
}

/// Where the connection succeeds and some broker is online, the run prints
/// where the cluster runs, makes the three opening probes, and goes on as a
/// scan along the sweep of the listed topics.
pub(crate) proof fn lemma_live_run(cluster: Cluster)
    requires
        cluster.reachable(),
        cluster.live(),
    ensures
        run(cluster).probes == opening() + scan_of(
            cluster,
            cluster.location(),
            sweep(cluster, cluster.names()),
        ).probes,
        run(cluster).lines == seq![ReportLine::Running(cluster.location())] + scan_of(
            cluster,
            cluster.location(),
            sweep(cluster, cluster.names()),
        ).lines,
        run(cluster).end == scan_of(
            cluster,
            cluster.location(),
            sweep(cluster, cluster.names()),
        ).end,
{
    let location = cluster.location();
    let checking = StateView::CheckingBrokers { location };
    let listing = StateView::ListingTopics { location };
    let scan = scan_of(cluster, location, sweep(cluster, cluster.names()));
    // The run, step by step from its end: the topic listing leads into the
    // scan, the broker listing into the topic listing, the connection into
    // the broker listing.
    let turn = next(listing, cluster.answer(ActionView::ListTopics)->0);
    assert(turn == scan_next(location, cluster.names()));
    lemma_scan(cluster, location, cluster.names());
    assert(led_by(cluster, turn) == scan);
    assert(run_from(cluster, listing).probes =~= seq![ActionView::ListTopics] + scan.probes);
    assert(run_from(cluster, listing).lines =~= scan.lines);
    assert(next(checking, cluster.answer(ActionView::ListBrokers)->0).0 == listing);
    assert(run_from(cluster, checking).probes =~= seq![
        ActionView::ListBrokers,
        ActionView::ListTopics,
    ] + scan.probes);
    assert(run_from(cluster, checking).lines =~= scan.lines);
    assert(next(StateView::Connecting, cluster.answer(ActionView::Connect)->0).0 == checking);
    assert(run(cluster).probes =~= opening() + scan.probes);
    assert(run(cluster).lines =~= seq![ReportLine::Running(location)] + scan.lines);
}

/// Where some broker is online and no probe of the sweep finds a record,
/// the run makes every probe of the sweep, in order and once, before it
/// says that the brokers are empty and ends as running and empty.
pub(crate) proof fn lemma_sweep_without_find(cluster: Cluster)
    requires
        cluster.reachable(),
        cluster.live(),
        forall|i: int|
            0 <= i < sweep(cluster, cluster.names()).len() ==> !finds_record(
                cluster,
                #[trigger] sweep(cluster, cluster.names())[i],
            ),
    ensures
        run(cluster).probes == opening() + sweep(cluster, cluster.names()),
        run(cluster).lines == seq![
            ReportLine::Running(cluster.location()),
            ReportLine::SpusEmpty,
        ],
        run(cluster).end == concluded(Classification::RunningEmpty, cluster.location()),
{
    lemma_live_run(cluster);
    let plan = sweep(cluster, cluster.names());
    lemma_first_find_is(cluster, plan, plan.len() as int);
    assert(run(cluster).lines =~= seq![
        ReportLine::Running(cluster.location()),
        ReportLine::SpusEmpty,
    ]);
}

/// Where some broker is online and the probe at place `at` of the sweep is
/// the first that finds a record, the run makes the probes of the sweep up
/// to that one and none after it, prints nothing but where the cluster
/// runs, and ends as running with data, with the record's text as evidence.
pub(crate) proof fn lemma_sweep_until_find(cluster: Cluster, at: int)
    requires
        cluster.reachable(),
        cluster.live(),
        0 <= at < sweep(cluster, cluster.names()).len(),
        finds_record(cluster, sweep(cluster, cluster.names())[at]),
        forall|i: int|
            0 <= i < at ==> !finds_record(cluster, #[trigger] sweep(cluster, cluster.names())[i]),
    ensures
        run(cluster).probes == opening() + sweep(cluster, cluster.names()).take(at + 1),
        run(cluster).lines == seq![ReportLine::Running(cluster.location())],
        run(cluster).end == with_data(
            cluster.location(),
            cluster.record(sweep(cluster, cluster.names())[at]->partition),
        ),
{
    lemma_live_run(cluster);
    let plan = sweep(cluster, cluster.names());
    lemma_first_find_is(cluster, plan, at);
    assert(run(cluster).lines =~= seq![ReportLine::Running(cluster.location())]);
}

/// The sweep of `names` holds, for the topic at place `k`, its partition
/// listing at the topic's listing place and, right after it, the tail reads
/// of its partitions in index order.
pub(crate) proof fn lemma_sweep_places(cluster: Cluster, names: Seq<Seq<char>>, k: int)
    requires
        0 <= k < names.len(),
    ensures
        0 <= listing_place(cluster, names, k),
        listing_place(cluster, names, k) + cluster.count(names[k]) < sweep(cluster, names).len(),
        sweep(cluster, names)[listing_place(cluster, names, k)] == (ActionView::ListPartitions {
            topic: names[k],
        }),
        forall|index: nat|
            index < cluster.count(names[k]) ==> #[trigger] sweep(cluster, names)[read_place(
                cluster,
                names,
                k,
                index,
            )] == tail_read(names[k], index),
    decreases k,
{
    let first = topic_sweep(cluster, names[0]);
    let later = names.drop_first();
    let plan = sweep(cluster, names);
    assert(plan == first + sweep(cluster, later));
    if k == 0 {
        assert(plan[0] == first[0]);
        assert forall|index: nat|
            index < cluster.count(names[0]) implies #[trigger] plan[read_place(
            cluster,
            names,
            0,
            index,
        )] == tail_read(names[0], index) by {
            assert(plan[1 + index as int] == first[1 + index as int]);
        }
    } else {
        lemma_sweep_places(cluster, later, k - 1);
        assert(later[k - 1] == names[k]);
        let shifted = listing_place(cluster, later, k - 1);
        assert(plan[first.len() + shifted] == sweep(cluster, later)[shifted]);
        assert forall|index: nat|
            index < cluster.count(names[k]) implies #[trigger] plan[read_place(
            cluster,
            names,
            k,
            index,
        )] == tail_read(names[k], index) by {
            let place = read_place(cluster, later, k - 1, index);
            assert(plan[first.len() + place] == sweep(cluster, later)[place]);
        }
    }
}

/// Every place of the sweep of `names` belongs to one topic: it is the
/// topic's listing place or one of the places of its reads.
pub(crate) proof fn lemma_sweep_place_of(
    cluster: Cluster,
    names: Seq<Seq<char>>,
    at: int,
) -> (k: int)
    requires
        0 <= at < sweep(cluster, names).len(),
    ensures
        0 <= k < names.len(),
        listing_place(cluster, names, k) <= at <= listing_place(cluster, names, k)
            + cluster.count(names[k]),
    decreases names.len(),
{
    let first = topic_sweep(cluster, names[0]);
    let later = names.drop_first();
    assert(sweep(cluster, names) == first + sweep(cluster, later));
    if at < first.len() {
        0
    } else {
        let k = lemma_sweep_place_of(cluster, later, at - first.len());
        assert(later[k] == names[k + 1]);
        k + 1
    }
}

/// The places of a topic's probes all come before the listing place of any
/// later topic.
pub(crate) proof fn lemma_places_in_order(
    cluster: Cluster,
    names: Seq<Seq<char>>,
    k: int,
    other: int,
)
    requires
        0 <= k < other < names.len(),
    ensures
        listing_place(cluster, names, k) + cluster.count(names[k]) < listing_place(
            cluster,
            names,
            other,
        ),
    decreases k,
{
    let later = names.drop_first();
    lemma_sweep_places(cluster, later, other - 1);
    if k > 0 {
        lemma_places_in_order(cluster, later, k - 1, other - 1);
        assert(later[k - 1] == names[k]);
    }
}

} // verus!
