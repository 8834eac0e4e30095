//! What holds of every run, whatever the cluster answers.
//!
//! The laws on single steps hold of every state and event. The laws on
//! whole runs hold of [`run`], the run of the machine against a cluster
//! that answers each question in one way.

use vstd::prelude::*;
use crate::cluster::{
    finds_record, listing_place, opening, partitions_in, read_place, run, run_from,
    scanned_before, sweep, tail_read, Cluster,
};
use crate::probe::{concluded, next, cut_off, with_data, ActionView, EventView, StateView};
use crate::records::brokers_live;
use crate::report::{Classification, ReportLine};
use crate::scan::{
    first_find, lemma_first_find, lemma_live_run, lemma_places_in_order, lemma_sweep_place_of,
    lemma_sweep_places, lemma_sweep_until_find, lemma_sweep_without_find,
};

verus! {

/// A run that has ended stays as it is: no event changes its state or
/// prints a line, and it has nothing left to ask.
pub proof fn law_terminal_absorbs(state: StateView, event: EventView)
    requires
        state.is_terminal(),
    ensures
        next(state, event).0 == state,
        next(state, event).1 is None,
        state.pending() == ActionView::Finish,
{
}

/// A cancellation ends a run that has not ended as indeterminate, without
/// a line and without a classification.
pub proof fn law_cancellation(state: StateView)
    requires
        !state.is_terminal(),
    ensures
        next(state, EventView::Cancelled).0 == StateView::Indeterminate,
        next(state, EventView::Cancelled).1 is None,
        StateView::Indeterminate.is_terminal(),
{
}

/// Nothing but a cancellation makes a run indeterminate.
pub proof fn law_indeterminate_means_cancelled(state: StateView, event: EventView)
    requires
        !state.is_terminal(),
        next(state, event).0 is Indeterminate,
    ensures
        event is Cancelled,
{
}

/// Every state of a run hangs together: the first does, and each step
/// keeps it so, whatever event comes.
pub proof fn law_states_stay_coherent(state: StateView, event: EventView)
    requires
        state.coherent(),
    ensures
        StateView::Connecting.coherent(),
        next(state, event).0.coherent(),
{
}

/// A step that ends a run with an outcome has grounds for it: running with
/// data, it took a tail read that delivered a record; running and empty,
/// it was scanning, which only begins once some broker is online; not
/// running, it took a failed connection or a broker listing with no broker
/// online.
pub proof fn law_outcome_has_grounds(state: StateView, event: EventView)
    requires
        !state.is_terminal(),
        next(state, event).0 is Finished,
    ensures
        (match next(state, event).0->outcome.classification {
            Classification::RunningWithData => state is ReadingTail && event is Tail
                && event->Tail_0 is Some,
            Classification::RunningEmpty => state is ListingTopics || state is ListingPartitions
                || state is ReadingTail,
            Classification::NotRunning => (state is Connecting && event is ConnectFailed) || (
            state is CheckingBrokers && event is Brokers && !brokers_live(event->Brokers_0)),
        }),
{
}

/// Scanning begins only on a broker listing that shows some broker online.
pub proof fn law_scan_needs_live_broker(state: StateView, event: EventView)
    requires
        !(state is ListingTopics),
        next(state, event).0 is ListingTopics,
    ensures
        state is CheckingBrokers,
        event is Brokers,
        brokers_live(event->Brokers_0),
{
}

/// In the sweep of the listed topics every listed partition is read at its
/// own place.
pub proof fn law_sweep_reads_each_partition(cluster: Cluster, k: int, index: nat)
    requires
        cluster.lists(k, index),
    ensures
        0 <= read_place(cluster, cluster.names(), k, index) < sweep(
            cluster,
            cluster.names(),
        ).len(),
        sweep(cluster, cluster.names())[read_place(cluster, cluster.names(), k, index)]
            == tail_read(cluster.names()[k], index),
{
    lemma_sweep_places(cluster, cluster.names(), k);
}

/// In the sweep the partitions are read in topic-then-index order, so no
/// two of them at one place.
pub proof fn law_sweep_reads_in_order(
    cluster: Cluster,
    k: int,
    index: nat,
    other: int,
    other_index: nat,
)
    requires
        cluster.lists(k, index),
        cluster.lists(other, other_index),
        scanned_before(k, index, other, other_index),
    ensures
        read_place(cluster, cluster.names(), k, index) < read_place(
            cluster,
            cluster.names(),
            other,
            other_index,
        ),
{
    if k < other {
        lemma_places_in_order(cluster, cluster.names(), k, other);
    }
}

/// In the sweep nothing is read but the listed partitions: a tail read at
/// place `at` is the read of a listed partition, at that partition's place.
pub proof fn law_sweep_reads_nothing_else(cluster: Cluster, at: int) -> (found: (int, nat))
    requires
        0 <= at < sweep(cluster, cluster.names()).len(),
        sweep(cluster, cluster.names())[at] is ReadTail,
    ensures
        cluster.lists(found.0, found.1),
        at == read_place(cluster, cluster.names(), found.0, found.1),
{
    let names = cluster.names();
    let k = lemma_sweep_place_of(cluster, names, at);
    lemma_sweep_places(cluster, names, k);
    let index = (at - listing_place(cluster, names, k) - 1) as nat;
    (k, index)
}

/// Where the connection fails, the run asks nothing after the connection
/// attempt, prints `none` and nothing else, and ends as not running with
/// the connection's error.
pub proof fn law_unreachable(cluster: Cluster)
    requires
        !cluster.reachable(),
    ensures
        run(cluster).probes == seq![ActionView::Connect],
        run(cluster).lines == seq![ReportLine::Unreachable],
        run(cluster).end == cut_off(cluster.connection->Err_0),
{
    let step = next(StateView::Connecting, cluster.answer(ActionView::Connect)->0);
    assert(step.0 == cut_off(cluster.connection->Err_0));
    assert(run_from(cluster, step.0).end == step.0);
    assert(run(cluster).probes =~= seq![ActionView::Connect]);
    assert(run(cluster).lines =~= seq![ReportLine::Unreachable]);
}

/// Where the connection succeeds and the broker listing fails or shows no
/// broker online, the run asks for no topic and no partition, prints where
/// the cluster runs and that no broker is running, and ends as not running.
pub proof fn law_no_broker_online(cluster: Cluster)
    requires
        cluster.reachable(),
        !cluster.live(),
    ensures
        run(cluster).probes == seq![ActionView::Connect, ActionView::ListBrokers],
        run(cluster).lines == seq![
            ReportLine::Running(cluster.location()),
            ReportLine::NoSpusRunning,
        ],
        run(cluster).end == concluded(Classification::NotRunning, cluster.location()),
{
    let location = cluster.location();
    let checking = StateView::CheckingBrokers { location };
    assert(next(StateView::Connecting, cluster.answer(ActionView::Connect)->0).0 == checking);
    let step = next(checking, cluster.answer(ActionView::ListBrokers)->0);
    assert(step.0 == concluded(Classification::NotRunning, location));
    assert(run_from(cluster, step.0).end == step.0);
    assert(run_from(cluster, checking).probes =~= seq![ActionView::ListBrokers]);
    assert(run_from(cluster, checking).lines =~= seq![ReportLine::NoSpusRunning]);
    assert(run(cluster).probes =~= seq![ActionView::Connect, ActionView::ListBrokers]);
    assert(run(cluster).lines =~= seq![
        ReportLine::Running(location),
        ReportLine::NoSpusRunning,
    ]);
}

/// Where some broker is online and no topic is listed, the run asks for no
/// partition, says that the brokers are empty, and ends as running and
/// empty.
pub proof fn law_no_topics(cluster: Cluster)
    requires
        cluster.reachable(),
        cluster.live(),
        cluster.names().len() == 0,
    ensures
        run(cluster).probes == opening(),
        run(cluster).lines == seq![
            ReportLine::Running(cluster.location()),
            ReportLine::SpusEmpty,
        ],
        run(cluster).end == concluded(Classification::RunningEmpty, cluster.location()),
{
    lemma_live_run(cluster);
    let plan = sweep(cluster, cluster.names());
    assert(plan.len() == 0);
    assert(first_find(cluster, plan) == 0);
    assert(run(cluster).probes =~= opening());
    assert(run(cluster).lines =~= seq![
        ReportLine::Running(cluster.location()),
        ReportLine::SpusEmpty,
    ]);
}

/// Where some broker is online and no listed partition holds a record, the
/// run lists the partitions of every topic and reads every partition, each
/// once and in order, before it says that the brokers are empty and ends as
/// running and empty.
pub proof fn law_scan_is_exhaustive(cluster: Cluster)
    requires
        cluster.reachable(),
        cluster.live(),
        !cluster.holds_data(),
    ensures
        run(cluster).probes == opening() + sweep(cluster, cluster.names()),
        run(cluster).lines == seq![
            ReportLine::Running(cluster.location()),
            ReportLine::SpusEmpty,
        ],
        run(cluster).end == concluded(Classification::RunningEmpty, cluster.location()),
{
    let plan = sweep(cluster, cluster.names());
    assert forall|i: int| 0 <= i < plan.len() implies !finds_record(
        cluster,
        #[trigger] plan[i],
    ) by {
        if plan[i] is ReadTail {
            let (k, index) = law_sweep_reads_nothing_else(cluster, i);
            law_sweep_reads_each_partition(cluster, k, index);
            assert(!cluster.has_record(cluster.partition(k, index)));
        }
    }
    lemma_sweep_without_find(cluster);
}

/// Where some broker is online and partition `index` of the topic at place
/// `k` is the first, in topic-then-index order, to hold a record, the run
/// scans up to the read of that partition and no further: no later
/// partition is read and no later topic asked for. The run prints nothing
/// but where the cluster runs, and ends as running with data, with the
/// record's text as evidence.
pub proof fn law_scan_stops_at_first_record(cluster: Cluster, k: int, index: nat)
    requires
        cluster.reachable(),
        cluster.live(),
        cluster.lists(k, index),
        cluster.has_record(cluster.partition(k, index)),
        forall|j: int, earlier: nat|
            cluster.lists(j, earlier) && scanned_before(j, earlier, k, index)
                ==> !#[trigger] cluster.has_record(cluster.partition(j, earlier)),
    ensures
        run(cluster).probes == opening() + sweep(cluster, cluster.names()).take(
            read_place(cluster, cluster.names(), k, index) + 1,
        ),
        run(cluster).probes.last() == tail_read(cluster.names()[k], index),
        run(cluster).lines == seq![ReportLine::Running(cluster.location())],
        run(cluster).end == with_data(
            cluster.location(),
            cluster.record(cluster.partition(k, index)),
        ),
{
    let names = cluster.names();
    let plan = sweep(cluster, names);
    let at = read_place(cluster, names, k, index);
    law_sweep_reads_each_partition(cluster, k, index);
    assert forall|i: int| 0 <= i < at implies !finds_record(cluster, #[trigger] plan[i]) by {
        if plan[i] is ReadTail {
            let (j, earlier) = law_sweep_reads_nothing_else(cluster, i);
            law_sweep_reads_each_partition(cluster, j, earlier);
            if !scanned_before(j, earlier, k, index) {
                if j == k {
                    assert(earlier >= index);
                } else {
                    lemma_places_in_order(cluster, names, k, j);
                }
            }
            assert(!cluster.has_record(cluster.partition(j, earlier)));
        }
    }
    lemma_sweep_until_find(cluster, at);
}

/// Where some broker is online and some listed partition holds a record,
/// one such partition is the first in topic-then-index order, and the run
/// stops at it as [`law_scan_stops_at_first_record`] says: it prints no
/// line that calls the brokers empty, and reads no partition after that
/// one.
pub proof fn law_data_ends_scan(cluster: Cluster) -> (first: (int, nat))
    requires
        cluster.reachable(),
        cluster.live(),
        cluster.holds_data(),
    ensures
        cluster.lists(first.0, first.1),
        cluster.has_record(cluster.partition(first.0, first.1)),
        forall|j: int, earlier: nat|
            cluster.lists(j, earlier) && scanned_before(j, earlier, first.0, first.1)
                ==> !#[trigger] cluster.has_record(cluster.partition(j, earlier)),
        run(cluster).probes == opening() + sweep(cluster, cluster.names()).take(
            read_place(cluster, cluster.names(), first.0, first.1) + 1,
        ),
        run(cluster).lines == seq![ReportLine::Running(cluster.location())],
        run(cluster).end == with_data(
            cluster.location(),
            cluster.record(cluster.partition(first.0, first.1)),
        ),
{
    let names = cluster.names();
    let plan = sweep(cluster, names);
    let at = first_find(cluster, plan) as int;
    lemma_first_find(cluster, plan);
    let (some, some_index) = choose|k: int, index: nat|
        cluster.lists(k, index) && #[trigger] cluster.has_record(cluster.partition(k, index));
    law_sweep_reads_each_partition(cluster, some, some_index);
    assert(finds_record(cluster, plan[read_place(cluster, names, some, some_index)]));
    let (k, index) = law_sweep_reads_nothing_else(cluster, at);
    law_sweep_reads_each_partition(cluster, k, index);
    assert forall|j: int, earlier: nat|
        cluster.lists(j, earlier) && scanned_before(
            j,
            earlier,
            k,
            index,
        ) implies !#[trigger] cluster.has_record(cluster.partition(j, earlier)) by {
        law_sweep_reads_each_partition(cluster, j, earlier);
        law_sweep_reads_in_order(cluster, j, earlier, k, index);
        assert(!finds_record(cluster, plan[read_place(cluster, names, j, earlier)]));
    }
    law_scan_stops_at_first_record(cluster, k, index);
    (k, index)
}

/// How a cluster is to be classified: as not running where the control
/// plane cannot be reached or no broker is online; else as running with
/// data where some listed partition holds a record, and as running and
/// empty where none does.
pub open spec fn classification_of(cluster: Cluster) -> Classification {
    if !cluster.reachable() || !cluster.live() {
        Classification::NotRunning
    } else if cluster.holds_data() {
        Classification::RunningWithData
    } else {
        Classification::RunningEmpty
    }
}

/// Every run ends with an outcome, never as indeterminate, and the outcome
/// classifies the cluster as [`classification_of`] says. The outcome holds
/// the location if and only if the control plane was reached, and an error
/// if and only if it was not; it holds evidence if and only if it is
/// running with data.
pub proof fn law_run_classifies(cluster: Cluster)
    ensures
        run(cluster).end is Finished,
        run(cluster).end->outcome.classification == classification_of(cluster),
        run(cluster).end->outcome.location == (if cluster.reachable() {
            Some(cluster.location())
        } else {
            None
        }),
        run(cluster).end->error is Some <==> !cluster.reachable(),
        run(cluster).end->evidence is Some <==> classification_of(cluster)
            == Classification::RunningWithData,
{
    if !cluster.reachable() {
        law_unreachable(cluster);
    } else if !cluster.live() {
        law_no_broker_online(cluster);
    } else {
        let plan = sweep(cluster, cluster.names());
        let first = first_find(cluster, plan) as int;
        lemma_first_find(cluster, plan);
        lemma_live_run(cluster);
        if first < plan.len() {
            let (k, index) = law_sweep_reads_nothing_else(cluster, first);
            law_sweep_reads_each_partition(cluster, k, index);
            assert(cluster.has_record(cluster.partition(k, index)));
        } else {
            if cluster.holds_data() {
                let (k, index) = choose|k: int, index: nat|
                    cluster.lists(k, index) && #[trigger] cluster.has_record(
                        cluster.partition(k, index),
                    );
                law_sweep_reads_each_partition(cluster, k, index);
                assert(finds_record(
                    cluster,
                    plan[read_place(cluster, cluster.names(), k, index)],
                ));
            }
        }
    }
}

/// The sweep of `names` holds one probe for each topic and one for each
/// partition of each topic.
pub proof fn law_sweep_length(cluster: Cluster, names: Seq<Seq<char>>)
    ensures
        sweep(cluster, names).len() == names.len() + partitions_in(cluster, names),
    decreases names.len(),
{
    if names.len() > 0 {
        law_sweep_length(cluster, names.drop_first());
    }
}

/// The cost of a run is linear in the size of the cluster: it makes at most
/// three probes, one more for each listed topic, and one more for each
/// partition of each listed topic.
pub proof fn law_probe_bound(cluster: Cluster)
    ensures
        run(cluster).probes.len() <= 3 + cluster.names().len() + partitions_in(
            cluster,
            cluster.names(),
        ),
{
    law_sweep_length(cluster, cluster.names());
    if !cluster.reachable() {
        law_unreachable(cluster);
    } else if !cluster.live() {
        law_no_broker_online(cluster);
    } else {
        lemma_live_run(cluster);
        lemma_first_find(cluster, sweep(cluster, cluster.names()));
    }
}

/// Where some broker is online and no listed partition holds a record, the
/// run pays the full cost: three probes, one for each listed topic, and one
/// for each partition of each listed topic.
pub proof fn law_empty_cluster_costs_most(cluster: Cluster)
    requires
        cluster.reachable(),
        cluster.live(),
        !cluster.holds_data(),
    ensures
        run(cluster).probes.len() == 3 + cluster.names().len() + partitions_in(
            cluster,
            cluster.names(),
        ),
{
    law_sweep_length(cluster, cluster.names());
    law_scan_is_exhaustive(cluster);
}

} // verus!
