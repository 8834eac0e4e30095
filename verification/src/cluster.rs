//! A cluster as a run meets it, and the run of the machine against it.
//!
//! Nothing here is executable. A [`Cluster`] fixes what each question is
//! answered with; [`run`] is what the steps of
//! [`StatusOpt::process`](crate::command::StatusOpt::process) come to when
//! every pending question is put to that cluster and the answer fed back.

use vstd::prelude::*;
use crate::decode::utf8_lossy;
use crate::location::{location_of, Location};
use crate::probe::{next, ActionView, EventView, StateView, TAIL_OFFSET, TAIL_RECORDS};
use crate::records::{
    brokers_live, partition_count, topic_names, BrokerView, PartitionView, TopicView,
};
use crate::report::ReportLine;

verus! {

/// What a cluster answers to each question that a run can ask.
pub struct Cluster {
    /// The control plane's answer to a connection attempt: the name of the
    /// active profile, or the error that the attempt fails with.
    pub connection: Result<Option<Seq<char>>, Seq<char>>,
    /// The broker listing, or `None` where the listing fails.
    pub brokers: Option<Seq<BrokerView>>,
    /// The topic listing, or `None` where the listing fails.
    pub topics: Option<Seq<TopicView>>,
    /// For each topic name, the number of partitions that its partition
    /// listing holds, or `None` where the listing fails.
    pub partitions: spec_fn(Seq<char>) -> Option<nat>,
    /// For each partition, the payload of its last record, or `None` where
    /// a tail read delivers none.
    pub tails: spec_fn(PartitionView) -> Option<Seq<u8>>,
}

impl Cluster {
    /// The event that answers `action`. `Finish` asks nothing and has no
    /// answer.
    pub open spec fn answer(self, action: ActionView) -> Option<EventView> {
        match action {
            ActionView::Connect => Some(
                match self.connection {
                    Ok(profile) => EventView::Connected { profile },
                    Err(error) => EventView::ConnectFailed { error },
                },
            ),
            ActionView::ListBrokers => Some(EventView::Brokers(self.brokers)),
            ActionView::ListTopics => Some(EventView::Topics(self.topics)),
            ActionView::ListPartitions { topic } => Some(
                EventView::Partitions((self.partitions)(topic)),
            ),
            ActionView::ReadTail { partition, .. } => Some(
                EventView::Tail((self.tails)(partition)),
            ),
            ActionView::Finish => None,
        }
    }

    /// The control plane can be reached.
    pub open spec fn reachable(self) -> bool {
        self.connection is Ok
    }

    /// Where the cluster runs, by the profile that a connection tells.
    pub open spec fn location(self) -> Location
        recommends
            self.reachable(),
    {
        location_of(self.connection->Ok_0)
    }

    /// Some broker is online.
    pub open spec fn live(self) -> bool {
        brokers_live(self.brokers)
    }

    /// The names of the topics, in listing order.
    pub open spec fn names(self) -> Seq<Seq<char>> {
        topic_names(self.topics)
    }

    /// The number of partitions of a topic.
    pub open spec fn count(self, topic: Seq<char>) -> nat {
        partition_count((self.partitions)(topic))
    }

    /// A tail read of the partition delivers a record.
    pub open spec fn has_record(self, partition: PartitionView) -> bool {
        (self.tails)(partition) is Some
    }

    /// The text of the last record of the partition.
    pub open spec fn record(self, partition: PartitionView) -> Seq<char>
        recommends
            self.has_record(partition),
    {
        utf8_lossy((self.tails)(partition)->0)
    }

    /// The topic at place `k` of the listing has a partition `index`.
    pub open spec fn lists(self, k: int, index: nat) -> bool {
        0 <= k < self.names().len() && index < self.count(self.names()[k])
    }

    /// Partition `index` of the topic at place `k` of the listing.
    pub open spec fn partition(self, k: int, index: nat) -> PartitionView {
        PartitionView { topic: self.names()[k], index }
    }

    /// Some partition of some listed topic holds a record.
    pub open spec fn holds_data(self) -> bool {
        exists|k: int, index: nat|
            self.lists(k, index) && #[trigger] self.has_record(self.partition(k, index))
    }
}

/// Partition `index` of the topic at place `k` is scanned before partition
/// `other_index` of the topic at place `other`: topics in listing order, the
/// partitions of a topic in index order.
pub open spec fn scanned_before(k: int, index: nat, other: int, other_index: nat) -> bool {
    k < other || (k == other && index < other_index)
}

/// The probes that scanning one topic can take: its partition listing, and
/// a tail read of each of its partitions in index order.
pub open spec fn topic_sweep(cluster: Cluster, topic: Seq<char>) -> Seq<ActionView> {
    seq![ActionView::ListPartitions { topic }] + Seq::new(
        cluster.count(topic),
        |i: int| tail_read(topic, i as nat),
    )
}

/// The probes that scanning the topics `names` takes if no partition holds
/// a record: the sweep of each topic, topic by topic. Every partition of
/// every topic is read in it at one place and no other.
pub open spec fn sweep(cluster: Cluster, names: Seq<Seq<char>>) -> Seq<ActionView>
    decreases names.len(),
{
    if names.len() == 0 {
        Seq::empty()
    } else {
        topic_sweep(cluster, names[0]) + sweep(cluster, names.drop_first())
    }
}

/// The place in the sweep of `names` at which the partitions of the topic
/// at place `k` of `names` are listed.
pub open spec fn listing_place(cluster: Cluster, names: Seq<Seq<char>>, k: int) -> int
    decreases k,
{
    if k <= 0 {
        0
    } else {
        topic_sweep(cluster, names[0]).len() + listing_place(cluster, names.drop_first(), k - 1)
    }
}

/// The place in the sweep of `names` at which partition `index` of the
/// topic at place `k` of `names` is read.
pub open spec fn read_place(cluster: Cluster, names: Seq<Seq<char>>, k: int, index: nat) -> int {
    listing_place(cluster, names, k) + 1 + index
}

/// The tail read of partition `index` of `topic`.
pub open spec fn tail_read(topic: Seq<char>, index: nat) -> ActionView {
    ActionView::ReadTail {
        partition: PartitionView { topic, index },
        from_end: TAIL_OFFSET as nat,
        at_most: TAIL_RECORDS as nat,
    }
}

/// The three probes that come before any scan.
pub open spec fn opening() -> Seq<ActionView> {
    seq![ActionView::Connect, ActionView::ListBrokers, ActionView::ListTopics]
}

/// The number of partitions that the topics `names` have in all.
pub open spec fn partitions_in(cluster: Cluster, names: Seq<Seq<char>>) -> nat
    decreases names.len(),
{
    if names.len() == 0 {
        0
    } else {
        cluster.count(names[0]) + partitions_in(cluster, names.drop_first())
    }
}

/// The probe is a tail read that delivers a record.
pub open spec fn finds_record(cluster: Cluster, probe: ActionView) -> bool {
    probe matches ActionView::ReadTail { partition, .. } && cluster.has_record(partition)
}

/// A bound on the number of probes that a run in `state` still makes.
pub open spec fn remaining(cluster: Cluster, state: StateView) -> nat {
    match state {
        StateView::Connecting => 3 + sweep(cluster, cluster.names()).len(),
        StateView::CheckingBrokers { .. } => 2 + sweep(cluster, cluster.names()).len(),
        StateView::ListingTopics { .. } => 1 + sweep(cluster, cluster.names()).len(),
        StateView::ListingPartitions { topic, rest, .. } => topic_sweep(cluster, topic).len()
            + sweep(cluster, rest).len(),
        StateView::ReadingTail { count, index, rest, .. } => (if index < count {
            count - index
        } else {
            1
        }) as nat + sweep(cluster, rest).len(),
        StateView::Finished { .. } => 0,
        StateView::Indeterminate => 0,
    }
}

/// What a run did and how it ended.
pub struct Run {
    /// The questions asked, in order.
    pub probes: Seq<ActionView>,
    /// The lines printed, in order.
    pub lines: Seq<ReportLine>,
    /// The state in which the run ended.
    pub end: StateView,
}

/// The lines that one step prints.
pub open spec fn said(say: Option<ReportLine>) -> Seq<ReportLine> {
    match say {
        Some(line) => seq![line],
        None => Seq::empty(),
    }
}

/// The run of the machine from `state` on against `cluster`: as long as the
/// state is not terminal, its pending question is asked, and the answer
/// decides the next state.
pub open spec fn run_from(cluster: Cluster, state: StateView) -> Run
    decreases remaining(cluster, state),
    via run_from_decreases
{
    if state.is_terminal() {
        Run { probes: Seq::empty(), lines: Seq::empty(), end: state }
    } else {
        let action = state.pending();
        let step = next(state, cluster.answer(action)->0);
        let rest = run_from(cluster, step.0);
        Run { probes: seq![action] + rest.probes, lines: said(step.1) + rest.lines, end: rest.end }
    }
}

#[via_fn]
proof fn run_from_decreases(cluster: Cluster, state: StateView) {
    if !state.is_terminal() {
        lemma_step_decreases(cluster, state);
    }
}

/// Each answered step of a run that has not ended leaves fewer probes to
/// make.
proof fn lemma_step_decreases(cluster: Cluster, state: StateView)
    requires
        !state.is_terminal(),
    ensures
        remaining(cluster, next(state, cluster.answer(state.pending())->0).0) < remaining(
            cluster,
            state,
        ),
{
    match state {
        StateView::ListingTopics { .. } => {
            lemma_sweep_unfold(cluster, cluster.names());
        },
        StateView::ListingPartitions { rest, .. } => {
            lemma_sweep_unfold(cluster, rest);
        },
        StateView::ReadingTail { rest, .. } => {
            lemma_sweep_unfold(cluster, rest);
        },
        _ => {},
    }
}

/// The length of a sweep, topic by topic.
proof fn lemma_sweep_unfold(cluster: Cluster, names: Seq<Seq<char>>)
    ensures
        names.len() == 0 ==> sweep(cluster, names).len() == 0,
        names.len() > 0 ==> sweep(cluster, names).len() == 1 + cluster.count(names[0]) + sweep(
            cluster,
            names.drop_first(),
        ).len(),
{
}

/// The run of the machine against `cluster`, from the start.
pub open spec fn run(cluster: Cluster) -> Run {
    run_from(cluster, StateView::Connecting)
}

} // verus!
