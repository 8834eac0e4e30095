//! The states of a run, the questions it asks and the answers it takes.
//!
//! A run is a state machine. Each state that is not terminal waits for the
//! answer to one question, its pending action; the answer decides the next
//! state. The machine asks in a fixed order and stops at the first layer
//! that fails:
//!
//! ```text
//! Connecting --ok--> CheckingBrokers --some online--> ListingTopics
//!     |                    |                              |
//!  failed             none online                  +------+-------+
//!     v                    v                       v              v
//! NotRunning           NotRunning         ListingPartitions <-> ReadingTail
//!                                                  |              |
//!                                           no topic left    a record came
//!                                                  v              v
//!                                            RunningEmpty   RunningWithData
//! ```
//!
//! A cancellation ends a run that has not yet ended as `Indeterminate`.

use vstd::prelude::*;
use crate::decode::record_text;
use crate::location::{location_of, Location};
use crate::records::{
    brokers_live, counted, partition_count, topic_names, BrokerRecord, BrokerView, PartitionRecord,
    PartitionView, TopicRecord, TopicView,
};
use crate::report::{Classification, ProbeOutcome, ReportLine};

verus! {

/// How far from the end of a partition a tail read starts: at the last
/// record.
pub const TAIL_OFFSET: u32 = 1;

/// How many records a tail read asks for: one and no more, so that no read
/// becomes a subscription.
pub const TAIL_RECORDS: u32 = 1;

/// A question that a run asks of the cluster.
#[derive(Clone, Debug, PartialEq, Eq)]
pub enum ProbeAction {
    /// Open a session with the control plane.
    Connect,
    /// List all brokers.
    ListBrokers,
    /// List all topics.
    ListTopics,
    /// List the partitions of one topic.
    ListPartitions { topic: String },
    /// Read at most `at_most` records of a partition, starting `from_end`
    /// records before its end, in one delivery and without waiting for
    /// more.
    ReadTail { partition: PartitionRecord, from_end: u32, at_most: u32 },
    /// Nothing is left to ask: the run has ended.
    Finish,
}

/// The mathematical value of a [`ProbeAction`].
pub enum ActionView {
    Connect,
    ListBrokers,
    ListTopics,
    ListPartitions { topic: Seq<char> },
    ReadTail { partition: PartitionView, from_end: nat, at_most: nat },
    Finish,
}

impl View for ProbeAction {
    type V = ActionView;

    open spec fn view(&self) -> ActionView {
        match self {
            ProbeAction::Connect => ActionView::Connect,
            ProbeAction::ListBrokers => ActionView::ListBrokers,
            ProbeAction::ListTopics => ActionView::ListTopics,
            ProbeAction::ListPartitions { topic } => ActionView::ListPartitions { topic: topic@ },
            ProbeAction::ReadTail { partition, from_end, at_most } => ActionView::ReadTail {
                partition: partition@,
                from_end: *from_end as nat,
                at_most: *at_most as nat,
            },
            ProbeAction::Finish => ActionView::Finish,
        }
    }
}

/// What came of a question, or what else befell the run.
#[derive(Clone, Debug, PartialEq, Eq)]
pub enum ProbeEvent {
    /// The control plane answered. `profile` is the name of the active
    /// profile, if there is one.
    Connected { profile: Option<String> },
    /// The control plane could not be reached; `error` says why.
    ConnectFailed { error: String },
    /// The broker listing, or `None` where it could not be had.
    Brokers(Option<Vec<BrokerRecord>>),
    /// The topic listing, or `None` where it could not be had.
    Topics(Option<Vec<TopicRecord>>),
    /// The number of partitions that the partition listing of the topic
    /// holds, or `None` where it could not be had.
    Partitions(Option<usize>),
    /// The payload of the record that the tail read delivered, or `None`
    /// where none came: the partition is empty, or the read failed.
    Tail(Option<Vec<u8>>),
    /// The run was cancelled from outside.
    Cancelled,
}

/// The mathematical value of a [`ProbeEvent`].
pub enum EventView {
    Connected { profile: Option<Seq<char>> },
    ConnectFailed { error: Seq<char> },
    Brokers(Option<Seq<BrokerView>>),
    Topics(Option<Seq<TopicView>>),
    Partitions(Option<nat>),
    Tail(Option<Seq<u8>>),
    Cancelled,
}

impl View for ProbeEvent {
    type V = EventView;

    open spec fn view(&self) -> EventView {
        match self {
            ProbeEvent::Connected { profile } => EventView::Connected {
                profile: profile.deep_view(),
            },
            ProbeEvent::ConnectFailed { error } => EventView::ConnectFailed { error: error@ },
            ProbeEvent::Brokers(listing) => EventView::Brokers(listing.deep_view()),
            ProbeEvent::Topics(listing) => EventView::Topics(listing.deep_view()),
            ProbeEvent::Partitions(listing) => EventView::Partitions(counted(*listing)),
            ProbeEvent::Tail(read) => EventView::Tail(read.deep_view()),
            ProbeEvent::Cancelled => EventView::Cancelled,
        }
    }
}

/// The state of a run.
///
/// `Connecting` is where every run starts. `ListingTopics`,
/// `ListingPartitions` and `ReadingTail` together are the scan for data.
/// `Finished` and `Indeterminate` are terminal.
#[derive(Clone, Debug, PartialEq, Eq)]
pub enum ProbeState {
    /// Waits for the control plane to answer.
    Connecting,
    /// Connected; waits for the broker listing.
    CheckingBrokers { location: Location },
    /// Some broker is online; waits for the topic listing.
    ListingTopics { location: Location },
    /// Waits for the partition listing of `topic`. The topics from
    /// `topics[next]` on are still to scan.
    ListingPartitions { location: Location, topic: String, topics: Vec<String>, next: usize },
    /// Waits for the tail read of partition `index` of `topic`, which has
    /// `count` partitions. The topics from `topics[next]` on are still to
    /// scan.
    ReadingTail {
        location: Location,
        topic: String,
        count: usize,
        index: usize,
        topics: Vec<String>,
        next: usize,
    },
    /// The run has ended with an outcome. `error` is what the control plane
    /// connection failed with, if it failed; `evidence` is the text of the
    /// record that showed the cluster to hold data, if one did.
    Finished { outcome: ProbeOutcome, error: Option<String>, evidence: Option<String> },
    /// The run was cancelled before it could classify the cluster, so
    /// nothing is known of the cluster: neither that it runs nor that it
    /// does not.
    Indeterminate,
}

/// The mathematical value of a [`ProbeState`]. In place of the topic list
/// and the position in it, it holds the names of the topics still to scan.
pub enum StateView {
    Connecting,
    CheckingBrokers { location: Location },
    ListingTopics { location: Location },
    ListingPartitions { location: Location, topic: Seq<char>, rest: Seq<Seq<char>> },
    ReadingTail {
        location: Location,
        topic: Seq<char>,
        count: nat,
        index: nat,
        rest: Seq<Seq<char>>,
    },
    Finished { outcome: ProbeOutcome, error: Option<Seq<char>>, evidence: Option<Seq<char>> },
    Indeterminate,
}

/// The names from position `next` on; none where `next` is past the end.
pub open spec fn rest_of(topics: Seq<Seq<char>>, next: nat) -> Seq<Seq<char>> {
    if next <= topics.len() {
        topics.skip(next as int)
    } else {
        Seq::empty()
    }
}

impl View for ProbeState {
    type V = StateView;

    open spec fn view(&self) -> StateView {
        match self {
            ProbeState::Connecting => StateView::Connecting,
            ProbeState::CheckingBrokers { location } => StateView::CheckingBrokers {
                location: *location,
            },
            ProbeState::ListingTopics { location } => StateView::ListingTopics {
                location: *location,
            },
            ProbeState::ListingPartitions { location, topic, topics, next } => {
                StateView::ListingPartitions {
                    location: *location,
                    topic: topic@,
                    rest: rest_of(topics.deep_view(), *next as nat),
                }
            },
            ProbeState::ReadingTail { location, topic, count, index, topics, next } => {
                StateView::ReadingTail {
                    location: *location,
                    topic: topic@,
                    count: *count as nat,
                    index: *index as nat,
                    rest: rest_of(topics.deep_view(), *next as nat),
                }
            },
            ProbeState::Finished { outcome, error, evidence } => StateView::Finished {
                outcome: *outcome,
                error: error.deep_view(),
                evidence: evidence.deep_view(),
            },
            ProbeState::Indeterminate => StateView::Indeterminate,
        }
    }
}

impl StateView {
    /// The run has ended: no event changes the state any more.
    pub open spec fn is_terminal(self) -> bool {
        self is Finished || self is Indeterminate
    }

    /// The state hangs together, as every state of a run does: a tail read
    /// is of a partition that the topic has; an outcome holds an error if
    /// and only if it holds no location, and only if it is not running; and
    /// it holds evidence if and only if it is running with data.
    pub open spec fn coherent(self) -> bool {
        match self {
            StateView::ReadingTail { count, index, .. } => index < count,
            StateView::Finished { outcome, error, evidence } => {
                &&& error is Some <==> outcome.location is None
                &&& error is Some ==> outcome.classification == Classification::NotRunning
                &&& evidence is Some <==> outcome.classification
                    == Classification::RunningWithData
            },
            _ => true,
        }
    }

    /// The question whose answer the state waits for.
    pub open spec fn pending(self) -> ActionView {
        match self {
            StateView::Connecting => ActionView::Connect,
            StateView::CheckingBrokers { .. } => ActionView::ListBrokers,
            StateView::ListingTopics { .. } => ActionView::ListTopics,
            StateView::ListingPartitions { topic, .. } => ActionView::ListPartitions { topic },
            StateView::ReadingTail { topic, index, .. } => ActionView::ReadTail {
                partition: PartitionView { topic, index },
                from_end: TAIL_OFFSET as nat,
                at_most: TAIL_RECORDS as nat,
            },
            StateView::Finished { .. } => ActionView::Finish,
            StateView::Indeterminate => ActionView::Finish,
        }
    }
}

/// The terminal state of a run that classified the cluster without a
/// connection error and without a record as evidence.
pub open spec fn concluded(classification: Classification, location: Location) -> StateView {
    StateView::Finished {
        outcome: ProbeOutcome { classification, location: Some(location) },
        error: None,
        evidence: None,
    }
}

/// The terminal state of a run that could not reach the control plane:
/// not running, nowhere, with the error that the connection failed with.
pub open spec fn cut_off(error: Seq<char>) -> StateView {
    StateView::Finished {
        outcome: ProbeOutcome { classification: Classification::NotRunning, location: None },
        error: Some(error),
        evidence: None,
    }
}

/// The terminal state of a run that read a record: running with data, with
/// the record's text as evidence.
pub open spec fn with_data(location: Location, text: Seq<char>) -> StateView {
    StateView::Finished {
        outcome: ProbeOutcome {
            classification: Classification::RunningWithData,
            location: Some(location),
        },
        error: None,
        evidence: Some(text),
    }
}

/// Turns to the first of the topics still to scan. Where none is left the
/// scan has found no record: the cluster is running and empty.
pub open spec fn scan_next(location: Location, rest: Seq<Seq<char>>) -> (
    StateView,
    Option<ReportLine>,
) {
    if rest.len() == 0 {
        (concluded(Classification::RunningEmpty, location), Some(ReportLine::SpusEmpty))
    } else {
        (
            StateView::ListingPartitions { location, topic: rest[0], rest: rest.drop_first() },
            None,
        )
    }
}

/// A tail read taken by the state that waits for it, once the payload is
/// decoded: `record` is the text of the record that came, if one came. A
/// record ends the run as running with data, with the text as evidence.
/// Without one the scan goes on: to the next partition of the topic, or,
/// after the last, to the next topic.
pub open spec fn read_taken(state: StateView, record: Option<Seq<char>>) -> (
    StateView,
    Option<ReportLine>,
) {
    match state {
        StateView::ReadingTail { location, topic, count, index, rest } => match record {
            Some(text) => (with_data(location, text), None),
            None => if index + 1 < count {
                (StateView::ReadingTail { location, topic, count, index: index + 1, rest }, None)
            } else {
                scan_next(location, rest)
            },
        },
        _ => (state, None),
    }
}

/// The answer that a state waits for, taken: the next state and the line
/// to print.
pub open spec fn answered(state: StateView, event: EventView) -> Option<
    (StateView, Option<ReportLine>),
> {
    match (state, event) {
        (StateView::Connecting, EventView::Connected { profile }) => {
            let location = location_of(profile);
            Some((StateView::CheckingBrokers { location }, Some(ReportLine::Running(location))))
        },
        (StateView::Connecting, EventView::ConnectFailed { error }) => Some(
            (cut_off(error), Some(ReportLine::Unreachable)),
        ),
        (StateView::CheckingBrokers { location }, EventView::Brokers(listing)) => Some(
            if brokers_live(listing) {
                (StateView::ListingTopics { location }, None)
            } else {
                (
                    concluded(Classification::NotRunning, location),
                    Some(ReportLine::NoSpusRunning),
                )
            },
        ),
        (StateView::ListingTopics { location }, EventView::Topics(listing)) => Some(
            scan_next(location, topic_names(listing)),
        ),
        (
            StateView::ListingPartitions { location, topic, rest },
            EventView::Partitions(listing),
        ) => Some(
            if partition_count(listing) > 0 {
                (
                    StateView::ReadingTail {
                        location,
                        topic,
                        count: partition_count(listing),
                        index: 0,
                        rest,
                    },
                    None,
                )
            } else {
                scan_next(location, rest)
            },
        ),
        (StateView::ReadingTail { .. }, EventView::Tail(read)) => Some(
            read_taken(state, record_text(read)),
        ),
        _ => None,
    }
}

/// One step of a run: the state that follows `state` on `event`, and the
/// line to print.
///
/// A terminal state stays as it is. A cancellation ends every other state
/// as `Indeterminate`.
/// The answer that the state waits for moves the run on as [`answered`]
/// says. Any other event is not the state's to take and leaves it unchanged.
pub open spec fn next(state: StateView, event: EventView) -> (StateView, Option<ReportLine>) {
    if state.is_terminal() {
        (state, None)
    } else if event is Cancelled {
        (StateView::Indeterminate, None)
    } else {
        match answered(state, event) {
            Some(step) => step,
            None => (state, None),
        }
    }
}

} // verus!
