//! The status command: one step of a run, and the judgements it rests on.

use vstd::prelude::*;
use vstd::utf8::{decode_utf8, valid_utf8};
use crate::decode::{decode_lossy, record_text};
use crate::location::{location_of, Location};
use crate::probe::{
    next, read_taken, rest_of, scan_next, with_data, ProbeAction, ProbeEvent, ProbeState,
    StateView, TAIL_OFFSET, TAIL_RECORDS,
};
use crate::records::{
    any_online, brokers_live, counted, partition_count, topic_names, BrokerRecord,
    PartitionRecord, TopicRecord,
};
use crate::report::{Classification, ProbeOutcome, ReportLine};

verus! {

/// The status command. It takes no options.
#[derive(Clone, Copy, Debug, Default)]
pub struct StatusOpt {}

/// What one step of a run gives: the state that follows, and the line to
/// print, if the step has one.
#[derive(Clone, Debug, PartialEq, Eq)]
pub struct Transition {
    pub state: ProbeState,
    pub say: Option<ReportLine>,
}

impl ProbeState {
    /// The state in which every run starts.
    pub fn new() -> (state: ProbeState)
        ensures
            state@ == StateView::Connecting,
    {
        ProbeState::Connecting
    }

    /// Whether the run has ended.
    pub fn is_terminal(&self) -> (ended: bool)
        ensures
            ended == self@.is_terminal(),
    {
        match self {
            ProbeState::Finished { .. } => true,
            ProbeState::Indeterminate => true,
            _ => false,
        }
    }

    /// The outcome of the run, once it has ended with one.
    pub fn outcome(&self) -> (outcome: Option<ProbeOutcome>)
        ensures
            outcome == (match self@ {
                StateView::Finished { outcome, .. } => Some(outcome),
                _ => None,
            }),
    {
        match self {
            ProbeState::Finished { outcome, .. } => Some(*outcome),
            _ => None,
        }
    }

    /// The question to ask of the cluster next.
    pub fn pending(&self) -> (action: ProbeAction)
        ensures
            action@ == self@.pending(),
    {
        match self {
            ProbeState::Connecting => ProbeAction::Connect,
            ProbeState::CheckingBrokers { .. } => ProbeAction::ListBrokers,
            ProbeState::ListingTopics { .. } => ProbeAction::ListTopics,
            ProbeState::ListingPartitions { topic, .. } => ProbeAction::ListPartitions {
                topic: topic.clone(),
            },
            ProbeState::ReadingTail { topic, index, .. } => ProbeAction::ReadTail {
                partition: PartitionRecord { topic: topic.clone(), index: *index },
                from_end: TAIL_OFFSET,
                at_most: TAIL_RECORDS,
            },
            ProbeState::Finished { .. } => ProbeAction::Finish,
            ProbeState::Indeterminate => ProbeAction::Finish,
        }
    }
}

/// The state that ends a run with a classification, without a connection
/// error and without a record as evidence.
fn concluded(classification: Classification, location: Location) -> (state: ProbeState)
    ensures
        state@ == crate::probe::concluded(classification, location),
{
    ProbeState::Finished {
        outcome: ProbeOutcome { classification, location: Some(location) },
        error: None,
        evidence: None,
    }
}

/// Turns to the topic at `topics[next]`, or ends the run where no topic is
/// left.
fn turn_to_next(location: Location, topics: Vec<String>, next: usize) -> (t: Transition)
    ensures
        t.state@ == scan_next(location, rest_of(topics.deep_view(), next as nat)).0,
        t.say == scan_next(location, rest_of(topics.deep_view(), next as nat)).1,
{
    if next < topics.len() {
        let topic = topics[next].clone();
        proof {
            let names = topics.deep_view();
            assert(names.skip(next as int)[0] == topic@);
            assert(names.skip(next as int).drop_first() =~= names.skip(next + 1));
        }
        Transition {
            state: ProbeState::ListingPartitions { location, topic, topics, next: next + 1 },
            say: None,
        }
    } else {
        Transition {
            state: concluded(Classification::RunningEmpty, location),
            say: Some(ReportLine::SpusEmpty),
        }
    }
}

/// Whether some broker of the listing is online.
fn some_online(brokers: &Vec<BrokerRecord>) -> (live: bool)
    ensures
        live == any_online(brokers.deep_view()),
{
    let mut i: usize = 0;
    while i < brokers.len()
        invariant
            i <= brokers.len(),
            forall|j: int| 0 <= j < i ==> !brokers.deep_view()[j].online,
        decreases brokers.len() - i,
    {
        if brokers[i].online {
            assert(brokers.deep_view()[i as int].online);
            return true;
        }
        i += 1;
    }
    false
}

impl StatusOpt {
    /// Whether a broker listing shows that some broker is online. A listing
    /// that could not be had shows none.
    pub fn spus_running(listing: &Option<Vec<BrokerRecord>>) -> (live: bool)
        ensures
            live == brokers_live(listing.deep_view()),
    {
        match listing {
            Some(brokers) => some_online(brokers),
            None => false,
        }
    }

    /// The names of the topics that a topic listing holds, in its order. A
    /// listing that could not be had gives no topic.
    pub fn topics(listing: Option<Vec<TopicRecord>>) -> (names: Vec<String>)
        ensures
            names.deep_view() == topic_names(listing.deep_view()),
    {
        let mut names: Vec<String> = Vec::new();
        match listing {
            Some(records) => {
                let mut i: usize = 0;
                while i < records.len()
                    invariant
                        i <= records.len(),
                        names.len() == i,
                        forall|j: int| 0 <= j < i ==> names@[j]@ == records@[j].name@,
                    decreases records.len() - i,
                {
                    names.push(records[i].name.clone());
                    i += 1;
                }
                assert(names.deep_view() =~= topic_names(Some(records).deep_view()));
            },
            None => {
                assert(names.deep_view() =~= Seq::<Seq<char>>::empty());
            },
        }
        names
    }

    /// The number of partitions that a partition listing shows. A listing
    /// that could not be had counts as none.
    pub fn num_partitions(listing: Option<usize>) -> (count: usize)
        ensures
            count == partition_count(counted(listing)),
    {
        match listing {
            Some(n) => n,
            None => 0,
        }
    }

    /// The last record of a partition as text, from what a tail read
    /// delivered. The payload is decoded leniently, so that no payload can
    /// make the decoding fail. Where no record came there is no text.
    pub fn last_record(read: Option<Vec<u8>>) -> (text: Option<String>)
        ensures
            text.deep_view() == record_text(read.deep_view()),
            read.deep_view() matches Some(bytes) ==> (valid_utf8(bytes) ==> text.deep_view()
                == Some(decode_utf8(bytes))),
    {
        match read {
            Some(bytes) => {
                assert(bytes.deep_view() =~= bytes@);
                Some(decode_lossy(&bytes))
            },
            None => None,
        }
    }

    /// What a tail read comes to, once its payload is decoded. `state` is
    /// the state that waits for the read, and `record` the text of the
    /// record that came, if one came. A record ends the run as running with
    /// data; without one the scan goes on. A state that waits for no tail
    /// read stays as it is.
    pub fn after_tail_read(state: ProbeState, record: Option<String>) -> (t: Transition)
        ensures
            t.state@ == read_taken(state@, record.deep_view()).0,
            t.say == read_taken(state@, record.deep_view()).1,
    {
        match state {
            ProbeState::ReadingTail { location, topic, count, index, topics, next } => {
                match record {
                    Some(text) => Transition {
                        state: ProbeState::Finished {
                            outcome: ProbeOutcome {
                                classification: Classification::RunningWithData,
                                location: Some(location),
                            },
                            error: None,
                            evidence: Some(text),
                        },
                        say: None,
                    },
                    None => {
                        if count > 0 && index < count - 1 {
                            Transition {
                                state: ProbeState::ReadingTail {
                                    location,
                                    topic,
                                    count,
                                    index: index + 1,
                                    topics,
                                    next,
                                },
                                say: None,
                            }
                        } else {
                            turn_to_next(location, topics, next)
                        }
                    },
                }
            },
            other => Transition { state: other, say: None },
        }
    }

    /// The words that say where the cluster runs, from the name of the
    /// active profile.
    pub fn cluster_location_description(profile: Option<&str>) -> (words: String)
        ensures
            words@ == location_of(profile.deep_view()).description(),
    {
        Location::from_profile(profile).describe()
    }

    /// One step of a run: takes the state and the event that came, and gives
    /// the state that follows and the line to print.
    ///
    /// A run that has ended takes no event. A cancellation ends every other
    /// run as indeterminate. The answer to the pending question moves the run
    /// on, and any other event leaves it as it is.
    ///
    /// The evidence of a run that ends with data is the payload decoded
    /// leniently; of a payload that is well-formed UTF-8 it is the text that
    /// the payload encodes.
    pub fn process(&self, state: ProbeState, event: ProbeEvent) -> (t: Transition)
        ensures
            t.state@ == next(state@, event@).0,
            t.say == next(state@, event@).1,
            state@ is ReadingTail && event@ is Tail && event@->Tail_0 is Some && valid_utf8(
                event@->Tail_0->0,
            ) ==> t.state@ == with_data(
                state@->ReadingTail_location,
                decode_utf8(event@->Tail_0->0),
            ),
    {
        if state.is_terminal() {
            return Transition { state, say: None };
        }
        match (state, event) {
            (_, ProbeEvent::Cancelled) => Transition {
                state: ProbeState::Indeterminate,
                say: None,
            },
            (ProbeState::Connecting, ProbeEvent::Connected { profile }) => {
                let location = match &profile {
                    Some(name) => Location::from_profile(Some(name.as_str())),
                    None => Location::from_profile(None),
                };
                Transition {
                    state: ProbeState::CheckingBrokers { location },
                    say: Some(ReportLine::Running(location)),
                }
            },
            (ProbeState::Connecting, ProbeEvent::ConnectFailed { error }) => Transition {
                state: ProbeState::Finished {
                    outcome: ProbeOutcome {
                        classification: Classification::NotRunning,
                        location: None,
                    },
                    error: Some(error),
                    evidence: None,
                },
                say: Some(ReportLine::Unreachable),
            },
            (ProbeState::CheckingBrokers { location }, ProbeEvent::Brokers(listing)) => {
                if Self::spus_running(&listing) {
                    Transition { state: ProbeState::ListingTopics { location }, say: None }
                } else {
                    Transition {
                        state: concluded(Classification::NotRunning, location),
                        say: Some(ReportLine::NoSpusRunning),
                    }
                }
            },
            (ProbeState::ListingTopics { location }, ProbeEvent::Topics(listing)) => {
                let names = Self::topics(listing);
                assert(names.deep_view().skip(0) =~= names.deep_view());
                turn_to_next(location, names, 0)
            },
            (
                ProbeState::ListingPartitions { location, topic, topics, next },
                ProbeEvent::Partitions(listing),
            ) => {
                let count = Self::num_partitions(listing);
                if count > 0 {
                    Transition {
                        state: ProbeState::ReadingTail {
                            location,
                            topic,
                            count,
                            index: 0,
                            topics,
                            next,
                        },
                        say: None,
                    }
                } else {
                    turn_to_next(location, topics, next)
                }
            },
            (
                ProbeState::ReadingTail { location, topic, count, index, topics, next },
                ProbeEvent::Tail(read),
            ) => {
                let state = ProbeState::ReadingTail { location, topic, count, index, topics, next };
                Self::after_tail_read(state, Self::last_record(read))
            },
            (state, _) => Transition { state, say: None },
        }
    }
}

} // verus!
