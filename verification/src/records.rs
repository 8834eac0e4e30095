//! What the cluster's listings tell of brokers, topics and partitions.

use vstd::prelude::*;

verus! {

/// One broker process, as a broker listing reports it.
#[derive(Clone, Debug, PartialEq, Eq)]
pub struct BrokerRecord {
    /// The name under which the cluster knows the broker.
    pub name: String,
    /// Whether the broker reports that it is online.
    pub online: bool,
}

/// The mathematical value of a [`BrokerRecord`].
pub struct BrokerView {
    pub name: Seq<char>,
    pub online: bool,
}

impl View for BrokerRecord {
    type V = BrokerView;

    open spec fn view(&self) -> BrokerView {
        BrokerView { name: self.name@, online: self.online }
    }
}

impl DeepView for BrokerRecord {
    type V = BrokerView;

    open spec fn deep_view(&self) -> BrokerView {
        self@
    }
}

/// One topic, as a topic listing reports it.
#[derive(Clone, Debug, PartialEq, Eq)]
pub struct TopicRecord {
    /// The topic's name.
    pub name: String,
}

/// The mathematical value of a [`TopicRecord`].
pub struct TopicView {
    pub name: Seq<char>,
}

impl View for TopicRecord {
    type V = TopicView;

    open spec fn view(&self) -> TopicView {
        TopicView { name: self.name@ }
    }
}

impl DeepView for TopicRecord {
    type V = TopicView;

    open spec fn deep_view(&self) -> TopicView {
        self@
    }
}

/// One partition of a topic.
#[derive(Clone, Debug, PartialEq, Eq)]
pub struct PartitionRecord {
    /// The name of the topic that the partition belongs to.
    pub topic: String,
    /// The partition's index within its topic, counted from zero.
    pub index: usize,
}

/// The mathematical value of a [`PartitionRecord`].
pub struct PartitionView {
    pub topic: Seq<char>,
    pub index: nat,
}

impl View for PartitionRecord {
    type V = PartitionView;

    open spec fn view(&self) -> PartitionView {
        PartitionView { topic: self.topic@, index: self.index as nat }
    }
}

impl DeepView for PartitionRecord {
    type V = PartitionView;

    open spec fn deep_view(&self) -> PartitionView {
        self@
    }
}

/// Some broker of the listing is online.
pub open spec fn any_online(brokers: Seq<BrokerView>) -> bool {
    exists|i: int| 0 <= i < brokers.len() && brokers[i].online
}

/// Whether a broker listing shows a live cluster: the listing came, and some
/// broker in it is online. A listing that failed shows none.
pub open spec fn brokers_live(listing: Option<Seq<BrokerView>>) -> bool {
    match listing {
        Some(brokers) => any_online(brokers),
        None => false,
    }
}

/// The names of the topics that a topic listing holds, in its order. A
/// listing that failed holds none.
pub open spec fn topic_names(listing: Option<Seq<TopicView>>) -> Seq<Seq<char>> {
    match listing {
        Some(topics) => topics.map_values(|t: TopicView| t.name),
        None => Seq::empty(),
    }
}

/// A partition listing as a mathematical value: the number of partitions
/// that it holds, or `None` for a listing that failed.
pub open spec fn counted(listing: Option<usize>) -> Option<nat> {
    match listing {
        Some(count) => Some(count as nat),
        None => None,
    }
}

/// The number of partitions that a partition listing shows. A listing that
/// failed shows none.
pub open spec fn partition_count(listing: Option<nat>) -> nat {
    match listing {
        Some(count) => count,
        None => 0,
    }
}

} // verus!
