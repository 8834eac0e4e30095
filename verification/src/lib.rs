//! Health probe of a streaming cluster, as a verified decision procedure.
//!
//! A run asks a cluster a short series of questions: can the control plane
//! be reached, is any broker online, which topics exist, how many partitions
//! has each, and does any partition hold a record. The answers arrive from
//! the network; which question comes next, what is printed, and how the
//! cluster is classified in the end is decided here.
//!
//! [`StatusOpt::process`] is one step of that procedure: it takes the state
//! of a run and the answer to the pending question, and gives the next state
//! and the line to print. [`ProbeState::pending`] names the question to ask.
//! The caller performs the remote calls and feeds the answers back.
//!
//! Only a failed connection ends a run with an error. A listing that fails
//! counts as a listing that shows nothing, and a read that fails as a read
//! that delivers nothing. A cancellation ends the run as indeterminate.
//!
//! The scan for data is what a run costs. It stops at the first partition
//! that holds a record; where no partition holds one, it takes one round
//! trip for each topic and one for each partition of each topic.
//!
//! The module `laws` states what holds of whole runs against any cluster.

pub mod cluster;
pub mod command;
pub mod decode;
pub mod laws;
pub mod location;
pub mod probe;
pub mod records;
pub mod report;
mod scan;
pub mod text;

pub use command::{StatusOpt, Transition};
pub use location::Location;
pub use probe::{ProbeAction, ProbeEvent, ProbeState, TAIL_OFFSET, TAIL_RECORDS};
pub use records::{BrokerRecord, PartitionRecord, TopicRecord};
pub use report::{Classification, ProbeOutcome, ReportLine};
