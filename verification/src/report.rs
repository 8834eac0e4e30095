//! What a run reports: the lines it prints and the classification it ends in.

use vstd::prelude::*;
use vstd::string::StringExecFns;
use crate::location::Location;

verus! {

/// How a run classifies the cluster.
#[derive(Clone, Copy, Debug, PartialEq, Eq, Structural)]
pub enum Classification {
    /// The control plane could not be reached, or no broker is online.
    NotRunning,
    /// Some broker is online and no partition holds a record.
    RunningEmpty,
    /// Some broker is online and some partition holds a record.
    RunningWithData,
}

/// The result of a run that ended: the classification, and where the
/// cluster runs if the control plane was reached.
#[derive(Clone, Copy, Debug, PartialEq, Eq, Structural)]
pub struct ProbeOutcome {
    pub classification: Classification,
    pub location: Option<Location>,
}

/// One line of the report.
#[derive(Clone, Copy, Debug, PartialEq, Eq, Structural)]
pub enum ReportLine {
    /// The control plane answered; the cluster runs at the location.
    Running(Location),
    /// The control plane could not be reached.
    Unreachable,
    /// Brokers are online and hold no record.
    SpusEmpty,
    /// No broker is online.
    NoSpusRunning,
}

impl ReportLine {
    /// The line's text.
    pub open spec fn text(self) -> Seq<char> {
        match self {
            ReportLine::Running(location) => "SC Running "@ + location.description(),
            ReportLine::Unreachable => "none"@,
            ReportLine::SpusEmpty => "spus are empty"@,
            ReportLine::NoSpusRunning => "no spus running"@,
        }
    }

    /// The line's text, as it is printed.
    pub fn render(self) -> (line: String)
        ensures
            line@ == self.text(),
    {
        match self {
            ReportLine::Running(location) => {
                let words = location.describe();
                "SC Running ".to_owned().concat(words.as_str())
            },
            ReportLine::Unreachable => "none".to_owned(),
            ReportLine::SpusEmpty => "spus are empty".to_owned(),
            ReportLine::NoSpusRunning => "no spus running".to_owned(),
        }
    }
}

} // verus!
