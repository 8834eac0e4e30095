//! Where a cluster runs, as told by the name of the active profile.

use vstd::prelude::*;
use crate::text::{chars_of, contains, occurs_in, same_text};

verus! {

/// Where the cluster that answered runs.
#[derive(Clone, Copy, Debug, PartialEq, Eq, Structural)]
pub enum Location {
    /// On this machine.
    Local,
    /// On a cloud-hosted Kubernetes.
    CloudK8s,
    /// On a Kubernetes of this machine.
    LocalK8s,
}

/// The location that a profile name stands for.
///
/// The profile `local` is this machine; a name that holds `cloud` is a
/// cloud-hosted Kubernetes; every other name, and no profile at all, is a
/// local Kubernetes.
pub open spec fn location_of(profile: Option<Seq<char>>) -> Location {
    match profile {
        Some(name) => if name == "local"@ {
            Location::Local
        } else if occurs_in(name, "cloud"@) {
            Location::CloudK8s
        } else {
            Location::LocalK8s
        },
        None => Location::LocalK8s,
    }
}

impl Location {
    /// The words that describe the location in a report.
    pub open spec fn description(self) -> Seq<char> {
        match self {
            Location::Local => "locally"@,
            Location::CloudK8s => "on cloud based k8s"@,
            Location::LocalK8s => "on local k8s"@,
        }
    }

    /// The location that the active profile's name stands for.
    pub fn from_profile(profile: Option<&str>) -> (location: Location)
        ensures
            location == location_of(profile.deep_view()),
    {
        match profile {
            Some(name) => {
                let text = chars_of(name);
                let local = chars_of("local");
                let cloud = chars_of("cloud");
                if same_text(&text, &local) {
                    Location::Local
                } else if contains(&text, &cloud) {
                    Location::CloudK8s
                } else {
                    Location::LocalK8s
                }
            },
            None => Location::LocalK8s,
        }
    }

    /// The words that describe the location in a report.
    pub fn describe(self) -> (words: String)
        ensures
            words@ == self.description(),
    {
        match self {
            Location::Local => "locally".to_owned(),
            Location::CloudK8s => "on cloud based k8s".to_owned(),
            Location::LocalK8s => "on local k8s".to_owned(),
        }
    }
}

} // verus!
