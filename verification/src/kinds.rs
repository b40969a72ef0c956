//! The resource kinds that are watched.

use vstd::prelude::*;

verus! {

/// A watched workload kind. All of them live in one API group and version.
#[derive(Clone, Copy, Debug, PartialEq, Eq, Structural)]
pub enum Kind {
    Deployment,
    StatefulSet,
    DaemonSet,
}

/// The API group of the watched kinds.
pub open spec fn api_group() -> Seq<char> {
    "apps"@
}

/// The API version of the watched kinds.
pub open spec fn api_version() -> Seq<char> {
    "v1"@
}

impl Kind {
    /// The display name of the kind, which is also the `kind` label of its
    /// gauges.
    pub open spec fn label(self) -> Seq<char> {
        match self {
            Kind::Deployment => "Deployment"@,
            Kind::StatefulSet => "StatefulSet"@,
            Kind::DaemonSet => "DaemonSet"@,
        }
    }

    /// The display name of the kind.
    pub fn name(&self) -> (name: &'static str)
        ensures
            name@ == self.label(),
    {
        match self {
            Kind::Deployment => "Deployment",
            Kind::StatefulSet => "StatefulSet",
            Kind::DaemonSet => "DaemonSet",
        }
    }

    /// The API group in which the kind is looked up.
    pub fn group(&self) -> (group: &'static str)
        ensures
            group@ == api_group(),
    {
        "apps"
    }

    /// The API version in which the kind is looked up.
    pub fn version(&self) -> (version: &'static str)
        ensures
            version@ == api_version(),
    {
        "v1"
    }
}

/// The kinds to watch, in the order in which their watches are started.
pub fn watched_kinds() -> (kinds: Vec<Kind>)
    ensures
        kinds@ == seq![Kind::Deployment, Kind::StatefulSet, Kind::DaemonSet],
{
    let mut kinds: Vec<Kind> = Vec::new();
    kinds.push(Kind::Deployment);
    kinds.push(Kind::StatefulSet);
    kinds.push(Kind::DaemonSet);
    assert(kinds@ =~= seq![Kind::Deployment, Kind::StatefulSet, Kind::DaemonSet]);
    kinds
}

/// Different kinds have different display names, so their gauges never share a
/// label set.
pub proof fn lemma_kind_labels_differ(one: Kind, other: Kind)
    requires
        one != other,
    ensures
        one.label() != other.label(),
{
    reveal_strlit("Deployment");
    reveal_strlit("StatefulSet");
    reveal_strlit("DaemonSet");
    assert(Kind::Deployment.label().len() == 10);
    assert(Kind::StatefulSet.label().len() == 11);
    assert(Kind::DaemonSet.label().len() == 9);
}

} // verus!
