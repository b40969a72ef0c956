//! What the exporter knows of an observed object, and the label set under which
//! its gauges are kept.

use crate::annotations::Annotations;
use vstd::prelude::*;

verus! {

/// The label set of one time series: namespace, name and kind.
#[derive(Debug)]
pub struct ResourceKey {
    pub namespace: String,
    pub name: String,
    pub kind: String,
}

/// A label set as three texts.
pub struct ResourceKeyView {
    pub namespace: Seq<char>,
    pub name: Seq<char>,
    pub kind: Seq<char>,
}

impl View for ResourceKey {
    type V = ResourceKeyView;

    open spec fn view(&self) -> ResourceKeyView {
        ResourceKeyView { namespace: self.namespace@, name: self.name@, kind: self.kind@ }
    }
}

impl Clone for ResourceKey {
    fn clone(&self) -> (copy: ResourceKey)
        ensures
            copy@ == self@,
    {
        ResourceKey {
            namespace: self.namespace.clone(),
            name: self.name.clone(),
            kind: self.kind.clone(),
        }
    }
}

impl PartialEq for ResourceKey {
    fn eq(&self, other: &ResourceKey) -> (same: bool) {
        self.namespace == other.namespace && self.name == other.name && self.kind == other.kind
    }
}

impl vstd::std_specs::cmp::PartialEqSpecImpl for ResourceKey {
    open spec fn obeys_eq_spec() -> bool {
        true
    }

    /// Two keys are equal when their three labels read the same.
    open spec fn eq_spec(&self, other: &ResourceKey) -> bool {
        self@ == other@
    }
}

impl Eq for ResourceKey {

}

/// An object as a watch reports it: where it lives, what it is called and what
/// annotations it carries. A cluster-scoped object has no namespace.
#[derive(Debug)]
pub struct ObservedObject {
    pub namespace: Option<String>,
    pub name: String,
    pub annotations: Annotations,
}

/// An observed object as plain texts.
pub struct ObservedObjectView {
    pub namespace: Option<Seq<char>>,
    pub name: Seq<char>,
    pub annotations: Map<Seq<char>, Seq<char>>,
}

impl View for ObservedObject {
    type V = ObservedObjectView;

    open spec fn view(&self) -> ObservedObjectView {
        ObservedObjectView {
            namespace: match self.namespace {
                Some(namespace) => Some(namespace@),
                None => None,
            },
            name: self.name@,
            annotations: self.annotations@,
        }
    }
}

} // verus!
