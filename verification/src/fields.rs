//! The two annotations that the exporter reads, and the gauge family of each.

use vstd::prelude::*;

verus! {

/// One of the two timestamps that an object may carry as an annotation.
#[derive(Clone, Copy, Debug, PartialEq, Eq, Structural)]
pub enum AnnotationField {
    /// The time from which the secret can be rotated.
    RotationTime,
    /// The time at which the secret expires.
    ExpiryTime,
}

/// The annotation key that holds the rotation time.
pub open spec fn rotation_annotation() -> Seq<char> {
    "spykerman.co.uk/secret-rotation-time"@
}

/// The annotation key that holds the expiry time.
pub open spec fn expiry_annotation() -> Seq<char> {
    "spykerman.co.uk/secret-expiry-time"@
}

impl AnnotationField {
    /// The annotation key under which the field is read.
    pub open spec fn annotation(self) -> Seq<char> {
        match self {
            AnnotationField::RotationTime => rotation_annotation(),
            AnnotationField::ExpiryTime => expiry_annotation(),
        }
    }

    /// The name of the gauge family that holds the field.
    pub open spec fn metric(self) -> Seq<char> {
        match self {
            AnnotationField::RotationTime => "expiry_hawk_secret_rotation_time"@,
            AnnotationField::ExpiryTime => "expiry_hawk_secret_expiry_time"@,
        }
    }

    /// The help text of the gauge family that holds the field.
    pub open spec fn description(self) -> Seq<char> {
        match self {
            AnnotationField::RotationTime => "The time this secret can be rotated"@,
            AnnotationField::ExpiryTime => "The time this secret expires"@,
        }
    }

    /// The annotation key under which the field is read.
    pub fn annotation_key(&self) -> (key: String)
        ensures
            key@ == self.annotation(),
    {
        match self {
            AnnotationField::RotationTime => get_rotation_annotation(),
            AnnotationField::ExpiryTime => get_expiry_annotation(),
        }
    }

    /// The name of the gauge family that holds the field.
    pub fn metric_name(&self) -> (name: String)
        ensures
            name@ == self.metric(),
    {
        match self {
            AnnotationField::RotationTime => "expiry_hawk_secret_rotation_time".to_string(),
            AnnotationField::ExpiryTime => "expiry_hawk_secret_expiry_time".to_string(),
        }
    }

    /// The help text of the gauge family that holds the field.
    pub fn help(&self) -> (text: String)
        ensures
            text@ == self.description(),
    {
        match self {
            AnnotationField::RotationTime => "The time this secret can be rotated".to_string(),
            AnnotationField::ExpiryTime => "The time this secret expires".to_string(),
        }
    }
}

/// The two fields are read under different annotation keys.
pub proof fn lemma_annotations_differ()
    ensures
        rotation_annotation() != expiry_annotation(),
{
    reveal_strlit("spykerman.co.uk/secret-rotation-time");
    reveal_strlit("spykerman.co.uk/secret-expiry-time");
    assert(rotation_annotation().len() == 36);
    assert(expiry_annotation().len() == 34);
}

/// The key of the rotation-time annotation.
pub fn get_rotation_annotation() -> (key: String)
    ensures
        key@ == rotation_annotation(),
{
    "spykerman.co.uk/secret-rotation-time".to_string()
}

/// The key of the expiry-time annotation.
pub fn get_expiry_annotation() -> (key: String)
    ensures
        key@ == expiry_annotation(),
{
    "spykerman.co.uk/secret-expiry-time".to_string()
}

} // verus!
