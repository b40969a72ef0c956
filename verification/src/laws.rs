//! What holds of the store whenever objects are applied to it.

use crate::extractor::{
    extraction_of, field_reading, key_of, sample_of, store_after_applied, store_after_events,
    AppliedEvent, DiagnosticView,
};
use crate::fields::{
    expiry_annotation, lemma_annotations_differ, rotation_annotation, AnnotationField,
};
use crate::kinds::{lemma_kind_labels_differ, Kind};
use crate::object::ObservedObjectView;
use crate::store::{
    family_of, lemma_store_after_concat, same_series, store_after, GaugeSampleView, SeriesId,
};
use crate::timestamp::rfc3339_millis;
use vstd::prelude::*;

verus! {

/// The store after one reading has been taken in: its sample upserted, if it
/// has one.
pub open spec fn after_reading(
    store: Map<SeriesId, i64>,
    reading: Option<Result<GaugeSampleView, DiagnosticView>>,
) -> Map<SeriesId, i64> {
    match reading {
        Some(Ok(sample)) => store.insert(sample.id(), sample.value_millis),
        _ => store,
    }
}

/// Upserting the sample of a reading takes the reading in.
pub proof fn lemma_store_after_reading(
    store: Map<SeriesId, i64>,
    reading: Option<Result<GaugeSampleView, DiagnosticView>>,
)
    ensures
        store_after(store, sample_of(reading)) == after_reading(store, reading),
{
    reveal_with_fuel(store_after, 2);
    if let Some(Ok(sample)) = reading {
        assert(sample_of(reading).drop_last() =~= Seq::<GaugeSampleView>::empty());
    }
}

/// Applying a namespaced object takes in the reading of its rotation
/// annotation and then the reading of its expiry annotation.
pub proof fn lemma_applied_by_field(
    store: Map<SeriesId, i64>,
    object: ObservedObjectView,
    kind: Seq<char>,
)
    requires
        object.namespace is Some,
    ensures
        ({
            let key = key_of(object.namespace->0, object.name, kind);
            let rotation = field_reading(object.annotations, key, AnnotationField::RotationTime);
            let expiry = field_reading(object.annotations, key, AnnotationField::ExpiryTime);
            store_after_applied(store, object, kind) == after_reading(
                after_reading(store, rotation),
                expiry,
            )
        }),
{
    let key = key_of(object.namespace->0, object.name, kind);
    let rotation = field_reading(object.annotations, key, AnnotationField::RotationTime);
    let expiry = field_reading(object.annotations, key, AnnotationField::ExpiryTime);
    lemma_store_after_concat(store, sample_of(rotation), sample_of(expiry));
    lemma_store_after_reading(store, rotation);
    lemma_store_after_reading(after_reading(store, rotation), expiry);
}

/// An object that carries both annotations with valid timestamps sets both
/// gauges of its key, each to the milliseconds of its own annotation, and
/// yields no diagnostic.
pub proof fn lemma_valid_annotations_set_both_gauges(
    store: Map<SeriesId, i64>,
    object: ObservedObjectView,
    kind: Seq<char>,
)
    requires
        object.namespace is Some,
        object.annotations.contains_key(rotation_annotation()),
        object.annotations.contains_key(expiry_annotation()),
        rfc3339_millis(object.annotations[rotation_annotation()]) is Some,
        rfc3339_millis(object.annotations[expiry_annotation()]) is Some,
    ensures
        ({
            let key = key_of(object.namespace->0, object.name, kind);
            let after = store_after_applied(store, object, kind);
            let rotation = SeriesId { field: AnnotationField::RotationTime, key };
            let expiry = SeriesId { field: AnnotationField::ExpiryTime, key };
            &&& after.contains_key(rotation)
            &&& after[rotation] == rfc3339_millis(object.annotations[rotation_annotation()])->0
            &&& after.contains_key(expiry)
            &&& after[expiry] == rfc3339_millis(object.annotations[expiry_annotation()])->0
        }),
        extraction_of(object, kind).diagnostics.len() == 0,
{
    lemma_applied_by_field(store, object, kind);
}

/// The two objects are one resource, and their annotations differ in nothing
/// but the rotation annotation.
pub open spec fn differ_in_rotation_only(
    one: ObservedObjectView,
    other: ObservedObjectView,
) -> bool {
    &&& one.namespace == other.namespace
    &&& one.name == other.name
    &&& forall|key: Seq<char>|
        key != rotation_annotation() ==> {
            &&& #[trigger] one.annotations.contains_key(key) == other.annotations.contains_key(key)
            &&& one.annotations.contains_key(key) ==> one.annotations[key]
                == other.annotations[key]
        }
}

/// Applying an object again with nothing but its rotation annotation changed
/// leaves every series but the rotation gauge of its key as the first
/// application left it: the expiry gauge of the key among them. The rotation
/// gauge of the key takes the new value where that is a timestamp.
pub proof fn lemma_rotation_change_touches_rotation_only(
    store: Map<SeriesId, i64>,
    object: ObservedObjectView,
    changed: ObservedObjectView,
    kind: Seq<char>,
    other: SeriesId,
)
    requires
        differ_in_rotation_only(object, changed),
        object.namespace is Some ==> other != (SeriesId {
            field: AnnotationField::RotationTime,
            key: key_of(object.namespace->0, object.name, kind),
        }),
    ensures
        ({
            let once = store_after_applied(store, object, kind);
            let twice = store_after_applied(once, changed, kind);
            &&& same_series(twice, once, other)
            &&& object.namespace is Some && changed.annotations.contains_key(rotation_annotation())
                && rfc3339_millis(changed.annotations[rotation_annotation()]) is Some ==> {
                let id = SeriesId {
                    field: AnnotationField::RotationTime,
                    key: key_of(object.namespace->0, object.name, kind),
                };
                twice.contains_key(id) && twice[id] == rfc3339_millis(
                    changed.annotations[rotation_annotation()],
                )->0
            }
        }),
{
    if object.namespace is Some {
        let once = store_after_applied(store, object, kind);
        lemma_annotations_differ();
        assert(object.annotations.contains_key(expiry_annotation())
            == changed.annotations.contains_key(expiry_annotation()));
        lemma_applied_by_field(store, object, kind);
        lemma_applied_by_field(once, changed, kind);
    }
}

/// A rotation annotation that is no timestamp leaves every rotation gauge as
/// it was and yields exactly one diagnostic for the rotation field, which names
/// the key of the object and the value as it stood.
pub proof fn lemma_unparsable_rotation_keeps_gauge(
    store: Map<SeriesId, i64>,
    object: ObservedObjectView,
    kind: Seq<char>,
)
    requires
        object.namespace is Some,
        object.annotations.contains_key(rotation_annotation()),
        rfc3339_millis(object.annotations[rotation_annotation()]) is None,
    ensures
        family_of(store_after_applied(store, object, kind), AnnotationField::RotationTime)
            == family_of(store, AnnotationField::RotationTime),
        ({
            let diagnostics = extraction_of(object, kind).diagnostics;
            &&& diagnostics.len() >= 1
            &&& diagnostics[0] == DiagnosticView {
                key: key_of(object.namespace->0, object.name, kind),
                field: AnnotationField::RotationTime,
                raw: object.annotations[rotation_annotation()],
            }
            &&& forall|i: int|
                1 <= i < diagnostics.len() ==> (#[trigger] diagnostics[i]).field
                    != AnnotationField::RotationTime
        }),
{
    lemma_applied_by_field(store, object, kind);
    assert(family_of(store_after_applied(store, object, kind), AnnotationField::RotationTime)
        =~= family_of(store, AnnotationField::RotationTime));
}

/// An object without a namespace yields no sample and no diagnostic, whatever
/// its annotations hold, and leaves the store as it is.
pub proof fn lemma_cluster_scoped_yields_nothing(
    store: Map<SeriesId, i64>,
    object: ObservedObjectView,
    kind: Seq<char>,
)
    requires
        object.namespace is None,
    ensures
        extraction_of(object, kind).samples.len() == 0,
        extraction_of(object, kind).diagnostics.len() == 0,
        store_after_applied(store, object, kind) == store,
{
}

/// Every sample that an object yields is in the store once the object has been
/// applied.
pub proof fn lemma_applied_samples_are_stored(
    store: Map<SeriesId, i64>,
    object: ObservedObjectView,
    kind: Seq<char>,
    at: int,
)
    requires
        0 <= at < extraction_of(object, kind).samples.len(),
    ensures
        ({
            let sample = extraction_of(object, kind).samples[at];
            let after = store_after_applied(store, object, kind);
            &&& after.contains_key(sample.id())
            &&& after[sample.id()] == sample.value_millis
        }),
{
    lemma_applied_by_field(store, object, kind);
}

/// Applying an object changes no series but those of its own samples.
pub proof fn lemma_applied_touches_own_series_only(
    store: Map<SeriesId, i64>,
    object: ObservedObjectView,
    kind: Seq<char>,
    other: SeriesId,
)
    requires
        forall|i: int|
            0 <= i < extraction_of(object, kind).samples.len() ==> (
            #[trigger] extraction_of(object, kind).samples[i]).id() != other,
    ensures
        same_series(store_after_applied(store, object, kind), store, other),
{
    if object.namespace is Some {
        let samples = extraction_of(object, kind).samples;
        lemma_applied_by_field(store, object, kind);
        if samples.len() > 0 {
            assert(samples[0].id() != other);
            assert(samples[samples.len() - 1].id() != other);
        }
    }
}

/// Two objects of different kinds do not disturb each other: applied in either
/// order they leave the same store, and it holds every sample of both.
pub proof fn lemma_distinct_kinds_commute(
    store: Map<SeriesId, i64>,
    first: ObservedObjectView,
    first_kind: Seq<char>,
    second: ObservedObjectView,
    second_kind: Seq<char>,
)
    requires
        first_kind != second_kind,
    ensures
        store_after_applied(store_after_applied(store, first, first_kind), second, second_kind)
            == store_after_applied(
            store_after_applied(store, second, second_kind),
            first,
            first_kind,
        ),
        ({
            let after = store_after_applied(
                store_after_applied(store, first, first_kind),
                second,
                second_kind,
            );
            &&& forall|i: int|
                0 <= i < extraction_of(first, first_kind).samples.len() ==> {
                    let sample = #[trigger] extraction_of(first, first_kind).samples[i];
                    after.contains_key(sample.id()) && after[sample.id()] == sample.value_millis
                }
            &&& forall|i: int|
                0 <= i < extraction_of(second, second_kind).samples.len() ==> {
                    let sample = #[trigger] extraction_of(second, second_kind).samples[i];
                    after.contains_key(sample.id()) && after[sample.id()] == sample.value_millis
                }
        }),
{
    let first_samples = extraction_of(first, first_kind).samples;
    let second_samples = extraction_of(second, second_kind).samples;
    let one = store_after_applied(store, first, first_kind);
    let two = store_after_applied(store, second, second_kind);
    let one_two = store_after_applied(one, second, second_kind);
    let two_one = store_after_applied(two, first, first_kind);
    assert forall|i: int, j: int|
        0 <= i < first_samples.len() && 0 <= j < second_samples.len() implies (
    #[trigger] first_samples[i]).id() != (#[trigger] second_samples[j]).id() by {
        assert(first_samples[i].key.kind == first_kind);
        assert(second_samples[j].key.kind == second_kind);
    }
    assert forall|id: SeriesId| #[trigger] same_series(one_two, two_one, id) by {
        lemma_series_after_applied(store, first, first_kind, id);
        lemma_series_after_applied(two, first, first_kind, id);
        lemma_series_after_applied(store, second, second_kind, id);
        lemma_series_after_applied(one, second, second_kind, id);
    }
    assert(one_two =~= two_one) by {
        assert forall|id: SeriesId| one_two.dom().contains(id) == two_one.dom().contains(id) by {
            assert(same_series(one_two, two_one, id));
        }
        assert forall|id: SeriesId| #[trigger]
            one_two.dom().contains(id) implies one_two[id] == two_one[id] by {
            assert(same_series(one_two, two_one, id));
        }
    }
    assert forall|i: int| 0 <= i < first_samples.len() implies {
        let sample = #[trigger] first_samples[i];
        one_two.contains_key(sample.id()) && one_two[sample.id()] == sample.value_millis
    } by {
        lemma_applied_samples_are_stored(two, first, first_kind, i);
    }
    assert forall|i: int| 0 <= i < second_samples.len() implies {
        let sample = #[trigger] second_samples[i];
        one_two.contains_key(sample.id()) && one_two[sample.id()] == sample.value_millis
    } by {
        lemma_applied_samples_are_stored(one, second, second_kind, i);
    }
}

/// Objects of two different watched kinds do not disturb each other: applied
/// in either order they leave the same store.
pub proof fn lemma_watched_kinds_commute(
    store: Map<SeriesId, i64>,
    first: ObservedObjectView,
    first_kind: Kind,
    second: ObservedObjectView,
    second_kind: Kind,
)
    requires
        first_kind != second_kind,
    ensures
        store_after_applied(
            store_after_applied(store, first, first_kind.label()),
            second,
            second_kind.label(),
        ) == store_after_applied(
            store_after_applied(store, second, second_kind.label()),
            first,
            first_kind.label(),
        ),
{
    lemma_kind_labels_differ(first_kind, second_kind);
    lemma_distinct_kinds_commute(store, first, first_kind.label(), second, second_kind.label());
}

/// The value that one applied object gives to the series `id`: the
/// milliseconds of its annotation for the field of `id`, where the object has
/// the key of `id` and the annotation is a timestamp.
pub open spec fn value_given(event: AppliedEvent, id: SeriesId) -> Option<i64> {
    if event.object.namespace is Some && key_of(
        event.object.namespace->0,
        event.object.name,
        event.kind,
    ) == id.key {
        match field_reading(event.object.annotations, id.key, id.field) {
            Some(Ok(sample)) => Some(sample.value_millis),
            _ => None,
        }
    } else {
        None
    }
}

/// The value that the latest object of a run gave to the series `id`, passing
/// over the objects that gave it none.
pub open spec fn latest_value(events: Seq<AppliedEvent>, id: SeriesId) -> Option<i64>
    decreases events.len(),
{
    if events.len() == 0 {
        None
    } else {
        match value_given(events.last(), id) {
            Some(value) => Some(value),
            None => latest_value(events.drop_last(), id),
        }
    }
}

/// After any run of applied objects, a series holds the value of the latest
/// annotation that was read for it successfully. A series for which none was
/// read is as it was before the run: absent annotations, values that do not
/// parse and objects without a namespace change nothing, and nothing is ever
/// removed.
pub proof fn lemma_series_holds_latest_value(
    store: Map<SeriesId, i64>,
    events: Seq<AppliedEvent>,
    id: SeriesId,
)
    ensures
        match latest_value(events, id) {
            Some(value) => store_after_events(store, events).contains_key(id)
                && store_after_events(store, events)[id] == value,
            None => same_series(store_after_events(store, events), store, id),
        },
    decreases events.len(),
{
    if events.len() > 0 {
        let before = store_after_events(store, events.drop_last());
        let event = events.last();
        lemma_series_holds_latest_value(store, events.drop_last(), id);
        if event.object.namespace is Some {
            lemma_applied_by_field(before, event.object, event.kind);
        }
    }
}

/// One series after an object has been applied: the value of the object's
/// sample for it, or what the store held where the object has no such sample.
proof fn lemma_series_after_applied(
    store: Map<SeriesId, i64>,
    object: ObservedObjectView,
    kind: Seq<char>,
    id: SeriesId,
)
    ensures
        ({
            let samples = extraction_of(object, kind).samples;
            let after = store_after_applied(store, object, kind);
            if exists|i: int| 0 <= i < samples.len() && (#[trigger] samples[i]).id() == id {
                let at = choose|i: int|
                    0 <= i < samples.len() && (#[trigger] samples[i]).id() == id;
                after.contains_key(id) && after[id] == samples[at].value_millis
            } else {
                same_series(after, store, id)
            }
        }),
{
    let samples = extraction_of(object, kind).samples;
    if exists|i: int| 0 <= i < samples.len() && (#[trigger] samples[i]).id() == id {
        let at = choose|i: int| 0 <= i < samples.len() && (#[trigger] samples[i]).id() == id;
        lemma_applied_samples_are_stored(store, object, kind, at);
    } else {
        lemma_applied_touches_own_series_only(store, object, kind, id);
    }
}

} // verus!
