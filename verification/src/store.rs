//! The metric store: the current value of every gauge series.
//!
//! A series is named by a field and a resource key. Setting a series overwrites
//! whatever it held; nothing is ever removed.

use crate::assoc::{
    as_map, distinct_keys, has_key, lemma_empty_stands_for_empty, lemma_entry_is_mapped,
    lemma_missing_is_unmapped, lemma_push_inserts, lemma_update_inserts,
};
use crate::fields::AnnotationField;
use crate::object::{ResourceKey, ResourceKeyView};
use vstd::prelude::*;

verus! {

/// One upsert: the value of one field of one resource, in milliseconds since
/// the epoch.
#[derive(Clone, Debug, PartialEq, Eq)]
pub struct GaugeSample {
    pub key: ResourceKey,
    pub field: AnnotationField,
    pub value_millis: i64,
}

/// A sample with its key as texts.
pub struct GaugeSampleView {
    pub key: ResourceKeyView,
    pub field: AnnotationField,
    pub value_millis: i64,
}

impl View for GaugeSample {
    type V = GaugeSampleView;

    open spec fn view(&self) -> GaugeSampleView {
        GaugeSampleView { key: self.key@, field: self.field, value_millis: self.value_millis }
    }
}

impl GaugeSampleView {
    /// The series that the sample belongs to.
    pub open spec fn id(self) -> SeriesId {
        SeriesId { field: self.field, key: self.key }
    }
}

/// The names of the labels of every series, in the order in which a scrape
/// shows them.
pub fn label_names() -> (names: Vec<&'static str>)
    ensures
        names@.len() == 3,
        names@[0]@ == "namespace"@,
        names@[1]@ == "name"@,
        names@[2]@ == "kind"@,
{
    let mut names: Vec<&'static str> = Vec::new();
    names.push("namespace");
    names.push("name");
    names.push("kind");
    names
}

/// The name of one gauge series.
pub struct SeriesId {
    pub field: AnnotationField,
    pub key: ResourceKeyView,
}

/// The series of one field, each key with its value.
pub open spec fn family_of(store: Map<SeriesId, i64>, field: AnnotationField) -> Map<
    ResourceKeyView,
    i64,
> {
    Map::new(
        |key: ResourceKeyView| store.contains_key(SeriesId { field, key }),
        |key: ResourceKeyView| store[SeriesId { field, key }],
    )
}

/// The two stores agree on the series `id`: both hold it with one value, or
/// neither holds it.
pub open spec fn same_series(
    one: Map<SeriesId, i64>,
    other: Map<SeriesId, i64>,
    id: SeriesId,
) -> bool {
    &&& one.contains_key(id) == other.contains_key(id)
    &&& one.contains_key(id) ==> one[id] == other[id]
}

/// The samples, each as plain values.
pub open spec fn sample_views(samples: Seq<GaugeSample>) -> Seq<GaugeSampleView> {
    Seq::new(samples.len(), |i: int| samples[i]@)
}

/// The store after the samples have been upserted one after the other.
pub open spec fn store_after(store: Map<SeriesId, i64>, samples: Seq<GaugeSampleView>) -> Map<
    SeriesId,
    i64,
>
    decreases samples.len(),
{
    if samples.len() == 0 {
        store
    } else {
        store_after(store, samples.drop_last()).insert(
            samples.last().id(),
            samples.last().value_millis,
        )
    }
}

/// Upserting a run of samples is upserting its first part and then the rest.
pub proof fn lemma_store_after_concat(
    store: Map<SeriesId, i64>,
    first: Seq<GaugeSampleView>,
    rest: Seq<GaugeSampleView>,
)
    ensures
        store_after(store, first + rest) == store_after(store_after(store, first), rest),
    decreases rest.len(),
{
    if rest.len() == 0 {
        assert(first + rest =~= first);
    } else {
        lemma_store_after_concat(store, first, rest.drop_last());
        assert((first + rest).drop_last() =~= first + rest.drop_last());
        assert((first + rest).last() == rest.last());
    }
}

/// Upserts remove nothing: a series that the store holds is still held after
/// any run of upserts.
pub proof fn lemma_upserts_remove_nothing(
    store: Map<SeriesId, i64>,
    samples: Seq<GaugeSampleView>,
    id: SeriesId,
)
    requires
        store.contains_key(id),
    ensures
        store_after(store, samples).contains_key(id),
    decreases samples.len(),
{
    if samples.len() > 0 {
        lemma_upserts_remove_nothing(store, samples.drop_last(), id);
    }
}

/// Of two upserts to one series the later one wins: the store is as if the
/// earlier one had not been made.
pub proof fn lemma_later_upsert_wins(
    store: Map<SeriesId, i64>,
    earlier: GaugeSampleView,
    later: GaugeSampleView,
)
    requires
        earlier.id() == later.id(),
    ensures
        store_after(store, seq![earlier, later]) == store_after(store, seq![later]),
{
    reveal_with_fuel(store_after, 3);
    assert(seq![earlier, later].drop_last() =~= seq![earlier]);
    assert(seq![earlier].drop_last() =~= Seq::<GaugeSampleView>::empty());
    assert(seq![later].drop_last() =~= Seq::<GaugeSampleView>::empty());
    assert(store_after(store, seq![earlier, later]) =~= store_after(store, seq![later]));
}

/// Upserts to two different series do not disturb each other: in either order
/// they leave the same store.
pub proof fn lemma_upserts_of_different_series_commute(
    store: Map<SeriesId, i64>,
    one: GaugeSampleView,
    other: GaugeSampleView,
)
    requires
        one.id() != other.id(),
    ensures
        store_after(store, seq![one, other]) == store_after(store, seq![other, one]),
{
    reveal_with_fuel(store_after, 3);
    assert(seq![one, other].drop_last() =~= seq![one]);
    assert(seq![other, one].drop_last() =~= seq![other]);
    assert(seq![one].drop_last() =~= Seq::<GaugeSampleView>::empty());
    assert(seq![other].drop_last() =~= Seq::<GaugeSampleView>::empty());
    assert(store_after(store, seq![one, other]) =~= store_after(store, seq![other, one]));
}

/// The samples of a listing, each as a key and its value.
pub open spec fn listed(samples: Seq<GaugeSample>) -> Seq<(ResourceKeyView, i64)> {
    Seq::new(samples.len(), |i: int| (samples[i].key@, samples[i].value_millis))
}

/// One gauge family as a scrape shows it: its name, its help text and its
/// series.
#[derive(Debug)]
pub struct FamilySnapshot {
    pub field: AnnotationField,
    pub name: String,
    pub help: String,
    pub samples: Vec<GaugeSample>,
}

impl FamilySnapshot {
    /// The snapshot is that of the family of `field` in `store`: it carries
    /// the family's name and help text, and lists each of its series once.
    pub open spec fn shows(&self, store: Map<SeriesId, i64>, field: AnnotationField) -> bool {
        &&& self.field == field
        &&& self.name@ == field.metric()
        &&& self.help@ == field.description()
        &&& distinct_keys(listed(self.samples@))
        &&& as_map(listed(self.samples@)) == family_of(store, field)
        &&& forall|i: int|
            0 <= i < self.samples@.len() ==> (#[trigger] self.samples@[i]).field == field
    }
}

/// A family of which the store holds no series is shown without series. So a
/// scrape of a store in which nothing has been set shows the two families and
/// not one series.
pub proof fn lemma_family_without_series_shows_none(
    family: FamilySnapshot,
    store: Map<SeriesId, i64>,
    field: AnnotationField,
)
    requires
        family.shows(store, field),
        forall|key: ResourceKeyView| !store.contains_key(SeriesId { field, key }),
    ensures
        family.samples@.len() == 0,
{
    let shown = listed(family.samples@);
    if shown.len() > 0 {
        assert(has_key(shown, shown[0].0));
        assert(family_of(store, field).contains_key(shown[0].0));
    }
}

/// One series as it is stored.
#[derive(Debug)]
struct Series {
    key: ResourceKey,
    value: i64,
}

/// The stored series, each as a key and its value.
spec fn pairs_of(entries: Seq<Series>) -> Seq<(ResourceKeyView, i64)> {
    Seq::new(entries.len(), |i: int| (entries[i].key@, entries[i].value))
}

/// The series of one field. No key is held twice.
#[derive(Debug)]
struct Family {
    entries: Vec<Series>,
}

impl Family {
    spec fn pairs(&self) -> Seq<(ResourceKeyView, i64)> {
        pairs_of(self.entries@)
    }

    spec fn series(&self) -> Map<ResourceKeyView, i64> {
        as_map(self.pairs())
    }

    #[verifier::type_invariant]
    spec fn well_formed(&self) -> bool {
        distinct_keys(self.pairs())
    }

    fn new() -> (family: Family)
        ensures
            family.series() == Map::<ResourceKeyView, i64>::empty(),
    {
        let family = Family { entries: Vec::new() };
        proof {
            lemma_empty_stands_for_empty::<ResourceKeyView, i64>();
            assert(family.pairs() =~= Seq::empty());
        }
        family
    }

    fn position(&self, key: &ResourceKey) -> (found: Option<usize>)
        ensures
            match found {
                Some(at) => at < self.entries@.len() && self.entries@[at as int].key@ == key@,
                None => !has_key(self.pairs(), key@),
            },
    {
        let mut at: usize = 0;
        while at < self.entries.len()
            invariant
                at <= self.entries@.len(),
                forall|i: int| 0 <= i < at ==> (#[trigger] self.pairs()[i]).0 != key@,
            decreases self.entries@.len() - at,
        {
            if self.entries[at].key == *key {
                return Some(at);
            }
            at += 1;
        }
        None
    }

    fn set(&mut self, key: ResourceKey, value: i64)
        ensures
            final(self).series() == old(self).series().insert(key@, value),
    {
        proof {
            use_type_invariant(&*self);
        }
        let ghost before = self.pairs();
        let found = self.position(&key);
        let mut entries: Vec<Series> = Vec::new();
        core::mem::swap(&mut self.entries, &mut entries);
        match found {
            Some(at) => {
                proof {
                    lemma_update_inserts(before, at as int, value);
                }
                entries.set(at, Series { key, value });
                assert(pairs_of(entries@) =~= before.update(
                    at as int,
                    (before[at as int].0, value),
                ));
                self.entries = entries;
            },
            None => {
                proof {
                    lemma_push_inserts(before, key@, value);
                }
                entries.push(Series { key, value });
                assert(pairs_of(entries@) =~= before.push((key@, value)));
                self.entries = entries;
            },
        }
    }

    fn get(&self, key: &ResourceKey) -> (found: Option<i64>)
        ensures
            found == if self.series().contains_key(key@) {
                Some(self.series()[key@])
            } else {
                None
            },
    {
        proof {
            use_type_invariant(self);
        }
        match self.position(key) {
            Some(at) => {
                proof {
                    lemma_entry_is_mapped(self.pairs(), at as int);
                }
                Some(self.entries[at].value)
            },
            None => {
                proof {
                    lemma_missing_is_unmapped(self.pairs(), key@);
                }
                None
            },
        }
    }

    fn samples(&self, field: AnnotationField) -> (samples: Vec<GaugeSample>)
        ensures
            distinct_keys(listed(samples@)),
            as_map(listed(samples@)) == self.series(),
            forall|i: int| 0 <= i < samples@.len() ==> (#[trigger] samples@[i]).field == field,
    {
        proof {
            use_type_invariant(self);
        }
        let mut samples: Vec<GaugeSample> = Vec::new();
        let mut at: usize = 0;
        while at < self.entries.len()
            invariant
                at <= self.entries@.len(),
                samples@.len() == at,
                forall|i: int|
                    0 <= i < at ==> (#[trigger] samples@[i]).key@ == self.entries@[i].key@
                        && samples@[i].value_millis == self.entries@[i].value
                        && samples@[i].field == field,
            decreases self.entries@.len() - at,
        {
            let entry = &self.entries[at];
            samples.push(GaugeSample { key: entry.key.clone(), field, value_millis: entry.value });
            at += 1;
        }
        assert(listed(samples@) =~= self.pairs());
        samples
    }
}

/// The current value of every gauge series of the two fields.
#[derive(Debug)]
pub struct MetricStore {
    rotation: Family,
    expiry: Family,
}

impl View for MetricStore {
    type V = Map<SeriesId, i64>;

    /// The value of each series that has been set.
    closed spec fn view(&self) -> Map<SeriesId, i64> {
        Map::new(
            |id: SeriesId| self.family(id.field).series().contains_key(id.key),
            |id: SeriesId| self.family(id.field).series()[id.key],
        )
    }
}

impl MetricStore {
    spec fn family(&self, field: AnnotationField) -> Family {
        match field {
            AnnotationField::RotationTime => self.rotation,
            AnnotationField::ExpiryTime => self.expiry,
        }
    }

    /// A store in which no series has been set.
    pub fn new() -> (store: MetricStore)
        ensures
            store@ == Map::<SeriesId, i64>::empty(),
    {
        let store = MetricStore { rotation: Family::new(), expiry: Family::new() };
        assert(store@ =~= Map::<SeriesId, i64>::empty());
        store
    }

    /// Sets the series of `sample` to its value, whatever it held before. No
    /// other series changes.
    pub fn upsert(&mut self, sample: GaugeSample)
        ensures
            final(self)@ == old(self)@.insert(sample@.id(), sample.value_millis),
    {
        let ghost id = sample@.id();
        match sample.field {
            AnnotationField::RotationTime => self.rotation.set(sample.key, sample.value_millis),
            AnnotationField::ExpiryTime => self.expiry.set(sample.key, sample.value_millis),
        }
        assert(self@ =~= old(self)@.insert(id, sample.value_millis));
    }

    /// Upserts the samples one after the other, so that of two samples for one
    /// series the later one stays.
    pub fn upsert_all(&mut self, samples: Vec<GaugeSample>)
        ensures
            final(self)@ == store_after(old(self)@, sample_views(samples@)),
    {
        let ghost all = samples@;
        for sample in iter: samples
            invariant
                iter.seq() == all,
                self@ == store_after(old(self)@, sample_views(all.take(iter.index() as int))),
        {
            proof {
                let at = iter.index() as int;
                assert(sample_views(all.take(at + 1)).drop_last() =~= sample_views(all.take(at)));
                assert(sample_views(all.take(at + 1)).last() == sample@);
            }
            self.upsert(sample);
        }
        assert(all.take(all.len() as int) =~= all);
    }

    /// The value of the series of `field` and `key`, if it has been set.
    pub fn get(&self, field: AnnotationField, key: &ResourceKey) -> (value: Option<i64>)
        ensures
            value == if self@.contains_key(SeriesId { field, key: key@ }) {
                Some(self@[SeriesId { field, key: key@ }])
            } else {
                None
            },
    {
        match field {
            AnnotationField::RotationTime => self.rotation.get(key),
            AnnotationField::ExpiryTime => self.expiry.get(key),
        }
    }

    /// Every series of `field`, each key once.
    pub fn series(&self, field: AnnotationField) -> (samples: Vec<GaugeSample>)
        ensures
            distinct_keys(listed(samples@)),
            as_map(listed(samples@)) == family_of(self@, field),
            forall|i: int| 0 <= i < samples@.len() ==> (#[trigger] samples@[i]).field == field,
    {
        let samples = match field {
            AnnotationField::RotationTime => self.rotation.samples(field),
            AnnotationField::ExpiryTime => self.expiry.samples(field),
        };
        assert(family_of(self@, field) =~= self.family(field).series());
        samples
    }

    /// What a scrape shows: the rotation family, then the expiry family. Both
    /// are there from the start, whether or not any series has been set.
    pub fn snapshot(&self) -> (families: Vec<FamilySnapshot>)
        ensures
            families@.len() == 2,
            families@[0].shows(self@, AnnotationField::RotationTime),
            families@[1].shows(self@, AnnotationField::ExpiryTime),
    {
        let mut families: Vec<FamilySnapshot> = Vec::new();
        families.push(self.family_snapshot(AnnotationField::RotationTime));
        families.push(self.family_snapshot(AnnotationField::ExpiryTime));
        families
    }

    /// The family of `field` as a scrape shows it.
    pub fn family_snapshot(&self, field: AnnotationField) -> (family: FamilySnapshot)
        ensures
            family.shows(self@, field),
    {
        FamilySnapshot {
            field,
            name: field.metric_name(),
            help: field.help(),
            samples: self.series(field),
        }
    }
}

} // verus!
