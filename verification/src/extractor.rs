//! The annotation extractor: from one applied object to the gauge samples that
//! it yields and the values that could not be read.
//!
//! An object without a namespace yields nothing. Otherwise each of the two
//! fields is looked at on its own: an absent annotation is passed over, a value
//! that parses becomes a sample, and a value that does not parse becomes a
//! diagnostic and leaves the store alone.

use crate::annotations::Annotations;
use crate::fields::AnnotationField;
use crate::kinds::Kind;
use crate::object::{ObservedObject, ObservedObjectView, ResourceKey, ResourceKeyView};
use crate::store::{sample_views, store_after, GaugeSample, GaugeSampleView, MetricStore, SeriesId};
use crate::timestamp::{parse_rfc3339_millis, rfc3339_millis};
use vstd::prelude::*;
use vstd::string::StringExecFns;

verus! {

/// An annotation value that is no timestamp: which resource and field it was
/// read from, and the value as it stood.
#[derive(Clone, Debug, PartialEq, Eq)]
pub struct Diagnostic {
    pub key: ResourceKey,
    pub field: AnnotationField,
    pub raw: String,
}

/// A diagnostic as plain texts.
pub struct DiagnosticView {
    pub key: ResourceKeyView,
    pub field: AnnotationField,
    pub raw: Seq<char>,
}

impl View for Diagnostic {
    type V = DiagnosticView;

    open spec fn view(&self) -> DiagnosticView {
        DiagnosticView { key: self.key@, field: self.field, raw: self.raw@ }
    }
}

impl DiagnosticView {
    /// The line that reports the diagnostic: kind, name, namespace, the
    /// annotation that was read, and its value.
    pub open spec fn message(self) -> Seq<char> {
        self.key.kind + " "@ + self.key.name + " in "@ + self.key.namespace + ": "@
            + self.field.annotation() + " failed to parse as rfc3339: "@ + self.raw
    }
}

impl Diagnostic {
    /// The line that reports the diagnostic.
    pub fn message(&self) -> (line: String)
        ensures
            line@ == self@.message(),
    {
        let mut line = self.key.kind.clone();
        line.append(" ");
        line.append(self.key.name.as_str());
        line.append(" in ");
        line.append(self.key.namespace.as_str());
        line.append(": ");
        line.append(self.field.annotation_key().as_str());
        line.append(" failed to parse as rfc3339: ");
        line.append(self.raw.as_str());
        line
    }
}

/// What one annotation value yields, given what the parser made of it.
pub open spec fn reading_of(
    key: ResourceKeyView,
    field: AnnotationField,
    raw: Seq<char>,
    parsed: Option<i64>,
) -> Result<GaugeSampleView, DiagnosticView> {
    match parsed {
        Some(value_millis) => Ok(GaugeSampleView { key, field, value_millis }),
        None => Err(DiagnosticView { key, field, raw }),
    }
}

/// What one field of an object yields: nothing where the annotation is absent,
/// else the reading of its value.
pub open spec fn field_reading(
    annotations: Map<Seq<char>, Seq<char>>,
    key: ResourceKeyView,
    field: AnnotationField,
) -> Option<Result<GaugeSampleView, DiagnosticView>> {
    if annotations.contains_key(field.annotation()) {
        let raw = annotations[field.annotation()];
        Some(reading_of(key, field, raw, rfc3339_millis(raw)))
    } else {
        None
    }
}

/// The sample of a reading, if it has one.
pub open spec fn sample_of(reading: Option<Result<GaugeSampleView, DiagnosticView>>) -> Seq<
    GaugeSampleView,
> {
    match reading {
        Some(Ok(sample)) => seq![sample],
        _ => Seq::empty(),
    }
}

/// The diagnostic of a reading, if it has one.
pub open spec fn diagnostic_of(reading: Option<Result<GaugeSampleView, DiagnosticView>>) -> Seq<
    DiagnosticView,
> {
    match reading {
        Some(Err(diagnostic)) => seq![diagnostic],
        _ => Seq::empty(),
    }
}

/// What one applied object yields.
#[derive(Debug)]
pub struct Extraction {
    /// The samples to upsert: at most one for each field, rotation first.
    pub samples: Vec<GaugeSample>,
    /// The values that did not parse: at most one for each field, rotation first.
    pub diagnostics: Vec<Diagnostic>,
}

/// An extraction as plain values.
pub struct ExtractionView {
    pub samples: Seq<GaugeSampleView>,
    pub diagnostics: Seq<DiagnosticView>,
}

/// The diagnostics, each as plain values.
pub open spec fn diagnostic_views(diagnostics: Seq<Diagnostic>) -> Seq<DiagnosticView> {
    Seq::new(diagnostics.len(), |i: int| diagnostics[i]@)
}

impl View for Extraction {
    type V = ExtractionView;

    open spec fn view(&self) -> ExtractionView {
        ExtractionView {
            samples: sample_views(self.samples@),
            diagnostics: diagnostic_views(self.diagnostics@),
        }
    }
}

/// The label set of a namespaced object of the given kind.
pub open spec fn key_of(namespace: Seq<char>, name: Seq<char>, kind: Seq<char>) -> ResourceKeyView {
    ResourceKeyView { namespace, name, kind }
}

/// What an applied object of the given kind yields.
pub open spec fn extraction_of(object: ObservedObjectView, kind: Seq<char>) -> ExtractionView {
    match object.namespace {
        None => ExtractionView { samples: Seq::empty(), diagnostics: Seq::empty() },
        Some(namespace) => {
            let key = key_of(namespace, object.name, kind);
            let rotation = field_reading(object.annotations, key, AnnotationField::RotationTime);
            let expiry = field_reading(object.annotations, key, AnnotationField::ExpiryTime);
            ExtractionView {
                samples: sample_of(rotation) + sample_of(expiry),
                diagnostics: diagnostic_of(rotation) + diagnostic_of(expiry),
            }
        },
    }
}

/// The store after an object of the given kind has been applied to it.
pub open spec fn store_after_applied(
    store: Map<SeriesId, i64>,
    object: ObservedObjectView,
    kind: Seq<char>,
) -> Map<SeriesId, i64> {
    store_after(store, extraction_of(object, kind).samples)
}

/// Turns the parser's verdict on one annotation value into a sample or a
/// diagnostic.
pub fn read_value(
    key: &ResourceKey,
    field: AnnotationField,
    raw: &String,
    parsed: Option<i64>,
) -> (reading: Result<GaugeSample, Diagnostic>)
    ensures
        match reading_of(key@, field, raw@, parsed) {
            Ok(sample) => reading matches Ok(made) && made@ == sample,
            Err(diagnostic) => reading matches Err(made) && made@ == diagnostic,
        },
{
    match parsed {
        Some(value_millis) => Ok(GaugeSample { key: key.clone(), field, value_millis }),
        None => Err(Diagnostic { key: key.clone(), field, raw: raw.clone() }),
    }
}

/// Reads one field out of the annotations of the resource `key`: looks the
/// annotation up and, where it is present, parses its value.
pub fn read_field(
    annotations: &Annotations,
    key: &ResourceKey,
    field: AnnotationField,
) -> (reading: Option<Result<GaugeSample, Diagnostic>>)
    ensures
        match field_reading(annotations@, key@, field) {
            None => reading is None,
            Some(Ok(sample)) => reading matches Some(Ok(made)) && made@ == sample,
            Some(Err(diagnostic)) => reading matches Some(Err(made)) && made@ == diagnostic,
        },
{
    match annotations.get(&field.annotation_key()) {
        None => None,
        Some(raw) => {
            let parsed = parse_rfc3339_millis(raw.as_str());
            Some(read_value(key, field, raw, parsed))
        },
    }
}

/// Extracts the samples and diagnostics of one applied object of the given kind.
pub fn extract(object: &ObservedObject, kind: &str) -> (extraction: Extraction)
    ensures
        extraction@ == extraction_of(object@, kind@),
{
    let mut samples: Vec<GaugeSample> = Vec::new();
    let mut diagnostics: Vec<Diagnostic> = Vec::new();
    match &object.namespace {
        None => {},
        Some(namespace) => {
            let key = ResourceKey {
                namespace: namespace.clone(),
                name: object.name.clone(),
                kind: kind.to_string(),
            };
            match read_field(&object.annotations, &key, AnnotationField::RotationTime) {
                Some(Ok(sample)) => samples.push(sample),
                Some(Err(diagnostic)) => diagnostics.push(diagnostic),
                None => {},
            }
            match read_field(&object.annotations, &key, AnnotationField::ExpiryTime) {
                Some(Ok(sample)) => samples.push(sample),
                Some(Err(diagnostic)) => diagnostics.push(diagnostic),
                None => {},
            }
        },
    }
    let extraction = Extraction { samples, diagnostics };
    assert(extraction@.samples =~= extraction_of(object@, kind@).samples);
    assert(extraction@.diagnostics =~= extraction_of(object@, kind@).diagnostics);
    extraction
}

/// Applies one object of the given kind to the store: upserts the samples that
/// it yields and hands back the values that did not parse.
pub fn handle_applied(
    store: &mut MetricStore,
    object: &ObservedObject,
    kind: &str,
) -> (diagnostics: Vec<Diagnostic>)
    ensures
        final(store)@ == store_after_applied(old(store)@, object@, kind@),
        diagnostic_views(diagnostics@) == extraction_of(object@, kind@).diagnostics,
{
    let extraction = extract(object, kind);
    store.upsert_all(extraction.samples);
    extraction.diagnostics
}

/// Applies one object that the watch of `kind` has delivered: the object is
/// extracted under the display name of the kind.
pub fn handle_watched(
    store: &mut MetricStore,
    object: &ObservedObject,
    kind: Kind,
) -> (diagnostics: Vec<Diagnostic>)
    ensures
        final(store)@ == store_after_applied(old(store)@, object@, kind.label()),
        diagnostic_views(diagnostics@) == extraction_of(object@, kind.label()).diagnostics,
{
    handle_applied(store, object, kind.name())
}

/// One applied object together with the kind under which it was watched.
pub struct AppliedEvent {
    pub object: ObservedObjectView,
    pub kind: Seq<char>,
}

/// The store after a run of applied objects, taken in one after the other.
pub open spec fn store_after_events(store: Map<SeriesId, i64>, events: Seq<AppliedEvent>) -> Map<
    SeriesId,
    i64,
>
    decreases events.len(),
{
    if events.len() == 0 {
        store
    } else {
        store_after_applied(
            store_after_events(store, events.drop_last()),
            events.last().object,
            events.last().kind,
        )
    }
}

/// The diagnostics of a run of applied objects, in the order of the run.
pub open spec fn diagnostics_of_events(events: Seq<AppliedEvent>) -> Seq<DiagnosticView>
    decreases events.len(),
{
    if events.len() == 0 {
        Seq::empty()
    } else {
        diagnostics_of_events(events.drop_last()) + extraction_of(
            events.last().object,
            events.last().kind,
        ).diagnostics
    }
}

/// The objects that the watch of one kind has delivered, as a run of events.
pub open spec fn events_of(objects: Seq<ObservedObject>, kind: Seq<char>) -> Seq<AppliedEvent> {
    Seq::new(objects.len(), |i: int| AppliedEvent { object: objects[i]@, kind })
}

/// Applies the objects that the watch of one kind has delivered, in the order
/// of their delivery, and hands back the values that did not parse.
pub fn handle_events(
    store: &mut MetricStore,
    objects: &Vec<ObservedObject>,
    kind: &str,
) -> (diagnostics: Vec<Diagnostic>)
    ensures
        final(store)@ == store_after_events(old(store)@, events_of(objects@, kind@)),
        diagnostic_views(diagnostics@) == diagnostics_of_events(events_of(objects@, kind@)),
{
    let ghost all = events_of(objects@, kind@);
    let mut diagnostics: Vec<Diagnostic> = Vec::new();
    let mut at: usize = 0;
    while at < objects.len()
        invariant
            at <= objects@.len(),
            all == events_of(objects@, kind@),
            store@ == store_after_events(old(store)@, all.take(at as int)),
            diagnostic_views(diagnostics@) == diagnostics_of_events(all.take(at as int)),
        decreases objects@.len() - at,
    {
        let mut found = handle_applied(store, &objects[at], kind);
        proof {
            assert(all.take(at + 1).drop_last() =~= all.take(at as int));
            assert(all.take(at + 1).last() == all[at as int]);
        }
        let ghost before = diagnostics@;
        let ghost added = found@;
        diagnostics.append(&mut found);
        assert(diagnostic_views(diagnostics@) =~= diagnostic_views(before) + diagnostic_views(
            added,
        ));
        at += 1;
    }
    assert(all.take(at as int) =~= all);
    diagnostics
}

} // verus!
