use expiry_hawk::annotations::Annotations;
use expiry_hawk::extractor::{
    extract, handle_applied, handle_events, handle_watched, read_field, read_value, Diagnostic,
};
use expiry_hawk::fields::{get_expiry_annotation, get_rotation_annotation, AnnotationField};
use expiry_hawk::kinds::Kind;
use expiry_hawk::object::{ObservedObject, ResourceKey};
use expiry_hawk::store::{GaugeSample, MetricStore};

const ROTATION: AnnotationField = AnnotationField::RotationTime;
const EXPIRY: AnnotationField = AnnotationField::ExpiryTime;

const NEW_YEAR: &str = "2024-01-01T00:00:00Z";
const NEW_YEAR_MILLIS: i64 = 1704067200000;
const FEBRUARY: &str = "2024-02-01T00:00:00Z";
const FEBRUARY_MILLIS: i64 = 1706745600000;
const MARCH: &str = "2024-03-01T12:30:00Z";
const MARCH_MILLIS: i64 = 1709296200000;

fn key(namespace: &str, name: &str, kind: &str) -> ResourceKey {
    ResourceKey {
        namespace: namespace.to_string(),
        name: name.to_string(),
        kind: kind.to_string(),
    }
}

fn object(
    namespace: Option<&str>,
    name: &str,
    rotation: Option<&str>,
    expiry: Option<&str>,
) -> ObservedObject {
    let mut annotations = Annotations::new();
    if let Some(value) = rotation {
        annotations.insert(get_rotation_annotation(), value.to_string());
    }
    if let Some(value) = expiry {
        annotations.insert(get_expiry_annotation(), value.to_string());
    }
    ObservedObject {
        namespace: namespace.map(|text| text.to_string()),
        name: name.to_string(),
        annotations,
    }
}

fn api(rotation: Option<&str>, expiry: Option<&str>) -> ObservedObject {
    object(Some("payments"), "api", rotation, expiry)
}

fn diagnostic(key: ResourceKey, field: AnnotationField, raw: &str) -> Diagnostic {
    Diagnostic { key, field, raw: raw.to_string() }
}

#[test]
fn rotation_annotation_of_the_payments_api_sets_its_gauge() {
    let mut store = MetricStore::new();
    let diagnostics = handle_applied(&mut store, &api(Some(NEW_YEAR), None), "Deployment");
    assert!(diagnostics.is_empty());
    let series = key("payments", "api", "Deployment");
    assert_eq!(store.get(ROTATION, &series), Some(1704067200000));
    assert_eq!(store.get(EXPIRY, &series), None);
}

#[test]
fn both_valid_annotations_set_both_gauges() {
    let mut store = MetricStore::new();
    let diagnostics = handle_applied(&mut store, &api(Some(NEW_YEAR), Some(MARCH)), "Deployment");
    assert!(diagnostics.is_empty());
    let series = key("payments", "api", "Deployment");
    assert_eq!(store.get(ROTATION, &series), Some(NEW_YEAR_MILLIS));
    assert_eq!(store.get(EXPIRY, &series), Some(MARCH_MILLIS));
    assert_eq!(store.series(ROTATION).len(), 1);
    assert_eq!(store.series(EXPIRY).len(), 1);
}

#[test]
fn gauges_carry_the_labels_of_the_object() {
    let mut store = MetricStore::new();
    handle_applied(&mut store, &api(Some(NEW_YEAR), None), "Deployment");
    let listing = store.series(ROTATION);
    assert_eq!(listing.len(), 1);
    assert_eq!(listing[0].key.namespace, "payments");
    assert_eq!(listing[0].key.name, "api");
    assert_eq!(listing[0].key.kind, "Deployment");
    assert_eq!(listing[0].field, ROTATION);
    assert_eq!(listing[0].value_millis, NEW_YEAR_MILLIS);
}

#[test]
fn changed_rotation_annotation_leaves_the_expiry_gauge() {
    let mut store = MetricStore::new();
    handle_applied(&mut store, &api(Some(NEW_YEAR), Some(MARCH)), "Deployment");
    handle_applied(&mut store, &api(Some(FEBRUARY), Some(MARCH)), "Deployment");
    let series = key("payments", "api", "Deployment");
    assert_eq!(store.get(ROTATION, &series), Some(FEBRUARY_MILLIS));
    assert_eq!(store.get(EXPIRY, &series), Some(MARCH_MILLIS));
    assert_eq!(store.series(ROTATION).len(), 1);
    assert_eq!(store.series(EXPIRY).len(), 1);
}

#[test]
fn removed_rotation_annotation_leaves_both_gauges() {
    let mut store = MetricStore::new();
    handle_applied(&mut store, &api(Some(NEW_YEAR), Some(MARCH)), "Deployment");
    let diagnostics = handle_applied(&mut store, &api(None, Some(MARCH)), "Deployment");
    assert!(diagnostics.is_empty());
    let series = key("payments", "api", "Deployment");
    assert_eq!(store.get(ROTATION, &series), Some(NEW_YEAR_MILLIS));
    assert_eq!(store.get(EXPIRY, &series), Some(MARCH_MILLIS));
}

#[test]
fn unparsable_rotation_keeps_the_prior_value_and_is_reported_once() {
    let mut store = MetricStore::new();
    assert!(handle_applied(&mut store, &api(Some(NEW_YEAR), None), "Deployment").is_empty());
    let diagnostics = handle_applied(&mut store, &api(Some("not-a-date"), None), "Deployment");
    let series = key("payments", "api", "Deployment");
    assert_eq!(store.get(ROTATION, &series), Some(NEW_YEAR_MILLIS));
    assert_eq!(diagnostics, vec![diagnostic(series, ROTATION, "not-a-date")]);
}

#[test]
fn unparsable_rotation_without_a_prior_value_sets_nothing() {
    let mut store = MetricStore::new();
    let diagnostics = handle_applied(&mut store, &api(Some("not-a-date"), None), "Deployment");
    assert_eq!(diagnostics.len(), 1);
    assert_eq!(store.get(ROTATION, &key("payments", "api", "Deployment")), None);
    assert!(store.series(ROTATION).is_empty());
}

#[test]
fn one_field_fails_while_the_other_is_set() {
    let mut store = MetricStore::new();
    let diagnostics = handle_applied(&mut store, &api(Some("soon"), Some(MARCH)), "StatefulSet");
    let series = key("payments", "api", "StatefulSet");
    assert_eq!(store.get(ROTATION, &series), None);
    assert_eq!(store.get(EXPIRY, &series), Some(MARCH_MILLIS));
    assert_eq!(diagnostics, vec![diagnostic(series, ROTATION, "soon")]);
}

#[test]
fn both_fields_unparsable_give_two_diagnostics_rotation_first() {
    let mut store = MetricStore::new();
    let diagnostics = handle_applied(&mut store, &api(Some("soon"), Some("later")), "DaemonSet");
    let series = key("payments", "api", "DaemonSet");
    assert_eq!(
        diagnostics,
        vec![diagnostic(series.clone(), ROTATION, "soon"), diagnostic(series, EXPIRY, "later")]
    );
    assert!(store.series(ROTATION).is_empty());
    assert!(store.series(EXPIRY).is_empty());
}

#[test]
fn object_without_a_namespace_yields_nothing() {
    let mut store = MetricStore::new();
    let applied = object(None, "node-agent", Some(NEW_YEAR), Some(MARCH));
    let diagnostics = handle_applied(&mut store, &applied, "DaemonSet");
    assert!(diagnostics.is_empty());
    assert!(store.series(ROTATION).is_empty());
    assert!(store.series(EXPIRY).is_empty());
}

#[test]
fn object_without_a_namespace_is_not_even_diagnosed() {
    let applied = object(None, "node-agent", Some("not-a-date"), Some("neither"));
    let extraction = extract(&applied, "DaemonSet");
    assert!(extraction.samples.is_empty());
    assert!(extraction.diagnostics.is_empty());
}

#[test]
fn object_without_annotations_is_passed_over() {
    let mut store = MetricStore::new();
    let diagnostics = handle_applied(&mut store, &api(None, None), "Deployment");
    assert!(diagnostics.is_empty());
    assert!(store.series(ROTATION).is_empty());
    assert!(store.series(EXPIRY).is_empty());
}

#[test]
fn other_annotations_are_not_read() {
    let mut annotations = Annotations::new();
    annotations.insert("spykerman.co.uk/secret-rotation".to_string(), NEW_YEAR.to_string());
    annotations.insert("secret-expiry-time".to_string(), NEW_YEAR.to_string());
    let applied = ObservedObject {
        namespace: Some("payments".to_string()),
        name: "api".to_string(),
        annotations,
    };
    let extraction = extract(&applied, "Deployment");
    assert!(extraction.samples.is_empty());
    assert!(extraction.diagnostics.is_empty());
}

#[test]
fn two_kinds_in_either_order_leave_both_keys() {
    let deployment = api(Some(NEW_YEAR), None);
    let stateful_set = api(Some(FEBRUARY), None);

    let mut one = MetricStore::new();
    handle_applied(&mut one, &deployment, "Deployment");
    handle_applied(&mut one, &stateful_set, "StatefulSet");

    let mut other = MetricStore::new();
    handle_applied(&mut other, &stateful_set, "StatefulSet");
    handle_applied(&mut other, &deployment, "Deployment");

    for store in [&one, &other] {
        let deployed = key("payments", "api", "Deployment");
        let stateful = key("payments", "api", "StatefulSet");
        assert_eq!(store.get(ROTATION, &deployed), Some(NEW_YEAR_MILLIS));
        assert_eq!(store.get(ROTATION, &stateful), Some(FEBRUARY_MILLIS));
        assert_eq!(store.series(ROTATION).len(), 2);
    }
}

#[test]
fn label_sets_that_read_alike_when_joined_are_two_series() {
    let mut store = MetricStore::new();
    handle_applied(&mut store, &object(Some("a"), "bc", Some(NEW_YEAR), None), "Deployment");
    handle_applied(&mut store, &object(Some("ab"), "c", Some(FEBRUARY), None), "Deployment");
    assert_eq!(store.get(ROTATION, &key("a", "bc", "Deployment")), Some(NEW_YEAR_MILLIS));
    assert_eq!(store.get(ROTATION, &key("ab", "c", "Deployment")), Some(FEBRUARY_MILLIS));
    assert_eq!(store.series(ROTATION).len(), 2);
}

#[test]
fn extract_lists_rotation_before_expiry() {
    let extraction = extract(&api(Some(NEW_YEAR), Some(MARCH)), "Deployment");
    let series = key("payments", "api", "Deployment");
    assert_eq!(
        extraction.samples,
        vec![
            GaugeSample { key: series.clone(), field: ROTATION, value_millis: NEW_YEAR_MILLIS },
            GaugeSample { key: series, field: EXPIRY, value_millis: MARCH_MILLIS },
        ]
    );
    assert!(extraction.diagnostics.is_empty());
}

#[test]
fn extract_does_not_touch_any_store() {
    let store = MetricStore::new();
    let extraction = extract(&api(Some(NEW_YEAR), None), "Deployment");
    assert_eq!(extraction.samples.len(), 1);
    assert!(store.series(ROTATION).is_empty());
}

#[test]
fn read_value_makes_a_sample_of_a_parsed_value() {
    let series = key("payments", "api", "Deployment");
    let reading = read_value(&series, EXPIRY, &"whatever".to_string(), Some(42));
    assert_eq!(reading, Ok(GaugeSample { key: series, field: EXPIRY, value_millis: 42 }));
}

#[test]
fn read_value_makes_a_diagnostic_of_an_unparsed_value() {
    let series = key("payments", "api", "Deployment");
    let reading = read_value(&series, EXPIRY, &"whatever".to_string(), None);
    assert_eq!(reading, Err(diagnostic(series, EXPIRY, "whatever")));
}

#[test]
fn read_field_tells_absent_from_unparsable() {
    let series = key("payments", "api", "Deployment");
    let applied = api(Some("not-a-date"), None);
    assert_eq!(
        read_field(&applied.annotations, &series, ROTATION),
        Some(Err(diagnostic(series.clone(), ROTATION, "not-a-date")))
    );
    assert_eq!(read_field(&applied.annotations, &series, EXPIRY), None);
    let valid = api(Some(NEW_YEAR), None);
    assert_eq!(
        read_field(&valid.annotations, &series, ROTATION),
        Some(Ok(GaugeSample { key: series, field: ROTATION, value_millis: NEW_YEAR_MILLIS }))
    );
}

#[test]
fn diagnostic_message_names_kind_name_namespace_field_and_value() {
    let first = diagnostic(key("payments", "api", "Deployment"), ROTATION, "not-a-date");
    assert_eq!(
        first.message(),
        "Deployment api in payments: spykerman.co.uk/secret-rotation-time \
         failed to parse as rfc3339: not-a-date"
    );
    let second = diagnostic(key("ops", "db", "StatefulSet"), EXPIRY, "");
    assert_eq!(
        second.message(),
        "StatefulSet db in ops: spykerman.co.uk/secret-expiry-time failed to parse as rfc3339: "
    );
}

#[test]
fn run_of_events_leaves_the_latest_parsed_value_of_each_series() {
    let mut store = MetricStore::new();
    let run = vec![
        api(Some(NEW_YEAR), Some(MARCH)),
        object(Some("payments"), "web", Some(FEBRUARY), None),
        api(Some("not-a-date"), Some("2024-03-02T12:30:00Z")),
        object(None, "api", Some("1970-01-01T00:00:00Z"), Some("1970-01-01T00:00:00Z")),
        api(None, None),
    ];
    let diagnostics = handle_events(&mut store, &run, "Deployment");
    let api_key = key("payments", "api", "Deployment");
    let web_key = key("payments", "web", "Deployment");
    assert_eq!(store.get(ROTATION, &api_key), Some(NEW_YEAR_MILLIS));
    assert_eq!(store.get(EXPIRY, &api_key), Some(1709382600000));
    assert_eq!(store.get(ROTATION, &web_key), Some(FEBRUARY_MILLIS));
    assert_eq!(store.get(EXPIRY, &web_key), None);
    assert_eq!(diagnostics, vec![diagnostic(api_key, ROTATION, "not-a-date")]);
}

#[test]
fn run_of_events_reports_in_the_order_of_delivery() {
    let mut store = MetricStore::new();
    let run = vec![api(None, Some("b")), api(Some("a"), Some("c")), api(Some("d"), None)];
    let diagnostics = handle_events(&mut store, &run, "Deployment");
    let series = key("payments", "api", "Deployment");
    assert_eq!(
        diagnostics,
        vec![
            diagnostic(series.clone(), EXPIRY, "b"),
            diagnostic(series.clone(), ROTATION, "a"),
            diagnostic(series.clone(), EXPIRY, "c"),
            diagnostic(series, ROTATION, "d"),
        ]
    );
}

#[test]
fn empty_run_changes_nothing() {
    let mut store = MetricStore::new();
    let series = key("payments", "api", "Deployment");
    store.upsert(GaugeSample { key: series.clone(), field: ROTATION, value_millis: 7 });
    let diagnostics = handle_events(&mut store, &Vec::new(), "Deployment");
    assert!(diagnostics.is_empty());
    assert_eq!(store.get(ROTATION, &series), Some(7));
    assert_eq!(store.series(ROTATION).len(), 1);
}

#[test]
fn watched_object_is_labelled_with_the_display_name_of_its_kind() {
    let mut store = MetricStore::new();
    handle_watched(&mut store, &api(Some(NEW_YEAR), None), Kind::Deployment);
    handle_watched(&mut store, &api(Some(FEBRUARY), None), Kind::StatefulSet);
    let diagnostics = handle_watched(&mut store, &api(Some("never"), Some(MARCH)), Kind::DaemonSet);
    assert_eq!(store.get(ROTATION, &key("payments", "api", "Deployment")), Some(NEW_YEAR_MILLIS));
    assert_eq!(store.get(ROTATION, &key("payments", "api", "StatefulSet")), Some(FEBRUARY_MILLIS));
    assert_eq!(store.get(ROTATION, &key("payments", "api", "DaemonSet")), None);
    assert_eq!(store.get(EXPIRY, &key("payments", "api", "DaemonSet")), Some(MARCH_MILLIS));
    let daemon_set = key("payments", "api", "DaemonSet");
    assert_eq!(diagnostics, vec![diagnostic(daemon_set, ROTATION, "never")]);
}
