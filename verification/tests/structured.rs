use archetype::diff::Change;
use archetype::diff::ChangeKind;
use archetype::engine::SnapshotOutcome;
use archetype::engine::check_snapshot;
use archetype::render::render_diff;

// Canonicalize a structured value the way the JSON front end does, and
// run the engine on the resulting text.
fn canonical(value: &serde_json::Value) -> String {
    serde_json::to_string_pretty(value).expect("should serialize")
}

fn search_by_ids() -> serde_json::Value {
    let mut object = serde_json::Map::new();
    object.insert(
        String::from("type"),
        serde_json::Value::String(String::from("by-ids")),
    );
    object.insert(
        String::from("ids"),
        serde_json::Value::Array(vec![
            serde_json::Value::from(4),
            serde_json::Value::from(7),
            serde_json::Value::from(9),
        ]),
    );
    serde_json::Value::Object(object)
}

#[test]
fn structured_round_trip_passes_on_second_call() {
    let value = search_by_ids();
    let first = check_snapshot("search_by_ids", &None, &canonical(&value), false);
    let stored = match first {
        SnapshotOutcome::Write(payload) => payload,
        other => panic!("expected a capture, got {:?}", other),
    };
    let second = check_snapshot("search_by_ids", &Some(stored), &canonical(&value), false);
    assert_eq!(second, SnapshotOutcome::Pass);
}

#[test]
fn structured_round_trip_after_match() {
    let value = search_by_ids();
    let stored = canonical(&value);
    let first = check_snapshot("search_by_ids", &Some(stored.clone()), &canonical(&value), false);
    assert_eq!(first, SnapshotOutcome::Pass);
    let second = check_snapshot("search_by_ids", &Some(stored), &canonical(&value), false);
    assert_eq!(second, SnapshotOutcome::Pass);
}

#[test]
fn changed_structured_value_is_a_mismatch() {
    let stored = canonical(&search_by_ids());
    let mut object = serde_json::Map::new();
    object.insert(
        String::from("type"),
        serde_json::Value::String(String::from("by-term")),
    );
    object.insert(
        String::from("term"),
        serde_json::Value::String(String::from("an example search term")),
    );
    let changed = serde_json::Value::Object(object);
    match check_snapshot("search_by_ids", &Some(stored), &canonical(&changed), false) {
        SnapshotOutcome::Mismatch(rendered) => {
            assert!(rendered.contains("-\u{2503}") && rendered.contains("+\u{2503}"));
        }
        other => panic!("expected a mismatch, got {:?}", other),
    }
}

#[test]
fn render_diff_formats_each_record() {
    let changes = vec![
        Change {
            kind: ChangeKind::Equal,
            text: String::from("shared\n"),
            terminated: true,
        },
        Change {
            kind: ChangeKind::Delete,
            text: String::from("old\n"),
            terminated: true,
        },
        Change {
            kind: ChangeKind::Insert,
            text: String::from("new"),
            terminated: false,
        },
    ];
    let rendered = render_diff("sample", &changes);
    assert_eq!(
        rendered,
        " \u{250f}\u{2501}\u{2501}\u{2501}\u{2501}\u{2501}\u{2501}\u{2501}\u{2501} sample \u{2501}\u{2501}\u{2501}\u{2501}\u{2501}\n \
         \u{2503}shared\n\
         -\u{2503}old\n\
         +\u{2503}new\n \
         \u{2517}\u{2501}\u{2501}\u{2501}\u{2501}\u{2501}\u{2501}\u{2501}\u{2501} sample \u{2501}\u{2501}\u{2501}\u{2501}\u{2501}\n"
    );
}

#[test]
fn render_diff_of_no_records_is_only_banners() {
    let rendered = render_diff("empty", &Vec::new());
    assert_eq!(
        rendered,
        " \u{250f}\u{2501}\u{2501}\u{2501}\u{2501}\u{2501}\u{2501}\u{2501}\u{2501} empty \u{2501}\u{2501}\u{2501}\u{2501}\u{2501}\n \
         \u{2517}\u{2501}\u{2501}\u{2501}\u{2501}\u{2501}\u{2501}\u{2501}\u{2501} empty \u{2501}\u{2501}\u{2501}\u{2501}\u{2501}\n"
    );
}
