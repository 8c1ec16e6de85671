use cit::error::StoreError;
use cit::record::{Snapshot, SnapshotRecord};

fn snapshot(id: &str, content: &str) -> Snapshot {
    Snapshot { id: id.to_string(), content: content.to_string() }
}

fn entry(name: &str, id: &str, content: &str) -> (String, Snapshot) {
    (name.to_string(), snapshot(id, content))
}

fn parts(record: &SnapshotRecord) -> (usize, Option<String>, Vec<(String, String, String)>) {
    (
        record.version_count(),
        record.current_version().map(|name| name.to_string()),
        record
            .entries()
            .iter()
            .map(|entry| (entry.0.clone(), entry.1.id.clone(), entry.1.content.clone()))
            .collect(),
    )
}

fn sample() -> SnapshotRecord {
    let mut record = SnapshotRecord::empty();
    record.add_version("baseline", "id-0".to_string(), "hello".to_string());
    record.add_version("v2", "id-2".to_string(), "world".to_string());
    record
}

#[test]
fn empty_record_has_nothing() {
    let record = SnapshotRecord::empty();
    assert_eq!(record.version_count(), 0);
    assert_eq!(record.current_version(), None);
    assert_eq!(record.len(), 0);
    assert!(record.entries().is_empty());
    assert!(!record.contains("baseline"));
    assert!(record.get("baseline").is_none());
    assert!(record.list().is_empty());
}

#[test]
fn add_version_stores_the_given_identifier_and_text() {
    let record = sample();
    assert_eq!(
        parts(&record),
        (
            2,
            Some("v2".to_string()),
            vec![
                ("baseline".to_string(), "id-0".to_string(), "hello".to_string()),
                ("v2".to_string(), "id-2".to_string(), "world".to_string()),
            ]
        )
    );
    let found = record.get("v2").unwrap();
    assert_eq!(found.id, "id-2");
    assert_eq!(found.content, "world");
}

#[test]
fn add_version_again_replaces_identifier_and_text_in_place() {
    let mut record = sample();
    record.add_version("baseline", "id-other".to_string(), "again".to_string());
    assert_eq!(
        parts(&record),
        (
            3,
            Some("baseline".to_string()),
            vec![
                ("baseline".to_string(), "id-other".to_string(), "again".to_string()),
                ("v2".to_string(), "id-2".to_string(), "world".to_string()),
            ]
        )
    );
    assert_eq!(record.len(), 2);
}

#[test]
fn record_commit_writes_to_the_current_version_only() {
    let mut record = sample();
    assert_eq!(record.commit("edited".to_string()), Ok(()));
    assert_eq!(
        parts(&record),
        (
            2,
            Some("v2".to_string()),
            vec![
                ("baseline".to_string(), "id-0".to_string(), "hello".to_string()),
                ("v2".to_string(), "id-2".to_string(), "edited".to_string()),
            ]
        )
    );
}

#[test]
fn record_commit_without_current_version_is_declined() {
    let mut record = SnapshotRecord::empty();
    assert_eq!(record.commit("text".to_string()), Err(StoreError::NoCurrentVersion));
    assert_eq!(parts(&record), (0, None, vec![]));

    let mut loaded =
        SnapshotRecord::from_parts(1, None, vec![entry("baseline", "id-0", "hello")]).unwrap();
    assert_eq!(loaded.commit("text".to_string()), Err(StoreError::NoCurrentVersion));
    assert_eq!(
        parts(&loaded),
        (1, None, vec![("baseline".to_string(), "id-0".to_string(), "hello".to_string())])
    );
}

#[test]
fn record_switch_moves_the_current_version_only() {
    let mut record = sample();
    assert_eq!(record.switch("baseline"), Ok("hello".to_string()));
    assert_eq!(record.current_version(), Some("baseline"));
    assert_eq!(record.version_count(), 2);
    assert_eq!(record.switch("nowhere"), Err(StoreError::VersionNotFound));
    assert_eq!(record.current_version(), Some("baseline"));
}

#[test]
fn record_remove_takes_out_one_version() {
    let mut record = sample();
    record.add_version("v3", "id-3".to_string(), "third".to_string());
    assert_eq!(record.remove("v2"), Ok(()));
    assert_eq!(
        parts(&record),
        (
            2,
            Some("v3".to_string()),
            vec![
                ("baseline".to_string(), "id-0".to_string(), "hello".to_string()),
                ("v3".to_string(), "id-3".to_string(), "third".to_string()),
            ]
        )
    );
    assert_eq!(record.remove("v3"), Err(StoreError::CurrentVersion));
    assert_eq!(record.remove("v2"), Err(StoreError::VersionNotFound));
    assert_eq!(record.remove("baseline"), Err(StoreError::BaselineProtected));
    assert_eq!(record.version_count(), 2);
}

#[test]
fn record_remove_without_current_version_goes_ahead() {
    let mut record = SnapshotRecord::from_parts(
        2,
        None,
        vec![entry("baseline", "id-0", "hello"), entry("v2", "id-2", "world")],
    )
    .unwrap();
    assert_eq!(record.remove("v2"), Ok(()));
    assert_eq!(
        parts(&record),
        (1, None, vec![("baseline".to_string(), "id-0".to_string(), "hello".to_string())])
    );
}

#[test]
fn record_list_follows_the_order_of_first_addition() {
    let mut record = sample();
    record.add_version("v3", "id-3".to_string(), "third".to_string());
    record.add_version("baseline", "id-0".to_string(), "hello again".to_string());
    let lines: Vec<(String, String, bool)> = record
        .list()
        .iter()
        .map(|line| (line.name.clone(), line.id.clone(), line.current))
        .collect();
    assert_eq!(
        lines,
        vec![
            ("baseline".to_string(), "id-0".to_string(), true),
            ("v2".to_string(), "id-2".to_string(), false),
            ("v3".to_string(), "id-3".to_string(), false),
        ]
    );
}

#[test]
fn parts_handed_out_make_up_the_same_record() {
    let mut record = sample();
    record.add_version("v2", "id-2".to_string(), "world, again".to_string());
    let copy = SnapshotRecord::from_parts(
        record.version_count(),
        record.current_version().map(|name| name.to_string()),
        record.entries().clone(),
    )
    .unwrap();
    assert_eq!(parts(&copy), parts(&record));
    assert_eq!(copy.version_count(), 3);
    assert_eq!(copy.len(), 2);
}

#[test]
fn from_parts_takes_the_empty_record() {
    let record = SnapshotRecord::from_parts(0, None, vec![]).unwrap();
    assert_eq!(parts(&record), (0, None, vec![]));
}

#[test]
fn from_parts_rejects_a_name_that_occurs_twice() {
    let entries = vec![
        entry("baseline", "id-0", "hello"),
        entry("v2", "id-2", "world"),
        entry("baseline", "id-0", "other"),
    ];
    assert!(SnapshotRecord::from_parts(3, Some("v2".to_string()), entries).is_none());
}

#[test]
fn from_parts_rejects_a_counter_below_the_number_of_versions() {
    let entries = vec![entry("baseline", "id-0", "hello"), entry("v2", "id-2", "world")];
    assert!(SnapshotRecord::from_parts(1, Some("v2".to_string()), entries).is_none());
}

#[test]
fn from_parts_rejects_a_current_version_that_is_not_stored() {
    let entries = vec![entry("baseline", "id-0", "hello")];
    assert!(SnapshotRecord::from_parts(1, Some("v2".to_string()), entries).is_none());
    assert!(SnapshotRecord::from_parts(0, Some("baseline".to_string()), vec![]).is_none());
}

#[test]
fn from_parts_takes_a_counter_above_the_number_of_versions() {
    let entries = vec![entry("baseline", "id-0", "hello")];
    let record = SnapshotRecord::from_parts(5, Some("baseline".to_string()), entries).unwrap();
    assert_eq!(record.version_count(), 5);
    assert_eq!(record.len(), 1);
}

#[test]
fn snapshot_clone_copies_both_fields() {
    let first = snapshot("id-0", "hello");
    let copy = first.clone();
    assert_eq!(copy.id, "id-0");
    assert_eq!(copy.content, "hello");
}

#[test]
fn parts_in_another_order_make_up_the_same_versions() {
    let record = sample();
    let mut entries = record.entries().clone();
    entries.reverse();
    let copy = SnapshotRecord::from_parts(
        record.version_count(),
        record.current_version().map(|name| name.to_string()),
        entries,
    )
    .unwrap();
    assert_eq!(copy.version_count(), record.version_count());
    assert_eq!(copy.current_version(), record.current_version());
    assert_eq!(copy.len(), record.len());
    for (name, snapshot) in record.entries() {
        let found = copy.get(name).unwrap();
        assert_eq!(found.id, snapshot.id);
        assert_eq!(found.content, snapshot.content);
    }
}
