use cit::action::Action;
use cit::cit_file::CitFile;
use cit::record::{Snapshot, SnapshotRecord};
use serde_yaml::{Mapping, Value};

fn key(name: &str) -> Value {
    Value::String(name.to_string())
}

fn to_yaml(record: &SnapshotRecord) -> String {
    let mut versions = Mapping::new();
    for entry in record.entries() {
        let mut version = Mapping::new();
        version.insert(key("hash"), Value::String(entry.1.id.clone()));
        version.insert(key("content"), Value::String(entry.1.content.clone()));
        versions.insert(Value::String(entry.0.clone()), Value::Mapping(version));
    }
    let mut document = Mapping::new();
    document.insert(key("num_versions"), Value::Number((record.version_count() as u64).into()));
    document.insert(
        key("current_version"),
        match record.current_version() {
            Some(name) => Value::String(name.to_string()),
            None => Value::Null,
        },
    );
    document.insert(key("versions"), Value::Mapping(versions));
    serde_yaml::to_string(&Value::Mapping(document)).unwrap()
}

fn from_yaml(text: &str) -> Option<SnapshotRecord> {
    let document: Value = serde_yaml::from_str(text).ok()?;
    let count = document.get("num_versions")?.as_u64()? as usize;
    let current = match document.get("current_version")? {
        Value::Null => None,
        name => Some(name.as_str()?.to_string()),
    };
    let mut entries = Vec::new();
    for (name, version) in document.get("versions")?.as_mapping()? {
        entries.push((
            name.as_str()?.to_string(),
            Snapshot {
                id: version.get("hash")?.as_str()?.to_string(),
                content: version.get("content")?.as_str()?.to_string(),
            },
        ));
    }
    SnapshotRecord::from_parts(count, current, entries)
}

fn sorted_parts(record: &SnapshotRecord) -> (usize, Option<String>, Vec<(String, String, String)>) {
    let mut entries: Vec<(String, String, String)> = record
        .entries()
        .iter()
        .map(|entry| (entry.0.clone(), entry.1.id.clone(), entry.1.content.clone()))
        .collect();
    entries.sort();
    (record.version_count(), record.current_version().map(|name| name.to_string()), entries)
}

#[test]
fn record_written_and_read_back_is_the_same() {
    let mut store = CitFile::new("/home/user/.cit/files", "/home/user/notes.txt");
    let persisted = Ok(vec![Action::PersistRecord]);
    assert_eq!(store.init("hello\n".to_string()), persisted);
    assert_eq!(store.add_version("v2", "world: [1, 2]\n  - indented\n".to_string()), persisted);
    assert_eq!(store.add_version("a name with spaces", "".to_string()), persisted);
    assert_eq!(store.add_version("v2", "# not a comment\n\"quoted\"\n".to_string()), persisted);
    assert_eq!(
        store.switch("baseline", false, ""),
        Ok(vec![Action::PersistRecord, Action::WriteFile("hello\n".to_string())])
    );
    let record = store.record().unwrap();
    let text = to_yaml(record);
    let back = from_yaml(&text).unwrap();
    assert_eq!(sorted_parts(&back), sorted_parts(record));
    assert_eq!(back.version_count(), 4);
    assert_eq!(back.len(), 3);
    assert_eq!(back.current_version(), Some("baseline"));
    assert_eq!(to_yaml(&back), text);
}

#[test]
fn empty_record_written_and_read_back_is_empty() {
    let record = SnapshotRecord::empty();
    let back = from_yaml(&to_yaml(&record)).unwrap();
    assert_eq!(sorted_parts(&back), (0, None, vec![]));
}

#[test]
fn text_that_is_no_record_is_read_as_none() {
    assert!(from_yaml("").is_none());
    assert!(from_yaml("just a line of text").is_none());
    assert!(from_yaml("num_versions: 1\ncurrent_version: v2\nversions: {}\n").is_none());
    assert!(from_yaml("num_versions: 0\ncurrent_version: null\nversions: {}\n").is_some());
}
