use cit::locator::{build_cit_file_path, file_name, record_path, storage_root};

#[test]
fn file_name_is_what_follows_the_last_separator() {
    assert_eq!(file_name("/home/user/notes.txt"), "notes.txt");
    assert_eq!(file_name("/notes.txt"), "notes.txt");
    assert_eq!(file_name("/a/b/c"), "c");
    assert_eq!(file_name("/home/us\u{e9}r/r\u{e9}sum\u{e9}.txt"), "r\u{e9}sum\u{e9}.txt");
}

#[test]
fn file_name_of_a_path_without_separator_is_the_path() {
    assert_eq!(file_name("notes.txt"), "notes.txt");
    assert_eq!(file_name(""), "");
}

#[test]
fn file_name_is_empty_behind_a_trailing_separator() {
    assert_eq!(file_name("/"), "");
    assert_eq!(file_name("/a/b/"), "");
}

#[test]
fn storage_root_lies_below_the_home_directory() {
    assert_eq!(storage_root("/home/user"), "/home/user/.cit/files");
    assert_eq!(storage_root(""), "/.cit/files");
}

#[test]
fn record_path_joins_root_digest_and_extension() {
    assert_eq!(record_path("/home/user/.cit/files", "abc123"), "/home/user/.cit/files/abc123.cit");
    assert_eq!(record_path("", ""), "/.cit");
}

#[test]
fn build_cit_file_path_names_the_record_by_the_digest_of_the_path() {
    assert_eq!(
        build_cit_file_path("/home/user/.cit/files", "/tmp/work/a.txt"),
        "/home/user/.cit/files/7dd93b8d1a201f1786889e8b431481953bac3fd9e8e1057e0f48178591655869.cit"
    );
}

#[test]
fn build_cit_file_path_tells_files_of_one_name_apart() {
    let first = build_cit_file_path("/root", "/a/notes.txt");
    let second = build_cit_file_path("/root", "/b/notes.txt");
    assert_ne!(first, second);
    assert_eq!(build_cit_file_path("/root", "/a/notes.txt"), first);
}
