use watchmove::listing::{has_partial_files, DirectoryEntry};

fn file(name: &str) -> DirectoryEntry {
    DirectoryEntry { name: name.to_string(), is_file: true }
}

fn directory(name: &str) -> DirectoryEntry {
    DirectoryEntry { name: name.to_string(), is_file: false }
}

#[test]
fn empty_listing_has_no_partial_files() {
    assert!(!has_partial_files(&vec![]));
}

#[test]
fn listing_of_finished_files_has_no_partial_files() {
    assert!(!has_partial_files(&vec![file("movie.mkv"), file("notes.txt"), directory("old")]));
}

#[test]
fn partial_file_is_found_wherever_it_stands() {
    assert!(has_partial_files(&vec![file("movie.mkv.part"), file("a"), file("b")]));
    assert!(has_partial_files(&vec![file("a"), file("movie.mkv.part"), file("b")]));
    assert!(has_partial_files(&vec![file("a"), file("b"), file("movie.mkv.part")]));
}

#[test]
fn directory_with_the_marker_is_no_partial_file() {
    assert!(!has_partial_files(&vec![directory("downloads.part"), file("movie.mkv")]));
}

#[test]
fn entry_knows_whether_it_is_partial() {
    assert!(file("movie.mkv.part").is_partial());
    assert!(!file("movie.mkv").is_partial());
    assert!(!file(".part").is_partial());
    assert!(!directory("movie.mkv.part").is_partial());
}
