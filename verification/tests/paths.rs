use std::path::Path;
use watchmove::paths::{has_partial_extension, join};

#[test]
fn join_puts_a_separator_between_directory_and_name() {
    assert_eq!(join("/tmp/src", "movie.mkv"), "/tmp/src/movie.mkv");
}

#[test]
fn join_keeps_a_separator_that_is_there() {
    assert_eq!(join("/tmp/src/", "movie.mkv"), "/tmp/src/movie.mkv");
    assert_eq!(join("/", "movie.mkv"), "/movie.mkv");
}

#[test]
fn join_to_an_empty_directory_is_the_name() {
    assert_eq!(join("", "movie.mkv"), "movie.mkv");
}

#[test]
fn join_lets_a_rooted_name_stand_for_itself() {
    assert_eq!(join("/tmp/src", "/etc/hosts"), "/etc/hosts");
}

#[test]
fn join_of_an_empty_name_ends_with_a_separator() {
    assert_eq!(join("/tmp/src", ""), "/tmp/src/");
    assert_eq!(join("", ""), "");
}

#[test]
fn join_counts_characters_not_bytes() {
    assert_eq!(join("/tmp/été", "café.mkv"), "/tmp/été/café.mkv");
    assert_eq!(join("/tmp/é/", "ü"), "/tmp/é/ü");
}

#[test]
fn join_agrees_with_the_standard_library() {
    let bases = ["", "/", "/tmp", "/tmp/", "tmp", "a/b", "a/b/", ".", "..", "/tmp/été"];
    let names = ["", "x", "x.part", "/x", "/", "a/b", ".", "..", "ü.mkv", ".hidden"];
    for base in bases {
        for name in names {
            let expected = Path::new(base).join(name);
            assert_eq!(join(base, name), expected.to_str().unwrap(), "{:?} {:?}", base, name);
        }
    }
}

#[test]
fn partial_extension_is_recognised() {
    assert!(has_partial_extension("movie.mkv.part"));
    assert!(has_partial_extension("a.part"));
    assert!(has_partial_extension("..part"));
    assert!(has_partial_extension("é.part"));
}

#[test]
fn other_extensions_are_not_partial() {
    assert!(!has_partial_extension("movie.mkv"));
    assert!(!has_partial_extension("movie.part.mkv"));
    assert!(!has_partial_extension("movie.PART"));
    assert!(!has_partial_extension("movie.partx"));
    assert!(!has_partial_extension("movie.xpart"));
    assert!(!has_partial_extension("movie.par"));
    assert!(!has_partial_extension("moviepart"));
}

#[test]
fn names_without_an_extension_are_not_partial() {
    assert!(!has_partial_extension(""));
    assert!(!has_partial_extension("part"));
    assert!(!has_partial_extension(".part"));
    assert!(!has_partial_extension("."));
    assert!(!has_partial_extension(".."));
    assert!(!has_partial_extension("movie."));
}

#[test]
fn partial_extension_agrees_with_the_standard_library() {
    let names = [
        "", ".", "..", "...", "part", ".part", "..part", "a.part", "a.b.part", "a.part.b",
        "a.part.", "a..part", ".a.part", "é.part", "a.pärt", "a.PART", "apart", "a.par", "a.partt",
        "movie.mkv", "movie.mkv.part", "日本語.part", "x.p.a.r.t",
    ];
    for name in names {
        let expected = Path::new(name).extension().map(|e| e == "part").unwrap_or(false);
        assert_eq!(has_partial_extension(name), expected, "{:?}", name);
    }
}
