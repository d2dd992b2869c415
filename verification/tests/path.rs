use pirate_life::path::file_name;
use pirate_life::path::has_root;
use pirate_life::path::join;
use pirate_life::path::parent;
use pirate_life::path::to_name_and_extension;
use std::path::Path;

fn pair(stem: &str, extension: &str) -> Option<(String, String)> {
    Some((stem.to_string(), extension.to_string()))
}

#[test]
fn name_and_extension_of_a_plain_name() {
    assert_eq!(to_name_and_extension("movie.mkv"), pair("movie", "mkv"));
}

#[test]
fn name_and_extension_split_at_the_last_dot() {
    assert_eq!(to_name_and_extension("show.s01e01.mkv"), pair("show.s01e01", "mkv"));
    assert_eq!(to_name_and_extension("/data/in/archive.tar.gz"), pair("archive.tar", "gz"));
}

#[test]
fn name_without_extension_has_no_split() {
    assert_eq!(to_name_and_extension("movie"), None);
    assert_eq!(to_name_and_extension(""), None);
    assert_eq!(to_name_and_extension("/"), None);
    assert_eq!(to_name_and_extension("dir.d/movie"), None);
}

#[test]
fn leading_dot_is_no_extension() {
    assert_eq!(to_name_and_extension(".hidden"), None);
    assert_eq!(to_name_and_extension(".hidden.txt"), pair(".hidden", "txt"));
}

#[test]
fn trailing_dot_is_an_empty_extension() {
    assert_eq!(to_name_and_extension("movie."), pair("movie", ""));
}

#[test]
fn dot_components_have_no_name() {
    assert_eq!(file_name("."), None);
    assert_eq!(file_name(".."), None);
    assert_eq!(file_name("a/.."), None);
    assert_eq!(file_name("./"), None);
    assert_eq!(file_name("/."), None);
}

#[test]
fn file_name_passes_over_trailing_separators_and_dots() {
    assert_eq!(file_name("a/b/"), Some("b".to_string()));
    assert_eq!(file_name("a/b/."), Some("b".to_string()));
    assert_eq!(file_name("a/b//./"), Some("b".to_string()));
    assert_eq!(file_name("..."), Some("...".to_string()));
}

#[test]
fn file_name_and_split_agree_with_std() {
    let samples = [
        "", "/", "//", ".", "..", "./", "/.", "./.", "../.", "a", "a/", "a//", "a/.", "a/./",
        "a/..", "a/../", "a/b", "/a/b", "a/b/", "./a", "a.b", "a.b.c", ".a", ".a.b", "a.",
        "a..", "..a", "...", "/tmp/x.mkv", "/tmp/x.mkv/", "/tmp/.x", "dir.d/name", "x/.y.z",
        "naïve.mkv", "日本語/ファイル.mp4",
    ];
    for sample in samples {
        let path = Path::new(sample);
        let name = path.file_name().map(|name| name.to_str().unwrap().to_string());
        assert_eq!(file_name(sample), name, "file name of {:?}", sample);
        let stem = path.file_stem().map(|stem| stem.to_str().unwrap().to_string());
        let extension = path.extension().map(|extension| extension.to_str().unwrap().to_string());
        assert_eq!(to_name_and_extension(sample), stem.zip(extension), "split of {:?}", sample);
    }
}

#[test]
fn join_puts_one_separator_between() {
    assert_eq!(join("/tmp", "x.mkv"), "/tmp/x.mkv");
    assert_eq!(join("/tmp/", "x.mkv"), "/tmp/x.mkv");
    assert_eq!(join("", "x.mkv"), "x.mkv");
    assert_eq!(join("a", ""), "a/");
}

#[test]
fn join_with_a_rooted_name_gives_the_name() {
    assert_eq!(join("/tmp", "/etc/x"), "/etc/x");
}

#[test]
fn join_agrees_with_std() {
    let bases = ["", "/", "a", "a/", "/a/b", "/a/b/", "."];
    let names = ["x", "x/y", "/x", "", ".", "x.mkv"];
    for base in bases {
        for name in names {
            let mut expected = Path::new(base).to_path_buf();
            expected.push(name);
            assert_eq!(join(base, name), expected.to_str().unwrap(), "{:?} + {:?}", base, name);
        }
    }
}

#[test]
fn parent_is_the_text_before_the_name() {
    assert_eq!(parent("/tmp/x.mkv"), Some("/tmp".to_string()));
    assert_eq!(parent("/tmp//x.mkv"), Some("/tmp".to_string()));
    assert_eq!(parent("x.mkv"), Some("".to_string()));
    assert_eq!(parent("/x.mkv"), Some("/".to_string()));
    assert_eq!(parent("a/b/"), Some("a".to_string()));
}

#[test]
fn parent_of_a_path_without_name_is_none() {
    assert_eq!(parent(""), None);
    assert_eq!(parent("/"), None);
    assert_eq!(parent("a/.."), None);
}

#[test]
fn rooted_paths_begin_with_a_separator() {
    assert!(has_root("/"));
    assert!(has_root("/a/b"));
    assert!(!has_root(""));
    assert!(!has_root("a/b"));
    assert!(!has_root("./a"));
}
