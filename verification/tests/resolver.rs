use file_icons::icons::{EMPTY_FOLDER, FOLDER, NO_EXTENSION, UNKNOWN_EXTENSION};
use file_icons::{icon_for_file, File};

fn entry(name: &str, ext: Option<&str>, is_directory: bool, is_empty_directory: bool) -> File {
    File {
        name: name.to_string(),
        ext: ext.map(|e| e.to_string()),
        is_directory,
        is_empty_directory,
    }
}

#[test]
fn the_generic_icons_are_the_documented_glyphs() {
    assert_eq!(FOLDER, '\u{f07b}');
    assert_eq!(EMPTY_FOLDER, '\u{f115}');
    assert_eq!(UNKNOWN_EXTENSION, '\u{f15b}');
    assert_eq!(NO_EXTENSION, '\u{f016}');
}

#[test]
fn the_generic_icons_all_differ() {
    let icons = [FOLDER, EMPTY_FOLDER, UNKNOWN_EXTENSION, NO_EXTENSION];
    for (i, a) in icons.iter().enumerate() {
        for b in icons.iter().skip(i + 1) {
            assert_ne!(a, b);
        }
    }
}

#[test]
fn dockerfile_is_docker_whatever_else_is_said_of_it() {
    for ext in [None, Some("rs"), Some("md"), Some("unknownext")] {
        for is_directory in [false, true] {
            for is_empty_directory in [false, true] {
                let file = entry("Dockerfile", ext, is_directory, is_empty_directory);
                assert_eq!(icon_for_file(&file), '\u{f308}');
            }
        }
    }
}

#[test]
fn the_git_directory_has_its_own_icon() {
    let icon = icon_for_file(&entry(".git", None, true, false));
    assert_eq!(icon, '\u{f1d3}');
    assert_ne!(icon, FOLDER);
    let icon = icon_for_file(&entry(".git", None, true, true));
    assert_eq!(icon, '\u{f1d3}');
    assert_ne!(icon, EMPTY_FOLDER);
}

#[test]
fn special_directories_are_not_plain_folders() {
    assert_eq!(icon_for_file(&entry("node_modules", None, true, false)), '\u{e718}');
    assert_eq!(icon_for_file(&entry(".github", None, true, false)), '\u{f408}');
    assert_eq!(icon_for_file(&entry(".vscode", None, true, true)), '\u{e70c}');
    assert_eq!(icon_for_file(&entry("bin", None, true, false)), '\u{e5fc}');
}

#[test]
fn a_markdown_file_goes_by_its_extension() {
    assert_eq!(icon_for_file(&entry("notes.md", Some("md"), false, false)), '\u{f48a}');
}

#[test]
fn a_rust_file_goes_by_its_extension() {
    assert_eq!(icon_for_file(&entry("main.rs", Some("rs"), false, false)), '\u{e7a8}');
}

#[test]
fn an_empty_directory_is_an_empty_folder() {
    assert_eq!(icon_for_file(&entry("build", None, true, true)), '\u{f115}');
}

#[test]
fn a_directory_with_entries_is_a_folder() {
    assert_eq!(icon_for_file(&entry("build", None, true, false)), '\u{f07b}');
}

#[test]
fn a_directory_does_not_go_by_its_extension() {
    assert_eq!(icon_for_file(&entry("photos.jpg", Some("jpg"), true, false)), FOLDER);
    assert_eq!(icon_for_file(&entry("photos.jpg", Some("jpg"), true, true)), EMPTY_FOLDER);
    assert_eq!(icon_for_file(&entry("src.unknownext", Some("unknownext"), true, false)), FOLDER);
    assert_eq!(icon_for_file(&entry("src.unknownext", Some("unknownext"), true, true)), EMPTY_FOLDER);
}

#[test]
fn a_file_without_extension_has_the_plain_file_icon() {
    assert_eq!(icon_for_file(&entry("README", None, false, false)), '\u{f016}');
}

#[test]
fn a_file_with_an_unknown_extension_has_the_other_file_icon() {
    let icon = icon_for_file(&entry("x.unknownext", Some("unknownext"), false, false));
    assert_eq!(icon, '\u{f15b}');
    assert_ne!(icon, NO_EXTENSION);
}

#[test]
fn the_empty_flag_means_nothing_for_a_file() {
    assert_eq!(icon_for_file(&entry("README", None, false, true)), NO_EXTENSION);
    assert_eq!(icon_for_file(&entry("notes.md", Some("md"), false, true)), '\u{f48a}');
    assert_eq!(icon_for_file(&entry("x.unknownext", Some("unknownext"), false, true)), UNKNOWN_EXTENSION);
}

#[test]
fn an_extension_that_was_not_lowered_is_unknown() {
    assert_eq!(icon_for_file(&entry("MAIN.RS", Some("RS"), false, false)), UNKNOWN_EXTENSION);
    assert_eq!(icon_for_file(&entry("Notes.Md", Some("Md"), false, false)), UNKNOWN_EXTENSION);
}

#[test]
fn names_are_matched_in_their_own_case() {
    assert_eq!(icon_for_file(&entry("dockerfile", None, false, false)), NO_EXTENSION);
    assert_eq!(icon_for_file(&entry("makefile", None, false, false)), NO_EXTENSION);
    assert_eq!(icon_for_file(&entry("Makefile", None, false, false)), '\u{f489}');
    assert_eq!(icon_for_file(&entry("license", None, false, false)), NO_EXTENSION);
    assert_eq!(icon_for_file(&entry("LICENSE", None, false, false)), '\u{f02d}');
}

#[test]
fn a_known_name_beats_a_known_extension() {
    // By its extension alone this would be a lock file.
    assert_eq!(icon_for_file(&entry("Cargo.lock", Some("lock"), false, false)), '\u{e7a8}');
    assert_eq!(icon_for_file(&entry("other.lock", Some("lock"), false, false)), '\u{f023}');
    // By its extension alone this would be a YAML file.
    assert_eq!(icon_for_file(&entry("docker-compose.yml", Some("yml"), false, false)), '\u{f308}');
    assert_eq!(icon_for_file(&entry("other.yml", Some("yml"), false, false)), '\u{f481}');
    assert_eq!(icon_for_file(&entry("go.mod", Some("mod"), false, false)), '\u{e626}');
}

#[test]
fn a_known_name_beats_an_unknown_extension() {
    assert_eq!(icon_for_file(&entry("Dockerfile", Some("unknownext"), false, false)), '\u{f308}');
    assert_eq!(icon_for_file(&entry("go.sum", Some("sum"), false, false)), '\u{e626}');
}

#[test]
fn an_empty_name_is_still_an_entry() {
    assert_eq!(icon_for_file(&entry("", None, false, false)), NO_EXTENSION);
    assert_eq!(icon_for_file(&entry("", Some(""), false, false)), UNKNOWN_EXTENSION);
    assert_eq!(icon_for_file(&entry("", None, true, true)), EMPTY_FOLDER);
    assert_eq!(icon_for_file(&entry("", None, true, false)), FOLDER);
}

#[test]
fn the_extension_is_taken_as_given() {
    // The resolver does not read the name to find an extension.
    assert_eq!(icon_for_file(&entry("notes.md", None, false, false)), NO_EXTENSION);
    assert_eq!(icon_for_file(&entry("notes", Some("md"), false, false)), '\u{f48a}');
    assert_eq!(icon_for_file(&entry("notes.md", Some("rs"), false, false)), '\u{e7a8}');
}

#[test]
fn icons_beyond_the_basic_plane_come_through() {
    assert_eq!(icon_for_file(&entry("a.cs", Some("cs"), false, false)), '\u{f031b}');
    assert_eq!(icon_for_file(&entry("a.xml", Some("xml"), false, false)), '\u{f05c0}');
    assert_eq!(icon_for_file(&entry("build.ninja", Some("ninja"), false, false)), '\u{f0774}');
    assert_eq!(icon_for_file(&entry("a.zig", Some("zig"), false, false)), '\u{21af}');
    assert_eq!(icon_for_file(&entry("Vagrantfile", None, false, false)), '\u{2371}');
}

#[test]
fn asking_twice_gives_the_same_icon() {
    let files = [
        entry("Dockerfile", None, false, false),
        entry(".git", None, true, false),
        entry("notes.md", Some("md"), false, false),
        entry("build", None, true, true),
        entry("README", None, false, false),
        entry("x.unknownext", Some("unknownext"), false, false),
    ];
    for file in files.iter() {
        let first = icon_for_file(file);
        let second = icon_for_file(file);
        assert_eq!(first, second);
        let copy = File {
            name: file.name.clone(),
            ext: file.ext.clone(),
            is_directory: file.is_directory,
            is_empty_directory: file.is_empty_directory,
        };
        assert_eq!(icon_for_file(&copy), first);
        // The entry itself is left as it was.
        assert_eq!(copy.name, file.name);
        assert_eq!(copy.ext, file.ext);
    }
}
