use dock_launcher::index::DesktopIndex;
use dock_launcher::scan::{contains_string, desktop_directories, file_extension, is_desktop_file};
use dock_launcher::text::{chars_of, split_lines, split_on};
use std::collections::BTreeMap;
use std::path::Path;

const SAMPLES: &[&str] = &[
    "",
    "a",
    ":",
    "a:b",
    "::a::b:",
    "/usr/share:/usr/local/share",
    "x\n",
    "\n",
    "one\ntwo\r\nthree",
    "foo\nbar\n\r\nbaz\r",
    "a\r\n\r\n",
    "ünïcödé:日本:",
];

#[test]
fn split_on_agrees_with_str_split() {
    for s in SAMPLES {
        for sep in [':', '\n', ' '] {
            let expected: Vec<String> = s.split(sep).map(String::from).collect();
            assert_eq!(split_on(s, sep), expected, "splitting {:?} at {:?}", s, sep);
        }
    }
}

#[test]
fn split_keeps_empty_pieces() {
    assert_eq!(split_on("a::b", ':'), vec!["a", "", "b"]);
    assert_eq!(split_on("", ':'), vec![""]);
}

#[test]
fn split_then_join_gives_the_text_back() {
    for s in SAMPLES {
        let pieces = split_on(s, ':');
        assert_eq!(pieces.join(":"), *s);
        assert!(pieces.iter().all(|p| !p.contains(':')));
    }
}

#[test]
fn split_lines_agrees_with_str_lines() {
    for s in SAMPLES {
        let expected: Vec<String> = s.lines().map(String::from).collect();
        assert_eq!(split_lines(s), expected, "lines of {:?}", s);
    }
}

#[test]
fn lines_keep_a_final_carriage_return() {
    assert_eq!(split_lines("foo\nbar\n\r\nbaz\r"), vec!["foo", "bar", "", "baz\r"]);
    assert_eq!(split_lines(""), Vec::<String>::new());
    assert_eq!(split_lines("\n"), vec![""]);
    assert!(split_lines("a\nb\n").iter().all(|l| !l.contains('\n')));
}

#[test]
fn directories_skip_empty_and_repeated_pieces() {
    assert_eq!(
        desktop_directories("/a:/b::/a:/c:"),
        vec!["/a".to_string(), "/b".to_string(), "/c".to_string()]
    );
    assert_eq!(desktop_directories(""), Vec::<String>::new());
    assert_eq!(desktop_directories(":::"), Vec::<String>::new());
}

#[test]
fn directories_are_each_nonempty_piece_once() {
    let path = "/x:/y:/x::/z:/y";
    let dirs = desktop_directories(path);
    for piece in path.split(':').filter(|p| !p.is_empty()) {
        assert_eq!(dirs.iter().filter(|d| d.as_str() == piece).count(), 1);
    }
    assert_eq!(dirs.len(), 3);
}

#[test]
fn extension_agrees_with_path_extension() {
    for name in [
        "firefox.desktop",
        "a.b.c",
        ".bashrc",
        ".a.b",
        "README",
        "trailing.",
        "..",
        "...",
        "x.",
        "日本.desktop",
    ] {
        let expected = Path::new(name).extension().map(|e| e.to_str().unwrap().to_string());
        assert_eq!(file_extension(name), expected, "extension of {:?}", name);
    }
}

#[test]
fn extension_splits_a_name_into_stem_and_extension() {
    let name = "org.gnome.Terminal.desktop";
    let ext = file_extension(name).unwrap();
    assert_eq!(ext, "desktop");
    assert!(!ext.contains('.'));
    let stem = &name[..name.len() - ext.len() - 1];
    assert_eq!(format!("{}.{}", stem, ext), name);
    assert!(!stem.is_empty());
}

#[test]
fn desktop_files_are_recognised_by_extension() {
    let hidden = vec!["secret.desktop".to_string(), "README".to_string()];
    assert!(is_desktop_file("firefox.desktop", &hidden));
    assert!(!is_desktop_file("secret.desktop", &hidden));
    assert!(!is_desktop_file("README", &hidden));
    assert!(!is_desktop_file("notes.txt", &hidden));
    assert!(!is_desktop_file("x.Desktop", &hidden));
    assert!(!is_desktop_file("x.desktops", &hidden));
}

#[test]
fn index_keeps_names_sorted_and_the_last_path() {
    let mut index = DesktopIndex::new();
    let mut model = BTreeMap::new();
    let inserts = [
        ("Terminal", "/a/term.desktop"),
        ("Firefox", "/a/firefox.desktop"),
        ("Émacs", "/a/emacs.desktop"),
        ("Zed", "/a/zed.desktop"),
        ("Firefox", "/b/firefox.desktop"),
        ("", "/a/empty.desktop"),
        ("Fire", "/a/fire.desktop"),
        ("Terminal", "/c/term.desktop"),
    ];
    for (name, path) in inserts {
        index.insert(name.to_string(), path.to_string());
        model.insert(name.to_string(), path.to_string());
        let got: Vec<(String, String)> = index.entries().clone();
        let want: Vec<(String, String)> = model.iter().map(|(k, v)| (k.clone(), v.clone())).collect();
        assert_eq!(got, want);
    }
    let firefox = index.entries().iter().find(|(n, _)| n == "Firefox").unwrap();
    assert_eq!(firefox.1, "/b/firefox.desktop");
}


#[test]
fn chars_of_lists_the_characters() {
    assert_eq!(chars_of("aé日"), vec!['a', 'é', '日']);
    assert!(chars_of("").is_empty());
}

#[test]
fn contains_string_compares_whole_strings() {
    let list = vec!["ab".to_string(), "c".to_string()];
    assert!(contains_string(&list, &"c".to_string()));
    assert!(!contains_string(&list, &"a".to_string()));
    assert!(!contains_string(&Vec::new(), &String::new()));
}
