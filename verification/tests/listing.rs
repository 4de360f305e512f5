use exhaust::app::{Home, ListState, OpenMode};
use exhaust::listing::{Directory, ListingError, PathEntry};
use exhaust::persist::Format;

fn file(name: &str) -> PathEntry {
    PathEntry { path: format!("/quiz/{}", name), file_name: name.to_string(), is_dir: false }
}

fn dir(name: &str) -> PathEntry {
    PathEntry { path: format!("/quiz/{}", name), file_name: name.to_string(), is_dir: true }
}

fn root() -> PathEntry {
    PathEntry { path: "/".to_string(), file_name: "".to_string(), is_dir: true }
}

fn names(paths: &[PathEntry]) -> Vec<&str> {
    paths.iter().map(|p| p.file_name.as_str()).collect()
}

fn home() -> Home {
    Home::new("/quiz".to_string())
}

#[test]
fn formats_go_by_extension() {
    assert_eq!(Format::of_name("set.json"), Some(Format::Json));
    assert_eq!(Format::of_name("set.exhaust"), Some(Format::Gzip));
    assert_eq!(Format::of_name("set.gz"), Some(Format::Gzip));
    assert_eq!(Format::of_name("set.tar.gz"), Some(Format::Gzip));
    assert_eq!(Format::of_name("a.b.json"), Some(Format::Json));
    assert_eq!(Format::of_name(".hidden.json"), Some(Format::Json));
    assert_eq!(Format::of_name("émile.json"), Some(Format::Json));
}

#[test]
fn other_names_hold_no_exam() {
    for name in [
        "set.txt", "set", "json", ".json", ".gz", ".exhaust", "set.JSON", "set.json.bak",
        "set.jsonx", "set.xjson", "setjson", "set.", "", ".", "..", "set.g", "set.z", "gz",
    ] {
        assert_eq!(Format::of_name(name), None, "{:?}", name);
    }
}

#[test]
fn the_listing_keeps_directories_and_exam_files() {
    let read = Ok(Directory {
        parent: None,
        entries: vec![
            file("notes.txt"),
            file("b.json"),
            dir("pictures"),
            file("c.exhaust"),
            file("README"),
            file("d.gz"),
            dir("x.txt"),
            file(".json"),
        ],
    });
    let paths = home().get_paths(&read).unwrap();
    assert_eq!(names(&paths), vec!["b.json", "c.exhaust", "d.gz", "pictures", "x.txt"]);
}

#[test]
fn the_listing_is_sorted_by_path_bytes() {
    let read = Ok(Directory {
        parent: None,
        entries: vec![
            file("b.json"),
            file("a.json"),
            file("B.json"),
            dir("a"),
            file("a-b.json"),
            file("ab.json"),
            file("10.json"),
            file("9.json"),
            file("é.json"),
            file("z.json"),
        ],
    });
    let paths = home().get_paths(&read).unwrap();
    assert_eq!(
        names(&paths),
        vec![
            "10.json", "9.json", "B.json", "a", "a-b.json", "a.json", "ab.json", "b.json",
            "z.json", "é.json"
        ]
    );
    let mut expected: Vec<String> = paths.iter().map(|p| p.path.clone()).collect();
    expected.sort();
    assert_eq!(paths.iter().map(|p| p.path.clone()).collect::<Vec<_>>(), expected);
}

#[test]
fn the_parent_is_pinned_first() {
    let read = Ok(Directory {
        parent: Some(root()),
        entries: vec![file("b.json"), dir("!first"), file("a.json")],
    });
    let paths = home().get_paths(&read).unwrap();
    assert_eq!(paths.len(), 4);
    assert_eq!(paths[0].path, "/");
    assert!(paths[0].is_dir);
    assert_eq!(names(&paths[1..]), vec!["!first", "a.json", "b.json"]);
}

#[test]
fn the_listing_of_an_empty_directory() {
    let paths = home().get_paths(&Ok(Directory { parent: None, entries: vec![] })).unwrap();
    assert!(paths.is_empty());
    let paths =
        home().get_paths(&Ok(Directory { parent: Some(root()), entries: vec![] })).unwrap();
    assert_eq!(names(&paths), vec![""]);
    assert_eq!(Directory { parent: None, entries: vec![file("x.txt")] }.listing().len(), 0);
}

#[test]
fn entries_of_one_path_keep_their_order() {
    let first = PathEntry { path: "/quiz/a.json".to_string(), file_name: "a.json".to_string(), is_dir: false };
    let second = PathEntry { path: "/quiz/a.json".to_string(), file_name: "a.json".to_string(), is_dir: true };
    let read = Ok(Directory { parent: None, entries: vec![file("b.json"), first, second] });
    let paths = home().get_paths(&read).unwrap();
    assert_eq!(names(&paths), vec!["a.json", "a.json", "b.json"]);
    assert!(!paths[0].is_dir);
    assert!(paths[1].is_dir);
}

#[test]
fn an_unreadable_directory_lists_nothing() {
    let read: Result<Directory, ListingError> = Err(ListingError::Unreadable);
    assert_eq!(home().get_paths(&read).unwrap_err(), ListingError::Unreadable);
    assert!(home().paths_or_none(&read).is_empty());
    let read = Ok(Directory { parent: None, entries: vec![file("a.json")] });
    assert_eq!(home().paths_or_none(&read).len(), 1);
}

#[test]
fn the_selected_path_is_the_entry_under_the_cursor() {
    let paths = vec![dir("a"), file("b.json")];
    let mut home = home();
    assert!(home.get_selected_path(&paths).is_none());
    home.list_state.select(Some(1));
    assert_eq!(home.get_selected_path(&paths).unwrap().path, "/quiz/b.json");
    home.list_state.select(Some(2));
    assert!(home.get_selected_path(&paths).is_none());
    home.list_state.select(Some(0));
    assert!(home.get_selected_path(&paths).unwrap().is_dir);
    assert!(home.get_selected_path(&vec![]).is_none());
}

#[test]
fn entries_compare_by_path() {
    assert!(file("a.json").comes_first(&file("b.json")));
    assert!(!file("b.json").comes_first(&file("a.json")));
    assert!(file("a.json").comes_first(&file("a.json")));
    assert!(file("a").comes_first(&file("a.json")));
    assert!(!file("a.json").comes_first(&file("a")));
    assert!(file("Z").comes_first(&file("a")));
}

#[test]
fn entries_are_shown_by_kind_and_name() {
    assert!(dir("anything").shown());
    assert!(file("a.json").shown());
    assert!(file("a.gz").shown());
    assert!(file("a.exhaust").shown());
    assert!(!file("a.txt").shown());
    assert!(!file("json").shown());
}

#[test]
fn a_new_browser_has_no_cursor() {
    let home = home();
    assert_eq!(home.current_path, "/quiz");
    assert!(home.exam_src.is_none());
    assert_eq!(home.list_state.selected(), None);
    assert_eq!(home.open_mode, OpenMode::NoAutoSave);
    assert_eq!(ListState::default().selected(), None);
    assert_eq!(OpenMode::default(), OpenMode::NoAutoSave);
}
