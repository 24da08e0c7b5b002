use typst_pdf_api::paths::VirtualPath;

fn names(path: &VirtualPath) -> Vec<&str> {
    path.names().iter().map(|name| name.as_str()).collect()
}

#[test]
fn plain_names_are_kept_in_order() {
    let path = VirtualPath::new("a/b/c.typ");
    assert_eq!(path.ascents(), 0);
    assert_eq!(names(&path), vec!["a", "b", "c.typ"]);
}

#[test]
fn empty_text_is_the_root() {
    let path = VirtualPath::new("");
    assert_eq!(path.ascents(), 0);
    assert!(path.names().is_empty());
}

#[test]
fn separators_alone_are_the_root() {
    for text in ["/", "//", "///"] {
        let path = VirtualPath::new(text);
        assert_eq!(path.ascents(), 0);
        assert!(path.names().is_empty());
    }
}

#[test]
fn leading_trailing_and_doubled_separators_name_nothing() {
    for text in ["/a/b", "a/b/", "a//b", "//a///b//"] {
        let path = VirtualPath::new(text);
        assert_eq!(path.ascents(), 0);
        assert_eq!(names(&path), vec!["a", "b"]);
    }
}

#[test]
fn current_directory_names_nothing() {
    for text in ["./a/b", "a/./b", "a/b/.", "././a/./b/./."] {
        let path = VirtualPath::new(text);
        assert_eq!(path.ascents(), 0);
        assert_eq!(names(&path), vec!["a", "b"]);
    }
    let path = VirtualPath::new(".");
    assert_eq!(path.ascents(), 0);
    assert!(path.names().is_empty());
}

#[test]
fn parent_takes_back_the_last_name() {
    let path = VirtualPath::new("a/b/../c");
    assert_eq!(path.ascents(), 0);
    assert_eq!(names(&path), vec!["a", "c"]);
    let path = VirtualPath::new("a/b/../../c");
    assert_eq!(path.ascents(), 0);
    assert_eq!(names(&path), vec!["c"]);
    let path = VirtualPath::new("a/..");
    assert_eq!(path.ascents(), 0);
    assert!(path.names().is_empty());
}

#[test]
fn parent_with_no_name_before_it_climbs() {
    let path = VirtualPath::new("..");
    assert_eq!(path.ascents(), 1);
    assert!(path.names().is_empty());
    let path = VirtualPath::new("../secret.txt");
    assert_eq!(path.ascents(), 1);
    assert_eq!(names(&path), vec!["secret.txt"]);
    let path = VirtualPath::new("../../etc/passwd");
    assert_eq!(path.ascents(), 2);
    assert_eq!(names(&path), vec!["etc", "passwd"]);
}

#[test]
fn a_climb_after_names_is_counted_once_the_names_run_out() {
    let path = VirtualPath::new("a/../../x");
    assert_eq!(path.ascents(), 1);
    assert_eq!(names(&path), vec!["x"]);
    let path = VirtualPath::new("a/b/../../../../x/y");
    assert_eq!(path.ascents(), 2);
    assert_eq!(names(&path), vec!["x", "y"]);
}

#[test]
fn a_climb_is_never_taken_back() {
    let path = VirtualPath::new("../a/..");
    assert_eq!(path.ascents(), 1);
    assert!(path.names().is_empty());
    let path = VirtualPath::new("/../a/../b");
    assert_eq!(path.ascents(), 1);
    assert_eq!(names(&path), vec!["b"]);
}

#[test]
fn names_that_only_look_like_dots_are_names() {
    let path = VirtualPath::new(".../..a/a../.hidden/a.b");
    assert_eq!(path.ascents(), 0);
    assert_eq!(names(&path), vec!["...", "..a", "a..", ".hidden", "a.b"]);
}

#[test]
fn names_may_hold_any_character_but_the_separator() {
    let path = VirtualPath::new("gr\u{fc}\u{df}e/\u{65e5}\u{672c}/a b\\c");
    assert_eq!(path.ascents(), 0);
    assert_eq!(names(&path), vec!["gr\u{fc}\u{df}e", "\u{65e5}\u{672c}", "a b\\c"]);
}

#[test]
fn two_spellings_of_one_place_are_the_same_path() {
    let plain = VirtualPath::new("a/b.typ");
    assert!(plain.same_as(&VirtualPath::new("/a/./x/../b.typ")));
    assert!(plain.same_as(&VirtualPath::new("a//b.typ/")));
    assert!(VirtualPath::new("../a").same_as(&VirtualPath::new("b/../../a")));
}

#[test]
fn different_places_are_different_paths() {
    let plain = VirtualPath::new("a/b.typ");
    assert!(!plain.same_as(&VirtualPath::new("a/c.typ")));
    assert!(!plain.same_as(&VirtualPath::new("a")));
    assert!(!plain.same_as(&VirtualPath::new("a/b.typ/c")));
    assert!(!plain.same_as(&VirtualPath::new("../a/b.typ")));
    assert!(!VirtualPath::new("..").same_as(&VirtualPath::new("../..")));
    assert!(!VirtualPath::new("").same_as(&VirtualPath::new("..")));
}

#[test]
fn a_copy_is_the_same_path() {
    let path = VirtualPath::new("../x/y");
    let copy = path.duplicate();
    assert!(copy.same_as(&path));
    assert_eq!(copy.ascents(), 1);
    assert_eq!(names(&copy), vec!["x", "y"]);
}

#[test]
fn under_writes_each_name_after_a_separator() {
    let place = |path: &str, root: &str| VirtualPath::new(path).under(root);
    assert_eq!(place("a/b.typ", "/srv/project").as_deref(), Some("/srv/project/a/b.typ"));
    assert_eq!(place("a/./x/../b.typ", "root").as_deref(), Some("root/a/b.typ"));
    assert_eq!(place("", "/srv/project").as_deref(), Some("/srv/project"));
    assert_eq!(place("x", "").as_deref(), Some("/x"));
}

#[test]
fn a_path_that_escapes_has_no_place_under_a_root() {
    assert_eq!(VirtualPath::new("../x").under("/srv/project"), None);
    assert_eq!(VirtualPath::new("a/../../x").under("/srv/project"), None);
    assert_eq!(VirtualPath::new("..").under(""), None);
}
