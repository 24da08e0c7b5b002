use std::cell::Cell;

use typst_pdf_api::bytes::copy_bytes;
use typst_pdf_api::files::{
    text_of, FileCache, FileResolutionError, FileResolver, Plan, ReadFailure, VirtualFileId,
};

fn id(path: &str) -> VirtualFileId {
    VirtualFileId::new(None, path)
}

fn never(_path: String) -> Result<Vec<u8>, ReadFailure> {
    panic!("nothing is to be read")
}

#[test]
fn identifier_holds_package_and_normal_path() {
    let file = VirtualFileId::new(Some("preview".to_string()), "lib/./x/../main.typ");
    assert_eq!(file.package().as_deref(), Some("preview"));
    assert_eq!(file.path().ascents(), 0);
    let names: Vec<&str> = file.path().names().iter().map(|name| name.as_str()).collect();
    assert_eq!(names, vec!["lib", "main.typ"]);
    assert!(id("a").package().is_none());
}

#[test]
fn two_spellings_of_one_file_are_one_identifier() {
    assert!(id("a/b.typ").same_as(&id("/a/./c/../b.typ")));
    assert!(id("a/b.typ").same_as(&id("a/b.typ").duplicate()));
}

#[test]
fn identifiers_differ_by_path_and_by_package() {
    assert!(!id("a/b.typ").same_as(&id("a/c.typ")));
    assert!(!id("a").same_as(&VirtualFileId::new(Some("p".to_string()), "a")));
    assert!(!VirtualFileId::new(Some("p".to_string()), "a")
        .same_as(&VirtualFileId::new(Some("q".to_string()), "a")));
    assert!(VirtualFileId::new(Some("p".to_string()), "a")
        .same_as(&VirtualFileId::new(Some("p".to_string()), "./a")));
    assert!(!id("a").same_as(&id("../a")));
}

#[test]
fn only_identifiers_within_the_root_and_without_package_are_servable() {
    assert!(id("a/b").is_servable());
    assert!(id("").is_servable());
    assert!(id("a/../b").is_servable());
    assert!(!id("../b").is_servable());
    assert!(!id("a/../../b").is_servable());
    assert!(!VirtualFileId::new(Some("preview".to_string()), "a").is_servable());
}

#[test]
fn cache_holds_the_first_bytes_for_an_identifier() {
    let mut cache = FileCache::new();
    assert!(cache.get(&id("a")).is_none());
    cache.remember(id("a"), vec![1, 2, 3]);
    cache.remember(id("b"), vec![4]);
    cache.remember(id("./a"), vec![9, 9]);
    assert_eq!(cache.get(&id("a")), Some(&vec![1, 2, 3]));
    assert_eq!(cache.get(&id("x/../a")), Some(&vec![1, 2, 3]));
    assert_eq!(cache.get(&id("b")), Some(&vec![4]));
    assert!(cache.get(&id("c")).is_none());
}

#[test]
fn plan_for_an_unread_file_is_a_read_of_its_path_below_the_root() {
    let resolver = FileResolver::new("/srv/project".to_string());
    match resolver.plan(&id("chapters/./one.typ")) {
        Plan::Read(path) => assert_eq!(path, "/srv/project/chapters/one.typ"),
        other => panic!("unexpected plan {:?}", other),
    }
    assert_eq!(resolver.root(), "/srv/project");
}

#[test]
fn plan_for_a_path_outside_the_root_fails_with_not_found() {
    let resolver = FileResolver::new("/srv/project".to_string());
    for path in ["../secret", "a/../../secret", "../../etc/passwd", "..", "/../x"] {
        match resolver.plan(&id(path)) {
            Plan::Fail(error) => assert_eq!(error, FileResolutionError::NotFound),
            other => panic!("unexpected plan {:?}", other),
        }
    }
}

#[test]
fn resolve_outside_the_root_fails_with_not_found_and_reads_nothing() {
    let mut resolver = FileResolver::new("/srv/project".to_string());
    let reads = Cell::new(0);
    for path in ["../secret", "a/../../secret", "../../etc/passwd", "..", "a/b/../../../x"] {
        let answer = resolver.resolve(id(path), |_path| {
            reads.set(reads.get() + 1);
            Ok(b"exists at that place".to_vec())
        });
        assert_eq!(answer, Err(FileResolutionError::NotFound));
    }
    assert_eq!(reads.get(), 0);
}

#[test]
fn complete_outside_the_root_fails_with_not_found_and_holds_nothing() {
    let mut resolver = FileResolver::new("/srv/project".to_string());
    let answer = resolver.complete(id("../secret"), Ok(b"secret".to_vec()));
    assert_eq!(answer, Err(FileResolutionError::NotFound));
    assert!(matches!(resolver.plan(&id("../secret")), Plan::Fail(FileResolutionError::NotFound)));
    assert!(matches!(resolver.plan(&id("secret")), Plan::Read(_)));
}

#[test]
fn files_in_a_package_are_not_found() {
    let mut resolver = FileResolver::new("/srv/project".to_string());
    let file = VirtualFileId::new(Some("preview/invoice:0.3.1".to_string()), "lib.typ");
    assert!(matches!(resolver.plan(&file), Plan::Fail(FileResolutionError::NotFound)));
    assert_eq!(resolver.resolve(file, never), Err(FileResolutionError::NotFound));
}

#[test]
fn resolve_reads_the_planned_path_once_and_answers_with_the_bytes() {
    let mut resolver = FileResolver::new("/srv/project".to_string());
    let reads = Cell::new(0);
    let answer = resolver.resolve(id("logo.png"), |path| {
        reads.set(reads.get() + 1);
        assert_eq!(path, "/srv/project/logo.png");
        Ok(vec![0x89, 0x50, 0x4e, 0x47])
    });
    assert_eq!(answer, Ok(vec![0x89, 0x50, 0x4e, 0x47]));
    assert_eq!(reads.get(), 1);
}

#[test]
fn second_resolve_gives_the_same_bytes_without_a_read() {
    let mut resolver = FileResolver::new("root".to_string());
    let reads = Cell::new(0);
    let first = resolver.resolve(id("data.csv"), |_path| {
        reads.set(reads.get() + 1);
        Ok(b"a,b\n1,2\n".to_vec())
    });
    let second = resolver.resolve(id("data.csv"), |_path| {
        reads.set(reads.get() + 1);
        Ok(b"changed on disk".to_vec())
    });
    let third = resolver.resolve(id("./x/../data.csv"), never);
    assert_eq!(first, Ok(b"a,b\n1,2\n".to_vec()));
    assert_eq!(second, first);
    assert_eq!(third, first);
    assert_eq!(reads.get(), 1);
    match resolver.plan(&id("data.csv")) {
        Plan::Cached(bytes) => assert_eq!(bytes, b"a,b\n1,2\n".to_vec()),
        other => panic!("unexpected plan {:?}", other),
    }
}

#[test]
fn a_missing_file_is_not_found_and_is_asked_for_again() {
    let mut resolver = FileResolver::new("root".to_string());
    let reads = Cell::new(0);
    let missing = resolver.resolve(id("late.typ"), |_path| {
        reads.set(reads.get() + 1);
        Err(ReadFailure::Missing)
    });
    assert_eq!(missing, Err(FileResolutionError::NotFound));
    let found = resolver.resolve(id("late.typ"), |_path| {
        reads.set(reads.get() + 1);
        Ok(b"now here".to_vec())
    });
    assert_eq!(found, Ok(b"now here".to_vec()));
    assert_eq!(reads.get(), 2);
}

#[test]
fn an_unreadable_file_is_not_readable() {
    let mut resolver = FileResolver::new("root".to_string());
    let answer = resolver.resolve(id("locked.typ"), |_path| Err(ReadFailure::Unreadable));
    assert_eq!(answer, Err(FileResolutionError::NotReadable));
    assert!(matches!(resolver.plan(&id("locked.typ")), Plan::Read(_)));
}

#[test]
fn of_two_reads_of_one_file_the_first_wins() {
    let mut resolver = FileResolver::new("root".to_string());
    assert!(matches!(resolver.plan(&id("a.typ")), Plan::Read(_)));
    assert!(matches!(resolver.plan(&id("a.typ")), Plan::Read(_)));
    let first = resolver.complete(id("a.typ"), Ok(b"first".to_vec()));
    let second = resolver.complete(id("a.typ"), Ok(b"second".to_vec()));
    let failed = resolver.complete(id("a.typ"), Err(ReadFailure::Missing));
    assert_eq!(first, Ok(b"first".to_vec()));
    assert_eq!(second, Ok(b"first".to_vec()));
    assert_eq!(failed, Ok(b"first".to_vec()));
}

#[test]
fn resolving_one_file_leaves_the_others_as_they_were() {
    let mut resolver = FileResolver::new("root".to_string());
    resolver.complete(id("a.typ"), Ok(b"a".to_vec())).unwrap();
    assert!(matches!(resolver.plan(&id("b.typ")), Plan::Read(_)));
    resolver.complete(id("b.typ"), Ok(b"b".to_vec())).unwrap();
    assert_eq!(resolver.resolve(id("a.typ"), never), Ok(b"a".to_vec()));
    assert_eq!(resolver.resolve(id("b.typ"), never), Ok(b"b".to_vec()));
}

#[test]
fn an_empty_file_is_a_file() {
    let mut resolver = FileResolver::new("root".to_string());
    assert_eq!(resolver.resolve(id("empty"), |_path| Ok(Vec::new())), Ok(Vec::new()));
    assert_eq!(resolver.resolve(id("empty"), never), Ok(Vec::new()));
    assert_eq!(resolver.resolve_text(id("empty"), never), Ok(String::new()));
}

#[test]
fn text_is_the_decoded_bytes() {
    let mut resolver = FileResolver::new("root".to_string());
    let text = resolver.resolve_text(id("gruss.typ"), |path| {
        assert_eq!(path, "root/gruss.typ");
        Ok("Gr\u{fc}\u{df}e \u{2013} \u{65e5}\u{672c}".as_bytes().to_vec())
    });
    assert_eq!(text, Ok("Gr\u{fc}\u{df}e \u{2013} \u{65e5}\u{672c}".to_string()));
}

#[test]
fn bytes_that_are_not_utf8_are_invalid_as_text_and_served_as_bytes() {
    let mut resolver = FileResolver::new("root".to_string());
    let reads = Cell::new(0);
    let text = resolver.resolve_text(id("image.bin"), |_path| {
        reads.set(reads.get() + 1);
        Ok(vec![0xff, 0xfe, 0x00, 0x41])
    });
    assert_eq!(text, Err(FileResolutionError::InvalidEncoding));
    assert_eq!(resolver.resolve(id("image.bin"), never), Ok(vec![0xff, 0xfe, 0x00, 0x41]));
    assert_eq!(
        resolver.resolve_text(id("image.bin"), never),
        Err(FileResolutionError::InvalidEncoding)
    );
    assert_eq!(reads.get(), 1);
}

#[test]
fn text_of_a_missing_file_is_not_found_not_invalid() {
    let mut resolver = FileResolver::new("root".to_string());
    assert_eq!(
        resolver.resolve_text(id("none.typ"), |_path| Err(ReadFailure::Missing)),
        Err(FileResolutionError::NotFound)
    );
    assert_eq!(
        resolver.resolve_text(id("locked.typ"), |_path| Err(ReadFailure::Unreadable)),
        Err(FileResolutionError::NotReadable)
    );
    assert_eq!(resolver.resolve_text(id("../x.typ"), never), Err(FileResolutionError::NotFound));
}

#[test]
fn text_of_decodes_valid_utf8_only() {
    assert_eq!(text_of(&b"plain".to_vec()), Ok("plain".to_string()));
    assert_eq!(text_of(&vec![0xe2, 0x82, 0xac]), Ok("\u{20ac}".to_string()));
    assert_eq!(text_of(&Vec::new()), Ok(String::new()));
    assert_eq!(text_of(&vec![0xe2, 0x82]), Err(FileResolutionError::InvalidEncoding));
    assert_eq!(text_of(&vec![0xc0, 0xaf]), Err(FileResolutionError::InvalidEncoding));
    assert_eq!(text_of(&vec![0xed, 0xa0, 0x80]), Err(FileResolutionError::InvalidEncoding));
    assert_eq!(text_of(&vec![0x80]), Err(FileResolutionError::InvalidEncoding));
}

#[test]
fn copy_bytes_copies() {
    assert_eq!(copy_bytes(&vec![1, 2, 3]), vec![1, 2, 3]);
    assert_eq!(copy_bytes(&Vec::new()), Vec::<u8>::new());
}
