use std::cell::Cell;

use typst_pdf_api::clock::ClockError;
use typst_pdf_api::environment::{CompilationEnvironment, SourceLookupError};
use typst_pdf_api::files::{FileResolutionError, Plan, ReadFailure, VirtualFileId};
use typst_pdf_api::fonts::{Demand, FontCatalog, FontLoadError, FontSource, FontStyle};
use typst_pdf_api::source::SourceId;

fn environment(fonts: usize) -> CompilationEnvironment {
    let sources = typst_assets::fonts()
        .take(fonts)
        .enumerate()
        .map(|(number, data)| FontSource { path: format!("bundled/{}", number), data: data.to_vec() })
        .collect();
    CompilationEnvironment::new("/srv/project".to_string(), FontCatalog::build(Some(sources)).unwrap())
}

fn id(path: &str) -> VirtualFileId {
    VirtualFileId::new(None, path)
}

fn no_read(_path: String) -> Result<Vec<u8>, ReadFailure> {
    panic!("nothing is to be read")
}

fn no_load(_path: String) -> Option<Vec<u8>> {
    panic!("nothing is to be loaded")
}

#[test]
fn a_new_environment_has_fonts_and_nothing_else() {
    let environment = environment(2);
    assert_eq!(environment.font_count(), 2);
    assert!(environment.main_source().is_err());
    assert!(matches!(environment.file_plan(&id("a.typ")), Plan::Read(_)));
    assert!(matches!(environment.font_demand(0), Demand::Load(_)));
}

#[test]
fn the_library_is_the_same_on_every_call() {
    let environment = environment(0);
    assert!(std::ptr::eq(environment.library(), environment.library()));
    assert!(environment.library().global.scope().get("heading").is_some());
}

#[test]
fn fonts_are_looked_up_by_index() {
    let environment = environment(2);
    let bold = environment.font_descriptor(1).unwrap();
    assert_eq!(bold.family, "Libertinus Serif");
    assert_eq!(bold.style, FontStyle::Normal);
    assert_eq!(bold.weight, 700);
    assert_eq!(environment.font_record(1).unwrap().path(), "bundled/1");
    assert_eq!(environment.font_descriptor(2).err(), Some(FontLoadError::IndexOutOfRange));
    assert_eq!(environment.font_record(2).err(), Some(FontLoadError::IndexOutOfRange));
}

#[test]
fn font_bytes_are_loaded_once() {
    let mut environment = environment(1);
    let loads = Cell::new(0);
    let first = environment.font_bytes(0, |path| {
        loads.set(loads.get() + 1);
        assert_eq!(path, "bundled/0");
        Some(vec![1, 2, 3])
    });
    assert_eq!(first, Ok(vec![1, 2, 3]));
    assert_eq!(environment.font_bytes(0, no_load), Ok(vec![1, 2, 3]));
    assert_eq!(environment.font_supply(0, Some(vec![9])), Ok(vec![1, 2, 3]));
    assert_eq!(environment.font_bytes(1, no_load), Err(FontLoadError::IndexOutOfRange));
    assert_eq!(loads.get(), 1);
}

#[test]
fn files_are_read_once() {
    let mut environment = environment(0);
    let reads = Cell::new(0);
    let first = environment.file(id("a/b.bin"), |path| {
        reads.set(reads.get() + 1);
        assert_eq!(path, "/srv/project/a/b.bin");
        Ok(vec![4, 5])
    });
    assert_eq!(first, Ok(vec![4, 5]));
    assert_eq!(environment.file(id("a/./b.bin"), no_read), Ok(vec![4, 5]));
    assert_eq!(environment.file_complete(id("a/b.bin"), Ok(vec![6])), Ok(vec![4, 5]));
    assert_eq!(environment.file(id("../b.bin"), no_read), Err(FileResolutionError::NotFound));
    assert_eq!(reads.get(), 1);
}

#[test]
fn the_main_source_is_what_was_set() {
    let mut environment = environment(0);
    assert_eq!(
        environment.source(SourceId::Main, no_read),
        Err(SourceLookupError::NoMainSourceSet)
    );
    environment.set_main("= Title".to_string());
    assert_eq!(environment.source(SourceId::Main, no_read), Ok("= Title".to_string()));
    assert_eq!(environment.main_source().unwrap().text(), "= Title");
    environment.set_main("= Other".to_string());
    assert_eq!(environment.source(SourceId::Main, no_read), Ok("= Other".to_string()));
    environment.clear_main();
    assert_eq!(
        environment.source(SourceId::Main, no_read),
        Err(SourceLookupError::NoMainSourceSet)
    );
}

#[test]
fn no_file_stands_for_the_main_source() {
    let mut environment = environment(0);
    environment.set_main("main text".to_string());
    for path in ["main.typ", "", "/", "<main>", "main"] {
        let found = environment.source(SourceId::File(id(path)), |_path| Err(ReadFailure::Missing));
        assert_eq!(found, Err(SourceLookupError::File(FileResolutionError::NotFound)));
    }
}

#[test]
fn the_text_of_a_file_is_decoded() {
    let mut environment = environment(0);
    let found = environment.source(SourceId::File(id("ch/one.typ")), |path| {
        assert_eq!(path, "/srv/project/ch/one.typ");
        Ok("Gr\u{fc}\u{df}e".as_bytes().to_vec())
    });
    assert_eq!(found, Ok("Gr\u{fc}\u{df}e".to_string()));
    assert_eq!(
        environment.source(SourceId::File(id("ch/one.typ")), no_read),
        Ok("Gr\u{fc}\u{df}e".to_string())
    );
    let binary = environment.source(SourceId::File(id("x.bin")), |_path| Ok(vec![0xff]));
    assert_eq!(binary, Err(SourceLookupError::File(FileResolutionError::InvalidEncoding)));
    let locked = environment.source(SourceId::File(id("y")), |_path| Err(ReadFailure::Unreadable));
    assert_eq!(locked, Err(SourceLookupError::File(FileResolutionError::NotReadable)));
}

#[test]
fn lookups_leave_the_main_source_alone() {
    let mut environment = environment(1);
    environment.set_main("kept".to_string());
    environment.file(id("a"), |_path| Ok(vec![1])).unwrap();
    environment.font_bytes(0, |_path| Some(vec![2])).unwrap();
    environment.file_complete(id("b"), Err(ReadFailure::Missing)).unwrap_err();
    environment.font_supply(5, None).unwrap_err();
    assert_eq!(environment.main_source().unwrap().text(), "kept");
}

#[test]
fn setting_the_main_source_leaves_fonts_and_files_alone() {
    let mut environment = environment(1);
    environment.file(id("a"), |_path| Ok(vec![1])).unwrap();
    environment.font_bytes(0, |_path| Some(vec![2])).unwrap();
    environment.set_main("one".to_string());
    environment.clear_main();
    environment.set_main("two".to_string());
    assert_eq!(environment.file(id("a"), no_read), Ok(vec![1]));
    assert_eq!(environment.font_bytes(0, no_load), Ok(vec![2]));
    assert_eq!(environment.font_count(), 1);
}

#[test]
fn environments_do_not_see_each_other() {
    let mut one = environment(1);
    let mut other = environment(1);
    one.set_main("one".to_string());
    other.set_main("other".to_string());
    one.file(id("a"), |_path| Ok(vec![1])).unwrap();
    other.font_bytes(0, |_path| Some(vec![2])).unwrap();
    assert_eq!(one.source(SourceId::Main, no_read), Ok("one".to_string()));
    assert_eq!(other.source(SourceId::Main, no_read), Ok("other".to_string()));
    assert!(matches!(other.file_plan(&id("a")), Plan::Read(_)));
    assert!(matches!(one.font_demand(0), Demand::Load(_)));
}

#[test]
fn now_is_the_clock() {
    let environment = environment(0);
    assert_eq!(environment.now(Some(1441)), Err(ClockError::InvalidOffset));
    assert_eq!(environment.now(Some(-1441)), Err(ClockError::InvalidOffset));
    let now = environment.now(None).unwrap();
    assert!(now.year >= 2024 && now.month >= 1 && now.month <= 12);
    assert!(environment.now(Some(1440)).is_ok());
}

#[test]
fn today_takes_the_offset_in_hours() {
    let environment = environment(0);
    assert_eq!(environment.today(Some(25)), Err(ClockError::InvalidOffset));
    assert_eq!(environment.today(Some(-25)), Err(ClockError::InvalidOffset));
    assert_eq!(environment.today(Some(i64::MAX)), Err(ClockError::InvalidOffset));
    assert_eq!(environment.today(Some(i64::MIN)), Err(ClockError::InvalidOffset));
    let utc = environment.today(None).unwrap();
    let ahead = environment.today(Some(24)).unwrap();
    let behind = environment.today(Some(-24)).unwrap();
    assert!(utc.year >= 2024);
    assert!(ahead.year >= utc.year && behind.year <= utc.year);
    assert!((ahead.year, ahead.month, ahead.day) > (utc.year, utc.month, utc.day));
    assert!((behind.year, behind.month, behind.day) < (utc.year, utc.month, utc.day));
    let same = environment.today(Some(0)).unwrap();
    assert!((same.year, same.month, same.day) >= (utc.year, utc.month, utc.day));
}

#[test]
fn fonts_are_parsed_once() {
    let mut environment = environment(1);
    environment.set_main("kept".to_string());
    let loads = Cell::new(0);
    let first = environment
        .font(0, |path| {
            loads.set(loads.get() + 1);
            assert_eq!(path, "bundled/0");
            typst_assets::fonts().next().map(|data| data.to_vec())
        })
        .unwrap();
    let second = environment.font(0, no_load).unwrap();
    assert!(first == second);
    assert_eq!(first.info().family, "Libertinus Serif");
    assert_eq!(loads.get(), 1);
    assert_eq!(environment.font(1, no_load).err(), Some(FontLoadError::IndexOutOfRange));
    assert_eq!(environment.main_source().unwrap().text(), "kept");
}
