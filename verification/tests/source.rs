use typst_pdf_api::source::{MainSource, MainSourceHolder, NoMainSourceSet, SourceId};

#[test]
fn current_fails_before_any_set() {
    let holder = MainSourceHolder::new();
    assert_eq!(holder.current().err(), Some(NoMainSourceSet));
}

#[test]
fn current_gives_what_was_set() {
    let mut holder = MainSourceHolder::new();
    holder.set("= Heading".to_string());
    assert_eq!(holder.current().unwrap().text(), "= Heading");
}

#[test]
fn set_replaces_the_source_before() {
    let mut holder = MainSourceHolder::new();
    holder.set("first".to_string());
    holder.set("second".to_string());
    assert_eq!(holder.current().unwrap().text(), "second");
}

#[test]
fn an_empty_text_is_a_source() {
    let mut holder = MainSourceHolder::new();
    holder.set(String::new());
    assert_eq!(holder.current().unwrap().text(), "");
}

#[test]
fn current_fails_after_clear() {
    let mut holder = MainSourceHolder::new();
    holder.set("text".to_string());
    holder.clear();
    assert!(holder.current().is_err());
    holder.set("again".to_string());
    assert_eq!(holder.current().unwrap().text(), "again");
}

#[test]
fn holders_do_not_see_each_other() {
    let mut one = MainSourceHolder::new();
    let mut other = MainSourceHolder::new();
    one.set("one".to_string());
    assert!(other.current().is_err());
    other.set("other".to_string());
    one.set("one again".to_string());
    assert_eq!(other.current().unwrap().text(), "other");
    assert_eq!(one.current().unwrap().text(), "one again");
}

#[test]
fn the_main_source_has_the_main_identifier() {
    let source = MainSource::new("text".to_string());
    assert!(matches!(source.id(), SourceId::Main));
    assert_eq!(source.text(), "text");
}
