use typst_pdf_api::text::join;

fn strings(parts: &[&str]) -> Vec<String> {
    parts.iter().map(|part| part.to_string()).collect()
}

#[test]
fn nothing_joins_to_nothing() {
    assert_eq!(join(&Vec::new(), ", "), "");
}

#[test]
fn one_piece_stands_alone() {
    assert_eq!(join(&strings(&["alone"]), ", "), "alone");
}

#[test]
fn the_separator_stands_between_neighbours_only() {
    assert_eq!(join(&strings(&["a", "b", "c"]), ", "), "a, b, c");
    assert_eq!(join(&strings(&["a", "b"]), ""), "ab");
    assert_eq!(join(&strings(&["a", "b"]), ",\n    "), "a,\n    b");
}

#[test]
fn empty_pieces_are_pieces() {
    assert_eq!(join(&strings(&["", ""]), "-"), "-");
    assert_eq!(join(&strings(&["", "a", ""]), "-"), "-a-");
    assert_eq!(join(&strings(&[""]), "-"), "");
}
