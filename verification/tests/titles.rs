use notes_api::utilities::notes::get_title;

#[test]
fn markdown_without_title() {
    assert_eq!(get_title("hello \r\n hey"), None);
    assert_eq!(get_title("## hello \r\n hey"), None);
    assert_eq!(get_title("##hello \r\n hey"), None);
    assert_eq!(get_title(" ## hello \r\n hey"), None);
    assert_eq!(get_title(" ##hello \r\n hey"), None);
}

#[test]
fn markdown_with_title() {
    assert_eq!(get_title("# hello"), Some("hello"));
    assert_eq!(get_title("#hello"), Some("hello"));
    assert_eq!(get_title(" # hello"), Some("hello"));
    assert_eq!(get_title(" #hello"), Some("hello"));
    assert_eq!(get_title("# hello \r\n hey"), Some("hello"));
    assert_eq!(get_title("#hello \r\n hey"), Some("hello"));
    assert_eq!(get_title(" # hello \r\n hey"), Some("hello"));
    assert_eq!(get_title(" #hello \r\n hey"), Some("hello"));
}

#[test]
fn markdown_title_unicode_whitespace() {
    // The trim strips every Unicode white-space character, as str::trim does.
    assert_eq!(get_title("\u{B}# hello"), Some("hello"));
    assert_eq!(get_title("\u{C}#\u{A0}hello\u{2003}"), Some("hello"));
    assert_eq!(get_title("\u{2028}#\thello"), Some("hello"));
    assert_eq!(get_title("\u{A0}hello"), None);
    assert_eq!(get_title("#\u{3000}"), None);
}

#[test]
fn markdown_title_edges() {
    assert_eq!(get_title(""), None);
    assert_eq!(get_title("#"), None);
    assert_eq!(get_title("#   "), None);
    assert_eq!(get_title("   "), None);
    assert_eq!(get_title("\n# hello"), None);
    assert_eq!(get_title("# hello\n# goodbye"), Some("hello"));
    assert_eq!(get_title("#\thello"), Some("hello"));
}
