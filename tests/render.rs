use mdoc::{bold, escape_leading_cc, italic, roman, Inline, Mdoc};

#[test]
fn test_escapes_leading_control_chars() {
    assert_eq!("foo\n\\&.bar\n\\&'yo", escape_leading_cc("foo\n.bar\n'yo"));
}

#[test]
fn test_render_roman() {
    let text = Mdoc::default().text(vec![roman("foo")]).to_mdoc();
    assert_eq!(text, "foo\n");
}

#[test]
fn test_render_dash() {
    let text = Mdoc::default().text(vec![roman("foo-bar")]).to_mdoc();
    assert_eq!(text, "foo\\-bar\n");
}

#[test]
fn test_render_italic() {
    let text = Mdoc::default().text(vec![italic("foo")]).to_mdoc();
    assert_eq!(text, "\\fIfoo\\fR\n");
}

#[test]
fn test_render_bold() {
    let text = Mdoc::default().text(vec![bold("foo")]).to_mdoc();
    assert_eq!(text, "\\fBfoo\\fR\n");
}

#[test]
fn test_render_text() {
    let text = Mdoc::default().text(vec![roman("roman")]).to_mdoc();
    assert_eq!(text, "roman\n");
}

#[test]
fn test_render_text_with_leading_period() {
    let text = Mdoc::default().text(vec![roman(".roman")]).to_mdoc();
    assert_eq!(text, "\\&.roman\n");
}

#[test]
fn test_render_text_with_newline_period() {
    let text = Mdoc::default().text(vec![roman("foo\n.roman")]).to_mdoc();
    assert_eq!(text, "foo\n\\&.roman\n");
}

#[test]
fn test_render_line_break() {
    let text = Mdoc::default()
        .text(vec![roman("roman"), Inline::LineBreak, roman("more")])
        .to_mdoc();
    assert_eq!(text, "roman\n.br\nmore\n");
}

#[test]
fn test_render_control() {
    let text = Mdoc::default()
        .control("foo".into(), &["bar", "foo and bar"])
        .to_mdoc();
    assert_eq!(text, ".foo bar \"foo and bar\"\n");
}
