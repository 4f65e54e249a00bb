use mdoc::{
    bold, escape_hyphens, escape_leading_cc, italic, line_break, roman, starts_with_period, Arch,
    CommandOption, CommandSummary, Day, Description, DocumentDate, DocumentTitle, Inline, Line,
    Mdoc, Month, Name, OperatingSystem, Section, System, Title, Version, Year,
};
use mdoc::command::split_spaces;
use mdoc::escape::quote_argument;

fn plain_title() -> DocumentTitle {
    DocumentTitle { title: Title::new("test"), section: Section::new("1"), arch: None }
}

#[test]
fn escape_leaves_clean_text_alone() {
    let t = "a. b 'c\nd.e\n-f";
    assert_eq!(escape_leading_cc(t), t);
}

#[test]
fn escape_twice_is_escape_once() {
    let once = escape_leading_cc("x\n.y\n'z\n\n.w");
    assert_eq!(once, "x\n\\&.y\n\\&'z\n\n\\&.w");
    assert_eq!(escape_leading_cc(&once), once);
}

#[test]
fn escape_of_empty_text() {
    assert_eq!(escape_leading_cc(""), "");
}

#[test]
fn period_detection() {
    assert!(starts_with_period(".x"));
    assert!(!starts_with_period(""));
    assert!(!starts_with_period("'x"));
    assert!(!starts_with_period("x."));
}

#[test]
fn hyphens_are_escaped() {
    assert_eq!(escape_hyphens("-a--b"), "\\-a\\-\\-b");
}

#[test]
fn header_without_date_or_os() {
    let m = Mdoc::new(None, plain_title(), Name::new("name"), Description::new("one line"), None);
    assert_eq!(m.line_count(), 6);
    assert_eq!(
        m.render(),
        ".Dd $Mdocdate$\n.Dt test 1\n.Os\n.Sh NAME\n.Nm name\n.Nd one line\n"
    );
}

#[test]
fn header_with_every_field() {
    let date = DocumentDate { month: Month::new("May"), day: Day::new("4"), year: Year::new("2024") };
    let title = DocumentTitle {
        title: Title::new("FOO"),
        section: Section::new("8"),
        arch: Some(Arch::new("amd64")),
    };
    let os = OperatingSystem { system: System::new("OpenBSD"), version: Some(Version::new("7.5")) };
    let mut m = Mdoc::new(Some(date), title, Name::new("foo"), Description::new("does foo"), Some(os));
    m.text(vec![roman("body")]);
    let out = m.render();
    assert!(out.starts_with(
        ".Dd May 4 2024\n.Dt FOO 8 amd64\n.Os OpenBSD 7.5\n.Sh NAME\n.Nm foo\n.Nd does foo\n"
    ));
    assert!(out.ends_with("\nbody\n"));
    assert_eq!(out.lines().count(), 7);
}

#[test]
fn render_is_repeatable() {
    let mut m = Mdoc::new(None, plain_title(), Name::new("n"), Description::new("d"), None);
    m.text(vec![roman("a-b"), bold("c")]);
    assert_eq!(m.render(), m.render());
    assert_eq!(m.render(), m.to_mdoc());
}

#[test]
fn concatenation_adds_line_counts() {
    let a = Mdoc::new(None, plain_title(), Name::new("a"), Description::new("d"), None);
    let mut b = Mdoc::default();
    b.text(vec![roman("x")]).text(vec![roman("y")]);
    let (na, nb) = (a.line_count(), b.line_count());
    let c = Mdoc::from_iter(vec![a, b]);
    assert_eq!(c.line_count(), na + nb);
    assert_eq!(c.line_count(), 8);

    let mut d = Mdoc::from_inline(roman("first"));
    d.extend(vec![Mdoc::from_inline(italic("second")), Mdoc::default()]);
    assert_eq!(d.line_count(), 2);
    assert_eq!(d.render(), "first\n\\fIsecond\\fR\n");
}

#[test]
fn period_after_line_break_is_escaped() {
    let text = Mdoc::default().text(vec![roman("a"), line_break(), roman(".b")]).render();
    assert_eq!(text, "a\n.br\n\\&.b\n");
}

#[test]
fn line_break_at_start_has_no_blank_line() {
    let text = Mdoc::default().text(vec![line_break(), roman("x")]).render();
    assert_eq!(text, ".br\nx\n");
}

#[test]
fn period_not_at_line_start_is_kept() {
    let text = Mdoc::default().text(vec![roman("a"), roman(".b")]).render();
    assert_eq!(text, "a.b\n");
}

#[test]
fn bold_and_italic_escape_embedded_control_chars() {
    let text = Mdoc::default().text(vec![bold("a\n.b"), italic("c\n'd-e")]).render();
    assert_eq!(text, "\\fBa\n\\&.b\\fR\\fIc\n\\&'d-e\\fR\n");
}

#[test]
fn empty_text_line_is_blank() {
    assert_eq!(Mdoc::default().text(vec![]).render(), "\n");
}

#[test]
fn control_without_arguments() {
    assert_eq!(Mdoc::default().control("Os".to_string(), &[]).render(), ".Os\n");
}

#[test]
fn arguments_with_blanks_are_quoted() {
    assert_eq!(quote_argument("a\tb"), "\"a\tb\"");
    assert_eq!(quote_argument("ab"), "ab");
    assert_eq!(quote_argument(""), "");
}

#[test]
fn line_renders_directly() {
    let l = Line::control("Fl".to_string(), vec!["v".to_string(), "x y".to_string()]);
    assert_eq!(l.render(), ".Fl v x y\n");
    assert_eq!(Line::text(vec![Inline::Roman("z".to_string())]).render(), "z\n");
    assert_eq!(Line::cross_reference("ls".to_string(), "1".to_string()).render(), ".Xr ls 1\n");
}

#[test]
fn section_heading_is_upper_cased() {
    let mut m = Mdoc::default();
    m.add_section("see also", vec![Line::cross_reference("ls".to_string(), "1".to_string())]);
    assert_eq!(m.render(), ".Sh SEE ALSO\n.Xr ls 1\n");
    let mut n = Mdoc::default();
    n.push_section("Mixed".to_string(), vec![]);
    assert_eq!(n.render(), ".Sh Mixed\n");
}

#[test]
fn split_keeps_empty_pieces() {
    assert_eq!(split_spaces("a  b"), vec!["a".to_string(), String::new(), "b".to_string()]);
    assert_eq!(split_spaces(""), vec![String::new()]);
}

#[test]
fn page_from_command_summary() {
    let cmd = CommandSummary {
        name: "tool".to_string(),
        display_name: None,
        bin_name: Some("tool-bin".to_string()),
        about: Some("does things".to_string()),
        author: Some("Ada Lovelace".to_string()),
        options: vec![
            CommandOption {
                long: Some("output".to_string()),
                short: Some('o'),
                required: true,
                sets_value: true,
                value_name: Some("FILE".to_string()),
            },
            CommandOption {
                long: None,
                short: Some('n'),
                required: false,
                sets_value: true,
                value_name: None,
            },
            CommandOption {
                long: None,
                short: None,
                required: false,
                sets_value: false,
                value_name: None,
            },
            CommandOption {
                long: Some("tag".to_string()),
                short: None,
                required: false,
                sets_value: false,
                value_name: None,
            },
        ],
    };
    let m = Mdoc::from_command(&cmd);
    assert_eq!(
        m.render(),
        ".Dd $Mdocdate$\n.Dt tool 1\n.Os\n.Sh NAME\n.Nm tool-bin\n.Nd does things\n\
         .Sh SYNOPSIS\n.Nm\n.Fl -output | o Ar FILE\n.Op Fl n Ar VALUE\n.Op Fl -tag\n\
         .Sh DESCRIPTION\n.Sh AUTHORS\n.An Ada Lovelace\n"
    );
}
