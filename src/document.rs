//! Whole documents: front matter, the mandatory header, and the lines after it.

use vstd::prelude::*;
use vstd::string::StringExecFns;
use crate::escape::{quote_argument, quote_spec};
use crate::line::control_text;
use crate::line::{inline_views, render_line, string_views, Inline, Line, LineView};

verus! {

/// Month of the document date.
#[derive(Debug, PartialEq, Eq, Clone, Default)]
pub struct Month(pub String);

/// Day of the document date.
#[derive(Debug, PartialEq, Eq, Clone, Default)]
pub struct Day(pub String);

/// Year of the document date.
#[derive(Debug, PartialEq, Eq, Clone, Default)]
pub struct Year(pub String);

/// Display name of the manual page.
#[derive(Debug, PartialEq, Eq, Clone, Default)]
pub struct Title(pub String);

/// Manual section of the page.
#[derive(Debug, PartialEq, Eq, Clone, Default)]
pub struct Section(pub String);

/// Machine architecture that the page is specific to.
#[derive(Debug, PartialEq, Eq, Clone, Default)]
pub struct Arch(pub String);

/// Name of the operating system.
#[derive(Debug, PartialEq, Eq, Clone, Default)]
pub struct System(pub String);

/// Version of the operating system.
#[derive(Debug, PartialEq, Eq, Clone, Default)]
pub struct Version(pub String);

/// Name of the documented program.
#[derive(Debug, PartialEq, Eq, Clone, Default)]
pub struct Name(pub String);

/// One-line description of the documented program.
#[derive(Debug, PartialEq, Eq, Clone, Default)]
pub struct Description(pub String);

impl Month {
    pub fn new(s: &str) -> (r: Self)
        ensures
            r.0@ == s@,
    {
        Month(String::from_str(s))
    }
}

impl Day {
    pub fn new(s: &str) -> (r: Self)
        ensures
            r.0@ == s@,
    {
        Day(String::from_str(s))
    }
}

impl Year {
    pub fn new(s: &str) -> (r: Self)
        ensures
            r.0@ == s@,
    {
        Year(String::from_str(s))
    }
}

impl Title {
    pub fn new(s: &str) -> (r: Self)
        ensures
            r.0@ == s@,
    {
        Title(String::from_str(s))
    }
}

impl Section {
    pub fn new(s: &str) -> (r: Self)
        ensures
            r.0@ == s@,
    {
        Section(String::from_str(s))
    }
}

impl Arch {
    pub fn new(s: &str) -> (r: Self)
        ensures
            r.0@ == s@,
    {
        Arch(String::from_str(s))
    }
}

impl System {
    pub fn new(s: &str) -> (r: Self)
        ensures
            r.0@ == s@,
    {
        System(String::from_str(s))
    }
}

impl Version {
    pub fn new(s: &str) -> (r: Self)
        ensures
            r.0@ == s@,
    {
        Version(String::from_str(s))
    }
}

impl Name {
    pub fn new(s: &str) -> (r: Self)
        ensures
            r.0@ == s@,
    {
        Name(String::from_str(s))
    }
}

impl Description {
    pub fn new(s: &str) -> (r: Self)
        ensures
            r.0@ == s@,
    {
        Description(String::from_str(s))
    }
}

/// Publication date of a document.
#[derive(Debug, PartialEq, Eq, Clone, Default)]
pub struct DocumentDate {
    pub month: Month,
    pub day: Day,
    pub year: Year,
}

/// Title of a document: display name, manual section, and an optional
/// architecture.
#[derive(Debug, PartialEq, Eq, Clone, Default)]
pub struct DocumentTitle {
    pub title: Title,
    pub section: Section,
    pub arch: Option<Arch>,
}

/// Operating system that a document belongs to.
#[derive(Debug, PartialEq, Eq, Clone, Default)]
pub struct OperatingSystem {
    pub system: System,
    pub version: Option<Version>,
}

/// An **mdoc** document: front matter and an ordered sequence of lines.
#[derive(Debug, PartialEq, Eq)]
pub struct Mdoc {
    pub date: Option<DocumentDate>,
    pub title: DocumentTitle,
    pub os: Option<OperatingSystem>,
    pub name: Name,
    pub description: Description,
    pub lines: Vec<Line>,
}

pub open spec fn line_views(v: Seq<Line>) -> Seq<LineView> {
    v.map_values(|l: Line| l@)
}

impl View for Mdoc {
    type V = Seq<LineView>;

    open spec fn view(&self) -> Seq<LineView> {
        line_views(self.lines@)
    }
}

/// The placeholder date `$Mdocdate$`, which version control fills in.
pub open spec fn mdocdate_placeholder() -> Seq<char> {
    seq!['$', 'M', 'd', 'o', 'c', 'd', 'a', 't', 'e', '$']
}

pub open spec fn date_args(date: Option<DocumentDate>) -> Seq<Seq<char>> {
    match date {
        Some(d) => seq![d.month.0@, d.day.0@, d.year.0@],
        None => seq![mdocdate_placeholder()],
    }
}

pub open spec fn title_args(t: DocumentTitle) -> Seq<Seq<char>> {
    match t.arch {
        Some(a) => seq![t.title.0@, t.section.0@, a.0@],
        None => seq![t.title.0@, t.section.0@],
    }
}

pub open spec fn os_args(os: Option<OperatingSystem>) -> Seq<Seq<char>> {
    match os {
        Some(o) => match o.version {
            Some(v) => seq![o.system.0@, v.0@],
            None => seq![o.system.0@],
        },
        None => Seq::empty(),
    }
}

/// The six header lines that every constructed document starts with.
pub open spec fn header_lines(
    date: Option<DocumentDate>,
    title: DocumentTitle,
    name: Name,
    description: Description,
    os: Option<OperatingSystem>,
) -> Seq<LineView> {
    seq![
        LineView::Control { name: seq!['D', 'd'], args: date_args(date) },
        LineView::Control { name: seq!['D', 't'], args: title_args(title) },
        LineView::Control { name: seq!['O', 's'], args: os_args(os) },
        LineView::Control { name: seq!['S', 'h'], args: seq![seq!['N', 'A', 'M', 'E']] },
        LineView::Control { name: seq!['N', 'm'], args: seq![name.0@] },
        LineView::Control { name: seq!['N', 'd'], args: seq![description.0@] },
    ]
}

/// The rendered text of a sequence of lines.
pub open spec fn render_lines(ls: Seq<LineView>) -> Seq<char>
    decreases ls.len(),
{
    if ls.len() == 0 {
        Seq::empty()
    } else {
        render_lines(ls.drop_last()) + render_line(ls.last())
    }
}

/// Lines of several documents, one after the other.
pub open spec fn lines_of_docs(docs: Seq<Mdoc>) -> Seq<LineView>
    decreases docs.len(),
{
    if docs.len() == 0 {
        Seq::empty()
    } else {
        lines_of_docs(docs.drop_last()) + docs.last()@
    }
}

/// The rendered header: the text that every constructed document starts with.
pub open spec fn header_text(
    date: Option<DocumentDate>,
    title: DocumentTitle,
    name: Name,
    description: Description,
    os: Option<OperatingSystem>,
) -> Seq<char> {
    control_text(seq!['D', 'd'], date_args(date)) + control_text(seq!['D', 't'], title_args(title))
        + control_text(seq!['O', 's'], os_args(os)) + control_text(
        seq!['S', 'h'],
        seq![seq!['N', 'A', 'M', 'E']],
    ) + control_text(seq!['N', 'm'], seq![name.0@]) + control_text(
        seq!['N', 'd'],
        seq![description.0@],
    )
}

/// Rendering lines one after the other renders each part in turn.
pub proof fn lemma_render_concat(a: Seq<LineView>, b: Seq<LineView>)
    ensures
        render_lines(a + b) == render_lines(a) + render_lines(b),
    decreases b.len(),
{
    if b.len() == 0 {
        assert(a + b =~= a);
    } else {
        lemma_render_concat(a, b.drop_last());
        assert((a + b).drop_last() =~= a + b.drop_last());
        assert((a + b).last() == b.last());
    }
}

proof fn lemma_render_step(ls: Seq<LineView>, k: int)
    requires
        0 <= k < ls.len(),
    ensures
        render_lines(ls.subrange(0, k + 1)) == render_lines(ls.subrange(0, k)) + render_line(ls[k]),
{
    assert(ls.subrange(0, k + 1).drop_last() =~= ls.subrange(0, k));
    assert(ls.subrange(0, k + 1).last() == ls[k]);
}

/// A document built by [`Mdoc::new`], with any lines appended after its
/// header, renders to text that starts with the six header lines.
pub proof fn lemma_header_rendered(
    date: Option<DocumentDate>,
    title: DocumentTitle,
    name: Name,
    description: Description,
    os: Option<OperatingSystem>,
    rest: Seq<LineView>,
)
    ensures
        render_lines(header_lines(date, title, name, description, os) + rest) == header_text(
            date,
            title,
            name,
            description,
            os,
        ) + render_lines(rest),
{
    let h = header_lines(date, title, name, description, os);
    lemma_render_concat(h, rest);
    lemma_render_step(h, 0);
    lemma_render_step(h, 1);
    lemma_render_step(h, 2);
    lemma_render_step(h, 3);
    lemma_render_step(h, 4);
    lemma_render_step(h, 5);
    assert(h.subrange(0, 0).len() == 0);
    assert(render_lines(h.subrange(0, 1)) =~= render_line(h[0]));
    assert(h.subrange(0, 6) =~= h);
    assert(render_lines(h) == header_text(date, title, name, description, os));
}

/// Concatenating two documents keeps the lines of both, in order, so the
/// line count of the result is the sum of theirs.
pub proof fn lemma_concat_line_count(d1: Mdoc, d2: Mdoc)
    ensures
        lines_of_docs(seq![d1, d2]) == d1@ + d2@,
        lines_of_docs(seq![d1, d2]).len() == d1@.len() + d2@.len(),
{
    let ds = seq![d1, d2];
    assert(ds.drop_last() =~= seq![d1]);
    assert(seq![d1].drop_last() =~= Seq::<Mdoc>::empty());
    assert(lines_of_docs(Seq::<Mdoc>::empty()) == Seq::<LineView>::empty());
    assert(seq![d1].last() == d1);
    assert(lines_of_docs(seq![d1]) =~= d1@);
    assert(lines_of_docs(ds) =~= d1@ + d2@);
}

/// Both documents have the same front matter.
pub open spec fn same_front_matter(a: Mdoc, b: Mdoc) -> bool {
    a.date == b.date && a.title == b.title && a.os == b.os && a.name == b.name
        && a.description == b.description
}

/// The arguments of a control line appended by [`Mdoc::control`].
pub open spec fn quoted_args(args: Seq<&str>) -> Seq<Seq<char>> {
    args.map_values(|a: &str| quote_spec(a@))
}

/// What `str::to_uppercase` returns for the given characters.
pub uninterp spec fn upper_of(s: Seq<char>) -> Seq<char>;

/// Relies on `str::to_uppercase`: the upper-case form of the text, which
/// depends on the characters alone.
#[verifier::external_body]
fn uppercase(s: &str) -> (r: String)
    ensures
        r@ == upper_of(s@),
{
    s.to_uppercase()
}

impl Default for Mdoc {
    /// A document with empty front matter and no lines.
    fn default() -> (r: Mdoc)
        ensures
            r@.len() == 0,
    {
        Mdoc {
            date: None,
            title: DocumentTitle {
                title: Title(String::new()),
                section: Section(String::new()),
                arch: None,
            },
            os: None,
            name: Name(String::new()),
            description: Description(String::new()),
            lines: Vec::new(),
        }
    }
}

impl Mdoc {
    /// A document whose lines are the six header lines built from the
    /// front matter: `Dd`, `Dt`, `Os`, `Sh NAME`, `Nm` and `Nd`.
    pub fn new(
        date: Option<DocumentDate>,
        title: DocumentTitle,
        name: Name,
        description: Description,
        os: Option<OperatingSystem>,
    ) -> (r: Mdoc)
        ensures
            r@ == header_lines(date, title, name, description, os),
            r.date == date,
            r.title == title,
            r.os == os,
            r.name == name,
            r.description == description,
    {
        proof {
            reveal_strlit("Dd");
            reveal_strlit("Dt");
            reveal_strlit("Os");
            reveal_strlit("Sh");
            reveal_strlit("Nm");
            reveal_strlit("Nd");
            reveal_strlit("NAME");
            reveal_strlit("$Mdocdate$");
            assert("Dd"@ =~= seq!['D', 'd']);
            assert("Dt"@ =~= seq!['D', 't']);
            assert("Os"@ =~= seq!['O', 's']);
            assert("Sh"@ =~= seq!['S', 'h']);
            assert("Nm"@ =~= seq!['N', 'm']);
            assert("Nd"@ =~= seq!['N', 'd']);
            assert("NAME"@ =~= seq!['N', 'A', 'M', 'E']);
            assert("$Mdocdate$"@ =~= mdocdate_placeholder());
        }
        let mut lines: Vec<Line> = Vec::new();

        let mut dd: Vec<String> = Vec::new();
        match &date {
            Some(d) => {
                dd.push(d.month.0.clone());
                dd.push(d.day.0.clone());
                dd.push(d.year.0.clone());
            },
            None => {
                dd.push(String::from_str("$Mdocdate$"));
            },
        }
        assert(string_views(dd@) =~= date_args(date));
        lines.push(Line::control(String::from_str("Dd"), dd));

        let mut dt: Vec<String> = Vec::new();
        dt.push(title.title.0.clone());
        dt.push(title.section.0.clone());
        match &title.arch {
            Some(a) => {
                dt.push(a.0.clone());
            },
            None => {},
        }
        assert(string_views(dt@) =~= title_args(title));
        lines.push(Line::control(String::from_str("Dt"), dt));

        let mut os_line: Vec<String> = Vec::new();
        match &os {
            Some(o) => {
                os_line.push(o.system.0.clone());
                match &o.version {
                    Some(v) => {
                        os_line.push(v.0.clone());
                    },
                    None => {},
                }
            },
            None => {},
        }
        assert(string_views(os_line@) =~= os_args(os));
        lines.push(Line::control(String::from_str("Os"), os_line));

        let mut sh: Vec<String> = Vec::new();
        sh.push(String::from_str("NAME"));
        assert(string_views(sh@) =~= seq![seq!['N', 'A', 'M', 'E']]);
        lines.push(Line::control(String::from_str("Sh"), sh));

        let mut nm: Vec<String> = Vec::new();
        nm.push(name.0.clone());
        assert(string_views(nm@) =~= seq![name.0@]);
        lines.push(Line::control(String::from_str("Nm"), nm));

        let mut nd: Vec<String> = Vec::new();
        nd.push(description.0.clone());
        assert(string_views(nd@) =~= seq![description.0@]);
        lines.push(Line::control(String::from_str("Nd"), nd));

        let r = Mdoc { date, title, os, name, description, lines };
        assert(r@ =~= header_lines(date, title, name, description, os));
        r
    }

    /// Renders the document as **mdoc** source: each line rendered, in order.
    pub fn render(&self) -> (r: String)
        ensures
            r@ == render_lines(self@),
    {
        let mut out = String::new();
        let mut i: usize = 0;
        while i < self.lines.len()
            invariant
                i <= self.lines.len(),
                out@ == render_lines(self@.subrange(0, i as int)),
            decreases self.lines.len() - i,
        {
            self.lines[i].render_into(&mut out);
            assert(self@.subrange(0, i + 1).drop_last() =~= self@.subrange(0, i as int));
            i = i + 1;
        }
        assert(self@.subrange(0, self.lines.len() as int) =~= self@);
        out
    }

    /// Renders the document as **mdoc** source; the same text as
    /// [`Mdoc::render`].
    pub fn to_mdoc(&self) -> (r: String)
        ensures
            r@ == render_lines(self@),
    {
        self.render()
    }

    /// The number of lines of the document.
    pub fn line_count(&self) -> (r: usize)
        ensures
            r == self@.len(),
    {
        self.lines.len()
    }

    /// Appends a control line. Each argument that holds a space or a tab
    /// is enclosed in double quotes.
    pub fn control(&mut self, name: String, args: &[&str]) -> (r: &mut Mdoc)
        ensures
            (*r)@ == old(self)@.push(LineView::Control { name: name@, args: quoted_args(args@) }),
            same_front_matter(*r, *old(self)),
            *final(self) == *final(r),
    {
        let mut v: Vec<String> = Vec::new();
        let mut i: usize = 0;
        while i < args.len()
            invariant
                i <= args.len(),
                v@.len() == i,
                string_views(v@) == quoted_args(args@).subrange(0, i as int),
            decreases args.len() - i,
        {
            let q = quote_argument(args[i]);
            assert(quoted_args(args@)[i as int] == quote_spec(args@[i as int]@));
            v.push(q);
            assert(v@[i as int] == q);
            assert(string_views(v@) =~= quoted_args(args@).subrange(0, i + 1));
            i = i + 1;
        }
        assert(quoted_args(args@).subrange(0, args@.len() as int) =~= quoted_args(args@));
        self.lines.push(Line::control(name, v));
        assert(self@ =~= old(self)@.push(LineView::Control { name: name@, args: quoted_args(args@) }));
        self
    }

    /// Appends a text line. The line is rendered so that it cannot be taken
    /// for a control line.
    pub fn text(&mut self, inlines: Vec<Inline>) -> (r: &mut Mdoc)
        ensures
            (*r)@ == old(self)@.push(LineView::Text(inline_views(inlines@))),
            same_front_matter(*r, *old(self)),
            *final(self) == *final(r),
    {
        self.lines.push(Line::text(inlines));
        assert(self@ =~= old(self)@.push(LineView::Text(inline_views(inlines@))));
        self
    }

    /// Appends a section heading `.Sh heading`, with the heading as given,
    /// followed by the lines.
    pub fn push_section(&mut self, heading: String, lines: Vec<Line>)
        ensures
            final(self)@ == old(self)@.push(
                LineView::Control { name: seq!['S', 'h'], args: seq![heading@] },
            ) + line_views(lines@),
            same_front_matter(*final(self), *old(self)),
    {
        proof {
            reveal_strlit("Sh");
            assert("Sh"@ =~= seq!['S', 'h']);
        }
        let mut args: Vec<String> = Vec::new();
        args.push(heading);
        assert(string_views(args@) =~= seq![heading@]);
        self.lines.push(Line::control(String::from_str("Sh"), args));
        let mut lines = lines;
        let ghost added = lines@;
        self.lines.append(&mut lines);
        assert(self@ =~= old(self)@.push(
            LineView::Control { name: seq!['S', 'h'], args: seq![heading@] },
        ) + line_views(added));
    }

    /// Appends a section: its heading in upper case, then the lines.
    pub fn add_section(&mut self, title: &str, lines: Vec<Line>)
        ensures
            final(self)@ == old(self)@.push(
                LineView::Control { name: seq!['S', 'h'], args: seq![upper_of(title@)] },
            ) + line_views(lines@),
            same_front_matter(*final(self), *old(self)),
    {
        let heading = uppercase(title);
        self.push_section(heading, lines);
    }

    /// Appends the lines of each document, in order. A document's header
    /// lines are part of its lines and are appended too.
    pub fn extend(&mut self, docs: Vec<Mdoc>)
        ensures
            final(self)@ == old(self)@ + lines_of_docs(docs@),
            same_front_matter(*final(self), *old(self)),
    {
        let ghost orig = docs@;
        let ghost before = self@;
        let mut docs = docs;
        let ghost mut k: int = 0;
        while docs.len() > 0
            invariant
                0 <= k <= orig.len(),
                docs@ == orig.subrange(k, orig.len() as int),
                self@ == before + lines_of_docs(orig.subrange(0, k)),
                same_front_matter(*self, *old(self)),
            decreases docs.len(),
        {
            let mut d = docs.remove(0);
            let ghost added = d.lines@;
            let ghost mid = self.lines@;
            assert(d == orig[k]);
            self.lines.append(&mut d.lines);
            proof {
                assert(line_views(mid + added) =~= line_views(mid) + line_views(added));
                assert(orig.subrange(0, k + 1).drop_last() =~= orig.subrange(0, k));
                assert(orig.subrange(0, k + 1).last() == orig[k]);
                assert(docs@ =~= orig.subrange(k + 1, orig.len() as int));
                k = k + 1;
            }
            assert(self@ =~= before + lines_of_docs(orig.subrange(0, k)));
        }
        assert(orig.subrange(0, k) =~= orig);
    }

    /// A document with empty front matter whose lines are those of each
    /// document, in order.
    pub fn from_iter(docs: Vec<Mdoc>) -> (r: Mdoc)
        ensures
            r@ == lines_of_docs(docs@),
    {
        let mut r = Mdoc::default();
        r.extend(docs);
        assert(r@ =~= lines_of_docs(docs@));
        r
    }

    /// A document with empty front matter and one text line holding the
    /// inline element.
    pub fn from_inline(item: Inline) -> (r: Mdoc)
        ensures
            r@ == seq![LineView::Text(seq![item@])],
    {
        let mut r = Mdoc::default();
        let mut v: Vec<Inline> = Vec::new();
        v.push(item);
        r.text(v);
        assert(inline_views(v@) =~= seq![item@]);
        assert(r@ =~= seq![LineView::Text(seq![item@])]);
        r
    }
}

} // verus!
