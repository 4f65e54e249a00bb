//! Lines of a document and the inline fragments of text lines.

use vstd::prelude::*;
use vstd::string::StringExecFns;
use crate::escape::{
    escape_hyphens, escape_hyphens_spec, escape_leading_cc, escape_spec, push_char,
    starts_with_period,
};

verus! {

/// A part of a text line.
///
/// The text is kept as the caller gave it; escaping happens when the line
/// is rendered. The text may contain newlines: a period or apostrophe that
/// follows one is escaped, so it never starts a control line.
#[derive(Debug, PartialEq, Eq, Clone)]
pub enum Inline {
    /// Text in the roman font, the normal font.
    Roman(String),
    /// Text in the italic font.
    Italic(String),
    /// Text in a bold face font.
    Bold(String),
    /// A hard line break.
    LineBreak,
}

/// The mathematical value of an [`Inline`].
pub enum InlineView {
    Roman(Seq<char>),
    Italic(Seq<char>),
    Bold(Seq<char>),
    LineBreak,
}

impl View for Inline {
    type V = InlineView;

    open spec fn view(&self) -> InlineView {
        match self {
            Inline::Roman(t) => InlineView::Roman(t@),
            Inline::Italic(t) => InlineView::Italic(t@),
            Inline::Bold(t) => InlineView::Bold(t@),
            Inline::LineBreak => InlineView::LineBreak,
        }
    }
}

/// Returns inline text in the roman font, the normal font.
pub fn roman(input: &str) -> (r: Inline)
    ensures
        r@ == InlineView::Roman(input@),
{
    Inline::Roman(String::from_str(input))
}

/// Returns inline text in the bold font.
pub fn bold(input: &str) -> (r: Inline)
    ensures
        r@ == InlineView::Bold(input@),
{
    Inline::Bold(String::from_str(input))
}

/// Returns inline text in the italic font.
pub fn italic(input: &str) -> (r: Inline)
    ensures
        r@ == InlineView::Italic(input@),
{
    Inline::Italic(String::from_str(input))
}

/// Returns an inline element for a hard line break.
pub fn line_break() -> (r: Inline)
    ensures
        r@ == InlineView::LineBreak,
{
    Inline::LineBreak
}

/// A line of a document.
#[derive(Debug, PartialEq, Eq, Clone)]
pub enum Line {
    /// A control line: a built-in request or a macro, with its arguments.
    Control { name: String, args: Vec<String> },
    /// A text line, made of inline elements.
    Text(Vec<Inline>),
}

/// The mathematical value of a [`Line`].
pub enum LineView {
    Control { name: Seq<char>, args: Seq<Seq<char>> },
    Text(Seq<InlineView>),
}

pub open spec fn string_views(v: Seq<String>) -> Seq<Seq<char>> {
    v.map_values(|s: String| s@)
}

pub open spec fn inline_views(v: Seq<Inline>) -> Seq<InlineView> {
    v.map_values(|i: Inline| i@)
}

impl View for Line {
    type V = LineView;

    open spec fn view(&self) -> LineView {
        match self {
            Line::Control { name, args } => LineView::Control {
                name: name@,
                args: string_views(args@),
            },
            Line::Text(items) => LineView::Text(inline_views(items@)),
        }
    }
}

/// Roman text as rendered: control characters after newlines and hyphens
/// escaped, and a leading period escaped when the text starts the line.
pub open spec fn roman_text(t: Seq<char>, at_line_start: bool) -> Seq<char> {
    let e = escape_hyphens_spec(escape_spec(t));
    if at_line_start && e.len() > 0 && e[0] == '.' {
        seq!['\\', '&'] + e
    } else {
        e
    }
}

/// The output of one inline element, given whether it starts the line.
pub open spec fn inline_text(item: InlineView, at_line_start: bool) -> Seq<char> {
    match item {
        InlineView::LineBreak => if at_line_start {
            seq!['.', 'b', 'r', '\n']
        } else {
            seq!['\n', '.', 'b', 'r', '\n']
        },
        InlineView::Roman(t) => roman_text(t, at_line_start),
        InlineView::Italic(t) => seq!['\\', 'f', 'I'] + escape_spec(t) + seq!['\\', 'f', 'R'],
        InlineView::Bold(t) => seq!['\\', 'f', 'B'] + escape_spec(t) + seq!['\\', 'f', 'R'],
    }
}

/// Item `i` of a text line starts an output line: it is the first item,
/// or it follows a line break.
pub open spec fn starts_line(items: Seq<InlineView>, i: int) -> bool {
    i == 0 || items[i - 1] is LineBreak
}

/// The output of the first `n` items of a text line.
pub open spec fn inlines_prefix(items: Seq<InlineView>, n: int) -> Seq<char>
    decreases n,
{
    if n <= 0 {
        Seq::empty()
    } else {
        inlines_prefix(items, n - 1) + inline_text(items[n - 1], starts_line(items, n - 1))
    }
}

/// The first `n` arguments of a control line, each after a space.
pub open spec fn args_prefix(args: Seq<Seq<char>>, n: int) -> Seq<char>
    decreases n,
{
    if n <= 0 {
        Seq::empty()
    } else {
        args_prefix(args, n - 1) + seq![' '] + args[n - 1]
    }
}

/// A rendered control line: the control character, the name, each
/// argument after a space, and a newline.
pub open spec fn control_text(name: Seq<char>, args: Seq<Seq<char>>) -> Seq<char> {
    seq!['.'] + name + args_prefix(args, args.len() as int) + seq!['\n']
}

/// The rendered text of a line, its newline included.
pub open spec fn render_line(l: LineView) -> Seq<char> {
    match l {
        LineView::Control { name, args } => control_text(name, args),
        LineView::Text(items) => inlines_prefix(items, items.len() as int) + seq!['\n'],
    }
}

/// Appends the output of one inline element to `out`.
fn render_inline(item: &Inline, at_line_start: bool, out: &mut String)
    ensures
        final(out)@ == old(out)@ + inline_text(item@, at_line_start),
{
    match item {
        Inline::LineBreak => {
            if !at_line_start {
                push_char(out, '\n');
            }
            push_char(out, '.');
            push_char(out, 'b');
            push_char(out, 'r');
            push_char(out, '\n');
            assert(final(out)@ =~= old(out)@ + inline_text(item@, at_line_start));
        },
        Inline::Roman(t) => {
            let escaped = escape_leading_cc(t.as_str());
            let e = escape_hyphens(escaped.as_str());
            if at_line_start && starts_with_period(e.as_str()) {
                push_char(out, '\\');
                push_char(out, '&');
            }
            out.append(e.as_str());
            assert(final(out)@ =~= old(out)@ + inline_text(item@, at_line_start));
        },
        Inline::Italic(t) => {
            let e = escape_leading_cc(t.as_str());
            push_char(out, '\\');
            push_char(out, 'f');
            push_char(out, 'I');
            out.append(e.as_str());
            push_char(out, '\\');
            push_char(out, 'f');
            push_char(out, 'R');
            assert(final(out)@ =~= old(out)@ + inline_text(item@, at_line_start));
        },
        Inline::Bold(t) => {
            let e = escape_leading_cc(t.as_str());
            push_char(out, '\\');
            push_char(out, 'f');
            push_char(out, 'B');
            out.append(e.as_str());
            push_char(out, '\\');
            push_char(out, 'f');
            push_char(out, 'R');
            assert(final(out)@ =~= old(out)@ + inline_text(item@, at_line_start));
        },
    }
}

impl Line {
    /// A control line with the given request or macro name and arguments.
    pub fn control(name: String, args: Vec<String>) -> (r: Line)
        ensures
            r@ == (LineView::Control { name: name@, args: string_views(args@) }),
    {
        Line::Control { name, args }
    }

    /// A text line made of the given inline elements.
    pub fn text(parts: Vec<Inline>) -> (r: Line)
        ensures
            r@ == LineView::Text(inline_views(parts@)),
    {
        Line::Text(parts)
    }

    /// A cross reference to another manual page: `.Xr title section`.
    pub fn cross_reference(title: String, section: String) -> (r: Line)
        ensures
            r@ == (LineView::Control {
                name: seq!['X', 'r'],
                args: seq![title@, section@],
            }),
    {
        let mut name = String::new();
        push_char(&mut name, 'X');
        push_char(&mut name, 'r');
        assert(name@ =~= seq!['X', 'r']);
        let mut args: Vec<String> = Vec::new();
        args.push(title);
        args.push(section);
        let r = Line::Control { name, args };
        assert(string_views(args@) =~= seq![title@, section@]);
        r
    }

    /// Appends the rendered line to `out`.
    pub fn render_into(&self, out: &mut String)
        ensures
            final(out)@ == old(out)@ + render_line(self@),
    {
        match self {
            Line::Control { name, args } => {
                push_char(out, '.');
                out.append(name.as_str());
                let ghost start = out@;
                let mut i: usize = 0;
                while i < args.len()
                    invariant
                        i <= args.len(),
                        out@ == start + args_prefix(string_views(args@), i as int),
                    decreases args.len() - i,
                {
                    push_char(out, ' ');
                    out.append(args[i].as_str());
                    assert(out@ =~= start + args_prefix(string_views(args@), i + 1));
                    i = i + 1;
                }
                push_char(out, '\n');
                assert(final(out)@ =~= old(out)@ + render_line(self@));
            },
            Line::Text(items) => {
                let ghost start = out@;
                let ghost views = inline_views(items@);
                let mut at_line_start = true;
                let mut i: usize = 0;
                while i < items.len()
                    invariant
                        i <= items.len(),
                        views == inline_views(items@),
                        at_line_start == starts_line(views, i as int),
                        out@ == start + inlines_prefix(views, i as int),
                    decreases items.len() - i,
                {
                    render_inline(&items[i], at_line_start, out);
                    at_line_start = match &items[i] {
                        Inline::LineBreak => true,
                        _ => false,
                    };
                    assert(out@ =~= start + inlines_prefix(views, i + 1));
                    i = i + 1;
                }
                push_char(out, '\n');
                assert(final(out)@ =~= old(out)@ + render_line(self@));
            },
        }
    }

    /// The rendered line, its newline included.
    pub fn render(&self) -> (r: String)
        ensures
            r@ == render_line(self@),
    {
        let mut out = String::new();
        self.render_into(&mut out);
        assert(out@ =~= render_line(self@));
        out
    }
}

} // verus!
