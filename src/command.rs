//! A starter manual page derived from a command-line interface description.

use vstd::prelude::*;
use vstd::string::StringExecFns;
use crate::escape::{chars_of, push_char, quote_spec};
use crate::document::{header_lines, quoted_args, same_front_matter, Mdoc};
use crate::document::{Description, DocumentTitle, Name, Section, Title};
use crate::line::LineView;

verus! {

/// An option of a command-line interface that takes a value.
#[derive(Debug, PartialEq, Eq, Clone)]
pub struct CommandOption {
    /// The long spelling, without the leading dashes.
    pub long: Option<String>,
    /// The short spelling, without the leading dash.
    pub short: Option<char>,
    /// Must the option be given?
    pub required: bool,
    /// Does the option store one value given after it?
    pub sets_value: bool,
    /// The first name given to the option's value, if any.
    pub value_name: Option<String>,
}

/// What a manual page is derived from: a command's names, its description,
/// its author and its options that take values.
#[derive(Debug, PartialEq, Eq, Clone)]
pub struct CommandSummary {
    pub name: String,
    pub display_name: Option<String>,
    pub bin_name: Option<String>,
    pub about: Option<String>,
    pub author: Option<String>,
    pub options: Vec<CommandOption>,
}

pub open spec fn or_name(s: Option<String>, name: Seq<char>) -> Seq<char> {
    match s {
        Some(v) => v@,
        None => name,
    }
}

pub open spec fn flag_name() -> Seq<char> {
    seq!['F', 'l']
}

/// How an option is spelled on its line: `-long | s`, `-long` or `s`; none
/// when it has neither spelling.
pub open spec fn option_spelling(o: CommandOption) -> Option<Seq<Seq<char>>> {
    match o.long {
        Some(l) => match o.short {
            Some(c) => Some(seq![seq!['-'] + l@, seq!['|'], seq![c]]),
            None => Some(seq![seq!['-'] + l@]),
        },
        None => match o.short {
            Some(c) => Some(seq![seq![c]]),
            None => None,
        },
    }
}

/// The arguments of an option's line, before quoting: `Fl` first when the
/// option is optional, then its spelling, then `Ar` and the value's name
/// when it stores a value.
pub open spec fn option_args(o: CommandOption, spelling: Seq<Seq<char>>) -> Seq<Seq<char>> {
    (if o.required {
        Seq::empty()
    } else {
        seq![flag_name()]
    }) + spelling + (if o.sets_value {
        seq![seq!['A', 'r'], or_name(o.value_name, seq!['V', 'A', 'L', 'U', 'E'])]
    } else {
        Seq::empty()
    })
}

/// The line of an option: `.Fl` for a required one, `.Op Fl` for another;
/// none for an option without a spelling.
pub open spec fn option_line(o: CommandOption) -> Option<LineView> {
    match option_spelling(o) {
        Some(sp) => Some(
            LineView::Control {
                name: if o.required {
                    flag_name()
                } else {
                    seq!['O', 'p']
                },
                args: option_args(o, sp).map_values(|a: Seq<char>| quote_spec(a)),
            },
        ),
        None => None,
    }
}

/// The lines of the first `n` options.
pub open spec fn option_lines(opts: Seq<CommandOption>, n: int) -> Seq<LineView>
    decreases n,
{
    if n <= 0 {
        Seq::empty()
    } else {
        match option_line(opts[n - 1]) {
            Some(l) => option_lines(opts, n - 1).push(l),
            None => option_lines(opts, n - 1),
        }
    }
}

/// The pieces of the first `n` characters of `s` between spaces, empty
/// pieces included.
pub open spec fn split_prefix(s: Seq<char>, n: int) -> Seq<Seq<char>>
    decreases n,
{
    if n <= 0 {
        seq![Seq::empty()]
    } else {
        let p = split_prefix(s, n - 1);
        if s[n - 1] == ' ' {
            p.push(Seq::empty())
        } else {
            p.update(p.len() - 1, p.last().push(s[n - 1]))
        }
    }
}

pub open spec fn split_spaces_spec(s: Seq<char>) -> Seq<Seq<char>> {
    split_prefix(s, s.len() as int)
}

proof fn lemma_split_prefix_nonempty(s: Seq<char>, n: int)
    ensures
        split_prefix(s, n).len() >= 1,
    decreases n,
{
    if n > 0 {
        lemma_split_prefix_nonempty(s, n - 1);
    }
}

/// Splits the text at each space, keeping empty pieces.
pub fn split_spaces(s: &str) -> (r: Vec<String>)
    ensures
        r@.map_values(|p: String| p@) == split_spaces_spec(s@),
{
    let cs = chars_of(s);
    let mut done: Vec<String> = Vec::new();
    let mut cur = String::new();
    let mut i: usize = 0;
    while i < cs.len()
        invariant
            cs@ == s@,
            i <= cs.len(),
            done@.map_values(|p: String| p@).push(cur@) == split_prefix(s@, i as int),
        decreases cs.len() - i,
    {
        proof {
            lemma_split_prefix_nonempty(s@, i as int);
        }
        if cs[i] == ' ' {
            done.push(cur);
            cur = String::new();
        } else {
            push_char(&mut cur, cs[i]);
        }
        assert(done@.map_values(|p: String| p@).push(cur@) =~= split_prefix(s@, i + 1));
        i = i + 1;
    }
    done.push(cur);
    assert(done@.map_values(|p: String| p@) =~= split_spaces_spec(s@));
    done
}

pub open spec fn str_views(v: Seq<&str>) -> Seq<Seq<char>> {
    v.map_values(|s: &str| s@)
}

/// Borrows each string of the vector.
fn as_strs(v: &Vec<String>) -> (r: Vec<&str>)
    ensures
        str_views(r@) == v@.map_values(|s: String| s@),
{
    let mut r: Vec<&str> = Vec::new();
    let mut i: usize = 0;
    while i < v.len()
        invariant
            i <= v.len(),
            r@.len() == i,
            str_views(r@) == v@.map_values(|s: String| s@).subrange(0, i as int),
        decreases v.len() - i,
    {
        r.push(v[i].as_str());
        assert(str_views(r@) =~= v@.map_values(|s: String| s@).subrange(0, i + 1));
        i = i + 1;
    }
    assert(v@.map_values(|s: String| s@).subrange(0, v@.len() as int) =~= v@.map_values(
        |s: String| s@,
    ));
    r
}

/// A string holding the one character.
fn char_string(c: char) -> (r: String)
    ensures
        r@ == seq![c],
{
    let mut s = String::new();
    push_char(&mut s, c);
    assert(s@ =~= seq![c]);
    s
}

/// The unquoted arguments of an option's line and its name, or none when
/// the option has no spelling.
fn option_parts(o: &CommandOption) -> (r: Option<(String, Vec<String>)>)
    ensures
        match option_spelling(*o) {
            Some(sp) => r is Some && (r->0).0@ == (if o.required {
                flag_name()
            } else {
                seq!['O', 'p']
            }) && (r->0).1@.map_values(|s: String| s@) == option_args(*o, sp),
            None => r is None,
        },
{
    proof {
        reveal_strlit("Fl");
        reveal_strlit("Op");
        reveal_strlit("-");
        reveal_strlit("|");
        reveal_strlit("Ar");
        reveal_strlit("VALUE");
        assert("Fl"@ =~= flag_name());
        assert("Op"@ =~= seq!['O', 'p']);
        assert("-"@ =~= seq!['-']);
        assert("|"@ =~= seq!['|']);
        assert("Ar"@ =~= seq!['A', 'r']);
        assert("VALUE"@ =~= seq!['V', 'A', 'L', 'U', 'E']);
    }
    let mut v: Vec<String> = Vec::new();
    let name = if o.required {
        String::from_str("Fl")
    } else {
        v.push(String::from_str("Fl"));
        String::from_str("Op")
    };
    let ghost lead = v@.map_values(|s: String| s@);
    match &o.long {
        Some(l) => {
            let mut s = String::from_str("-");
            s.append(l.as_str());
            v.push(s);
            match o.short {
                Some(c) => {
                    v.push(String::from_str("|"));
                    v.push(char_string(c));
                },
                None => {},
            }
        },
        None => match o.short {
            Some(c) => {
                v.push(char_string(c));
            },
            None => {
                return None;
            },
        },
    }
    let ghost sp = option_spelling(*o)->0;
    assert(v@.map_values(|s: String| s@) =~= lead + sp);
    if o.sets_value {
        v.push(String::from_str("Ar"));
        match &o.value_name {
            Some(n) => {
                v.push(n.clone());
            },
            None => {
                v.push(String::from_str("VALUE"));
            },
        }
    }
    assert(v@.map_values(|s: String| s@) =~= option_args(*o, sp));
    Some((name, v))
}

impl Mdoc {
    /// A starter page for a command: the header, a SYNOPSIS section with
    /// `.Nm` and one line per option that has a spelling, a DESCRIPTION
    /// heading, and, where the command names an author, an AUTHORS section
    /// whose `.An` line has the author's name split at spaces.
    pub fn from_command(cmd: &CommandSummary) -> (r: Mdoc)
        ensures
            r.date is None,
            r.os is None,
            r.title.title.0@ == or_name(cmd.display_name, cmd.name@),
            r.title.section.0@ == seq!['1'],
            r.title.arch is None,
            r.name.0@ == or_name(cmd.bin_name, cmd.name@),
            r.description.0@ == or_name(cmd.about, Seq::empty()),
            r@ == header_lines(r.date, r.title, r.name, r.description, r.os) + seq![
                LineView::Control {
                    name: seq!['S', 'h'],
                    args: seq![seq!['S', 'Y', 'N', 'O', 'P', 'S', 'I', 'S']],
                },
                LineView::Control { name: seq!['N', 'm'], args: Seq::empty() },
            ] + option_lines(cmd.options@, cmd.options@.len() as int) + seq![
                LineView::Control {
                    name: seq!['S', 'h'],
                    args: seq![seq!['D', 'E', 'S', 'C', 'R', 'I', 'P', 'T', 'I', 'O', 'N']],
                },
            ] + match cmd.author {
                Some(a) => seq![
                    LineView::Control {
                        name: seq!['S', 'h'],
                        args: seq![seq!['A', 'U', 'T', 'H', 'O', 'R', 'S']],
                    },
                    LineView::Control {
                        name: seq!['A', 'n'],
                        args: split_spaces_spec(a@).map_values(|p: Seq<char>| quote_spec(p)),
                    },
                ],
                None => Seq::empty(),
            },
    {
        proof {
            reveal_strlit("1");
            reveal_strlit("Sh");
            reveal_strlit("Nm");
            reveal_strlit("An");
            reveal_strlit("SYNOPSIS");
            reveal_strlit("DESCRIPTION");
            reveal_strlit("AUTHORS");
            assert("1"@ =~= seq!['1']);
            assert("Sh"@ =~= seq!['S', 'h']);
            assert("Nm"@ =~= seq!['N', 'm']);
            assert("An"@ =~= seq!['A', 'n']);
            assert("SYNOPSIS"@ =~= seq!['S', 'Y', 'N', 'O', 'P', 'S', 'I', 'S']);
            assert("DESCRIPTION"@ =~= seq!['D', 'E', 'S', 'C', 'R', 'I', 'P', 'T', 'I', 'O', 'N']);
            assert("AUTHORS"@ =~= seq!['A', 'U', 'T', 'H', 'O', 'R', 'S']);
        }
        let title = match &cmd.display_name {
            Some(d) => d.clone(),
            None => cmd.name.clone(),
        };
        let bin = match &cmd.bin_name {
            Some(b) => b.clone(),
            None => cmd.name.clone(),
        };
        let about = match &cmd.about {
            Some(a) => a.clone(),
            None => String::new(),
        };
        let mut m = Mdoc::new(
            None,
            DocumentTitle { title: Title(title), section: Section::new("1"), arch: None },
            Name(bin),
            Description(about),
            None,
        );
        let ghost front = m;
        let mut syn_args: Vec<&str> = Vec::new();
        syn_args.push("SYNOPSIS");
        m.control(String::from_str("Sh"), syn_args.as_slice());
        let no_args: Vec<&str> = Vec::new();
        m.control(String::from_str("Nm"), no_args.as_slice());
        assert(quoted_args(syn_args@) =~= seq![seq!['S', 'Y', 'N', 'O', 'P', 'S', 'I', 'S']]);
        assert(quoted_args(no_args@) =~= Seq::<Seq<char>>::empty());
        let ghost syn = m@;
        let mut i: usize = 0;
        while i < cmd.options.len()
            invariant
                i <= cmd.options.len(),
                same_front_matter(m, front),
                m@ == syn + option_lines(cmd.options@, i as int),
            decreases cmd.options.len() - i,
        {
            match option_parts(&cmd.options[i]) {
                Some((name, args)) => {
                    let strs = as_strs(&args);
                    m.control(name, strs.as_slice());
                    assert(quoted_args(strs@) =~= args@.map_values(
                        |s: String| s@,
                    ).map_values(|a: Seq<char>| quote_spec(a)));
                },
                None => {},
            }
            assert(m@ =~= syn + option_lines(cmd.options@, i + 1));
            i = i + 1;
        }
        let mut desc_args: Vec<&str> = Vec::new();
        desc_args.push("DESCRIPTION");
        m.control(String::from_str("Sh"), desc_args.as_slice());
        assert(quoted_args(desc_args@) =~= seq![seq!['D', 'E', 'S', 'C', 'R', 'I', 'P', 'T', 'I', 'O', 'N']]);
        match &cmd.author {
            Some(a) => {
                let mut auth_args: Vec<&str> = Vec::new();
                auth_args.push("AUTHORS");
                m.control(String::from_str("Sh"), auth_args.as_slice());
                assert(quoted_args(auth_args@) =~= seq![seq!['A', 'U', 'T', 'H', 'O', 'R', 'S']]);
                let pieces = split_spaces(a.as_str());
                let strs = as_strs(&pieces);
                m.control(String::from_str("An"), strs.as_slice());
                assert(quoted_args(strs@) =~= split_spaces_spec(a@).map_values(
                    |p: Seq<char>| quote_spec(p),
                ));
            },
            None => {},
        }
        assert(m@ =~= header_lines(m.date, m.title, m.name, m.description, m.os) + seq![
            LineView::Control {
                name: seq!['S', 'h'],
                args: seq![seq!['S', 'Y', 'N', 'O', 'P', 'S', 'I', 'S']],
            },
            LineView::Control { name: seq!['N', 'm'], args: Seq::empty() },
        ] + option_lines(cmd.options@, cmd.options@.len() as int) + seq![
            LineView::Control {
                name: seq!['S', 'h'],
                args: seq![seq!['D', 'E', 'S', 'C', 'R', 'I', 'P', 'T', 'I', 'O', 'N']],
            },
        ] + match cmd.author {
            Some(a) => seq![
                LineView::Control {
                    name: seq!['S', 'h'],
                    args: seq![seq!['A', 'U', 'T', 'H', 'O', 'R', 'S']],
                },
                LineView::Control {
                    name: seq!['A', 'n'],
                    args: split_spaces_spec(a@).map_values(|p: Seq<char>| quote_spec(p)),
                },
            ],
            None => Seq::empty(),
        });
        m
    }
}

} // verus!
