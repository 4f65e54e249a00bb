//! Escaping of text so that no line of it reads as a control line.

use vstd::prelude::*;
use vstd::string::StringExecFns;

verus! {

/// A character that, at the start of a line, makes the line a control line.
pub open spec fn is_control_char(c: char) -> bool {
    c == '.' || c == '\''
}

/// What the character at index `i` of `s` becomes in the escaped text: a
/// control character right after a newline gets the zero-width escape `\&`
/// in front of it; every other character stays as it is.
pub open spec fn escaped_piece(s: Seq<char>, i: int) -> Seq<char> {
    if i > 0 && s[i - 1] == '\n' && is_control_char(s[i]) {
        seq!['\\', '&', s[i]]
    } else {
        seq![s[i]]
    }
}

/// The escaped text of the first `n` characters of `s`.
pub open spec fn escape_prefix(s: Seq<char>, n: int) -> Seq<char>
    decreases n,
{
    if n <= 0 {
        Seq::empty()
    } else {
        escape_prefix(s, n - 1) + escaped_piece(s, n - 1)
    }
}

/// `s` with every control character that follows a newline escaped.
pub open spec fn escape_spec(s: Seq<char>) -> Seq<char> {
    escape_prefix(s, s.len() as int)
}

/// Does `s` hold a newline directly followed by a control character?
pub open spec fn has_embedded_control_char(s: Seq<char>) -> bool {
    exists|i: int| 0 < i < s.len() && s[i - 1] == '\n' && #[trigger] is_control_char(s[i])
}

/// What the character at index `i` of `s` becomes once hyphens are escaped:
/// a hyphen is written `\-`, so that the formatter prints a minus sign that
/// it never hyphenates at.
pub open spec fn hyphen_piece(s: Seq<char>, i: int) -> Seq<char> {
    if s[i] == '-' {
        seq!['\\', '-']
    } else {
        seq![s[i]]
    }
}

/// The first `n` characters of `s` with hyphens escaped.
pub open spec fn hyphen_prefix(s: Seq<char>, n: int) -> Seq<char>
    decreases n,
{
    if n <= 0 {
        Seq::empty()
    } else {
        hyphen_prefix(s, n - 1) + hyphen_piece(s, n - 1)
    }
}

/// `s` with every hyphen escaped.
pub open spec fn escape_hyphens_spec(s: Seq<char>) -> Seq<char> {
    hyphen_prefix(s, s.len() as int)
}

proof fn lemma_escape_prefix_identity(s: Seq<char>, n: int)
    requires
        0 <= n <= s.len(),
        !has_embedded_control_char(s),
    ensures
        escape_prefix(s, n) == s.subrange(0, n),
    decreases n,
{
    if n > 0 {
        lemma_escape_prefix_identity(s, n - 1);
        if n - 1 > 0 && s[n - 2] == '\n' && is_control_char(s[n - 1]) {
            assert(0 < n - 1 < s.len() && s[n - 1 - 1] == '\n' && is_control_char(s[n - 1]));
        }
        assert(escape_prefix(s, n) =~= s.subrange(0, n));
    }
}

/// Text in which no newline is followed by a control character is left
/// unchanged by escaping.
pub proof fn lemma_escape_identity(s: Seq<char>)
    requires
        !has_embedded_control_char(s),
    ensures
        escape_spec(s) == s,
{
    lemma_escape_prefix_identity(s, s.len() as int);
    assert(s.subrange(0, s.len() as int) =~= s);
}

proof fn lemma_escape_prefix_clean(s: Seq<char>, n: int)
    requires
        0 <= n <= s.len(),
    ensures
        !has_embedded_control_char(escape_prefix(s, n)),
        n > 0 ==> escape_prefix(s, n).len() > 0 && escape_prefix(s, n).last() == s[n - 1],
    decreases n,
{
    if n > 0 {
        lemma_escape_prefix_clean(s, n - 1);
        let p = escape_prefix(s, n - 1);
        let q = escaped_piece(s, n - 1);
        let t = escape_prefix(s, n);
        assert(t == p + q);
        assert forall|i: int| 0 < i < t.len() && t[i - 1] == '\n' implies !#[trigger] is_control_char(t[i]) by {
            if i < p.len() {
                assert(t[i - 1] == p[i - 1] && t[i] == p[i]);
                if is_control_char(t[i]) {
                    assert(has_embedded_control_char(p));
                }
            } else if i == p.len() {
                assert(p.len() > 0);
                assert(t[i - 1] == p.last());
                assert(t[i] == q[0]);
            } else {
                assert(t[i - 1] == q[i - 1 - p.len()]);
                assert(t[i] == q[i - p.len()]);
            }
        }
    }
}

/// Escaping is idempotent: escaped text has nothing left to escape.
pub proof fn lemma_escape_idempotent(s: Seq<char>)
    ensures
        escape_spec(escape_spec(s)) == escape_spec(s),
{
    lemma_escape_prefix_clean(s, s.len() as int);
    lemma_escape_identity(escape_spec(s));
}

/// Does the argument hold a space or a tab?
pub open spec fn has_blank(a: Seq<char>) -> bool {
    a.contains(' ') || a.contains('\t')
}

/// A control-line argument as written out: enclosed in double quotes when
/// it holds a space or a tab, so that it stays one argument.
pub open spec fn quote_spec(a: Seq<char>) -> Seq<char> {
    if has_blank(a) {
        seq!['"'] + a + seq!['"']
    } else {
        a
    }
}

/// Relies on `str::chars`: the characters of `s`, in order.
#[verifier::external_body]
pub(crate) fn chars_of(s: &str) -> (r: Vec<char>)
    ensures
        r@ == s@,
{
    s.chars().collect()
}

/// Relies on `String::push`: appends one character.
#[verifier::external_body]
pub(crate) fn push_char(s: &mut String, c: char)
    ensures
        final(s)@ == old(s)@.push(c),
{
    s.push(c)
}

/// Does the line start with the control character `.`?
pub fn starts_with_period(line: &str) -> (r: bool)
    ensures
        r == (line@.len() > 0 && line@[0] == '.'),
{
    if line.is_empty() {
        false
    } else {
        line.get_char(0) == '.'
    }
}

/// Escapes periods and apostrophes that follow a newline, so that no line
/// of the text, once split, starts with a control character.
pub fn escape_leading_cc(s: &str) -> (r: String)
    ensures
        r@ == escape_spec(s@),
{
    let cs = chars_of(s);
    let mut out = String::new();
    let mut i: usize = 0;
    while i < cs.len()
        invariant
            cs@ == s@,
            i <= cs.len(),
            out@ == escape_prefix(s@, i as int),
        decreases cs.len() - i,
    {
        let c = cs[i];
        if i > 0 && cs[i - 1] == '\n' && (c == '.' || c == '\'') {
            push_char(&mut out, '\\');
            push_char(&mut out, '&');
        }
        push_char(&mut out, c);
        assert(out@ =~= escape_prefix(s@, i + 1));
        i = i + 1;
    }
    out
}

/// Encloses an argument that holds a space or a tab in double quotes.
pub fn quote_argument(a: &str) -> (r: String)
    ensures
        r@ == quote_spec(a@),
{
    let cs = chars_of(a);
    let mut blank = false;
    let mut i: usize = 0;
    while i < cs.len()
        invariant
            cs@ == a@,
            i <= cs.len(),
            blank == exists|j: int| 0 <= j < i && (cs@[j] == ' ' || cs@[j] == '\t'),
        decreases cs.len() - i,
    {
        if cs[i] == ' ' || cs[i] == '\t' {
            blank = true;
        }
        i = i + 1;
    }
    assert(blank == has_blank(a@)) by {
        if has_blank(a@) {
            if a@.contains(' ') {
                let j = choose|j: int| 0 <= j < a@.len() && a@[j] == ' ';
                assert(cs@[j] == ' ');
            } else {
                let j = choose|j: int| 0 <= j < a@.len() && a@[j] == '\t';
                assert(cs@[j] == '\t');
            }
        }
        if blank {
            let j = choose|j: int| 0 <= j < cs.len() && (cs@[j] == ' ' || cs@[j] == '\t');
            if cs@[j] == ' ' {
                assert(a@.contains(' '));
            } else {
                assert(a@.contains('\t'));
            }
        }
    }
    let mut out = String::new();
    if blank {
        push_char(&mut out, '"');
    }
    out.append(a);
    if blank {
        push_char(&mut out, '"');
    }
    assert(out@ =~= quote_spec(a@));
    out
}

/// Escapes every hyphen as `\-`.
pub fn escape_hyphens(s: &str) -> (r: String)
    ensures
        r@ == escape_hyphens_spec(s@),
{
    let cs = chars_of(s);
    let mut out = String::new();
    let mut i: usize = 0;
    while i < cs.len()
        invariant
            cs@ == s@,
            i <= cs.len(),
            out@ == hyphen_prefix(s@, i as int),
        decreases cs.len() - i,
    {
        let c = cs[i];
        if c == '-' {
            push_char(&mut out, '\\');
        }
        push_char(&mut out, c);
        assert(out@ =~= hyphen_prefix(s@, i + 1));
        i = i + 1;
    }
    out
}

} // verus!
