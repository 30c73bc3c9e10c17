//! SPARQL statements: a text preceded by the declarations of the prefixes
//! it uses.

use std::sync::Arc;

use vstd::prelude::*;

use crate::cursor::Cursor;
use crate::error::Error;
use crate::graph::has_nul;
use crate::namespaces::{prefix_lines, Namespaces};
use crate::shared::share;
use crate::text::{
    chars_of, decimal, push_decimal, push_range, push_str, string_of_chars, trim,
    trim_end, trim_str, trimmed_end,
};

verus! {

/// How many characters a text has before its first line break.
pub open spec fn line_len(s: Seq<char>) -> nat
    decreases s.len(),
{
    if s.len() == 0 || s[0] == '\n' {
        0
    } else {
        1 + line_len(s.skip(1))
    }
}

/// Whether a `#` at the start of a line opens a comment: it does unless a
/// `>` follows it, as at the end of an IRI such as `<http://x.org/ns#>`.
pub open spec fn opens_comment(line: Seq<char>) -> bool {
    line.len() > 0 && line[0] == '#' && !(line.len() > 1 && line[1] == '>')
}

/// How many characters of a line come before its comment: before its first
/// `#` that no `>` follows, or all of them.
pub open spec fn code_len(line: Seq<char>) -> nat
    decreases line.len(),
{
    if line.len() == 0 || opens_comment(line) {
        0
    } else {
        1 + code_len(line.skip(1))
    }
}

/// A line without its carriage return at the end, if it has one.
pub open spec fn drop_cr(line: Seq<char>) -> Seq<char> {
    if line.len() > 0 && line.last() == '\r' {
        line.drop_last()
    } else {
        line
    }
}

/// A line without its comment and the white space before it.
pub open spec fn strip_comment(line: Seq<char>) -> Seq<char> {
    trim_end(line.take(code_len(line) as int))
}

/// A text with each of its lines (as `str::lines` splits them: at `\n` or
/// `\r\n`, the last line break being optional) stripped of its comment and
/// ended with `\n`.
pub open spec fn no_comments_text(s: Seq<char>) -> Seq<char>
    decreases s.len(),
{
    if s.len() == 0 {
        Seq::empty()
    } else {
        let n = line_len(s);
        if n < s.len() {
            strip_comment(drop_cr(s.take(n as int))) + seq!['\n'] + no_comments_text(
                s.skip(n + 1 as int),
            )
        } else {
            strip_comment(s) + seq!['\n']
        }
    }
}

proof fn lemma_line_len_bound(s: Seq<char>)
    ensures
        line_len(s) <= s.len(),
        line_len(s) < s.len() ==> s[line_len(s) as int] == '\n',
    decreases s.len(),
{
    if s.len() > 0 && s[0] != '\n' {
        lemma_line_len_bound(s.skip(1));
    }
}

proof fn lemma_code_len_bound(line: Seq<char>)
    ensures
        code_len(line) <= line.len(),
    decreases line.len(),
{
    if line.len() > 0 && !opens_comment(line) {
        lemma_code_len_bound(line.skip(1));
    }
}

/// Whether a `#` at position `i` of a line opens a comment.
pub open spec fn is_mark(line: Seq<char>, i: int) -> bool {
    0 <= i < line.len() && line[i] == '#' && !(i + 1 < line.len() && line[i + 1] == '>')
}

proof fn lemma_code_len_marks(line: Seq<char>)
    ensures
        code_len(line) <= line.len(),
        forall|i: int| 0 <= i < code_len(line) ==> !is_mark(line, i),
        code_len(line) < line.len() ==> is_mark(line, code_len(line) as int),
    decreases line.len(),
{
    if line.len() > 0 && !opens_comment(line) {
        let rest = line.skip(1);
        lemma_code_len_marks(rest);
        assert forall|i: int| 0 <= i < code_len(line) implies !is_mark(line, i) by {
            if i > 0 {
                assert(rest[i - 1] == line[i]);
                assert(!is_mark(rest, i - 1));
                if i + 1 < line.len() {
                    assert(rest[i] == line[i + 1]);
                }
            }
        }
        if code_len(line) < line.len() {
            let c = code_len(rest) as int;
            assert(is_mark(rest, c));
            assert(rest[c] == line[c + 1]);
            if c + 1 < rest.len() {
                assert(rest[c + 1] == line[c + 2]);
            }
        }
    }
}

proof fn lemma_unmarked_code_len(s: Seq<char>)
    requires
        forall|i: int| 0 <= i < s.len() ==> !is_mark(s, i),
    ensures
        code_len(s) == s.len(),
{
    lemma_code_len_marks(s);
}

proof fn lemma_trim_end_shape(s: Seq<char>)
    ensures
        trim_end(s).len() <= s.len(),
        trim_end(s) == s.take(trim_end(s).len() as int),
        forall|j: int| trim_end(s).len() <= j < s.len() ==> crate::text::is_space(#[trigger] s[j]),
    decreases s.len(),
{
    if s.len() > 0 && crate::text::is_space(s.last()) {
        lemma_trim_end_shape(s.drop_last());
        let t = trim_end(s.drop_last());
        assert(s.take(t.len() as int) =~= s.drop_last().take(t.len() as int));
        assert forall|j: int| t.len() <= j < s.len() implies crate::text::is_space(#[trigger] s[j]) by {
            if j < s.len() - 1 {
                assert(s.drop_last()[j] == s[j]);
            }
        }
    } else {
        assert(s.take(s.len() as int) =~= s);
    }
}

/// A line stripped of its comment holds no comment: every `#` left in it is
/// followed by `>`.
pub proof fn law_stripped_line_has_no_comment(line: Seq<char>)
    ensures
        forall|i: int| 0 <= i < strip_comment(line).len() ==> !is_mark(strip_comment(line), i),
        code_len(strip_comment(line)) == strip_comment(line).len(),
{
    lemma_code_len_marks(line);
    let c = code_len(line) as int;
    let p = line.take(c);
    assert forall|i: int| 0 <= i < p.len() implies !is_mark(p, i) by {
        assert(p[i] == line[i]);
        assert(!is_mark(line, i));
        if i + 1 < p.len() {
            assert(p[i + 1] == line[i + 1]);
        } else if line[i] == '#' {
            assert(i + 1 < line.len() && line[i + 1] == '>');
            assert(is_mark(line, c));
        }
    }
    let t = trim_end(p);
    lemma_trim_end_shape(p);
    assert forall|i: int| 0 <= i < t.len() implies !is_mark(t, i) by {
        assert(t[i] == p[i]);
        assert(!is_mark(p, i));
        if i + 1 < t.len() {
            assert(t[i + 1] == p[i + 1]);
        } else if t.len() < p.len() && p[i] == '#' {
            assert(crate::text::is_space(p[i + 1]));
            assert(p[i + 1] != '>');
        }
    }
    lemma_unmarked_code_len(t);
}

proof fn lemma_trim_end_idempotent(s: Seq<char>)
    ensures
        trim_end(trim_end(s)) == trim_end(s),
        trim_end(s).len() > 0 ==> !crate::text::is_space(trim_end(s).last()),
    decreases s.len(),
{
    if s.len() > 0 && crate::text::is_space(s.last()) {
        lemma_trim_end_idempotent(s.drop_last());
    }
}

/// A text without line breaks has no line break before its end.
proof fn lemma_line_len_of_line(t: Seq<char>, rest: Seq<char>)
    requires
        forall|i: int| 0 <= i < t.len() ==> t[i] != '\n',
    ensures
        line_len(t + seq!['\n'] + rest) == t.len(),
    decreases t.len(),
{
    let all = t + seq!['\n'] + rest;
    if t.len() > 0 {
        assert(all[0] == t[0]);
        assert(all.skip(1) =~= t.skip(1) + seq!['\n'] + rest);
        lemma_line_len_of_line(t.skip(1), rest);
    } else {
        assert(all[0] == '\n');
    }
}

/// The line that `line_len` measures holds no line break.
proof fn lemma_line_has_no_break(s: Seq<char>)
    ensures
        forall|i: int| 0 <= i < line_len(s) && i < s.len() ==> s[i] != '\n',
    decreases s.len(),
{
    if s.len() > 0 && s[0] != '\n' {
        lemma_line_has_no_break(s.skip(1));
        assert forall|i: int| 0 <= i < line_len(s) && i < s.len() implies s[i] != '\n' by {
            if i > 0 {
                assert(s.skip(1)[i - 1] == s[i]);
            }
        }
    }
}

/// Stripping a stripped line again changes nothing.
proof fn lemma_strip_twice(line: Seq<char>)
    ensures
        strip_comment(strip_comment(line)) == strip_comment(line),
        strip_comment(line).len() <= line.len(),
        strip_comment(line) == line.take(strip_comment(line).len() as int),
        drop_cr(strip_comment(line)) == strip_comment(line),
{
    let t = strip_comment(line);
    law_stripped_line_has_no_comment(line);
    lemma_code_len_marks(line);
    let p = line.take(code_len(line) as int);
    lemma_trim_end_shape(p);
    lemma_trim_end_idempotent(p);
    assert(t.take(t.len() as int) =~= t);
    assert(line.take(t.len() as int) =~= p.take(t.len() as int));
    if t.len() > 0 {
        assert(t.last() != '\r');
    }
}

/// Removing the comments of a text whose comments were removed changes
/// nothing: every comment goes at once, and the lines stay as they are.
pub proof fn law_no_comments_idempotent(s: Seq<char>)
    ensures
        no_comments_text(no_comments_text(s)) == no_comments_text(s),
    decreases s.len(),
{
    if s.len() > 0 {
        let n = line_len(s);
        lemma_line_len_bound(s);
        lemma_line_has_no_break(s);
        if n < s.len() {
            let line = drop_cr(s.take(n as int));
            let t = strip_comment(line);
            let rest = no_comments_text(s.skip(n + 1 as int));
            lemma_strip_twice(line);
            assert forall|i: int| 0 <= i < t.len() implies t[i] != '\n' by {
                assert(t[i] == line[i]);
                assert(line[i] == s[i]);
            }
            lemma_line_len_of_line(t, rest);
            let out = t + seq!['\n'] + rest;
            assert(out.take(t.len() as int) =~= t);
            assert(out.skip(t.len() + 1 as int) =~= rest);
            law_no_comments_idempotent(s.skip(n + 1 as int));
            assert(no_comments_text(s) == out);
            assert(line_len(out) == t.len());
            assert(t.len() < out.len());
            assert(no_comments_text(out) == strip_comment(drop_cr(out.take(t.len() as int))) + seq![
                '\n',
            ] + no_comments_text(out.skip(t.len() + 1 as int)));
            assert(no_comments_text(out) == out);
        } else {
            let t = strip_comment(s);
            lemma_strip_twice(s);
            assert forall|i: int| 0 <= i < t.len() implies t[i] != '\n' by {
                assert(t[i] == s[i]);
            }
            lemma_line_len_of_line(t, Seq::empty());
            let out = t + seq!['\n'] + Seq::<char>::empty();
            assert(out =~= t + seq!['\n']);
            assert(out.take(t.len() as int) =~= t);
            assert(out.skip(t.len() + 1 as int) =~= Seq::<char>::empty());
            assert(no_comments_text(s) == t + seq!['\n']);
            assert(line_len(out) == t.len());
            assert(no_comments_text(out) == strip_comment(drop_cr(out.take(t.len() as int))) + seq![
                '\n',
            ] + no_comments_text(out.skip(t.len() + 1 as int)));
            assert(no_comments_text(Seq::<char>::empty()) == Seq::<char>::empty());
            assert(no_comments_text(out) =~= t + seq!['\n']);
        }
    }
}

/// The end of the line that starts at `start`: the position of the next
/// line break, or the end of the text.
fn line_end(v: &Vec<char>, start: usize) -> (n: usize)
    requires
        start <= v@.len(),
    ensures
        start <= n <= v@.len(),
        n - start == line_len(v@.subrange(start as int, v@.len() as int)),
{
    let mut n = start;
    while n < v.len() && v[n] != '\n'
        invariant
            start <= n <= v@.len(),
            line_len(v@.subrange(start as int, v@.len() as int)) == (n - start) + line_len(
                v@.subrange(n as int, v@.len() as int),
            ),
        decreases v@.len() - n,
    {
        assert(v@.subrange(n as int, v@.len() as int).skip(1) =~= v@.subrange(
            n + 1,
            v@.len() as int,
        ));
        n = n + 1;
    }
    n
}

/// The end of the code of the line `v[start..end]`: where its comment
/// starts, or `end`.
fn code_end(v: &Vec<char>, start: usize, end: usize) -> (c: usize)
    requires
        start <= end <= v@.len(),
    ensures
        start <= c <= end,
        c - start == code_len(v@.subrange(start as int, end as int)),
{
    let mut c = start;
    while c < end && !(v[c] == '#' && !(c + 1 < end && v[c + 1] == '>'))
        invariant
            start <= c <= end <= v@.len(),
            code_len(v@.subrange(start as int, end as int)) == (c - start) + code_len(
                v@.subrange(c as int, end as int),
            ),
        decreases end - c,
    {
        assert(v@.subrange(c as int, end as int).skip(1) =~= v@.subrange(c + 1, end as int));
        c = c + 1;
    }
    c
}

/// Appends the line `v[start..end]` without its comment, and a line break.
fn push_stripped_line(out: &mut Vec<char>, v: &Vec<char>, start: usize, end: usize)
    requires
        start <= end <= v@.len(),
    ensures
        final(out)@ == old(out)@ + strip_comment(v@.subrange(start as int, end as int)) + seq![
            '\n',
        ],
{
    let ghost line = v@.subrange(start as int, end as int);
    let c = code_end(v, start, end);
    let e = trimmed_end(v, start, c);
    push_range(out, v, start, e);
    out.push('\n');
    proof {
        lemma_code_len_bound(line);
        assert(line.take(code_len(line) as int) =~= v@.subrange(start as int, c as int));
    }
}

/// The text with every comment removed: each line cut before its first `#`
/// that no `>` follows, stripped of trailing white space and ended with a
/// line break.
pub fn no_comments(string: &str) -> (r: String)
    ensures
        r@ == no_comments_text(string@),
{
    let cs = chars_of(string);
    let mut out: Vec<char> = Vec::new();
    let mut start: usize = 0;
    assert(cs@.subrange(0, cs@.len() as int) =~= string@);
    assert(out@ + no_comments_text(string@) =~= no_comments_text(string@));
    while start < cs.len()
        invariant
            start <= cs@.len(),
            cs@ == string@,
            out@ + no_comments_text(cs@.subrange(start as int, cs@.len() as int)) == no_comments_text(
                string@,
            ),
        decreases cs@.len() - start,
    {
        let ghost rest = cs@.subrange(start as int, cs@.len() as int);
        let ghost before = out@;
        let n = line_end(&cs, start);
        proof {
            lemma_line_len_bound(rest);
        }
        if n < cs.len() {
            let stop = if n > start && cs[n - 1] == '\r' {
                n - 1
            } else {
                n
            };
            proof {
                assert(rest.take(n - start) =~= cs@.subrange(start as int, n as int));
                assert(drop_cr(rest.take(n - start)) =~= cs@.subrange(start as int, stop as int));
                assert(rest.skip(n - start + 1 as int) =~= cs@.subrange(n + 1, cs@.len() as int));
            }
            push_stripped_line(&mut out, &cs, start, stop);
            start = n + 1;
            assert(out@ + no_comments_text(cs@.subrange(start as int, cs@.len() as int)) =~= before
                + no_comments_text(rest));
        } else {
            push_stripped_line(&mut out, &cs, start, cs.len());
            start = cs.len();
            assert(cs@.subrange(start as int, cs@.len() as int) =~= Seq::<char>::empty());
            assert(out@ + no_comments_text(cs@.subrange(start as int, cs@.len() as int)) =~= before
                + no_comments_text(rest));
        }
    }
    proof {
        assert(cs@.subrange(start as int, cs@.len() as int) =~= Seq::<char>::empty());
        assert(out@ + Seq::<char>::empty() =~= out@);
    }
    string_of_chars(&out)
}


/// The text that numbers a line in a listing: its number in decimal, with
/// zeros in front up to four digits.
pub open spec fn line_number(k: nat) -> Seq<char> {
    let d = decimal(k);
    if d.len() >= 4 {
        d
    } else {
        Seq::new((4 - d.len()) as nat, |i: int| '0') + d
    }
}

/// The lines of a text (as `str::lines` splits them), the first numbered
/// `k + 1`, each as `NNNN: line` and a line break.
pub open spec fn numbered_lines(s: Seq<char>, k: nat) -> Seq<char>
    decreases s.len(),
{
    if s.len() == 0 {
        Seq::empty()
    } else {
        let n = line_len(s);
        if n < s.len() {
            line_number(k + 1) + ": "@ + drop_cr(s.take(n as int)) + "\n"@ + numbered_lines(
                s.skip(n + 1 as int),
                k + 1,
            )
        } else {
            line_number(k + 1) + ": "@ + s + "\n"@
        }
    }
}

/// The query that lists every quad of a data store: each triple `?S ?P ?O`
/// of each named graph `?G` is one answer row, and each triple `?S ?P ?O` of
/// the default graph is one answer row with the default graph's IRI as `?G`.
pub open spec fn nquads_sparql() -> Seq<char> {
    "SELECT ?S ?P ?O ?G\nWHERE {\n    {\n        GRAPH ?G { ?S ?P ?O }\n    } UNION {\n        ?S ?P ?O .\n        BIND(<http://oxfordsemantic.tech/RDFox#DefaultTriples> AS ?G)\n    }\n}\n"@
}

/// Appends the decimal number `k`, with zeros in front up to four digits.
fn push_line_number(v: &mut Vec<char>, k: u64)
    ensures
        final(v)@ == old(v)@ + line_number(k as nat),
{
    let mut digits: Vec<char> = Vec::new();
    push_decimal(&mut digits, k);
    let mut pad = digits.len();
    while pad < 4
        invariant
            digits@ == decimal(k as nat),
            digits@.len() <= pad <= 4 || (pad == digits@.len() && pad >= 4),
            v@ == old(v)@ + Seq::new((pad - digits@.len()) as nat, |i: int| '0'),
        decreases 4 - pad,
    {
        v.push('0');
        pad = pad + 1;
        assert(v@ =~= old(v)@ + Seq::new((pad - digits@.len()) as nat, |i: int| '0'));
    }
    let ghost before = v@;
    push_range(v, &digits, 0, digits.len());
    proof {
        assert(digits@.subrange(0, digits@.len() as int) =~= digits@);
        if digits@.len() >= 4 {
            assert(Seq::new((pad - digits@.len()) as nat, |i: int| '0') =~= Seq::<char>::empty());
            assert(v@ =~= old(v)@ + line_number(k as nat));
        } else {
            assert(v@ =~= old(v)@ + line_number(k as nat));
        }
    }
}

/// A SPARQL statement: the declarations of its prefixes, a line break and
/// the statement's own text.
#[derive(Debug)]
pub struct Statement {
    pub prefixes: Arc<Namespaces>,
    text: String,
}

impl Clone for Statement {
    fn clone(&self) -> (r: Self)
        ensures
            r == *self,
    {
        Statement { prefixes: share(&self.prefixes), text: self.text.clone() }
    }
}

impl Statement {
    /// The prefixes the statement declares.
    pub closed spec fn declared(&self) -> Arc<Namespaces> {
        self.prefixes
    }

    /// The whole text of the statement.
    pub closed spec fn sparql(&self) -> Seq<char> {
        self.text@
    }

    /// The statement with the prefixes `prefixes` and the text `statement`
    /// without its leading and trailing white space.
    pub fn new(prefixes: &Arc<Namespaces>, statement: &str) -> (r: Result<Statement, Error>)
        ensures
            r matches Ok(s) && s.declared() == *prefixes && s.sparql() == prefix_lines(
                prefixes.listed(),
            ) + seq!['\n'] + trim(statement@),
    {
        let declarations = prefixes.to_string();
        let body = trim_str(statement);
        let mut v = chars_of(declarations.as_str());
        v.push('\n');
        push_str(&mut v, body.as_str());
        let text = string_of_chars(&v);
        Ok(Statement { prefixes: share(prefixes), text })
    }

    /// A cursor over the answers of the statement.
    pub fn cursor(&self) -> (r: Cursor)
        ensures
            r.query() == *self,
    {
        Cursor::create(self)
    }

    /// The whole text of the statement.
    pub fn as_str(&self) -> (r: &str)
        ensures
            r@ == self.sparql(),
    {
        self.text.as_str()
    }

    /// The text of the statement without comments (see `no_comments`).
    pub fn no_comments(&self) -> (r: String)
        ensures
            r@ == no_comments_text(self.sparql()),
    {
        no_comments(self.text.as_str())
    }

    /// The text of the statement to hand to the engine's C API:
    /// `CApiError` where it holds a nul character.
    pub fn as_c_string(&self) -> (r: Result<String, Error>)
        ensures
            has_nul(self.sparql()) ==> r matches Err(Error::CApiError),
            !has_nul(self.sparql()) ==> (r matches Ok(s) && s@ == self.sparql()),
    {
        let cs = chars_of(self.text.as_str());
        let mut i: usize = 0;
        while i < cs.len()
            invariant
                i <= cs@.len(),
                cs@ == self.sparql(),
                forall|j: int| 0 <= j < i ==> cs@[j] != '\0',
            decreases cs@.len() - i,
        {
            if cs[i] == '\0' {
                return Err(Error::CApiError);
            }
            i = i + 1;
        }
        Ok(self.text.clone())
    }

    /// The statement that lists every quad of a data store (`nquads_sparql`)
    /// with the prefixes `prefixes`.
    pub fn nquads_query(prefixes: &Arc<Namespaces>) -> (r: Result<Statement, Error>)
        ensures
            r matches Ok(s) && s.declared() == *prefixes && s.sparql() == prefix_lines(
                prefixes.listed(),
            ) + seq!['\n'] + trim(nquads_sparql()),
    {
        proof {
            reveal_strlit("SELECT ?S ?P ?O ?G\nWHERE {\n    {\n        GRAPH ?G { ?S ?P ?O }\n    } UNION {\n        ?S ?P ?O .\n        BIND(<http://oxfordsemantic.tech/RDFox#DefaultTriples> AS ?G)\n    }\n}\n");
        }
        Statement::new(
            prefixes,
            "SELECT ?S ?P ?O ?G\nWHERE {\n    {\n        GRAPH ?G { ?S ?P ?O }\n    } UNION {\n        ?S ?P ?O .\n        BIND(<http://oxfordsemantic.tech/RDFox#DefaultTriples> AS ?G)\n    }\n}\n",
        )
    }

    /// The statement as a listing: `SPARQL Statement:` and each line of its
    /// text numbered from 1 (see `numbered_lines`).
    #[verifier::rlimit(40)]
    pub fn to_string(&self) -> (r: String)
        ensures
            r@ == "SPARQL Statement:\n"@ + numbered_lines(self.sparql(), 0),
    {
        let cs = chars_of(self.text.as_str());
        let mut out: Vec<char> = Vec::new();
        push_str(&mut out, "SPARQL Statement:\n");
        let ghost head = out@;
        let mut start: usize = 0;
        let mut k: usize = 0;
        assert(cs@.subrange(0, cs@.len() as int) =~= cs@);
        assert(out@ + numbered_lines(cs@, 0) =~= head + numbered_lines(self.sparql(), 0));
        while start < cs.len()
            invariant
                start <= cs@.len(),
                k <= start,
                cs@ == self.sparql(),
                out@ + numbered_lines(cs@.subrange(start as int, cs@.len() as int), k as nat)
                    == head + numbered_lines(self.sparql(), 0),
            decreases cs@.len() - start,
        {
            let ghost rest = cs@.subrange(start as int, cs@.len() as int);
            let ghost before = out@;
            let n = line_end(&cs, start);
            proof {
                lemma_line_len_bound(rest);
            }
            if n < cs.len() {
                let stop = if n > start && cs[n - 1] == '\r' {
                    n - 1
                } else {
                    n
                };
                push_numbered_line(&mut out, &cs, start, stop, (k + 1) as u64);
                proof {
                    lemma_numbered_step(rest, k as nat);
                    assert(rest.take(n - start) =~= cs@.subrange(start as int, n as int));
                    assert(drop_cr(rest.take(n - start)) =~= cs@.subrange(
                        start as int,
                        stop as int,
                    ));
                    assert(rest.skip(n - start + 1 as int) =~= cs@.subrange(
                        n + 1,
                        cs@.len() as int,
                    ));
                }
                start = n + 1;
                k = k + 1;
            } else {
                push_numbered_line(&mut out, &cs, start, cs.len(), (k + 1) as u64);
                proof {
                    lemma_numbered_step(rest, k as nat);
                    assert(cs@.subrange(cs@.len() as int, cs@.len() as int) =~= Seq::<char>::empty());
                }
                start = cs.len();
            }
        }
        proof {
            assert(cs@.subrange(start as int, cs@.len() as int) =~= Seq::<char>::empty());
            assert(out@ + Seq::<char>::empty() =~= out@);
        }
        string_of_chars(&out)
    }
}

/// Appends the line `v[start..stop]` numbered `k`: the number, `: `, the
/// line and a line break.
fn push_numbered_line(out: &mut Vec<char>, v: &Vec<char>, start: usize, stop: usize, k: u64)
    requires
        start <= stop <= v@.len(),
    ensures
        final(out)@ == old(out)@ + line_number(k as nat) + ": "@ + v@.subrange(
            start as int,
            stop as int,
        ) + "\n"@,
{
    proof {
        reveal_strlit(": ");
        reveal_strlit("\n");
    }
    push_line_number(out, k);
    out.push(':');
    out.push(' ');
    push_range(out, v, start, stop);
    out.push('\n');
    assert(final(out)@ =~= old(out)@ + line_number(k as nat) + ": "@ + v@.subrange(
        start as int,
        stop as int,
    ) + "\n"@);
}

/// One step of a numbered listing: the first line, then the rest numbered
/// from the next number on.
proof fn lemma_numbered_step(s: Seq<char>, k: nat)
    requires
        s.len() > 0,
    ensures
        line_len(s) < s.len() ==> numbered_lines(s, k) == line_number(k + 1) + ": "@ + drop_cr(
            s.take(line_len(s) as int),
        ) + "\n"@ + numbered_lines(s.skip(line_len(s) + 1 as int), k + 1),
        line_len(s) >= s.len() ==> numbered_lines(s, k) == line_number(k + 1) + ": "@ + s + "\n"@,
{
}

} // verus!
