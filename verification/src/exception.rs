//! Exceptions raised by the engine, and the error they become.

use vstd::prelude::*;

use crate::error::Error;
use crate::text::{chars_of, push_str, string_of_chars, string_of_str};

verus! {

/// A text with every occurrence of `pat` (found from the left, not
/// overlapping) replaced by `with`, as `str::replace` does; `pat` is not
/// empty.
pub open spec fn replace_all(s: Seq<char>, pat: Seq<char>, with: Seq<char>) -> Seq<char>
    recommends
        pat.len() > 0,
    decreases s.len(),
{
    if pat.len() == 0 || s.len() < pat.len() {
        s
    } else if s.take(pat.len() as int) == pat {
        with + replace_all(s.skip(pat.len() as int), pat, with)
    } else {
        seq![s[0]] + replace_all(s.skip(1), pat, with)
    }
}

/// How an exception of the engine shows: its name, `: `, what it says, and
/// a line break.
pub open spec fn exception_text(name: Seq<char>, what: Seq<char>) -> Seq<char> {
    name + ": "@ + what + "\n"@
}

/// The message of the error an exception becomes: how it shows, without
/// `RDFoxException: ` wherever that occurs.
pub open spec fn exception_message(name: Seq<char>, what: Seq<char>) -> Seq<char> {
    replace_all(exception_text(name, what), "RDFoxException: "@, Seq::empty())
}

/// Whether `pat` occurs in `v` at `at`.
fn occurs_at(v: &Vec<char>, pat: &Vec<char>, at: usize) -> (r: bool)
    requires
        at <= v@.len(),
    ensures
        r == (v@.len() - at >= pat@.len() && v@.subrange(at as int, at + pat@.len()) == pat@),
{
    if v.len() - at < pat.len() {
        return false;
    }
    let mut i: usize = 0;
    while i < pat.len()
        invariant
            i <= pat@.len(),
            at <= v@.len() <= usize::MAX,
            at + pat@.len() <= v@.len(),
            forall|j: int| 0 <= j < i ==> v@[at + j] == pat@[j],
        decreases pat@.len() - i,
    {
        if v[at + i] != pat[i] {
            assert(v@.subrange(at as int, at + pat@.len())[i as int] != pat@[i as int]);
            return false;
        }
        i = i + 1;
    }
    assert(v@.subrange(at as int, at + pat@.len()) =~= pat@);
    true
}

/// A text with every occurrence of `pat` replaced by `with` (see
/// `replace_all`).
pub fn replace_str(s: &str, pat: &str, with: &str) -> (r: String)
    requires
        pat@.len() > 0,
    ensures
        r@ == replace_all(s@, pat@, with@),
{
    let cs = chars_of(s);
    let ps = chars_of(pat);
    let mut out: Vec<char> = Vec::new();
    let mut at: usize = 0;
    assert(cs@.subrange(0, cs@.len() as int) =~= cs@);
    while at < cs.len()
        invariant
            at <= cs@.len(),
            cs@ == s@,
            ps@ == pat@,
            ps@.len() > 0,
            out@ + replace_all(cs@.subrange(at as int, cs@.len() as int), pat@, with@) == replace_all(
                s@,
                pat@,
                with@,
            ),
        decreases cs@.len() - at,
    {
        let ghost rest = cs@.subrange(at as int, cs@.len() as int);
        let ghost before = out@;
        if occurs_at(&cs, &ps, at) {
            push_str(&mut out, with);
            proof {
                assert(rest.take(pat@.len() as int) =~= cs@.subrange(at as int, at + pat@.len()));
                assert(rest.skip(pat@.len() as int) =~= cs@.subrange(at + pat@.len(), cs@.len() as int));
            }
            at = at + ps.len();
            assert(out@ + replace_all(cs@.subrange(at as int, cs@.len() as int), pat@, with@)
                =~= before + replace_all(rest, pat@, with@));
        } else {
            out.push(cs[at]);
            proof {
                if rest.len() >= pat@.len() {
                    assert(rest.take(pat@.len() as int) =~= cs@.subrange(at as int, at + pat@.len()));
                }
                assert(rest.skip(1) =~= cs@.subrange(at + 1, cs@.len() as int));
            }
            at = at + 1;
            assert(out@ + replace_all(cs@.subrange(at as int, cs@.len() as int), pat@, with@)
                =~= before + replace_all(rest, pat@, with@));
        }
    }
    proof {
        assert(cs@.subrange(at as int, cs@.len() as int) =~= Seq::<char>::empty());
        assert(out@ + Seq::<char>::empty() =~= out@);
    }
    string_of_chars(&out)
}

/// The error that an exception of the engine raised while carrying out
/// `action` becomes: the action and the exception's message (see
/// `exception_message`).
pub fn exception_error(action: &str, name: &str, what: &str) -> (r: Error)
    ensures
        r matches Error::Exception { action: a, message } && a@ == action@ && message@
            == exception_message(name@, what@),
{
    proof {
        reveal_strlit(": ");
        reveal_strlit("\n");
        reveal_strlit("RDFoxException: ");
        reveal_strlit("");
    }
    let mut v = chars_of(name);
    push_str(&mut v, ": ");
    push_str(&mut v, what);
    push_str(&mut v, "\n");
    let shown = string_of_chars(&v);
    assert(shown@ =~= exception_text(name@, what@));
    assert(""@ =~= Seq::<char>::empty());
    let message = replace_str(shown.as_str(), "RDFoxException: ", "");
    Error::Exception { action: string_of_str(action), message }
}

} // verus!
