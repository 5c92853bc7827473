//! Escaping of reply text for an escaped-markdown render mode: every
//! structurally significant character gets a backslash put in front of it.

use vstd::prelude::*;
use vstd::string::StrSliceExecFns;

verus! {

/// Whether a character is structurally significant in the output rendering
/// format and must therefore be escaped before transmission.
pub open spec fn is_reserved(c: char) -> bool {
    ||| c == '_'
    ||| c == '*'
    ||| c == '['
    ||| c == ']'
    ||| c == '('
    ||| c == ')'
    ||| c == '~'
    ||| c == '>'
    ||| c == '#'
    ||| c == '+'
    ||| c == '-'
    ||| c == '='
    ||| c == '|'
    ||| c == '{'
    ||| c == '}'
    ||| c == '.'
    ||| c == '!'
}

/// What one character contributes to the sanitized text: reserved characters
/// get an escape marker in front, all others pass through unchanged.
pub open spec fn escape_char(c: char) -> Seq<char> {
    if is_reserved(c) {
        seq!['\\', c]
    } else {
        seq![c]
    }
}

/// The sanitized form of a text: each character's contribution, in the
/// original order.
pub open spec fn spec_sanitize(s: Seq<char>) -> Seq<char>
    decreases s.len(),
{
    if s.len() == 0 {
        Seq::empty()
    } else {
        spec_sanitize(s.drop_last()) + escape_char(s.last())
    }
}

/// Executable test for `is_reserved`.
pub fn is_reserved_char(c: char) -> (r: bool)
    ensures
        r == is_reserved(c),
{
    match c {
        '_' | '*' | '[' | ']' | '(' | ')' | '~' | '>' | '#' | '+' | '-' | '=' | '|' | '{' | '}'
            | '.' | '!' => true,
        _ => false,
    }
}

/// Relies on `String::from_iter` over characters: the resulting string holds
/// exactly the given characters in order.
#[verifier::external_body]
fn chars_to_string(v: &Vec<char>) -> (r: String)
    ensures
        r@ == v@,
{
    v.iter().collect()
}

/// Escapes every reserved character of `text` with a backslash put
/// immediately before it; all other characters, Unicode included, pass
/// through unchanged and in order.
pub fn sanitize(text: &str) -> (r: String)
    ensures
        r@ == spec_sanitize(text@),
{
    let n = text.unicode_len();
    let mut out: Vec<char> = Vec::new();
    let mut i: usize = 0;
    while i < n
        invariant
            n == text@.len(),
            i <= n,
            out@ == spec_sanitize(text@.take(i as int)),
        decreases n - i,
    {
        let c = text.get_char(i);
        if is_reserved_char(c) {
            out.push('\\');
            out.push(c);
        } else {
            out.push(c);
        }
        i = i + 1;
        proof {
            let t = text@.take(i as int);
            assert(t.drop_last() =~= text@.take(i - 1));
            assert(t.last() == text@[i - 1]);
            assert(out@ =~= spec_sanitize(t.drop_last()) + escape_char(t.last()));
        }
    }
    proof {
        assert(text@.take(n as int) =~= text@);
    }
    chars_to_string(&out)
}

/// Law: a reserved character alone sanitizes to a backslash followed by that
/// character.
pub proof fn lemma_sanitize_reserved(c: char)
    requires
        is_reserved(c),
    ensures
        spec_sanitize(seq![c]) == seq!['\\', c],
{
    reveal_with_fuel(spec_sanitize, 2);
    let s = seq![c];
    assert(s.drop_last() =~= Seq::<char>::empty());
    assert(spec_sanitize(s) =~= seq!['\\', c]);
}

/// Law: a text with no reserved character sanitizes to itself.
pub proof fn lemma_sanitize_clean(s: Seq<char>)
    requires
        forall|i: int| 0 <= i < s.len() ==> !is_reserved(s[i]),
    ensures
        spec_sanitize(s) == s,
    decreases s.len(),
{
    if s.len() == 0 {
        assert(spec_sanitize(s) =~= s);
    } else {
        lemma_sanitize_clean(s.drop_last());
        assert(spec_sanitize(s) =~= s);
    }
}

/// Law: sanitizing is not idempotent; sanitizing an already sanitized text
/// can escape the inserted escape markers once more.
pub proof fn lemma_sanitize_not_idempotent()
    ensures
        exists|t: Seq<char>| spec_sanitize(spec_sanitize(t)) != spec_sanitize(t),
{
    reveal_with_fuel(spec_sanitize, 4);
    let t = seq!['.'];
    lemma_sanitize_reserved('.');
    let once = seq!['\\', '.'];
    assert(once.drop_last() =~= seq!['\\']);
    assert(seq!['\\'].drop_last() =~= Seq::<char>::empty());
    assert(spec_sanitize(seq!['\\']) =~= seq!['\\']);
    assert(spec_sanitize(once) =~= seq!['\\', '\\', '.']);
    assert(spec_sanitize(spec_sanitize(t)).len() != spec_sanitize(t).len());
}

} // verus!
