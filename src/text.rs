//! Text helpers over `String` and `str`.

use vstd::prelude::*;
use vstd::string::*;

verus! {

/// Whether `s` reads exactly `k`.
pub fn text_is(s: &String, k: &str) -> (r: bool)
    ensures
        r == (s@ == k@),
{
    let a = s.as_str();
    let n = a.unicode_len();
    let m = k.unicode_len();
    if n != m {
        return false;
    }
    let mut i: usize = 0;
    while i < n
        invariant
            n == a@.len(),
            m == k@.len(),
            n == m,
            a@ == s@,
            i <= n,
            a@.take(i as int) == k@.take(i as int),
        decreases n - i,
    {
        if a.get_char(i) != k.get_char(i) {
            assert(a@[i as int] != k@[i as int]);
            return false;
        }
        assert(a@.take(i + 1) == a@.take(i as int).push(a@[i as int]));
        assert(k@.take(i + 1) == k@.take(i as int).push(k@[i as int]));
        i = i + 1;
    }
    assert(a@ == a@.take(n as int));
    assert(k@ == k@.take(n as int));
    true
}

/// The text with every double-quote character removed.
pub open spec fn unquoted(s: Seq<char>) -> Seq<char> {
    s.filter(|c: char| c != '"')
}

/// The text with every `"` removed, the other characters in order.
pub fn remove_quotes(s: &str) -> (r: String)
    ensures
        r@ == unquoted(s@),
{
    let n = s.unicode_len();
    let mut r = String::new();
    let mut i: usize = 0;
    proof {
        reveal(Seq::filter);
        assert(s@.take(0) =~= Seq::<char>::empty());
    }
    while i < n
        invariant
            n == s@.len(),
            i <= n,
            r@ == unquoted(s@.take(i as int)),
        decreases n - i,
    {
        let c = s.get_char(i);
        proof {
            reveal(Seq::filter);
            assert(s@.take(i + 1).drop_last() =~= s@.take(i as int));
            assert(s@.take(i + 1).last() == c);
        }
        if c != '"' {
            r.append(s.substring_char(i, i + 1));
            assert(s@.subrange(i as int, i + 1) =~= seq![c]);
        }
        i = i + 1;
    }
    assert(s@.take(n as int) =~= s@);
    r
}

/// Relies on proc_macro2's `FromStr for TokenStream` (`str::parse`): whether
/// the text lexes as a stream of Rust tokens. proc_macro2 picks its lexer at
/// run time (the compiler's inside a procedural macro, its own elsewhere), so
/// nothing is promised of the answer.
#[verifier::external_body]
pub(crate) fn lexes_as_tokens(s: &str) -> (r: bool) {
    s.parse::<proc_macro2::TokenStream>().is_ok()
}

} // verus!
