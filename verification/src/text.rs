//! Small helpers for text: its characters one at a time, the cause of a
//! failure as characters, and text written as a quoted literal.

use vstd::prelude::*;

verus! {

/// `r` with the text of its failure taken as characters.
pub open spec fn cause_view<T>(r: Result<T, String>) -> Result<T, Seq<char>> {
    match r {
        Ok(value) => Ok(value),
        Err(cause) => Err(cause@),
    }
}

/// The text that std's `Debug` for `str` writes for `s`: `s` as a quoted
/// string literal, with escapes where the literal needs them.
pub uninterp spec fn debug_text(s: Seq<char>) -> Seq<char>;

/// `s` as std's `Debug` for `str` writes it, by way of `format!`.
///
/// The result is only named: which characters are escaped, and how, is
/// std's to say.
#[verifier::external_body]
pub(crate) fn quoted(s: &str) -> (q: String)
    ensures
        q@ == debug_text(s@),
{
    format!("{:?}", s)
}

/// The characters of `s`, in order.
pub fn chars_of(s: &str) -> (v: Vec<char>)
    ensures
        v@ == s@,
{
    let mut v: Vec<char> = Vec::new();
    for c in it: s.chars()
        invariant
            it.seq() == s@,
            v@ == it.seq().take(it.index() as int),
    {
        v.push(c);
    }
    v
}

} // verus!
