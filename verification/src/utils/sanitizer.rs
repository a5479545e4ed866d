//! Titles made fit for file names.

use crate::text::{chars_of, string_from_chars};
use vstd::prelude::*;

verus! {

/// Makes texts fit for file names.
pub struct Sanitizer;

/// Whether a file name may hold `c`: it is no control character and none of
/// `< > : " / \ | ? *`.
pub open spec fn is_allowed(c: char) -> bool {
    let u = c as u32;
    &&& u >= 0x20
    &&& u != 0x7f
    &&& c != '<'
    &&& c != '>'
    &&& c != ':'
    &&& c != '"'
    &&& c != '/'
    &&& c != '\\'
    &&& c != '|'
    &&& c != '?'
    &&& c != '*'
}

/// `input` without the characters that a file name may not hold.
pub open spec fn sanitized(input: Seq<char>) -> Seq<char> {
    input.filter(|c: char| is_allowed(c))
}

/// Whether a file name may hold `c`.
pub fn char_is_allowed(c: char) -> (allowed: bool)
    ensures
        allowed == is_allowed(c),
{
    let u: u32 = c as u32;
    u >= 0x20 && u != 0x7f && c != '<' && c != '>' && c != ':' && c != '"' && c != '/' && c != '\\'
        && c != '|' && c != '?' && c != '*'
}

impl Sanitizer {
    /// Removes the characters that a file name may not hold; the others stay in order.
    pub fn execute(input: &str) -> (output: String)
        ensures
            output@ == sanitized(input@),
    {
        let chars = chars_of(input);
        let out = Self::execute_chars(&chars);
        string_from_chars(&out)
    }

    /// `execute` on characters.
    pub fn execute_chars(chars: &Vec<char>) -> (out: Vec<char>)
        ensures
            out@ == sanitized(chars@),
    {
        let mut out: Vec<char> = Vec::new();
        let mut i: usize = 0;
        let ghost allowed = |c: char| is_allowed(c);
        proof {
            reveal(Seq::filter);
        }
        while i < chars.len()
            invariant
                i <= chars.len(),
                allowed == (|c: char| is_allowed(c)),
                out@ == chars@.take(i as int).filter(allowed),
            decreases chars.len() - i,
        {
            let c = chars[i];
            proof {
                assert(chars@.take(i + 1) == chars@.take(i as int).push(c));
                chars@.take(i as int).lemma_filter_push(c, allowed);
            }
            if char_is_allowed(c) {
                out.push(c);
            }
            i += 1;
        }
        assert(chars@.take(chars.len() as int) == chars@);
        out
    }
}

} // verus!
