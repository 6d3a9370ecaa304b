//! Renders a tree of markup nodes to an HTML string, with a choice between
//! single-line output and newline-separated, space-indented output.
use vstd::prelude::*;

pub mod markup;
pub mod strings;
pub mod attributes;
pub mod render;
pub mod laws;

verus! {

/// The character at 1-based position `index` of `s`, as a string of one
/// character; the empty string when `index` is zero or past the end.
pub open spec fn char_at_spec(s: Seq<char>, index: nat) -> Seq<char> {
    if index == 0 || index > s.len() {
        Seq::empty()
    } else {
        seq![s[index - 1]]
    }
}

/// Returns the character at the 1-based position `index` of `s`.
///
/// Position zero and any position past the last character give the empty
/// string.
pub fn get_char(s: &str, index: usize) -> (r: String)
    ensures
        r@ == char_at_spec(s@, index as nat),
{
    let n = s.unicode_len();
    if index == 0 || index > n {
        String::new()
    } else {
        let one = s.substring_char(index - 1, index);
        assert(one@ =~= seq![s@[index - 1]]);
        String::from_str(one)
    }
}

} // verus!
