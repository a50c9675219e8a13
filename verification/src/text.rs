//! Comparing and trimming text.

use vstd::prelude::*;
use vstd::string::*;
use vstd::utf8::*;

verus! {

/// The line feed that ends a line of operator input.
pub open spec fn line_feed() -> char {
    '\n'
}

/// `input` without its final line feed, if it ends in one. At most one is
/// taken away, and nothing else.
pub open spec fn without_line_feed(input: Seq<char>) -> Seq<char> {
    if input.len() > 0 && input.last() == line_feed() {
        input.drop_last()
    } else {
        input
    }
}

/// Two texts with the same bytes hold the same characters.
pub proof fn lemma_same_bytes_same_text(a: Seq<char>, b: Seq<char>)
    requires
        encode_utf8(a) == encode_utf8(b),
    ensures
        a == b,
{
    encode_utf8_decode_utf8(a);
    encode_utf8_decode_utf8(b);
}

/// Whether `a` and `b` hold the same characters.
pub fn same_text(a: &str, b: &str) -> (same: bool)
    ensures
        same == (a@ == b@),
{
    let left = a.as_bytes();
    let right = b.as_bytes();
    if left.len() != right.len() {
        return false;
    }
    let mut index: usize = 0;
    while index < left.len()
        invariant
            index <= left@.len(),
            left@.len() == right@.len(),
            left@ == encode_utf8(a@),
            right@ == encode_utf8(b@),
            forall|k: int| 0 <= k < index ==> left@[k] == right@[k],
        decreases left@.len() - index,
    {
        if left[index] != right[index] {
            return false;
        }
        index += 1;
    }
    proof {
        assert(left@ =~= right@);
        lemma_same_bytes_same_text(a@, b@);
    }
    true
}

/// The line that `input` carries: `input` without its final line feed.
pub fn strip_line_feed(input: &str) -> (line: &str)
    ensures
        line@ == without_line_feed(input@),
{
    let count: usize = input.unicode_len();
    if count > 0 && input.get_char(count - 1) == '\n' {
        let line = input.substring_char(0, count - 1);
        assert(line@ =~= input@.drop_last());
        line
    } else {
        input
    }
}

} // verus!
