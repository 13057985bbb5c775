//! Structural validation of brace placeholders in exported values.

use vstd::prelude::*;
use vstd::string::*;

verus! {

/// What one character adds to the nesting depth.
pub open spec fn brace_step(c: char) -> int {
    if c == '{' {
        1
    } else if c == '}' {
        -1
    } else {
        0
    }
}

/// Nesting depth after the whole of `s`: opening braces minus closing braces.
pub open spec fn depth(s: Seq<char>) -> int
    decreases s.len(),
{
    if s.len() == 0 {
        0
    } else {
        depth(s.drop_last()) + brace_step(s.last())
    }
}

/// A value is balanced when no prefix closes more braces than it opened and
/// the whole value closes every brace it opened.
pub open spec fn balanced(s: Seq<char>) -> bool {
    &&& depth(s) == 0
    &&& forall|i: int| 0 <= i <= s.len() ==> depth(#[trigger] s.take(i)) >= 0
}

/// The text reported for a value that is not balanced.
pub open spec fn incomplete_message(value: Seq<char>) -> Seq<char> {
    "占位符不完整: "@ + value
}

/// Extending a prefix by one character moves the depth by that character's step.
pub proof fn lemma_depth_take_next(s: Seq<char>, i: int)
    requires
        0 <= i < s.len(),
    ensures
        depth(s.take(i + 1)) == depth(s.take(i)) + brace_step(s[i]),
{
    assert(s.take(i + 1).drop_last() =~= s.take(i));
    assert(s.take(i + 1).last() == s[i]);
}

fn incomplete(value: &str) -> (msg: String)
    ensures
        msg@ == incomplete_message(value@),
{
    String::from_str("占位符不完整: ").concat(value)
}

/// Checks that the braces of `value` nest properly.
///
/// Only the nesting depth is examined, never the text between braces.
pub fn check_placeholders(value: &str) -> (res: Result<(), String>)
    ensures
        res is Ok <==> balanced(value@),
        res matches Err(msg) ==> msg@ == incomplete_message(value@),
{
    let total: usize = value.unicode_len();
    let mut open: usize = 0;
    for ch in it: value.chars()
        invariant
            total == value@.len(),
            it.seq() == value@,
            open == depth(value@.take(it.index() as int)),
            open <= it.index(),
            forall|j: int| 0 <= j <= it.index() ==> depth(#[trigger] value@.take(j)) >= 0,
    {
        proof {
            lemma_depth_take_next(value@, it.index() as int);
        }
        if ch == '{' {
            open = open + 1;
        } else if ch == '}' {
            if open == 0 {
                return Err(incomplete(value));
            }
            open = open - 1;
        }
    }
    assert(value@.take(value@.len() as int) =~= value@);
    if open != 0 {
        return Err(incomplete(value));
    }
    Ok(())
}

} // verus!
