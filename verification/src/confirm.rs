//! Interpretation of the answer a user gives at the confirmation prompt.
//!
//! The prompt follows the `[Y/n]` convention: an empty answer defaults to
//! "yes", and any answer whose first character is `y` or `Y` counts as
//! affirmative.  Everything else aborts the operation.

use vstd::prelude::*;

verus! {

/// An answer proceeds when it is empty or begins with `y` or `Y`.
pub open spec fn proceeds(answer: Seq<char>) -> bool {
    answer.len() == 0 || answer[0] == 'y' || answer[0] == 'Y'
}

/// Decide whether a confirmation answer lets a mutating operation go ahead.
pub fn interpret_answer(answer: &str) -> (r: bool)
    ensures
        r == proceeds(answer@),
{
    let n = answer.unicode_len();
    if n == 0 {
        true
    } else {
        let c = answer.get_char(0);
        c == 'y' || c == 'Y'
    }
}

} // verus!
