//! Plain-text helpers shared by the previewer and the reporter.
//!
//! Multi-line content is nested one tab deep when displayed: every
//! embedded newline is followed by a tab, so that a block printed after
//! a leading tab stays aligned.

use vstd::prelude::*;

verus! {

/// How one character of the input appears in re-indented output.
pub open spec fn expand_char(c: char) -> Seq<char> {
    if c == '\n' {
        seq!['\n', '\t']
    } else {
        seq![c]
    }
}

/// The input with every embedded newline followed by a tab.
pub open spec fn indented(s: Seq<char>) -> Seq<char>
    decreases s.len(),
{
    if s.len() == 0 {
        Seq::empty()
    } else {
        indented(s.drop_last()) + expand_char(s.last())
    }
}

/// Relies on `String::push`: appends exactly the given character.
#[verifier::external_body]
pub(crate) fn push_char(s: &mut String, c: char)
    ensures
        final(s)@ == old(s)@ + seq![c],
{
    s.push(c);
}

/// Re-indent embedded newlines for nested display.
pub fn indent_embedded(s: &str) -> (r: String)
    ensures
        r@ == indented(s@),
{
    let n = s.unicode_len();
    let mut out = String::new();
    let mut i: usize = 0;
    while i < n
        invariant
            i <= n,
            n == s@.len(),
            out@ == indented(s@.subrange(0, i as int)),
        decreases n - i,
    {
        let c = s.get_char(i);
        if c == '\n' {
            out.append("\n\t");
            proof {
                reveal_strlit("\n\t");
                assert("\n\t"@ =~= expand_char(c));
            }
        } else {
            push_char(&mut out, c);
            assert(seq![c] =~= expand_char(c));
        }
        proof {
            let pre = s@.subrange(0, i + 1);
            assert(pre.drop_last() =~= s@.subrange(0, i as int));
            assert(pre.last() == s@[i as int]);
            assert(out@ == indented(pre));
        }
        i = i + 1;
    }
    proof {
        assert(s@.subrange(0, n as int) =~= s@);
    }
    out
}

} // verus!
