use vstd::prelude::*;
use vstd::string::StringExecFns;

verus! {

/// `s` if it has at most `max` characters, else its first `keep` characters
/// followed by `...`.
pub open spec fn clipped(s: Seq<char>, max: nat, keep: nat) -> Seq<char> {
    if s.len() <= max {
        s
    } else {
        s.take(keep as int) + seq!['.', '.', '.']
    }
}

/// Shortens `s` for a column of `max` characters, keeping `keep` of them
/// before an ellipsis.
pub fn clip(s: &str, max: usize, keep: usize) -> (r: String)
    requires
        keep <= max,
    ensures
        r@ == clipped(s@, max as nat, keep as nat),
{
    proof {
        reveal_strlit("...");
    }
    let n = s.unicode_len();
    if n <= max {
        String::from_str(s)
    } else {
        let mut out = String::from_str(s.substring_char(0, keep));
        out.append("...");
        proof {
            assert(out@ =~= s@.take(keep as int) + seq!['.', '.', '.']);
        }
        out
    }
}

} // verus!
