//! String building blocks shared by the other modules.

use vstd::prelude::*;

verus! {

/// `String::push` appends the given character to the end of the string and
/// leaves everything before it unchanged.
pub assume_specification[ String::push ](s: &mut String, c: char)
    ensures
        final(s)@ == old(s)@.push(c),
;

/// The sequence with every space turned into an underscore.
pub open spec fn underscored(s: Seq<char>) -> Seq<char> {
    s.map_values(|c: char| if c == ' ' { '_' } else { c })
}

/// A copy of `s` in which every space is an underscore.
pub fn spaces_to_underscores(s: &str) -> (out: String)
    ensures
        out@ == underscored(s@),
{
    let mut out = String::new();
    for c in it: s.chars()
        invariant
            it.seq() == s@,
            out@ == underscored(s@.take(it.index() as int)),
    {
        proof {
            let k = it.index() as int;
            assert(s@.take(k + 1) =~= s@.take(k).push(s@[k]));
            assert(underscored(s@.take(k + 1)) =~= underscored(s@.take(k)).push(
                if s@[k] == ' ' { '_' } else { s@[k] },
            ));
        }
        if c == ' ' {
            out.push('_');
        } else {
            out.push(c);
        }
    }
    proof {
        assert(s@.take(s@.len() as int) =~= s@);
    }
    out
}

} // verus!
