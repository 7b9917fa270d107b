use vstd::prelude::*;
use vstd::std_specs::iter::IteratorSpec;

verus! {

/// Tells whether `string` begins with `prefix`, character by character.
pub fn starts_with(string: &str, prefix: &str) -> (found: bool)
    ensures
        found == prefix@.is_prefix_of(string@),
{
    broadcast use vstd::string::group_string_axioms;

    let mut have = string.chars();
    let mut want = prefix.chars();
    let ghost mut seen: int = 0;
    loop
        invariant
            0 <= seen <= prefix@.len(),
            seen <= string@.len(),
            have.obeys_prophetic_iter_laws(),
            want.obeys_prophetic_iter_laws(),
            have.remaining() == string@.subrange(seen, string@.len() as int),
            want.remaining() == prefix@.subrange(seen, prefix@.len() as int),
            string@.subrange(0, seen) == prefix@.subrange(0, seen),
        decreases prefix@.len() - seen,
    {
        match want.next() {
            None => {
                assert(prefix@.subrange(0, seen) == prefix@);
                return true;
            },
            Some(expected) => {
                match have.next() {
                    None => {
                        return false;
                    },
                    Some(actual) => {
                        if actual != expected {
                            assert(prefix@.len() <= string@.len() ==> string@.subrange(
                                0,
                                prefix@.len() as int,
                            )[seen] == string@[seen]);
                            return false;
                        }
                        proof {
                            assert(string@.subrange(0, seen + 1) == string@.subrange(0, seen).push(
                                string@[seen],
                            ));
                            assert(prefix@.subrange(0, seen + 1) == prefix@.subrange(0, seen).push(
                                prefix@[seen],
                            ));
                            seen = seen + 1;
                        }
                    },
                }
            },
        }
    }
}

} // verus!
