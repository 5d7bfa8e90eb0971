use vstd::prelude::*;

verus! {

/// `p` is a prefix of `b`: `b` begins with exactly the bytes of `p`.
pub open spec fn is_prefix_of(p: Seq<u8>, b: Seq<u8>) -> bool {
    p.len() <= b.len() && b.subrange(0, p.len() as int) == p
}

/// Whether `b` starts with `p`, byte for byte.
pub fn starts_with_bytes(b: &[u8], p: &[u8]) -> (r: bool)
    ensures
        r == is_prefix_of(p@, b@),
{
    if p.len() > b.len() {
        return false;
    }
    let mut i: usize = 0;
    while i < p.len()
        invariant
            i <= p@.len() <= b@.len(),
            forall|k: int| 0 <= k < i ==> b@[k] == p@[k],
        decreases p@.len() - i,
    {
        if b[i] != p[i] {
            proof {
                assert(is_prefix_of(p@, b@) ==> b@.subrange(0, p@.len() as int)[i as int]
                    == p@[i as int]);
            }
            return false;
        }
        i = i + 1;
    }
    proof {
        assert(b@.subrange(0, p@.len() as int) =~= p@);
    }
    true
}

/// Select the first of a fixed list of request prefixes that the request
/// buffer starts with, if any.
///
/// This is the decision an embedding server makes from a raw request: the
/// candidate prefixes are tried in order and the first match wins, so a
/// match also certifies that no earlier candidate matched.
pub fn first_prefix_match(b: &[u8], prefixes: &Vec<&[u8]>) -> (r: Option<usize>)
    ensures
        r matches Some(i) ==> i < prefixes@.len()
            && is_prefix_of(prefixes@[i as int]@, b@)
            && (forall|j: int| 0 <= j < i ==> !is_prefix_of(#[trigger] prefixes@[j]@, b@)),
        r is None ==> forall|j: int|
            0 <= j < prefixes@.len() ==> !is_prefix_of(#[trigger] prefixes@[j]@, b@),
{
    let mut i: usize = 0;
    while i < prefixes.len()
        invariant
            i <= prefixes@.len(),
            forall|j: int| 0 <= j < i ==> !is_prefix_of(#[trigger] prefixes@[j]@, b@),
        decreases prefixes@.len() - i,
    {
        if starts_with_bytes(b, prefixes[i]) {
            return Some(i);
        }
        i = i + 1;
    }
    None
}

} // verus!
