//! Small verified helpers on byte vectors: copying, appending, comparison,
//! and ASCII lower-casing (used to normalize the subcommand word).

use vstd::prelude::*;

verus! {

/// ASCII lower-casing of a single byte: letters `A`..`Z` map to `a`..`z`,
/// everything else is unchanged.
pub open spec fn lower_byte(b: u8) -> u8 {
    if 65 <= b && b <= 90 {
        (b + 32) as u8
    } else {
        b
    }
}

/// ASCII lower-casing of a whole byte sequence.
pub open spec fn lower_bytes(s: Seq<u8>) -> Seq<u8> {
    s.map_values(|b: u8| lower_byte(b))
}

/// Appends all of `src` to `out`.
pub fn extend_bytes(out: &mut Vec<u8>, src: &Vec<u8>)
    ensures
        final(out)@ == old(out)@ + src@,
{
    let mut i: usize = 0;
    while i < src.len()
        invariant
            i <= src@.len(),
            out@ == old(out)@ + src@.subrange(0, i as int),
        decreases src@.len() - i,
    {
        out.push(src[i]);
        i = i + 1;
        proof {
            assert(old(out)@ + src@.subrange(0, i - 1) + seq![src@[i - 1]]
                =~= old(out)@ + src@.subrange(0, i as int));
        }
    }
    proof {
        assert(old(out)@ + src@.subrange(0, src@.len() as int) =~= old(out)@ + src@);
    }
}

/// Returns a fresh copy of `src`.
pub fn copy_bytes(src: &Vec<u8>) -> (r: Vec<u8>)
    ensures
        r@ == src@,
{
    let mut out: Vec<u8> = Vec::new();
    extend_bytes(&mut out, src);
    proof {
        assert(Seq::<u8>::empty() + src@ =~= src@);
    }
    out
}

/// Byte-for-byte equality of two vectors.
pub fn bytes_eq(a: &Vec<u8>, b: &Vec<u8>) -> (r: bool)
    ensures
        r <==> a@ == b@,
{
    if a.len() != b.len() {
        return false;
    }
    let mut i: usize = 0;
    while i < a.len()
        invariant
            a@.len() == b@.len(),
            i <= a@.len(),
            forall|j: int| 0 <= j < i ==> a@[j] == b@[j],
        decreases a@.len() - i,
    {
        if a[i] != b[i] {
            return false;
        }
        i = i + 1;
    }
    proof {
        assert(a@ =~= b@);
    }
    true
}

/// ASCII lower-casing of a byte vector.
pub fn ascii_lower(src: &Vec<u8>) -> (r: Vec<u8>)
    ensures
        r@ == lower_bytes(src@),
{
    let mut out: Vec<u8> = Vec::new();
    let mut i: usize = 0;
    while i < src.len()
        invariant
            i <= src@.len(),
            out@ == lower_bytes(src@.subrange(0, i as int)),
        decreases src@.len() - i,
    {
        let b = src[i];
        if 65 <= b && b <= 90 {
            out.push(b + 32);
        } else {
            out.push(b);
        }
        i = i + 1;
        proof {
            assert(lower_bytes(src@.subrange(0, i - 1)).push(lower_byte(src@[i - 1]))
                =~= lower_bytes(src@.subrange(0, i as int)));
        }
    }
    proof {
        assert(lower_bytes(src@.subrange(0, src@.len() as int)) =~= lower_bytes(src@));
    }
    out
}

} // verus!
