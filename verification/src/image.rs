//! Resolution of an image name to a root-filesystem path.
//!
//! The caller supplies a base directory (taken from the environment by the
//! surrounding binary, with a fixed default) and an image name; the root path
//! is the name joined onto the base.  Joining follows path semantics: an
//! absolute name replaces the base outright, and exactly one separator stands
//! between a non-empty base and a relative name.

use vstd::prelude::*;
use crate::bytes::extend_bytes;
use crate::bytes::copy_bytes;

verus! {

/// Path join of `base` and `image` (bytes; `/` is 47).
pub open spec fn spec_join(base: Seq<u8>, image: Seq<u8>) -> Seq<u8> {
    if image.len() > 0 && image[0] == 47 {
        image
    } else if base.len() == 0 {
        image
    } else if base.last() == 47 {
        base + image
    } else {
        base + seq![47u8] + image
    }
}

/// The root path designated by `image` under `base`.
pub fn resolve_image_path(base: &Vec<u8>, image: &Vec<u8>) -> (r: Vec<u8>)
    ensures
        r@ == spec_join(base@, image@),
{
    if image.len() > 0 && image[0] == 47 {
        return copy_bytes(image);
    }
    if base.len() == 0 {
        return copy_bytes(image);
    }
    let mut out = copy_bytes(base);
    if base[base.len() - 1] != 47 {
        out.push(47);
    }
    extend_bytes(&mut out, image);
    proof {
        if base@.last() != 47 {
            assert(base@.push(47u8) + image@ =~= base@ + seq![47u8] + image@);
        }
    }
    out
}

} // verus!
