//! Uniform random choice of one image from the collection.

use vstd::prelude::*;

verus! {

/// Relies on rand::random_range: a sample drawn from `0..len` with the
/// thread-local generator lies in that range. `len > 0` keeps the range
/// nonempty, on which the call would panic.
#[verifier::external_body]
fn random_index(len: usize) -> (i: usize)
    requires
        len > 0,
    ensures
        i < len,
{
    rand::random_range(0..len)
}

/// Picks one of the images at random. Whatever index the generator hands
/// back, the result is an element of `images`; only an empty collection
/// yields `None`.
pub fn get_random_image<'a>(images: &'a Vec<String>) -> (r: Option<&'a String>)
    ensures
        r is Some <==> images@.len() > 0,
        r matches Some(img) ==> images@.contains(*img),
{
    if images.len() == 0 {
        None
    } else {
        let i = random_index(images.len());
        proof {
            assert(images@.contains(images@[i as int]));
        }
        Some(&images[i])
    }
}

} // verus!
