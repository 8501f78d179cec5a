//! The single trusted boundary to the `image` crate: turning an encoded
//! source image into plain rgb triples.  Everything downstream of this call
//! is verified against the decoded pixels.

use vstd::prelude::*;

verus! {

/// What decoding a byte string yields: `None` when the bytes are not a
/// decodable image, otherwise the width, the height and the pixels in
/// row-major order.  Decoding depends on the bytes alone, so the result has
/// a name rather than a page-long description.
pub uninterp spec fn decoded_rgb(bytes: Seq<u8>) -> Option<(int, int, Seq<(u8, u8, u8)>)>;

/// Relies on `image::load_from_memory` (the format is guessed from the
/// bytes, so decoding is a function of the bytes alone), on
/// `image::DynamicImage::to_rgb8`, and on `image::ImageBuffer::pixels`,
/// whose iteration order is documented as row-major with width times height
/// pixels.
#[verifier::external_body]
pub(crate) fn decode_rgb(bytes: &[u8]) -> (r: Option<(usize, usize, Vec<(u8, u8, u8)>)>)
    ensures
        r is Some <==> decoded_rgb(bytes@) is Some,
        r matches Some(t) ==> decoded_rgb(bytes@) matches Some(d) && d.0 == t.0 as int && d.1
            == t.1 as int && d.2 == t.2@ && d.2.len() == d.0 * d.1,
{
    let img = match image::load_from_memory(bytes) {
        Ok(img) => img.to_rgb8(),
        Err(_) => return None,
    };
    let (w, h) = (img.width() as usize, img.height() as usize);
    let pixels: Vec<(u8, u8, u8)> = img.pixels().map(|p| (p.0[0], p.0[1], p.0[2])).collect();
    Some((w, h, pixels))
}

} // verus!
