//! The gzip codec behind content negotiation. Compression is done by an
//! outside crate; this module gives its output a name that the handler
//! contracts speak of.
use vstd::prelude::*;
use std::io::Write;

verus! {

/// The gzip compression of a byte sequence at the default level, as the
/// codec produces it.
pub uninterp spec fn gzip_of(data: Seq<u8>) -> Seq<u8>;

/// Relies on flate2's `GzEncoder` over an in-memory buffer (`write_all`,
/// then `finish`) at the default compression level: the compressed bytes
/// depend on the input bytes alone, and writing into a `Vec` cannot fail.
#[verifier::external_body]
pub(crate) fn gzip_compress(data: &[u8]) -> (r: Vec<u8>)
    ensures
        r@ == gzip_of(data@),
{
    let mut encoder = flate2::write::GzEncoder::new(Vec::new(), flate2::Compression::default());
    encoder.write_all(data).expect("writing into a Vec cannot fail");
    encoder.finish().expect("writing into a Vec cannot fail")
}

} // verus!
