//! Storage of an indexed byte buffer: plain bytes or a zlib stream.

use std::io::Read;
use std::io::Write;

use vstd::prelude::*;

verus! {

/// How an indexed byte buffer is stored in the container.
#[derive(Clone, Copy, Debug, PartialEq, Eq, Structural)]
pub enum BitmapDataCompression {
    Uncompressed,
    ZlibCompressed,
}

impl Default for BitmapDataCompression {
    fn default() -> (r: Self)
        ensures
            r is Uncompressed,
    {
        BitmapDataCompression::Uncompressed
    }
}

/// The bytes of zlib-compressing `data` at the best compression level: a
/// function of the input bytes alone.
pub uninterp spec fn zlib_deflate(data: Seq<u8>) -> Seq<u8>;

/// What zlib inflation recovers from `data`: the decoded bytes, or nothing
/// when `data` is not a valid zlib stream.
pub uninterp spec fn zlib_inflate(data: Seq<u8>) -> Option<Seq<u8>>;

/// Relies on flate2::write::ZlibEncoder at Compression::best(): writing into
/// a Vec cannot fail, the compressed stream depends on the input bytes
/// alone, and flate2's decoder recovers the input from it.
#[verifier::external_body]
fn zlib_compress(data: &Vec<u8>) -> (r: Vec<u8>)
    ensures
        r@ == zlib_deflate(data@),
        zlib_inflate(r@) == Some(data@),
{
    let mut encoder = flate2::write::ZlibEncoder::new(Vec::new(), flate2::Compression::best());
    encoder.write_all(data).expect("writing to a Vec cannot fail");
    encoder.finish().expect("writing to a Vec cannot fail")
}

/// Relies on flate2::read::ZlibDecoder: decoding is a function of the input
/// bytes; an invalid stream reports an error instead of bytes.
#[verifier::external_body]
fn zlib_decompress(data: &Vec<u8>) -> (r: Option<Vec<u8>>)
    ensures
        match r {
            Some(d) => zlib_inflate(data@) == Some(d@),
            None => zlib_inflate(data@) is None,
        },
{
    let mut decoder = flate2::read::ZlibDecoder::new(&data[..]);
    let mut out: Vec<u8> = Vec::new();
    match decoder.read_to_end(&mut out) {
        Ok(_) => Some(out),
        Err(_) => None,
    }
}

/// An indexed byte buffer as it stands in the container.
#[derive(Debug)]
pub enum BitmapData {
    Uncompressed(Vec<u8>),
    ZlibCompressed(Vec<u8>),
}

impl BitmapData {
    /// Packs an indexed buffer under the chosen compression.
    pub fn encode(buf: Vec<u8>, compression: &BitmapDataCompression) -> (r: BitmapData)
        ensures
            compression is Uncompressed ==> (r matches BitmapData::Uncompressed(d) && d@ == buf@),
            compression is ZlibCompressed ==> (r matches BitmapData::ZlibCompressed(d) && d@
                == zlib_deflate(buf@) && zlib_inflate(d@) == Some(buf@)),
    {
        match compression {
            BitmapDataCompression::Uncompressed => BitmapData::Uncompressed(buf),
            BitmapDataCompression::ZlibCompressed => BitmapData::ZlibCompressed(
                zlib_compress(&buf),
            ),
        }
    }

    /// Unpacks back to the indexed buffer; a damaged zlib stream is refused.
    pub fn decode(&self) -> (r: Option<Vec<u8>>)
        ensures
            match self {
                BitmapData::Uncompressed(d) => r matches Some(o) && o@ == d@,
                BitmapData::ZlibCompressed(d) => match r {
                    Some(o) => zlib_inflate(d@) == Some(o@),
                    None => zlib_inflate(d@) is None,
                },
            },
    {
        match self {
            BitmapData::Uncompressed(d) => Some(d.clone()),
            BitmapData::ZlibCompressed(d) => zlib_decompress(d),
        }
    }
}

} // verus!
