//! Decoded byte streams over an archive held in memory.

use vstd::prelude::*;

verus! {

/// A stream of bytes that is decoded as it is read: one of the decoders
/// below, boxed as a reader. Verus cannot name a boxed reader, so the value
/// is opaque; it is only handed on to the tar reader.
#[verifier::external_body]
pub struct ByteSource<'r> {
    pub(crate) inner: Box<dyn std::io::Read + 'r>,
}

/// What a stream gives when it is read from its start to its end.
pub struct Stream {
    /// The bytes that it yields before it ends or fails.
    pub bytes: Seq<u8>,
    /// The message of the failure that it then meets, if it does not end.
    pub failure: Option<Seq<char>>,
}

/// What the stream gives when it is read from its start.
pub uninterp spec fn stream_of(source: ByteSource) -> Stream;

/// What `flate2::read::GzDecoder` gives for `data`: the content of the first
/// gzip member, as far as it decodes, and the decoder's message where it
/// does not decode to its end.
pub uninterp spec fn gzip_stream(data: Seq<u8>) -> Stream;

/// What `xz2::read::XzDecoder` gives for `data`: the content of one xz
/// stream, as far as it decodes, and the decoder's message where it does not
/// decode to its end.
pub uninterp spec fn xz_stream(data: Seq<u8>) -> Stream;

/// What `bzip2::read::BzDecoder` gives for `data`: the content of one bzip2
/// stream, as far as it decodes, and the decoder's message where it does not
/// decode to its end.
pub uninterp spec fn bzip2_stream(data: Seq<u8>) -> Stream;

/// Calls `std::io::BufReader::new` on the bytes. Trusted: the stream yields
/// the bytes themselves and then ends.
#[verifier::external_body]
pub(crate) fn plain_source<'r>(bytes: &'r [u8]) -> (source: ByteSource<'r>)
    ensures
        stream_of(source) == (Stream { bytes: bytes@, failure: None }),
{
    ByteSource { inner: Box::new(std::io::BufReader::new(bytes)) }
}

/// Calls `flate2::read::GzDecoder::new`. A bad header or bad data shows as a
/// failure when the stream is read. Trusted: what the stream gives depends on
/// the bytes alone, and is only named.
#[verifier::external_body]
pub(crate) fn gzip_source<'r>(bytes: &'r [u8]) -> (source: ByteSource<'r>)
    ensures
        stream_of(source) == gzip_stream(bytes@),
{
    ByteSource { inner: Box::new(flate2::read::GzDecoder::new(bytes)) }
}

/// Calls `xz2::read::XzDecoder::new`. The call itself fails only if the
/// decoder's state cannot be allocated; bad data shows as a failure when the
/// stream is read. Trusted: what the stream gives depends on the bytes alone,
/// and is only named.
#[verifier::external_body]
pub(crate) fn xz_source<'r>(bytes: &'r [u8]) -> (source: ByteSource<'r>)
    ensures
        stream_of(source) == xz_stream(bytes@),
{
    ByteSource { inner: Box::new(xz2::read::XzDecoder::new(bytes)) }
}

/// Calls `bzip2::read::BzDecoder::new`. The call itself fails only if the
/// decoder's state cannot be allocated; bad data shows as a failure when the
/// stream is read. Trusted: what the stream gives depends on the bytes alone,
/// and is only named.
#[verifier::external_body]
pub(crate) fn bzip2_source<'r>(bytes: &'r [u8]) -> (source: ByteSource<'r>)
    ensures
        stream_of(source) == bzip2_stream(bytes@),
{
    ByteSource { inner: Box::new(bzip2::read::BzDecoder::new(bytes)) }
}

} // verus!
