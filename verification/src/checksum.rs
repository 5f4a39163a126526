//! Content checksums: streamed MD5 digests of downloaded files, and the
//! case-insensitive comparison against the checksum a record declares.
//!
//! The digest itself is computed by the `md5` crate behind trusted
//! wrappers; everything that depends on the digest takes it as a value
//! and is verified.

use vstd::prelude::*;

use crate::text::{spec_ci_eq, str_eq_ci};

verus! {

#[verifier::external_type_specification]
#[verifier::external_body]
pub struct ExMd5Context(md5::Context);

/// The bytes a hashing context has consumed so far.
pub uninterp spec fn md5_fed(c: md5::Context) -> Seq<u8>;

/// The 32 lowercase hex characters of the MD5 digest of a byte
/// sequence: a function of the bytes alone.
pub uninterp spec fn md5_hex_of(data: Seq<u8>) -> Seq<char>;

/// Relies on md5::Context::new: a fresh context has consumed nothing.
#[verifier::external_body]
fn md5_context_new() -> (c: md5::Context)
    ensures
        md5_fed(c) == Seq::<u8>::empty(),
{
    md5::Context::new()
}

/// Relies on md5::Context::consume: appends the data to what the
/// context has consumed.
#[verifier::external_body]
fn md5_context_consume(c: &mut md5::Context, data: &[u8])
    ensures
        md5_fed(*final(c)) == md5_fed(*old(c)) + data@,
{
    c.consume(data)
}

/// Relies on md5::Context::finalize and the digest's lowercase-hex
/// formatting: two hex digits for each of the 16 digest bytes.
#[verifier::external_body]
fn md5_context_hex(c: md5::Context) -> (r: String)
    ensures
        r@ == md5_hex_of(md5_fed(c)),
        r@.len() == 32,
{
    format!("{:x}", c.finalize())
}

/// An incremental checksum of a file read in bounded chunks, so that
/// multi-gigabyte downloads never sit in memory whole.
pub struct ChecksumStream {
    ctx: md5::Context,
}

impl ChecksumStream {
    /// The bytes fed so far.
    pub closed spec fn bytes_fed(self) -> Seq<u8> {
        md5_fed(self.ctx)
    }

    pub fn new() -> (s: Self)
        ensures
            s.bytes_fed() == Seq::<u8>::empty(),
    {
        ChecksumStream { ctx: md5_context_new() }
    }

    /// Feeds one chunk.
    pub fn feed(&mut self, data: &[u8])
        ensures
            final(self).bytes_fed() == old(self).bytes_fed() + data@,
    {
        md5_context_consume(&mut self.ctx, data)
    }

    /// The hex digest of everything fed.
    pub fn finish(self) -> (r: String)
        ensures
            r@ == md5_hex_of(self.bytes_fed()),
            r@.len() == 32,
    {
        md5_context_hex(self.ctx)
    }
}

/// The hex MD5 digest of a byte slice.
pub fn data_checksum_hex(data: &[u8]) -> (r: String)
    ensures
        r@ == md5_hex_of(data@),
        r@.len() == 32,
{
    let mut s = ChecksumStream::new();
    s.feed(data);
    proof {
        assert(Seq::<u8>::empty() + data@ =~= data@);
    }
    s.finish()
}

/// Whether an observed hex digest equals the expected one, ignoring
/// ASCII case: checksums are compared byte for byte as hex text.
pub fn checksum_matches(observed: &str, expected: &str) -> (r: bool)
    ensures
        r == spec_ci_eq(observed@, expected@),
{
    str_eq_ci(observed, expected)
}

/// Whether the checksum of `data` matches `expected`, ignoring hex case.
pub fn data_checksum_matches(data: &[u8], expected: &str) -> (r: bool)
    ensures
        r == spec_ci_eq(md5_hex_of(data@), expected@),
{
    let digest = data_checksum_hex(data);
    checksum_matches(digest.as_str(), expected)
}

} // verus!
