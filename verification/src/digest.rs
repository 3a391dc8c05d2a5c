//! SHA-256 digesting of downloaded content, rendered as lowercase hex for
//! comparison against a declared upstream hash. The digest is incremental:
//! each received chunk is fed and dropped, so memory stays bounded by chunk
//! size, not artifact size.

use vstd::prelude::*;

verus! {

/// The SHA-256 digest of a byte sequence. Relied on only as a pure function of
/// the bytes; no contract here states its value on any input.
pub uninterp spec fn sha256_of(data: Seq<u8>) -> Seq<u8>;

/// One lowercase hexadecimal digit for a value below sixteen.
pub open spec fn hex_digit(n: u8) -> char {
    if n == 0 {
        '0'
    } else if n == 1 {
        '1'
    } else if n == 2 {
        '2'
    } else if n == 3 {
        '3'
    } else if n == 4 {
        '4'
    } else if n == 5 {
        '5'
    } else if n == 6 {
        '6'
    } else if n == 7 {
        '7'
    } else if n == 8 {
        '8'
    } else if n == 9 {
        '9'
    } else if n == 10 {
        'a'
    } else if n == 11 {
        'b'
    } else if n == 12 {
        'c'
    } else if n == 13 {
        'd'
    } else if n == 14 {
        'e'
    } else {
        'f'
    }
}

/// Lowercase hexadecimal rendering: two digits per byte, high nibble first.
pub open spec fn hex_of(data: Seq<u8>) -> Seq<char>
    decreases data.len(),
{
    if data.len() == 0 {
        Seq::<char>::empty()
    } else {
        seq![hex_digit(data[0] / 16), hex_digit(data[0] % 16)] + hex_of(data.drop_first())
    }
}

/// Relies on hex::encode: lowercase hexadecimal, two digits per byte, high
/// nibble first.
#[verifier::external_body]
pub(crate) fn hex_encode(data: &[u8]) -> (r: String)
    ensures
        r@ == hex_of(data@),
{
    hex::encode(data)
}

/// The bytes a sink has been fed so far, in order. Only the sink's trusted
/// methods state anything of it.
pub uninterp spec fn sink_fed(s: DigestSink) -> Seq<u8>;

/// An incremental SHA-256 of one download: the driving loop hands each
/// received chunk to the sink and to its file write, then drops it. Holds
/// sha2's running hasher; Verus refuses that type's declaration (it names a
/// tower of outside generics), so the struct is opaque and its behaviour is
/// carried by the contracts of the methods below.
#[verifier::external_body]
pub struct DigestSink {
    inner: sha2::Sha256,
}

impl DigestSink {
    /// Everything fed so far, in order.
    pub open spec fn fed(self) -> Seq<u8> {
        sink_fed(self)
    }

    /// Relies on sha2's `Digest::new`: a fresh hasher has digested nothing.
    #[verifier::external_body]
    pub fn new() -> (r: DigestSink)
        ensures
            sink_fed(r) == Seq::<u8>::empty(),
    {
        DigestSink { inner: <sha2::Sha256 as sha2::Digest>::new() }
    }

    /// Relies on sha2's `Digest::update`: feeding a chunk appends it to the
    /// digested stream, in constant memory.
    #[verifier::external_body]
    pub fn update(&mut self, chunk: &[u8])
        ensures
            sink_fed(*final(self)) == sink_fed(*old(self)) + chunk@,
    {
        sha2::Digest::update(&mut self.inner, chunk);
    }

    /// Relies on sha2's `Digest::finalize`, run on a clone so the sink stays
    /// usable: the 32-byte digest of everything fed.
    #[verifier::external_body]
    fn finalize_bytes(&self) -> (r: Vec<u8>)
        ensures
            r@ == sha256_of(sink_fed(*self)),
            r@.len() == 32,
    {
        sha2::Digest::finalize(self.inner.clone()).to_vec()
    }

    /// The lowercase hex SHA-256 digest of everything fed.
    pub fn finalize_hex(&self) -> (r: String)
        ensures
            r@ == hex_of(sha256_of(self.fed())),
    {
        let d = self.finalize_bytes();
        hex_encode(d.as_slice())
    }
}

} // verus!
