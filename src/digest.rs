use vstd::prelude::*;
use warg_crypto::hash::{AnyHash, AnyHashError, HashAlgorithm};

use crate::error::{ContentStoreError, ErrorKind};

verus! {

/// The hash algorithms a digest can be tagged with.
#[derive(Clone, Copy, Debug, PartialEq, Eq, Structural)]
pub enum DigestAlgorithm {
    Sha256,
}

/// What identifies a blob: its digest's algorithm and hash bytes.
pub type DigestKey = (DigestAlgorithm, Seq<u8>);

/// A digest: an algorithm tag and the hash bytes it produced.
#[derive(Clone, Debug)]
pub struct Digest {
    algorithm: DigestAlgorithm,
    bytes: Vec<u8>,
}

/// Name for the SHA-256 hash of a byte sequence.
pub uninterp spec fn sha256_of(content: Seq<u8>) -> Seq<u8>;

/// The hash of `content` under `algorithm`.
pub open spec fn digest_of(algorithm: DigestAlgorithm, content: Seq<u8>) -> Seq<u8> {
    match algorithm {
        DigestAlgorithm::Sha256 => sha256_of(content),
    }
}

/// Number of hash bytes that `algorithm` produces.
pub open spec fn output_len(algorithm: DigestAlgorithm) -> nat {
    match algorithm {
        DigestAlgorithm::Sha256 => 32,
    }
}

/// The textual tag of `algorithm`.
pub open spec fn algorithm_tag(algorithm: DigestAlgorithm) -> Seq<char> {
    match algorithm {
        DigestAlgorithm::Sha256 => seq!['s', 'h', 'a', '2', '5', '6'],
    }
}

pub open spec fn is_lower_hex(c: char) -> bool {
    ('0' <= c && c <= '9') || ('a' <= c && c <= 'f')
}

/// Value of a lowercase hex digit.
pub open spec fn hex_value(c: char) -> int {
    if '0' <= c && c <= '9' {
        c as int - '0' as int
    } else {
        c as int - 'a' as int + 10
    }
}

/// Lowercase hex digit of a value below 16.
pub open spec fn hex_digit(v: int) -> char {
    if v < 10 {
        (v + '0' as int) as char
    } else {
        (v - 10 + 'a' as int) as char
    }
}

/// The two lowercase hex digits of a byte.
pub open spec fn byte_text(b: u8) -> Seq<char> {
    seq![hex_digit(b as int / 16), hex_digit(b as int % 16)]
}

/// Lowercase hex encoding of a byte sequence.
pub open spec fn hex_text(b: Seq<u8>) -> Seq<char>
    decreases b.len(),
{
    if b.len() == 0 {
        seq![]
    } else {
        byte_text(b[0]) + hex_text(b.drop_first())
    }
}

/// Bytes of a hex text, two digits per byte.
pub open spec fn hex_bytes(s: Seq<char>) -> Seq<u8>
    decreases s.len(),
{
    if s.len() < 2 {
        seq![]
    } else {
        seq![(hex_value(s[0]) * 16 + hex_value(s[1])) as u8] + hex_bytes(s.subrange(2, s.len() as int))
    }
}

/// Length of `sha256:`.
pub open spec fn sha256_prefix_len() -> int {
    7
}

/// `s` is `sha256:` followed by an even number of lowercase hex digits.
pub open spec fn is_digest_text(s: Seq<char>) -> bool {
    &&& s.len() >= sha256_prefix_len()
    &&& s.subrange(0, 6) == algorithm_tag(DigestAlgorithm::Sha256)
    &&& s[6] == ':'
    &&& (s.len() - sha256_prefix_len()) % 2 == 0
    &&& forall|i: int| sha256_prefix_len() <= i < s.len() ==> is_lower_hex(#[trigger] s[i])
}

/// `s` is the full canonical text of a SHA-256 digest.
pub open spec fn is_canonical_digest_text(s: Seq<char>) -> bool {
    is_digest_text(s) && s.len() == sha256_prefix_len() + 2 * output_len(DigestAlgorithm::Sha256)
}

/// Canonical text of a digest: `<algorithm>:<lowercase hex>`.
pub open spec fn canonical_text(algorithm: DigestAlgorithm, bytes: Seq<u8>) -> Seq<char> {
    algorithm_tag(algorithm) + seq![':'] + hex_text(bytes)
}

/// The digest that canonical text `s` denotes.
pub open spec fn digest_from_text(s: Seq<char>) -> DigestKey {
    (DigestAlgorithm::Sha256, hex_bytes(s.subrange(sha256_prefix_len(), s.len() as int)))
}

pub proof fn lemma_hex_bytes_len(s: Seq<char>)
    ensures
        hex_bytes(s).len() == s.len() / 2,
    decreases s.len(),
{
    if s.len() >= 2 {
        lemma_hex_bytes_len(s.subrange(2, s.len() as int));
    }
}

pub proof fn lemma_hex_text_len(b: Seq<u8>)
    ensures
        hex_text(b).len() == 2 * b.len(),
    decreases b.len(),
{
    if b.len() > 0 {
        lemma_hex_text_len(b.drop_first());
    }
}

proof fn lemma_hex_digit_value(v: int)
    requires
        0 <= v < 16,
    ensures
        is_lower_hex(hex_digit(v)),
        hex_value(hex_digit(v)) == v,
{
}

/// Hex text decodes back to the bytes it encodes.
pub proof fn lemma_hex_round_trip(b: Seq<u8>)
    ensures
        hex_bytes(hex_text(b)) == b,
        forall|i: int| 0 <= i < hex_text(b).len() ==> is_lower_hex(#[trigger] hex_text(b)[i]),
    decreases b.len(),
{
    lemma_hex_text_len(b);
    if b.len() > 0 {
        let rest = b.drop_first();
        lemma_hex_round_trip(rest);
        lemma_hex_digit_value(b[0] as int / 16);
        lemma_hex_digit_value(b[0] as int % 16);
        let s = hex_text(b);
        assert(s == byte_text(b[0]) + hex_text(rest));
        assert(s.subrange(2, s.len() as int) =~= hex_text(rest));
        assert((hex_value(s[0]) * 16 + hex_value(s[1])) as u8 == b[0]);
        assert(hex_bytes(s) =~= b);
        assert forall|i: int| 0 <= i < s.len() implies is_lower_hex(#[trigger] s[i]) by {
            if i >= 2 {
                assert(s[i] == hex_text(rest)[i - 2]);
            }
        }
    }
}

/// The error of warg-crypto's digest parser, carried as it is.
#[verifier::external_type_specification]
#[verifier::external_body]
pub struct ExAnyHashError(AnyHashError);

/// Relies on the `FromStr` of warg-crypto's `AnyHash`: it splits at the first
/// `:`, asks for the tag `sha256`, refuses uppercase hex, and hex-decodes the
/// rest.
#[verifier::external_body]
fn parse_any_hash(s: &str) -> (r: Result<Vec<u8>, AnyHashError>)
    ensures
        r is Ok <==> is_digest_text(s@),
        r matches Ok(b) ==> b@ == hex_bytes(s@.subrange(sha256_prefix_len(), s@.len() as int)),
{
    match s.parse::<AnyHash>() {
        Ok(h) => Ok(h.bytes().to_vec()),
        Err(e) => Err(e),
    }
}

/// Relies on `HashAlgorithm::digest` of warg-crypto for SHA-256: the hash of
/// the bytes, 32 bytes long.
#[verifier::external_body]
fn sha256_bytes(content: &[u8]) -> (r: Vec<u8>)
    ensures
        r@ == sha256_of(content@),
        r@.len() == 32,
{
    HashAlgorithm::Sha256.digest(content).bytes().to_vec()
}

/// The hash of `content` under `algorithm`.
fn hash_bytes(algorithm: DigestAlgorithm, content: &[u8]) -> (r: Vec<u8>)
    ensures
        r@ == digest_of(algorithm, content@),
        r@.len() == output_len(algorithm),
{
    match algorithm {
        DigestAlgorithm::Sha256 => sha256_bytes(content),
    }
}

/// Relies on the `Display` of warg-crypto's `AnyHash`: the algorithm's tag,
/// a colon, and the bytes in lowercase hex.
#[verifier::external_body]
fn any_hash_text(algorithm: DigestAlgorithm, bytes: &[u8]) -> (r: String)
    ensures
        r@ == canonical_text(algorithm, bytes@),
{
    let algo = match algorithm {
        DigestAlgorithm::Sha256 => HashAlgorithm::Sha256,
    };
    AnyHash::new(algo, bytes.to_vec()).to_string()
}

/// True when `a` and `b` hold the same bytes.
pub fn bytes_equal(a: &[u8], b: &[u8]) -> (r: bool)
    ensures
        r == (a@ == b@),
{
    if a.len() != b.len() {
        return false;
    }
    let mut i: usize = 0;
    while i < a.len()
        invariant
            a@.len() == b@.len(),
            i <= a@.len(),
            a@.subrange(0, i as int) == b@.subrange(0, i as int),
        decreases a@.len() - i,
    {
        if a[i] != b[i] {
            assert(a@[i as int] != b@[i as int]);
            return false;
        }
        assert(a@.subrange(0, i + 1) == a@.subrange(0, i as int).push(a@[i as int]));
        assert(b@.subrange(0, i + 1) == b@.subrange(0, i as int).push(b@[i as int]));
        i = i + 1;
    }
    assert(a@ == a@.subrange(0, a@.len() as int));
    assert(b@ == b@.subrange(0, b@.len() as int));
    true
}

impl View for Digest {
    type V = DigestKey;

    closed spec fn view(&self) -> DigestKey {
        (self.algorithm, self.bytes@)
    }
}

impl Digest {
    /// The hash bytes have the algorithm's output size.
    pub open spec fn wf(&self) -> bool {
        self@.1.len() == output_len(self@.0)
    }

    /// A copy of this digest.
    pub fn copied(&self) -> (r: Digest)
        ensures
            r@ == self@,
    {
        Digest { algorithm: self.algorithm, bytes: self.bytes.clone() }
    }

    pub fn algorithm(&self) -> (r: DigestAlgorithm)
        ensures
            r == self@.0,
    {
        self.algorithm
    }

    pub fn bytes(&self) -> (r: &[u8])
        ensures
            r@ == self@.1,
    {
        self.bytes.as_slice()
    }

    /// Parses canonical digest text. Anything but `sha256:` followed by 64
    /// lowercase hex digits is an invalid identifier.
    pub fn parse(s: &str) -> (r: Result<Digest, ContentStoreError>)
        ensures
            r is Ok <==> is_canonical_digest_text(s@),
            r matches Ok(d) ==> d.wf() && d@ == digest_from_text(s@),
            r matches Err(e) ==> e.has_kind(ErrorKind::InvalidIdentifier),
    {
        match parse_any_hash(s) {
            Ok(bytes) => {
                proof {
                    lemma_hex_bytes_len(s@.subrange(sha256_prefix_len(), s@.len() as int));
                }
                if bytes.len() == 32 {
                    Ok(Digest { algorithm: DigestAlgorithm::Sha256, bytes })
                } else {
                    Err(ContentStoreError::internal(ErrorKind::InvalidIdentifier, "digest has the wrong length"))
                }
            },
            Err(_) => Err(ContentStoreError::internal(ErrorKind::InvalidIdentifier, "malformed digest")),
        }
    }

    /// The digest of `content` under `algorithm`.
    pub fn of(algorithm: DigestAlgorithm, content: &[u8]) -> (r: Digest)
        ensures
            r.wf(),
            r@ == (algorithm, digest_of(algorithm, content@)),
    {
        Digest { algorithm, bytes: hash_bytes(algorithm, content) }
    }

    /// True when `content` hashes to this digest.
    pub fn matches_content(&self, content: &[u8]) -> (r: bool)
        ensures
            r == (digest_of(self@.0, content@) == self@.1),
    {
        let computed = hash_bytes(self.algorithm, content);
        bytes_equal(computed.as_slice(), self.bytes.as_slice())
    }

    /// Byte-exact equality of two digests.
    pub fn same_as(&self, other: &Digest) -> (r: bool)
        ensures
            r == (self@ == other@),
    {
        self.algorithm == other.algorithm && bytes_equal(self.bytes.as_slice(), other.bytes.as_slice())
    }

    /// The canonical text `<algorithm>:<lowercase hex>`.
    pub fn to_canonical_string(&self) -> (r: String)
        ensures
            r@ == canonical_text(self@.0, self@.1),
    {
        any_hash_text(self.algorithm, self.bytes.as_slice())
    }
}

} // verus!
