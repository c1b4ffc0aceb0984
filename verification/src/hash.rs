//! Content hashing: SHA-256 digests of file contents, hex-encoded lowercase.

use vstd::prelude::*;
use vstd::slice::slice_subrange;
use sha2::Digest;

verus! {

/// The SHA-256 digest (32 bytes) of a byte sequence, as sha2 computes it.
pub uninterp spec fn sha256_of(bytes: Seq<u8>) -> Seq<u8>;

/// The lowercase hex digit for a nibble value.
pub open spec fn spec_hex_digit(n: u8) -> char
    recommends
        n < 16,
{
    if n == 0 {
        '0'
    } else if n == 1 {
        '1'
    } else if n == 2 {
        '2'
    } else if n == 3 {
        '3'
    } else if n == 4 {
        '4'
    } else if n == 5 {
        '5'
    } else if n == 6 {
        '6'
    } else if n == 7 {
        '7'
    } else if n == 8 {
        '8'
    } else if n == 9 {
        '9'
    } else if n == 10 {
        'a'
    } else if n == 11 {
        'b'
    } else if n == 12 {
        'c'
    } else if n == 13 {
        'd'
    } else if n == 14 {
        'e'
    } else {
        'f'
    }
}

/// Lowercase hex encoding: two digits per byte, high nibble first.
pub open spec fn spec_hex_of(bytes: Seq<u8>) -> Seq<char>
    decreases bytes.len(),
{
    if bytes.len() == 0 {
        Seq::<char>::empty()
    } else {
        seq![spec_hex_digit(bytes.first() / 16), spec_hex_digit(bytes.first() % 16)]
            + spec_hex_of(bytes.drop_first())
    }
}

/// A hex encoding is twice as long as the bytes it encodes.
pub proof fn lemma_hex_len(bytes: Seq<u8>)
    ensures
        spec_hex_of(bytes).len() == 2 * bytes.len(),
    decreases bytes.len(),
{
    if bytes.len() > 0 {
        lemma_hex_len(bytes.drop_first());
    }
}

/// Relies on hex::encode: the lowercase hex encoding of the bytes, two digits
/// per byte, high nibble first.
#[verifier::external_body]
fn hex_encode(data: &[u8]) -> (r: String)
    ensures
        r@ == spec_hex_of(data@),
{
    hex::encode(data)
}

#[verifier::external_type_specification]
#[verifier::external_body]
pub struct ExSha256(sha2::Sha256);

/// Relies on sha2::Sha256::new (digest::Digest): a fresh digest state over no
/// bytes. The state is opaque; what it has digested is tracked by Sha256Hasher.
#[verifier::external_body]
fn sha256_state_new() -> sha2::Sha256 {
    sha2::Sha256::new()
}

/// Relies on sha2::Sha256::update (digest::Digest): appends the chunk to the
/// stream the state digests. The state is opaque; Sha256Hasher tracks the
/// stream beside it.
#[verifier::external_body]
fn sha256_state_update(state: &mut sha2::Sha256, chunk: &[u8]) {
    state.update(chunk);
}

/// Incremental SHA-256 over a stream of chunks, so that a file larger than
/// memory can be hashed piece by piece.
pub struct Sha256Hasher {
    state: sha2::Sha256,
    fed: Ghost<Seq<u8>>,
}

impl Sha256Hasher {
    /// The bytes fed to the hasher so far.
    pub closed spec fn bytes_fed(&self) -> Seq<u8> {
        self.fed@
    }

    /// Relies on sha2::Sha256::finalize (digest::Digest): the 32-byte SHA-256
    /// digest of the stream fed to the state. `new` and `update` below keep
    /// `fed` equal to that stream, and the fields are private, so
    /// `self.bytes_fed()` is exactly what the state has digested.
    #[verifier::external_body]
    fn raw_finalize(self) -> (r: Vec<u8>)
        ensures
            r@ == sha256_of(self.bytes_fed()),
            r@.len() == 32,
    {
        self.state.finalize().to_vec()
    }

    /// A fresh hasher that has seen no bytes.
    pub fn new() -> (r: Self)
        ensures
            r.bytes_fed() == Seq::<u8>::empty(),
    {
        Sha256Hasher { state: sha256_state_new(), fed: Ghost(Seq::empty()) }
    }

    /// Feed one chunk of the stream.
    pub fn update(&mut self, chunk: &[u8])
        ensures
            final(self).bytes_fed() == old(self).bytes_fed() + chunk@,
    {
        sha256_state_update(&mut self.state, chunk);
        self.fed = Ghost(self.fed@ + chunk@);
    }

    /// The hex-encoded SHA-256 digest of everything fed: 64 lowercase hex
    /// characters.
    pub fn finalize_hex(self) -> (r: String)
        ensures
            r@ == spec_hex_of(sha256_of(self.bytes_fed())),
            r@.len() == 64,
    {
        let digest = self.raw_finalize();
        proof {
            lemma_hex_len(digest@);
        }
        hex_encode(digest.as_slice())
    }
}

/// The hex-encoded SHA-256 digest of a full byte string, fed to the hasher in
/// bounded chunks.
pub fn sha256_hex(data: &[u8]) -> (r: String)
    ensures
        r@ == spec_hex_of(sha256_of(data@)),
        r@.len() == 64,
{
    let mut h = Sha256Hasher::new();
    let len = data.len();
    let mut i: usize = 0;
    while i < len
        invariant
            i <= len,
            len == data@.len(),
            h.bytes_fed() == data@.take(i as int),
        decreases len - i,
    {
        let end = if len - i < 65536 {
            len
        } else {
            i + 65536
        };
        let chunk = slice_subrange(data, i, end);
        h.update(chunk);
        proof {
            assert(data@.take(end as int) =~= data@.take(i as int) + data@.subrange(
                i as int,
                end as int,
            ));
        }
        i = end;
    }
    proof {
        assert(data@.take(len as int) =~= data@);
    }
    h.finalize_hex()
}

} // verus!
