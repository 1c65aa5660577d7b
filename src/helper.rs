//! Per-direction wrappers around the vault: the encryption side owns a key
//! handle and a strictly increasing counter, the decryption side a key handle.
//!
//! The vault's AEAD operations are supplied by the caller as functions of
//! `(key, data, nonce)`; these helpers decide which nonce is used and how the
//! result is framed on the wire.
use vstd::prelude::*;
use crate::error::ChannelError;
use crate::nonce::{
    be_bytes, convert_nonce_from_small, convert_nonce_from_u64, from_be, full_nonce,
    lemma_nonce_round_trip, lemma_wire_nonce_injective,
};

verus! {

/// An opaque reference to a key held by the vault.
pub type KeyId = String;

/// The framing of one encrypted message: the wire nonce, then the ciphertext.
pub open spec fn framed(nonce: u64, ciphertext: Seq<u8>) -> Seq<u8> {
    be_bytes(nonce) + ciphertext
}

/// Whether `r` is what encrypting `payload` with the vault encryption `seal`
/// gives, the helper going from `h` to `h2`.
pub open spec fn encrypted_as<F: FnOnce(&String, &[u8], [u8; 12]) -> Result<Vec<u8>, ChannelError>>(
    h: EncryptionHelper,
    h2: EncryptionHelper,
    payload: Seq<u8>,
    seal: F,
    r: Result<Vec<u8>, ChannelError>,
) -> bool {
    if h.nonce_spec() == u64::MAX {
        r == Err::<Vec<u8>, ChannelError>(ChannelError::NonceExhausted) && h2 == h
    } else {
        &&& h2.nonce_spec() == h.nonce_spec() + 1
        &&& h2.key_spec() == h.key_spec()
        &&& exists|k: &String, p: &[u8], n: [u8; 12], c: Result<Vec<u8>, ChannelError>| {
            &&& k@ == h.key_spec()
            &&& p@ == payload
            &&& n@ == full_nonce(h.nonce_spec())
            &&& seal.ensures((k, p, n), c)
            &&& match c {
                Ok(ct) => r is Ok && r->Ok_0@ == framed(h.nonce_spec(), ct@),
                Err(e) => r == Err::<Vec<u8>, ChannelError>(e),
            }
        }
    }
}

/// Whether `r` is what decrypting `payload` with the vault decryption `open`
/// under the key `key` gives.
pub open spec fn decrypted_as<F: FnOnce(&String, &[u8], [u8; 12]) -> Result<Vec<u8>, ChannelError>>(
    key: Seq<char>,
    payload: Seq<u8>,
    open: F,
    r: Result<Vec<u8>, ChannelError>,
) -> bool {
    if payload.len() < 8 {
        r == Err::<Vec<u8>, ChannelError>(ChannelError::InvalidNonce)
    } else {
        exists|k: &String, c: &[u8], n: [u8; 12]| {
            &&& k@ == key
            &&& c@ == payload.skip(8)
            &&& n@ == full_nonce(from_be(payload.take(8)))
            &&& open.ensures((k, c, n), r)
        }
    }
}

/// Whether the vault decryption `open` undoes the vault encryption `seal`:
/// whatever `seal` made of a plaintext under a key and a nonce, `open`
/// returns that plaintext for the same key and nonce.
pub open spec fn inverts<
    F: FnOnce(&String, &[u8], [u8; 12]) -> Result<Vec<u8>, ChannelError>,
    G: FnOnce(&String, &[u8], [u8; 12]) -> Result<Vec<u8>, ChannelError>,
>(seal: F, open: G) -> bool {
    forall|k1: &String, p: &[u8], n1: [u8; 12], ct: Vec<u8>, k2: &String, c: &[u8], n2: [u8; 12], r: Result<Vec<u8>, ChannelError>|
        #![trigger seal.ensures((k1, p, n1), Ok::<Vec<u8>, ChannelError>(ct)), open.ensures((k2, c, n2), r)]
        seal.ensures((k1, p, n1), Ok::<Vec<u8>, ChannelError>(ct)) && open.ensures((k2, c, n2), r)
            && k1@ == k2@ && ct@ == c@ && n1@ == n2@ ==> r is Ok && r->Ok_0@ == p@
}

/// Under one key, decrypting what was encrypted gives back the payload, with
/// a vault whose decryption undoes its encryption: the decrypting side hands
/// the vault exactly the ciphertext and the nonce the encrypting side had
/// from it. This holds whatever the helper's counter, so for every one of a
/// run of successive encryptions.
pub proof fn lemma_decrypt_of_encrypt<
    F: FnOnce(&String, &[u8], [u8; 12]) -> Result<Vec<u8>, ChannelError>,
    G: FnOnce(&String, &[u8], [u8; 12]) -> Result<Vec<u8>, ChannelError>,
>(
    h: EncryptionHelper,
    h2: EncryptionHelper,
    payload: Seq<u8>,
    seal: F,
    sealed: Vec<u8>,
    key: Seq<char>,
    open: G,
    r: Result<Vec<u8>, ChannelError>,
)
    requires
        inverts(seal, open),
        key == h.key_spec(),
        encrypted_as(h, h2, payload, seal, Ok::<Vec<u8>, ChannelError>(sealed)),
        decrypted_as(key, sealed@, open, r),
    ensures
        r is Ok && r->Ok_0@ == payload,
{
    let n = h.nonce_spec();
    let (k1, p, n1, c1) = choose|k: &String, p: &[u8], n1: [u8; 12], c: Result<Vec<u8>, ChannelError>| {
        &&& k@ == h.key_spec()
        &&& p@ == payload
        &&& n1@ == full_nonce(n)
        &&& seal.ensures((k, p, n1), c)
        &&& match c {
            Ok(ct) => sealed@ == framed(n, ct@),
            Err(_) => false,
        }
    };
    let ct = c1->Ok_0;
    lemma_encrypt_decrypt_round_trip(n, ct@, (n + 1) as u64);
    let (k2, c, n2) = choose|k: &String, c: &[u8], n2: [u8; 12]| {
        &&& k@ == key
        &&& c@ == sealed@.skip(8)
        &&& n2@ == full_nonce(from_be(sealed@.take(8)))
        &&& open.ensures((k, c, n2), r)
    };
    assert(seal.ensures((k1, p, n1), Ok::<Vec<u8>, ChannelError>(ct)));
    assert(open.ensures((k2, c, n2), r));
}

/// Two successive encryptions by one helper both decrypt to their payloads,
/// and their wire nonces differ: the second call uses the counter the first
/// one left.
pub proof fn lemma_successive_round_trips<
    F1: FnOnce(&String, &[u8], [u8; 12]) -> Result<Vec<u8>, ChannelError>,
    F2: FnOnce(&String, &[u8], [u8; 12]) -> Result<Vec<u8>, ChannelError>,
    G1: FnOnce(&String, &[u8], [u8; 12]) -> Result<Vec<u8>, ChannelError>,
    G2: FnOnce(&String, &[u8], [u8; 12]) -> Result<Vec<u8>, ChannelError>,
>(
    h0: EncryptionHelper,
    h1: EncryptionHelper,
    h2: EncryptionHelper,
    p1: Seq<u8>,
    p2: Seq<u8>,
    seal1: F1,
    seal2: F2,
    c1: Vec<u8>,
    c2: Vec<u8>,
    key: Seq<char>,
    open1: G1,
    open2: G2,
    r1: Result<Vec<u8>, ChannelError>,
    r2: Result<Vec<u8>, ChannelError>,
)
    requires
        inverts(seal1, open1),
        inverts(seal2, open2),
        key == h0.key_spec(),
        encrypted_as(h0, h1, p1, seal1, Ok::<Vec<u8>, ChannelError>(c1)),
        encrypted_as(h1, h2, p2, seal2, Ok::<Vec<u8>, ChannelError>(c2)),
        decrypted_as(key, c1@, open1, r1),
        decrypted_as(key, c2@, open2, r2),
    ensures
        r1 is Ok && r1->Ok_0@ == p1,
        r2 is Ok && r2->Ok_0@ == p2,
        h2.nonce_spec() == h0.nonce_spec() + 2,
        c1@.take(8) != c2@.take(8),
{
    lemma_decrypt_of_encrypt(h0, h1, p1, seal1, c1, key, open1, r1);
    lemma_decrypt_of_encrypt(h1, h2, p2, seal2, c2, key, open2, r2);
    let n = h0.nonce_spec();
    lemma_wire_nonce_injective(n, (n + 1) as u64);
    let (k, p, nn, c) = choose|k: &String, p: &[u8], nn: [u8; 12], c: Result<Vec<u8>, ChannelError>| {
        &&& k@ == h0.key_spec()
        &&& p@ == p1
        &&& nn@ == full_nonce(n)
        &&& seal1.ensures((k, p, nn), c)
        &&& match c {
            Ok(ct) => c1@ == framed(n, ct@),
            Err(_) => false,
        }
    };
    let (k2, q, nn2, d) = choose|k: &String, p: &[u8], nn: [u8; 12], c: Result<Vec<u8>, ChannelError>| {
        &&& k@ == h1.key_spec()
        &&& p@ == p2
        &&& nn@ == full_nonce((n + 1) as u64)
        &&& seal2.ensures((k, p, nn), c)
        &&& match c {
            Ok(ct) => c2@ == framed((n + 1) as u64, ct@),
            Err(_) => false,
        }
    };
    assert(c1@.take(8) =~= be_bytes(n));
    assert(c2@.take(8) =~= be_bytes((n + 1) as u64));
}

/// A framed message gives back to the decrypting side exactly what the
/// encrypting side had: the ciphertext the vault produced and the AEAD nonce
/// it was produced under. So, under one key, decrypting what was encrypted
/// returns the payload whenever the vault's decryption inverts its
/// encryption. Successive encryptions use successive counter values, whose
/// nonces differ, so no nonce is used twice under a key.
pub proof fn lemma_encrypt_decrypt_round_trip(n: u64, ciphertext: Seq<u8>, later: u64)
    requires
        n < later,
    ensures
        framed(n, ciphertext).len() >= 8,
        framed(n, ciphertext).skip(8) == ciphertext,
        full_nonce(from_be(framed(n, ciphertext).take(8))) == full_nonce(n),
        framed(later, ciphertext).take(8) != framed(n, ciphertext).take(8),
{
    lemma_nonce_round_trip(n);
    lemma_wire_nonce_injective(n, later);
    assert(framed(n, ciphertext).skip(8) =~= ciphertext);
    assert(framed(n, ciphertext).take(8) =~= be_bytes(n));
    assert(framed(later, ciphertext).take(8) =~= be_bytes(later));
}

/// Outbound half of a channel: a key and the next counter value to use.
pub struct EncryptionHelper {
    key: KeyId,
    nonce: u64,
}

impl EncryptionHelper {
    /// The key handle.
    pub closed spec fn key_spec(&self) -> Seq<char> {
        self.key@
    }

    /// The counter value the next encryption will use.
    pub closed spec fn nonce_spec(&self) -> u64 {
        self.nonce
    }

    /// A helper for `key` whose next encryption uses counter value `nonce`.
    pub fn new(key: KeyId, nonce: u64) -> (r: Self)
        ensures
            r.key_spec() == key@,
            r.nonce_spec() == nonce,
    {
        Self { key, nonce }
    }

    /// The counter value the next encryption will use.
    pub fn nonce(&self) -> (r: u64)
        ensures
            r == self.nonce_spec(),
    {
        self.nonce
    }

    /// Encrypts `payload` with `seal`, the vault's AEAD encryption, called as
    /// `seal(key, payload, aead_nonce)`.
    ///
    /// With the counter at its largest value this fails with `NonceExhausted`,
    /// calls nothing and leaves the helper as it was. Otherwise the counter is
    /// advanced first, whatever the vault answers, and on success the result
    /// is the wire nonce of the old counter followed by the ciphertext.
    pub fn encrypt<F>(&mut self, payload: &[u8], seal: F) -> (r: Result<Vec<u8>, ChannelError>)
        where
            F: FnOnce(&String, &[u8], [u8; 12]) -> Result<Vec<u8>, ChannelError>,
        requires
            forall|k: &String, p: &[u8], n: [u8; 12]| #[trigger] seal.requires((k, p, n)),
        ensures
            encrypted_as(*old(self), *final(self), payload@, seal, r),
    {
        let old_nonce = self.nonce;
        if old_nonce == u64::MAX {
            return Err(ChannelError::NonceExhausted);
        }
        self.nonce = old_nonce + 1;
        let (small_nonce, nonce) = convert_nonce_from_u64(old_nonce);
        let sealed = seal(&self.key, payload, nonce);
        match sealed {
            Ok(cipher_text) => {
                let mut cipher_text = cipher_text;
                let mut res: Vec<u8> = Vec::new();
                res.extend_from_slice(small_nonce.as_slice());
                res.append(&mut cipher_text);
                assert(res@ =~= framed(old_nonce, sealed->Ok_0@));
                Ok(res)
            },
            Err(e) => Err(e),
        }
    }
}

/// Inbound half of a channel: a key handle.
pub struct DecryptionHelper {
    key: KeyId,
}

impl DecryptionHelper {
    /// The key handle.
    pub closed spec fn key_spec(&self) -> Seq<char> {
        self.key@
    }

    /// A helper for `key`.
    pub fn new(key: KeyId) -> (r: Self)
        ensures
            r.key_spec() == key@,
    {
        Self { key }
    }

    /// Decrypts a framed message with `open`, the vault's AEAD decryption,
    /// called as `open(key, ciphertext, aead_nonce)`.
    ///
    /// A payload shorter than eight bytes fails with `InvalidNonce` and calls
    /// nothing. Otherwise the first eight bytes are the wire nonce, and the
    /// vault is handed the rest with the AEAD nonce restored from them; its
    /// answer is returned as it is. No replay check is made here.
    pub fn decrypt<F>(&self, payload: &[u8], open: F) -> (r: Result<Vec<u8>, ChannelError>)
        where
            F: FnOnce(&String, &[u8], [u8; 12]) -> Result<Vec<u8>, ChannelError>,
        requires
            forall|k: &String, c: &[u8], n: [u8; 12]| #[trigger] open.requires((k, c, n)),
        ensures
            decrypted_as(self.key_spec(), payload@, open, r),
    {
        if payload.len() < 8 {
            return Err(ChannelError::InvalidNonce);
        }
        let nonce = match convert_nonce_from_small(&payload[0..8]) {
            Ok(n) => n,
            Err(e) => return Err(e),
        };
        assert(payload@.subrange(0, 8) =~= payload@.take(8));
        let rest = &payload[8..payload.len()];
        assert(rest@ =~= payload@.skip(8));
        open(&self.key, rest, nonce)
    }
}

} // verus!
