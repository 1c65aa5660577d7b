//! The software vault's key identifiers: how one is computed from a public
//! key, and how a stored secret is found by it.
use vstd::prelude::*;
use crate::helper::KeyId;

verus! {

/// A handle to a secret stored in the vault.
#[derive(Debug, Clone, Copy, PartialEq, Eq, Structural)]
pub struct Secret {
    pub index: usize,
}

impl Secret {
    pub fn new(index: usize) -> (r: Self)
        ensures
            r.index == index,
    {
        Secret { index }
    }
}

#[derive(Debug, Clone, Copy, PartialEq, Eq, Structural)]
pub enum VaultError {
    SecretNotFound,
}

/// The lowercase hexadecimal digit `d`.
pub open spec fn hex_digit(d: nat) -> char {
    seq!['0', '1', '2', '3', '4', '5', '6', '7', '8', '9', 'a', 'b', 'c', 'd', 'e', 'f'][d as int]
}

/// Two lowercase hexadecimal digits per byte of `b`, the high one first.
pub open spec fn hex_of(b: Seq<u8>) -> Seq<char>
    decreases b.len(),
{
    if b.len() == 0 {
        Seq::empty()
    } else {
        hex_of(b.drop_last()) + seq![hex_digit(b.last() as nat / 16), hex_digit(b.last() as nat % 16)]
    }
}

/// The SHA-256 digest of `data`.
pub uninterp spec fn sha256_of(data: Seq<u8>) -> Seq<u8>;

/// Relies on sha2's `Sha256::digest`: the 32-byte digest of `data`, which
/// depends on `data` alone.
#[verifier::external_body]
fn sha256(data: &[u8]) -> (r: [u8; 32])
    ensures
        r@ == sha256_of(data@),
{
    <sha2::Sha256 as sha2::Digest>::digest(data).into()
}

/// Relies on `hex::encode`, as ockam_core re-exports it: two lowercase digits
/// per byte, the high nibble first.
#[verifier::external_body]
fn hex_encode(b: &[u8]) -> (r: String)
    ensures
        r@ == hex_of(b@),
{
    ockam_core::hex::encode(b)
}

/// The key identifier of a public key whose SHA-256 digest is `digest`.
pub fn key_id_of_digest(digest: &[u8; 32]) -> (r: KeyId)
    ensures
        r@ == hex_of(digest@),
{
    hex_encode(digest.as_slice())
}

/// One stored secret: its index and, if it has one, its key identifier.
pub struct VaultEntry {
    pub index: usize,
    pub key_id: Option<KeyId>,
}

/// The entries of a software vault, in ascending order of index.
pub struct SoftwareVault {
    pub entries: Vec<VaultEntry>,
}

/// Whether `e` carries the key identifier `key_id`.
pub open spec fn has_key_id(e: VaultEntry, key_id: Seq<char>) -> bool {
    e.key_id is Some && e.key_id->Some_0@ == key_id
}

impl SoftwareVault {
    /// Each index appears once, and the entries are in ascending order of it.
    pub open spec fn wf(&self) -> bool {
        forall|i: int, j: int|
            0 <= i < j < self.entries@.len() ==> self.entries@[i].index < self.entries@[j].index
    }

    /// The key identifier of `public_key`: its SHA-256 digest in hexadecimal.
    pub fn compute_key_id_for_public_key(&self, public_key: &[u8]) -> (r: Result<KeyId, VaultError>)
        ensures
            r is Ok && r->Ok_0@ == hex_of(sha256_of(public_key@)),
    {
        let digest = sha256(public_key);
        Ok(key_id_of_digest(&digest))
    }

    /// The secret of the entry of least index whose key identifier
    /// is `key_id`; `SecretNotFound` when no entry has it.
    pub fn get_secret_by_key_id(&self, key_id: &str) -> (r: Result<Secret, VaultError>)
        requires
            self.wf(),
        ensures
            r is Ok ==> forall|j: int|
                0 <= j < self.entries@.len() && has_key_id(#[trigger] self.entries@[j], key_id@)
                    ==> r->Ok_0.index <= self.entries@[j].index,
            r is Err <==> forall|i: int|
                0 <= i < self.entries@.len() ==> !has_key_id(#[trigger] self.entries@[i], key_id@),
            r is Err ==> r == Err::<Secret, VaultError>(VaultError::SecretNotFound),
            r is Ok ==> exists|i: int|
                {
                    &&& 0 <= i < self.entries@.len()
                    &&& has_key_id(#[trigger] self.entries@[i], key_id@)
                    &&& r->Ok_0.index == self.entries@[i].index
                    &&& forall|j: int| 0 <= j < i ==> !has_key_id(#[trigger] self.entries@[j], key_id@)
                },
    {
        let wanted: String = key_id.to_owned();
        let mut i: usize = 0;
        while i < self.entries.len()
            invariant
                i <= self.entries@.len(),
                wanted@ == key_id@,
                self.wf(),
                forall|j: int| 0 <= j < i ==> !has_key_id(#[trigger] self.entries@[j], key_id@),
            decreases self.entries@.len() - i,
        {
            let e = &self.entries[i];
            match &e.key_id {
                Some(k) => {
                    if *k == wanted {
                        assert forall|j: int|
                            0 <= j < self.entries@.len() && has_key_id(
                                #[trigger] self.entries@[j],
                                key_id@,
                            ) implies e.index <= self.entries@[j].index by {
                            if j < i {
                            } else if j > i {
                                assert(self.entries@[i as int].index < self.entries@[j].index);
                            }
                        }
                        return Ok(Secret::new(e.index));
                    }
                },
                None => {},
            }
            i = i + 1;
        }
        Err(VaultError::SecretNotFound)
    }
}

} // verus!
