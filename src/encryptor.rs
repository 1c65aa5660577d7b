//! The outbound data path of a channel: route rewriting, encryption of the
//! transport envelope, and the message handed to the transport.
use vstd::prelude::*;
use crate::error::ChannelError;
use crate::helper::{encrypted_as, EncryptionHelper};
use crate::transport::{
    copy_route, encode_transport_message, route_view, transport_encoding, Address,
};

verus! {

/// The addresses a channel owns.
pub struct Addresses {
    pub encryptor: Address,
    pub decryptor: Address,
    /// The alias under which peers of older protocol revisions reach the
    /// decryptor.
    pub decryptor_backwards_compatibility: Address,
}

/// A message for the transport: where it goes, what it carries, and the
/// address it is sent from.
pub struct OutboundMessage {
    pub route: Vec<Address>,
    pub payload: Vec<u8>,
    pub sender: Address,
}

/// The onward route after the encryptor: its own address stepped off the
/// front (nothing, when the route is empty), the peer's compatibility alias
/// put in its place.
pub open spec fn rewritten_onward(onward: Seq<Address>, alias: Address) -> Seq<Address> {
    seq![alias] + if onward.len() > 0 {
        onward.skip(1)
    } else {
        onward
    }
}

/// The return route after the encryptor: the local decryptor's
/// compatibility alias in front.
pub open spec fn rewritten_return(ret: Seq<Address>, alias: Address) -> Seq<Address> {
    seq![alias] + ret
}

/// Whether `r` is what the worker `w`, becoming `w2`, makes of the envelope
/// bytes `envelope` with the vault encryption `seal`: the envelope is
/// encrypted by the worker's helper, and the framed ciphertext goes to the
/// peer's route from the encryptor's address; a failure is returned as it
/// is.
pub open spec fn sent_as<F: FnOnce(&String, &[u8], [u8; 12]) -> Result<Vec<u8>, ChannelError>>(
    w: EncryptorWorker,
    w2: EncryptorWorker,
    envelope: Seq<u8>,
    seal: F,
    r: Result<OutboundMessage, ChannelError>,
) -> bool {
    exists|sealed: Result<Vec<u8>, ChannelError>| {
        &&& encrypted_as(w.helper(), w2.helper(), envelope, seal, sealed)
        &&& match sealed {
            Ok(p) => {
                &&& r is Ok
                &&& r->Ok_0.route@ == w.remote_route_spec()
                &&& r->Ok_0.payload@ == p@
                &&& r->Ok_0.sender == w.encryptor_address()
            },
            Err(e) => r == Err::<OutboundMessage, ChannelError>(e),
        }
    }
}

/// Outbound worker of one channel; the sole owner of its encryption helper.
pub struct EncryptorWorker {
    addresses: Addresses,
    remote_route: Vec<Address>,
    remote_backwards_compatibility_address: Address,
    encryption_helper: EncryptionHelper,
}

impl EncryptorWorker {
    /// The address this worker receives on and sends from.
    pub closed spec fn encryptor_address(&self) -> Address {
        self.addresses.encryptor
    }

    /// The local decryptor's compatibility alias.
    pub closed spec fn local_alias(&self) -> Address {
        self.addresses.decryptor_backwards_compatibility
    }

    /// The route to the peer's decryptor.
    pub closed spec fn remote_route_spec(&self) -> Seq<Address> {
        self.remote_route@
    }

    /// The peer decryptor's compatibility alias.
    pub closed spec fn remote_alias(&self) -> Address {
        self.remote_backwards_compatibility_address
    }

    /// The channel's outbound encryption helper.
    pub closed spec fn helper(&self) -> EncryptionHelper {
        self.encryption_helper
    }

    /// Whether only the encryption helper's counter differs between `self`
    /// and `other`.
    pub open spec fn same_channel(&self, other: &Self) -> bool {
        &&& other.encryptor_address() == self.encryptor_address()
        &&& other.local_alias() == self.local_alias()
        &&& other.remote_route_spec() == self.remote_route_spec()
        &&& other.remote_alias() == self.remote_alias()
        &&& other.helper().key_spec() == self.helper().key_spec()
    }

    pub fn new(
        addresses: Addresses,
        remote_route: Vec<Address>,
        remote_backwards_compatibility_address: Address,
        encryption_helper: EncryptionHelper,
    ) -> (r: Self)
        ensures
            r.encryptor_address() == addresses.encryptor,
            r.local_alias() == addresses.decryptor_backwards_compatibility,
            r.remote_route_spec() == remote_route@,
            r.remote_alias() == remote_backwards_compatibility_address,
            r.helper() == encryption_helper,
    {
        Self { addresses, remote_route, remote_backwards_compatibility_address, encryption_helper }
    }

    /// Rewrites the routes of a message that has just reached this worker.
    pub fn rewrite_routes(&self, onward: Vec<Address>, ret: Vec<Address>) -> (r: (
        Vec<Address>,
        Vec<Address>,
    ))
        ensures
            r.0@ == rewritten_onward(onward@, self.remote_alias()),
            r.1@ == rewritten_return(ret@, self.local_alias()),
    {
        let mut onward = onward;
        let mut ret = ret;
        let ghost onward0 = onward@;
        if onward.len() > 0 {
            onward.remove(0);
            assert(onward@ =~= onward0.skip(1));
        }
        onward.insert(0, self.remote_backwards_compatibility_address.copy());
        ret.insert(0, self.addresses.decryptor_backwards_compatibility.copy());
        assert(onward@ =~= rewritten_onward(onward0, self.remote_alias()));
        (onward, ret)
    }

    /// Encrypts an encoded transport envelope with `seal` and addresses the
    /// result to the peer from this worker's address.
    ///
    /// An exhausted counter fails with `NonceExhausted` and leaves the worker
    /// unchanged; otherwise the counter advances, and the outcome is the
    /// vault's. No unencrypted message is ever produced.
    pub fn encrypt_envelope<F>(&mut self, envelope: &[u8], seal: F) -> (r: Result<
        OutboundMessage,
        ChannelError,
    >)
        where
            F: FnOnce(&String, &[u8], [u8; 12]) -> Result<Vec<u8>, ChannelError>,
        requires
            forall|k: &String, p: &[u8], n: [u8; 12]| #[trigger] seal.requires((k, p, n)),
        ensures
            old(self).same_channel(final(self)),
            sent_as(*old(self), *final(self), envelope@, seal, r),
    {
        let encrypted = self.encryption_helper.encrypt(envelope, seal);
        assert(encrypted_as(old(self).helper(), self.helper(), envelope@, seal, encrypted));
        match encrypted {
            Ok(p) => Ok(
                OutboundMessage {
                    route: copy_route(&self.remote_route),
                    payload: p,
                    sender: self.addresses.encryptor.copy(),
                },
            ),
            Err(e) => Err(e),
        }
    }

    /// Handles one outbound application message: rewrites its routes,
    /// encodes them with the payload as a transport envelope, and encrypts
    /// that with `seal` as `encrypt_envelope` does.
    pub fn handle_encrypt<F>(
        &mut self,
        onward: Vec<Address>,
        ret: Vec<Address>,
        payload: Vec<u8>,
        seal: F,
    ) -> (r: Result<OutboundMessage, ChannelError>)
        where
            F: FnOnce(&String, &[u8], [u8; 12]) -> Result<Vec<u8>, ChannelError>,
        requires
            forall|k: &String, p: &[u8], n: [u8; 12]| #[trigger] seal.requires((k, p, n)),
        ensures
            old(self).same_channel(final(self)),
            sent_as(
                *old(self),
                *final(self),
                transport_encoding(
                    route_view(rewritten_onward(onward@, old(self).remote_alias())),
                    route_view(rewritten_return(ret@, old(self).local_alias())),
                    payload@,
                ),
                seal,
                r,
            ),
    {
        let (onward, ret) = self.rewrite_routes(onward, ret);
        let envelope = match encode_transport_message(&onward, &ret, payload) {
            Ok(e) => e,
            Err(_) => vstd::pervasive::unreached(),
        };
        self.encrypt_envelope(envelope.as_slice(), seal)
    }
}

} // verus!
