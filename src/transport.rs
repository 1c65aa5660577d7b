//! Addresses, routes, and the transport envelope that carries a message
//! along a route.
use vstd::prelude::*;

verus! {

/// A logical address of a message handler: its transport type (0 for a
/// worker on the local node) and the address proper.
#[derive(Debug, PartialEq, Eq)]
pub struct Address {
    pub tt: u8,
    pub inner: String,
}

impl Address {
    pub fn new(tt: u8, inner: String) -> (r: Self)
        ensures
            r.tt == tt,
            r.inner == inner,
    {
        Address { tt, inner }
    }

    /// A copy of this address.
    pub fn copy(&self) -> (r: Self)
        ensures
            r == *self,
    {
        Address { tt: self.tt, inner: self.inner.clone() }
    }
}

/// An address as plain values.
pub open spec fn address_view(a: Address) -> (u8, Seq<char>) {
    (a.tt, a.inner@)
}

/// A route as plain values.
pub open spec fn route_view(route: Seq<Address>) -> Seq<(u8, Seq<char>)> {
    route.map_values(|a: Address| address_view(a))
}

/// A copy of `route`.
pub fn copy_route(route: &Vec<Address>) -> (r: Vec<Address>)
    ensures
        r@ == route@,
{
    let mut r: Vec<Address> = Vec::new();
    let mut i: usize = 0;
    while i < route.len()
        invariant
            i <= route@.len(),
            r@ == route@.take(i as int),
        decreases route@.len() - i,
    {
        r.push(route[i].copy());
        i = i + 1;
        assert(r@ =~= route@.take(i as int));
    }
    assert(route@.take(route@.len() as int) =~= route@);
    r
}

#[verifier::external_type_specification]
#[verifier::external_body]
pub struct ExError(ockam_core::Error);

/// The unsigned LEB128 form of `x`: seven bits per byte, lowest first, the
/// top bit set on every byte but the last.
pub open spec fn uleb128(x: nat) -> Seq<u8>
    decreases x,
{
    if x < 128 {
        seq![x as u8]
    } else {
        seq![(x % 128 + 128) as u8] + uleb128(x / 128)
    }
}

/// The UTF-8 encoding of one character.
pub open spec fn utf8_char(c: char) -> Seq<u8> {
    let x = c as nat;
    if x < 0x80 {
        seq![x as u8]
    } else if x < 0x800 {
        seq![(0xC0 + x / 64) as u8, (0x80 + x % 64) as u8]
    } else if x < 0x10000 {
        seq![(0xE0 + x / 4096) as u8, (0x80 + (x / 64) % 64) as u8, (0x80 + x % 64) as u8]
    } else {
        seq![
            (0xF0 + x / 262144) as u8,
            (0x80 + (x / 4096) % 64) as u8,
            (0x80 + (x / 64) % 64) as u8,
            (0x80 + x % 64) as u8,
        ]
    }
}

/// The UTF-8 encoding of a string.
pub open spec fn utf8(s: Seq<char>) -> Seq<u8>
    decreases s.len(),
{
    if s.len() == 0 {
        Seq::empty()
    } else {
        utf8(s.drop_last()) + utf8_char(s.last())
    }
}

/// The bytes of the addresses of a route, one after the other: each its
/// type byte, then its UTF-8 bytes with their length in front.
pub open spec fn addresses_encoding(route: Seq<(u8, Seq<char>)>) -> Seq<u8>
    decreases route.len(),
{
    if route.len() == 0 {
        Seq::empty()
    } else {
        let a = route.last();
        addresses_encoding(route.drop_last()) + seq![a.0] + uleb128(utf8(a.1).len()) + utf8(a.1)
    }
}

/// The bytes of a route: the number of its addresses, then the addresses.
pub open spec fn route_encoding(route: Seq<(u8, Seq<char>)>) -> Seq<u8> {
    uleb128(route.len()) + addresses_encoding(route)
}

/// The bytes of a version-1 transport message with these routes and this
/// payload, in the BARE encoding: the version, the two routes, then the
/// payload with its length in front.
pub open spec fn transport_encoding(
    onward: Seq<(u8, Seq<char>)>,
    ret: Seq<(u8, Seq<char>)>,
    payload: Seq<u8>,
) -> Seq<u8> {
    seq![1u8] + route_encoding(onward) + route_encoding(ret) + uleb128(payload.len()) + payload
}

/// Relies on ockam_core's `TransportMessage::v1` and its `Encodable::encode`,
/// which is `serde_bare::to_vec` into a `Vec`: it always succeeds, and writes
/// the message's fields in order, a `u8` as one byte and every sequence as
/// its ULEB128 length followed by its elements. `Address::new` keeps the type
/// and the UTF-8 bytes of the address.
#[verifier::external_body]
pub(crate) fn encode_transport_message(
    onward: &Vec<Address>,
    ret: &Vec<Address>,
    payload: Vec<u8>,
) -> (r: Result<Vec<u8>, ockam_core::Error>)
    ensures
        r is Ok,
        r->Ok_0@ == transport_encoding(route_view(onward@), route_view(ret@), payload@),
{
    let onward = ockam_core::Route::create(
        onward.iter().map(|a| ockam_core::Address::new(a.tt, a.inner.clone())).collect::<Vec<_>>(),
    );
    let ret = ockam_core::Route::create(
        ret.iter().map(|a| ockam_core::Address::new(a.tt, a.inner.clone())).collect::<Vec<_>>(),
    );
    ockam_core::Encodable::encode(&ockam_core::TransportMessage::v1(onward, ret, payload))
}

} // verus!
