//! The routing values of `ockam_core` as this library sees them.
//!
//! Routes, addresses and transport envelopes stay `ockam_core` values. What
//! they hold is named by the spec functions below, and every call into
//! `ockam_core` is a small wrapper whose contract is stated over those names.
//! The contracts in this file are believed, not proved.

use ockam_core::{Address, Decodable, LocalMessage, Route, TransportMessage};
use std::str::FromStr;
use vstd::prelude::*;
use vstd::utf8::encode_utf8;

verus! {

/// `ockam_core::Address`: a typed address. Opaque here; see [`address_hop`].
#[verifier::external_type_specification]
#[verifier::external_body]
pub struct ExAddress(ockam_core::Address);

/// `ockam_core::Route`: a queue of addresses. Opaque here; see
/// [`route_hops`].
#[verifier::external_type_specification]
#[verifier::external_body]
pub struct ExRoute(ockam_core::Route);

/// `ockam_core::TransportMessage`: a version, two routes and a payload.
/// Opaque here; see [`transport_envelope`].
#[verifier::external_type_specification]
#[verifier::external_body]
pub struct ExTransportMessage(ockam_core::TransportMessage);

/// `ockam_core::LocalMessage`: a transport message with local metadata.
/// Opaque here; see [`local_envelope`].
#[verifier::external_type_specification]
#[verifier::external_body]
pub struct ExLocalMessage(ockam_core::LocalMessage);

/// One hop of a route: the address type and the address bytes.
pub struct Hop {
    pub tt: u8,
    pub name: Seq<u8>,
}

/// What a transport envelope holds.
pub struct Envelope {
    pub version: u8,
    pub onward_route: Seq<Hop>,
    pub return_route: Seq<Hop>,
    pub payload: Seq<u8>,
}

/// What a node-local message holds: the envelope and the local metadata.
pub struct LocalEnvelope {
    pub envelope: Envelope,
    pub local_info: Seq<u8>,
}

/// The type and bytes that an address holds.
pub uninterp spec fn address_hop(address: Address) -> Hop;

/// The hops that a route holds, next hop first.
pub uninterp spec fn route_hops(route: Route) -> Seq<Hop>;

/// The fields that a transport message holds.
pub uninterp spec fn transport_envelope(message: TransportMessage) -> Envelope;

/// The transport message and local metadata that a local message holds.
pub uninterp spec fn local_envelope(message: LocalMessage) -> LocalEnvelope;

/// What `Address::from_str` makes of a string: the address, or `None` where
/// the string is no address.
pub uninterp spec fn parsed_address(text: Seq<char>) -> Option<Hop>;

/// What decoding bytes as a transport message gives: the envelope, or `None`
/// where the bytes are no envelope.
pub uninterp spec fn decoded_envelope(data: Seq<u8>) -> Option<Envelope>;

/// The address that a string without a `#` stands for: a local address,
/// which is type 0, with the string's bytes.
pub open spec fn plain_address(text: Seq<char>) -> Hop {
    Hop { tt: 0, name: encode_utf8(text) }
}

/// Whether a string is an address. A string without a `#` always is; one
/// with a `#` is if `Address::from_str` accepts it.
pub open spec fn is_address(text: Seq<char>) -> bool {
    !text.contains('#') || parsed_address(text) is Some
}

/// The address that a string stands for, where it is one.
pub open spec fn address_of(text: Seq<char>) -> Hop {
    if text.contains('#') {
        parsed_address(text)->0
    } else {
        plain_address(text)
    }
}

/// The hop of an address that may be absent.
pub open spec fn optional_hop(address: Option<Address>) -> Option<Hop> {
    match address {
        Some(a) => Some(address_hop(a)),
        None => None,
    }
}

/// The envelope of a transport message that may be absent.
pub open spec fn optional_envelope(message: Option<TransportMessage>) -> Option<Envelope> {
    match message {
        Some(m) => Some(transport_envelope(m)),
        None => None,
    }
}

/// The next hop of a route, if it has one.
pub open spec fn next_hop(route: Seq<Hop>) -> Option<Hop> {
    if route.len() > 0 {
        Some(route[0])
    } else {
        None
    }
}

/// The route behind its next hop; the empty route stays empty.
pub open spec fn after_next_hop(route: Seq<Hop>) -> Seq<Hop> {
    if route.len() > 0 {
        route.drop_first()
    } else {
        route
    }
}

/// `Address::from_str`: parses an address out of a string. The result is a
/// function of the string alone; an unparsable string gives `None`. A
/// string without a `#` is always parsed, to the address of type 0 that
/// holds the string's bytes; a string with two or more `#` never is.
#[verifier::external_body]
pub(crate) fn parse_address(text: &str) -> (res: Option<Address>)
    ensures
        optional_hop(res) == parsed_address(text@),
        !text@.contains('#') ==> optional_hop(res) == Some(plain_address(text@)),
        (exists|i: int, j: int|
            0 <= i < j < text@.len() && text@[i] == '#' && text@[j] == '#') ==> res is None,
{
    Address::from_str(text).ok()
}

/// `Address::clone`: the copy holds the same type and bytes.
#[verifier::external_body]
pub(crate) fn clone_address(address: &Address) -> (res: Address)
    ensures
        address_hop(res) == address_hop(*address),
{
    address.clone()
}

/// `Route::clone`: the copy holds the same hops.
#[verifier::external_body]
pub(crate) fn clone_route(route: &Route) -> (res: Route)
    ensures
        route_hops(res) == route_hops(*route),
{
    route.clone()
}

/// `Route::modify` and `RouteBuilder::append` on a copy of the route: the
/// result holds the route's hops followed by the given address.
#[verifier::external_body]
pub(crate) fn route_with_suffix(route: &Route, address: Address) -> (res: Route)
    ensures
        route_hops(res) == route_hops(*route).push(address_hop(address)),
{
    route.clone().modify().append(address).into()
}

/// `TransportMessage::decode`, which `ockam_core` implements for every
/// deserialisable type: reads a transport message out of bytes. The result
/// is a function of the bytes alone; bytes that are no message give `None`.
#[verifier::external_body]
pub(crate) fn decode_transport(data: &[u8]) -> (res: Option<TransportMessage>)
    ensures
        optional_envelope(res) == decoded_envelope(data@),
{
    TransportMessage::decode(data).ok()
}

/// `Route::modify` and `RouteBuilder::prepend` on the message's return
/// route: the address becomes the first hop of the return route and nothing
/// else changes.
#[verifier::external_body]
pub(crate) fn prepend_return_hop(message: &mut TransportMessage, address: &Address)
    ensures
        transport_envelope(*final(message)) == (Envelope {
            return_route: seq![address_hop(*address)] + transport_envelope(
                *old(message),
            ).return_route,
            ..transport_envelope(*old(message))
        }),
{
    message.return_route.modify().prepend(address.clone());
}

/// `Route::step` on the message's onward route: takes the next hop off the
/// onward route and returns it. With an empty onward route it returns `None`
/// and changes nothing.
#[verifier::external_body]
pub(crate) fn take_onward_hop(message: &mut TransportMessage) -> (res: Option<Address>)
    ensures
        optional_hop(res) == next_hop(transport_envelope(*old(message)).onward_route),
        transport_envelope(*final(message)) == (Envelope {
            onward_route: after_next_hop(transport_envelope(*old(message)).onward_route),
            ..transport_envelope(*old(message))
        }),
{
    message.onward_route.step().ok()
}

/// `LocalMessage::new`: wraps a transport message and local metadata.
#[verifier::external_body]
pub(crate) fn local_message(message: TransportMessage, local_info: Vec<u8>) -> (res: LocalMessage)
    ensures
        local_envelope(res) == (LocalEnvelope {
            envelope: transport_envelope(message),
            local_info: local_info@,
        }),
{
    LocalMessage::new(message, local_info)
}

} // verus!
