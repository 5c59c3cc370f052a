//! Routing the messages of a batch: each payload is decoded as a transport
//! envelope and either relayed along the envelope's onward route or handed
//! to the local receiver.

use crate::action::{actions_view, optional_action, Action};
use crate::messages::{batch_view, StreamMessage};
use crate::model::{deliveries, delivery, routing};
use crate::routing::{
    address_hop, clone_address, decode_transport, decoded_envelope, local_message,
    optional_envelope, optional_hop, prepend_return_hop, take_onward_hop,
};
use ockam_core::{Address, TransportMessage};
use vstd::prelude::*;

verus! {

/// Decides what becomes of a stream message whose payload has been decoded
/// already; `decoded` is `None` where the payload is no envelope.
pub fn route_decoded(
    decoded: Option<TransportMessage>,
    message: StreamMessage,
    producer: &Option<Address>,
    receiver: &Address,
) -> (action: Option<Action>)
    ensures
        optional_action(action) == delivery(
            optional_envelope(decoded),
            message@,
            optional_hop(*producer),
            address_hop(*receiver),
        ),
{
    match decoded {
        None => None,
        Some(mut envelope) => {
            match producer {
                Some(address) => {
                    prepend_return_hop(&mut envelope, address);
                },
                None => {},
            }
            match take_onward_hop(&mut envelope) {
                Some(next_hop) => Some(
                    Action::Forward { next_hop, envelope: local_message(envelope, Vec::new()) },
                ),
                None => Some(Action::Deliver { receiver: clone_address(receiver), message }),
            }
        },
    }
}

/// Decodes the payload of a stream message and decides what becomes of the
/// message. An undecodable payload gives no action.
pub fn route_message(
    message: StreamMessage,
    producer: &Option<Address>,
    receiver: &Address,
) -> (action: Option<Action>)
    ensures
        optional_action(action) == delivery(
            decoded_envelope(message.data@),
            message@,
            optional_hop(*producer),
            address_hop(*receiver),
        ),
{
    let decoded = decode_transport(message.data.as_slice());
    route_decoded(decoded, message, producer, receiver)
}

/// Routes a whole batch in order. A message that cannot be decoded is
/// skipped; the messages after it are routed all the same.
pub fn route_batch(
    messages: Vec<StreamMessage>,
    producer: &Option<Address>,
    receiver: &Address,
) -> (actions: Vec<Action>)
    ensures
        actions_view(actions@) == deliveries(
            batch_view(messages@),
            optional_hop(*producer),
            address_hop(*receiver),
        ),
{
    let ghost batch = batch_view(messages@);
    let mut actions: Vec<Action> = Vec::new();
    for message in iter: messages
        invariant
            batch == batch_view(messages@),
            iter.seq() == messages@,
            actions_view(actions@) == deliveries(
                batch.take(iter.index() as int),
                optional_hop(*producer),
                address_hop(*receiver),
            ),
    {
        let ghost done = iter.index() as int;
        proof {
            batch.lemma_filter_map_take_succ(
                routing(optional_hop(*producer), address_hop(*receiver)),
                done,
            );
        }
        match route_message(message, producer, receiver) {
            Some(action) => {
                actions.push(action);
            },
            None => {},
        }
    }
    assert(batch.take(batch.len() as int) == batch);
    actions
}

} // verus!
