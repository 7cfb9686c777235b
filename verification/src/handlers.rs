//! Routing broker events to registered clients.
//!
//! The router takes one broker event at a time, in the order in which the
//! broker delivered them: it decodes the event, looks its destination up and
//! enqueues the text on that client's outbound queue. Nothing here waits, and
//! no outcome of one event keeps the next from being routed.

use crate::mqtt::{decode, decode_spec, DecodeError, DecodeMode, RoutableEvent, RoutableEventView};
use crate::registry::{
    delivery_spec, dispatch_spec, perform, Delivery, Dispatch, Registry, RegistryView,
};
use crate::ws::OutboundMessage;
use vstd::prelude::*;

verus! {

/// What the broker connection handed over: a message published on a topic, or
/// any other event of the connection.
#[derive(Debug, Clone, PartialEq, Eq)]
pub enum BrokerEvent {
    Publish { topic: String, payload: Vec<u8> },
    Other,
}

/// What the router did with what it was handed.
#[derive(Clone, Copy, Debug, PartialEq, Eq, Structural)]
pub enum RouterStep {
    /// The event was a published message, which was decoded and sent on.
    Routed(Delivery),
    /// The event was a published message that could not be decoded.
    Undecodable(DecodeError),
    /// The event was no published message and was passed over.
    Skipped,
    /// The broker connection is lost: no more events will come.
    Stopped,
}

/// What the router is to do next.
#[derive(Debug)]
pub enum RouterAction {
    /// Send the event to the client it names.
    Route(RoutableEvent),
    /// Report a published message that could not be decoded, and go on.
    Report(DecodeError),
    /// Go on: the event was no published message.
    Skip,
    /// Stop: the broker connection is lost.
    Stop,
}

/// What routing a broker message can end in: the decode error, where it does
/// not decode; otherwise a delivery to the destination it decodes to.
pub open spec fn route_spec(
    registry: RegistryView,
    decoded: Result<RoutableEventView, DecodeError>,
    routed: Result<Delivery, DecodeError>,
) -> bool {
    match decoded {
        Ok(event) => routed matches Ok(delivery) && delivery_spec(
            registry,
            event.destination_id,
            delivery,
        ),
        Err(e) => routed == Err::<Delivery, DecodeError>(e),
    }
}

/// Decides where a decoded event goes: its body, as one text message, to the
/// handle that a fresh lookup of its destination finds.
pub fn plan_route(clients: &Registry, event: RoutableEvent) -> (dispatch: Dispatch)
    ensures
        dispatch == dispatch_spec(
            clients@,
            event.destination_id@,
            OutboundMessage::Text(event.body),
        ),
{
    let RoutableEvent { destination_id, body } = event;
    clients.plan(destination_id.as_str(), OutboundMessage::Text(body))
}

/// Sends a decoded event to the client it names, as one text message.
pub fn route(clients: &Registry, event: RoutableEvent) -> (delivery: Delivery)
    ensures
        delivery_spec(clients@, event.destination_id@, delivery),
{
    perform(plan_route(clients, event))
}

/// Decodes one broker message and sends it to the client it names. A message
/// that does not decode is reported and goes nowhere.
pub fn route_publish(clients: &Registry, mode: DecodeMode, topic: &str, payload: &[u8]) -> (routed:
    Result<Delivery, DecodeError>)
    ensures
        route_spec(clients@, decode_spec(mode, topic@, payload@), routed),
{
    match decode(mode, topic, payload) {
        Ok(event) => Ok(route(clients, event)),
        Err(e) => Err(e),
    }
}

/// Decides what the router does with what it was handed: `polled` is the
/// next event of the broker connection, or `None` once the connection is
/// lost. The registry has no part in this.
pub fn next_action(mode: DecodeMode, polled: Option<&BrokerEvent>) -> (action: RouterAction)
    ensures
        match polled {
            Some(BrokerEvent::Publish { topic, payload }) => match decode_spec(
                mode,
                topic@,
                payload@,
            ) {
                Ok(event) => action matches RouterAction::Route(routed) && routed@ == event,
                Err(e) => action matches RouterAction::Report(reported) && reported == e,
            },
            Some(BrokerEvent::Other) => action is Skip,
            None => action is Stop,
        },
{
    match polled {
        Some(BrokerEvent::Publish { topic, payload }) => match decode(
            mode,
            topic.as_str(),
            payload.as_slice(),
        ) {
            Ok(event) => RouterAction::Route(event),
            Err(e) => RouterAction::Report(e),
        },
        Some(BrokerEvent::Other) => RouterAction::Skip,
        None => RouterAction::Stop,
    }
}

/// One turn of the router: decides on what it was handed and, where that is
/// an event to route, sends it on.
pub fn router_step(clients: &Registry, mode: DecodeMode, polled: Option<&BrokerEvent>) -> (step:
    RouterStep)
    ensures
        match polled {
            Some(BrokerEvent::Publish { topic, payload }) => match decode_spec(
                mode,
                topic@,
                payload@,
            ) {
                Ok(event) => step matches RouterStep::Routed(delivery) && delivery_spec(
                    clients@,
                    event.destination_id,
                    delivery,
                ),
                Err(e) => step == RouterStep::Undecodable(e),
            },
            Some(BrokerEvent::Other) => step == RouterStep::Skipped,
            None => step == RouterStep::Stopped,
        },
{
    match next_action(mode, polled) {
        RouterAction::Route(event) => RouterStep::Routed(route(clients, event)),
        RouterAction::Report(e) => RouterStep::Undecodable(e),
        RouterAction::Skip => RouterStep::Skipped,
        RouterAction::Stop => RouterStep::Stopped,
    }
}

} // verus!
