//! What the server sends unasked, and how it reaches an app's listener.

use atomic_take::AtomicTake;
use bytes::Bytes;
use vstd::prelude::*;

use crate::requester::into_boxed_slice;
use crate::requester::SendError;
use crate::time::Timestamp;

verus! {

/// The container of the `atomic-take` crate, which hands its value out once.
#[verifier::external_type_specification]
#[verifier::external_body]
#[verifier::reject_recursive_types(T)]
pub struct ExAtomicTake<T>(AtomicTake<T>);

/// What a container still holds: one value, or nothing.
pub uninterp spec fn held(slot: AtomicTake<u64>) -> Seq<u64>;

/// A container with a value, through `atomic_take::AtomicTake::new`. Claimed: it holds that value.
#[verifier::external_body]
fn slot_new(value: u64) -> (slot: AtomicTake<u64>)
    ensures
        held(slot) == seq![value],
{
    AtomicTake::new(value)
}

/// Takes the value out, through `atomic_take::AtomicTake::take`. Claimed: a container that holds a
/// value gives it, an empty one gives `None`, and either is empty afterwards.
#[verifier::external_body]
fn slot_take(slot: &mut AtomicTake<u64>) -> (value: Option<u64>)
    ensures
        value == if held(*old(slot)).len() > 0 {
            Some(held(*old(slot))[0])
        } else {
            None
        },
        held(*final(slot)).len() == 0,
{
    slot.take()
}

/// The means to acknowledge a message of the server, once. The reply that does so is known by a
/// number.
pub struct ServerMessageAck {
    inner: AtomicTake<u64>,
}

impl ServerMessageAck {
    /// The reply that has not been taken yet.
    pub closed spec fn pending(self) -> Option<u64> {
        if held(self.inner).len() > 0 {
            Some(held(self.inner)[0])
        } else {
            None
        }
    }

    pub fn new(send_ack: u64) -> (ack: ServerMessageAck)
        ensures
            ack.pending() == Some(send_ack),
    {
        ServerMessageAck { inner: slot_new(send_ack) }
    }

    /// The reply, for the first to ask.
    pub fn take(&mut self) -> (send_ack: Option<u64>)
        ensures
            send_ack == old(self).pending(),
            final(self).pending() is None,
    {
        slot_take(&mut self.inner)
    }
}

/// Why a connection ended.
pub enum DisconnectCause {
    /// It was closed on this side.
    LocalDisconnect,
    Error(SendError),
}

/// What happens on a chat connection.
pub enum ServerEvent {
    IncomingMessage {
        request_id: u64,
        envelope: Bytes,
        server_delivery_timestamp: Timestamp,
        send_ack: u64,
    },
    QueueEmpty,
    Alerts(Vec<String>),
    ServerTimestamp(Timestamp),
    Stopped(DisconnectCause),
}

/// The error that an ended connection is reported with. There is none where it was closed on this
/// side.
pub open spec fn cause_of(cause: DisconnectCause) -> Option<SendError> {
    match cause {
        DisconnectCause::LocalDisconnect => None,
        DisconnectCause::Error(error) => Some(error),
    }
}

fn disconnect_cause(cause: DisconnectCause) -> (error: Option<SendError>)
    ensures
        error == cause_of(cause),
{
    match cause {
        DisconnectCause::LocalDisconnect => None,
        DisconnectCause::Error(error) => Some(error),
    }
}

/// An app's callbacks for what happens on a chat connection.
pub trait ChatListener: Send {
    fn received_incoming_message(
        &mut self,
        envelope: Bytes,
        timestamp: Timestamp,
        ack: ServerMessageAck,
    );

    fn received_queue_empty(&mut self);

    fn received_alerts(&mut self, alerts: Box<[String]>);

    fn received_server_timestamp(&mut self, timestamp: Timestamp);

    fn connection_interrupted(&mut self, disconnect_cause: Option<SendError>);
}

/// What every [`ChatListener`] can be used for.
pub trait ChatListenerExt: ChatListener + Sized {
    /// Calls the one callback that `request` is for, with exactly what `request` holds.
    fn received_server_request(&mut self, request: ServerEvent)
        ensures
            match request {
                ServerEvent::IncomingMessage {
                    request_id: _,
                    envelope,
                    server_delivery_timestamp,
                    send_ack,
                } => exists|listener: &mut Self, ack: ServerMessageAck|
                    *listener == *old(self) && *final(listener) == *final(self) && ack.pending()
                        == Some(send_ack) && #[trigger] call_ensures(
                        Self::received_incoming_message,
                        (listener, envelope, server_delivery_timestamp, ack),
                        (),
                    ),
                ServerEvent::QueueEmpty => exists|listener: &mut Self|
                    *listener == *old(self) && *final(listener) == *final(self)
                        && #[trigger] call_ensures(Self::received_queue_empty, (listener,), ()),
                ServerEvent::Alerts(alerts) => exists|listener: &mut Self, boxed: Box<[String]>|
                    *listener == *old(self) && *final(listener) == *final(self) && boxed@ == alerts@
                        && #[trigger] call_ensures(Self::received_alerts, (listener, boxed), ()),
                ServerEvent::ServerTimestamp(timestamp) => exists|listener: &mut Self|
                    *listener == *old(self) && *final(listener) == *final(self)
                        && #[trigger] call_ensures(
                        Self::received_server_timestamp,
                        (listener, timestamp),
                        (),
                    ),
                ServerEvent::Stopped(DisconnectCause::LocalDisconnect) => exists|
                    listener: &mut Self,
                |
                    *listener == *old(self) && *final(listener) == *final(self)
                        && #[trigger] call_ensures(
                        Self::connection_interrupted,
                        (listener, None::<SendError>),
                        (),
                    ),
                ServerEvent::Stopped(DisconnectCause::Error(error)) => exists|
                    listener: &mut Self,
                |
                    *listener == *old(self) && *final(listener) == *final(self)
                        && #[trigger] call_ensures(
                        Self::connection_interrupted,
                        (listener, Some(error)),
                        (),
                    ),
            },
    {
        match request {
            ServerEvent::IncomingMessage {
                request_id: _,
                envelope,
                server_delivery_timestamp,
                send_ack,
            } => self.received_incoming_message(
                envelope,
                server_delivery_timestamp,
                ServerMessageAck::new(send_ack),
            ),
            ServerEvent::QueueEmpty => self.received_queue_empty(),
            ServerEvent::Alerts(alerts) => self.received_alerts(into_boxed_slice(alerts)),
            ServerEvent::ServerTimestamp(timestamp) => self.received_server_timestamp(timestamp),
            ServerEvent::Stopped(cause) => self.connection_interrupted(disconnect_cause(cause)),
        }
    }

    /// Makes the listener one for the events of a socket.
    fn into_event_listener(self) -> (listener: ChatEventListener<Self>)
        ensures
            listener.listener == self,
    {
        ChatEventListener { listener: self }
    }
}

impl<L: ChatListener> ChatListenerExt for L {

}

/// A [`ChatListener`] for the events of a socket.
pub struct ChatEventListener<L> {
    pub listener: L,
}

/// An event of a socket, before it is known what it means. `M` is a message of the server with the
/// means to answer it, and `X` says how a connection ended.
pub enum ListenerEvent<M, X> {
    ReceivedAlerts(Vec<String>),
    ReceivedMessage(M),
    ServerTimestamp(Timestamp),
    Finished(X),
}

impl<L: ChatListener> ChatEventListener<L> {
    /// Lets the listener know of an event. `to_server_event` says what the event means; where it
    /// cannot, the listener is left alone and the reason comes back.
    pub fn receive<M, X, E, F>(&mut self, event: ListenerEvent<M, X>, to_server_event: F) -> (
    rejected: Option<E>) where F: FnOnce(ListenerEvent<M, X>) -> Result<ServerEvent, E>

        requires
            call_requires(to_server_event, (event,)),
        ensures
            exists|meaning: Result<ServerEvent, E>|
                {
                    &&& #[trigger] call_ensures(to_server_event, (event,), meaning)
                    &&& match meaning {
                        Err(e) => rejected == Some(e) && *final(self) == *old(self),
                        Ok(request) => rejected is None && exists|listener: &mut L|
                            *listener == old(self).listener
                                && *final(listener) == final(self).listener
                                && #[trigger] call_ensures(
                                L::received_server_request,
                                (listener, request),
                                (),
                            ),
                    }
                },
    {
        match to_server_event(event) {
            Ok(request) => {
                self.listener.received_server_request(request);
                None
            },
            Err(e) => Some(e),
        }
    }
}

/// What happens on a connection on which a new device is set up.
pub enum ProvisioningEvent {
    ServerTimestamp(Timestamp),
    ReceivedAddress { address: String, send_ack: u64 },
    ReceivedEnvelope { envelope: Bytes, send_ack: u64 },
    Stopped(DisconnectCause),
}

/// An app's callbacks for what happens on a connection on which a new device is set up.
pub trait ProvisioningListener: Send {
    fn received_address(&mut self, address: String, send_ack: ServerMessageAck);

    fn received_envelope(&mut self, envelope: Bytes, send_ack: ServerMessageAck);

    fn connection_interrupted(&mut self, disconnect_cause: Option<SendError>);
}

/// What every [`ProvisioningListener`] can be used for.
pub trait ProvisioningListenerExt: ProvisioningListener + Sized {
    /// Calls the one callback that `request` is for, with exactly what `request` holds. The time
    /// on the server is kept from apps.
    fn received_server_request(&mut self, request: ProvisioningEvent)
        ensures
            match request {
                ProvisioningEvent::ServerTimestamp(_) => *final(self) == *old(self),
                ProvisioningEvent::ReceivedAddress { address, send_ack } => exists|
                    listener: &mut Self,
                    ack: ServerMessageAck,
                |
                    *listener == *old(self) && *final(listener) == *final(self) && ack.pending()
                        == Some(send_ack) && #[trigger] call_ensures(
                        Self::received_address,
                        (listener, address, ack),
                        (),
                    ),
                ProvisioningEvent::ReceivedEnvelope { envelope, send_ack } => exists|
                    listener: &mut Self,
                    ack: ServerMessageAck,
                |
                    *listener == *old(self) && *final(listener) == *final(self) && ack.pending()
                        == Some(send_ack) && #[trigger] call_ensures(
                        Self::received_envelope,
                        (listener, envelope, ack),
                        (),
                    ),
                ProvisioningEvent::Stopped(DisconnectCause::LocalDisconnect) => exists|
                    listener: &mut Self,
                |
                    *listener == *old(self) && *final(listener) == *final(self)
                        && #[trigger] call_ensures(
                        Self::connection_interrupted,
                        (listener, None::<SendError>),
                        (),
                    ),
                ProvisioningEvent::Stopped(DisconnectCause::Error(error)) => exists|
                    listener: &mut Self,
                |
                    *listener == *old(self) && *final(listener) == *final(self)
                        && #[trigger] call_ensures(
                        Self::connection_interrupted,
                        (listener, Some(error)),
                        (),
                    ),
            },
    {
        match request {
            ProvisioningEvent::ServerTimestamp(_) => {},
            ProvisioningEvent::ReceivedAddress { address, send_ack } => self.received_address(
                address,
                ServerMessageAck::new(send_ack),
            ),
            ProvisioningEvent::ReceivedEnvelope { envelope, send_ack } => self.received_envelope(
                envelope,
                ServerMessageAck::new(send_ack),
            ),
            ProvisioningEvent::Stopped(cause) => {
                self.connection_interrupted(disconnect_cause(cause))
            },
        }
    }

    /// Makes the listener one for the events of a socket.
    fn into_event_listener(self) -> (listener: ProvisioningEventListener<Self>)
        ensures
            listener.listener == self,
    {
        ProvisioningEventListener { listener: self }
    }
}

impl<L: ProvisioningListener> ProvisioningListenerExt for L {

}

/// A [`ProvisioningListener`] for the events of a socket.
pub struct ProvisioningEventListener<L> {
    pub listener: L,
}

/// What became of an event on a connection on which a new device is set up.
pub enum ProvisioningReceipt<E> {
    /// The listener knows of it, or need not.
    Received,
    /// Alerts, which are not expected there.
    UnexpectedAlerts(Vec<String>),
    /// It has no meaning there, for this reason.
    Rejected(E),
}

impl<L: ProvisioningListener> ProvisioningEventListener<L> {
    /// Lets the listener know of an event. Alerts are kept from it, whatever they are;
    /// `to_provisioning_event` says what any other event means. Where it cannot, the listener is
    /// left alone and the reason comes back.
    pub fn receive<M, X, E, F>(&mut self, event: ListenerEvent<M, X>, to_provisioning_event: F) -> (
    receipt: ProvisioningReceipt<E>) where
        F: FnOnce(ListenerEvent<M, X>) -> Result<ProvisioningEvent, E>,

        requires
            event is ReceivedAlerts || call_requires(to_provisioning_event, (event,)),
        ensures
            event matches ListenerEvent::ReceivedAlerts(alerts) ==> *final(self) == *old(self)
                && receipt == if alerts@.len() > 0 {
                ProvisioningReceipt::<E>::UnexpectedAlerts(alerts)
            } else {
                ProvisioningReceipt::<E>::Received
            },
            event is ReceivedAlerts || exists|meaning: Result<ProvisioningEvent, E>|
                {
                    &&& #[trigger] call_ensures(to_provisioning_event, (event,), meaning)
                    &&& match meaning {
                        Err(e) => receipt == ProvisioningReceipt::Rejected(e) && *final(self)
                            == *old(self),
                        Ok(request) => receipt is Received && exists|listener: &mut L|
                            *listener == old(self).listener
                                && *final(listener) == final(self).listener
                                && #[trigger] call_ensures(
                                L::received_server_request,
                                (listener, request),
                                (),
                            ),
                    }
                },
    {
        if let ListenerEvent::ReceivedAlerts(alerts) = event {
            if alerts.is_empty() {
                ProvisioningReceipt::Received
            } else {
                ProvisioningReceipt::UnexpectedAlerts(alerts)
            }
        } else {
            match to_provisioning_event(event) {
                Ok(request) => {
                    self.listener.received_server_request(request);
                    ProvisioningReceipt::Received
                },
                Err(e) => ProvisioningReceipt::Rejected(e),
            }
        }
    }
}

/// The listener of a connection for registration: it waits for the end, and lets go of a value
/// then.
pub struct RegistrationListener<D> {
    on_disconnect: Option<D>,
}

impl<D> RegistrationListener<D> {
    /// The value that is held until the connection ends.
    pub closed spec fn held_value(self) -> Option<D> {
        self.on_disconnect
    }

    /// `dropped` is what is let go of for an event.
    pub open spec fn is_receipt<M, X>(
        self,
        event: ListenerEvent<M, X>,
        dropped: Option<D>,
        after: RegistrationListener<D>,
    ) -> bool {
        if event is Finished {
            dropped == self.held_value() && after.held_value() is None
        } else {
            dropped is None && after == self
        }
    }

    pub fn new(drop_on_disconnect: D) -> (listener: RegistrationListener<D>)
        ensures
            listener.held_value() == Some(drop_on_disconnect),
    {
        RegistrationListener { on_disconnect: Some(drop_on_disconnect) }
    }

    /// The value to let go of, if the event is the end. Nothing else matters.
    pub fn receive<M, X>(&mut self, event: ListenerEvent<M, X>) -> (dropped: Option<D>)
        ensures
            old(self).is_receipt(event, dropped, *final(self)),
    {
        match event {
            ListenerEvent::Finished(_) => self.on_disconnect.take(),
            _ => None,
        }
    }
}

/// However many threads and times a message is acknowledged, the first to ask gets the reply and
/// nobody else does. `acks` are the states that the calls of `take` leave behind.
pub proof fn law_ack_is_single_use(
    acks: Seq<ServerMessageAck>,
    taken: Seq<Option<u64>>,
    send_ack: u64,
    k: int,
)
    requires
        acks.len() == taken.len() + 1,
        acks[0].pending() == Some(send_ack),
        forall|i: int|
            #![trigger taken[i]]
            0 <= i < taken.len() ==> taken[i] == acks[i].pending() && acks[i + 1].pending() is None,
        0 <= k < taken.len(),
    ensures
        taken[k] == if k == 0 {
            Some(send_ack)
        } else {
            None
        },
{
    if k > 0 {
        assert(taken[k - 1] == acks[k - 1].pending());
    }
    assert(taken[k] == acks[k].pending());
}

/// The value of a connection for registration is let go of at the first end and at no other event.
pub proof fn law_registration_ends_once<D, M, X>(
    listeners: Seq<RegistrationListener<D>>,
    events: Seq<ListenerEvent<M, X>>,
    dropped: Seq<Option<D>>,
    value: D,
    k: int,
)
    requires
        events.len() == dropped.len(),
        listeners.len() == events.len() + 1,
        listeners[0].held_value() == Some(value),
        forall|i: int|
            #![trigger events[i]]
            0 <= i < events.len() ==> listeners[i].is_receipt(
                events[i],
                dropped[i],
                listeners[i + 1],
            ),
        0 <= k < events.len(),
    ensures
        dropped[k] == if events[k] is Finished && forall|i: int|
            0 <= i < k ==> !(#[trigger] events[i] is Finished) {
            Some(value)
        } else {
            None
        },
{
    lemma_registration_state(listeners, events, dropped, value, k);
    assert(listeners[k].is_receipt(events[k], dropped[k], listeners[k + 1]));
}

proof fn lemma_registration_state<D, M, X>(
    listeners: Seq<RegistrationListener<D>>,
    events: Seq<ListenerEvent<M, X>>,
    dropped: Seq<Option<D>>,
    value: D,
    k: int,
)
    requires
        events.len() == dropped.len(),
        listeners.len() == events.len() + 1,
        listeners[0].held_value() == Some(value),
        forall|i: int|
            #![trigger events[i]]
            0 <= i < events.len() ==> listeners[i].is_receipt(
                events[i],
                dropped[i],
                listeners[i + 1],
            ),
        0 <= k < listeners.len(),
    ensures
        listeners[k].held_value() == if forall|i: int|
            0 <= i < k ==> !(#[trigger] events[i] is Finished) {
            Some(value)
        } else {
            None
        },
    decreases k,
{
    if k > 0 {
        lemma_registration_state(listeners, events, dropped, value, k - 1);
        assert(listeners[k - 1].is_receipt(events[k - 1], dropped[k - 1], listeners[k]));
    }
}

/// A listener hears of no error exactly where the connection was closed on this side, and otherwise
/// of the very error that ended it.
pub proof fn law_only_a_local_end_has_no_error(cause: DisconnectCause, error: SendError)
    ensures
        cause_of(cause) is None <==> cause == DisconnectCause::LocalDisconnect,
        cause_of(DisconnectCause::Error(error)) == Some(error),
{
}

/// Two ends that a listener hears the same of are the same.
pub proof fn law_ends_stay_apart(one: DisconnectCause, other: DisconnectCause)
    requires
        cause_of(one) == cause_of(other),
    ensures
        one == other,
{
}

} // verus!
