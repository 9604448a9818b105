//! Connections: what a running one sends on, and how one gets to run.
//!
//! A socket stands here for whatever an app's network stack opens: `S` is the socket itself, `H`
//! its HTTP/2 companion, `P` an open connection that has no listener yet, and `G` a message that
//! goes over gRPC. `R` is a requester, which takes the place of a socket.

use std::time::Duration;

use vstd::prelude::*;

use crate::account;
use crate::account::Aci;
use crate::account::DeviceId;
use crate::body;
use crate::connect::establish_chat_connection;
use crate::connect::make_route_provider;
use crate::connect::AuthenticatedChatHeaders;
use crate::connect::ChatEndpoint;
use crate::connect::ChatHeaders;
use crate::connect::ConnectError;
use crate::connect::ConnectionAttempt;
use crate::connect::ConnectionSettings;
use crate::connect::DirectOrProxyMode;
use crate::connect::EnableDomainFronting;
use crate::connect::EnforceMinimumTls;
use crate::connect::InvalidProxyConfig;
use crate::connect::Preconnect;
use crate::connect::UnauthenticatedChatHeaders;
use crate::listener::ChatEventListener;
use crate::listener::ChatListener;
use crate::listener::ChatListenerExt;
use crate::listener::ProvisioningEventListener;
use crate::listener::ProvisioningListener;
use crate::listener::ProvisioningListenerExt;
use crate::listener::RegistrationListener;
use crate::log_line;
use crate::log_line::request_line;
use crate::request::Request;
use crate::requester;
use crate::requester::RequesterConnection;
use crate::requester::SendError;
use crate::requester::StartedRequest;

verus! {

/// What is known of how a socket was reached.
#[derive(PartialEq, Eq, Debug)]
pub struct ConnectionInfo {
    /// The route, in the words of the network stack.
    pub route: String,
    /// Whether the route goes through a proxy.
    pub proxied: bool,
}

pub type ChatConnectionInfo = ConnectionInfo;

impl Clone for ConnectionInfo {
    fn clone(&self) -> (info: ConnectionInfo)
        ensures
            info == *self,
    {
        ConnectionInfo { route: self.route.clone(), proxied: self.proxied }
    }
}

/// A connection over a socket.
pub struct ChatConnection<S, H> {
    pub socket: S,
    pub info: ConnectionInfo,
    pub shared_h2: Option<H>,
    pub self_aci: Option<Aci>,
}

/// What a running connection sends on: a socket, or a requester that the app supplies.
///
/// Services above the wire need no more than that a request goes out and a response comes back,
/// and run over either. Calls over gRPC are the exception: they need the socket's HTTP/2
/// companion, which a requester does not have.
pub enum ChatWire<S, H, R> {
    Ws(ChatConnection<S, H>),
    Requester(RequesterConnection<R>),
}

/// Where a request goes out.
pub enum Outgoing {
    /// To the socket, which is given `timeout` for it.
    Socket { request: Request, timeout: Duration },
    /// To the requester, under this number, unless it is refused.
    Requester { request_id: u64, started: Result<StartedRequest, SendError> },
}

/// Where a request of a service goes out.
pub enum ServiceOutgoing {
    /// To the socket, which also logs it.
    Socket { request: Request },
    /// To the requester, under this number and with this line in the log, unless it is refused.
    Requester { request_id: u64, line: String, started: Result<StartedRequest, SendError> },
}

impl<S, H, R> ChatWire<S, H, R> {
    /// `outgoing` is how `request` leaves over `self`, and `after` is what the wire is then.
    pub open spec fn sends(
        self,
        request: Request,
        timeout: Duration,
        outgoing: Outgoing,
        after: ChatWire<S, H, R>,
    ) -> bool {
        match self {
            ChatWire::Ws(_) => {
                &&& outgoing == Outgoing::Socket { request, timeout }
                &&& after == self
            },
            ChatWire::Requester(connection) => {
                &&& outgoing matches Outgoing::Requester { request_id, started }
                &&& request_id == connection.next_request_id()
                &&& StartedRequest::is_start_of(request, request_id, started)
                &&& after matches ChatWire::Requester(next)
                &&& next.next_request_id() == requester::id_after(connection.next_request_id())
                &&& next.requester() == connection.requester()
                &&& next.aci() == connection.aci()
            },
        }
    }

    /// `outgoing` is how a service's `request` leaves over `self`, and `after` is what the wire is
    /// then.
    pub open spec fn sends_for_service(
        self,
        log_tag: Seq<char>,
        log_safe_path: Seq<char>,
        request: Request,
        outgoing: ServiceOutgoing,
        after: ChatWire<S, H, R>,
    ) -> bool {
        match self {
            ChatWire::Ws(_) => {
                &&& outgoing == ServiceOutgoing::Socket { request }
                &&& after == self
            },
            ChatWire::Requester(connection) => {
                &&& outgoing matches ServiceOutgoing::Requester { request_id, line, started }
                &&& request_id == connection.next_request_id()
                &&& line@ == log_line::request_text(
                    log_tag,
                    request_id,
                    request.method@,
                    log_safe_path,
                )
                &&& StartedRequest::is_start_of(request, request_id, started)
                &&& after matches ChatWire::Requester(next)
                &&& next.next_request_id() == requester::id_after(connection.next_request_id())
                &&& next.requester() == connection.requester()
                &&& next.aci() == connection.aci()
            },
        }
    }

    pub open spec fn info(self) -> Option<ConnectionInfo> {
        match self {
            ChatWire::Ws(connection) => Some(connection.info),
            ChatWire::Requester(_) => None,
        }
    }

    pub open spec fn h2(self) -> Option<H> {
        match self {
            ChatWire::Ws(connection) => connection.shared_h2,
            ChatWire::Requester(_) => None,
        }
    }

    pub open spec fn aci(self) -> Option<Aci> {
        match self {
            ChatWire::Ws(connection) => connection.self_aci,
            ChatWire::Requester(connection) => connection.aci(),
        }
    }

    /// Gets a request ready to go out. A requester is handed it under a number of its own; the
    /// time limit is for a socket alone.
    pub fn send(&mut self, msg: Request, timeout: Duration) -> (outgoing: Outgoing)
        ensures
            old(self).sends(msg, timeout, outgoing, *final(self)),
            *old(self) is Ws ==> outgoing == (Outgoing::Socket { request: msg, timeout })
                && *final(self) == *old(self),
            *old(self) is Requester ==> outgoing is Requester && *final(self) is Requester,
    {
        match self {
            ChatWire::Ws(_) => Outgoing::Socket { request: msg, timeout },
            ChatWire::Requester(connection) => {
                let request_id: u64 = connection.allocate_request_id();
                Outgoing::Requester { request_id, started: StartedRequest::begin(msg, request_id) }
            },
        }
    }

    /// Gets a request of a service ready to go out, and into the log. A socket logs what it sends
    /// itself.
    pub fn send_for_service(&mut self, log_tag: &str, log_safe_path: &str, request: Request) -> (
    outgoing: ServiceOutgoing)
        ensures
            old(self).sends_for_service(
                log_tag@,
                log_safe_path@,
                request,
                outgoing,
                *final(self),
            ),
            *old(self) is Ws ==> outgoing == (ServiceOutgoing::Socket { request })
                && *final(self) == *old(self),
            *old(self) is Requester ==> outgoing is Requester && *final(self) is Requester,
    {
        match self {
            ChatWire::Ws(_) => ServiceOutgoing::Socket { request },
            ChatWire::Requester(connection) => {
                let request_id: u64 = connection.allocate_request_id();
                let line: String = request_line(
                    log_tag,
                    request_id,
                    &request.method,
                    log_safe_path,
                );
                ServiceOutgoing::Requester {
                    request_id,
                    line,
                    started: StartedRequest::begin(request, request_id),
                }
            },
        }
    }

    /// The socket to close, if there is one.
    pub fn disconnect(&self) -> (socket: Option<&S>)
        ensures
            match self {
                ChatWire::Ws(connection) => socket == Some(&connection.socket),
                ChatWire::Requester(_) => socket is None,
            },
    {
        match self {
            ChatWire::Ws(connection) => Some(&connection.socket),
            ChatWire::Requester(_) => None,
        }
    }

    /// How the socket was reached. `None` for a requester: there is no socket to describe.
    pub fn connection_info(&self) -> (info: Option<&ConnectionInfo>)
        ensures
            info is Some <==> self.info() is Some,
            info matches Some(i) ==> *i == self.info()->0,
            match self {
                ChatWire::Ws(connection) => info == Some(&connection.info),
                ChatWire::Requester(_) => info is None,
            },
    {
        match self {
            ChatWire::Ws(connection) => Some(&connection.info),
            ChatWire::Requester(_) => None,
        }
    }

    /// The HTTP/2 companion of the socket. `None` for a requester, which has none.
    pub fn shared_h2_connection(&self) -> (h2: Option<&H>)
        ensures
            h2 is Some <==> self.h2() is Some,
            h2 matches Some(h) ==> *h == self.h2()->0,
            match self {
                ChatWire::Ws(connection) => match connection.shared_h2 {
                    Some(companion) => h2 == Some(&companion),
                    None => h2 is None,
                },
                ChatWire::Requester(_) => h2 is None,
            },
    {
        match self {
            ChatWire::Ws(connection) => connection.shared_h2.as_ref(),
            ChatWire::Requester(_) => None,
        }
    }

    /// The gRPC service that a message goes to in place of the wire, which `of_socket` says of a
    /// socket. A requester has none.
    pub fn grpc_service_to_use_instead<G, F>(&self, of_socket: F) -> (service: Option<G>) where
        F: FnOnce(&ChatConnection<S, H>) -> Option<G>,

        requires
            self matches ChatWire::Ws(connection) ==> call_requires(of_socket, (connection,)),
        ensures
            match self {
                ChatWire::Ws(connection) => call_ensures(of_socket, (connection,), service),
                ChatWire::Requester(_) => service is None,
            },
    {
        match self {
            ChatWire::Ws(connection) => of_socket(connection),
            ChatWire::Requester(_) => None,
        }
    }

    /// The account that the connection is signed in to.
    pub fn self_aci(&self) -> (aci: Option<Aci>)
        ensures
            aci == self.aci(),
            match self {
                ChatWire::Ws(connection) => aci == connection.self_aci,
                ChatWire::Requester(connection) => aci == connection.aci(),
            },
    {
        match self {
            ChatWire::Ws(connection) => connection.self_aci,
            ChatWire::Requester(connection) => connection.self_aci(),
        }
    }
}

/// A connection that may not run yet.
pub enum MaybeChatConnection<S, H, P, G, R> {
    Running(ChatWire<S, H, R>),
    /// Open, but without a listener for what the server sends.
    WaitingForListener { pending: P, grpc_overrides: Vec<G> },
    /// Between the other two. Nothing but [`MaybeChatConnection::init_listener`] sees it.
    TemporarilyEvicted,
}

/// How far a connection has got.
#[derive(Clone, Copy, PartialEq, Eq, Debug, Structural)]
pub enum Phase {
    Running,
    WaitingForListener,
    TemporarilyEvicted,
}

/// What there is to close.
pub enum Disconnect<'a, S, P> {
    Socket(&'a S),
    Pending(&'a P),
    Nothing,
}

impl<S, H, P, G, R> MaybeChatConnection<S, H, P, G, R> {
    pub open spec fn spec_phase(self) -> Phase {
        match self {
            MaybeChatConnection::Running(_) => Phase::Running,
            MaybeChatConnection::WaitingForListener { .. } => Phase::WaitingForListener,
            MaybeChatConnection::TemporarilyEvicted => Phase::TemporarilyEvicted,
        }
    }

    /// Runs over a requester that has been asked for nothing yet.
    pub open spec fn is_new_over(self, requester: R, aci: Option<Aci>) -> bool {
        &&& self matches MaybeChatConnection::Running(ChatWire::Requester(connection))
        &&& connection.requester() == requester
        &&& connection.aci() == aci
        &&& connection.next_request_id() == 0
    }

    /// What a connection turns into when `listener` is set.
    pub open spec fn is_start_of<L, F>(
        self,
        listener: L,
        finish_connect: F,
        started: MaybeChatConnection<S, H, P, G, R>,
    ) -> bool where F: FnOnce(P, Vec<G>, L) -> ChatConnection<S, H> {
        &&& self is WaitingForListener
        &&& started matches MaybeChatConnection::Running(ChatWire::Ws(connection))
        &&& call_ensures(
            finish_connect,
            (self->pending, self->grpc_overrides, listener),
            connection,
        )
    }

    /// `target` is what has to be closed.
    pub open spec fn closes(self, target: Disconnect<'_, S, P>) -> bool {
        match self {
            MaybeChatConnection::Running(ChatWire::Ws(connection)) => target
                matches Disconnect::Socket(socket) && *socket == connection.socket,
            MaybeChatConnection::WaitingForListener { pending, .. } => target
                matches Disconnect::Pending(waiting) && *waiting == pending,
            _ => target is Nothing,
        }
    }

    /// There is a socket to describe, by `of_pending` if it waits for a listener.
    pub open spec fn can_describe<F>(self, of_pending: F) -> bool where
        F: FnOnce(&P) -> ConnectionInfo,
     {
        match self {
            MaybeChatConnection::Running(wire) => wire.info() is Some,
            MaybeChatConnection::WaitingForListener { pending, .. } => call_requires(
                of_pending,
                (&pending,),
            ),
            MaybeChatConnection::TemporarilyEvicted => false,
        }
    }

    /// `info` is how the socket was reached.
    pub open spec fn is_description<F>(self, of_pending: F, info: ConnectionInfo) -> bool where
        F: FnOnce(&P) -> ConnectionInfo,
     {
        match self {
            MaybeChatConnection::Running(wire) => wire.info() == Some(info),
            MaybeChatConnection::WaitingForListener { pending, .. } => call_ensures(
                of_pending,
                (&pending,),
                info,
            ),
            MaybeChatConnection::TemporarilyEvicted => false,
        }
    }

    /// How far the connection has got.
    pub fn phase(&self) -> (phase: Phase)
        ensures
            phase == self.spec_phase(),
            self is Running <==> phase == Phase::Running,
            self is WaitingForListener <==> phase == Phase::WaitingForListener,
    {
        match self {
            MaybeChatConnection::Running(_) => Phase::Running,
            MaybeChatConnection::WaitingForListener { .. } => Phase::WaitingForListener,
            MaybeChatConnection::TemporarilyEvicted => Phase::TemporarilyEvicted,
        }
    }

    /// Sets the listener of a connection that waits for one, and so gets it to run.
    /// `finish_connect` makes the running connection.
    pub fn init_listener<L, F>(&mut self, listener: L, finish_connect: F) where
        F: FnOnce(P, Vec<G>, L) -> ChatConnection<S, H>,

        requires
            *old(self) is WaitingForListener,
            call_requires(
                finish_connect,
                ((*old(self))->pending, (*old(self))->grpc_overrides, listener),
            ),
        ensures
            old(self).is_start_of(listener, finish_connect, *final(self)),
            *final(self) matches MaybeChatConnection::Running(ChatWire::Ws(connection))
                && call_ensures(
                finish_connect,
                ((*old(self))->pending, (*old(self))->grpc_overrides, listener),
                connection,
            ),
    {
        let mut taken: MaybeChatConnection<S, H, P, G, R> = MaybeChatConnection::TemporarilyEvicted;
        std::mem::swap(self, &mut taken);
        match taken {
            MaybeChatConnection::WaitingForListener { pending, grpc_overrides } => {
                let connection = finish_connect(pending, grpc_overrides, listener);
                *self = MaybeChatConnection::Running(ChatWire::Ws(connection));
            },
            _ => {},
        }
    }

    /// The wire of a running connection.
    pub fn running(&self) -> (wire: &ChatWire<S, H, R>)
        requires
            self is Running,
        ensures
            *wire == self->Running_0,
    {
        match self {
            MaybeChatConnection::Running(wire) => wire,
            _ => vstd::pervasive::unreached(),
        }
    }

    /// The wire of a running connection, to send on.
    pub fn running_mut(&mut self) -> (wire: &mut ChatWire<S, H, R>)
        requires
            *old(self) is Running,
        ensures
            *wire == (*old(self))->Running_0,
            *final(self) == MaybeChatConnection::<S, H, P, G, R>::Running(*final(wire)),
    {
        match self {
            MaybeChatConnection::Running(wire) => wire,
            _ => vstd::pervasive::unreached(),
        }
    }

    /// The HTTP/2 companion of a running connection that has one.
    pub fn require_grpc(&self) -> (h2: &H)
        requires
            self is Running,
            self->Running_0.h2() is Some,
        ensures
            Some(*h2) == self->Running_0.h2(),
    {
        match self.running().shared_h2_connection() {
            Some(h2) => h2,
            None => vstd::pervasive::unreached(),
        }
    }

    /// Gets a request ready to go out over a running connection.
    pub fn send(&mut self, message: Request, timeout: Duration) -> (outgoing: Outgoing)
        requires
            *old(self) is Running,
        ensures
            *final(self) is Running,
            (*old(self))->Running_0.sends(message, timeout, outgoing, (*final(self))->Running_0),
    {
        self.running_mut().send(message, timeout)
    }

    /// What to close: the socket of a running connection, or the one that waits for a listener.
    /// A requester is nothing to close.
    pub fn disconnect(&self) -> (target: Disconnect<'_, S, P>)
        requires
            !(self is TemporarilyEvicted),
        ensures
            self.closes(target),
            match self {
                MaybeChatConnection::Running(ChatWire::Ws(connection)) => target
                    == Disconnect::<'_, S, P>::Socket(&connection.socket),
                MaybeChatConnection::Running(ChatWire::Requester(_)) => target is Nothing,
                MaybeChatConnection::WaitingForListener { pending, .. } => target
                    == Disconnect::<'_, S, P>::Pending(&pending),
                MaybeChatConnection::TemporarilyEvicted => true,
            },
    {
        match self {
            MaybeChatConnection::Running(wire) => match wire.disconnect() {
                Some(socket) => Disconnect::Socket(socket),
                None => Disconnect::Nothing,
            },
            MaybeChatConnection::WaitingForListener { pending, .. } => Disconnect::Pending(pending),
            MaybeChatConnection::TemporarilyEvicted => Disconnect::Nothing,
        }
    }

    /// How the socket was reached; of one that waits for a listener, `of_pending` says so. A
    /// connection over a requester has no socket to describe.
    pub fn info<F>(&self, of_pending: F) -> (info: ConnectionInfo) where
        F: FnOnce(&P) -> ConnectionInfo,

        requires
            self.can_describe(of_pending),
        ensures
            self.is_description(of_pending, info),
    {
        match self {
            MaybeChatConnection::Running(wire) => match wire.connection_info() {
                Some(info) => info.clone(),
                None => vstd::pervasive::unreached(),
            },
            MaybeChatConnection::WaitingForListener { pending, .. } => of_pending(pending),
            MaybeChatConnection::TemporarilyEvicted => vstd::pervasive::unreached(),
        }
    }
}

/// What every kind of connection offers to apps.
pub trait BridgeChatConnection<S, H, P, G, R>: Sized {
    spec fn connection(&self) -> MaybeChatConnection<S, H, P, G, R>;

    fn inner(&self) -> (inner: &MaybeChatConnection<S, H, P, G, R>)
        ensures
            *inner == self.connection(),
    ;

    fn inner_mut(&mut self) -> (inner: &mut MaybeChatConnection<S, H, P, G, R>)
        ensures
            *inner == old(self).connection(),
            final(self).connection() == *final(inner),
    ;

    /// Sets the listener of a connection that waits for one, and so gets it to run.
    fn init_listener<L: ChatListener, F>(&mut self, listener: L, finish_connect: F) where
        F: FnOnce(P, Vec<G>, ChatEventListener<L>) -> ChatConnection<S, H>,

        requires
            old(self).connection() is WaitingForListener,
            call_requires(
                finish_connect,
                (
                    old(self).connection()->pending,
                    old(self).connection()->grpc_overrides,
                    ChatEventListener { listener },
                ),
            ),
        ensures
            old(self).connection().is_start_of(
                ChatEventListener { listener },
                finish_connect,
                final(self).connection(),
            ),
    {
        self.inner_mut().init_listener(listener.into_event_listener(), finish_connect)
    }

    /// Gets a request ready to go out over a running connection.
    fn send(&mut self, message: Request, timeout: Duration) -> (outgoing: Outgoing)
        requires
            old(self).connection() is Running,
        ensures
            final(self).connection() is Running,
            old(self).connection()->Running_0.sends(
                message,
                timeout,
                outgoing,
                final(self).connection()->Running_0,
            ),
    {
        self.inner_mut().send(message, timeout)
    }

    /// What to close.
    fn disconnect<'a>(&'a self) -> (target: Disconnect<'a, S, P>) where
        S: 'a,
        H: 'a,
        P: 'a,
        G: 'a,
        R: 'a,

        requires
            !(self.connection() is TemporarilyEvicted),
        ensures
            self.connection().closes(target),
    {
        self.inner().disconnect()
    }

    /// How the socket was reached; of one that waits for a listener, `of_pending` says so.
    fn info<F>(&self, of_pending: F) -> (info: ConnectionInfo) where
        F: FnOnce(&P) -> ConnectionInfo,

        requires
            self.connection().can_describe(of_pending),
        ensures
            self.connection().is_description(of_pending, info),
    {
        self.inner().info(of_pending)
    }
}

/// A connection, in the hands of services that need no account.
pub struct Unauth<T>(pub T);

/// A connection, in the hands of services of the account that it is signed in to.
pub struct Auth<T>(pub T);

/// A connection without an account.
pub struct UnauthenticatedChatConnection<S, H, P, G, R> {
    inner: MaybeChatConnection<S, H, P, G, R>,
}

/// A connection that is signed in.
pub struct AuthenticatedChatConnection<S, H, P, G, R> {
    inner: MaybeChatConnection<S, H, P, G, R>,
}

/// A connection on which a new device is set up.
pub struct ProvisioningChatConnection<S, H, P, G, R> {
    inner: MaybeChatConnection<S, H, P, G, R>,
}

impl<S, H, P, G, R> BridgeChatConnection<S, H, P, G, R> for UnauthenticatedChatConnection<
    S,
    H,
    P,
    G,
    R,
> {
    closed spec fn connection(&self) -> MaybeChatConnection<S, H, P, G, R> {
        self.inner
    }

    fn inner(&self) -> (inner: &MaybeChatConnection<S, H, P, G, R>) {
        &self.inner
    }

    fn inner_mut(&mut self) -> (inner: &mut MaybeChatConnection<S, H, P, G, R>) {
        &mut self.inner
    }
}

impl<S, H, P, G, R> BridgeChatConnection<S, H, P, G, R> for AuthenticatedChatConnection<
    S,
    H,
    P,
    G,
    R,
> {
    closed spec fn connection(&self) -> MaybeChatConnection<S, H, P, G, R> {
        self.inner
    }

    fn inner(&self) -> (inner: &MaybeChatConnection<S, H, P, G, R>) {
        &self.inner
    }

    fn inner_mut(&mut self) -> (inner: &mut MaybeChatConnection<S, H, P, G, R>) {
        &mut self.inner
    }
}

impl<S, H, P, G, R> BridgeChatConnection<S, H, P, G, R> for ProvisioningChatConnection<
    S,
    H,
    P,
    G,
    R,
> {
    closed spec fn connection(&self) -> MaybeChatConnection<S, H, P, G, R> {
        self.inner
    }

    fn inner(&self) -> (inner: &MaybeChatConnection<S, H, P, G, R>) {
        &self.inner
    }

    fn inner_mut(&mut self) -> (inner: &mut MaybeChatConnection<S, H, P, G, R>) {
        &mut self.inner
    }
}

impl<S, H, P, G, R> UnauthenticatedChatConnection<S, H, P, G, R> {
    /// A connection without a socket: its requests go out through `requester`. It runs from the
    /// start, as there is nothing to listen for.
    pub fn with_requester(requester: R) -> (connection: Self)
        ensures
            connection.connection().is_new_over(requester, None),
            connection.connection() matches MaybeChatConnection::Running(
                ChatWire::Requester(wire),
            ) && wire.requester() == requester && wire.aci() is None && wire.next_request_id() == 0,
    {
        UnauthenticatedChatConnection {
            inner: MaybeChatConnection::Running(
                ChatWire::Requester(RequesterConnection::new(requester, None)),
            ),
        }
    }

    /// The connection that an attempt has opened. It waits for a listener.
    pub fn connected(pending: P, grpc_overrides: Vec<G>) -> (connection: Self)
        ensures
            connection.connection() == (MaybeChatConnection::<S, H, P, G, R>::WaitingForListener {
                pending,
                grpc_overrides,
            }),
    {
        UnauthenticatedChatConnection {
            inner: MaybeChatConnection::WaitingForListener { pending, grpc_overrides },
        }
    }

    /// Hands the wire of a running connection to a service.
    pub fn as_typed<'a, T, F>(&'a self, callback: F) -> (result: T) where
        F: FnOnce(Unauth<&'a ChatWire<S, H, R>>) -> T,

        requires
            self.connection() is Running,
            call_requires(callback, (Unauth(&self.connection()->Running_0),)),
        ensures
            call_ensures(callback, (Unauth(&self.connection()->Running_0),), result),
    {
        callback(Unauth(self.inner.running()))
    }

    /// Hands the wire of a running connection to a service that sends on it.
    pub fn as_typed_mut<T, F>(&mut self, callback: F) -> (result: T) where
        F: FnOnce(Unauth<&mut ChatWire<S, H, R>>) -> T,

        requires
            old(self).connection() is Running,
            forall|wire: &mut ChatWire<S, H, R>|
                *wire == old(self).connection()->Running_0 ==> #[trigger] call_requires(
                    callback,
                    (Unauth(wire),),
                ),
        ensures
            exists|wire: &mut ChatWire<S, H, R>|
                *wire == old(self).connection()->Running_0 && final(self).connection()
                    == MaybeChatConnection::<S, H, P, G, R>::Running(*final(wire))
                    && #[trigger] call_ensures(callback, (Unauth(wire),), result),
    {
        callback(Unauth(self.inner.running_mut()))
    }

    /// The HTTP/2 companion of a running connection that has one.
    pub fn require_grpc(&self) -> (h2: Unauth<&H>)
        requires
            self.connection() is Running,
            self.connection()->Running_0.h2() is Some,
        ensures
            Some(*h2.0) == self.connection()->Running_0.h2(),
    {
        Unauth(self.inner.require_grpc())
    }

    /// The same as [`UnauthenticatedChatConnection::require_grpc`], for callers that may block.
    pub fn blocking_require_grpc(&self) -> (h2: Unauth<&H>)
        requires
            self.connection() is Running,
            self.connection()->Running_0.h2() is Some,
        ensures
            Some(*h2.0) == self.connection()->Running_0.h2(),
    {
        Unauth(self.inner.require_grpc())
    }
}

// What there is to do before anything is open takes no part in the types that a network stack
// brings along, and stands where none of them has to be named.
impl UnauthenticatedChatConnection<(), (), (), (), ()> {
    /// What to open a connection without an account with.
    pub fn connect<C, W, V>(
        settings: ConnectionSettings<C, W, V>,
        languages: Vec<String>,
    ) -> (attempt: Result<ConnectionAttempt<C, W, V>, ConnectError>)
        requires
            settings.is_usable(),
        ensures
            attempt is Ok <==> settings.transport is Ok,
            attempt matches Ok(a) ==> a.is_for(
                "unauthenticated",
                settings,
                ChatEndpoint::Websocket,
                Some(ChatHeaders::Unauth(UnauthenticatedChatHeaders { languages })),
            ),
            attempt matches Ok(a) ==> a.kind@ == "unauthenticated"@ && a.endpoint
                == ChatEndpoint::Websocket,
            attempt matches Ok(a) ==> a.headers matches Some(ChatHeaders::Unauth(said))
                && said.languages == languages,
            attempt matches Err(e) ==> e is InvalidConnectionConfiguration,
    {
        establish_chat_connection(
            "unauthenticated",
            settings,
            ChatEndpoint::Websocket,
            Some(ChatHeaders::Unauth(UnauthenticatedChatHeaders { languages })),
        )
    }
}

impl<S, H, P, G, R> AuthenticatedChatConnection<S, H, P, G, R> {
    /// A connection without a socket: its requests go out through `requester`, which signs each
    /// of them in. `aci` is the account; services that address the account itself read it here.
    pub fn with_requester(requester: R, aci: Aci) -> (connection: Self)
        ensures
            connection.connection().is_new_over(requester, Some(aci)),
            connection.connection() matches MaybeChatConnection::Running(
                ChatWire::Requester(wire),
            ) && wire.requester() == requester && wire.aci() == Some(aci)
                && wire.next_request_id() == 0,
    {
        AuthenticatedChatConnection {
            inner: MaybeChatConnection::Running(
                ChatWire::Requester(RequesterConnection::new(requester, Some(aci))),
            ),
        }
    }

    /// The connection that an attempt has opened. It waits for a listener.
    pub fn connected(pending: P, grpc_overrides: Vec<G>) -> (connection: Self)
        ensures
            connection.connection() == (MaybeChatConnection::<S, H, P, G, R>::WaitingForListener {
                pending,
                grpc_overrides,
            }),
    {
        AuthenticatedChatConnection {
            inner: MaybeChatConnection::WaitingForListener { pending, grpc_overrides },
        }
    }

    /// Hands the wire of a running connection to a service.
    pub fn as_typed<'a, T, F>(&'a self, callback: F) -> (result: T) where
        F: FnOnce(Auth<&'a ChatWire<S, H, R>>) -> T,

        requires
            self.connection() is Running,
            call_requires(callback, (Auth(&self.connection()->Running_0),)),
        ensures
            call_ensures(callback, (Auth(&self.connection()->Running_0),), result),
    {
        callback(Auth(self.inner.running()))
    }

    /// Hands the wire of a running connection to a service that sends on it.
    pub fn as_typed_mut<T, F>(&mut self, callback: F) -> (result: T) where
        F: FnOnce(Auth<&mut ChatWire<S, H, R>>) -> T,

        requires
            old(self).connection() is Running,
            forall|wire: &mut ChatWire<S, H, R>|
                *wire == old(self).connection()->Running_0 ==> #[trigger] call_requires(
                    callback,
                    (Auth(wire),),
                ),
        ensures
            exists|wire: &mut ChatWire<S, H, R>|
                *wire == old(self).connection()->Running_0 && final(self).connection()
                    == MaybeChatConnection::<S, H, P, G, R>::Running(*final(wire))
                    && #[trigger] call_ensures(callback, (Auth(wire),), result),
    {
        callback(Auth(self.inner.running_mut()))
    }

    /// The HTTP/2 companion of a running connection that has one.
    pub fn require_grpc(&self) -> (h2: Auth<&H>)
        requires
            self.connection() is Running,
            self.connection()->Running_0.h2() is Some,
        ensures
            Some(*h2.0) == self.connection()->Running_0.h2(),
    {
        Auth(self.inner.require_grpc())
    }
}

impl AuthenticatedChatConnection<(), (), (), (), ()> {
    /// Parses a sign-in username of the form `{aci}` or `{aci}.{device}`. Without a device number
    /// it stands for device 1. Any other input gives `None`.
    pub fn parse_username(username: &str) -> (parsed: Option<(Aci, DeviceId)>)
        ensures
            match (parsed, account::username_of(username@)) {
                (Some((aci, device)), Some((bytes, number))) => aci.bytes@ == bytes && device@
                    == number,
                (None, None) => true,
                _ => false,
            },
    {
        account::parse_username(username)
    }

    /// What to open a connection with that is signed in.
    pub fn connect<C, W, V>(
        settings: ConnectionSettings<C, W, V>,
        aci: Aci,
        device_id: DeviceId,
        password: String,
        receive_stories: bool,
        languages: Vec<String>,
    ) -> (attempt: Result<ConnectionAttempt<C, W, V>, ConnectError>)
        requires
            settings.is_usable(),
        ensures
            attempt is Ok <==> settings.transport is Ok,
            attempt matches Ok(a) ==> a.is_for(
                "authenticated",
                settings,
                ChatEndpoint::Websocket,
                Some(
                    ChatHeaders::Auth(
                        AuthenticatedChatHeaders {
                            aci,
                            device_id,
                            password,
                            receive_stories,
                            languages,
                        },
                    ),
                ),
            ),
            attempt matches Ok(a) ==> a.kind@ == "authenticated"@ && a.endpoint
                == ChatEndpoint::Websocket,
            attempt matches Ok(a) ==> a.headers matches Some(ChatHeaders::Auth(said)) && said.aci
                == aci && said.device_id == device_id && said.password == password
                && said.receive_stories == receive_stories && said.languages == languages,
            attempt matches Err(e) ==> e is InvalidConnectionConfiguration,
    {
        establish_chat_connection(
            "authenticated",
            settings,
            ChatEndpoint::Websocket,
            Some(
                ChatHeaders::Auth(
                    AuthenticatedChatHeaders {
                        aci,
                        device_id,
                        password,
                        receive_stories,
                        languages,
                    },
                ),
            ),
        )
    }

    /// What to get ready for a later connection.
    pub fn preconnect<C, V>(
        service: V,
        transport: Result<DirectOrProxyMode<C>, InvalidProxyConfig>,
        enable_domain_fronting: EnableDomainFronting,
        enforce_minimum_tls: EnforceMinimumTls,
    ) -> (preconnect: Result<Preconnect<C, V>, ConnectError>)
        ensures
            preconnect is Ok <==> transport is Ok,
            preconnect matches Ok(p) ==> p.is_for(
                service,
                transport,
                enable_domain_fronting,
                enforce_minimum_tls,
            ),
            preconnect matches Ok(p) ==> p.service == service && Ok::<_, InvalidProxyConfig>(
                p.route_provider.mode,
            ) == transport && p.route_provider.enable_domain_fronting == enable_domain_fronting
                && p.route_provider.enforce_minimum_tls == enforce_minimum_tls
                && p.confirmation_header_name is None,
            preconnect matches Err(e) ==> e is InvalidConnectionConfiguration,
    {
        match make_route_provider(transport, enable_domain_fronting, enforce_minimum_tls) {
            Ok(route_provider) => Ok(
                Preconnect {
                    service,
                    route_provider,
                    confirmation_header_name: None,
                    log_tag: "preconnect",
                },
            ),
            Err(e) => Err(e),
        }
    }
}

impl<S, H, P, G, R> ProvisioningChatConnection<S, H, P, G, R> {
    /// The connection that an attempt has opened. It waits for a listener, and sends nothing over
    /// gRPC.
    pub fn connected(pending: P) -> (connection: Self)
        ensures
            connection.connection() matches MaybeChatConnection::WaitingForListener {
                pending: waiting,
                grpc_overrides,
            } && waiting == pending && grpc_overrides@.len() == 0,
    {
        ProvisioningChatConnection {
            inner: MaybeChatConnection::WaitingForListener { pending, grpc_overrides: Vec::new() },
        }
    }

    /// Sets the listener of a connection that waits for one, and so gets it to run. This goes
    /// before [`BridgeChatConnection::init_listener`], whose listener hears nothing of use here.
    pub fn init_listener<L, F>(&mut self, listener: L, finish_connect: F) where
        L: ProvisioningListener,
        F: FnOnce(P, Vec<G>, ProvisioningEventListener<L>) -> ChatConnection<S, H>,

        requires
            old(self).connection() is WaitingForListener,
            call_requires(
                finish_connect,
                (
                    old(self).connection()->pending,
                    old(self).connection()->grpc_overrides,
                    ProvisioningEventListener { listener },
                ),
            ),
        ensures
            old(self).connection().is_start_of(
                ProvisioningEventListener { listener },
                finish_connect,
                final(self).connection(),
            ),
    {
        self.inner.init_listener(listener.into_event_listener(), finish_connect)
    }
}

impl ProvisioningChatConnection<(), (), (), (), ()> {
    /// What to open a connection with on which a new device is set up. It has nothing to say of
    /// itself yet.
    pub fn connect<C, W, V>(settings: ConnectionSettings<C, W, V>) -> (attempt: Result<
        ConnectionAttempt<C, W, V>,
        ConnectError,
    >)
        requires
            settings.is_usable(),
        ensures
            attempt is Ok <==> settings.transport is Ok,
            attempt matches Ok(a) ==> a.is_for(
                "provisioning",
                settings,
                ChatEndpoint::Provisioning,
                None,
            ),
            attempt matches Ok(a) ==> a.kind@ == "provisioning"@ && a.endpoint
                == ChatEndpoint::Provisioning && a.headers is None,
            attempt matches Err(e) ==> e is InvalidConnectionConfiguration,
    {
        establish_chat_connection("provisioning", settings, ChatEndpoint::Provisioning, None)
    }
}

/// What to open a connection for registration with.
pub fn connect_registration_chat<C, W, V>(
    settings: ConnectionSettings<C, W, V>,
) -> (attempt: Result<ConnectionAttempt<C, W, V>, ConnectError>)
    requires
        settings.is_usable(),
    ensures
        attempt is Ok <==> settings.transport is Ok,
        attempt matches Ok(a) ==> a.is_for("registration", settings, ChatEndpoint::Websocket, None),
        attempt matches Ok(a) ==> a.kind@ == "registration"@ && a.endpoint
            == ChatEndpoint::Websocket && a.headers is None,
        attempt matches Err(e) ==> e is InvalidConnectionConfiguration,
{
    establish_chat_connection("registration", settings, ChatEndpoint::Websocket, None)
}

/// The connection for registration that an attempt has opened, with a listener set. It sends
/// nothing over gRPC, and `drop_on_disconnect` is held until it ends. `finish_connect` makes it.
pub fn registration_connected<S, H, P, G, D, F>(
    pending: P,
    drop_on_disconnect: D,
    finish_connect: F,
) -> (connection: Unauth<ChatConnection<S, H>>) where
    F: FnOnce(P, Vec<G>, RegistrationListener<D>) -> ChatConnection<S, H>,

    requires
        forall|overrides: Vec<G>, listener: RegistrationListener<D>|
            overrides@.len() == 0 && listener.held_value() == Some(drop_on_disconnect)
                ==> #[trigger] call_requires(finish_connect, (pending, overrides, listener)),
    ensures
        exists|overrides: Vec<G>, listener: RegistrationListener<D>|
            overrides@.len() == 0 && listener.held_value() == Some(drop_on_disconnect)
                && #[trigger] call_ensures(
                finish_connect,
                (pending, overrides, listener),
                connection.0,
            ),
{
    let overrides: Vec<G> = Vec::new();
    let listener = RegistrationListener::new(drop_on_disconnect);
    let ghost handed = (pending, overrides, listener);
    let connection = Unauth(finish_connect(pending, overrides, listener));
    assert(call_ensures(finish_connect, handed, connection.0));
    connection
}

/// A connection over a socket that no server stands behind.
pub struct FakeChatConnection<S, H>(ChatConnection<S, H>);

impl<S, H> FakeChatConnection<S, H> {
    pub closed spec fn socket_connection(self) -> ChatConnection<S, H> {
        self.0
    }

    pub fn new(inner: ChatConnection<S, H>) -> (fake: FakeChatConnection<S, H>)
        ensures
            fake.socket_connection() == inner,
    {
        FakeChatConnection(inner)
    }

    pub fn into_unauthenticated<P, G, R>(self) -> (connection: UnauthenticatedChatConnection<
        S,
        H,
        P,
        G,
        R,
    >)
        ensures
            connection.connection() == MaybeChatConnection::<S, H, P, G, R>::Running(
                ChatWire::Ws(self.socket_connection()),
            ),
    {
        UnauthenticatedChatConnection { inner: MaybeChatConnection::Running(ChatWire::Ws(self.0)) }
    }

    pub fn into_authenticated<P, G, R>(self) -> (connection: AuthenticatedChatConnection<
        S,
        H,
        P,
        G,
        R,
    >)
        ensures
            connection.connection() == MaybeChatConnection::<S, H, P, G, R>::Running(
                ChatWire::Ws(self.socket_connection()),
            ),
    {
        AuthenticatedChatConnection { inner: MaybeChatConnection::Running(ChatWire::Ws(self.0)) }
    }

    pub fn into_provisioning<P, G, R>(self) -> (connection: ProvisioningChatConnection<
        S,
        H,
        P,
        G,
        R,
    >)
        ensures
            connection.connection() == MaybeChatConnection::<S, H, P, G, R>::Running(
                ChatWire::Ws(self.socket_connection()),
            ),
    {
        ProvisioningChatConnection { inner: MaybeChatConnection::Running(ChatWire::Ws(self.0)) }
    }
}

/// One thing that can happen to a connection: its listener is set, or a request goes out over it,
/// of an app or of a service.
pub open spec fn is_step<S, H, P, G, R, L, F>(
    before: MaybeChatConnection<S, H, P, G, R>,
    after: MaybeChatConnection<S, H, P, G, R>,
) -> bool where F: FnOnce(P, Vec<G>, L) -> ChatConnection<S, H> {
    ||| exists|listener: L, finish_connect: F| #[trigger]
        before.is_start_of(listener, finish_connect, after)
    ||| before is Running && after is Running && exists|
        message: Request,
        timeout: Duration,
        outgoing: Outgoing,
    | #[trigger]
        before->Running_0.sends(message, timeout, outgoing, after->Running_0)
    ||| before is Running && after is Running && exists|
        log_tag: Seq<char>,
        log_safe_path: Seq<char>,
        request: Request,
        outgoing: ServiceOutgoing,
    | #[trigger]
        before->Running_0.sends_for_service(
            log_tag,
            log_safe_path,
            request,
            outgoing,
            after->Running_0,
        )
}

/// Whatever happens to a connection, it is never seen between waiting and running; once it runs it
/// goes on running, so that its listener is set once; and what it runs over stays the same.
pub proof fn law_connection_history<S, H, P, G, R, L, F>(
    states: Seq<MaybeChatConnection<S, H, P, G, R>>,
    j: int,
    k: int,
) where F: FnOnce(P, Vec<G>, L) -> ChatConnection<S, H>
    requires
        0 <= j <= k < states.len(),
        !(states[0] is TemporarilyEvicted),
        forall|i: int|
            #![trigger states[i]]
            0 < i < states.len() ==> is_step::<S, H, P, G, R, L, F>(states[i - 1], states[i]),
    ensures
        !(states[k] is TemporarilyEvicted),
        states[j] is Running ==> states[k] is Running,
        states[j] matches MaybeChatConnection::Running(ChatWire::Ws(_)) ==> states[k] == states[j],
    decreases k,
{
    if j < k {
        law_connection_history::<S, H, P, G, R, L, F>(states, j, k - 1);
    } else if k > 0 {
        law_connection_history::<S, H, P, G, R, L, F>(states, 0, k - 1);
    }
    if k > 0 {
        assert(is_step::<S, H, P, G, R, L, F>(states[k - 1], states[k]));
    }
}

/// The requests over a requester are numbered in turn, for as long as the connection lives; the
/// requester and the account stay what they were.
pub proof fn law_requests_are_numbered_in_turn<S, H, P, G, R, L, F>(
    states: Seq<MaybeChatConnection<S, H, P, G, R>>,
    requester: R,
    aci: Option<Aci>,
    k: int,
) where F: FnOnce(P, Vec<G>, L) -> ChatConnection<S, H>
    requires
        0 <= k < states.len(),
        states[0].is_new_over(requester, aci),
        forall|i: int|
            #![trigger states[i]]
            0 < i < states.len() ==> is_step::<S, H, P, G, R, L, F>(states[i - 1], states[i]),
    ensures
        states[k] matches MaybeChatConnection::Running(ChatWire::Requester(connection))
            && connection.requester() == requester && connection.aci() == aci
            && connection.next_request_id() == requester::nth_id(0, k as nat),
    decreases k,
{
    if k > 0 {
        law_requests_are_numbered_in_turn::<S, H, P, G, R, L, F>(states, requester, aci, k - 1);
        assert(is_step::<S, H, P, G, R, L, F>(states[k - 1], states[k]));
    }
}

/// A connection over a requester has no socket to describe and no HTTP/2 companion, and knows the
/// account that it was made for.
pub proof fn law_requester_has_no_socket<S, H, P, G, R>(
    connection: MaybeChatConnection<S, H, P, G, R>,
    requester: R,
    aci: Option<Aci>,
)
    requires
        connection.is_new_over(requester, aci),
    ensures
        connection->Running_0.info() is None,
        connection->Running_0.h2() is None,
        connection->Running_0.aci() == aci,
{
}

/// What goes out over a socket is the request that was sent, whole, with its time limit; a request
/// of a service goes out as it is too. The socket stays what it was.
pub proof fn law_socket_gets_the_request<S, H, R>(
    wire: ChatWire<S, H, R>,
    after: ChatWire<S, H, R>,
    request: Request,
    timeout: Duration,
    outgoing: Outgoing,
)
    requires
        wire is Ws,
        wire.sends(request, timeout, outgoing, after),
    ensures
        outgoing matches Outgoing::Socket { request: sent, timeout: limit } && sent.method@
            == request.method@ && sent.path@ == request.path@ && sent.headers == request.headers
            && sent.body == request.body && limit == timeout,
        after == wire,
{
}

/// A request of a service goes out over a socket as it is, and the socket stays what it was.
pub proof fn law_socket_gets_the_services_request<S, H, R>(
    wire: ChatWire<S, H, R>,
    after: ChatWire<S, H, R>,
    log_tag: Seq<char>,
    log_safe_path: Seq<char>,
    request: Request,
    outgoing: ServiceOutgoing,
)
    requires
        wire is Ws,
        wire.sends_for_service(log_tag, log_safe_path, request, outgoing, after),
    ensures
        outgoing matches ServiceOutgoing::Socket { request: sent } && sent.method@
            == request.method@ && sent.path@ == request.path@ && sent.headers == request.headers
            && sent.body == request.body,
        after == wire,
{
}

/// A request over a requester is made ready under the next number, which is then spent: one with a
/// header that is not text is refused, and any other is handed over with its method, path and
/// body, guarded against being abandoned. It makes no difference whether an app or a service sends
/// it.
pub proof fn law_requester_gets_the_request<S, H, R>(
    wire: ChatWire<S, H, R>,
    after: ChatWire<S, H, R>,
    request: Request,
    timeout: Duration,
    outgoing: Outgoing,
    service_after: ChatWire<S, H, R>,
    log_tag: Seq<char>,
    log_safe_path: Seq<char>,
    service_outgoing: ServiceOutgoing,
)
    requires
        wire is Requester,
        wire.sends(request, timeout, outgoing, after),
        wire.sends_for_service(log_tag, log_safe_path, request, service_outgoing, service_after),
    ensures
        outgoing matches Outgoing::Requester { request_id, started } && {
            &&& request_id == wire->Requester_0.next_request_id()
            &&& started is Ok <==> requester::has_text_headers(request)
            &&& started matches Ok(s) ==> s.call.request_id == request_id && s.call.method@
                == request.method@ && s.call.path@ == request.path@ && s.call.body@
                == body::body_bytes(request.body) && s.call.is_for(request, request_id)
                && s.guard.request_id() == request_id && s.guard.is_armed()
            &&& started matches Err(e) ==> e is RequestHasInvalidHeader
        },
        service_outgoing matches ServiceOutgoing::Requester { request_id, line, started } && {
            &&& request_id == wire->Requester_0.next_request_id()
            &&& line@ == log_line::request_text(
                log_tag,
                request_id,
                request.method@,
                log_safe_path,
            )
            &&& started is Ok <==> requester::has_text_headers(request)
            &&& started matches Ok(s) ==> s.call.request_id == request_id && s.call.method@
                == request.method@ && s.call.path@ == request.path@ && s.call.body@
                == body::body_bytes(request.body) && s.call.is_for(request, request_id)
                && s.guard.request_id() == request_id && s.guard.is_armed()
        },
        after is Requester && service_after is Requester,
        wire->Requester_0.next_request_id() < u64::MAX
            ==> after->Requester_0.next_request_id() == wire->Requester_0.next_request_id() + 1
            && service_after->Requester_0.next_request_id() == wire->Requester_0.next_request_id()
            + 1,
        after->Requester_0.requester() == wire->Requester_0.requester(),
        after->Requester_0.aci() == wire->Requester_0.aci(),
{
}

/// What is known of a socket is known of the connection over it; of a connection over a requester
/// nothing is but the account.
pub proof fn law_what_a_wire_knows<S, H, R>(
    socket: ChatConnection<S, H>,
    requester: RequesterConnection<R>,
)
    ensures
        ChatWire::<S, H, R>::Ws(socket).info() == Some(socket.info),
        ChatWire::<S, H, R>::Ws(socket).h2() == socket.shared_h2,
        ChatWire::<S, H, R>::Ws(socket).aci() == socket.self_aci,
        ChatWire::<S, H, R>::Requester(requester).info() is None,
        ChatWire::<S, H, R>::Requester(requester).h2() is None,
        ChatWire::<S, H, R>::Requester(requester).aci() == requester.aci(),
{
}

/// To set a listener takes a connection that waits for one, hands over what waited, the overrides
/// and the listener, and leaves a connection that runs over what came of it.
pub proof fn law_listener_starts_the_connection<S, H, P, G, R, L, F>(
    before: MaybeChatConnection<S, H, P, G, R>,
    after: MaybeChatConnection<S, H, P, G, R>,
    listener: L,
    finish_connect: F,
) where F: FnOnce(P, Vec<G>, L) -> ChatConnection<S, H>
    requires
        before.is_start_of(listener, finish_connect, after),
    ensures
        before matches MaybeChatConnection::WaitingForListener { pending, grpc_overrides } && after
            matches MaybeChatConnection::Running(ChatWire::Ws(connection)) && call_ensures(
            finish_connect,
            (pending, grpc_overrides, listener),
            connection,
        ),
        before.spec_phase() == Phase::WaitingForListener,
        after.spec_phase() == Phase::Running,
{
}

/// What is closed is the socket that a connection runs over or that waits for a listener, and
/// nothing where there is none; the same goes for what can be described.
pub proof fn law_sockets_are_closed_and_described<S, H, P, G, R, F>(
    connection: MaybeChatConnection<S, H, P, G, R>,
    target: Disconnect<'_, S, P>,
    of_pending: F,
    info: ConnectionInfo,
) where F: FnOnce(&P) -> ConnectionInfo
    requires
        !(connection is TemporarilyEvicted),
        connection.closes(target),
    ensures
        target is Nothing <==> connection matches MaybeChatConnection::Running(
            ChatWire::Requester(_),
        ),
        target matches Disconnect::Socket(socket) ==> connection
            matches MaybeChatConnection::Running(ChatWire::Ws(running)) && running.socket
            == *socket,
        target matches Disconnect::Pending(waiting) ==> connection
            matches MaybeChatConnection::WaitingForListener { pending, .. } && pending == *waiting,
        connection matches MaybeChatConnection::Running(ChatWire::Ws(running))
            ==> connection.can_describe(of_pending) && (connection.is_description(of_pending, info)
            <==> info == running.info),
        connection matches MaybeChatConnection::Running(ChatWire::Requester(_))
            ==> !connection.can_describe(of_pending),
        connection matches MaybeChatConnection::WaitingForListener { pending, .. } ==> (
        connection.can_describe(of_pending) <==> call_requires(of_pending, (&pending,))) && (
        connection.is_description(of_pending, info) <==> call_ensures(
            of_pending,
            (&pending,),
            info,
        )),
{
}

} // verus!
