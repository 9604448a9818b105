//! Connections: how they are opened, how they get to run, and what they send on.

use std::time::Duration;

use chat_bridge::account::Aci;
use chat_bridge::account::DeviceId;
use chat_bridge::connect::establish_chat_connection;
use chat_bridge::connect::make_route_provider;
use chat_bridge::connect::report_connect;
use chat_bridge::connect::ChatEndpoint;
use chat_bridge::connect::ChatHeaders;
use chat_bridge::connect::ConnectError;
use chat_bridge::connect::ConnectReport;
use chat_bridge::connect::ConnectionSettings;
use chat_bridge::connect::DirectOrProxyMode;
use chat_bridge::connect::DirectOrProxyModeDiscriminants;
use chat_bridge::connect::EnableDomainFronting;
use chat_bridge::connect::EnforceMinimumTls;
use chat_bridge::connect::InvalidProxyConfig;
use chat_bridge::connect::OverrideNagleAlgorithm;
use chat_bridge::connect::WsConfig;
use chat_bridge::connection::connect_registration_chat;
use chat_bridge::connection::registration_connected;
use chat_bridge::connection::AuthenticatedChatConnection;
use chat_bridge::connection::BridgeChatConnection;
use chat_bridge::connection::ChatConnection;
use chat_bridge::connection::ChatWire;
use chat_bridge::connection::ConnectionInfo;
use chat_bridge::connection::Disconnect;
use chat_bridge::connection::FakeChatConnection;
use chat_bridge::connection::Outgoing;
use chat_bridge::connection::Phase;
use chat_bridge::connection::ProvisioningChatConnection;
use chat_bridge::connection::ServiceOutgoing;
use chat_bridge::connection::UnauthenticatedChatConnection;
use chat_bridge::listener::ChatListener;
use chat_bridge::listener::ListenerEvent;
use chat_bridge::listener::ProvisioningListener;
use chat_bridge::listener::ServerMessageAck;
use chat_bridge::request::HttpMethod;
use chat_bridge::request::HttpPath;
use chat_bridge::request::Request;
use chat_bridge::requester::SendError;
use chat_bridge::time::Timestamp;

const ACI: Aci = Aci { bytes: [7; 16] };

type Unauthenticated = UnauthenticatedChatConnection<&'static str, u32, String, u8, ()>;
type Authenticated = AuthenticatedChatConnection<&'static str, u32, String, u8, ()>;
type Provisioning = ProvisioningChatConnection<&'static str, u32, String, u8, ()>;

fn settings(
    transport: Result<DirectOrProxyMode<&'static str>, InvalidProxyConfig>,
) -> ConnectionSettings<&'static str, u8, &'static str> {
    ConnectionSettings {
        service: "chat",
        confirmation_header_name: Some("x-signal-timestamp"),
        ws_config: WsConfig {
            post_request_interface_check_timeout: Duration::from_secs(5),
            rest: 9,
        },
        user_agent: "agent".to_owned(),
        enable_fronting: EnableDomainFronting::OneDomainPerProxy,
        enforce_minimum_tls: EnforceMinimumTls::Yes,
        transport,
        remote_check_timeout: None,
    }
}

fn languages() -> Vec<String> {
    vec!["de".to_owned(), "en".to_owned()]
}

fn info(route: &str) -> ConnectionInfo {
    ConnectionInfo {
        route: route.to_owned(),
        proxied: true,
    }
}

fn socket(shared_h2: Option<u32>) -> ChatConnection<&'static str, u32> {
    ChatConnection {
        socket: "socket",
        info: info("running"),
        shared_h2,
        self_aci: Some(ACI),
    }
}

fn request() -> Request {
    Request {
        method: HttpMethod::try_from("GET".to_owned()).expect("a method"),
        path: HttpPath::try_from("/".to_owned()).expect("a path"),
        headers: http::HeaderMap::new(),
        body: None,
    }
}

#[test]
fn an_unauthenticated_connection_says_its_languages() {
    let attempt = UnauthenticatedChatConnection::connect(
        settings(Ok(DirectOrProxyMode::ProxyThenDirect("proxy"))),
        languages(),
    )
    .expect("usable");
    assert_eq!(attempt.kind, "unauthenticated");
    assert_eq!(attempt.service, "chat");
    assert_eq!(attempt.endpoint, ChatEndpoint::Websocket);
    let Some(ChatHeaders::Unauth(headers)) = attempt.headers else {
        panic!("says nothing")
    };
    assert_eq!(headers.languages, languages());
    assert_eq!(attempt.user_agent, "agent");
    assert_eq!(
        attempt.confirmation_header_name.as_deref(),
        Some("x-signal-timestamp")
    );
    assert_eq!(
        attempt.proxy_mode,
        DirectOrProxyModeDiscriminants::ProxyThenDirect
    );
    assert!(matches!(
        attempt.route_provider.mode,
        DirectOrProxyMode::ProxyThenDirect("proxy")
    ));
    assert_eq!(
        attempt.route_provider.override_nagle_algorithm,
        OverrideNagleAlgorithm::OverrideToOff
    );
    assert_eq!(
        attempt.route_provider.enable_domain_fronting,
        EnableDomainFronting::OneDomainPerProxy
    );
    assert_eq!(
        attempt.route_provider.enforce_minimum_tls,
        EnforceMinimumTls::Yes
    );
    assert_eq!(attempt.ws_config.rest, 9);
    assert_eq!(
        attempt.ws_config.post_request_interface_check_timeout,
        Duration::from_secs(5)
    );
    assert!(attempt.bad_check_timeout.is_none());
}

#[test]
fn an_authenticated_connection_signs_in() {
    let device = DeviceId::new(3).expect("valid");
    let attempt = AuthenticatedChatConnection::connect(
        settings(Ok(DirectOrProxyMode::DirectOnly)),
        ACI,
        device,
        "password".to_owned(),
        true,
        languages(),
    )
    .expect("usable");
    assert_eq!(attempt.kind, "authenticated");
    assert_eq!(attempt.endpoint, ChatEndpoint::Websocket);
    let Some(ChatHeaders::Auth(headers)) = attempt.headers else {
        panic!("not signed in")
    };
    assert_eq!(headers.aci, ACI);
    assert_eq!(headers.device_id, device);
    assert_eq!(headers.password, "password");
    assert!(headers.receive_stories);
    assert_eq!(headers.languages, languages());
}

#[test]
fn provisioning_and_registration_say_nothing_of_themselves() {
    let attempt = ProvisioningChatConnection::connect(settings(Ok(DirectOrProxyMode::DirectOnly)))
        .expect("usable");
    assert_eq!(attempt.kind, "provisioning");
    assert_eq!(attempt.endpoint, ChatEndpoint::Provisioning);
    assert!(attempt.headers.is_none());
    let attempt =
        connect_registration_chat(settings(Ok(DirectOrProxyMode::DirectOnly))).expect("usable");
    assert_eq!(attempt.kind, "registration");
    assert_eq!(attempt.endpoint, ChatEndpoint::Websocket);
    assert!(attempt.headers.is_none());
}

#[test]
fn a_proxy_that_cannot_be_used_is_an_invalid_configuration() {
    let attempt = UnauthenticatedChatConnection::connect(settings(Err(InvalidProxyConfig)), vec![]);
    assert!(matches!(
        attempt,
        Err(ConnectError::InvalidConnectionConfiguration)
    ));
    let attempt = ProvisioningChatConnection::connect(settings(Err(InvalidProxyConfig)));
    assert!(matches!(
        attempt,
        Err(ConnectError::InvalidConnectionConfiguration)
    ));
    let provider = make_route_provider::<()>(
        Err(InvalidProxyConfig),
        EnableDomainFronting::No,
        EnforceMinimumTls::No,
    );
    assert!(matches!(
        provider,
        Err(ConnectError::InvalidConnectionConfiguration)
    ));
    let preconnect = AuthenticatedChatConnection::preconnect::<(), ()>(
        (),
        Err(InvalidProxyConfig),
        EnableDomainFronting::No,
        EnforceMinimumTls::No,
    );
    assert!(matches!(
        preconnect,
        Err(ConnectError::InvalidConnectionConfiguration)
    ));
}

#[test]
fn preconnecting_confirms_nothing() {
    let preconnect = AuthenticatedChatConnection::preconnect(
        "chat",
        Ok(DirectOrProxyMode::ProxyOnly(5)),
        EnableDomainFronting::AllDomains,
        EnforceMinimumTls::No,
    )
    .expect("usable");
    assert_eq!(preconnect.log_tag, "preconnect");
    assert_eq!(preconnect.service, "chat");
    assert!(preconnect.confirmation_header_name.is_none());
    assert!(matches!(
        preconnect.route_provider.mode,
        DirectOrProxyMode::ProxyOnly(5)
    ));
    assert_eq!(
        preconnect.route_provider.override_nagle_algorithm,
        OverrideNagleAlgorithm::OverrideToOff
    );
}

#[test]
fn the_servers_check_timeout_goes_first() {
    let timeout = |remote: Option<&str>| {
        let mut settings = settings(Ok(DirectOrProxyMode::DirectOnly));
        settings.remote_check_timeout = remote.map(str::to_owned);
        settings.confirmation_header_name = None;
        let attempt = establish_chat_connection("any", settings, ChatEndpoint::Websocket, None)
            .expect("usable");
        assert!(attempt.confirmation_header_name.is_none());
        (
            attempt.ws_config.post_request_interface_check_timeout,
            attempt.bad_check_timeout,
        )
    };
    assert_eq!(timeout(None), (Duration::from_secs(5), None));
    assert_eq!(timeout(Some("250")), (Duration::from_millis(250), None));
    assert_eq!(timeout(Some("+1")), (Duration::from_millis(1), None));
    assert_eq!(timeout(Some("0")), (Duration::ZERO, None));
    assert_eq!(
        timeout(Some("18446744073709551615")),
        (Duration::from_millis(u64::MAX), None)
    );
    for bad in ["", "soon", "1.5", "-1", "18446744073709551616"] {
        assert_eq!(
            timeout(Some(bad)),
            (Duration::from_secs(5), Some(bad.to_owned()))
        );
    }
}

#[test]
fn a_direct_connection_instead_of_the_proxy_is_reported() {
    for (mode, proxied, report) in [
        (DirectOrProxyModeDiscriminants::DirectOnly, Some(false), ConnectReport::Connected),
        (DirectOrProxyModeDiscriminants::DirectThenProxy, Some(false), ConnectReport::Connected),
        (DirectOrProxyModeDiscriminants::DirectThenProxy, Some(true), ConnectReport::Connected),
        (DirectOrProxyModeDiscriminants::ProxyOnly, Some(true), ConnectReport::Connected),
        (DirectOrProxyModeDiscriminants::ProxyThenDirect, Some(true), ConnectReport::Connected),
        (
            DirectOrProxyModeDiscriminants::ProxyThenDirect,
            Some(false),
            ConnectReport::ConnectedDirectly,
        ),
        (DirectOrProxyModeDiscriminants::DirectOnly, None, ConnectReport::Failed),
        (DirectOrProxyModeDiscriminants::ProxyOnly, None, ConnectReport::Failed),
        (DirectOrProxyModeDiscriminants::ProxyThenDirect, None, ConnectReport::Failed),
    ] {
        assert_eq!(report_connect(mode, proxied), report);
    }
    assert_eq!(
        DirectOrProxyMode::DirectThenProxy(1).discriminant(),
        DirectOrProxyModeDiscriminants::DirectThenProxy
    );
}

struct Quiet;

impl ChatListener for Quiet {
    fn received_incoming_message(&mut self, _: bytes::Bytes, _: Timestamp, _: ServerMessageAck) {}
    fn received_queue_empty(&mut self) {}
    fn received_alerts(&mut self, _: Box<[String]>) {}
    fn received_server_timestamp(&mut self, _: Timestamp) {}
    fn connection_interrupted(&mut self, _: Option<SendError>) {}
}

impl ProvisioningListener for Quiet {
    fn received_address(&mut self, _: String, _: ServerMessageAck) {}
    fn received_envelope(&mut self, _: bytes::Bytes, _: ServerMessageAck) {}
    fn connection_interrupted(&mut self, _: Option<SendError>) {}
}

#[test]
fn a_connection_runs_once_its_listener_is_set() {
    let mut connection = Authenticated::connected("pending".to_owned(), vec![1, 2]);
    assert_eq!(connection.inner().phase(), Phase::WaitingForListener);
    assert!(matches!(connection.disconnect(), Disconnect::Pending(p) if p == "pending"));
    assert_eq!(connection.info(|pending| info(pending)), info("pending"));
    connection.init_listener(Quiet, |pending, overrides, _listener| {
        assert_eq!(pending, "pending");
        assert_eq!(overrides, [1, 2]);
        socket(Some(8))
    });
    assert_eq!(connection.inner().phase(), Phase::Running);
    assert!(matches!(connection.disconnect(), Disconnect::Socket(&"socket")));
    assert_eq!(connection.info(|_| unreachable!()), info("running"));
    assert_eq!(*connection.require_grpc().0, 8);
    assert_eq!(connection.as_typed(|wire| wire.0.self_aci()), Some(ACI));
    let outgoing = connection.send(request(), Duration::from_secs(7));
    let Outgoing::Socket { request, timeout } = outgoing else {
        panic!("not over the socket")
    };
    assert_eq!(request.method.into_string(), "GET");
    assert_eq!(timeout, Duration::from_secs(7));
}

#[test]
fn a_registration_connection_sends_nothing_over_grpc() {
    let connection = registration_connected(
        "pending",
        "dropped at the end",
        |pending, overrides: Vec<u8>, mut listener| {
            assert_eq!(pending, "pending");
            assert!(overrides.is_empty());
            let event: ListenerEvent<(), ()> = ListenerEvent::Finished(());
            assert_eq!(listener.receive(event), Some("dropped at the end"));
            socket(Some(3))
        },
    );
    assert_eq!(connection.0.shared_h2, Some(3));
}

#[test]
fn a_service_sends_over_the_socket_as_it_is() {
    let mut connection: Authenticated =
        FakeChatConnection::new(socket(None)).into_authenticated();
    let outgoing =
        connection.as_typed_mut(|wire| wire.0.send_for_service("auth", "/safe", request()));
    let ServiceOutgoing::Socket { request } = outgoing else {
        panic!("not over the socket")
    };
    assert_eq!(request.path.into_string(), "/");
}

#[test]
fn a_provisioning_connection_sends_nothing_over_grpc() {
    let mut connection = Provisioning::connected("pending".to_owned());
    connection.init_listener(Quiet, |_, overrides, _| {
        assert!(overrides.is_empty());
        socket(None)
    });
    assert_eq!(connection.inner().phase(), Phase::Running);
}

#[test]
fn a_connection_over_a_requester_has_no_socket() {
    let connection =
        UnauthenticatedChatConnection::<&'static str, u32, String, u8, u64>::with_requester(4);
    assert_eq!(connection.inner().phase(), Phase::Running);
    assert!(matches!(connection.disconnect(), Disconnect::Nothing));
    connection.as_typed(|wire| {
        assert!(wire.0.connection_info().is_none());
        assert!(wire.0.shared_h2_connection().is_none());
        assert!(wire.0.disconnect().is_none());
        assert_eq!(wire.0.grpc_service_to_use_instead(|_| Some(1)), None);
        assert!(matches!(wire.0, ChatWire::Requester(requester) if *requester.as_requester() == 4));
    });
}

#[test]
fn a_socket_says_which_service_goes_over_grpc() {
    let connection: Unauthenticated =
        FakeChatConnection::new(socket(Some(6))).into_unauthenticated();
    assert_eq!(*connection.require_grpc().0, 6);
    assert_eq!(*connection.blocking_require_grpc().0, 6);
    connection.as_typed(|wire| {
        assert_eq!(
            wire.0.grpc_service_to_use_instead(|connection| connection.shared_h2),
            Some(6)
        );
        assert_eq!(wire.0.connection_info(), Some(&info("running")));
    });
}

#[test]
fn a_fake_connection_runs_from_the_start() {
    let unauthenticated: Unauthenticated =
        FakeChatConnection::new(socket(None)).into_unauthenticated();
    assert_eq!(unauthenticated.inner().phase(), Phase::Running);
    let authenticated: Authenticated = FakeChatConnection::new(socket(None)).into_authenticated();
    assert!(matches!(authenticated.disconnect(), Disconnect::Socket(&"socket")));
    let provisioning: Provisioning = FakeChatConnection::new(socket(None)).into_provisioning();
    assert_eq!(provisioning.info(|_| unreachable!()), info("running"));
}
