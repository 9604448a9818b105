//! What a connection is opened with, and what is made of how that went.
//!
//! Opening is done by an app's network stack, which is handed a [`ConnectionAttempt`] or a
//! [`Preconnect`]. `C` is what its proxies are configured with, `W` what else its sockets are, and
//! `V` the name of the service that is connected to.

use std::time::Duration;

use vstd::prelude::*;

use crate::account::Aci;
use crate::account::DeviceId;
use crate::headers;
use crate::headers::header_name_from_static;
use crate::text;
use crate::text::parse_decimal;
use crate::time;
use crate::time::duration_from_millis;

verus! {

/// Whether connections may hide behind another domain.
#[derive(Clone, Copy, PartialEq, Eq, Debug, Structural)]
pub enum EnableDomainFronting {
    No,
    OneDomainPerProxy,
    AllDomains,
}

/// Whether the newest TLS is insisted on.
#[derive(Clone, Copy, PartialEq, Eq, Debug, Structural)]
pub enum EnforceMinimumTls {
    Yes,
    No,
}

/// Whether small writes may be held back to be sent together.
#[derive(Clone, Copy, PartialEq, Eq, Debug, Structural)]
pub enum OverrideNagleAlgorithm {
    UseSystemDefault,
    OverrideToOff,
}

/// Which routes are tried, and in what order.
pub enum DirectOrProxyMode<C> {
    DirectOnly,
    ProxyOnly(C),
    ProxyThenDirect(C),
    DirectThenProxy(C),
}

/// A [`DirectOrProxyMode`] without the proxy.
#[derive(Clone, Copy, PartialEq, Eq, Debug, Structural)]
pub enum DirectOrProxyModeDiscriminants {
    DirectOnly,
    ProxyOnly,
    ProxyThenDirect,
    DirectThenProxy,
}

/// A proxy was asked for in a way that cannot be used.
#[derive(Clone, Copy, PartialEq, Eq, Debug, Structural)]
pub struct InvalidProxyConfig;

/// Why there is no connection.
#[derive(PartialEq, Eq, Debug)]
pub enum ConnectError {
    InvalidConnectionConfiguration,
    /// The attempt failed, in the words of the network stack.
    Failed(String),
}

/// What a socket is set up with.
pub struct WsConfig<W> {
    /// How long after a request the network interface is checked.
    pub post_request_interface_check_timeout: Duration,
    pub rest: W,
}

/// Everything that a connection manager has to say on a new connection.
pub struct ConnectionSettings<C, W, V> {
    pub service: V,
    /// The header by which the server is known to have answered itself.
    pub confirmation_header_name: Option<&'static str>,
    pub ws_config: WsConfig<W>,
    pub user_agent: String,
    pub enable_fronting: EnableDomainFronting,
    pub enforce_minimum_tls: EnforceMinimumTls,
    /// The routes that the proxy settings ask for.
    pub transport: Result<DirectOrProxyMode<C>, InvalidProxyConfig>,
    /// The server's own value, in milliseconds, for
    /// [`WsConfig::post_request_interface_check_timeout`].
    pub remote_check_timeout: Option<String>,
}

/// Where on the server a connection goes.
#[derive(Clone, Copy, PartialEq, Eq, Debug, Structural)]
pub enum ChatEndpoint {
    Websocket,
    Provisioning,
}

/// What a connection without an account says of itself.
pub struct UnauthenticatedChatHeaders {
    pub languages: Vec<String>,
}

/// What a connection signs in with.
pub struct AuthenticatedChatHeaders {
    pub aci: Aci,
    pub device_id: DeviceId,
    pub password: String,
    pub receive_stories: bool,
    pub languages: Vec<String>,
}

pub enum ChatHeaders {
    Auth(AuthenticatedChatHeaders),
    Unauth(UnauthenticatedChatHeaders),
}

/// The routes to try.
pub struct RouteProvider<C> {
    pub enable_domain_fronting: EnableDomainFronting,
    pub enforce_minimum_tls: EnforceMinimumTls,
    pub override_nagle_algorithm: OverrideNagleAlgorithm,
    pub mode: DirectOrProxyMode<C>,
}

/// What the network stack is asked to open a connection with.
pub struct ConnectionAttempt<C, W, V> {
    pub kind: &'static str,
    pub service: V,
    pub endpoint: ChatEndpoint,
    pub headers: Option<ChatHeaders>,
    pub user_agent: String,
    pub confirmation_header_name: Option<String>,
    pub route_provider: RouteProvider<C>,
    pub proxy_mode: DirectOrProxyModeDiscriminants,
    pub ws_config: WsConfig<W>,
    /// A value for the check timeout that is not a number, and so was left aside.
    pub bad_check_timeout: Option<String>,
}

/// What the network stack is asked to get ready for a later connection.
pub struct Preconnect<C, V> {
    pub service: V,
    pub route_provider: RouteProvider<C>,
    pub confirmation_header_name: Option<String>,
    pub log_tag: &'static str,
}

/// How an attempt to connect is reported.
#[derive(Clone, Copy, PartialEq, Eq, Debug, Structural)]
pub enum ConnectReport {
    /// Connected as asked.
    Connected,
    /// Connected without the proxy that was asked for first.
    ConnectedDirectly,
    Failed,
}

impl<C> DirectOrProxyMode<C> {
    pub open spec fn spec_discriminant(self) -> DirectOrProxyModeDiscriminants {
        match self {
            DirectOrProxyMode::DirectOnly => DirectOrProxyModeDiscriminants::DirectOnly,
            DirectOrProxyMode::ProxyOnly(_) => DirectOrProxyModeDiscriminants::ProxyOnly,
            DirectOrProxyMode::ProxyThenDirect(_) => {
                DirectOrProxyModeDiscriminants::ProxyThenDirect
            },
            DirectOrProxyMode::DirectThenProxy(_) => {
                DirectOrProxyModeDiscriminants::DirectThenProxy
            },
        }
    }

    pub fn discriminant(&self) -> (mode: DirectOrProxyModeDiscriminants)
        ensures
            mode == self.spec_discriminant(),
            self is DirectOnly <==> mode == DirectOrProxyModeDiscriminants::DirectOnly,
            self is ProxyOnly <==> mode == DirectOrProxyModeDiscriminants::ProxyOnly,
            self is ProxyThenDirect <==> mode == DirectOrProxyModeDiscriminants::ProxyThenDirect,
            self is DirectThenProxy <==> mode == DirectOrProxyModeDiscriminants::DirectThenProxy,
    {
        match self {
            DirectOrProxyMode::DirectOnly => DirectOrProxyModeDiscriminants::DirectOnly,
            DirectOrProxyMode::ProxyOnly(_) => DirectOrProxyModeDiscriminants::ProxyOnly,
            DirectOrProxyMode::ProxyThenDirect(_) => {
                DirectOrProxyModeDiscriminants::ProxyThenDirect
            },
            DirectOrProxyMode::DirectThenProxy(_) => {
                DirectOrProxyModeDiscriminants::DirectThenProxy
            },
        }
    }
}

impl DirectOrProxyModeDiscriminants {
    /// Whether a route through a proxy, or one without, is among those that are tried.
    pub open spec fn allows(self, proxied: bool) -> bool {
        match self {
            DirectOrProxyModeDiscriminants::DirectOnly => !proxied,
            DirectOrProxyModeDiscriminants::ProxyOnly => proxied,
            _ => true,
        }
    }
}

/// The routes for a transport: small writes go out at once, whatever the system does otherwise.
/// A proxy that cannot be used makes the configuration invalid.
pub fn make_route_provider<C>(
    transport: Result<DirectOrProxyMode<C>, InvalidProxyConfig>,
    enable_domain_fronting: EnableDomainFronting,
    enforce_minimum_tls: EnforceMinimumTls,
) -> (provider: Result<RouteProvider<C>, ConnectError>)
    ensures
        match transport {
            Ok(mode) => provider == Ok::<_, ConnectError>(
                (RouteProvider {
                    enable_domain_fronting,
                    enforce_minimum_tls,
                    override_nagle_algorithm: OverrideNagleAlgorithm::OverrideToOff,
                    mode,
                }),
            ),
            Err(_) => provider == Err::<RouteProvider<C>, _>(
                ConnectError::InvalidConnectionConfiguration,
            ),
        },
{
    match transport {
        Ok(mode) => Ok(
            RouteProvider {
                enable_domain_fronting,
                enforce_minimum_tls,
                override_nagle_algorithm: OverrideNagleAlgorithm::OverrideToOff,
                mode,
            },
        ),
        Err(InvalidProxyConfig) => Err(ConnectError::InvalidConnectionConfiguration),
    }
}

/// The check timeout that the server asks for, in milliseconds, if it asks for one in digits that
/// write a 64-bit number.
pub open spec fn remote_check_millis(value: Option<String>) -> Option<nat> {
    match value {
        Some(value) => text::decimal_of(value@, u64::MAX as nat),
        None => None,
    }
}

impl<C, W, V> ConnectionSettings<C, W, V> {
    /// Settings whose confirmation header can be one.
    pub open spec fn is_usable(self) -> bool {
        self.confirmation_header_name matches Some(name) ==> headers::is_static_name(name@)
    }
}

impl<C, W, V> ConnectionAttempt<C, W, V> {
    /// `self` is the attempt that `settings` call for.
    pub open spec fn is_for(
        self,
        kind: &'static str,
        settings: ConnectionSettings<C, W, V>,
        endpoint: ChatEndpoint,
        headers: Option<ChatHeaders>,
    ) -> bool {
        &&& self.kind == kind
        &&& self.service == settings.service
        &&& self.endpoint == endpoint
        &&& self.headers == headers
        &&& self.user_agent == settings.user_agent
        &&& self.confirmation_header_name is Some <==> settings.confirmation_header_name is Some
        &&& self.confirmation_header_name matches Some(name) ==> name@
            == settings.confirmation_header_name->0@
        &&& settings.transport == Ok::<_, InvalidProxyConfig>(self.route_provider.mode)
        &&& self.route_provider.enable_domain_fronting == settings.enable_fronting
        &&& self.route_provider.enforce_minimum_tls == settings.enforce_minimum_tls
        &&& self.route_provider.override_nagle_algorithm == OverrideNagleAlgorithm::OverrideToOff
        &&& self.proxy_mode == self.route_provider.mode.spec_discriminant()
        &&& self.ws_config.rest == settings.ws_config.rest
        &&& match remote_check_millis(settings.remote_check_timeout) {
            Some(millis) => {
                &&& time::duration_nanos(self.ws_config.post_request_interface_check_timeout)
                    == millis * 1_000_000
                &&& self.bad_check_timeout is None
            },
            None => {
                &&& self.ws_config.post_request_interface_check_timeout
                    == settings.ws_config.post_request_interface_check_timeout
                &&& self.bad_check_timeout == settings.remote_check_timeout
            },
        }
    }
}

/// What to open a connection with. A usable value for the check timeout from the server goes
/// before the built-in one; one that is no number is left aside and reported.
pub fn establish_chat_connection<C, W, V>(
    kind: &'static str,
    settings: ConnectionSettings<C, W, V>,
    endpoint: ChatEndpoint,
    headers: Option<ChatHeaders>,
) -> (attempt: Result<ConnectionAttempt<C, W, V>, ConnectError>)
    requires
        settings.is_usable(),
    ensures
        attempt is Ok <==> settings.transport is Ok,
        attempt matches Ok(a) ==> a.is_for(kind, settings, endpoint, headers),
        attempt matches Ok(a) ==> a.kind@ == kind@ && a.endpoint == endpoint && a.headers == headers
            && a.service == settings.service && a.user_agent == settings.user_agent
            && Ok::<_, InvalidProxyConfig>(a.route_provider.mode) == settings.transport
            && a.route_provider.enable_domain_fronting == settings.enable_fronting
            && a.route_provider.enforce_minimum_tls == settings.enforce_minimum_tls
            && a.proxy_mode == a.route_provider.mode.spec_discriminant()
            && a.route_provider.override_nagle_algorithm
            == OverrideNagleAlgorithm::OverrideToOff && a.ws_config.rest
            == settings.ws_config.rest,
        attempt matches Err(e) ==> e is InvalidConnectionConfiguration,
{
    let confirmation_header_name: Option<String> = match settings.confirmation_header_name {
        Some(name) => Some(header_name_from_static(name)),
        None => None,
    };
    let route_provider = match make_route_provider(
        settings.transport,
        settings.enable_fronting,
        settings.enforce_minimum_tls,
    ) {
        Ok(route_provider) => route_provider,
        Err(e) => return Err(e),
    };
    let proxy_mode = route_provider.mode.discriminant();
    let mut ws_config = settings.ws_config;
    let mut bad_check_timeout: Option<String> = None;
    if let Some(value) = settings.remote_check_timeout {
        match parse_decimal(value.as_str(), u64::MAX) {
            Some(millis) => {
                ws_config.post_request_interface_check_timeout = duration_from_millis(millis);
            },
            None => {
                bad_check_timeout = Some(value);
            },
        }
    }
    Ok(
        ConnectionAttempt {
            kind,
            service: settings.service,
            endpoint,
            headers,
            user_agent: settings.user_agent,
            confirmation_header_name,
            route_provider,
            proxy_mode,
            ws_config,
            bad_check_timeout,
        },
    )
}

/// How an attempt is reported. `proxied` says of a connection whether it goes through a proxy, and
/// is absent where there is no connection. A connection is always over a route that was to be
/// tried.
pub fn report_connect(proxy_mode: DirectOrProxyModeDiscriminants, proxied: Option<bool>) -> (report:
    ConnectReport)
    requires
        proxied matches Some(p) ==> proxy_mode.allows(p),
    ensures
        report == match proxied {
            None => ConnectReport::Failed,
            Some(p) => if !p && proxy_mode == DirectOrProxyModeDiscriminants::ProxyThenDirect {
                ConnectReport::ConnectedDirectly
            } else {
                ConnectReport::Connected
            },
        },
{
    match (proxied, proxy_mode) {
        (None, _) => ConnectReport::Failed,
        (Some(false), DirectOrProxyModeDiscriminants::ProxyThenDirect) => {
            ConnectReport::ConnectedDirectly
        },
        (Some(_), _) => ConnectReport::Connected,
    }
}

impl<C, V> Preconnect<C, V> {
    /// `self` is what to get ready over `transport`. Nothing is sent, so there is no answer to
    /// confirm.
    pub open spec fn is_for(
        self,
        service: V,
        transport: Result<DirectOrProxyMode<C>, InvalidProxyConfig>,
        enable_domain_fronting: EnableDomainFronting,
        enforce_minimum_tls: EnforceMinimumTls,
    ) -> bool {
        &&& self.service == service
        &&& transport == Ok::<_, InvalidProxyConfig>(self.route_provider.mode)
        &&& self.route_provider.enable_domain_fronting == enable_domain_fronting
        &&& self.route_provider.enforce_minimum_tls == enforce_minimum_tls
        &&& self.route_provider.override_nagle_algorithm == OverrideNagleAlgorithm::OverrideToOff
        &&& self.confirmation_header_name is None
        &&& self.log_tag@ == "preconnect"@
    }
}

/// A value for the check timeout that is no number changes nothing but that it is reported: the
/// attempt is otherwise the one for settings without such a value.
pub proof fn law_bad_check_timeout_is_left_aside<C, W, V>(
    attempt: ConnectionAttempt<C, W, V>,
    kind: &'static str,
    settings: ConnectionSettings<C, W, V>,
    endpoint: ChatEndpoint,
    headers: Option<ChatHeaders>,
)
    requires
        attempt.is_for(kind, settings, endpoint, headers),
        remote_check_millis(settings.remote_check_timeout) is None,
    ensures
        (ConnectionAttempt { bad_check_timeout: None, ..attempt }).is_for(
            kind,
            (ConnectionSettings { remote_check_timeout: None, ..settings }),
            endpoint,
            headers,
        ),
{
}

/// An attempt says, asks for and goes to exactly what it was opened with: it has the headers that
/// were handed in, whole, and takes over every setting.
pub proof fn law_attempt_is_what_was_asked_for<C, W, V>(
    attempt: ConnectionAttempt<C, W, V>,
    kind: &'static str,
    settings: ConnectionSettings<C, W, V>,
    endpoint: ChatEndpoint,
    headers: Option<ChatHeaders>,
)
    requires
        attempt.is_for(kind, settings, endpoint, headers),
    ensures
        attempt.kind@ == kind@,
        attempt.endpoint == endpoint,
        attempt.headers == headers,
        attempt.service == settings.service,
        attempt.user_agent@ == settings.user_agent@,
        attempt.confirmation_header_name is Some <==> settings.confirmation_header_name is Some,
        attempt.confirmation_header_name is Some ==> attempt.confirmation_header_name->0@
            == settings.confirmation_header_name->0@,
        attempt.proxy_mode == attempt.route_provider.mode.spec_discriminant(),
        settings.transport == Ok::<_, InvalidProxyConfig>(attempt.route_provider.mode),
        attempt.route_provider.enable_domain_fronting == settings.enable_fronting,
        attempt.route_provider.enforce_minimum_tls == settings.enforce_minimum_tls,
        attempt.route_provider.override_nagle_algorithm == OverrideNagleAlgorithm::OverrideToOff,
        attempt.ws_config.rest == settings.ws_config.rest,
{
}

/// An attempt that signs in does so as the account and the device, with the password, the wish for
/// stories and the languages that were handed in; one without an account says its languages.
pub proof fn law_attempt_signs_in_as_asked<C, W, V>(
    attempt: ConnectionAttempt<C, W, V>,
    kind: &'static str,
    settings: ConnectionSettings<C, W, V>,
    endpoint: ChatEndpoint,
    headers: Option<ChatHeaders>,
)
    requires
        attempt.is_for(kind, settings, endpoint, headers),
    ensures
        attempt.headers is None <==> headers is None,
        headers matches Some(ChatHeaders::Auth(asked)) ==> attempt.headers matches Some(
            ChatHeaders::Auth(said),
        ) && said.aci.bytes@ == asked.aci.bytes@ && said.device_id@ == asked.device_id@
            && said.password@ == asked.password@ && said.receive_stories == asked.receive_stories
            && said.languages@ == asked.languages@,
        headers matches Some(ChatHeaders::Unauth(asked)) ==> attempt.headers matches Some(
            ChatHeaders::Unauth(said),
        ) && said.languages@ == asked.languages@,
{
}

/// Two attempts from the same settings differ in nothing but what was asked for differently.
pub proof fn law_attempts_differ_as_they_were_asked<C, W, V>(
    one: ConnectionAttempt<C, W, V>,
    other: ConnectionAttempt<C, W, V>,
    kinds: (&'static str, &'static str),
    settings: ConnectionSettings<C, W, V>,
    endpoints: (ChatEndpoint, ChatEndpoint),
    headers: (Option<ChatHeaders>, Option<ChatHeaders>),
)
    requires
        one.is_for(kinds.0, settings, endpoints.0, headers.0),
        other.is_for(kinds.1, settings, endpoints.1, headers.1),
    ensures
        one.headers == other.headers <==> headers.0 == headers.1,
        one.endpoint == other.endpoint <==> endpoints.0 == endpoints.1,
        one.route_provider == other.route_provider,
        one.proxy_mode == other.proxy_mode,
        one.service == other.service,
{
}

/// The server's value for the check timeout is taken where it writes a 64-bit number in base ten,
/// in milliseconds. Without a value, or with one that has a character which is no digit, the
/// built-in timeout stays; such a value is reported.
pub proof fn law_check_timeout<C, W, V>(
    attempt: ConnectionAttempt<C, W, V>,
    kind: &'static str,
    settings: ConnectionSettings<C, W, V>,
    endpoint: ChatEndpoint,
    headers: Option<ChatHeaders>,
    n: nat,
    i: int,
)
    requires
        attempt.is_for(kind, settings, endpoint, headers),
    ensures
        settings.remote_check_timeout is None
            ==> attempt.ws_config.post_request_interface_check_timeout
            == settings.ws_config.post_request_interface_check_timeout
            && attempt.bad_check_timeout is None,
        settings.remote_check_timeout matches Some(value) ==> {
            &&& text::decimal_of(value@, u64::MAX as nat) == Some(n) ==> time::duration_nanos(
                attempt.ws_config.post_request_interface_check_timeout,
            ) == n * 1_000_000 && attempt.bad_check_timeout is None
            &&& text::decimal_of(value@, u64::MAX as nat) is None
                ==> attempt.ws_config.post_request_interface_check_timeout
                == settings.ws_config.post_request_interface_check_timeout
                && attempt.bad_check_timeout == settings.remote_check_timeout
            &&& value@ == text::decimal_text(n) && n <= u64::MAX ==> time::duration_nanos(
                attempt.ws_config.post_request_interface_check_timeout,
            ) == n * 1_000_000 && attempt.bad_check_timeout is None
            &&& (0 < i < value@.len() && !('0' <= value@[i] <= '9')) || value@.len() == 0 || (
            value@ == text::decimal_text(n) && n > u64::MAX)
                ==> attempt.ws_config.post_request_interface_check_timeout
                == settings.ws_config.post_request_interface_check_timeout
                && attempt.bad_check_timeout == settings.remote_check_timeout
        },
{
    if let Some(value) = settings.remote_check_timeout {
        if value@ == text::decimal_text(n) {
            text::law_number_round_trip(Seq::empty(), n, u64::MAX as nat);
            assert(Seq::<char>::empty() + text::decimal_text(n) == text::decimal_text(n));
        }
        if 0 < i < value@.len() && !('0' <= value@[i] <= '9') {
            text::law_numbers_are_digits(value@, i, u64::MAX as nat);
        }
    }
}

/// A connection can be direct unless only the proxy is to be tried, and through the proxy unless
/// none is.
pub proof fn law_routes_that_are_tried<C>(mode: DirectOrProxyMode<C>)
    ensures
        mode.spec_discriminant().allows(false) <==> !(mode is ProxyOnly),
        mode.spec_discriminant().allows(true) <==> !(mode is DirectOnly),
        mode.spec_discriminant() == DirectOrProxyModeDiscriminants::ProxyThenDirect <==> mode
            is ProxyThenDirect,
        mode.spec_discriminant() == DirectOrProxyModeDiscriminants::DirectThenProxy <==> mode
            is DirectThenProxy,
{
}

/// What is got ready for later is what was asked for, and confirms nothing.
pub proof fn law_preconnect_is_what_was_asked_for<C, V>(
    preconnect: Preconnect<C, V>,
    service: V,
    transport: Result<DirectOrProxyMode<C>, InvalidProxyConfig>,
    enable_domain_fronting: EnableDomainFronting,
    enforce_minimum_tls: EnforceMinimumTls,
)
    requires
        preconnect.is_for(service, transport, enable_domain_fronting, enforce_minimum_tls),
    ensures
        preconnect.service == service,
        transport == Ok::<_, InvalidProxyConfig>(preconnect.route_provider.mode),
        preconnect.route_provider.enable_domain_fronting == enable_domain_fronting,
        preconnect.route_provider.enforce_minimum_tls == enforce_minimum_tls,
        preconnect.route_provider.override_nagle_algorithm
            == OverrideNagleAlgorithm::OverrideToOff,
        preconnect.confirmation_header_name is None,
        preconnect.log_tag@ == "preconnect"@,
{
}

/// Settings can be used with any confirmation header that is a token without capital letters, and
/// without one.
pub proof fn law_usable_settings<C, W, V>(settings: ConnectionSettings<C, W, V>)
    ensures
        settings.confirmation_header_name is None ==> settings.is_usable(),
        settings.confirmation_header_name matches Some(name) ==> (headers::header_name_of(name@)
            == Some(name@) ==> settings.is_usable()),
{
    if let Some(name) = settings.confirmation_header_name {
        if headers::header_name_of(name@) == Some(name@) {
            headers::law_static_names(name@);
        }
    }
}

} // verus!
