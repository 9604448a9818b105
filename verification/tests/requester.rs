//! Requests over a requester: how they reach it, how its replies come back, and which errors are
//! its own.

use std::sync::Arc;
use std::sync::Mutex;
use std::time::Duration;

use chat_bridge::account::Aci;
use chat_bridge::connection::AuthenticatedChatConnection;
use chat_bridge::connection::BridgeChatConnection;
use chat_bridge::connection::ChatWire;
use chat_bridge::connection::Outgoing;
use chat_bridge::connection::ServiceOutgoing;
use chat_bridge::connection::UnauthenticatedChatConnection;
use chat_bridge::request::ChatResponse;
use chat_bridge::log_line::answered_line;
use chat_bridge::log_line::failed_line;
use chat_bridge::log_line::request_line;
use chat_bridge::log_line::result_line;
use chat_bridge::request::HttpMethod;
use chat_bridge::request::HttpPath;
use chat_bridge::request::Request;
use chat_bridge::requester::decode_reply;
use chat_bridge::requester::finish_request;
use chat_bridge::requester::CancelOnDrop;
use chat_bridge::requester::ChatRequester;
use chat_bridge::requester::ChatRequesterResponse;
use chat_bridge::requester::Joined;
use chat_bridge::requester::RequesterConnection;
use chat_bridge::requester::SendError;
use chat_bridge::requester::StartedRequest;

const ACI: Aci = Aci {
    bytes: [
        0x65, 0x9a, 0xa5, 0xf4, 0xa2, 0x8d, 0xfc, 0xc1, 0x1e, 0xa1, 0xb9, 0x97, 0x53, 0x7a, 0x3d,
        0x95,
    ],
};

type Unauthenticated<R> = UnauthenticatedChatConnection<(), (), (), (), R>;
type Authenticated<R> = AuthenticatedChatConnection<(), (), (), (), R>;

struct Seen {
    request_id: u64,
    method: String,
    path: String,
    headers: Vec<String>,
    body: Vec<u8>,
}

/// Every request that a requester was asked to make, and every one that it was told to let go of.
#[derive(Default)]
struct Record {
    seen: Mutex<Vec<Seen>>,
    cancelled: Mutex<Vec<u64>>,
}

/// Answers every request the same way and records what it was asked.
struct Canned {
    status: u16,
    headers: Vec<&'static str>,
    body: &'static [u8],
    failure: Option<&'static str>,
    record: Arc<Record>,
}

impl Canned {
    fn answering(status: u16, headers: &[&'static str], body: &'static [u8]) -> Self {
        Self {
            status,
            headers: headers.to_vec(),
            body,
            failure: None,
            record: Default::default(),
        }
    }

    fn failing(reason: &'static str) -> Self {
        Self {
            failure: Some(reason),
            ..Self::answering(0, &[], b"")
        }
    }
}

impl ChatRequester for Canned {
    fn send(
        &self,
        request_id: u64,
        method: String,
        path: String,
        headers: Box<[String]>,
        body: Vec<u8>,
    ) -> Result<ChatRequesterResponse, std::io::Error> {
        self.record.seen.lock().expect("not poisoned").push(Seen {
            request_id,
            method,
            path,
            headers: headers.into_vec(),
            body,
        });
        if let Some(reason) = self.failure {
            return Err(std::io::Error::other(reason));
        }
        Ok(ChatRequesterResponse {
            status: self.status,
            headers: self.headers.iter().map(|h| h.to_string()).collect(),
            body: self.body.to_vec(),
        })
    }

    fn cancel(&self, request_id: u64) {
        self.record
            .cancelled
            .lock()
            .expect("not poisoned")
            .push(request_id);
    }
}

/// A guard that tells its requester when it is dropped armed.
struct Guard<R: ChatRequester> {
    requester: Arc<R>,
    guard: Option<CancelOnDrop>,
}

impl<R: ChatRequester> Drop for Guard<R> {
    fn drop(&mut self) {
        if let Some(guard) = &self.guard {
            guard.release(&*self.requester);
        }
    }
}

/// Shares a requester between a connection and the guards of its requests.
struct Shared<R>(Arc<R>);

impl<R: ChatRequester> ChatRequester for Shared<R> {
    fn send(
        &self,
        request_id: u64,
        method: String,
        path: String,
        headers: Box<[String]>,
        body: Vec<u8>,
    ) -> Result<ChatRequesterResponse, std::io::Error> {
        self.0.send(request_id, method, path, headers, body)
    }

    fn cancel(&self, request_id: u64) {
        self.0.cancel(request_id)
    }
}

fn request(method: &str, path: &str) -> Request {
    Request {
        method: HttpMethod::try_from(method.to_owned()).expect("a method"),
        path: HttpPath::try_from(path.to_owned()).expect("a path"),
        headers: http::HeaderMap::new(),
        body: None,
    }
}

fn requester_of<R>(connection: &Unauthenticated<Shared<R>>) -> Arc<R> {
    connection.as_typed(|wire| match wire.0 {
        ChatWire::Requester(connection) => Arc::clone(&connection.as_requester().0),
        ChatWire::Ws(_) => unreachable!(),
    })
}

/// A service that sends one request over the connection that it is handed.
fn exchange<R: ChatRequester>(
    connection: &mut Unauthenticated<Shared<R>>,
    request: Request,
) -> Result<ChatResponse, SendError> {
    let outgoing =
        connection.as_typed_mut(|wire| wire.0.send_for_service("unauth", "/safe", request));
    let ServiceOutgoing::Requester { started, .. } = outgoing else {
        unreachable!()
    };
    let StartedRequest { call, guard } = started?;
    let requester = requester_of(connection);
    let mut guard = Guard {
        requester: Arc::clone(&requester),
        guard: Some(guard),
    };
    let reply = call.perform(&*requester);
    let armed = guard.guard.take().expect("armed");
    let (disarmed, result) = StartedRequest::end(armed, Joined::Completed(reply));
    guard.guard = Some(disarmed);
    result
}

/// What becomes of a question whether an account exists.
fn account_exists(requester: Canned) -> (Result<ChatResponse, SendError>, Arc<Record>) {
    let record = Arc::clone(&requester.record);
    let mut connection = Unauthenticated::with_requester(Shared(Arc::new(requester)));
    let result = exchange(
        &mut connection,
        request(
            "HEAD",
            "/v1/accounts/account/659aa5f4-a28d-fcc1-1ea1-b997537a3d95",
        ),
    );
    (result, record)
}

fn cancelled(record: &Record) -> Vec<u64> {
    record.cancelled.lock().expect("not poisoned").clone()
}

#[test]
fn a_typed_service_runs_over_the_requester() {
    let (result, record) = account_exists(Canned::answering(200, &[], b""));
    let Ok(response) = result else {
        panic!("expected a response")
    };
    assert_eq!(response.status.as_u16(), 200);
    assert!(response.message.is_none());
    let seen = record.seen.lock().expect("not poisoned");
    let [request] = seen.as_slice() else {
        panic!("expected one request, saw {}", seen.len())
    };
    assert_eq!(request.request_id, 0);
    assert_eq!(request.method, "HEAD");
    assert_eq!(
        request.path,
        "/v1/accounts/account/659aa5f4-a28d-fcc1-1ea1-b997537a3d95"
    );
    assert!(request.headers.is_empty(), "{:?}", request.headers);
    assert!(request.body.is_empty());
}

#[test]
fn the_servers_answer_is_the_services_answer() {
    let (result, _) = account_exists(Canned::answering(404, &[], b""));
    assert!(matches!(result, Ok(response) if response.status.as_u16() == 404));
}

#[test]
fn response_headers_reach_the_decoder() {
    let (result, _) = account_exists(Canned::answering(
        429,
        &["Content-Type: application/json", "Retry-After: 7"],
        b"{}",
    ));
    let Ok(response) = result else {
        panic!("expected a response")
    };
    assert_eq!(response.status.as_u16(), 429);
    assert_eq!(response.headers.len(), 2);
    assert_eq!(response.headers["content-type"], "application/json");
    assert_eq!(response.headers["retry-after"], "7");
    assert_eq!(response.body.expect("a body").as_ref(), b"{}");
}

#[test]
fn the_requesters_failure_is_a_transport_error() {
    let (result, record) = account_exists(Canned::failing("the proxy is down"));
    assert!(matches!(
        result,
        Err(SendError::WebSocket(error)) if error.to_string() == "the proxy is down"
    ));
    assert_eq!(record.seen.lock().expect("not poisoned").len(), 1);
}

#[test]
fn a_reply_libsignal_cannot_represent_is_a_transport_error() {
    let (result, _) = account_exists(Canned::answering(200, &["not a header"], b""));
    assert!(matches!(result, Err(SendError::IncomingDataInvalid)));
}

#[test]
fn a_request_that_completed_is_never_cancelled() {
    let (result, record) = account_exists(Canned::answering(200, &[], b""));
    assert!(matches!(result, Ok(response) if response.status.as_u16() == 200));
    assert_eq!(cancelled(&record), &[] as &[u64]);

    let (result, record) = account_exists(Canned::failing("the proxy is down"));
    assert!(matches!(result, Err(SendError::WebSocket(_))));
    assert_eq!(cancelled(&record), &[] as &[u64]);
}

/// A requester whose caller goes away while `send` is under way: it lets the caller go in the
/// middle of the call, and then looks whether it was told.
#[derive(Default)]
struct Parked {
    caller: Mutex<Option<Guard<Parked>>>,
    in_flight: Mutex<Option<u64>>,
    cancelled: Mutex<Vec<u64>>,
    returned: Mutex<bool>,
}

impl ChatRequester for Parked {
    fn send(
        &self,
        request_id: u64,
        _method: String,
        _path: String,
        _headers: Box<[String]>,
        _body: Vec<u8>,
    ) -> Result<ChatRequesterResponse, std::io::Error> {
        *self.in_flight.lock().expect("not poisoned") = Some(request_id);
        let caller = self.caller.lock().expect("not poisoned").take();
        assert!(self.cancelled.lock().expect("not poisoned").is_empty());
        drop(caller);
        assert!(self.cancelled.lock().expect("not poisoned").contains(&request_id));
        *self.returned.lock().expect("not poisoned") = true;
        Err(std::io::Error::other("the caller let go"))
    }

    fn cancel(&self, request_id: u64) {
        self.cancelled.lock().expect("not poisoned").push(request_id);
    }
}

#[test]
fn a_request_dropped_mid_flight_is_cancelled_by_id() {
    let parked = Arc::new(Parked::default());
    let mut connection = Unauthenticated::with_requester(Shared(Arc::clone(&parked)));
    // The number before it is spent, so that naming just any request is not enough.
    let Outgoing::Requester { .. } = connection.send(request("GET", "/"), Duration::ZERO) else {
        unreachable!()
    };
    let Outgoing::Requester { started, .. } = connection.send(request("GET", "/"), Duration::ZERO)
    else {
        unreachable!()
    };
    let Ok(StartedRequest { call, guard }) = started else {
        panic!("refused")
    };
    *parked.caller.lock().expect("not poisoned") = Some(Guard {
        requester: Arc::clone(&parked),
        guard: Some(guard),
    });
    assert!(call.perform(&*parked).is_err());
    let request_id = parked.in_flight.lock().expect("not poisoned").expect("in flight");
    assert_eq!(request_id, 1);
    assert_eq!(
        *parked.cancelled.lock().expect("not poisoned"),
        vec![request_id],
        "cancelled the wrong request"
    );
    assert!(*parked.returned.lock().expect("not poisoned"));
}

#[test]
fn an_authenticated_connection_knows_its_own_aci() {
    let connection = Authenticated::with_requester(Canned::answering(200, &[], b""), ACI);
    let aci = connection.as_typed(|wire| wire.0.self_aci());
    assert_eq!(aci, Some(ACI));
    let connection = UnauthenticatedChatConnection::<(), (), (), (), Canned>::with_requester(
        Canned::answering(200, &[], b""),
    );
    assert_eq!(connection.as_typed(|wire| wire.0.self_aci()), None);
}

fn words(_: &SendError) -> String {
    "in words".to_owned()
}

#[test]
fn request_headers_are_lines_and_values_of_a_name_stay_together() {
    let requester = Canned::answering(200, &[], b"");
    let record = Arc::clone(&requester.record);
    let mut connection = RequesterConnection::new(requester, None);
    let mut message = request("PUT", "/v1/x?y=z");
    message
        .headers
        .append("unidentified-access-key", "abc".parse().expect("a value"));
    message
        .headers
        .append("accept-language", "de".parse().expect("a value"));
    message
        .headers
        .append("Unidentified-Access-Key", "d e".parse().expect("a value"));
    message.body = Some(bytes::Bytes::from_static(b"\x00\x01"));
    let sent = connection.send("tag", "/v1/x", message, words);
    assert!(sent.result.is_ok());
    assert_eq!(sent.request_line, "[tag 0000] PUT /v1/x");
    assert_eq!(sent.result_line, "[tag 0000] PUT /v1/x 200 OK");
    let seen = record.seen.lock().expect("not poisoned");
    assert_eq!(seen[0].method, "PUT");
    assert_eq!(seen[0].path, "/v1/x?y=z");
    assert_eq!(
        seen[0].headers,
        [
            "unidentified-access-key: abc",
            "unidentified-access-key: d e",
            "accept-language: de",
        ]
    );
    assert_eq!(seen[0].body, [0, 1]);
}

#[test]
fn a_request_with_a_header_that_is_not_text_is_refused_unsent() {
    let requester = Canned::answering(200, &[], b"");
    let record = Arc::clone(&requester.record);
    let mut connection = RequesterConnection::new(requester, None);
    let mut message = request("GET", "/");
    message.headers.append(
        "x",
        http::HeaderValue::from_bytes(b"\xff").expect("a value"),
    );
    let sent = connection.send("tag", "/", message, words);
    assert!(matches!(
        sent.result,
        Err(SendError::RequestHasInvalidHeader)
    ));
    assert_eq!(sent.result_line, "[tag 0000] GET / - in words");
    assert!(record.seen.lock().expect("not poisoned").is_empty());
    // Its number is spent all the same.
    let sent = connection.send("tag", "/", request("GET", "/"), words);
    assert!(sent.result.is_ok());
    assert_eq!(sent.request_line, "[tag 0001] GET /");
    assert_eq!(record.seen.lock().expect("not poisoned")[0].request_id, 1);
}

#[test]
fn requests_are_numbered_from_zero() {
    let mut connection = RequesterConnection::new(Canned::answering(200, &[], b""), Some(ACI));
    assert_eq!(connection.allocate_request_id(), 0);
    assert_eq!(connection.allocate_request_id(), 1);
    assert_eq!(connection.allocate_request_id(), 2);
    assert_eq!(connection.self_aci(), Some(ACI));
}

#[test]
fn a_request_of_a_service_is_logged_under_its_number() {
    let mut connection = Authenticated::with_requester(Canned::answering(200, &[], b""), ACI);
    for number in 0..3 {
        let outgoing = connection.as_typed_mut(|wire| {
            let message = request("HEAD", "/v1/secret");
            wire.0.send_for_service("auth", "/v1/<hidden>", message)
        });
        let ServiceOutgoing::Requester {
            request_id,
            line,
            started,
        } = outgoing
        else {
            unreachable!()
        };
        assert_eq!(request_id, number);
        assert_eq!(line, format!("[auth {:04x}] HEAD /v1/<hidden>", number));
        assert!(matches!(started, Ok(started) if started.call.path == "/v1/secret"));
    }
}

#[test]
fn log_lines_say_what_a_request_came_to() {
    let method = HttpMethod::try_from("GET".to_owned()).expect("a method");
    for number in [0, 9, 15, 16, 255, 256, 0xabc, 4095, 4096, 0xbeef, 0x10000, u64::MAX] {
        assert_eq!(
            request_line("tag", number, &method, "/p"),
            format!("[tag {:04x}] GET /p", number)
        );
    }
    assert_eq!(answered_line("line", "status"), "line status");
    assert_eq!(failed_line("line", "words"), "line - words");
    let line = |status| {
        let result = decode_reply(reply(status, &[], b""));
        result_line("[tag 0000] GET /p", &result, |error| match error {
            SendError::IncomingDataInvalid => "invalid".to_owned(),
            _ => unreachable!(),
        })
    };
    assert_eq!(line(200), "[tag 0000] GET /p 200 OK");
    assert_eq!(line(404), "[tag 0000] GET /p 404 Not Found");
    assert_eq!(line(599), "[tag 0000] GET /p 599 <unknown status code>");
    assert_eq!(line(42), "[tag 0000] GET /p - invalid");
}

#[test]
fn a_call_that_does_not_finish_is_a_disconnect() {
    assert!(matches!(
        finish_request(Joined::Failed),
        Err(SendError::Disconnected)
    ));
}

fn reply(status: u16, headers: &[&str], body: &[u8]) -> ChatRequesterResponse {
    ChatRequesterResponse {
        status,
        headers: headers.iter().map(|h| h.to_string()).collect(),
        body: body.to_vec(),
    }
}

#[test]
fn any_status_from_100_to_999_is_a_response() {
    for status in [100, 200, 404, 599, 999] {
        let decoded = decode_reply(reply(status, &[], b""));
        assert!(matches!(decoded, Ok(response) if response.status.as_u16() == status));
    }
    for status in [0, 99, 1000, u16::MAX] {
        assert!(matches!(
            decode_reply(reply(status, &[], b"")),
            Err(SendError::IncomingDataInvalid)
        ));
    }
}

#[test]
fn an_empty_body_is_none() {
    assert!(matches!(decode_reply(reply(200, &[], b"")), Ok(response) if response.body.is_none()));
    let Ok(response) = decode_reply(reply(200, &[], b"x")) else {
        panic!("expected a response")
    };
    assert_eq!(response.body.as_deref(), Some(b"x" as &[u8]));
}

#[test]
fn every_header_of_a_reply_is_kept() {
    let Ok(response) = decode_reply(reply(
        200,
        &["Set-Cookie: a=b:c", "  X-Y\u{3000}:\t z ", "SET-COOKIE:", "w: \u{e9}"],
        b"",
    )) else {
        panic!("expected a response")
    };
    let cookies: Vec<_> = response.headers.get_all("set-cookie").iter().collect();
    assert_eq!(cookies, ["a=b:c", ""]);
    assert_eq!(response.headers["x-y"], "z");
    assert_eq!(response.headers["w"].as_bytes(), "\u{e9}".as_bytes());
    assert_eq!(response.headers.len(), 4);
}

#[test]
fn a_line_that_writes_no_header_makes_a_reply_invalid() {
    for line in ["", "x", ": y", "a b: c", "x: \u{1}", "\u{e9}: y", "x: a\nb"] {
        assert!(
            matches!(
                decode_reply(reply(200, &["ok: fine", line], b"")),
                Err(SendError::IncomingDataInvalid)
            ),
            "{:?}",
            line
        );
    }
}

#[test]
fn more_headers_than_a_map_holds_are_too_many() {
    let mut message = reply(200, &[], b"");
    message.headers = vec!["x: y".to_owned(); 24_577].into_boxed_slice();
    assert!(matches!(
        decode_reply(message),
        Err(SendError::TooManyHeaders)
    ));
    let mut message = reply(200, &[], b"");
    message.headers = vec!["x: y".to_owned(); 24_576].into_boxed_slice();
    assert!(matches!(decode_reply(message), Ok(response) if response.headers.len() == 24_576));
}

#[test]
fn a_reply_that_echoes_a_request_has_its_headers_and_body() {
    let mut message = request("POST", "/");
    message.headers.append("a", "1".parse().expect("a value"));
    message.headers.append("b", "2".parse().expect("a value"));
    message.headers.append("a", "3".parse().expect("a value"));
    message.body = Some(bytes::Bytes::from_static(b"body"));
    let headers = message.headers.clone();
    let Ok(started) = StartedRequest::begin(message, 9) else {
        panic!("refused")
    };
    let Ok(response) = decode_reply(ChatRequesterResponse {
        status: 200,
        headers: started.call.headers,
        body: started.call.body,
    }) else {
        panic!("expected a response")
    };
    assert_eq!(response.headers, headers);
    assert_eq!(response.body.as_deref(), Some(b"body" as &[u8]));
    assert_eq!(started.guard.on_drop(), Some(9));
}
