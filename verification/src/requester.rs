//! Connections without a socket: each request is one call of a [`ChatRequester`] that the app
//! supplies.

use vstd::prelude::*;

use crate::account::Aci;
use crate::body;
use crate::body::buffer_of;
use crate::call;
pub use crate::call::RequesterCall;
use crate::headers;
use crate::headers::header_map_of_lines;
use crate::headers::HeaderLinesError;
use crate::log_line;
use crate::log_line::request_line;
use crate::log_line::result_line;
use crate::request;
use crate::request::ChatResponse;
use crate::request::HttpStatus;
use crate::request::Request;

verus! {

/// The I/O error of the standard library, which a requester reports its failures with.
#[verifier::external_type_specification]
#[verifier::external_body]
pub struct ExIoError(std::io::Error);

/// What a [`ChatRequester`] hands back: an HTTP response, complete and undecoded.
///
/// `headers` are `Name: value` lines, one for each header. `body` is empty for a response without
/// one.
pub struct ChatRequesterResponse {
    pub status: u16,
    pub headers: Box<[String]>,
    pub body: Vec<u8>,
}

/// The wire that an app supplies for a connection without a socket.
///
/// `send` makes one HTTP request that was asked for, and returns when the reply is there. It is
/// called once for each call that a request turns into, with its parts. It may block. `headers` are
/// `Name: value` lines; `body` is empty for a request without one. An error means that the request
/// did not reach the server or the reply did not come back. A reply of any status is a response.
///
/// `cancel` says that nobody waits for `request_id` any more, and is called only where that is so.
/// It can come on any thread, before, during or after the `send` of that request, at most once for
/// each request. A requester may ignore it.
pub trait ChatRequester: Send + Sync {
    /// Somebody asks for `request`, under this number. A requester that has no way to tell takes
    /// the word of its caller.
    open spec fn is_asked_for(&self, request_id: u64, request: Request) -> bool {
        true
    }

    /// Nobody waits for `request_id` any more. A requester that has no way to tell takes the word
    /// of its caller.
    open spec fn is_abandoned(&self, request_id: u64) -> bool {
        true
    }

    fn send(
        &self,
        request_id: u64,
        method: String,
        path: String,
        headers: Box<[String]>,
        body: Vec<u8>,
    ) -> (reply: Result<ChatRequesterResponse, std::io::Error>)
        requires
            call::are_parts(request_id, method, path, headers, body),
            exists|request: Request| #[trigger]
                self.is_asked_for(request_id, request) && has_text_headers(request)
                    && call::carries(request, method@, path@, headers::texts(headers@), body@),
    ;

    fn cancel(&self, request_id: u64)
        requires
            self.is_abandoned(request_id),
    ;
}

/// Why a request got no response.
pub enum SendError {
    /// A header of the request is not text.
    RequestHasInvalidHeader,
    /// The wire failed.
    WebSocket(std::io::Error),
    /// The call that makes the request did not finish.
    Disconnected,
    /// The reply is no HTTP response.
    IncomingDataInvalid,
    /// The reply has more headers than a header map holds.
    TooManyHeaders,
    /// Another failure, in the words of the connection that it happened on.
    Other(String),
}

/// How the call of a requester ended.
pub enum Joined {
    /// `send` returned this.
    Completed(Result<ChatRequesterResponse, std::io::Error>),
    /// `send` did not return.
    Failed,
}

/// Turns strings into a boxed slice, through `Vec::into_boxed_slice`. Claimed: the slice holds the
/// same strings in the same order.
#[verifier::external_body]
pub(crate) fn into_boxed_slice(strings: Vec<String>) -> (boxed: Box<[String]>)
    ensures
        boxed@ == strings@,
{
    strings.into_boxed_slice()
}

/// Headers of a request that can be written as lines.
pub open spec fn has_text_headers(request: Request) -> bool {
    headers::all_visible(headers::flat(headers::header_groups(request.headers)))
}

/// Whoever sends `request` asks the requester for it. A request with a header that is not text is
/// not asked for.
pub open spec fn asks_for<R: ChatRequester>(
    requester: &R,
    request: Request,
    request_id: u64,
) -> bool {
    has_text_headers(request) ==> requester.is_asked_for(request_id, request)
}

impl RequesterCall {
    /// `reply` is what a requester can return when it is handed `self`.
    pub open spec fn can_return<R: ChatRequester>(
        self,
        requester: &R,
        reply: Result<ChatRequesterResponse, std::io::Error>,
    ) -> bool {
        call_ensures(
            R::send,
            (requester, self.request_id, self.method, self.path, self.headers, self.body),
            reply,
        )
    }

    /// Makes the call, which is used up.
    pub fn perform<R: ChatRequester>(self, requester: &R) -> (reply: Result<
        ChatRequesterResponse,
        std::io::Error,
    >)
        requires
            self.is_sound(),
            requester.is_asked_for(self.request_id, self.spec_origin()),
        ensures
            self.can_return(requester, reply),
    {
        let (request_id, method, path, headers, body) = self.into_parts();
        requester.send(request_id, method, path, headers, body)
    }
}

/// `result` is what becomes of `reply`. A status out of range and a line that writes no header
/// make it invalid. A response has no body where the reply has an empty one.
pub open spec fn is_decoding_of(
    reply: ChatRequesterResponse,
    result: Result<ChatResponse, SendError>,
) -> bool {
    let lines = headers::texts(reply.headers@);
    match result {
        Ok(response) => {
            &&& request::is_status(reply.status)
            &&& response.status@ == reply.status
            &&& response.message is None
            &&& headers::is_outcome_of_lines(lines, Ok(headers::header_groups(response.headers)))
            &&& response.body is Some <==> reply.body@.len() > 0
            &&& body::body_bytes(response.body) == reply.body@
        },
        Err(SendError::IncomingDataInvalid) => !request::is_status(reply.status)
            || headers::is_outcome_of_lines(lines, Err(HeaderLinesError::Malformed)),
        Err(SendError::TooManyHeaders) => request::is_status(reply.status)
            && headers::is_outcome_of_lines(lines, Err(HeaderLinesError::TooMany)),
        Err(_) => false,
    }
}

/// `result` is what becomes of a request whose call ended as `joined` says.
pub open spec fn is_result_of(joined: Joined, result: Result<ChatResponse, SendError>) -> bool {
    match joined {
        Joined::Failed => result matches Err(e) && e is Disconnected,
        Joined::Completed(Err(error)) => result == Err::<ChatResponse, _>(
            SendError::WebSocket(error),
        ),
        Joined::Completed(Ok(reply)) => is_decoding_of(reply, result),
    }
}

/// Decodes what a requester handed back.
pub fn decode_reply(reply: ChatRequesterResponse) -> (result: Result<ChatResponse, SendError>)
    ensures
        is_decoding_of(reply, result),
        result matches Ok(response) ==> response.status@ == reply.status && response.message
            is None && (response.body is None <==> reply.body@.len() == 0) && (response.body is Some
            ==> body::buffer_bytes(response.body->0) == reply.body@),
        result matches Err(e) ==> e is IncomingDataInvalid || e is TooManyHeaders,
        !(100 <= reply.status <= 999) ==> (result matches Err(e) && e is IncomingDataInvalid),
{
    let status: HttpStatus = match HttpStatus::try_from(reply.status) {
        Ok(status) => status,
        Err(_) => return Err(SendError::IncomingDataInvalid),
    };
    let headers = match header_map_of_lines(&reply.headers) {
        Ok(headers) => headers,
        Err(HeaderLinesError::Malformed) => return Err(SendError::IncomingDataInvalid),
        Err(HeaderLinesError::TooMany) => return Err(SendError::TooManyHeaders),
    };
    let body = if reply.body.is_empty() {
        assert(reply.body@ == Seq::<u8>::empty());
        None
    } else {
        Some(buffer_of(reply.body))
    };
    Ok(ChatResponse { status, message: None, headers, body })
}

/// Turns the end of a requester's call into the result of the request.
pub fn finish_request(joined: Joined) -> (result: Result<ChatResponse, SendError>)
    ensures
        is_result_of(joined, result),
        joined is Failed ==> (result matches Err(e) && e is Disconnected),
        joined matches Joined::Completed(Err(error)) ==> result == Err::<ChatResponse, _>(
            SendError::WebSocket(error),
        ),
{
    match joined {
        Joined::Failed => Err(SendError::Disconnected),
        Joined::Completed(Err(error)) => Err(SendError::WebSocket(error)),
        Joined::Completed(Ok(reply)) => decode_reply(reply),
    }
}

/// Lets a requester know of a request that nobody waits for any more.
///
/// It is armed while the request's call is under way and disarmed when the call has ended. What
/// is dropped armed is cancelled.
#[derive(PartialEq, Eq, Debug, Structural)]
pub struct CancelOnDrop {
    request_id: u64,
    armed: bool,
}

impl CancelOnDrop {
    pub closed spec fn request_id(self) -> u64 {
        self.request_id
    }

    pub closed spec fn is_armed(self) -> bool {
        self.armed
    }

    /// The request to cancel when `self` is dropped, if any.
    pub open spec fn cancels(self) -> Option<u64> {
        if self.is_armed() {
            Some(self.request_id())
        } else {
            None
        }
    }

    /// A guard for a request whose call begins.
    pub fn arm(request_id: u64) -> (guard: CancelOnDrop)
        ensures
            guard.request_id() == request_id,
            guard.is_armed(),
    {
        CancelOnDrop { request_id, armed: true }
    }

    /// The guard of a request whose call has ended.
    pub fn disarm(self) -> (guard: CancelOnDrop)
        ensures
            guard.request_id() == self.request_id(),
            !guard.is_armed(),
    {
        CancelOnDrop { request_id: self.request_id, armed: false }
    }

    /// The request that has to be cancelled now that the guard goes away, if any.
    pub fn on_drop(&self) -> (request_id: Option<u64>)
        ensures
            request_id == self.cancels(),
            self.is_armed() ==> request_id == Some(self.request_id()),
            !self.is_armed() ==> request_id is None,
    {
        if self.armed {
            Some(self.request_id)
        } else {
            None
        }
    }

    /// Lets the requester know, now that the guard goes away: an armed guard cancels its request,
    /// which nobody waits for then. A disarmed one does nothing.
    pub fn release<R: ChatRequester>(&self, requester: &R)
        requires
            self.cancels() matches Some(id) ==> requester.is_abandoned(id),
        ensures
            self.cancels() matches Some(id) ==> call_ensures(R::cancel, (requester, id), ()),
    {
        if let Some(request_id) = self.on_drop() {
            requester.cancel(request_id);
        }
    }
}

/// A chat connection whose wire is a [`ChatRequester`].
pub struct RequesterConnection<R> {
    requester: R,
    self_aci: Option<Aci>,
    next_request_id: u64,
}

/// The number after `id`; after the largest comes zero.
pub open spec fn id_after(id: u64) -> u64 {
    if id == u64::MAX {
        0
    } else {
        (id + 1) as u64
    }
}

impl<R> RequesterConnection<R> {
    pub closed spec fn requester(self) -> R {
        self.requester
    }

    pub closed spec fn aci(self) -> Option<Aci> {
        self.self_aci
    }

    /// The number that the next request gets.
    pub closed spec fn next_request_id(self) -> u64 {
        self.next_request_id
    }

    /// A connection whose requests are numbered from zero.
    pub fn new(requester: R, self_aci: Option<Aci>) -> (connection: RequesterConnection<R>)
        ensures
            connection.requester() == requester,
            connection.aci() == self_aci,
            connection.next_request_id() == 0,
    {
        RequesterConnection { requester, self_aci, next_request_id: 0 }
    }

    /// The number of a new request, by which the requester and the log know it.
    pub fn allocate_request_id(&mut self) -> (request_id: u64)
        ensures
            request_id == old(self).next_request_id(),
            final(self).next_request_id() == id_after(old(self).next_request_id()),
            old(self).next_request_id() < u64::MAX ==> final(self).next_request_id() == request_id
                + 1,
            old(self).next_request_id() == u64::MAX ==> final(self).next_request_id() == 0,
            final(self).requester() == old(self).requester(),
            final(self).aci() == old(self).aci(),
    {
        let request_id: u64 = self.next_request_id;
        self.next_request_id = request_id.wrapping_add(1);
        request_id
    }

    /// The account that the requester signs in as.
    pub fn self_aci(&self) -> (aci: Option<Aci>)
        ensures
            aci == self.aci(),
    {
        self.self_aci
    }

    pub fn as_requester(&self) -> (requester: &R)
        ensures
            *requester == self.requester(),
    {
        &self.requester
    }
}

/// A request whose call begins: what to hand over, and the guard to hold until the call has ended.
pub struct StartedRequest {
    pub call: RequesterCall,
    pub guard: CancelOnDrop,
}

impl StartedRequest {
    /// `started` is how a request begins: it is refused if one of its headers is not text.
    pub open spec fn is_start_of(
        request: Request,
        request_id: u64,
        started: Result<StartedRequest, SendError>,
    ) -> bool {
        match started {
            Ok(s) => {
                &&& has_text_headers(request)
                &&& s.call.is_for(request, request_id)
                &&& s.call.spec_origin() == request
                &&& is_guard_of(Some(s.guard), request_id, Fate::Abandoned)
            },
            Err(e) => !has_text_headers(request) && e is RequestHasInvalidHeader,
        }
    }

    /// Begins a request. From here on, until it is ended, to drop it is to abandon it.
    pub fn begin(request: Request, request_id: u64) -> (started: Result<StartedRequest, SendError>)
        ensures
            StartedRequest::is_start_of(request, request_id, started),
            started is Ok <==> has_text_headers(request),
            started matches Ok(s) ==> s.guard.is_armed() && s.guard.request_id() == request_id
                && s.call.request_id == request_id && s.call.method@ == request.method@
                && s.call.path@ == request.path@ && s.call.body@ == body::body_bytes(request.body)
                && s.call.is_for(request, request_id) && s.call.is_sound(),
            started matches Err(e) ==> e is RequestHasInvalidHeader,
    {
        match RequesterCall::new(request, request_id) {
            Ok(call) => Ok(StartedRequest { call, guard: CancelOnDrop::arm(request_id) }),
            Err(e) => Err(e),
        }
    }

    /// Ends a request whose call has ended, however it did. A request that has been answered is
    /// not one to cancel, so its guard is disarmed first.
    pub fn end(guard: CancelOnDrop, joined: Joined) -> (ended: (
        CancelOnDrop,
        Result<ChatResponse, SendError>,
    ))
        ensures
            is_guard_of(Some(ended.0), guard.request_id(), Fate::Answered),
            !ended.0.is_armed(),
            is_result_of(joined, ended.1),
    {
        let guard = guard.disarm();
        (guard, finish_request(joined))
    }
}

/// What a request came to, and what the log has of it.
pub struct LoggedRequest {
    pub request_line: String,
    pub result_line: String,
    pub result: Result<ChatResponse, SendError>,
}

impl<R: ChatRequester> RequesterConnection<R> {
    /// `result` is what the request comes to: refused if one of its headers is not text, or else
    /// what becomes of the requester's answer to being handed exactly that request.
    pub open spec fn is_answer(
        self,
        request: Request,
        request_id: u64,
        result: Result<ChatResponse, SendError>,
    ) -> bool {
        if has_text_headers(request) {
            exists|call: RequesterCall, reply: Result<ChatRequesterResponse, std::io::Error>|
                #![trigger call.can_return(&self.requester(), reply)]
                call.is_for(request, request_id) && call.can_return(&self.requester(), reply)
                    && is_result_of(Joined::Completed(reply), result)
        } else {
            result matches Err(e) && e is RequestHasInvalidHeader
        }
    }

    /// One request through the requester, which blocks until the reply is there. Nothing but that
    /// request reaches the requester, and nothing at all where it is refused.
    pub fn send_request(&self, request: Request, request_id: u64) -> (result: Result<
        ChatResponse,
        SendError,
    >)
        requires
            asks_for(&self.requester(), request, request_id),
        ensures
            self.is_answer(request, request_id, result),
    {
        match StartedRequest::begin(request, request_id) {
            Ok(started) => {
                let ghost call = started.call;
                let reply = started.call.perform(&self.requester);
                assert(call.can_return(&self.requester(), reply));
                let (_, result) = StartedRequest::end(started.guard, Joined::Completed(reply));
                result
            },
            Err(e) => Err(e),
        }
    }

    /// One request under the next number, and what the log has of it. `describe` puts an error into
    /// words that may be logged.
    pub fn send<F>(
        &mut self,
        log_tag: &str,
        log_safe_path: &str,
        request: Request,
        describe: F,
    ) -> (sent: LoggedRequest) where F: FnOnce(&SendError) -> String
        requires
            asks_for(&old(self).requester(), request, old(self).next_request_id()),
            forall|e: SendError| #[trigger] call_requires(describe, (&e,)),
        ensures
            old(self).is_answer(request, old(self).next_request_id(), sent.result),
            sent.request_line@ == log_line::request_text(
                log_tag@,
                old(self).next_request_id(),
                request.method@,
                log_safe_path@,
            ),
            log_line::is_result_text(
                sent.request_line@,
                sent.result,
                describe,
                sent.result_line@,
            ),
            final(self).next_request_id() == id_after(old(self).next_request_id()),
            final(self).requester() == old(self).requester(),
            final(self).aci() == old(self).aci(),
    {
        let request_id: u64 = self.allocate_request_id();
        let request_line: String = request_line(
            log_tag,
            request_id,
            &request.method,
            log_safe_path,
        );
        let result = self.send_request(request, request_id);
        let result_line: String = result_line(request_line.as_str(), &result, describe);
        LoggedRequest { request_line, result_line, result }
    }
}

/// The number of the request that comes `k` requests after the one numbered `first`.
pub open spec fn nth_id(first: u64, k: nat) -> u64
    decreases k,
{
    if k == 0 {
        first
    } else {
        id_after(nth_id(first, (k - 1) as nat))
    }
}

proof fn lemma_nth_id(first: u64, k: nat)
    requires
        k <= u64::MAX,
    ensures
        nth_id(first, k) == if first + k <= u64::MAX {
            first + k
        } else {
            first + k - u64::MAX - 1
        },
    decreases k,
{
    if k > 0 {
        lemma_nth_id(first, (k - 1) as nat);
    }
}

/// Two requests of one connection have different numbers, unless every number has been used
/// between them.
pub proof fn law_request_ids_are_distinct(first: u64, j: nat, k: nat)
    requires
        j < k <= u64::MAX,
    ensures
        nth_id(first, j) != nth_id(first, k),
{
    lemma_nth_id(first, j);
    lemma_nth_id(first, k);
}

/// What can come of a request.
pub enum Fate {
    /// It was not handed over.
    Refused,
    /// Its call ended, with a reply or a failure.
    Answered,
    /// Its caller went away while the call was under way.
    Abandoned,
}

/// The guard that is dropped for a request, if one was made.
pub open spec fn is_guard_of(guard: Option<CancelOnDrop>, request_id: u64, fate: Fate) -> bool {
    match fate {
        Fate::Refused => guard is None,
        Fate::Answered => guard matches Some(g) && g.request_id() == request_id && !g.is_armed(),
        Fate::Abandoned => guard matches Some(g) && g.request_id() == request_id && g.is_armed(),
    }
}

/// The cancellations that dropping `guards` in turn causes.
pub open spec fn cancellations(guards: Seq<Option<CancelOnDrop>>) -> Seq<u64>
    decreases guards.len(),
{
    if guards.len() == 0 {
        Seq::empty()
    } else {
        let before = cancellations(guards.drop_last());
        match guards.last() {
            Some(guard) => match guard.cancels() {
                Some(id) => before.push(id),
                None => before,
            },
            None => before,
        }
    }
}

/// Over the requests of a connection, `cancel` names each abandoned request once and no other:
/// none that was answered, and none that was not handed over.
pub proof fn law_cancel_names_the_abandoned(
    first: u64,
    fates: Seq<Fate>,
    guards: Seq<Option<CancelOnDrop>>,
)
    requires
        fates.len() <= u64::MAX,
        guards.len() == fates.len(),
        forall|k: int|
            #![trigger guards[k]]
            0 <= k < guards.len() ==> is_guard_of(guards[k], nth_id(first, k as nat), fates[k]),
    ensures
        cancellations(guards).no_duplicates(),
        forall|k: int|
            #![trigger fates[k]]
            0 <= k < fates.len() ==> (cancellations(guards).contains(nth_id(first, k as nat))
                <==> fates[k] is Abandoned),
        forall|id: u64| #[trigger]
            cancellations(guards).contains(id) ==> exists|k: int|
                0 <= k < fates.len() && #[trigger] nth_id(first, k as nat) == id,
    decreases fates.len(),
{
    if fates.len() > 0 {
        let n = fates.len() - 1;
        let before = cancellations(guards.drop_last());
        let all = cancellations(guards);
        law_cancel_names_the_abandoned(first, fates.drop_last(), guards.drop_last());
        let id = nth_id(first, n as nat);
        assert(is_guard_of(guards[n], id, fates[n]));
        assert forall|k: int| 0 <= k < n implies #[trigger] nth_id(first, k as nat) != id by {
            law_request_ids_are_distinct(first, k as nat, n as nat);
        }
        assert(!before.contains(id));
        if fates[n] is Abandoned {
            assert(all == before.push(id));
            assert(all[before.len() as int] == id);
            assert forall|other: u64| #[trigger] all.contains(other) <==> (before.contains(other)
                || other == id) by {
                if before.contains(other) {
                    let i = choose|i: int| 0 <= i < before.len() && before[i] == other;
                    assert(all[i] == other);
                }
            }
        } else {
            assert(all == before);
        }
        assert forall|k: int|
            #![trigger fates[k]]
            0 <= k < fates.len() implies (all.contains(nth_id(first, k as nat))
            <==> fates[k] is Abandoned) by {
            if k < n {
                assert(fates.drop_last()[k] == fates[k]);
            }
        }
    }
}

/// Where the requester fails whatever it is asked, every request that it is asked comes to a
/// failure of the wire.
pub proof fn law_failing_requester_is_a_failing_wire<R: ChatRequester>(
    connection: RequesterConnection<R>,
    request: Request,
    request_id: u64,
    result: Result<ChatResponse, SendError>,
)
    requires
        connection.is_answer(request, request_id, result),
        has_text_headers(request),
        forall|call: RequesterCall, reply: Result<ChatRequesterResponse, std::io::Error>|
            #![trigger call.can_return(&connection.requester(), reply)]
            call.can_return(&connection.requester(), reply) ==> reply is Err,
    ensures
        result matches Err(e) && e is WebSocket,
{
}

/// Where every reply of the server has some status and lines that write headers, every request that
/// reaches it comes to a response with that status. That goes for every status in range.
pub proof fn law_servers_answer_is_the_answer<R: ChatRequester>(
    connection: RequesterConnection<R>,
    request: Request,
    request_id: u64,
    result: Result<ChatResponse, SendError>,
    status: u16,
)
    requires
        connection.is_answer(request, request_id, result),
        has_text_headers(request),
        request::is_status(status),
        forall|call: RequesterCall, reply: Result<ChatRequesterResponse, std::io::Error>|
            #![trigger call.can_return(&connection.requester(), reply)]
            call.can_return(&connection.requester(), reply) ==> {
                &&& reply is Ok
                &&& reply->Ok_0.status == status
                &&& headers::groups_of_lines(headers::texts(reply->Ok_0.headers@)) is Some
                &&& headers::have_room(headers::texts(reply->Ok_0.headers@))
            },
    ensures
        result matches Ok(response) && response.status@ == status,
{
}

/// A reply with a status in range and lines that write headers is a response with that status,
/// whatever the status.
pub proof fn law_any_status_is_a_response(
    reply: ChatRequesterResponse,
    result: Result<ChatResponse, SendError>,
)
    requires
        is_decoding_of(reply, result),
        request::is_status(reply.status),
        headers::groups_of_lines(headers::texts(reply.headers@)) is Some,
        headers::have_room(headers::texts(reply.headers@)),
    ensures
        result matches Ok(response) && response.status@ == reply.status,
{
}

/// A reply that holds the lines and the bytes that were handed over for a request is decoded to a
/// response with the headers and the bytes of that request.
pub proof fn law_echo(
    request: Request,
    call: RequesterCall,
    reply: ChatRequesterResponse,
    result: Result<ChatResponse, SendError>,
)
    requires
        call.is_for(request, call.request_id),
        headers::fits_in_lines(headers::header_groups(request.headers)),
        headers::have_room(headers::texts(call.headers@)),
        request::is_status(reply.status),
        headers::texts(reply.headers@) == headers::texts(call.headers@),
        reply.body@ == call.body@,
        is_decoding_of(reply, result),
    ensures
        result matches Ok(response) && headers::header_groups(response.headers)
            == headers::header_groups(request.headers) && body::body_bytes(response.body)
            == body::body_bytes(request.body),
{
    headers::law_header_lines_round_trip(headers::header_groups(request.headers));
    assert(headers::texts(reply.headers@).len() == headers::texts(call.headers@).len());
}

/// A response has the status of the reply, its bytes or no body where there are none, and for every
/// name the values that the lines of the reply write for it, in their order.
pub proof fn law_response_is_the_reply(
    reply: ChatRequesterResponse,
    response: ChatResponse,
    name: Seq<char>,
)
    requires
        is_decoding_of(reply, Ok(response)),
    ensures
        response.status@ == reply.status,
        response.message is None,
        response.body is None <==> reply.body@.len() == 0,
        response.body matches Some(buffer) ==> body::buffer_bytes(buffer) == reply.body@,
        headers::values_of(headers::header_groups(response.headers), name)
            == headers::values_in_lines(headers::texts(reply.headers@), name),
{
    headers::law_every_header_is_kept(headers::texts(reply.headers@), name);
}

/// A reply is invalid exactly for a status that is none or a line that writes no header. Only a
/// reply with more lines than a header map has room for can have too many, and a reply of more than
/// [`headers::MAX_HEADER_LINES`] always has.
pub proof fn law_invalid_replies(
    reply: ChatRequesterResponse,
    result: Result<ChatResponse, SendError>,
)
    requires
        is_decoding_of(reply, result),
    ensures
        !(100 <= reply.status <= 999) ==> (result matches Err(e) && e is IncomingDataInvalid),
        headers::groups_of_lines(headers::texts(reply.headers@)) is None ==> result is Err,
        100 <= reply.status <= 999 && headers::have_room(headers::texts(reply.headers@))
            && headers::groups_of_lines(headers::texts(reply.headers@)) is None ==> (
        result matches Err(e) && e is IncomingDataInvalid),
        result matches Err(e) ==> e is IncomingDataInvalid || e is TooManyHeaders,
        result matches Err(e) && e is IncomingDataInvalid ==> !(100 <= reply.status <= 999)
            || headers::groups_of_lines(headers::texts(reply.headers@)) is None,
        result matches Err(e) && e is TooManyHeaders ==> !headers::have_room(
            headers::texts(reply.headers@),
        ),
        100 <= reply.status <= 999 && reply.headers@.len() > headers::MAX_HEADER_LINES
            ==> (result matches Err(e) && e is TooManyHeaders),
{
}

/// The end of a call decides: one that did not finish is a disconnect, a failure of the requester
/// is that very failure of the wire, and a reply is decoded.
pub proof fn law_how_a_call_ends(
    joined: Joined,
    result: Result<ChatResponse, SendError>,
)
    requires
        is_result_of(joined, result),
    ensures
        joined is Failed <==> (result matches Err(e) && e is Disconnected),
        joined matches Joined::Completed(Err(error)) ==> result == Err::<ChatResponse, _>(
            SendError::WebSocket(error),
        ),
        result matches Err(SendError::WebSocket(error)) ==> joined == Joined::Completed(
            Err::<ChatRequesterResponse, _>(error),
        ),
        joined matches Joined::Completed(Ok(reply)) ==> is_decoding_of(reply, result),
        result is Ok ==> joined is Completed && joined->Completed_0 is Ok,
{
}

/// A request is answered with what becomes of one reply of the requester, to being handed exactly
/// that request: its failure, or a response with its status and bytes. A request that has a header
/// which is not text is refused.
pub proof fn law_answer_comes_from_the_requester<R: ChatRequester>(
    connection: RequesterConnection<R>,
    request: Request,
    request_id: u64,
    result: Result<ChatResponse, SendError>,
)
    requires
        connection.is_answer(request, request_id, result),
    ensures
        !has_text_headers(request) ==> (result matches Err(e) && e is RequestHasInvalidHeader),
        has_text_headers(request) ==> !(result matches Err(e) && e is RequestHasInvalidHeader)
            && exists|call: RequesterCall, reply: Result<ChatRequesterResponse, std::io::Error>|
            #![trigger call.can_return(&connection.requester(), reply)]
            {
                &&& call.can_return(&connection.requester(), reply)
                &&& call.is_for(request, request_id)
                &&& is_result_of(Joined::Completed(reply), result)
                &&& call.request_id == request_id
                &&& call.method@ == request.method@
                &&& call.path@ == request.path@
                &&& call.body@ == body::body_bytes(request.body)
                &&& reply matches Err(error) ==> result == Err::<ChatResponse, _>(
                    SendError::WebSocket(error),
                )
                &&& reply is Ok && result is Ok ==> result->Ok_0.status@ == reply->Ok_0.status
                    && body::body_bytes(result->Ok_0.body) == reply->Ok_0.body@
            },
{
    if has_text_headers(request) {
        let (call, reply) = choose|
            call: RequesterCall,
            reply: Result<ChatRequesterResponse, std::io::Error>,
        |
            #![trigger call.can_return(&connection.requester(), reply)]
            call.is_for(request, request_id) && call.can_return(&connection.requester(), reply)
                && is_result_of(Joined::Completed(reply), result);
        assert(call.can_return(&connection.requester(), reply));
    }
}

/// Over the requests of a connection, what the requester gets under a number is the one request of
/// that number: no two calls have the same one, and each carries its own request.
pub proof fn law_each_request_is_handed_over_once(
    first: u64,
    requests: Seq<Request>,
    calls: Seq<RequesterCall>,
    j: int,
    k: int,
)
    requires
        requests.len() <= u64::MAX,
        calls.len() == requests.len(),
        forall|i: int|
            #![trigger calls[i]]
            0 <= i < calls.len() ==> calls[i].is_for(requests[i], nth_id(first, i as nat)),
        0 <= j < calls.len(),
        0 <= k < calls.len(),
        calls[j].request_id == calls[k].request_id,
    ensures
        j == k,
        calls[k].method@ == requests[k].method@,
        calls[k].path@ == requests[k].path@,
        calls[k].body@ == body::body_bytes(requests[k].body),
{
    if j < k {
        law_request_ids_are_distinct(first, j as nat, k as nat);
    } else if k < j {
        law_request_ids_are_distinct(first, k as nat, j as nat);
    }
}

/// A request begins with a guard that cancels it, and none begins with another number than its
/// own; once ended, nothing is cancelled any more.
pub proof fn law_guards_follow_their_requests(
    request: Request,
    request_id: u64,
    started: StartedRequest,
    ended: CancelOnDrop,
)
    requires
        StartedRequest::is_start_of(request, request_id, Ok(started)),
        is_guard_of(Some(ended), request_id, Fate::Answered),
    ensures
        started.guard.cancels() == Some(request_id),
        started.call.request_id == request_id,
        started.call.spec_origin() == request,
        started.call.is_for(request, request_id),
        ended.cancels() is None,
{
}

/// A requester is asked for a request exactly where its headers are text.
pub proof fn law_only_text_is_asked_for<R: ChatRequester>(
    requester: &R,
    request: Request,
    request_id: u64,
)
    ensures
        has_text_headers(request) ==> (asks_for(requester, request, request_id)
            <==> requester.is_asked_for(request_id, request)),
        !has_text_headers(request) ==> asks_for(requester, request, request_id),
        has_text_headers(request) <==> forall|i: int, j: int|
            #![trigger headers::header_groups(request.headers)[i].1[j]]
            0 <= i < headers::header_groups(request.headers).len() && 0 <= j
                < headers::header_groups(request.headers)[i].1.len() ==> headers::is_visible(
                headers::header_groups(request.headers)[i].1[j],
            ),
{
    headers::law_refused_headers(headers::header_groups(request.headers));
}

} // verus!
