//! The cancellable executor's decisions: the single shared cancellation slot,
//! the reply to a cancel command, and how the race between cancellation and
//! the transport call settles into a response record or an error. Performing
//! the call and waiting on it is left to the caller, which reports back here.
use vstd::prelude::*;
use vstd::string::*;
use vstd::utf8::encode_utf8;
use crate::request::{ErrorView, RequestError};
use crate::url::pairs_view;

verus! {

/// The one cancellation slot shared by all requests. Each request that starts
/// is issued a fresh token, which replaces any token still live: at most one
/// request can be cancelled at a time, the one started last.
pub struct CancelSlot {
    live: Option<u64>,
    issued: u64,
}

impl CancelSlot {
    /// The live token, if any.
    pub closed spec fn live_token(&self) -> Option<u64> {
        self.live
    }

    /// How many tokens have been issued; the next token is this number.
    pub closed spec fn issued(&self) -> u64 {
        self.issued
    }

    /// Only an issued token can be live.
    pub closed spec fn wf(&self) -> bool {
        self.live matches Some(t) ==> t < self.issued
    }

    /// A slot with no live token, before any request.
    pub fn new() -> (r: CancelSlot)
        ensures
            r.wf(),
            r.live_token() is None,
            r.issued() == 0,
    {
        CancelSlot { live: None, issued: 0 }
    }

    /// Starts a request: issues a fresh token and makes it the live one,
    /// discarding any earlier token.
    pub fn begin(&mut self) -> (token: u64)
        requires
            old(self).wf(),
            old(self).issued() < u64::MAX,
        ensures
            begins(*old(self), *final(self), token),
            old(self).live_token() != Some(token),
            final(self).wf(),
    {
        let token = self.issued;
        self.issued = self.issued + 1;
        self.live = Some(token);
        token
    }

    /// Takes the live token, if any, to be signalled; the slot is then empty.
    pub fn cancel(&mut self) -> (signalled: Option<u64>)
        requires
            old(self).wf(),
        ensures
            cancels(*old(self), *final(self), signalled),
            final(self).wf(),
    {
        let signalled = self.live;
        self.live = None;
        signalled
    }

    /// Ends the request of `token`: its token, if still live, is discarded; a
    /// token of a later request stays live.
    pub fn finish(&mut self, token: u64)
        requires
            old(self).wf(),
        ensures
            finishes(*old(self), *final(self), token),
            final(self).wf(),
    {
        if self.live == Some(token) {
            self.live = None;
        }
    }

    /// How many tokens have been issued.
    pub fn tokens_issued(&self) -> (r: u64)
        ensures
            r == self.issued(),
    {
        self.issued
    }

    /// The live token, if any.
    pub fn current(&self) -> (r: Option<u64>)
        ensures
            r == self.live_token(),
    {
        self.live
    }
}

/// `s1` is `s0` after a request started and was issued `token`.
pub open spec fn begins(s0: CancelSlot, s1: CancelSlot, token: u64) -> bool {
    &&& token == s0.issued()
    &&& s1.issued() == s0.issued() + 1
    &&& s1.live_token() == Some(token)
}

/// `s1` is `s0` after a cancel command, which signalled `signalled`.
pub open spec fn cancels(s0: CancelSlot, s1: CancelSlot, signalled: Option<u64>) -> bool {
    &&& signalled == s0.live_token()
    &&& s1.live_token() is None
    &&& s1.issued() == s0.issued()
}

/// `s1` is `s0` after the request of `token` ended.
pub open spec fn finishes(s0: CancelSlot, s1: CancelSlot, token: u64) -> bool {
    &&& s1.issued() == s0.issued()
    &&& s1.live_token() == (if s0.live_token() == Some(token) {
        None
    } else {
        s0.live_token()
    })
}

/// The reply to a cancel command: `delivery` is `None` when no token was live,
/// else whether the signal reached the waiting request.
pub fn cancel_reply(delivery: Option<bool>) -> (r: Result<(), RequestError>)
    ensures
        r is Ok <==> delivery != Some(false),
        r matches Err(e) ==> e@ == ErrorView::CancelSendFailed,
{
    match delivery {
        Some(false) => Err(RequestError::CancelSendFailed),
        _ => Ok(()),
    }
}

/// How the race between the cancellation signal and the transport call ended.
#[derive(Debug)]
pub enum Settlement {
    /// The cancellation signal came first.
    Cancelled,
    /// The transport call failed first, for this cause.
    Failed { cause: String },
    /// The transport call answered first, with this status, these headers in
    /// arrival order, and this full body.
    Responded { status: u16, headers: Vec<(String, String)>, body: String },
}

/// The error, if any, that a settlement becomes.
pub open spec fn settled_error(o: Settlement) -> Option<ErrorView> {
    match o {
        Settlement::Cancelled => Some(ErrorView::RequestCancelled),
        Settlement::Failed { cause } => Some(ErrorView::TransportFailure(cause@)),
        Settlement::Responded { .. } => None,
    }
}

/// The structured record of a completed request.
#[derive(Debug)]
pub struct ResponseRecord {
    pub status: u16,
    pub duration_ms: u128,
    pub size_bytes: u64,
    pub body: String,
    pub headers: Vec<(String, String)>,
    pub curl_command: String,
    pub timestamp: String,
    pub error: Option<String>,
}

/// `rec` is the record of a response `outcome`, carrying its status, headers
/// and body, the body's UTF-8 byte length (which a `String` always has
/// within `usize`), and the given duration, command and time.
pub open spec fn record_of(
    rec: ResponseRecord,
    outcome: Settlement,
    duration_ms: u128,
    curl_command: Seq<char>,
    timestamp: Seq<char>,
) -> bool {
    match outcome {
        Settlement::Responded { status, headers, body } => {
            &&& rec.status == status
            &&& pairs_view(rec.headers@) == pairs_view(headers@)
            &&& rec.body@ == body@
            &&& rec.size_bytes == encode_utf8(body@).len() as usize as u64
            &&& rec.duration_ms == duration_ms
            &&& rec.curl_command@ == curl_command
            &&& rec.timestamp@ == timestamp
            &&& rec.error is None
        },
        _ => false,
    }
}

/// Turns the end of the race into the result of the request: cancellation
/// and transport failure become errors; a response becomes a record whose
/// size is the byte length of the body.
pub fn settle(outcome: Settlement, duration_ms: u128, curl_command: String, timestamp: String) -> (r: Result<ResponseRecord, RequestError>)
    ensures
        r is Err <==> settled_error(outcome) is Some,
        r matches Err(e) ==> Some(e@) == settled_error(outcome),
        r matches Ok(rec) ==> record_of(rec, outcome, duration_ms, curl_command@, timestamp@),
{
    match outcome {
        Settlement::Cancelled => Err(RequestError::RequestCancelled),
        Settlement::Failed { cause } => Err(RequestError::TransportFailure { cause }),
        Settlement::Responded { status, headers, body } => {
            let size = body.as_str().len();
            Ok(
                ResponseRecord {
                    status,
                    duration_ms,
                    size_bytes: size as u64,
                    body,
                    headers,
                    curl_command,
                    timestamp,
                    error: None,
                },
            )
        },
    }
}

/// A cancel command issued while a request is in flight, before its
/// transport call resolves, signals that request's token, and a request whose
/// race is won by the signal ends in `RequestCancelled`, with no record.
pub proof fn cancel_reaches_in_flight_request(
    s0: CancelSlot,
    s1: CancelSlot,
    token: u64,
    s2: CancelSlot,
    signalled: Option<u64>,
)
    requires
        begins(s0, s1, token),
        cancels(s1, s2, signalled),
    ensures
        signalled == Some(token),
        settled_error(Settlement::Cancelled) == Some(ErrorView::RequestCancelled),
{
}

/// When a second request starts while the first is in flight, a cancel
/// command signals the second only. The first token is not signalled, and the
/// slot is then empty, so a cancel command right after signals nothing.
pub proof fn cancel_reaches_latest_request_only(
    s0: CancelSlot,
    s1: CancelSlot,
    first: u64,
    s2: CancelSlot,
    second: u64,
    s3: CancelSlot,
    signalled: Option<u64>,
    s4: CancelSlot,
    later: Option<u64>,
)
    requires
        begins(s0, s1, first),
        begins(s1, s2, second),
        cancels(s2, s3, signalled),
        cancels(s3, s4, later),
    ensures
        signalled == Some(second),
        first != second,
        later is None,
{
}

} // verus!
