use vstd::prelude::*;

verus! {

/// Identifier of one recognition request.
pub type OcrRequestId = u64;

/// How long a recognition request may run, in nanoseconds of the monotonic clock (15 s).
pub const OCR_TIMEOUT_NANOS: u64 = 15_000_000_000;

/// Why recognition failed.
#[derive(Debug, Clone, Copy, PartialEq, Eq, Structural)]
pub enum OcrErrorKind {
    Model,
    Timeout,
    Recognition,
}

pub open spec fn spec_error_message(kind: OcrErrorKind) -> Seq<char> {
    match kind {
        OcrErrorKind::Model => "OCR 模型下载或加载失败，请检查网络后重试"@,
        OcrErrorKind::Timeout => "识别超时，请重新截图后重试"@,
        OcrErrorKind::Recognition => "识别失败，请稍后重试"@,
    }
}

impl OcrErrorKind {
    /// The fixed message shown to the user for this failure.
    pub fn message(&self) -> (m: &'static str)
        ensures
            m@ == spec_error_message(*self),
    {
        match self {
            OcrErrorKind::Model => "OCR 模型下载或加载失败，请检查网络后重试",
            OcrErrorKind::Timeout => "识别超时，请重新截图后重试",
            OcrErrorKind::Recognition => "识别失败，请稍后重试",
        }
    }
}

/// What the OCR result view shows.
#[derive(Debug, Clone, Copy, PartialEq, Eq, Structural)]
pub enum OcrViewState {
    Capturing,
    Result,
    Recognizing,
    Failed(OcrErrorKind),
    Cancelled,
}

/// The answer of the recognition worker to one request.
pub struct OcrResponse {
    pub request_id: OcrRequestId,
    pub result: Result<String, OcrErrorKind>,
}

/// The OCR flow: the shown state, the last recognized text, and the one request whose
/// answer is still awaited. Times are monotonic clock readings in nanoseconds.
pub struct OcrSession {
    pub state: OcrViewState,
    pub text: String,
    pub active_request_id: Option<OcrRequestId>,
    pub deadline: Option<u64>,
    pub next_request_id: OcrRequestId,
}

/// `id + 1`, wrapping to 0 after the largest identifier.
pub open spec fn next_id(id: OcrRequestId) -> OcrRequestId {
    if id == u64::MAX { 0 } else { (id + 1) as u64 }
}

/// The session with no request awaited.
pub open spec fn invalidated(s: OcrSession) -> OcrSession {
    OcrSession { active_request_id: None, deadline: None, ..s }
}

/// The session after a request is submitted at `now`, and that request's identifier.
pub open spec fn submitted(s: OcrSession, now: u64) -> (OcrSession, OcrRequestId) {
    (
        OcrSession {
            state: OcrViewState::Recognizing,
            active_request_id: Some(s.next_request_id),
            deadline: Some((now + OCR_TIMEOUT_NANOS) as u64),
            next_request_id: next_id(s.next_request_id),
            ..s
        },
        s.next_request_id,
    )
}

/// The session after `response` arrives, and whether it was the awaited one.
pub open spec fn applied(s: OcrSession, response: OcrResponse) -> (OcrSession, bool) {
    if s.active_request_id != Some(response.request_id) {
        (s, false)
    } else {
        match response.result {
            Ok(text) => (OcrSession { text, state: OcrViewState::Result, ..invalidated(s) }, true),
            Err(kind) => (OcrSession { state: OcrViewState::Failed(kind), ..invalidated(s) }, true),
        }
    }
}

/// Whether the awaited request has run out of time at `now`.
pub open spec fn is_expired(s: OcrSession, now: u64) -> bool {
    &&& s.state == OcrViewState::Recognizing
    &&& s.deadline matches Some(deadline) && now >= deadline
}

/// The session after the timeout check at `now`, and whether the request expired.
pub open spec fn expired(s: OcrSession, now: u64) -> (OcrSession, bool) {
    if is_expired(s, now) {
        (OcrSession { state: OcrViewState::Failed(OcrErrorKind::Timeout), ..invalidated(s) }, true)
    } else {
        (s, false)
    }
}

/// The session when a recapture starts.
pub open spec fn capture_begun(s: OcrSession) -> OcrSession {
    OcrSession { state: OcrViewState::Capturing, ..invalidated(s) }
}

/// The session when a recapture is abandoned: the earlier result comes back, if any.
pub open spec fn capture_cancelled(s: OcrSession) -> OcrSession {
    OcrSession {
        state: if s.text@.len() == 0 { OcrViewState::Cancelled } else { OcrViewState::Result },
        ..s
    }
}

/// The session after the flow is cancelled.
pub open spec fn cancelled(s: OcrSession) -> OcrSession {
    OcrSession { state: OcrViewState::Cancelled, ..invalidated(s) }
}

impl OcrSession {
    pub fn new() -> (s: Self)
        ensures
            s.state == OcrViewState::Capturing,
            s.text@ == Seq::<char>::empty(),
            s.active_request_id is None,
            s.deadline is None,
            s.next_request_id == 0,
    {
        OcrSession {
            state: OcrViewState::Capturing,
            text: String::new(),
            active_request_id: None,
            deadline: None,
            next_request_id: 0,
        }
    }

    /// Starts a recapture; any awaited answer is no longer wanted.
    pub fn begin_capture(&mut self)
        ensures
            *final(self) == capture_begun(*old(self)),
    {
        self.invalidate_request();
        self.state = OcrViewState::Capturing;
    }

    /// Abandons a recapture and shows the earlier result again, if there is one.
    pub fn cancel_capture(&mut self)
        ensures
            *final(self) == capture_cancelled(*old(self)),
    {
        self.state = if self.text.as_str().is_empty() {
            OcrViewState::Cancelled
        } else {
            OcrViewState::Result
        };
    }

    /// Submits a new request at `now`; only this request's answer is accepted afterwards.
    pub fn submit(&mut self, now: u64) -> (request_id: OcrRequestId)
        requires
            now + OCR_TIMEOUT_NANOS <= u64::MAX,
        ensures
            (*final(self), request_id) == submitted(*old(self), now),
    {
        let request_id = self.next_request_id;
        self.next_request_id = self.next_request_id.wrapping_add(1);
        self.state = OcrViewState::Recognizing;
        self.active_request_id = Some(request_id);
        self.deadline = Some(now + OCR_TIMEOUT_NANOS);
        request_id
    }

    /// Applies an answer of the worker; answers to other than the awaited request are
    /// discarded. Returns whether the answer was applied.
    pub fn apply_response(&mut self, response: OcrResponse) -> (accepted: bool)
        ensures
            (*final(self), accepted) == applied(*old(self), response),
    {
        let awaited = match self.active_request_id {
            Some(id) => id == response.request_id,
            None => false,
        };
        if !awaited {
            return false;
        }
        self.invalidate_request();
        match response.result {
            Ok(text) => {
                self.text = text;
                self.state = OcrViewState::Result;
            },
            Err(kind) => self.state = OcrViewState::Failed(kind),
        }
        true
    }

    /// Fails the awaited request with a timeout once `now` reaches its deadline.
    pub fn expire_if_needed(&mut self, now: u64) -> (expired_now: bool)
        ensures
            (*final(self), expired_now) == expired(*old(self), now),
    {
        let recognizing = match self.state {
            OcrViewState::Recognizing => true,
            _ => false,
        };
        let reached = match self.deadline {
            Some(deadline) => now >= deadline,
            None => false,
        };
        if !recognizing || !reached {
            return false;
        }
        self.invalidate_request();
        self.state = OcrViewState::Failed(OcrErrorKind::Timeout);
        true
    }

    /// Cancels the flow; the last recognized text is kept.
    pub fn cancel(&mut self)
        ensures
            *final(self) == cancelled(*old(self)),
    {
        self.invalidate_request();
        self.state = OcrViewState::Cancelled;
    }

    fn invalidate_request(&mut self)
        ensures
            *final(self) == invalidated(*old(self)),
    {
        self.active_request_id = None;
        self.deadline = None;
    }
}

/// Only the latest submission counts: an answer to any other request changes nothing.
pub proof fn lemma_only_latest_request_is_applied(s: OcrSession, now: u64, response: OcrResponse)
    requires
        response.request_id != submitted(s, now).1,
    ensures
        applied(submitted(s, now).0, response) == (submitted(s, now).0, false),
{
}

/// Two submissions in a row never share an identifier.
pub proof fn lemma_resubmission_uses_new_id(s: OcrSession, now1: u64, now2: u64)
    ensures
        submitted(submitted(s, now1).0, now2).1 != submitted(s, now1).1,
{
}

/// The awaited answer is applied: success replaces the text, failure keeps it.
pub proof fn lemma_awaited_response_is_applied(s: OcrSession, now: u64, response: OcrResponse)
    requires
        response.request_id == submitted(s, now).1,
    ensures
        ({
            let (after, accepted) = applied(submitted(s, now).0, response);
            &&& accepted
            &&& after.active_request_id is None
            &&& after.deadline is None
            &&& match response.result {
                Ok(text) => after.text == text && after.state == OcrViewState::Result,
                Err(kind) => after.text == s.text && after.state == OcrViewState::Failed(kind),
            }
        }),
{
}

/// A second submission, whether or not a recapture started in between, gets a new
/// identifier and is the one awaited; an answer to the first request then changes nothing.
pub proof fn lemma_second_submission_discards_the_first(
    s: OcrSession,
    now1: u64,
    now2: u64,
    recaptured: bool,
    response: OcrResponse,
)
    requires
        response.request_id == submitted(s, now1).1,
    ensures
        ({
            let (first, id1) = submitted(s, now1);
            let between = if recaptured { capture_begun(first) } else { first };
            let (second, id2) = submitted(between, now2);
            &&& id2 != id1
            &&& second.active_request_id == Some(id2)
            &&& second.state == OcrViewState::Recognizing
            &&& applied(second, response) == (second, false)
        }),
{
}

/// A request expires exactly when the timeout has elapsed since its submission.
pub proof fn lemma_expires_exactly_at_timeout(s: OcrSession, now: u64, later: u64)
    requires
        now + OCR_TIMEOUT_NANOS <= u64::MAX,
    ensures
        expired(submitted(s, now).0, later).1 <==> later >= now + OCR_TIMEOUT_NANOS,
{
}

/// After a timeout, a cancellation or the start of a recapture, no answer is applied.
pub proof fn lemma_no_answer_after_invalidation(s: OcrSession, now: u64, response: OcrResponse)
    ensures
        !applied(cancelled(s), response).1,
        !applied(capture_begun(s), response).1,
        expired(s, now).1 ==> !applied(expired(s, now).0, response).1,
{
}

} // verus!
