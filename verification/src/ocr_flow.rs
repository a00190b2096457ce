use vstd::prelude::*;

use crate::app_state::AppView;
use crate::ocr::{
    applied, cancelled, capture_begun, capture_cancelled, expired, submitted, OcrErrorKind,
    OcrRequestId, OcrResponse, OcrSession, OcrViewState, OCR_TIMEOUT_NANOS,
};

verus! {

pub const OCR_SERVICE_NOT_STARTED: &'static str = "OCR 服务未启动";

pub const OCR_SERVICE_UNAVAILABLE: &'static str = "OCR 服务不可用";

pub const NOT_RECAPTURING: &'static str = "当前不在 OCR 重新截图状态";

pub const OCR_STILL_RECOGNIZING: &'static str = "OCR 识别中，请稍候";

pub const NO_TEXT_TO_COPY: &'static str = "没有可复制的识别文本";

/// The OCR result window's flow: the recognition session, the view the main window shows,
/// and, during a recapture, the capture (`S`) to go back to if the recapture is abandoned.
pub struct OcrFlow<S> {
    pub session: OcrSession,
    pub view: AppView,
    pub snapshot: Option<S>,
}

pub open spec fn is_recognizing(s: OcrSession) -> bool {
    s.state == OcrViewState::Recognizing
}

/// The flow after asking to recapture with `snapshot` as the capture to go back to, and
/// whether the recapture started. It is refused while recognizing.
pub open spec fn recapture_begun<S>(f: OcrFlow<S>, snapshot: S) -> (OcrFlow<S>, bool) {
    if is_recognizing(f.session) {
        (f, false)
    } else {
        (
            OcrFlow {
                session: capture_begun(f.session),
                view: AppView::Capture,
                snapshot: Some(snapshot),
            },
            true,
        )
    }
}

/// The flow after abandoning a recapture, and the capture to restore. Only a recapture in
/// progress (capturing, with a capture to go back to) can be abandoned.
pub open spec fn recapture_cancelled<S>(f: OcrFlow<S>) -> (OcrFlow<S>, Option<S>) {
    if f.session.state != OcrViewState::Capturing || f.snapshot is None {
        (f, None)
    } else {
        (
            OcrFlow {
                session: capture_cancelled(f.session),
                view: AppView::OcrResult,
                snapshot: None,
            },
            f.snapshot,
        )
    }
}

/// The flow after the recaptured image was submitted (`submitted`) or could not be, and the
/// capture to restore in the second case.
pub open spec fn recapture_concluded<S>(f: OcrFlow<S>, submitted: bool) -> (OcrFlow<S>, Option<S>) {
    if submitted {
        (OcrFlow { snapshot: None, ..f }, None)
    } else {
        (
            OcrFlow {
                session: capture_cancelled(f.session),
                view: AppView::OcrResult,
                snapshot: None,
            },
            f.snapshot,
        )
    }
}

/// The flow after closing the result window, and whether it closed; refused while
/// recognizing.
pub open spec fn result_closed<S>(f: OcrFlow<S>) -> (OcrFlow<S>, bool) {
    if is_recognizing(f.session) {
        (f, false)
    } else {
        (OcrFlow { session: cancelled(f.session), snapshot: None, ..f }, true)
    }
}

/// The session after the worker's answers `responses` arrive in order, and whether any of
/// them was applied.
pub open spec fn responses_applied(s: OcrSession, responses: Seq<OcrResponse>) -> (OcrSession, bool)
    decreases responses.len(),
{
    if responses.len() == 0 {
        (s, false)
    } else {
        let (before, changed) = responses_applied(s, responses.drop_last());
        let (after, accepted) = applied(before, responses.last());
        (after, changed || accepted)
    }
}

/// The session after the queued answers are applied and the deadline is checked at `now`,
/// and whether anything changed.
pub open spec fn polled(s: OcrSession, responses: Seq<OcrResponse>, now: u64) -> (OcrSession, bool) {
    let (answered, changed) = responses_applied(s, responses);
    let (after, timed_out) = expired(answered, now);
    (after, changed || timed_out)
}

/// The session's text to put on the clipboard, or the message to show instead.
pub open spec fn copy_outcome(s: OcrSession) -> Result<Seq<char>, Seq<char>> {
    if is_recognizing(s) {
        Err(OCR_STILL_RECOGNIZING@)
    } else if s.text@.len() == 0 {
        Err(NO_TEXT_TO_COPY@)
    } else {
        Ok(s.text@)
    }
}

impl<S> OcrFlow<S> {
    /// A flow showing the capture view, with nothing recognized yet.
    pub fn new() -> (f: Self)
        ensures
            f.session.state == OcrViewState::Capturing,
            f.session.text@ == Seq::<char>::empty(),
            f.session.active_request_id is None,
            f.session.deadline is None,
            f.session.next_request_id == 0,
            f.view == AppView::Capture,
            f.snapshot is None,
    {
        OcrFlow { session: OcrSession::new(), view: AppView::Capture, snapshot: None }
    }

    /// Starts a recapture from the result window, keeping `snapshot` to go back to.
    pub fn begin_recapture(&mut self, snapshot: S) -> (started: bool)
        ensures
            (*final(self), started) == recapture_begun(*old(self), snapshot),
    {
        let recognizing = match self.session.state {
            OcrViewState::Recognizing => true,
            _ => false,
        };
        if recognizing {
            return false;
        }
        self.snapshot = Some(snapshot);
        self.session.begin_capture();
        self.view = AppView::Capture;
        true
    }

    /// A recapture is in progress: capturing, with a capture to go back to.
    pub fn recapture_pending(&self) -> (pending: bool)
        ensures
            pending == (self.session.state == OcrViewState::Capturing && self.snapshot is Some),
    {
        let capturing = match self.session.state {
            OcrViewState::Capturing => true,
            _ => false,
        };
        capturing && self.snapshot.is_some()
    }

    /// Abandons a recapture; hands back the capture to restore.
    pub fn cancel_recapture(&mut self) -> (restored: Option<S>)
        ensures
            (*final(self), restored) == recapture_cancelled(*old(self)),
    {
        let capturing = match self.session.state {
            OcrViewState::Capturing => true,
            _ => false,
        };
        if !capturing || self.snapshot.is_none() {
            return None;
        }
        let restored = self.snapshot.take();
        self.session.cancel_capture();
        self.view = AppView::OcrResult;
        restored
    }

    /// Refuses to finish a recapture when none is in progress.
    pub fn check_recapturing(&self) -> (r: Result<(), String>)
        ensures
            r is Ok <==> self.session.state == OcrViewState::Capturing,
            r matches Err(m) ==> m@ == NOT_RECAPTURING@,
    {
        match self.session.state {
            OcrViewState::Capturing => Ok(()),
            _ => Err(NOT_RECAPTURING.to_owned()),
        }
    }

    /// Ends a recapture once its image was submitted, or could not be; in the second case the
    /// earlier result comes back and the capture to restore is handed back.
    pub fn conclude_recapture(&mut self, submitted: bool) -> (restored: Option<S>)
        ensures
            (*final(self), restored) == recapture_concluded(*old(self), submitted),
    {
        if submitted {
            self.snapshot = None;
            return None;
        }
        let restored = self.snapshot.take();
        self.session.cancel_capture();
        self.view = AppView::OcrResult;
        restored
    }

    /// Starts a submission at `now` when the recognition worker runs: the identifier under
    /// which to send the image.
    pub fn begin_submission(&mut self, now: u64, worker_running: bool) -> (r: Result<
        OcrRequestId,
        String,
    >)
        requires
            worker_running ==> now + OCR_TIMEOUT_NANOS <= u64::MAX,
        ensures
            worker_running ==> ({
                let (session, id) = submitted(old(self).session, now);
                &&& r == Ok::<OcrRequestId, String>(id)
                &&& final(self).session == session
            }),
            !worker_running ==> (r matches Err(m) && m@ == OCR_SERVICE_NOT_STARTED@),
            !worker_running ==> final(self).session == old(self).session,
            final(self).view == old(self).view,
            final(self).snapshot == old(self).snapshot,
    {
        if !worker_running {
            return Err(OCR_SERVICE_NOT_STARTED.to_owned());
        }
        Ok(self.session.submit(now))
    }

    /// Ends a submission: shows the result window, and fails the request with a recognition
    /// error when the image could not be handed to the worker (`delivered` false).
    pub fn finish_submission(&mut self, request_id: OcrRequestId, delivered: bool) -> (r: Result<
        (),
        String,
    >)
        ensures
            final(self).view == AppView::OcrResult,
            final(self).snapshot == old(self).snapshot,
            delivered ==> r is Ok && final(self).session == old(self).session,
            !delivered ==> (r matches Err(m) && m@ == OCR_SERVICE_UNAVAILABLE@),
            !delivered ==> final(self).session == applied(
                old(self).session,
                OcrResponse { request_id, result: Err(OcrErrorKind::Recognition) },
            ).0,
    {
        self.view = AppView::OcrResult;
        if delivered {
            Ok(())
        } else {
            self.session.apply_response(
                OcrResponse { request_id, result: Err(OcrErrorKind::Recognition) },
            );
            Err(OCR_SERVICE_UNAVAILABLE.to_owned())
        }
    }

    /// Applies the worker's queued answers in order, then checks the deadline at `now`;
    /// whether anything changed.
    pub fn poll(&mut self, responses: Vec<OcrResponse>, now: u64) -> (changed: bool)
        ensures
            (final(self).session, changed) == polled(old(self).session, responses@, now),
            final(self).view == old(self).view,
            final(self).snapshot == old(self).snapshot,
    {
        let ghost all = responses@;
        let mut pending = responses;
        let mut changed = false;
        let ghost mut done: int = 0;
        while pending.len() > 0
            invariant
                0 <= done <= all.len(),
                pending@ == all.subrange(done, all.len() as int),
                (self.session, changed) == responses_applied(old(self).session, all.take(done)),
                self.view == old(self).view,
                self.snapshot == old(self).snapshot,
            decreases pending@.len(),
        {
            let response = pending.remove(0);
            proof {
                assert(all.take(done + 1).drop_last() =~= all.take(done));
                assert(all.take(done + 1).last() == response);
            }
            let accepted = self.session.apply_response(response);
            changed = changed || accepted;
            proof {
                done = done + 1;
            }
        }
        proof {
            assert(all.take(done) =~= all);
        }
        let timed_out = self.session.expire_if_needed(now);
        changed || timed_out
    }

    /// Closes the result window; refused while recognizing.
    pub fn close_result(&mut self) -> (closed: bool)
        ensures
            (*final(self), closed) == result_closed(*old(self)),
    {
        let recognizing = match self.session.state {
            OcrViewState::Recognizing => true,
            _ => false,
        };
        if recognizing {
            return false;
        }
        self.session.cancel();
        self.snapshot = None;
        true
    }

    /// The recognized text to put on the clipboard, or the message to show instead.
    pub fn text_to_copy(&self) -> (r: Result<String, String>)
        ensures
            match r {
                Ok(text) => copy_outcome(self.session) == Ok::<Seq<char>, Seq<char>>(text@),
                Err(m) => copy_outcome(self.session) == Err::<Seq<char>, Seq<char>>(m@),
            },
    {
        let recognizing = match self.session.state {
            OcrViewState::Recognizing => true,
            _ => false,
        };
        if recognizing {
            return Err(OCR_STILL_RECOGNIZING.to_owned());
        }
        if self.session.text.as_str().is_empty() {
            return Err(NO_TEXT_TO_COPY.to_owned());
        }
        Ok(self.session.text.clone())
    }
}

/// Abandoning a recapture gives back the capture it started from, and the result window
/// shows the earlier result again (or the cancelled state when there was none).
pub proof fn lemma_cancelled_recapture_restores<S>(f: OcrFlow<S>, snapshot: S)
    requires
        !is_recognizing(f.session),
    ensures
        ({
            let (capturing, started) = recapture_begun(f, snapshot);
            let (back, restored) = recapture_cancelled(capturing);
            &&& started
            &&& restored == Some(snapshot)
            &&& back.view == AppView::OcrResult
            &&& back.snapshot is None
            &&& back.session.text == f.session.text
            &&& back.session.active_request_id is None
            &&& back.session.state == if f.session.text@.len() == 0 {
                OcrViewState::Cancelled
            } else {
                OcrViewState::Result
            }
        }),
{
}

/// While a request is being recognized, neither a recapture nor closing the result window
/// changes anything.
pub proof fn lemma_recognizing_refuses_recapture_and_close<S>(f: OcrFlow<S>, snapshot: S)
    requires
        is_recognizing(f.session),
    ensures
        recapture_begun(f, snapshot) == (f, false),
        result_closed(f) == (f, false),
{
}

/// An answer already queued when the deadline passes wins over the timeout.
pub proof fn lemma_queued_answer_wins_over_timeout(
    s: OcrSession,
    now: u64,
    later: u64,
    text: String,
)
    requires
        now + OCR_TIMEOUT_NANOS <= u64::MAX,
    ensures
        ({
            let (waiting, id) = submitted(s, now);
            let answer = OcrResponse { request_id: id, result: Ok(text) };
            let (after, changed) = polled(waiting, seq![answer], later);
            &&& changed
            &&& after.state == OcrViewState::Result
            &&& after.text == text
            &&& after.active_request_id is None
        }),
{
    let (waiting, id) = submitted(s, now);
    let answer = OcrResponse { request_id: id, result: Ok(text) };
    let answers = seq![answer];
    assert(answers.drop_last() =~= Seq::<OcrResponse>::empty());
    assert(answers.last() == answer);
    reveal_with_fuel(responses_applied, 2);
}

/// Copying succeeds exactly when the result view enables its copy button: not while
/// recognizing, and only with text. It then copies the shown text, whatever the view shows
/// besides (a result, a failure such as a timed-out recapture, a cancellation, a capture).
pub proof fn lemma_copy_succeeds_exactly_when_enabled(s: OcrSession, kind: OcrErrorKind)
    ensures
        (copy_outcome(s) is Ok) == (s.state != OcrViewState::Recognizing && s.text@.len() > 0),
        copy_outcome(s) matches Ok(text) ==> text == s.text@,
        s.state == OcrViewState::Recognizing ==> copy_outcome(s) == Err::<Seq<char>, Seq<char>>(
            OCR_STILL_RECOGNIZING@,
        ),
        s.state != OcrViewState::Recognizing && s.text@.len() == 0 ==> copy_outcome(s) == Err::<
            Seq<char>,
            Seq<char>,
        >(NO_TEXT_TO_COPY@),
        copy_outcome(OcrSession { state: OcrViewState::Failed(kind), ..s }) == copy_outcome(
            OcrSession { state: OcrViewState::Result, ..s },
        ),
        copy_outcome(OcrSession { state: OcrViewState::Cancelled, ..s }) == copy_outcome(
            OcrSession { state: OcrViewState::Result, ..s },
        ),
        copy_outcome(OcrSession { state: OcrViewState::Capturing, ..s }) == copy_outcome(
            OcrSession { state: OcrViewState::Result, ..s },
        ),
{
}

} // verus!
