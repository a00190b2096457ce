use vstd::prelude::*;

use crate::ocr::{OcrErrorKind, OcrRequestId, OcrResponse};

verus! {

/// One image handed to the recognition worker, tagged with its request identifier.
pub struct OcrRequest<I> {
    pub request_id: OcrRequestId,
    pub image: I,
}

/// A loaded recognition model.
pub trait OcrBackend<I> {
    fn recognize(&mut self, image: I) -> Result<String, OcrErrorKind>;
}

/// Loads a recognition model; loading may fail (for instance when the model cannot be fetched).
pub trait OcrBackendFactory<I> {
    type Backend: OcrBackend<I>;

    fn create(&mut self) -> Result<Self::Backend, OcrErrorKind>;
}

/// What the worker does next for a request: load a model, or ask the loaded one.
#[derive(Debug, Clone, Copy, PartialEq, Eq, Structural)]
pub enum EngineStep {
    Load,
    Recognize,
}

/// The recognition worker's state: the model `B`, once one was loaded. A request first
/// loads a model when there is none; a failed load answers the request with the factory's
/// error and is tried again on the next request; a loaded model is kept and answers every
/// request, whatever it answered before.
pub struct OcrEngine<B> {
    model: Option<B>,
}

pub open spec fn spec_next_step(loaded: bool) -> EngineStep {
    if loaded {
        EngineStep::Recognize
    } else {
        EngineStep::Load
    }
}

impl<B> OcrEngine<B> {
    /// The loaded model, if any.
    pub closed spec fn model(&self) -> Option<B> {
        self.model
    }

    /// A worker that has not loaded a model yet.
    pub fn new() -> (engine: Self)
        ensures
            engine.model() is None,
    {
        OcrEngine { model: None }
    }

    pub fn is_loaded(&self) -> (b: bool)
        ensures
            b == self.model() is Some,
    {
        self.model.is_some()
    }

    /// The next step for a request: the factory is asked exactly when no model is loaded.
    pub fn next_step(&self) -> (step: EngineStep)
        ensures
            step == spec_next_step(self.model() is Some),
    {
        if self.model.is_some() {
            EngineStep::Recognize
        } else {
            EngineStep::Load
        }
    }

    /// Takes the factory's answer for request `request_id`: a model is kept, and the
    /// request goes on to it; an error is the request's answer.
    pub fn after_load(&mut self, request_id: OcrRequestId, created: Result<B, OcrErrorKind>) -> (answer:
        Option<OcrResponse>)
        ensures
            match created {
                Ok(model) => final(self).model() == Some(model) && answer is None,
                Err(kind) => final(self).model() == old(self).model() && answer == Some(
                    OcrResponse { request_id, result: Err(kind) },
                ),
            },
    {
        match created {
            Ok(model) => {
                self.model = Some(model);
                None
            },
            Err(kind) => Some(OcrResponse { request_id, result: Err(kind) }),
        }
    }

    /// The loaded model, to recognize an image with; it stays loaded.
    pub fn model_mut(&mut self) -> (model: &mut B)
        requires
            old(self).model() is Some,
        ensures
            *model == old(self).model()->0,
            final(self).model() == Some(*final(model)),
    {
        self.model.as_mut().unwrap()
    }

    /// The answer to request `request_id` is what the model recognized, or its error.
    pub fn after_recognize(&self, request_id: OcrRequestId, recognized: Result<String, OcrErrorKind>) -> (answer:
        OcrResponse)
        ensures
            answer == (OcrResponse { request_id, result: recognized }),
    {
        OcrResponse { request_id, result: recognized }
    }
}

/// Answers one request: asks `factory` for a model when none is loaded (a failed load is the
/// answer), then asks the model. The answer and whether a model stays loaded are those of
/// `worker_step` for what the two calls returned.
pub fn answer<I, F: OcrBackendFactory<I>>(
    engine: &mut OcrEngine<F::Backend>,
    factory: &mut F,
    request: OcrRequest<I>,
) -> (response: OcrResponse)
    ensures
        exists|o: RequestOutcome|
            o.request_id == request.request_id && #[trigger] worker_step(
                old(engine).model() is Some,
                o,
            ) == (final(engine).model() is Some, response),
{
    let OcrRequest { request_id, image } = request;
    let step = engine.next_step();
    let mut load: Ghost<Result<(), OcrErrorKind>> = Ghost(Ok(()));
    if step == EngineStep::Load {
        let created = factory.create();
        proof {
            load@ = match created {
                Ok(_) => Ok(()),
                Err(kind) => Err(kind),
            };
        }
        match engine.after_load(request_id, created) {
            Some(failed) => {
                proof {
                    let o = RequestOutcome {
                        request_id,
                        load: load@,
                        recognized: Err(OcrErrorKind::Recognition),
                    };
                    assert(worker_step(false, o) == (false, failed));
                }
                return failed;
            },
            None => {},
        }
    }
    let recognized = engine.model_mut().recognize(image);
    let response = engine.after_recognize(request_id, recognized);
    proof {
        let o = RequestOutcome { request_id, load: load@, recognized };
        assert(worker_step(old(engine).model() is Some, o) == (true, response));
    }
    response
}

/// For a run of requests on a worker that is `loaded` or not, where `loads[i]` says whether
/// a load asked at request `i` succeeds: how many loads are asked, and how many requests a
/// model answers.
pub open spec fn worker_run(loaded: bool, loads: Seq<bool>) -> (nat, nat)
    decreases loads.len(),
{
    if loads.len() == 0 {
        (0, 0)
    } else {
        let (now_loaded, load_asked) = match spec_next_step(loaded) {
            EngineStep::Recognize => (true, 0nat),
            EngineStep::Load => (loads[0], 1nat),
        };
        let (rest_loads, rest_answers) = worker_run(now_loaded, loads.drop_first());
        (load_asked + rest_loads, (if now_loaded { 1nat } else { 0nat }) + rest_answers)
    }
}

/// The first request whose load succeeds, or the number of requests when none does.
pub open spec fn first_success(loads: Seq<bool>) -> nat
    decreases loads.len(),
{
    if loads.len() == 0 {
        0
    } else if loads[0] {
        0
    } else {
        1 + first_success(loads.drop_first())
    }
}

/// A loaded worker never loads again and answers every request with its model. A worker
/// without a model asks the factory at every request until a load succeeds (failed loads
/// answer their request with the error), and from then on only the model answers.
pub proof fn lemma_worker_loads_until_success(loaded: bool, loads: Seq<bool>)
    ensures
        loaded ==> worker_run(loaded, loads) == (0nat, loads.len()),
        !loaded && first_success(loads) < loads.len() ==> worker_run(loaded, loads) == (
            first_success(loads) + 1,
            (loads.len() - first_success(loads)) as nat,
        ),
        !loaded && first_success(loads) == loads.len() ==> worker_run(loaded, loads) == (loads.len(), 0nat),
    decreases loads.len(),
{
    if loads.len() > 0 {
        if loaded || loads[0] {
            lemma_worker_loads_until_success(true, loads.drop_first());
        } else {
            lemma_worker_loads_until_success(false, loads.drop_first());
        }
    }
}


/// What the calls of one request return: the factory's outcome, if a load is asked, and the
/// model's answer, if the model is asked.
pub ghost struct RequestOutcome {
    pub request_id: OcrRequestId,
    pub load: Result<(), OcrErrorKind>,
    pub recognized: Result<String, OcrErrorKind>,
}

/// One request on a worker that is `loaded` or not, stepping as `next_step`, `after_load`
/// and `after_recognize` do: whether a model is loaded afterwards, and the answer.
pub open spec fn worker_step(loaded: bool, request: RequestOutcome) -> (bool, OcrResponse) {
    match spec_next_step(loaded) {
        EngineStep::Recognize => (
            true,
            OcrResponse { request_id: request.request_id, result: request.recognized },
        ),
        EngineStep::Load => match request.load {
            Ok(()) => (true, OcrResponse { request_id: request.request_id, result: request.recognized }),
            Err(kind) => (false, OcrResponse { request_id: request.request_id, result: Err(kind) }),
        },
    }
}

/// The answers of the worker to a run of requests, in order.
pub open spec fn worker_responses(loaded: bool, requests: Seq<RequestOutcome>) -> Seq<OcrResponse>
    decreases requests.len(),
{
    if requests.len() == 0 {
        Seq::empty()
    } else {
        let (now_loaded, answer) = worker_step(loaded, requests[0]);
        seq![answer] + worker_responses(now_loaded, requests.drop_first())
    }
}

/// The worker answers every request exactly once, in order, under the request's identifier:
/// with the model's answer, or, when the model could not be loaded, with the factory's error.
pub proof fn lemma_one_answer_per_request(loaded: bool, requests: Seq<RequestOutcome>)
    ensures
        worker_responses(loaded, requests).len() == requests.len(),
        forall|i: int|
            0 <= i < requests.len() ==> #[trigger] worker_responses(loaded, requests)[i].request_id
                == requests[i].request_id,
        forall|i: int|
            0 <= i < requests.len() ==> (worker_responses(loaded, requests)[i].result
                == requests[i].recognized || requests[i].load == Err::<(), OcrErrorKind>(
                worker_responses(loaded, requests)[i].result->Err_0,
            )),
    decreases requests.len(),
{
    if requests.len() > 0 {
        let (now_loaded, answer) = worker_step(loaded, requests[0]);
        let rest = requests.drop_first();
        lemma_one_answer_per_request(now_loaded, rest);
        let all = worker_responses(loaded, requests);
        assert(all == seq![answer] + worker_responses(now_loaded, rest));
        assert forall|i: int| 0 < i < requests.len() implies #[trigger] all[i] == worker_responses(
            now_loaded,
            rest,
        )[i - 1] && requests[i] == rest[i - 1] by {}
    }
}

} // verus!
