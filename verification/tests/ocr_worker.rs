use std::cell::RefCell;
use std::collections::VecDeque;
use std::rc::Rc;

use image::RgbaImage;
use legend_shot::ocr::{OcrErrorKind, OcrResponse};
use legend_shot::ocr_worker::{answer, OcrBackend, OcrBackendFactory, OcrEngine, OcrRequest};

struct Counters {
    created: usize,
    recognized: usize,
    recognize_results: VecDeque<Result<&'static str, OcrErrorKind>>,
}

struct FakeFactory {
    counters: Rc<RefCell<Counters>>,
    create_results: VecDeque<Result<(), OcrErrorKind>>,
}

struct FakeBackend {
    counters: Rc<RefCell<Counters>>,
}

impl OcrBackend<RgbaImage> for FakeBackend {
    fn recognize(&mut self, _image: RgbaImage) -> Result<String, OcrErrorKind> {
        let mut counters = self.counters.borrow_mut();
        counters.recognized += 1;
        counters
            .recognize_results
            .pop_front()
            .expect("unexpected recognition")
            .map(str::to_owned)
    }
}

impl OcrBackendFactory<RgbaImage> for FakeFactory {
    type Backend = FakeBackend;

    fn create(&mut self) -> Result<FakeBackend, OcrErrorKind> {
        self.counters.borrow_mut().created += 1;
        self.create_results
            .pop_front()
            .expect("unexpected model load")
            .map(|()| FakeBackend {
                counters: Rc::clone(&self.counters),
            })
    }
}

struct Worker {
    engine: OcrEngine<FakeBackend>,
    factory: FakeFactory,
}

impl Worker {
    fn is_loaded(&self) -> bool {
        self.engine.is_loaded()
    }

    fn handle(&mut self, request: OcrRequest<RgbaImage>) -> OcrResponse {
        answer(&mut self.engine, &mut self.factory, request)
    }
}

fn engine(
    create_results: Vec<Result<(), OcrErrorKind>>,
    recognize_results: Vec<Result<&'static str, OcrErrorKind>>,
) -> (Worker, Rc<RefCell<Counters>>) {
    let counters = Rc::new(RefCell::new(Counters {
        created: 0,
        recognized: 0,
        recognize_results: VecDeque::from(recognize_results),
    }));
    let factory = FakeFactory {
        counters: Rc::clone(&counters),
        create_results: VecDeque::from(create_results),
    };
    (
        Worker {
            engine: OcrEngine::new(),
            factory,
        },
        counters,
    )
}

fn send_request(engine: &mut Worker, request_id: u64) -> OcrResponse {
    engine.handle(OcrRequest {
        request_id,
        image: RgbaImage::new(1, 1),
    })
}

fn assert_response(
    response: OcrResponse,
    request_id: u64,
    expected: Result<&'static str, OcrErrorKind>,
) {
    assert_eq!(response.request_id, request_id);
    assert_eq!(response.result, expected.map(str::to_owned));
}

#[test]
fn worker_reuses_backend_for_multiple_requests() {
    let (mut engine, counters) = engine(vec![Ok(())], vec![Ok("第一次"), Ok("第二次")]);

    let first = send_request(&mut engine, 10);
    let second = send_request(&mut engine, 11);

    assert_response(first, 10, Ok("第一次"));
    assert_response(second, 11, Ok("第二次"));
    assert_eq!(counters.borrow().created, 1);
    assert_eq!(counters.borrow().recognized, 2);
}

#[test]
fn worker_retries_initialization_after_model_failure() {
    let (mut engine, counters) = engine(
        vec![Err(OcrErrorKind::Model), Ok(())],
        vec![Ok("重试成功")],
    );

    let first = send_request(&mut engine, 20);
    assert!(!engine.is_loaded());
    let second = send_request(&mut engine, 21);

    assert_response(first, 20, Err(OcrErrorKind::Model));
    assert_response(second, 21, Ok("重试成功"));
    assert_eq!(counters.borrow().created, 2);
    assert_eq!(counters.borrow().recognized, 1);
}

#[test]
fn worker_keeps_loaded_backend_after_recognition_failure() {
    let (mut engine, counters) = engine(
        vec![Ok(())],
        vec![Err(OcrErrorKind::Recognition), Ok("恢复成功")],
    );

    let first = send_request(&mut engine, 30);
    assert!(engine.is_loaded());
    let second = send_request(&mut engine, 31);

    assert_response(first, 30, Err(OcrErrorKind::Recognition));
    assert_response(second, 31, Ok("恢复成功"));
    assert_eq!(counters.borrow().created, 1);
    assert_eq!(counters.borrow().recognized, 2);
}

#[test]
fn new_engine_has_no_model_loaded() {
    let (engine, counters) = engine(vec![], vec![]);
    assert!(!engine.is_loaded());
    assert_eq!(counters.borrow().created, 0);
}
