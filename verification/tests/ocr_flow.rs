use legend_shot::app_state::AppView;
use legend_shot::ocr::{OcrErrorKind, OcrResponse, OcrViewState, OCR_TIMEOUT_NANOS};
use legend_shot::ocr_flow::OcrFlow;

#[derive(Debug, Clone, PartialEq)]
struct Snapshot {
    selection_rect: Option<((f32, f32), (f32, f32))>,
    annotations: Vec<&'static str>,
}

fn old_capture() -> Snapshot {
    Snapshot {
        selection_rect: Some(((10.0, 20.0), (30.0, 40.0))),
        annotations: vec!["pen"],
    }
}

const NOW: u64 = 7_000_000_000;

#[test]
fn recognizing_defensively_rejects_recapture_and_close() {
    let mut flow: OcrFlow<Snapshot> = OcrFlow::new();
    let request_id = flow.session.submit(NOW);
    flow.view = AppView::OcrResult;

    assert!(!flow.begin_recapture(old_capture()));
    assert!(!flow.close_result());

    assert_eq!(flow.session.state, OcrViewState::Recognizing);
    assert_eq!(flow.session.active_request_id, Some(request_id));
    assert_eq!(flow.session.deadline, Some(NOW + OCR_TIMEOUT_NANOS));
    assert_eq!(flow.view, AppView::OcrResult);
    assert!(flow.snapshot.is_none());
}

#[test]
fn close_result_cleans_state_without_returning_to_capture() {
    let mut flow = OcrFlow::new();
    flow.session.text = "识别文本".to_string();
    flow.session.state = OcrViewState::Result;
    flow.view = AppView::OcrResult;
    flow.snapshot = Some(Snapshot {
        selection_rect: None,
        annotations: Vec::new(),
    });

    assert!(flow.close_result());

    assert_eq!(flow.session.state, OcrViewState::Cancelled);
    assert_eq!(flow.view, AppView::OcrResult);
    assert!(flow.snapshot.is_none());
}

#[test]
fn cancel_recapture_restores_snapshot_and_old_result() {
    let mut flow = OcrFlow::new();
    flow.session.text = "旧文本".to_string();
    flow.session.state = OcrViewState::Capturing;
    flow.view = AppView::Capture;
    flow.snapshot = Some(old_capture());

    let restored = flow.cancel_recapture();

    assert_eq!(flow.session.state, OcrViewState::Result);
    assert_eq!(flow.session.text, "旧文本");
    assert_eq!(flow.view, AppView::OcrResult);
    assert_eq!(restored, Some(old_capture()));
    assert!(flow.snapshot.is_none());
}

#[test]
fn queued_current_response_wins_over_deadline_timeout() {
    let mut flow: OcrFlow<Snapshot> = OcrFlow::new();
    flow.session.text = "旧文本".to_string();
    let request_id = flow.session.submit(NOW);
    let queued = vec![OcrResponse {
        request_id,
        result: Ok("边界响应".to_string()),
    }];

    assert!(flow.poll(queued, NOW + OCR_TIMEOUT_NANOS));

    assert_eq!(flow.session.state, OcrViewState::Result);
    assert_eq!(flow.session.text, "边界响应");
    assert_eq!(flow.session.active_request_id, None);
}

#[test]
fn disconnected_request_channel_shows_recognition_failure_and_keeps_old_text() {
    let mut flow: OcrFlow<Snapshot> = OcrFlow::new();
    flow.session.text = "旧文本".to_string();

    let request_id = flow.begin_submission(NOW, true).unwrap();
    let result = flow.finish_submission(request_id, false);

    assert_eq!(result, Err("OCR 服务不可用".to_string()));
    assert_eq!(
        flow.session.state,
        OcrViewState::Failed(OcrErrorKind::Recognition)
    );
    assert_eq!(flow.session.text, "旧文本");
    assert_eq!(flow.view, AppView::OcrResult);
    assert_eq!(flow.session.active_request_id, None);
    assert_eq!(flow.session.deadline, None);
}

#[test]
fn failed_recapture_submission_restores_snapshot_and_old_result() {
    let mut flow = OcrFlow::new();
    flow.session.text = "旧文本".to_string();
    flow.session.state = OcrViewState::Capturing;
    flow.view = AppView::Capture;
    flow.snapshot = Some(old_capture());

    assert!(flow.check_recapturing().is_ok());
    let submission = flow.begin_submission(NOW, false);
    assert_eq!(submission, Err("OCR 服务未启动".to_string()));
    let restored = flow.conclude_recapture(false);

    assert_eq!(flow.session.state, OcrViewState::Result);
    assert_eq!(flow.session.text, "旧文本");
    assert_eq!(flow.view, AppView::OcrResult);
    let restored = restored.unwrap();
    assert_eq!(restored.selection_rect, Some(((10.0, 20.0), (30.0, 40.0))));
    assert_eq!(restored.annotations, vec!["pen"]);
    assert!(flow.snapshot.is_none());
}

#[test]
fn successful_recapture_submission_forgets_the_snapshot() {
    let mut flow = OcrFlow::new();
    flow.session.state = OcrViewState::Result;
    flow.session.text = "旧文本".to_string();
    assert!(flow.begin_recapture(old_capture()));
    assert_eq!(flow.view, AppView::Capture);
    assert_eq!(flow.session.state, OcrViewState::Capturing);

    let request_id = flow.begin_submission(NOW, true).unwrap();
    assert!(flow.finish_submission(request_id, true).is_ok());
    assert_eq!(flow.conclude_recapture(true), None);

    assert_eq!(flow.session.state, OcrViewState::Recognizing);
    assert_eq!(flow.session.active_request_id, Some(request_id));
    assert_eq!(flow.view, AppView::OcrResult);
    assert!(flow.snapshot.is_none());
}

#[test]
fn finishing_without_a_recapture_is_refused() {
    let flow: OcrFlow<Snapshot> = OcrFlow {
        view: AppView::OcrResult,
        ..OcrFlow::new()
    };
    let mut flow = flow;
    flow.session.state = OcrViewState::Result;
    assert_eq!(
        flow.check_recapturing(),
        Err("当前不在 OCR 重新截图状态".to_string())
    );
    assert_eq!(flow.cancel_recapture(), None);
    assert_eq!(flow.session.state, OcrViewState::Result);
}

#[test]
fn copying_ocr_text_needs_a_finished_non_empty_result() {
    let mut flow: OcrFlow<Snapshot> = OcrFlow::new();
    assert_eq!(flow.text_to_copy(), Err("没有可复制的识别文本".to_string()));
    flow.session.text = "识别文本".to_string();
    assert_eq!(flow.text_to_copy(), Ok("识别文本".to_string()));
    flow.session.submit(NOW);
    assert_eq!(flow.text_to_copy(), Err("OCR 识别中，请稍候".to_string()));
}

#[test]
fn stale_queued_answers_do_not_count_as_changes() {
    let mut flow: OcrFlow<Snapshot> = OcrFlow::new();
    let first = flow.session.submit(NOW);
    let second = flow.session.submit(NOW);
    let queued = vec![
        OcrResponse {
            request_id: first,
            result: Ok("旧请求文本".to_string()),
        },
    ];
    assert!(!flow.poll(queued, NOW + 1));
    assert_eq!(flow.session.active_request_id, Some(second));
    assert!(flow.poll(Vec::new(), NOW + OCR_TIMEOUT_NANOS));
    assert_eq!(
        flow.session.state,
        OcrViewState::Failed(OcrErrorKind::Timeout)
    );
}

#[test]
fn recapture_is_pending_only_while_capturing_with_a_snapshot() {
    let mut flow: OcrFlow<Snapshot> = OcrFlow::new();
    assert!(!flow.recapture_pending());
    flow.session.state = OcrViewState::Result;
    assert!(flow.begin_recapture(old_capture()));
    assert!(flow.recapture_pending());
    flow.cancel_recapture();
    assert!(!flow.recapture_pending());
}
