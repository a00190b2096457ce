use vstd::prelude::*;
use vstd::string::*;

use crate::ocr::{spec_error_message, OcrSession, OcrViewState};

verus! {

/// How long the copy button reports a successful copy, in nanoseconds (2 s).
pub const COPY_FEEDBACK_NANOS: u64 = 2_000_000_000;

/// What `Esc` does in the OCR result view.
#[derive(Debug, Clone, Copy, PartialEq, Eq, Structural)]
pub enum OcrResultAction {
    Ignore,
    CloseViewport,
}

/// `Esc` is ignored while recognition runs and closes the view otherwise.
pub fn ocr_result_escape_action(state: &OcrViewState) -> (action: OcrResultAction)
    ensures
        action == (if *state == OcrViewState::Recognizing {
            OcrResultAction::Ignore
        } else {
            OcrResultAction::CloseViewport
        }),
{
    match state {
        OcrViewState::Recognizing => OcrResultAction::Ignore,
        _ => OcrResultAction::CloseViewport,
    }
}

/// Decimal digit `d` as a character.
pub open spec fn digit_char(d: nat) -> char {
    (d + 48) as char
}

/// The decimal notation of `n`, as `Display` writes it.
pub open spec fn spec_decimal(n: nat) -> Seq<char>
    decreases n,
{
    if n < 10 {
        seq![digit_char(n)]
    } else {
        spec_decimal(n / 10).push(digit_char(n % 10))
    }
}

/// The one-character text of decimal digit `d`.
fn digit_text(d: usize) -> (s: &'static str)
    requires
        d < 10,
    ensures
        s@ == seq![digit_char(d as nat)],
{
    proof {
        reveal_strlit("0");
        reveal_strlit("1");
        reveal_strlit("2");
        reveal_strlit("3");
        reveal_strlit("4");
        reveal_strlit("5");
        reveal_strlit("6");
        reveal_strlit("7");
        reveal_strlit("8");
        reveal_strlit("9");
    }
    if d == 0 {
        "0"
    } else if d == 1 {
        "1"
    } else if d == 2 {
        "2"
    } else if d == 3 {
        "3"
    } else if d == 4 {
        "4"
    } else if d == 5 {
        "5"
    } else if d == 6 {
        "6"
    } else if d == 7 {
        "7"
    } else if d == 8 {
        "8"
    } else {
        "9"
    }
}

/// The decimal notation of `n`, as `usize::to_string` writes it.
fn decimal_text(n: usize) -> (s: String)
    ensures
        s@ == spec_decimal(n as nat),
    decreases n,
{
    if n < 10 {
        digit_text(n).to_owned()
    } else {
        let mut s = decimal_text(n / 10);
        s.append(digit_text(n % 10));
        s
    }
}

/// The status line of the result view.
pub open spec fn spec_status_text(state: OcrViewState, text: Seq<char>) -> Seq<char> {
    if state == OcrViewState::Recognizing {
        "正在识别图片中的文字…"@
    } else if state is Failed {
        "识别失败，可重新截图后再试"@
    } else if text.len() == 0 {
        "未识别到文字"@
    } else {
        "识别完成 · "@ + spec_decimal(text.len()) + " 个字符"@
    }
}

/// What the OCR result view shows and which of its actions are available.
pub struct OcrViewModel {
    pub text: String,
    pub recognizing: bool,
    pub failed: bool,
    pub error_message: Option<&'static str>,
    pub status_text: String,
    pub is_empty: bool,
    pub copy_enabled: bool,
    pub recapture_enabled: bool,
    pub close_enabled: bool,
}

impl OcrViewModel {
    pub fn from_session(session: &OcrSession) -> (model: Self)
        ensures
            model.text@ == session.text@,
            model.recognizing == (session.state == OcrViewState::Recognizing),
            model.failed == (session.state is Failed),
            match session.state {
                OcrViewState::Failed(kind) => model.error_message matches Some(m) && m@
                    == spec_error_message(kind),
                _ => model.error_message is None,
            },
            model.status_text@ == spec_status_text(session.state, session.text@),
            model.is_empty == (session.text@.len() == 0),
            model.copy_enabled == (session.state != OcrViewState::Recognizing && session.text@.len()
                > 0),
            model.recapture_enabled == (session.state != OcrViewState::Recognizing),
            model.close_enabled == (session.state != OcrViewState::Recognizing),
    {
        let recognizing = match session.state {
            OcrViewState::Recognizing => true,
            _ => false,
        };
        let failed = match session.state {
            OcrViewState::Failed(_) => true,
            _ => false,
        };
        let error_message = match &session.state {
            OcrViewState::Failed(kind) => Some(kind.message()),
            _ => None,
        };
        let character_count = session.text.as_str().unicode_len();
        let is_empty = session.text.as_str().is_empty();
        let status_text = if recognizing {
            "正在识别图片中的文字…".to_owned()
        } else if failed {
            "识别失败，可重新截图后再试".to_owned()
        } else if is_empty {
            "未识别到文字".to_owned()
        } else {
            let mut status = "识别完成 · ".to_owned();
            let count = decimal_text(character_count);
            status.append(count.as_str());
            status.append(" 个字符");
            status
        };
        OcrViewModel {
            text: session.text.clone(),
            recognizing,
            failed,
            error_message,
            status_text,
            is_empty,
            copy_enabled: !recognizing && !is_empty,
            recapture_enabled: !recognizing,
            close_enabled: !recognizing,
        }
    }
}

/// The copy button says "已复制" until the feedback deadline and "复制文本" from then on.
pub fn copy_button_label(now: u64, copied_until: Option<u64>) -> (label: &'static str)
    ensures
        label@ == (if copied_until matches Some(deadline) && now < deadline {
            "已复制"@
        } else {
            "复制文本"@
        }),
{
    let copied = match copied_until {
        Some(deadline) => now < deadline,
        None => false,
    };
    if copied {
        "已复制"
    } else {
        "复制文本"
    }
}

} // verus!
