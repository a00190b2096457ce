use vstd::prelude::*;
use vstd::string::*;

use crate::ocr::OcrErrorKind;
use crate::text::{trim_text, trimmed};

verus! {

/// The detection model file of the recognizer.
pub const DETECTION_MODEL: &'static str = "pp-ocrv5_mobile_det.onnx";

/// The recognition model file of the recognizer.
pub const RECOGNITION_MODEL: &'static str = "pp-ocrv5_mobile_rec.onnx";

/// The character dictionary of the recognition model.
pub const CHARACTER_DICT: &'static str = "ppocrv5_dict.txt";

/// The recognizer that uses the PP-OCRv5 mobile detection and recognition models.
pub struct OarOcrFactory;

impl OarOcrFactory {
    pub fn new() -> (f: Self) {
        OarOcrFactory
    }
}

/// The text of one detected region, trimmed; `None` when nothing but white space is left.
pub open spec fn spec_normalized(text: Seq<char>) -> Option<Seq<char>> {
    if trimmed(text).len() == 0 {
        None
    } else {
        Some(trimmed(text))
    }
}

/// The non-empty trimmed texts of the regions, in order.
pub open spec fn kept_lines(texts: Seq<Seq<char>>) -> Seq<Seq<char>>
    decreases texts.len(),
{
    if texts.len() == 0 {
        Seq::empty()
    } else {
        let rest = kept_lines(texts.drop_last());
        match spec_normalized(texts.last()) {
            Some(line) => rest.push(line),
            None => rest,
        }
    }
}

/// The lines joined by line breaks.
pub open spec fn joined_lines(lines: Seq<Seq<char>>) -> Seq<char>
    decreases lines.len(),
{
    if lines.len() == 0 {
        Seq::empty()
    } else if lines.len() == 1 {
        lines[0]
    } else {
        joined_lines(lines.drop_last()) + "\n"@ + lines.last()
    }
}

pub open spec fn region_views(texts: Seq<&str>) -> Seq<Seq<char>> {
    texts.map_values(|t: &str| t@)
}

/// The detected text of all regions: the non-empty trimmed region texts, one per line;
/// `None` when that is empty.
pub open spec fn spec_detected_text(texts: Seq<&str>) -> Option<Seq<char>> {
    let joined = joined_lines(kept_lines(region_views(texts)));
    if joined.len() == 0 {
        None
    } else {
        Some(joined)
    }
}

/// Trims the text of one region; `None` when it holds only white space.
pub fn normalize_detected_text(text: &str) -> (r: Option<String>)
    ensures
        match r {
            Some(s) => spec_normalized(text@) == Some(s@),
            None => spec_normalized(text@) is None,
        },
{
    let t = trim_text(text);
    if t.is_empty() {
        None
    } else {
        Some(t.to_owned())
    }
}

/// Joins the non-empty trimmed region texts with line breaks; `None` when none is left.
pub fn join_detected_text(texts: &[&str]) -> (r: Option<String>)
    ensures
        match r {
            Some(s) => spec_detected_text(texts@) == Some(s@),
            None => spec_detected_text(texts@) is None,
        },
{
    let ghost views = region_views(texts@);
    let mut joined = String::new();
    let mut any_line = false;
    let mut i: usize = 0;
    assert(views.take(0) =~= Seq::<Seq<char>>::empty());
    while i < texts.len()
        invariant
            views == region_views(texts@),
            i <= texts@.len(),
            joined@ == joined_lines(kept_lines(views.take(i as int))),
            any_line == (kept_lines(views.take(i as int)).len() > 0),
        decreases texts@.len() - i,
    {
        let ghost before = kept_lines(views.take(i as int));
        assert(views.take(i as int + 1).drop_last() =~= views.take(i as int));
        assert(views.take(i as int + 1).last() == texts@[i as int]@);
        match normalize_detected_text(texts[i]) {
            Some(line) => {
                if any_line {
                    joined.append("\n");
                }
                joined.append(line.as_str());
                any_line = true;
                proof {
                    let after = before.push(line@);
                    assert(after.drop_last() =~= before);
                    if before.len() == 0 {
                        assert(joined@ =~= joined_lines(after));
                    }
                }
            },
            None => {},
        }
        i = i + 1;
    }
    assert(views.take(texts@.len() as int) =~= views);
    if joined.as_str().is_empty() {
        None
    } else {
        Some(joined)
    }
}


/// The outcome of recognizing one image from the texts of its detected regions; `None` when
/// the engine failed or gave no result for the image. Both that and an image without any
/// text are recognition failures.
pub fn recognized_text(regions: Option<&[&str]>) -> (r: Result<String, OcrErrorKind>)
    ensures
        match regions {
            None => r == Err::<String, OcrErrorKind>(OcrErrorKind::Recognition),
            Some(texts) => match spec_detected_text(texts@) {
                Some(t) => r matches Ok(s) && s@ == t,
                None => r == Err::<String, OcrErrorKind>(OcrErrorKind::Recognition),
            },
        },
{
    match regions {
        None => Err(OcrErrorKind::Recognition),
        Some(texts) => match join_detected_text(texts) {
            Some(text) => Ok(text),
            None => Err(OcrErrorKind::Recognition),
        },
    }
}

} // verus!
