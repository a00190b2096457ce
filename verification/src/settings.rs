use vstd::prelude::*;
use vstd::string::*;

use global_hotkey::hotkey::HotKey;

use crate::app_state::AppLifecycle;
use crate::hotkey::{default_capture_shortcut_for, normalize_capture_shortcut, spec_capture_shortcut};
use crate::text::{eq_ascii_case_insensitive, eq_ignore_ascii_case, text_eq, trim_text, trimmed};

verus! {

/// `s` cut at every `sep`, as `str::split` does: `n` separators give `n + 1` parts.
pub open spec fn split_on(s: Seq<char>, sep: char) -> Seq<Seq<char>>
    decreases s.len(),
{
    if s.len() == 0 {
        seq![Seq::empty()]
    } else if s.last() == sep {
        split_on(s.drop_last(), sep).push(Seq::empty())
    } else {
        let parts = split_on(s.drop_last(), sep);
        parts.update(parts.len() - 1, parts.last().push(s.last()))
    }
}

/// Whether `s` begins with `prefix`.
pub open spec fn starts_with(s: Seq<char>, prefix: Seq<char>) -> bool {
    s.len() >= prefix.len() && s.take(prefix.len() as int) == prefix
}

/// The keycap shown for one part of a shortcut: modifiers by their platform name or symbol,
/// other keys without a `Key` or `Digit` prefix.
pub open spec fn keycap_label(part: Seq<char>, macos: bool) -> Seq<char> {
    if eq_ascii_case_insensitive(part, "super"@) || eq_ascii_case_insensitive(part, "command"@)
        || eq_ascii_case_insensitive(part, "cmd"@) {
        if macos { "⌘"@ } else { "Win"@ }
    } else if eq_ascii_case_insensitive(part, "control"@) || eq_ascii_case_insensitive(part, "ctrl"@) {
        if macos { "⌃"@ } else { "Ctrl"@ }
    } else if eq_ascii_case_insensitive(part, "option"@) || eq_ascii_case_insensitive(part, "alt"@) {
        if macos { "⌥"@ } else { "Alt"@ }
    } else if eq_ascii_case_insensitive(part, "shift"@) {
        if macos { "⇧"@ } else { "Shift"@ }
    } else if starts_with(part, "Key"@) {
        part.skip(3)
    } else if starts_with(part, "Digit"@) {
        part.skip(5)
    } else {
        part
    }
}

/// The keycaps of the parts, trimmed, with empty parts left out.
pub open spec fn keycaps_of(parts: Seq<Seq<char>>, macos: bool) -> Seq<Seq<char>>
    decreases parts.len(),
{
    if parts.len() == 0 {
        Seq::empty()
    } else {
        let rest = keycaps_of(parts.drop_last(), macos);
        let part = trimmed(parts.last());
        if part.len() == 0 {
            rest
        } else {
            rest.push(keycap_label(part, macos))
        }
    }
}

/// The keycaps of a shortcut such as `Ctrl+Shift+A`.
pub open spec fn spec_shortcut_keycaps(value: Seq<char>, macos: bool) -> Seq<Seq<char>> {
    keycaps_of(split_on(value, '+'), macos)
}

pub open spec fn string_views(v: Seq<String>) -> Seq<Seq<char>> {
    v.map_values(|s: String| s@)
}

fn text_starts_with(s: &str, prefix: &str) -> (b: bool)
    ensures
        b == starts_with(s@, prefix@),
{
    let n = prefix.unicode_len();
    if s.unicode_len() < n {
        return false;
    }
    let mut i: usize = 0;
    while i < n
        invariant
            n == prefix@.len(),
            n <= s@.len(),
            i <= n,
            forall|k: int| 0 <= k < i ==> s@[k] == prefix@[k],
        decreases n - i,
    {
        if s.get_char(i) != prefix.get_char(i) {
            return false;
        }
        i = i + 1;
    }
    assert(s@.take(n as int) =~= prefix@);
    true
}

fn keycap_text(part: &str, macos: bool) -> (label: String)
    ensures
        label@ == keycap_label(part@, macos),
{
    if eq_ignore_ascii_case(part, "super") || eq_ignore_ascii_case(part, "command")
        || eq_ignore_ascii_case(part, "cmd") {
        if macos { "⌘".to_owned() } else { "Win".to_owned() }
    } else if eq_ignore_ascii_case(part, "control") || eq_ignore_ascii_case(part, "ctrl") {
        if macos { "⌃".to_owned() } else { "Ctrl".to_owned() }
    } else if eq_ignore_ascii_case(part, "option") || eq_ignore_ascii_case(part, "alt") {
        if macos { "⌥".to_owned() } else { "Alt".to_owned() }
    } else if eq_ignore_ascii_case(part, "shift") {
        if macos { "⇧".to_owned() } else { "Shift".to_owned() }
    } else if text_starts_with(part, "Key") {
        proof {
            reveal_strlit("Key");
        }
        part.substring_char(3, part.unicode_len()).to_owned()
    } else if text_starts_with(part, "Digit") {
        proof {
            reveal_strlit("Digit");
        }
        part.substring_char(5, part.unicode_len()).to_owned()
    } else {
        part.to_owned()
    }
}

/// Adds the keycap of one raw part, unless the part is empty after trimming.
fn push_keycap(keycaps: &mut Vec<String>, raw: &str, macos: bool)
    ensures
        string_views(final(keycaps)@) == ({
            let part = trimmed(raw@);
            if part.len() == 0 {
                string_views(old(keycaps)@)
            } else {
                string_views(old(keycaps)@).push(keycap_label(part, macos))
            }
        }),
{
    let part = trim_text(raw);
    if !part.is_empty() {
        let label = keycap_text(part, macos);
        keycaps.push(label);
        assert(string_views(keycaps@) =~= string_views(old(keycaps)@).push(label@));
    }
}

/// The keycaps to draw for a shortcut: its `+`-separated parts, trimmed, without empty parts,
/// with modifiers shown as the platform names them.
pub fn shortcut_keycaps(value: &str, macos: bool) -> (keycaps: Vec<String>)
    ensures
        string_views(keycaps@) == spec_shortcut_keycaps(value@, macos),
{
    let n = value.unicode_len();
    let mut keycaps: Vec<String> = Vec::new();
    let mut start: usize = 0;
    let mut i: usize = 0;
    let ghost mut done: Seq<Seq<char>> = Seq::empty();
    assert(value@.take(0) =~= Seq::<char>::empty());
    assert(value@.subrange(0, 0) =~= Seq::<char>::empty());
    while i < n
        invariant
            n == value@.len(),
            start <= i <= n,
            split_on(value@.take(i as int), '+') == done.push(value@.subrange(start as int, i as int)),
            string_views(keycaps@) == keycaps_of(done, macos),
        decreases n - i,
    {
        let c = value.get_char(i);
        let ghost prefix = value@.take(i as int + 1);
        assert(prefix.drop_last() =~= value@.take(i as int));
        assert(prefix.last() == c);
        if c == '+' {
            let segment = value.substring_char(start, i);
            push_keycap(&mut keycaps, segment, macos);
            proof {
                let finished = done.push(value@.subrange(start as int, i as int));
                assert(finished.drop_last() =~= done);
                done = finished;
                assert(value@.subrange(i as int + 1, i as int + 1) =~= Seq::<char>::empty());
            }
            start = i + 1;
        } else {
            proof {
                let parts = split_on(value@.take(i as int), '+');
                assert(value@.subrange(start as int, i as int + 1) =~= value@.subrange(
                    start as int,
                    i as int,
                ).push(c));
                assert(parts.update(parts.len() - 1, parts.last().push(c)) =~= done.push(
                    value@.subrange(start as int, i as int + 1),
                ));
            }
        }
        i = i + 1;
    }
    let segment = value.substring_char(start, n);
    push_keycap(&mut keycaps, segment, macos);
    proof {
        assert(value@.take(n as int) =~= value@);
        let all = done.push(value@.subrange(start as int, n as int));
        assert(all.drop_last() =~= done);
    }
    keycaps
}

/// Modifier symbols that are drawn as vector shapes on macOS.
#[derive(Clone, Copy, Debug, PartialEq, Eq, Structural)]
pub enum MacKeycapSymbol {
    Command,
    Shift,
    Option,
    Control,
}

impl MacKeycapSymbol {
    /// The name that screen readers announce for the symbol.
    pub fn accessibility_label(self) -> (label: &'static str)
        ensures
            label@ == (match self {
                MacKeycapSymbol::Command => "Command"@,
                MacKeycapSymbol::Shift => "Shift"@,
                MacKeycapSymbol::Option => "Option"@,
                MacKeycapSymbol::Control => "Control"@,
            }),
    {
        match self {
            MacKeycapSymbol::Command => "Command",
            MacKeycapSymbol::Shift => "Shift",
            MacKeycapSymbol::Option => "Option",
            MacKeycapSymbol::Control => "Control",
        }
    }
}

pub open spec fn spec_mac_keycap_symbol(label: Seq<char>) -> Option<MacKeycapSymbol> {
    if label == "⌘"@ {
        Some(MacKeycapSymbol::Command)
    } else if label == "⇧"@ {
        Some(MacKeycapSymbol::Shift)
    } else if label == "⌥"@ {
        Some(MacKeycapSymbol::Option)
    } else if label == "⌃"@ {
        Some(MacKeycapSymbol::Control)
    } else {
        None
    }
}

/// The macOS modifier symbol that a keycap label shows, if it is one.
pub fn mac_keycap_symbol(label: &str) -> (symbol: Option<MacKeycapSymbol>)
    ensures
        symbol == spec_mac_keycap_symbol(label@),
{
    if text_eq(label, "⌘") {
        Some(MacKeycapSymbol::Command)
    } else if text_eq(label, "⇧") {
        Some(MacKeycapSymbol::Shift)
    } else if text_eq(label, "⌥") {
        Some(MacKeycapSymbol::Option)
    } else if text_eq(label, "⌃") {
        Some(MacKeycapSymbol::Control)
    } else {
        None
    }
}

/// The shortcut text for the held modifiers and a key, such as `Command+Shift+A`.
pub open spec fn spec_shortcut_text(mac_cmd: bool, ctrl: bool, alt: bool, shift: bool, key: Seq<char>) -> Seq<char> {
    (if mac_cmd { "Command+"@ } else { Seq::empty() }) + (if ctrl { "Ctrl+"@ } else { Seq::empty() })
        + (if alt { "Alt+"@ } else { Seq::empty() }) + (if shift { "Shift+"@ } else { Seq::empty() })
        + key
}

/// The shortcut recorded from a key press: refused without a modifier, or when the result is
/// no valid capture shortcut.
pub fn shortcut_from_key_name(mac_cmd: bool, ctrl: bool, alt: bool, shift: bool, key: &str) -> (r: Option<String>)
    ensures
        match r {
            Some(s) => (mac_cmd || ctrl || alt || shift) && s@ == spec_shortcut_text(
                mac_cmd,
                ctrl,
                alt,
                shift,
                key@,
            ) && spec_capture_shortcut(s@) is Ok,
            None => !(mac_cmd || ctrl || alt || shift) || spec_capture_shortcut(
                spec_shortcut_text(mac_cmd, ctrl, alt, shift, key@),
            ) is Err,
        },
{
    if !(mac_cmd || ctrl || alt || shift) {
        return None;
    }
    let mut shortcut = String::new();
    if mac_cmd {
        shortcut.append("Command+");
    }
    if ctrl {
        shortcut.append("Ctrl+");
    }
    if alt {
        shortcut.append("Alt+");
    }
    if shift {
        shortcut.append("Shift+");
    }
    shortcut.append(key);
    assert(shortcut@ =~= spec_shortcut_text(mac_cmd, ctrl, alt, shift, key@));
    match normalize_capture_shortcut(shortcut.as_str()) {
        Ok(_) => Some(shortcut),
        Err(_) => None,
    }
}


/// The keys whose name in a shortcut is not the key's own name: digits and punctuation.
/// Shifted punctuation is recorded as its unshifted key.
#[derive(Debug, Clone, Copy, PartialEq, Eq, Structural)]
pub enum RecordedKey {
    Num0,
    Num1,
    Num2,
    Num3,
    Num4,
    Num5,
    Num6,
    Num7,
    Num8,
    Num9,
    Backtick,
    OpenBracket,
    CloseBracket,
    Equals,
    Plus,
    Colon,
    Semicolon,
    Pipe,
    Backslash,
    Questionmark,
    Slash,
    Exclamationmark,
}

pub open spec fn spec_recorded_key_name(key: RecordedKey) -> Seq<char> {
    match key {
        RecordedKey::Num0 => "0"@,
        RecordedKey::Num1 => "1"@,
        RecordedKey::Num2 => "2"@,
        RecordedKey::Num3 => "3"@,
        RecordedKey::Num4 => "4"@,
        RecordedKey::Num5 => "5"@,
        RecordedKey::Num6 => "6"@,
        RecordedKey::Num7 => "7"@,
        RecordedKey::Num8 => "8"@,
        RecordedKey::Num9 => "9"@,
        RecordedKey::Backtick => "`"@,
        RecordedKey::OpenBracket => "["@,
        RecordedKey::CloseBracket => "]"@,
        RecordedKey::Equals => "="@,
        RecordedKey::Plus => "="@,
        RecordedKey::Colon => ";"@,
        RecordedKey::Semicolon => ";"@,
        RecordedKey::Pipe => "\\"@,
        RecordedKey::Backslash => "\\"@,
        RecordedKey::Questionmark => "/"@,
        RecordedKey::Slash => "/"@,
        RecordedKey::Exclamationmark => "1"@,
    }
}

/// The name of a digit or punctuation key in a shortcut.
pub fn recorded_key_name(key: RecordedKey) -> (name: &'static str)
    ensures
        name@ == spec_recorded_key_name(key),
{
    match key {
        RecordedKey::Num0 => "0",
        RecordedKey::Num1 => "1",
        RecordedKey::Num2 => "2",
        RecordedKey::Num3 => "3",
        RecordedKey::Num4 => "4",
        RecordedKey::Num5 => "5",
        RecordedKey::Num6 => "6",
        RecordedKey::Num7 => "7",
        RecordedKey::Num8 => "8",
        RecordedKey::Num9 => "9",
        RecordedKey::Backtick => "`",
        RecordedKey::OpenBracket => "[",
        RecordedKey::CloseBracket => "]",
        RecordedKey::Equals => "=",
        RecordedKey::Plus => "=",
        RecordedKey::Colon => ";",
        RecordedKey::Semicolon => ";",
        RecordedKey::Pipe => "\\",
        RecordedKey::Backslash => "\\",
        RecordedKey::Questionmark => "/",
        RecordedKey::Slash => "/",
        RecordedKey::Exclamationmark => "1",
    }
}

pub const KEY_COMBINATION_NEEDED: &'static str = "请同时按下修饰键和一个普通按键";

pub const SHORTCUT_SAVED_STATUS: &'static str = "快捷键已保存，可以关闭窗口后测试";

pub const SHORTCUT_HINT_STATUS: &'static str = "快捷键冲突时会保留原设置，也可继续从托盘截图";

pub const RECORDING_PROMPT: &'static str = "请按下新的组合键";

pub const EDIT_PROMPT: &'static str = "点击右侧按键即可修改";

pub const SAVE_FAILED_PREFIX: &'static str = "快捷键本次已生效，但无法保存设置：";

/// How the status line of the shortcut window is coloured.
#[derive(Debug, Clone, Copy, PartialEq, Eq, Structural)]
pub enum StatusTone {
    Error,
    Saved,
    Hint,
}

/// The shortcut settings window: whether it is open, the shortcut being edited, the last
/// error, whether the draft was saved, and whether the next key press is being recorded.
pub struct ShortcutSettings {
    pub open: bool,
    pub draft: String,
    pub error: Option<String>,
    pub saved: bool,
    pub recording: bool,
}

/// A digit key is recorded as its own decimal digit, one character long: the key `5` with
/// Ctrl held records `Ctrl+5`, not another digit.
pub proof fn lemma_digit_keys_record_their_digit()
    ensures
        spec_recorded_key_name(RecordedKey::Num0) == seq!['0'],
        spec_recorded_key_name(RecordedKey::Num1) == seq!['1'],
        spec_recorded_key_name(RecordedKey::Num2) == seq!['2'],
        spec_recorded_key_name(RecordedKey::Num3) == seq!['3'],
        spec_recorded_key_name(RecordedKey::Num4) == seq!['4'],
        spec_recorded_key_name(RecordedKey::Num5) == seq!['5'],
        spec_recorded_key_name(RecordedKey::Num6) == seq!['6'],
        spec_recorded_key_name(RecordedKey::Num7) == seq!['7'],
        spec_recorded_key_name(RecordedKey::Num8) == seq!['8'],
        spec_recorded_key_name(RecordedKey::Num9) == seq!['9'],
{
    reveal_strlit("0");
    reveal_strlit("1");
    reveal_strlit("2");
    reveal_strlit("3");
    reveal_strlit("4");
    reveal_strlit("5");
    reveal_strlit("6");
    reveal_strlit("7");
    reveal_strlit("8");
    reveal_strlit("9");
}

/// Shifted punctuation is recorded as the key it shares a key cap with, and punctuation is
/// never recorded as a letter or digit other than `!` on the `1` key.
pub proof fn lemma_shifted_punctuation_records_its_key()
    ensures
        spec_recorded_key_name(RecordedKey::Plus) == spec_recorded_key_name(RecordedKey::Equals),
        spec_recorded_key_name(RecordedKey::Colon) == spec_recorded_key_name(RecordedKey::Semicolon),
        spec_recorded_key_name(RecordedKey::Pipe) == spec_recorded_key_name(RecordedKey::Backslash),
        spec_recorded_key_name(RecordedKey::Questionmark) == spec_recorded_key_name(RecordedKey::Slash),
        spec_recorded_key_name(RecordedKey::Exclamationmark) == spec_recorded_key_name(RecordedKey::Num1),
        spec_recorded_key_name(RecordedKey::Equals) == seq!['='],
        spec_recorded_key_name(RecordedKey::Semicolon) == seq![';'],
        spec_recorded_key_name(RecordedKey::Backslash) == seq!['\\'],
        spec_recorded_key_name(RecordedKey::Slash) == seq!['/'],
        spec_recorded_key_name(RecordedKey::Backtick) == seq!['`'],
        spec_recorded_key_name(RecordedKey::OpenBracket) == seq!['['],
        spec_recorded_key_name(RecordedKey::CloseBracket) == seq![']'],
{
    reveal_strlit("=");
    reveal_strlit(";");
    reveal_strlit("\\");
    reveal_strlit("/");
    reveal_strlit("`");
    reveal_strlit("[");
    reveal_strlit("]");
}

/// Whether the key press with these modifiers and key name gives a valid capture shortcut.
pub open spec fn recordable(mac_cmd: bool, ctrl: bool, alt: bool, shift: bool, key: Seq<char>) -> bool {
    (mac_cmd || ctrl || alt || shift) && spec_capture_shortcut(
        spec_shortcut_text(mac_cmd, ctrl, alt, shift, key),
    ) is Ok
}

/// Whether global capture shortcuts should fire: only while waiting in the tray, with the
/// settings window closed and no pin being saved.
pub open spec fn spec_capture_enabled(lifecycle: AppLifecycle, settings_open: bool, pin_save_pending: bool) -> bool {
    lifecycle == AppLifecycle::TrayIdle && !settings_open && !pin_save_pending
}

pub fn capture_enabled(lifecycle: AppLifecycle, settings_open: bool, pin_save_pending: bool) -> (enabled: bool)
    ensures
        enabled == spec_capture_enabled(lifecycle, settings_open, pin_save_pending),
{
    match lifecycle {
        AppLifecycle::TrayIdle => !settings_open && !pin_save_pending,
        _ => false,
    }
}

/// Whether the settings window closes this frame: on a close request, or on Escape unless
/// Escape ended a recording in this frame.
pub fn settings_should_close(was_recording: bool, close_requested: bool, escape_pressed: bool) -> (close: bool)
    ensures
        close == (close_requested || (!was_recording && escape_pressed)),
{
    close_requested || (!was_recording && escape_pressed)
}

/// The message shown when the new shortcut works but the settings file could not be written.
pub fn save_failure_message(error: &str) -> (message: String)
    ensures
        message@ == SAVE_FAILED_PREFIX@ + error@,
{
    let mut message = SAVE_FAILED_PREFIX.to_owned();
    message.append(error);
    message
}

impl ShortcutSettings {
    /// A closed window with an empty draft.
    pub fn new() -> (s: Self)
        ensures
            !s.open,
            s.draft@ == Seq::<char>::empty(),
            s.error is None,
            !s.saved,
            !s.recording,
    {
        ShortcutSettings { open: false, draft: String::new(), error: None, saved: false, recording: false }
    }

    /// Opens the window on the configured shortcut. Refused unless waiting in the tray with
    /// no pin being saved.
    pub fn open(&mut self, lifecycle: AppLifecycle, pin_save_pending: bool, configured: &str) -> (opened: bool)
        ensures
            opened == (lifecycle == AppLifecycle::TrayIdle && !pin_save_pending),
            opened ==> final(self).open && final(self).draft@ == configured@ && !final(self).saved
                && !final(self).recording && final(self).error == old(self).error,
            !opened ==> *final(self) == *old(self),
    {
        let allowed = match lifecycle {
            AppLifecycle::TrayIdle => !pin_save_pending,
            _ => false,
        };
        if !allowed {
            return false;
        }
        self.open = true;
        self.draft = configured.to_owned();
        self.saved = false;
        self.recording = false;
        true
    }

    /// The shortcut card was clicked: the next key press is recorded.
    pub fn start_recording(&mut self)
        ensures
            final(self).recording,
            final(self).error is None,
            !final(self).saved,
            final(self).open == old(self).open,
            final(self).draft == old(self).draft,
    {
        self.recording = true;
        self.error = None;
        self.saved = false;
    }

    /// A key was pressed with the given modifiers while the window has focus. Outside
    /// recording nothing happens; Escape ends the recording; a valid combination becomes the
    /// draft; anything else leaves the draft and asks for a modifier and a key.
    pub fn record_key(&mut self, escape: bool, mac_cmd: bool, ctrl: bool, alt: bool, shift: bool, key: &str)
        ensures
            !old(self).recording ==> *final(self) == *old(self),
            final(self).open == old(self).open,
            old(self).recording && escape ==> !final(self).recording && final(self).error is None
                && final(self).draft == old(self).draft && final(self).saved == old(self).saved,
            old(self).recording && !escape && recordable(mac_cmd, ctrl, alt, shift, key@) ==> {
                &&& final(self).draft@ == spec_shortcut_text(mac_cmd, ctrl, alt, shift, key@)
                &&& !final(self).recording
                &&& !final(self).saved
                &&& final(self).error is None
            },
            old(self).recording && !escape && !recordable(mac_cmd, ctrl, alt, shift, key@) ==> {
                &&& final(self).error matches Some(e) && e@ == KEY_COMBINATION_NEEDED@
                &&& final(self).recording
                &&& final(self).draft == old(self).draft
                &&& final(self).saved == old(self).saved
            },
    {
        if !self.recording {
            return;
        }
        if escape {
            self.recording = false;
            self.error = None;
            return;
        }
        match shortcut_from_key_name(mac_cmd, ctrl, alt, shift, key) {
            Some(shortcut) => {
                self.draft = shortcut;
                self.recording = false;
                self.saved = false;
                self.error = None;
            },
            None => {
                self.error = Some(KEY_COMBINATION_NEEDED.to_owned());
            },
        }
    }

    /// The restore button: the platform's default shortcut becomes the draft.
    pub fn restore_default(&mut self, is_macos: bool)
        ensures
            final(self).draft@ == (if is_macos { "Command+Shift+A"@ } else { "Ctrl+Shift+A"@ }),
            !final(self).recording,
            !final(self).saved,
            final(self).error is None,
            final(self).open == old(self).open,
    {
        self.draft = default_capture_shortcut_for(is_macos);
        self.recording = false;
        self.saved = false;
        self.error = None;
    }

    /// The save button is enabled only when no key press is being recorded.
    pub fn can_apply(&self) -> (b: bool)
        ensures
            b == !self.recording,
    {
        !self.recording
    }

    /// The draft in canonical form, ready to register, or the message to show.
    pub fn shortcut_to_apply(&self) -> (r: Result<String, String>)
        ensures
            match r {
                Ok(s) => spec_capture_shortcut(self.draft@) matches Ok(p) && p.2 == s@,
                Err(m) => spec_capture_shortcut(self.draft@) == Err::<(u32, bool, Seq<char>, HotKey), Seq<char>>(m@),
            },
    {
        normalize_capture_shortcut(self.draft.as_str())
    }

    /// The shortcut took effect: the draft shows it in the canonical form it was registered in.
    pub fn record_applied(&mut self, shortcut: String)
        ensures
            final(self).draft == shortcut,
            final(self).open == old(self).open,
            final(self).recording == old(self).recording,
            final(self).saved == old(self).saved,
            final(self).error == old(self).error,
    {
        self.draft = shortcut;
    }

    /// Records how saving the shortcut went.
    pub fn finish_apply(&mut self, outcome: Result<(), String>)
        ensures
            final(self).open == old(self).open,
            final(self).draft == old(self).draft,
            final(self).recording == old(self).recording,
            match outcome {
                Ok(()) => final(self).saved && final(self).error is None,
                Err(e) => !final(self).saved && final(self).error == Some(e),
            },
    {
        match outcome {
            Ok(()) => {
                self.saved = true;
                self.error = None;
            },
            Err(error) => {
                self.error = Some(error);
                self.saved = false;
            },
        }
    }

    /// Closes the window; a recording in progress ends.
    pub fn close(&mut self)
        ensures
            !final(self).open,
            !final(self).recording,
            final(self).draft == old(self).draft,
            final(self).error == old(self).error,
            final(self).saved == old(self).saved,
    {
        self.open = false;
        self.recording = false;
    }

    /// The status line: the error if any, else whether the shortcut was saved, else a hint.
    pub fn status(&self) -> (line: (String, StatusTone))
        ensures
            match self.error {
                Some(e) => line.0@ == e@ && line.1 == StatusTone::Error,
                None => if self.saved {
                    line.0@ == SHORTCUT_SAVED_STATUS@ && line.1 == StatusTone::Saved
                } else {
                    line.0@ == SHORTCUT_HINT_STATUS@ && line.1 == StatusTone::Hint
                },
            },
    {
        match &self.error {
            Some(error) => (error.clone(), StatusTone::Error),
            None => if self.saved {
                (SHORTCUT_SAVED_STATUS.to_owned(), StatusTone::Saved)
            } else {
                (SHORTCUT_HINT_STATUS.to_owned(), StatusTone::Hint)
            },
        }
    }

    /// The prompt under the shortcut's title.
    pub fn prompt(&self) -> (text: &'static str)
        ensures
            text@ == (if self.recording { RECORDING_PROMPT@ } else { EDIT_PROMPT@ }),
    {
        if self.recording {
            RECORDING_PROMPT
        } else {
            EDIT_PROMPT
        }
    }
}

impl Default for ShortcutSettings {
    fn default() -> (s: Self)
        ensures
            !s.open,
            s.draft@ == Seq::<char>::empty(),
            s.error is None,
            !s.saved,
            !s.recording,
    {
        ShortcutSettings::new()
    }
}

} // verus!
