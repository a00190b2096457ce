use global_hotkey::hotkey::HotKey;
use vstd::prelude::*;
use vstd::string::*;

use crate::text::{trim_text, trimmed};

verus! {

#[verifier::external_type_specification]
#[verifier::external_body]
pub struct ExHotKey(HotKey);

/// What `HotKey::from_str` makes of `text`: the key's `id`, whether it has modifiers, the
/// text that `Display` writes for it, and the parsed hotkey itself; `None` when the text is
/// no valid hotkey. It is fixed for each compiled program: the `CommandOrControl` aliases
/// stand for Command on macOS and for Control elsewhere.
pub uninterp spec fn parsed_hotkey(text: Seq<char>) -> Option<(u32, bool, Seq<char>, HotKey)>;

/// A hotkey as the logic reads it. Two hotkeys are the same exactly when their ids are: the
/// id packs the modifiers and the key.
pub struct ParsedHotKey {
    pub hotkey: HotKey,
    pub id: u32,
    pub has_modifiers: bool,
    pub text: String,
}

pub open spec fn parsed_view(p: ParsedHotKey) -> (u32, bool, Seq<char>, HotKey) {
    (p.id, p.has_modifiers, p.text@, p.hotkey)
}

/// Calls `HotKey::from_str` (global-hotkey) on `text` and keeps the parsed key with its `id`
/// field, whether its `mods` are non-empty, and its `Display` text. The contract claims only
/// that the outcome is the one that `parsed_hotkey` names for `text`.
#[verifier::external_body]
fn parse_hotkey(text: &str) -> (r: Option<ParsedHotKey>)
    ensures
        match r {
            Some(p) => parsed_hotkey(text@) == Some(parsed_view(p)),
            None => parsed_hotkey(text@) is None,
        },
{
    text.parse::<HotKey>().ok().map(
        |hotkey: HotKey|
            ParsedHotKey {
                hotkey,
                id: hotkey.id,
                has_modifiers: !hotkey.mods.is_empty(),
                text: hotkey.to_string(),
            },
    )
}

pub const INVALID_SHORTCUT_MESSAGE: &'static str = "快捷键格式无效，请使用修饰键和一个按键，例如 Ctrl+Shift+A 或 Command+Shift+A";

pub const MISSING_MODIFIER_MESSAGE: &'static str = "快捷键必须包含 Ctrl、Command、Alt 或 Shift 修饰键";

/// The default capture shortcut of the platform.
pub fn default_capture_shortcut_for(is_macos: bool) -> (s: String)
    ensures
        s@ == (if is_macos { "Command+Shift+A"@ } else { "Ctrl+Shift+A"@ }),
{
    if is_macos {
        "Command+Shift+A".to_owned()
    } else {
        "Ctrl+Shift+A".to_owned()
    }
}

/// The outcome of reading a capture shortcut: the parsed key, or the message to show.
pub open spec fn spec_capture_shortcut(value: Seq<char>) -> Result<(u32, bool, Seq<char>, HotKey), Seq<char>> {
    match parsed_hotkey(trimmed(value)) {
        None => Err(INVALID_SHORTCUT_MESSAGE@),
        Some(p) => if p.1 {
            Ok(p)
        } else {
            Err(MISSING_MODIFIER_MESSAGE@)
        },
    }
}

/// Reads a capture shortcut: surrounding white space is ignored, and a key without a
/// modifier is refused.
pub fn parse_capture_shortcut(value: &str) -> (r: Result<ParsedHotKey, String>)
    ensures
        match r {
            Ok(p) => spec_capture_shortcut(value@) == Ok::<(u32, bool, Seq<char>, HotKey), Seq<char>>(parsed_view(p)),
            Err(m) => spec_capture_shortcut(value@) == Err::<(u32, bool, Seq<char>, HotKey), Seq<char>>(m@),
        },
{
    match parse_hotkey(trim_text(value)) {
        None => Err(INVALID_SHORTCUT_MESSAGE.to_owned()),
        Some(p) => if p.has_modifiers {
            Ok(p)
        } else {
            Err(MISSING_MODIFIER_MESSAGE.to_owned())
        },
    }
}

/// The canonical text of a capture shortcut, or the message to show.
pub fn normalize_capture_shortcut(value: &str) -> (r: Result<String, String>)
    ensures
        match r {
            Ok(s) => spec_capture_shortcut(value@) matches Ok(p) && p.2 == s@,
            Err(m) => spec_capture_shortcut(value@) == Err::<(u32, bool, Seq<char>, HotKey), Seq<char>>(m@),
        },
{
    match parse_capture_shortcut(value) {
        Ok(p) => Ok(p.text),
        Err(m) => Err(m),
    }
}

/// Whether a hotkey event reports a press or a release.
#[derive(Debug, Clone, Copy, PartialEq, Eq, Structural)]
pub enum KeyState {
    Pressed,
    Released,
}

/// A global hotkey event: the id of the hotkey and whether it was pressed or released.
#[derive(Debug, Clone, Copy, PartialEq, Eq, Structural)]
pub struct KeyEvent {
    pub id: u32,
    pub state: KeyState,
}

/// Decides which global hotkey events start a capture: only presses of the active shortcut,
/// once per press, while capture is enabled.
#[derive(Debug, Clone, Copy, PartialEq, Eq, Structural)]
pub struct EventGate {
    pub active_id: Option<u32>,
    pub pressed: bool,
    pub capture_enabled: bool,
}

/// Next gate state on `event`, and whether it starts a capture.
pub open spec fn gate_step(g: EventGate, event: KeyEvent) -> (EventGate, bool) {
    if g.active_id != Some(event.id) {
        (g, false)
    } else {
        match event.state {
            KeyState::Pressed => (EventGate { pressed: true, ..g }, g.capture_enabled && !g.pressed),
            KeyState::Released => (EventGate { pressed: false, ..g }, false),
        }
    }
}

impl EventGate {
    pub fn new() -> (g: Self)
        ensures
            g == (EventGate { active_id: None, pressed: false, capture_enabled: false }),
    {
        EventGate { active_id: None, pressed: false, capture_enabled: false }
    }

    /// Makes `id` the active shortcut; a press of the previous shortcut is forgotten.
    pub fn activate(&mut self, id: u32)
        ensures
            *final(self) == (EventGate { active_id: Some(id), pressed: false, ..*old(self) }),
    {
        self.active_id = Some(id);
        self.pressed = false;
    }

    /// Whether `event` starts a capture.
    pub fn accepts(&mut self, event: KeyEvent) -> (accepted: bool)
        ensures
            (*final(self), accepted) == gate_step(*old(self), event),
    {
        match self.active_id {
            Some(id) => if id != event.id {
                return false;
            },
            None => return false,
        }
        match event.state {
            KeyState::Pressed => {
                let was_pressed = self.pressed;
                self.pressed = true;
                self.capture_enabled && !was_pressed
            },
            KeyState::Released => {
                self.pressed = false;
                false
            },
        }
    }

    /// Enables or disables capture; returns whether the mode changed, in which case waiting
    /// capture requests from the previous mode are to be dropped. The key state is kept.
    pub fn set_capture_enabled(&mut self, enabled: bool) -> (changed: bool)
        ensures
            changed == (old(self).capture_enabled != enabled),
            *final(self) == (EventGate { capture_enabled: enabled, ..*old(self) }),
    {
        if self.capture_enabled != enabled {
            self.capture_enabled = enabled;
            true
        } else {
            false
        }
    }
}

impl Default for EventGate {
    fn default() -> (g: Self)
        ensures
            g == (EventGate { active_id: None, pressed: false, capture_enabled: false }),
    {
        EventGate::new()
    }
}

/// Capture requests made by hotkey events: the event gate, and whether a request is waiting
/// for the capture window. At most one request waits; later ones are dropped.
#[derive(Debug, Clone, Copy, PartialEq, Eq, Structural)]
pub struct TriggerState {
    pub gate: EventGate,
    pub waiting: bool,
}

/// The state after `event` arrives, and whether it asked for a capture.
pub open spec fn dispatched(t: TriggerState, event: KeyEvent) -> (TriggerState, bool) {
    let (gate, accepted) = gate_step(t.gate, event);
    (TriggerState { gate, waiting: t.waiting || accepted }, accepted)
}

/// The state after the capture mode is set: a change of mode drops the waiting request.
pub open spec fn mode_set(t: TriggerState, enabled: bool) -> TriggerState {
    if t.gate.capture_enabled != enabled {
        TriggerState { gate: EventGate { capture_enabled: enabled, ..t.gate }, waiting: false }
    } else {
        t
    }
}

impl TriggerState {
    /// Capture disabled, no shortcut active, nothing waiting.
    pub fn new() -> (t: Self)
        ensures
            t.gate == (EventGate { active_id: None, pressed: false, capture_enabled: false }),
            !t.waiting,
    {
        TriggerState { gate: EventGate::new(), waiting: false }
    }

    /// Handles one hotkey event; whether it asked for a capture.
    pub fn dispatch(&mut self, event: KeyEvent) -> (accepted: bool)
        ensures
            (*final(self), accepted) == dispatched(*old(self), event),
    {
        let accepted = self.gate.accepts(event);
        if accepted {
            self.waiting = true;
        }
        accepted
    }

    /// Switches capture on or off; requests from the previous mode are dropped, the key
    /// state is kept.
    pub fn set_capture_enabled(&mut self, enabled: bool)
        ensures
            *final(self) == mode_set(*old(self), enabled),
    {
        if self.gate.set_capture_enabled(enabled) {
            self.waiting = false;
        }
    }

    /// Makes `id` the active shortcut; a waiting request for the previous one is dropped.
    pub fn activate(&mut self, id: u32)
        ensures
            final(self).gate == (EventGate { active_id: Some(id), pressed: false, ..old(self).gate }),
            !final(self).waiting,
    {
        self.gate.activate(id);
        self.waiting = false;
    }

    /// Picks up the waiting capture request, if any.
    pub fn take_triggered(&mut self) -> (triggered: bool)
        ensures
            triggered == old(self).waiting,
            !final(self).waiting,
            final(self).gate == old(self).gate,
    {
        let triggered = self.waiting;
        self.waiting = false;
        triggered
    }
}

/// Setting the capture mode it already has keeps a waiting request; switching the mode off
/// and on again drops it.
pub proof fn lemma_mode_changes_drop_waiting_request(t: TriggerState, enabled: bool)
    ensures
        t.gate.capture_enabled == enabled ==> mode_set(t, enabled) == t,
        !mode_set(mode_set(t, !t.gate.capture_enabled), t.gate.capture_enabled).waiting,
{
}

/// While capture is disabled (during a capture, a save dialog or the settings window), hotkey
/// events queue no capture request.
pub proof fn lemma_disabled_capture_queues_nothing(t: TriggerState, event: KeyEvent)
    requires
        !t.gate.capture_enabled,
    ensures
        !dispatched(t, event).1,
        dispatched(t, event).0.waiting == t.waiting,
        !dispatched(t, event).0.gate.capture_enabled,
{
}

/// A held shortcut starts one capture: a second press before a release is refused.
pub proof fn lemma_press_triggers_once_until_release(g: EventGate, event: KeyEvent)
    requires
        event.state == KeyState::Pressed,
        gate_step(g, event).1,
    ensures
        !gate_step(gate_step(g, event).0, event).1,
        gate_step(
            gate_step(gate_step(g, event).0, KeyEvent { state: KeyState::Released, ..event }).0,
            event,
        ).1,
{
}

/// Events of any other hotkey than the active one never start a capture.
pub proof fn lemma_inactive_events_are_ignored(g: EventGate, event: KeyEvent)
    requires
        g.active_id != Some(event.id),
    ensures
        gate_step(g, event) == (g, false),
{
}

/// A release of the active shortcut always leaves it not held, whether capture is enabled or
/// not, so the next press of it while capture is enabled starts a capture.
pub proof fn lemma_release_clears_the_held_key(g: EventGate, id: u32)
    requires
        g.active_id == Some(id),
    ensures
        !gate_step(g, KeyEvent { id, state: KeyState::Released }).0.pressed,
        !gate_step(g, KeyEvent { id, state: KeyState::Released }).1,
        gate_step(
            EventGate { capture_enabled: true, ..gate_step(g, KeyEvent { id, state: KeyState::Released }).0 },
            KeyEvent { id, state: KeyState::Pressed },
        ).1,
{
}

/// A press of the active shortcut starts a capture exactly when capture is enabled and the
/// key was not already held, and it leaves the key held.
pub proof fn lemma_press_of_active_key(g: EventGate, id: u32)
    requires
        g.active_id == Some(id),
    ensures
        gate_step(g, KeyEvent { id, state: KeyState::Pressed }).1 == (g.capture_enabled && !g.pressed),
        gate_step(g, KeyEvent { id, state: KeyState::Pressed }).0.pressed,
{
}

/// One capture per press: press, capture turned off while it runs, release, capture turned
/// on again, press — the second press starts a capture too.
pub proof fn lemma_each_press_after_a_capture_starts_one(g: EventGate, id: u32)
    requires
        g.active_id == Some(id),
        g.capture_enabled,
        !g.pressed,
    ensures
        ({
            let (pressed, first) = gate_step(g, KeyEvent { id, state: KeyState::Pressed });
            let capturing = EventGate { capture_enabled: false, ..pressed };
            let (released, _) = gate_step(capturing, KeyEvent { id, state: KeyState::Released });
            let back = EventGate { capture_enabled: true, ..released };
            first && gate_step(back, KeyEvent { id, state: KeyState::Pressed }).1
        }),
{
}

/// While capture is disabled, no event starts a capture.
pub proof fn lemma_disabled_gate_emits_nothing(g: EventGate, event: KeyEvent)
    requires
        !g.capture_enabled,
    ensures
        !gate_step(g, event).1,
        !gate_step(g, event).0.capture_enabled,
{
}


/// A hotkey that was handed to the operating system, with its id.
#[derive(Clone, Copy)]
pub struct RegisteredHotKey {
    pub hotkey: HotKey,
    pub id: u32,
}

/// The active capture shortcut and every hotkey this application still holds.
pub struct Registration {
    pub active: Option<RegisteredHotKey>,
    pub owned: Vec<RegisteredHotKey>,
}

pub open spec fn key_id(key: Option<RegisteredHotKey>) -> Option<u32> {
    match key {
        Some(k) => Some(k.id),
        None => None,
    }
}

/// `keys` without any entry whose id is `id`, the others in their order.
pub open spec fn keys_without(keys: Seq<RegisteredHotKey>, id: u32) -> Seq<RegisteredHotKey>
    decreases keys.len(),
{
    if keys.len() == 0 {
        Seq::empty()
    } else if keys.last().id == id {
        keys_without(keys.drop_last(), id)
    } else {
        keys_without(keys.drop_last(), id).push(keys.last())
    }
}

pub const REGISTER_FAILED_PREFIX: &'static str = "快捷键注册失败，可能已被其他应用占用：";

pub const RELEASE_FAILED_PREFIX: &'static str = "原快捷键释放失败，未更改设置：";

impl Registration {
    pub fn new() -> (r: Self)
        ensures
            r.active is None,
            r.owned@.len() == 0,
    {
        Registration { active: None, owned: Vec::new() }
    }

    /// Forgets every owned hotkey with this id.
    fn remove_owned(&mut self, id: u32)
        ensures
            final(self).active == old(self).active,
            final(self).owned@ == keys_without(old(self).owned@, id),
    {
        let mut kept: Vec<RegisteredHotKey> = Vec::new();
        let mut i: usize = 0;
        while i < self.owned.len()
            invariant
                i <= self.owned@.len(),
                kept@ == keys_without(self.owned@.take(i as int), id),
            decreases self.owned@.len() - i,
        {
            let key = self.owned[i];
            let ghost taken = self.owned@.take(i as int + 1);
            assert(taken.drop_last() =~= self.owned@.take(i as int));
            assert(taken.last() == key);
            if key.id != id {
                kept.push(key);
            }
            i = i + 1;
        }
        assert(self.owned@.take(self.owned@.len() as int) =~= self.owned@);
        self.owned = kept;
    }

    /// The switch to the hotkey `parsed`: finished at once when it is the active one, else
    /// starting by registering exactly that hotkey.
    pub fn plan_switch(&self, parsed: ParsedHotKey) -> (switch: ShortcutSwitch)
        ensures
            key_id(self.active) == Some(parsed.id) ==> switch matches ShortcutSwitch::Finished(Ok(_)),
            key_id(self.active) != Some(parsed.id) ==> switch == (ShortcutSwitch::Registering {
                next: RegisteredHotKey { hotkey: parsed.hotkey, id: parsed.id },
            }),
    {
        let next = RegisteredHotKey { hotkey: parsed.hotkey, id: parsed.id };
        if let Some(active) = self.active {
            if active.id == next.id {
                return ShortcutSwitch::Finished(Ok(()));
            }
        }
        ShortcutSwitch::Registering { next }
    }

    /// Starts making `value` the capture shortcut. An invalid shortcut, or the one already
    /// active, needs no call to the operating system: the switch is finished at once.
    pub fn begin_switch(&self, value: &str) -> (switch: ShortcutSwitch)
        ensures
            match spec_capture_shortcut(value@) {
                Err(message) => switch matches ShortcutSwitch::Finished(Err(m)) && m@ == message,
                Ok(p) => if key_id(self.active) == Some(p.0) {
                    switch matches ShortcutSwitch::Finished(Ok(_))
                } else {
                    switch matches ShortcutSwitch::Registering { next } && next.id == p.0
                        && next.hotkey == p.3
                },
            },
    {
        match parse_capture_shortcut(value) {
            Ok(parsed) => self.plan_switch(parsed),
            Err(message) => ShortcutSwitch::Finished(Err(message)),
        }
    }

    /// Takes the operating system's answer to the call that `switch` waited for. The new
    /// hotkey is registered before the previous one is released; when registering fails
    /// nothing is released, and when releasing the previous one fails the new one is
    /// released again. Either way the previous shortcut stays active.
    pub fn advance(&mut self, switch: ShortcutSwitch, outcome: Result<(), String>) -> (after: ShortcutSwitch)
        ensures
            match switch {
                ShortcutSwitch::Registering { next } => match outcome {
                    Err(e) => {
                        &&& after matches ShortcutSwitch::Finished(Err(m)) && m@ == REGISTER_FAILED_PREFIX@ + e@
                        &&& final(self).active == old(self).active
                        &&& final(self).owned@ == old(self).owned@
                    },
                    Ok(()) => {
                        &&& final(self).owned@ == old(self).owned@.push(next)
                        &&& match old(self).active {
                            None => final(self).active == Some(next) && after matches ShortcutSwitch::Finished(Ok(_)),
                            Some(previous) => final(self).active == old(self).active
                                && after == (ShortcutSwitch::Releasing { next, previous }),
                        }
                    },
                },
                ShortcutSwitch::Releasing { next, previous } => match outcome {
                    Ok(()) => {
                        &&& after matches ShortcutSwitch::Finished(Ok(_))
                        &&& final(self).active == Some(next)
                        &&& final(self).owned@ == keys_without(old(self).owned@, previous.id)
                    },
                    Err(e) => {
                        &&& after matches ShortcutSwitch::RollingBack { next: n, error } && n == next && error@ == e@
                        &&& final(self).active == old(self).active
                        &&& final(self).owned@ == old(self).owned@
                    },
                },
                ShortcutSwitch::RollingBack { next, error } => {
                    &&& after matches ShortcutSwitch::Finished(Err(m)) && m@ == RELEASE_FAILED_PREFIX@ + error@
                    &&& final(self).active == old(self).active
                    &&& final(self).owned@ == if outcome is Ok {
                        keys_without(old(self).owned@, next.id)
                    } else {
                        old(self).owned@
                    }
                },
                ShortcutSwitch::Finished(r) => {
                    &&& after == ShortcutSwitch::Finished(r)
                    &&& final(self).active == old(self).active
                    &&& final(self).owned@ == old(self).owned@
                },
            },
    {
        match switch {
            ShortcutSwitch::Registering { next } => match outcome {
                Err(error) => {
                    let mut message = REGISTER_FAILED_PREFIX.to_owned();
                    message.append(error.as_str());
                    ShortcutSwitch::Finished(Err(message))
                },
                Ok(()) => {
                    self.owned.push(next);
                    match self.active {
                        None => {
                            self.active = Some(next);
                            ShortcutSwitch::Finished(Ok(()))
                        },
                        Some(previous) => ShortcutSwitch::Releasing { next, previous },
                    }
                },
            },
            ShortcutSwitch::Releasing { next, previous } => match outcome {
                Ok(()) => {
                    self.remove_owned(previous.id);
                    self.active = Some(next);
                    ShortcutSwitch::Finished(Ok(()))
                },
                Err(error) => ShortcutSwitch::RollingBack { next, error },
            },
            ShortcutSwitch::RollingBack { next, error } => {
                if outcome.is_ok() {
                    self.remove_owned(next.id);
                }
                let mut message = RELEASE_FAILED_PREFIX.to_owned();
                message.append(error.as_str());
                ShortcutSwitch::Finished(Err(message))
            },
            ShortcutSwitch::Finished(r) => ShortcutSwitch::Finished(r),
        }
    }
}

/// A call to the operating system's hotkey registry.
#[derive(Clone, Copy)]
pub enum RegistrarCall {
    Register(HotKey),
    Unregister(HotKey),
}

/// A change of the capture shortcut in progress, or how it ended.
pub enum ShortcutSwitch {
    /// The new hotkey is to be registered.
    Registering { next: RegisteredHotKey },
    /// The new hotkey is registered; the previous one is to be released.
    Releasing { next: RegisteredHotKey, previous: RegisteredHotKey },
    /// Releasing the previous hotkey failed with `error`; the new one is to be released again.
    RollingBack { next: RegisteredHotKey, error: String },
    /// The change is over, with this result.
    Finished(Result<(), String>),
}

/// The registrar call that a switch waits for; none once it is finished.
pub open spec fn spec_pending_call(switch: ShortcutSwitch) -> Option<RegistrarCall> {
    match switch {
        ShortcutSwitch::Registering { next } => Some(RegistrarCall::Register(next.hotkey)),
        ShortcutSwitch::Releasing { previous, .. } => Some(RegistrarCall::Unregister(previous.hotkey)),
        ShortcutSwitch::RollingBack { next, .. } => Some(RegistrarCall::Unregister(next.hotkey)),
        ShortcutSwitch::Finished(_) => None,
    }
}

impl ShortcutSwitch {
    pub fn pending_call(&self) -> (call: Option<RegistrarCall>)
        ensures
            call == spec_pending_call(*self),
    {
        match self {
            ShortcutSwitch::Registering { next } => Some(RegistrarCall::Register(next.hotkey)),
            ShortcutSwitch::Releasing { previous, .. } => Some(RegistrarCall::Unregister(previous.hotkey)),
            ShortcutSwitch::RollingBack { next, .. } => Some(RegistrarCall::Unregister(next.hotkey)),
            ShortcutSwitch::Finished(_) => None,
        }
    }

    /// The result of a finished switch.
    pub fn into_result(self) -> (r: Option<Result<(), String>>)
        ensures
            match self {
                ShortcutSwitch::Finished(x) => r == Some(x),
                _ => r is None,
            },
    {
        match self {
            ShortcutSwitch::Finished(x) => Some(x),
            _ => None,
        }
    }
}

} // verus!
