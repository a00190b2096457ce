use std::cell::{Cell, RefCell};
use std::collections::HashSet;

use global_hotkey::hotkey::{Code, HotKey, Modifiers};
use legend_shot::hotkey::{
    default_capture_shortcut_for, normalize_capture_shortcut, parse_capture_shortcut, EventGate,
    KeyEvent, KeyState, Registration, RegistrarCall, TriggerState,
};

#[derive(Default)]
struct NativeRegistrationStub {
    registered: RefCell<HashSet<HotKey>>,
    conflict: Cell<Option<HotKey>>,
    unregister_failure: Cell<Option<HotKey>>,
    operations: RefCell<Vec<(&'static str, HotKey)>>,
}

impl NativeRegistrationStub {
    fn register(&self, hotkey: HotKey) -> Result<(), String> {
        self.operations.borrow_mut().push(("register", hotkey));
        if self.conflict.get() == Some(hotkey) || !self.registered.borrow_mut().insert(hotkey) {
            return Err("conflict".into());
        }
        Ok(())
    }

    fn unregister(&self, hotkey: HotKey) -> Result<(), String> {
        self.operations.borrow_mut().push(("unregister", hotkey));
        if self.unregister_failure.get() == Some(hotkey) {
            return Err("unregister failed".into());
        }
        self.registered.borrow_mut().remove(&hotkey);
        Ok(())
    }
}

/// Drives a shortcut switch to its end, making each call it asks for on `native`.
fn set_shortcut(
    registration: &mut Registration,
    value: &str,
    native: &NativeRegistrationStub,
) -> Result<(), String> {
    let mut switch = registration.begin_switch(value);
    while let Some(call) = switch.pending_call() {
        let outcome = match call {
            RegistrarCall::Register(hotkey) => native.register(hotkey),
            RegistrarCall::Unregister(hotkey) => native.unregister(hotkey),
        };
        switch = registration.advance(switch, outcome);
    }
    switch.into_result().expect("a switch without a pending call has finished")
}

fn active(registration: &Registration) -> Option<HotKey> {
    registration.active.map(|key| key.hotkey)
}

#[test]
#[allow(deprecated)]
fn parses_modifier_aliases_and_whitespace() {
    let parsed = parse_capture_shortcut(" Ctrl + Shift + a ").unwrap();
    assert_eq!(parsed.hotkey.key, Code::KeyA);
    assert_eq!(parsed.hotkey.mods, Modifiers::CONTROL | Modifiers::SHIFT);
    assert_eq!(
        parse_capture_shortcut("Command+Shift+A").unwrap().hotkey,
        HotKey::new(Some(Modifiers::SUPER | Modifiers::SHIFT), Code::KeyA)
    );
}

#[test]
fn rejects_bare_keys_empty_input_and_malformed_combinations() {
    for input in ["", " ", "A", "F8", "Ctrl+", "Ctrl+Shift", "Ctrl+A+B", "Ctrl++A", "Ctrl+Unknown"] {
        assert!(parse_capture_shortcut(input).is_err(), "accepted {input:?}");
    }
}

#[test]
fn bare_key_is_refused_with_modifier_message() {
    assert_eq!(
        parse_capture_shortcut("F8").err().unwrap(),
        "快捷键必须包含 Ctrl、Command、Alt 或 Shift 修饰键"
    );
    assert_eq!(
        parse_capture_shortcut("Ctrl+").err().unwrap(),
        "快捷键格式无效，请使用修饰键和一个按键，例如 Ctrl+Shift+A 或 Command+Shift+A"
    );
}

#[test]
fn defaults_and_normalized_text_are_valid_shortcuts() {
    for is_macos in [true, false] {
        let default = default_capture_shortcut_for(is_macos);
        assert!(normalize_capture_shortcut(&default).is_ok());
    }
    assert_eq!(default_capture_shortcut_for(true), "Command+Shift+A");
    assert_eq!(default_capture_shortcut_for(false), "Ctrl+Shift+A");
    let normalized = normalize_capture_shortcut(" ctrl+alt+x ").unwrap();
    assert_eq!(normalize_capture_shortcut(&normalized), Ok(normalized.clone()));
}

#[test]
fn conflict_keeps_previous_shortcut_registered_and_active() {
    let native = NativeRegistrationStub::default();
    let mut registration = Registration::new();
    let previous = HotKey::new(Some(Modifiers::CONTROL), Code::KeyA);
    let next = HotKey::new(Some(Modifiers::CONTROL), Code::KeyB);
    set_shortcut(&mut registration, "Ctrl+A", &native).unwrap();
    native.conflict.set(Some(next));

    assert!(set_shortcut(&mut registration, "Ctrl+B", &native).is_err());
    assert_eq!(active(&registration), Some(previous));
    assert_eq!(*native.registered.borrow(), HashSet::from([previous]));
}

#[test]
fn invalid_shortcut_does_not_touch_previous_registration() {
    let native = NativeRegistrationStub::default();
    let mut registration = Registration::new();
    set_shortcut(&mut registration, "Ctrl+A", &native).unwrap();
    native.operations.borrow_mut().clear();

    assert!(set_shortcut(&mut registration, "B", &native).is_err());
    assert_eq!(active(&registration).unwrap().key, Code::KeyA);
    assert!(native.operations.borrow().is_empty());
}

#[test]
fn switch_registers_new_before_releasing_previous_shortcut() {
    let native = NativeRegistrationStub::default();
    let mut registration = Registration::new();
    let previous = HotKey::new(Some(Modifiers::CONTROL), Code::KeyA);
    let next = HotKey::new(Some(Modifiers::CONTROL), Code::KeyB);
    set_shortcut(&mut registration, "Ctrl+A", &native).unwrap();
    native.operations.borrow_mut().clear();

    set_shortcut(&mut registration, "Ctrl+B", &native).unwrap();
    assert_eq!(active(&registration), Some(next));
    assert_eq!(*native.registered.borrow(), HashSet::from([next]));
    assert_eq!(*native.operations.borrow(), vec![("register", next), ("unregister", previous)]);
    assert_eq!(registration.owned.len(), 1);
}

#[test]
fn equivalent_shortcut_does_not_register_twice() {
    let native = NativeRegistrationStub::default();
    let mut registration = Registration::new();
    set_shortcut(&mut registration, "Ctrl+A", &native).unwrap();
    native.operations.borrow_mut().clear();

    set_shortcut(&mut registration, "Control+KeyA", &native).unwrap();
    assert_eq!(active(&registration).unwrap().key, Code::KeyA);
    assert!(native.operations.borrow().is_empty());
}

#[test]
fn release_failure_rolls_back_new_registration() {
    let native = NativeRegistrationStub::default();
    let mut registration = Registration::new();
    let previous = HotKey::new(Some(Modifiers::CONTROL), Code::KeyA);
    set_shortcut(&mut registration, "Ctrl+A", &native).unwrap();
    native.unregister_failure.set(Some(previous));

    let error = set_shortcut(&mut registration, "Ctrl+B", &native).unwrap_err();
    assert_eq!(active(&registration), Some(previous));
    assert_eq!(*native.registered.borrow(), HashSet::from([previous]));
    assert_eq!(error, "原快捷键释放失败，未更改设置：unregister failed");
    assert_eq!(registration.owned.len(), 1);
}

#[test]
fn registration_conflict_reports_the_native_error() {
    let native = NativeRegistrationStub::default();
    let mut registration = Registration::new();
    native.conflict.set(Some(HotKey::new(Some(Modifiers::CONTROL), Code::KeyA)));
    let error = set_shortcut(&mut registration, "Ctrl+A", &native).unwrap_err();
    assert_eq!(error, "快捷键注册失败，可能已被其他应用占用：conflict");
    assert!(registration.active.is_none());
    assert!(registration.owned.is_empty());
}

fn event(id: u32, state: KeyState) -> KeyEvent {
    KeyEvent { id, state }
}

#[test]
fn only_active_press_events_trigger_once_until_release() {
    let mut gate = EventGate { capture_enabled: true, ..EventGate::default() };
    assert!(!gate.accepts(event(10, KeyState::Pressed)));
    gate.activate(10);
    assert!(!gate.accepts(event(11, KeyState::Pressed)));
    assert!(!gate.accepts(event(10, KeyState::Released)));
    assert!(gate.accepts(event(10, KeyState::Pressed)));
    assert!(!gate.accepts(event(10, KeyState::Pressed)));
    assert!(!gate.accepts(event(11, KeyState::Released)));
    assert!(!gate.accepts(event(10, KeyState::Pressed)));
    assert!(!gate.accepts(event(10, KeyState::Released)));
    assert!(gate.accepts(event(10, KeyState::Pressed)));
}

#[test]
fn changing_shortcut_discards_previous_pressed_state() {
    let mut gate = EventGate { capture_enabled: true, ..EventGate::default() };
    gate.activate(10);
    assert!(gate.accepts(event(10, KeyState::Pressed)));
    gate.activate(11);
    assert!(!gate.accepts(event(10, KeyState::Pressed)));
    assert!(gate.accepts(event(11, KeyState::Pressed)));
}

#[test]
fn enabling_capture_while_key_is_held_requires_a_new_press() {
    let mut target = trigger_target();
    target.dispatch(event(10, KeyState::Pressed));
    target.set_capture_enabled(true);
    target.dispatch(event(10, KeyState::Pressed));
    assert!(!target.take_triggered());

    target.dispatch(event(10, KeyState::Released));
    target.dispatch(event(10, KeyState::Pressed));
    assert!(target.take_triggered());
}

fn trigger_target() -> TriggerState {
    let mut target = TriggerState::new();
    target.activate(10);
    target
}

#[test]
fn disabled_capture_does_not_emit_triggers() {
    let mut target = trigger_target();
    target.dispatch(event(10, KeyState::Pressed));
    target.dispatch(event(10, KeyState::Released));
    assert!(!target.take_triggered());
}

#[test]
fn capture_mode_transitions_discard_waiting_trigger() {
    let mut target = trigger_target();
    target.set_capture_enabled(true);
    target.dispatch(event(10, KeyState::Pressed));
    target.set_capture_enabled(false);
    assert!(!target.take_triggered());
    target.set_capture_enabled(true);
    assert!(!target.take_triggered());
}

#[test]
fn repeated_idle_mode_updates_preserve_waiting_trigger() {
    let mut target = trigger_target();
    target.set_capture_enabled(true);
    target.dispatch(event(10, KeyState::Pressed));
    target.set_capture_enabled(true);
    assert!(target.take_triggered());
}

#[test]
fn gate_alone_accepts_a_new_press_after_enabling() {
    let mut gate = EventGate::default();
    gate.activate(10);
    assert!(!gate.accepts(event(10, KeyState::Pressed)));
    assert!(gate.set_capture_enabled(true));
    assert!(!gate.accepts(event(10, KeyState::Pressed)));
    assert!(!gate.accepts(event(10, KeyState::Released)));
    assert!(gate.accepts(event(10, KeyState::Pressed)));
}

#[test]
fn switching_shortcut_drops_the_waiting_trigger() {
    let mut target = trigger_target();
    target.set_capture_enabled(true);
    assert!(target.dispatch(event(10, KeyState::Pressed)));
    target.activate(11);
    assert!(!target.take_triggered());
    assert!(!target.dispatch(event(10, KeyState::Pressed)));
    assert!(target.dispatch(event(11, KeyState::Pressed)));
    assert!(target.take_triggered());
    assert!(!target.take_triggered());
}

#[test]
fn repeated_mode_updates_report_no_change() {
    let mut gate = EventGate::default();
    assert!(gate.set_capture_enabled(true));
    assert!(!gate.set_capture_enabled(true));
    assert!(gate.set_capture_enabled(false));
}

#[test]
fn a_planned_switch_registers_exactly_the_parsed_hotkey() {
    let native = NativeRegistrationStub::default();
    let mut registration = Registration::new();
    set_shortcut(&mut registration, "Ctrl+A", &native).unwrap();

    let expected = parse_capture_shortcut("Ctrl+Alt+X").unwrap().hotkey;
    let switch = registration.plan_switch(parse_capture_shortcut("Ctrl+Alt+X").unwrap());
    match switch.pending_call() {
        Some(RegistrarCall::Register(hotkey)) => assert_eq!(hotkey, expected),
        _ => panic!("expected the new hotkey to be registered"),
    }
    let same = parse_capture_shortcut("Control+KeyA").unwrap();
    assert!(registration.plan_switch(same).pending_call().is_none());
}
