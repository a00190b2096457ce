use vstd::prelude::*;

verus! {

/// How long the compositor gets after pinned windows were hidden, in nanoseconds (80 ms).
pub const PIN_SETTLE_NANOS: u64 = 80_000_000;

/// Hiding pinned windows before a capture: one hidden frame, then a settling delay.
/// Times are monotonic clock readings in nanoseconds.
#[derive(Debug, Clone, Copy, PartialEq, Eq, Structural)]
pub enum PinCaptureState {
    Idle,
    Hiding,
    Settling(u64),
}

/// The state after a frame at `now`, and whether the capture may run now.
pub open spec fn spec_after_hidden_frame(s: PinCaptureState, now: u64) -> (PinCaptureState, bool) {
    match s {
        PinCaptureState::Hiding => (PinCaptureState::Settling((now + PIN_SETTLE_NANOS) as u64), false),
        PinCaptureState::Settling(deadline) => if now >= deadline {
            (PinCaptureState::Idle, true)
        } else {
            (s, false)
        },
        PinCaptureState::Idle => (s, false),
    }
}

impl PinCaptureState {
    /// Records a frame at `now`; true once, when the settling delay has passed.
    pub fn after_hidden_frame(&mut self, now: u64) -> (ready: bool)
        requires
            *old(self) == PinCaptureState::Hiding ==> now + PIN_SETTLE_NANOS <= u64::MAX,
        ensures
            (*final(self), ready) == spec_after_hidden_frame(*old(self), now),
    {
        match *self {
            PinCaptureState::Hiding => {
                *self = PinCaptureState::Settling(now + PIN_SETTLE_NANOS);
                false
            },
            PinCaptureState::Settling(deadline) => {
                if now >= deadline {
                    *self = PinCaptureState::Idle;
                    true
                } else {
                    false
                }
            },
            PinCaptureState::Idle => false,
        }
    }
}

impl Default for PinCaptureState {
    fn default() -> (s: Self)
        ensures
            s == PinCaptureState::Idle,
    {
        PinCaptureState::Idle
    }
}

/// What a pin window's input asks for.
#[derive(Debug, Clone, Copy, PartialEq, Eq, Structural)]
pub enum PinAction {
    Copy,
    Save,
    Close,
}

/// The action of one frame of a pin window: a close request wins; keys count only while the
/// pin has the focus and no text field takes the keyboard, Escape closing it, a copy
/// (event or Command+C) copying and Command+S saving its image.
pub open spec fn spec_pin_key_action(
    close_requested: bool,
    focused: bool,
    keyboard_taken: bool,
    escape: bool,
    copy: bool,
    save: bool,
) -> Option<PinAction> {
    if close_requested {
        Some(PinAction::Close)
    } else if !focused || keyboard_taken {
        None
    } else if escape {
        Some(PinAction::Close)
    } else if copy {
        Some(PinAction::Copy)
    } else if save {
        Some(PinAction::Save)
    } else {
        None
    }
}

pub fn pin_key_action(
    close_requested: bool,
    focused: bool,
    keyboard_taken: bool,
    escape: bool,
    copy: bool,
    save: bool,
) -> (action: Option<PinAction>)
    ensures
        action == spec_pin_key_action(close_requested, focused, keyboard_taken, escape, copy, save),
{
    if close_requested {
        Some(PinAction::Close)
    } else if !focused || keyboard_taken {
        None
    } else if escape {
        Some(PinAction::Close)
    } else if copy {
        Some(PinAction::Copy)
    } else if save {
        Some(PinAction::Save)
    } else {
        None
    }
}


/// A pinned screenshot: the identifier of its window and what the window shows.
pub struct Pin<P> {
    pub id: u64,
    pub content: P,
}

/// A request to save one pin's image, waiting until the pinned windows are hidden.
#[derive(Debug, Clone, Copy, PartialEq, Eq, Structural)]
pub struct PinSaveRequest {
    pub id: u64,
    pub hide_state: PinCaptureState,
}

/// The open pins in the order they were pinned, each with an identifier that no other pin
/// of this session had or will have, and at most one pending save.
pub struct PinnedImages<P> {
    pins: Vec<Pin<P>>,
    next_id: u64,
    save_request: Option<PinSaveRequest>,
}

impl<P> PinnedImages<P> {
    /// The identifiers of the open pins, oldest first.
    pub closed spec fn ids(&self) -> Seq<u64> {
        self.pins@.map_values(|pin: Pin<P>| pin.id)
    }

    /// What the open pins show, oldest first.
    pub closed spec fn contents(&self) -> Seq<P> {
        self.pins@.map_values(|pin: Pin<P>| pin.content)
    }

    /// The identifier given to the most recent pin (0 before the first).
    pub closed spec fn last_id(&self) -> u64 {
        self.next_id
    }

    /// The pending save request, if any.
    pub closed spec fn pending_save(&self) -> Option<PinSaveRequest> {
        self.save_request
    }

    /// Identifiers grow with each pin and none exceeds the last one given out.
    pub closed spec fn wf(&self) -> bool {
        &&& forall|i: int, j: int|
            0 <= i < j < self.pins@.len() ==> #[trigger] self.pins@[i].id < #[trigger] self.pins@[j].id
        &&& forall|i: int| 0 <= i < self.pins@.len() ==> #[trigger] self.pins@[i].id <= self.next_id
    }

    pub fn new() -> (pins: Self)
        ensures
            pins.wf(),
            pins.ids() == Seq::<u64>::empty(),
            pins.last_id() == 0,
            pins.pending_save() is None,
    {
        let pins = PinnedImages { pins: Vec::new(), next_id: 0, save_request: None };
        assert(pins.ids() =~= Seq::<u64>::empty());
        pins
    }

    pub fn len(&self) -> (n: usize)
        ensures
            n == self.ids().len(),
    {
        self.pins.len()
    }

    pub fn is_empty(&self) -> (b: bool)
        ensures
            b <==> self.ids().len() == 0,
    {
        self.pins.len() == 0
    }

    pub fn is_saving(&self) -> (b: bool)
        ensures
            b <==> self.pending_save() is Some,
    {
        self.save_request.is_some()
    }

    /// The identifier of the pin at `index`.
    pub fn id_at(&self, index: usize) -> (id: u64)
        requires
            index < self.ids().len(),
        ensures
            id == self.ids()[index as int],
    {
        self.pins[index].id
    }

    /// What the pin at `index` shows.
    pub fn content_at(&self, index: usize) -> (content: &P)
        requires
            index < self.ids().len(),
        ensures
            *content == self.contents()[index as int],
    {
        &self.pins[index].content
    }

    /// Where the pin `id` stands among the open pins.
    pub fn position_of(&self, id: u64) -> (index: Option<usize>)
        requires
            self.wf(),
        ensures
            match index {
                Some(i) => i < self.ids().len() && self.ids()[i as int] == id,
                None => !self.ids().contains(id),
            },
    {
        let mut i: usize = 0;
        while i < self.pins.len()
            invariant
                i <= self.pins@.len(),
                forall|j: int| 0 <= j < i ==> self.pins@[j].id != id,
            decreases self.pins@.len() - i,
        {
            if self.pins[i].id == id {
                return Some(i);
            }
            i = i + 1;
        }
        proof {
            if self.ids().contains(id) {
                let k = choose|k: int| 0 <= k < self.ids().len() && self.ids()[k] == id;
                assert(self.pins@[k].id == id);
            }
        }
        None
    }

    /// Pins `content` under a fresh identifier, one above the last one given out.
    pub fn add(&mut self, content: P) -> (id: u64)
        requires
            old(self).wf(),
            old(self).last_id() < u64::MAX,
        ensures
            final(self).wf(),
            id == old(self).last_id() + 1,
            final(self).last_id() == id,
            !old(self).ids().contains(id),
            final(self).ids() == old(self).ids().push(id),
            final(self).contents() == old(self).contents().push(content),
            final(self).pending_save() == old(self).pending_save(),
    {
        self.next_id = self.next_id + 1;
        let id = self.next_id;
        self.pins.push(Pin { id, content });
        proof {
            assert(final(self).ids() =~= old(self).ids().push(id));
            assert(final(self).contents() =~= old(self).contents().push(content));
            if old(self).ids().contains(id) {
                let k = choose|k: int| 0 <= k < old(self).ids().len() && old(self).ids()[k] == id;
                assert(old(self).pins@[k].id <= old(self).next_id);
            }
        }
        id
    }

    /// Closes the pin `id`; the other pins stay, in their order, with their identifiers.
    pub fn remove(&mut self, id: u64)
        requires
            old(self).wf(),
        ensures
            final(self).wf(),
            final(self).last_id() == old(self).last_id(),
            final(self).pending_save() == old(self).pending_save(),
            !final(self).ids().contains(id),
            forall|i: int|
                0 <= i < old(self).ids().len() && #[trigger] old(self).ids()[i] == id ==> final(self).ids()
                    == old(self).ids().remove(i) && final(self).contents() == old(self).contents().remove(i),
            !old(self).ids().contains(id) ==> final(self).ids() == old(self).ids() && final(self).contents()
                == old(self).contents(),
    {
        let position = self.position_of(id);
        match position {
            Some(i) => {
                proof {
                    assert forall|k: int|
                        0 <= k < old(self).ids().len() && #[trigger] old(self).ids()[k] == id implies k
                        == i by {
                        if k < i {
                            assert(old(self).pins@[k].id < old(self).pins@[i as int].id);
                        } else if k > i {
                            assert(old(self).pins@[i as int].id < old(self).pins@[k].id);
                        }
                    }
                }
                self.pins.remove(i);
                proof {
                    assert(final(self).ids() =~= old(self).ids().remove(i as int));
                    assert(final(self).contents() =~= old(self).contents().remove(i as int));
                    assert forall|k: int| 0 <= k < final(self).ids().len() implies final(self).ids()[k] != id by {
                        if k < i {
                            assert(old(self).pins@[k].id < old(self).pins@[i as int].id);
                        } else {
                            assert(old(self).pins@[i as int].id < old(self).pins@[k + 1].id);
                        }
                    }
                    assert forall|a: int, b: int|
                        0 <= a < b < final(self).pins@.len() implies #[trigger] final(self).pins@[a].id
                        < #[trigger] final(self).pins@[b].id by {
                        let oa = if a < i { a } else { a + 1 };
                        let ob = if b < i { b } else { b + 1 };
                        assert(old(self).pins@[oa].id < old(self).pins@[ob].id);
                    }
                    assert forall|a: int| 0 <= a < final(self).pins@.len() implies #[trigger] final(self).pins@[a].id <= final(self).next_id by {
                        let oa = if a < i { a } else { a + 1 };
                        assert(old(self).pins@[oa].id <= old(self).next_id);
                    }
                }
            },
            None => {},
        }
    }

    /// Asks to save the pin `id`. Refused while another save is pending or when no pin has
    /// that identifier; otherwise the pinned windows are to be hidden first.
    pub fn request_save(&mut self, id: u64) -> (accepted: bool)
        requires
            old(self).wf(),
        ensures
            final(self).wf(),
            accepted <==> old(self).pending_save() is None && old(self).ids().contains(id),
            accepted ==> final(self).pending_save() == Some(
                PinSaveRequest { id, hide_state: PinCaptureState::Hiding },
            ),
            !accepted ==> final(self).pending_save() == old(self).pending_save(),
            final(self).ids() == old(self).ids(),
            final(self).contents() == old(self).contents(),
            final(self).last_id() == old(self).last_id(),
    {
        if self.save_request.is_some() {
            return false;
        }
        match self.position_of(id) {
            Some(_) => {
                self.save_request = Some(PinSaveRequest { id, hide_state: PinCaptureState::Hiding });
                true
            },
            None => false,
        }
    }

    /// Records a hidden frame at `now`; hands out the pending save once the windows have been
    /// hidden and the settling delay has passed, and clears it.
    pub fn take_ready_save(&mut self, now: u64) -> (ready: Option<u64>)
        requires
            old(self).wf(),
            old(self).pending_save() matches Some(request) && request.hide_state
                == PinCaptureState::Hiding ==> now + PIN_SETTLE_NANOS <= u64::MAX,
        ensures
            final(self).wf(),
            final(self).ids() == old(self).ids(),
            final(self).contents() == old(self).contents(),
            final(self).last_id() == old(self).last_id(),
            match old(self).pending_save() {
                None => ready is None && final(self).pending_save() is None,
                Some(request) => {
                    let (state, done) = spec_after_hidden_frame(request.hide_state, now);
                    if done {
                        ready == Some(request.id) && final(self).pending_save() is None
                    } else {
                        ready is None && final(self).pending_save() == Some(
                            PinSaveRequest { id: request.id, hide_state: state },
                        )
                    }
                },
            },
    {
        match self.save_request {
            None => None,
            Some(request) => {
                let mut hide_state = request.hide_state;
                let done = hide_state.after_hidden_frame(now);
                if done {
                    self.save_request = None;
                    Some(request.id)
                } else {
                    self.save_request = Some(PinSaveRequest { id: request.id, hide_state });
                    None
                }
            },
        }
    }
}

impl<P> Default for PinnedImages<P> {
    fn default() -> (pins: Self)
        ensures
            pins.wf(),
            pins.ids() == Seq::<u64>::empty(),
            pins.last_id() == 0,
            pins.pending_save() is None,
    {
        PinnedImages::new()
    }
}

/// The capture runs once, and only after a hidden frame and the full settling delay.
pub proof fn lemma_capture_waits_for_settling(hidden_at: u64, later: u64)
    requires
        hidden_at + PIN_SETTLE_NANOS <= u64::MAX,
    ensures
        !spec_after_hidden_frame(PinCaptureState::Hiding, hidden_at).1,
        ({
            let (settling, _) = spec_after_hidden_frame(PinCaptureState::Hiding, hidden_at);
            let (after, ready) = spec_after_hidden_frame(settling, later);
            &&& ready <==> later >= hidden_at + PIN_SETTLE_NANOS
            &&& ready ==> after == PinCaptureState::Idle
            &&& ready ==> !spec_after_hidden_frame(after, later).1
        }),
{
}

} // verus!
