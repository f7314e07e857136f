//! Keyboard and mouse state gathered from window events, handed to the
//! scene once per frame.
use vstd::prelude::*;
use std::collections::HashSet;

verus! {

broadcast use vstd::std_specs::hash::group_hash_axioms;

/// `HashSet::clone` on a set of key codes: a set with the same keys.
#[verifier::external_body]
fn clone_key_set(keys: &HashSet<u32>) -> (copy: HashSet<u32>)
    ensures
        copy@ == keys@,
{
    keys.clone()
}

/// A window event, as far as input handling looks at it. Keys are winit
/// `KeyCode` discriminants; cursor coordinates are `f64` bit patterns.
#[derive(Clone, Copy, Debug, PartialEq, Eq)]
pub enum WindowInput {
    /// A physical key changed state; `code` is `None` for keys without a code.
    Key { code: Option<u32>, pressed: bool },
    /// A mouse button changed state; `left` tells whether it is the left one.
    MouseButton { left: bool, pressed: bool },
    /// The cursor moved to a new position.
    CursorMoved { x: u64, y: u64 },
    /// The window gained or lost focus.
    Focused(bool),
    /// Any other event.
    Other,
}

/// The input of one frame: the keys held down and the accumulated look
/// movement (pitch, yaw), as `f32` bit patterns.
#[derive(Debug)]
pub struct FrameInput {
    pressed_keys: HashSet<u32>,
    look_delta: (u32, u32),
}

/// Mathematical state of a `FrameInput`.
pub struct FrameInputView {
    pub pressed: Set<u32>,
    pub look_delta: (u32, u32),
}

impl View for FrameInput {
    type V = FrameInputView;

    closed spec fn view(&self) -> FrameInputView {
        FrameInputView { pressed: self.pressed_keys@, look_delta: self.look_delta }
    }
}

impl FrameInput {
    pub fn is_key_pressed(&self, key: u32) -> (r: bool)
        ensures
            r == self@.pressed.contains(key),
    {
        self.pressed_keys.contains(&key)
    }

    pub fn look_delta(&self) -> (r: (u32, u32))
        ensures
            r == self@.look_delta,
    {
        self.look_delta
    }
}

impl Default for FrameInput {
    fn default() -> (f: Self)
        ensures
            f@.pressed == Set::<u32>::empty(),
            f@.look_delta == (0u32, 0u32),
    {
        FrameInput { pressed_keys: HashSet::new(), look_delta: (0, 0) }
    }
}

/// Input state carried across window events.
#[derive(Debug)]
pub struct InputState {
    pressed_keys: HashSet<u32>,
    last_cursor_position: Option<(u64, u64)>,
    look_delta: (u32, u32),
    cursor_captured: bool,
}

/// Mathematical state of an `InputState`.
pub struct InputStateView {
    pub pressed: Set<u32>,
    pub last_cursor_position: Option<(u64, u64)>,
    pub look_delta: (u32, u32),
    pub cursor_captured: bool,
}

impl View for InputState {
    type V = InputStateView;

    closed spec fn view(&self) -> InputStateView {
        InputStateView {
            pressed: self.pressed_keys@,
            last_cursor_position: self.last_cursor_position,
            look_delta: self.look_delta,
            cursor_captured: self.cursor_captured,
        }
    }
}

/// The state after `event`, for every event but a move of a captured cursor
/// (which the look delta follows outside).
pub open spec fn after_event(s: InputStateView, event: WindowInput) -> InputStateView {
    match event {
        WindowInput::Key { code: Some(c), pressed } => InputStateView {
            pressed: if pressed { s.pressed.insert(c) } else { s.pressed.remove(c) },
            ..s
        },
        WindowInput::MouseButton { left: true, pressed } => InputStateView {
            cursor_captured: pressed,
            last_cursor_position: None,
            look_delta: (0u32, 0u32),
            ..s
        },
        WindowInput::CursorMoved { x, y } => if s.cursor_captured {
            InputStateView { last_cursor_position: Some((x, y)), ..s }
        } else {
            s
        },
        WindowInput::Focused(false) => InputStateView {
            cursor_captured: false,
            last_cursor_position: None,
            look_delta: (0u32, 0u32),
            ..s
        },
        _ => s,
    }
}

/// Pressing a key and then releasing it leaves the held keys as they were
/// before the press, without that key.
pub proof fn lemma_press_then_release(s: InputStateView, code: u32)
    ensures
        after_event(
            after_event(s, (WindowInput::Key { code: Some(code), pressed: true })),
            (WindowInput::Key { code: Some(code), pressed: false }),
        ).pressed == s.pressed.remove(code),
{
    assert(s.pressed.insert(code).remove(code) =~= s.pressed.remove(code));
}

/// While the cursor is not captured, cursor moves change nothing.
pub proof fn lemma_uncaptured_move_is_ignored(s: InputStateView, x: u64, y: u64)
    requires
        !s.cursor_captured,
    ensures
        after_event(s, (WindowInput::CursorMoved { x, y })) == s,
{
}

/// Losing focus releases the cursor and drops the look movement; moves that
/// follow are then ignored.
pub proof fn lemma_focus_loss_releases_cursor(s: InputStateView, x: u64, y: u64)
    ensures
        !after_event(s, WindowInput::Focused(false)).cursor_captured,
        after_event(s, WindowInput::Focused(false)).look_delta == (0u32, 0u32),
        after_event(s, WindowInput::Focused(false)).pressed == s.pressed,
        after_event(after_event(s, WindowInput::Focused(false)), (WindowInput::CursorMoved { x, y }))
            == after_event(s, WindowInput::Focused(false)),
{
}

/// Key events touch only the held keys; the cursor state stays.
pub proof fn lemma_key_events_keep_cursor(s: InputStateView, code: Option<u32>, pressed: bool)
    ensures
        after_event(s, (WindowInput::Key { code, pressed })).cursor_captured == s.cursor_captured,
        after_event(s, (WindowInput::Key { code, pressed })).last_cursor_position == s.last_cursor_position,
        after_event(s, (WindowInput::Key { code, pressed })).look_delta == s.look_delta,
{
}

impl InputState {
    pub fn new() -> (s: Self)
        ensures
            s@.pressed == Set::<u32>::empty(),
            s@.last_cursor_position is None,
            s@.look_delta == (0u32, 0u32),
            !s@.cursor_captured,
    {
        InputState { pressed_keys: HashSet::new(), last_cursor_position: None, look_delta: (0, 0), cursor_captured: false }
    }

    /// Applies a window event. When the event moves a captured cursor that
    /// had a previous position, that position is returned: the caller adds
    /// the movement to the look delta (`set_look_delta`).
    pub fn handle_window_event(&mut self, event: WindowInput) -> (moved_from: Option<(u64, u64)>)
        ensures
            final(self)@ == after_event(old(self)@, event),
            moved_from == match event {
                WindowInput::CursorMoved { .. } => if old(self)@.cursor_captured {
                    old(self)@.last_cursor_position
                } else {
                    None
                },
                _ => None,
            },
    {
        match event {
            WindowInput::Key { code: Some(key), pressed } => {
                if pressed {
                    self.pressed_keys.insert(key);
                } else {
                    self.pressed_keys.remove(&key);
                }
                None
            },
            WindowInput::MouseButton { left, pressed } => {
                if left {
                    self.cursor_captured = pressed;
                    self.last_cursor_position = None;
                    self.look_delta = (0, 0);
                }
                None
            },
            WindowInput::CursorMoved { x, y } => {
                if !self.cursor_captured {
                    return None;
                }
                let moved_from = self.last_cursor_position;
                self.last_cursor_position = Some((x, y));
                moved_from
            },
            WindowInput::Focused(focused) => {
                if !focused {
                    self.cursor_captured = false;
                    self.last_cursor_position = None;
                    self.look_delta = (0, 0);
                }
                None
            },
            _ => None,
        }
    }

    /// The look movement accumulated since the last frame (pitch, yaw), as
    /// `f32` bit patterns.
    pub fn look_delta(&self) -> (r: (u32, u32))
        ensures
            r == self@.look_delta,
    {
        self.look_delta
    }

    /// Replaces the accumulated look delta.
    pub fn set_look_delta(&mut self, look_delta: (u32, u32))
        ensures
            final(self)@ == (InputStateView { look_delta, ..old(self)@ }),
    {
        self.look_delta = look_delta;
    }

    /// The input of this frame; the look delta starts again from zero.
    pub fn frame_input(&mut self) -> (frame: FrameInput)
        ensures
            frame@.pressed == old(self)@.pressed,
            frame@.look_delta == old(self)@.look_delta,
            final(self)@ == (InputStateView { look_delta: (0u32, 0u32), ..old(self)@ }),
    {
        let pressed_keys = clone_key_set(&self.pressed_keys);
        let frame = FrameInput { pressed_keys, look_delta: self.look_delta };
        self.look_delta = (0, 0);
        frame
    }

    pub fn cursor_captured(&self) -> (r: bool)
        ensures
            r == self@.cursor_captured,
    {
        self.cursor_captured
    }

    /// Whether the key is held down.
    pub fn is_key_pressed(&self, key: u32) -> (r: bool)
        ensures
            r == self@.pressed.contains(key),
    {
        self.pressed_keys.contains(&key)
    }
}

impl Default for InputState {
    fn default() -> (s: Self)
        ensures
            s@.pressed == Set::<u32>::empty(),
            s@.last_cursor_position is None,
            s@.look_delta == (0u32, 0u32),
            !s@.cursor_captured,
    {
        Self::new()
    }
}

} // verus!
