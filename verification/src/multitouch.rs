//! The multitouch state machine: consumes a linear stream of slot/axis/
//! sync events and maintains a fixed-capacity table of per-slot contact
//! records.
//!
//! Events arrive as plain `(kind, code, value)` triples in kernel input
//! encoding and must be processed strictly in arrival order: later axis
//! events overwrite earlier ones within the same logical frame, and a
//! sync event marks the table as one consistent instant.

use vstd::prelude::*;

verus! {

/// Capacity of the contact table: hardware slot indices run 0..10.
pub const MAX_TOUCH_POINTS: usize = 10;

/// Event kind of a synchronization event.
pub const EV_SYN: u16 = 0x00;

/// Event kind of a key/button event.
pub const EV_KEY: u16 = 0x01;

/// Event kind of an absolute-axis event.
pub const EV_ABS: u16 = 0x03;

/// Event kind of a miscellaneous event (ignored).
pub const EV_MSC: u16 = 0x04;

/// Button code: primary touch flag.
pub const BTN_TOUCH: u16 = 0x14a;

/// Button code: two-finger tap flag.
pub const BTN_TOOL_DOUBLETAP: u16 = 0x14d;

/// Button code: physical left button.
pub const BTN_LEFT: u16 = 0x110;

/// Button code: physical right button.
pub const BTN_RIGHT: u16 = 0x111;

/// Button code: physical middle button.
pub const BTN_MIDDLE: u16 = 0x112;

/// Axis code: select the current slot.
pub const ABS_MT_SLOT: u16 = 0x2f;

/// Axis code: major axis of the touch ellipse.
pub const ABS_MT_TOUCH_MAJOR: u16 = 0x30;

/// Axis code: minor axis of the touch ellipse.
pub const ABS_MT_TOUCH_MINOR: u16 = 0x31;

/// Axis code: major axis of the approaching tool.
pub const ABS_MT_WIDTH_MAJOR: u16 = 0x32;

/// Axis code: minor axis of the approaching tool.
pub const ABS_MT_WIDTH_MINOR: u16 = 0x33;

/// Axis code: ellipse orientation.
pub const ABS_MT_ORIENTATION: u16 = 0x34;

/// Axis code: contact X position.
pub const ABS_MT_POSITION_X: u16 = 0x35;

/// Axis code: contact Y position.
pub const ABS_MT_POSITION_Y: u16 = 0x36;

/// Axis code: tool type (finger vs. palm).
pub const ABS_MT_TOOL_TYPE: u16 = 0x37;

/// Axis code: persistent contact identity; negative means released.
pub const ABS_MT_TRACKING_ID: u16 = 0x39;

/// Axis code: contact pressure.
pub const ABS_MT_PRESSURE: u16 = 0x3a;

/// Axis code: hover distance.
pub const ABS_MT_DISTANCE: u16 = 0x3b;

/// Axis code: tool X position.
pub const ABS_MT_TOOL_X: u16 = 0x3c;

/// Axis code: tool Y position.
pub const ABS_MT_TOOL_Y: u16 = 0x3d;

/// One kernel input event: kind (key / absolute / sync), code and value.
#[derive(Clone, Copy, Debug, PartialEq, Eq, Structural)]
pub struct InputEvent {
    pub kind: u16,
    pub code: u16,
    pub value: i32,
}

/// The three physical button states; a plain value.
#[derive(Clone, Copy, Debug, PartialEq, Eq, Structural)]
pub struct ButtonState {
    pub left: bool,
    pub right: bool,
    pub middle: bool,
}

/// The empty button state.
pub open spec fn button_state_default() -> ButtonState {
    ButtonState { left: false, right: false, middle: false }
}

impl Default for ButtonState {
    /// All buttons released.
    fn default() -> (b: Self)
        ensures
            b == button_state_default(),
    {
        ButtonState { left: false, right: false, middle: false }
    }
}

/// One potential finger or tool. A slot with `used == false` must be
/// treated as empty regardless of stale field values; the other fields
/// are meaningful only while `used` is set.
#[derive(Clone, Copy, Debug, PartialEq, Eq, Structural)]
pub struct TouchData {
    pub used: bool,
    pub pressed: bool,
    pub pressed_double: bool,
    pub tracking_id: i32,
    pub position_x: i32,
    pub position_y: i32,
    pub pressure: i32,
    pub distance: i32,
    pub touch_major: i32,
    pub touch_minor: i32,
    pub width_major: i32,
    pub width_minor: i32,
    pub orientation: i32,
    pub tool_x: i32,
    pub tool_y: i32,
    pub tool_type: i32,
}

/// The cleared contact record.
pub open spec fn touch_data_default() -> TouchData {
    TouchData {
        used: false,
        pressed: false,
        pressed_double: false,
        tracking_id: 0,
        position_x: 0,
        position_y: 0,
        pressure: 0,
        distance: 0,
        touch_major: 0,
        touch_minor: 0,
        width_major: 0,
        width_minor: 0,
        orientation: 0,
        tool_x: 0,
        tool_y: 0,
        tool_type: 0,
    }
}

impl Default for TouchData {
    /// A cleared contact record.
    fn default() -> (t: Self)
        ensures
            t == touch_data_default(),
    {
        TouchData {
            used: false,
            pressed: false,
            pressed_double: false,
            tracking_id: 0,
            position_x: 0,
            position_y: 0,
            pressure: 0,
            distance: 0,
            touch_major: 0,
            touch_minor: 0,
            width_major: 0,
            width_minor: 0,
            orientation: 0,
            tool_x: 0,
            tool_y: 0,
            tool_type: 0,
        }
    }
}

impl TouchData {
    /// Clear every field.
    pub fn reset(&mut self)
        ensures
            *final(self) == touch_data_default(),
    {
        *self = TouchData::default();
    }

    /// Mark the slot occupied: receiving any axis data is itself
    /// sufficient evidence of occupancy.
    pub fn set_used(&mut self)
        ensures
            *final(self) == (TouchData { used: true, ..*old(self) }),
    {
        self.used = true;
    }
}

/// Synchronization state of the decoder: `Loading` until a frame
/// boundary has been observed, `ReadReady` afterwards. `NeedsReset` is
/// part of the model but is never produced by the transition table; it
/// exists for callers that detect a stream discontinuity.
#[derive(Clone, Copy, Debug, PartialEq, Eq, Structural)]
pub enum MTState {
    Loading,
    ReadReady,
    NeedsReset,
}

/// The mathematical state of the decoder: synchronization state, current
/// slot pointer, contact table and button state.
pub struct MTModel {
    pub state: MTState,
    pub slot: Option<usize>,
    pub touches: Seq<TouchData>,
    pub buttons: ButtonState,
}

/// The freshly constructed decoder: loading, no slot selected, a cleared
/// table of `MAX_TOUCH_POINTS` records, all buttons released.
pub open spec fn mt_initial() -> MTModel {
    MTModel {
        state: MTState::Loading,
        slot: Option::None,
        touches: Seq::new(MAX_TOUCH_POINTS as nat, |i: int| touch_data_default()),
        buttons: button_state_default(),
    }
}

/// What `reset` does to a model: back to `Loading` with no slot
/// selected, every `used` flag cleared and all other fields kept.
pub open spec fn mt_reset(m: MTModel) -> MTModel {
    MTModel {
        state: MTState::Loading,
        slot: Option::None,
        touches: m.touches.map(|i: int, t: TouchData| TouchData { used: false, ..t }),
        buttons: m.buttons,
    }
}

/// Transition on a key/button event: tap flags land in slot 0, physical
/// buttons in the button state, applied immediately.
pub open spec fn mt_key_step(m: MTModel, code: u16, value: i32) -> MTModel {
    if code == BTN_TOUCH {
        MTModel {
            touches: m.touches.update(0, TouchData { pressed: value == 1, ..m.touches[0] }),
            ..m
        }
    } else if code == BTN_TOOL_DOUBLETAP {
        MTModel {
            touches: m.touches.update(0, TouchData { pressed_double: value == 1, ..m.touches[0] }),
            ..m
        }
    } else if code == BTN_LEFT {
        MTModel { buttons: ButtonState { left: value == 1, ..m.buttons }, ..m }
    } else if code == BTN_RIGHT {
        MTModel { buttons: ButtonState { right: value == 1, ..m.buttons }, ..m }
    } else if code == BTN_MIDDLE {
        MTModel { buttons: ButtonState { middle: value == 1, ..m.buttons }, ..m }
    } else {
        m
    }
}

/// Transition of the current slot's record on one absolute-axis event:
/// any axis update marks the slot occupied as a side effect.
pub open spec fn mt_axis_update(t: TouchData, code: u16, value: i32) -> TouchData {
    if code == ABS_MT_TRACKING_ID {
        if value < 0 {
            TouchData { used: false, ..t }
        } else {
            TouchData { tracking_id: value, ..t }
        }
    } else if code == ABS_MT_POSITION_X {
        TouchData { used: true, position_x: value, ..t }
    } else if code == ABS_MT_POSITION_Y {
        TouchData { used: true, position_y: value, ..t }
    } else if code == ABS_MT_PRESSURE {
        TouchData { used: true, pressure: value, ..t }
    } else if code == ABS_MT_DISTANCE {
        TouchData { used: true, distance: value, ..t }
    } else if code == ABS_MT_TOUCH_MAJOR {
        TouchData { used: true, touch_major: value, ..t }
    } else if code == ABS_MT_TOUCH_MINOR {
        TouchData { used: true, touch_minor: value, ..t }
    } else if code == ABS_MT_WIDTH_MAJOR {
        TouchData { used: true, width_major: value, ..t }
    } else if code == ABS_MT_WIDTH_MINOR {
        TouchData { used: true, width_minor: value, ..t }
    } else if code == ABS_MT_ORIENTATION {
        TouchData { used: true, orientation: value, ..t }
    } else if code == ABS_MT_TOOL_X {
        TouchData { used: true, tool_x: value, ..t }
    } else if code == ABS_MT_TOOL_Y {
        TouchData { used: true, tool_y: value, ..t }
    } else if code == ABS_MT_TOOL_TYPE {
        TouchData { used: true, tool_type: value, ..t }
    } else {
        t
    }
}

/// Transition on an absolute-axis event: a pending `NeedsReset` state is
/// honoured first, a slot-select event moves the slot pointer
/// (bounds-checked) and marks the slot occupied, every other axis code
/// updates the current slot (slot 0 when none was selected).
pub open spec fn mt_abs_step(m: MTModel, code: u16, value: i32) -> MTModel {
    let m1 = if m.state == MTState::NeedsReset {
        mt_reset(m)
    } else {
        m
    };
    let cur = match m1.slot {
        Option::Some(s) => s as int,
        Option::None => 0,
    };
    if code == ABS_MT_SLOT {
        if 0 <= value < MAX_TOUCH_POINTS {
            MTModel {
                slot: Option::Some(value as usize),
                touches: m1.touches.update(
                    value as int,
                    TouchData { used: true, ..m1.touches[value as int] },
                ),
                ..m1
            }
        } else {
            m1
        }
    } else {
        MTModel { touches: m1.touches.update(cur, mt_axis_update(m1.touches[cur], code, value)), ..m1 }
    }
}

/// The full transition table: key events, absolute-axis events, and a
/// sync event that marks the table as one consistent instant. Every
/// other event kind leaves the state unchanged.
pub open spec fn mt_step(m: MTModel, e: InputEvent) -> MTModel {
    if e.kind == EV_KEY {
        mt_key_step(m, e.code, e.value)
    } else if e.kind == EV_ABS {
        mt_abs_step(m, e.code, e.value)
    } else if e.kind == EV_SYN {
        MTModel { state: MTState::ReadReady, ..m }
    } else {
        m
    }
}

/// The decoder's invariant: the table always holds exactly
/// `MAX_TOUCH_POINTS` records and a selected slot is always in bounds.
pub open spec fn mt_wf(m: MTModel) -> bool {
    &&& m.touches.len() == MAX_TOUCH_POINTS
    &&& (m.slot matches Option::Some(s) ==> s < MAX_TOUCH_POINTS)
}

/// The multitouch decoder state machine.
pub struct MTStateMachine {
    pub state: MTState,
    pub slot: Option<usize>,
    pub touches: Vec<TouchData>,
    pub buttons: ButtonState,
}

impl View for MTStateMachine {
    type V = MTModel;

    open spec fn view(&self) -> MTModel {
        MTModel {
            state: self.state,
            slot: self.slot,
            touches: self.touches@,
            buttons: self.buttons,
        }
    }
}

impl Default for MTStateMachine {
    /// The freshly constructed decoder.
    fn default() -> (m: Self)
        ensures
            m@ == mt_initial(),
            mt_wf(m@),
    {
        let mut touches: Vec<TouchData> = Vec::new();
        let mut i: usize = 0;
        while i < MAX_TOUCH_POINTS
            invariant
                i <= MAX_TOUCH_POINTS,
                touches@.len() == i,
                forall|k: int| 0 <= k < i ==> touches@[k] == touch_data_default(),
            decreases MAX_TOUCH_POINTS - i,
        {
            touches.push(TouchData::default());
            i = i + 1;
        }
        let m = MTStateMachine {
            state: MTState::Loading,
            slot: None,
            touches,
            buttons: ButtonState::default(),
        };
        proof {
            assert(m@.touches =~= mt_initial().touches);
        }
        m
    }
}

impl MTStateMachine {
    /// The freshly constructed decoder.
    pub fn new() -> (m: Self)
        ensures
            m@ == mt_initial(),
            mt_wf(m@),
    {
        Self::default()
    }

    /// Return to `Loading` with no slot selected and every `used` flag
    /// cleared; all other contact fields and the buttons are kept. Never
    /// invoked by the transition table itself; available to callers that
    /// detect a stream discontinuity.
    pub fn reset(&mut self)
        requires
            mt_wf(old(self)@),
        ensures
            final(self)@ == mt_reset(old(self)@),
            mt_wf(final(self)@),
    {
        self.state = MTState::Loading;
        self.slot = None;
        let n = self.touches.len();
        let mut i: usize = 0;
        while i < n
            invariant
                i <= n,
                self.touches@.len() == n,
                forall|k: int|
                    0 <= k < i ==> self.touches@[k] == (TouchData {
                        used: false,
                        ..old(self).touches@[k]
                    }),
                forall|k: int| i <= k < n ==> self.touches@[k] == old(self).touches@[k],
                self.state == MTState::Loading,
                self.slot is None,
                self.buttons == old(self).buttons,
            decreases n - i,
        {
            let mut t = self.touches[i];
            t.used = false;
            self.touches.set(i, t);
            i = i + 1;
        }
        proof {
            assert(self@.touches =~= mt_reset(old(self)@).touches);
        }
    }

    /// Apply one key/button event.
    fn apply_key(&mut self, code: u16, value: i32)
        requires
            mt_wf(old(self)@),
        ensures
            final(self)@ == mt_key_step(old(self)@, code, value),
            mt_wf(final(self)@),
    {
        if code == BTN_TOUCH {
            let mut t = self.touches[0];
            t.pressed = value == 1;
            self.touches.set(0, t);
        } else if code == BTN_TOOL_DOUBLETAP {
            let mut t = self.touches[0];
            t.pressed_double = value == 1;
            self.touches.set(0, t);
        } else if code == BTN_LEFT {
            self.buttons.left = value == 1;
        } else if code == BTN_RIGHT {
            self.buttons.right = value == 1;
        } else if code == BTN_MIDDLE {
            self.buttons.middle = value == 1;
        }
    }

    /// Update the record of slot `cur` under one axis event.
    fn apply_axis(&mut self, cur: usize, code: u16, value: i32)
        requires
            mt_wf(old(self)@),
            cur < MAX_TOUCH_POINTS,
        ensures
            final(self)@ == (MTModel {
                touches: old(self)@.touches.update(
                    cur as int,
                    mt_axis_update(old(self)@.touches[cur as int], code, value),
                ),
                ..old(self)@
            }),
            mt_wf(final(self)@),
    {
        let mut t = self.touches[cur];
        if code == ABS_MT_TRACKING_ID {
            if value < 0 {
                t.used = false;
            } else {
                t.tracking_id = value;
            }
        } else if code == ABS_MT_POSITION_X {
            t.used = true;
            t.position_x = value;
        } else if code == ABS_MT_POSITION_Y {
            t.used = true;
            t.position_y = value;
        } else if code == ABS_MT_PRESSURE {
            t.used = true;
            t.pressure = value;
        } else if code == ABS_MT_DISTANCE {
            t.used = true;
            t.distance = value;
        } else if code == ABS_MT_TOUCH_MAJOR {
            t.used = true;
            t.touch_major = value;
        } else if code == ABS_MT_TOUCH_MINOR {
            t.used = true;
            t.touch_minor = value;
        } else if code == ABS_MT_WIDTH_MAJOR {
            t.used = true;
            t.width_major = value;
        } else if code == ABS_MT_WIDTH_MINOR {
            t.used = true;
            t.width_minor = value;
        } else if code == ABS_MT_ORIENTATION {
            t.used = true;
            t.orientation = value;
        } else if code == ABS_MT_TOOL_X {
            t.used = true;
            t.tool_x = value;
        } else if code == ABS_MT_TOOL_Y {
            t.used = true;
            t.tool_y = value;
        } else if code == ABS_MT_TOOL_TYPE {
            t.used = true;
            t.tool_type = value;
        }
        self.touches.set(cur, t);
        proof {
            assert(self@.touches =~= old(self)@.touches.update(
                cur as int,
                mt_axis_update(old(self)@.touches[cur as int], code, value),
            ));
        }
    }

    /// Process one event, in arrival order, moving the state exactly one
    /// step of the transition table.
    pub fn process(&mut self, event: &InputEvent)
        requires
            mt_wf(old(self)@),
        ensures
            final(self)@ == mt_step(old(self)@, *event),
            mt_wf(final(self)@),
    {
        if event.kind == EV_KEY {
            self.apply_key(event.code, event.value);
        } else if event.kind == EV_ABS {
            match self.state {
                MTState::NeedsReset => self.reset(),
                MTState::Loading => (),
                MTState::ReadReady => (),
            }
            let cur = match self.slot {
                Some(s) => s,
                None => 0,
            };
            let code = event.code;
            let value = event.value;
            if code == ABS_MT_SLOT {
                if value >= 0 && (value as usize) < MAX_TOUCH_POINTS {
                    let idx = value as usize;
                    self.slot = Some(idx);
                    let mut t = self.touches[idx];
                    t.used = true;
                    self.touches.set(idx, t);
                }
            } else {
                self.apply_axis(cur, code, value);
            }
        } else if event.kind == EV_SYN {
            self.state = MTState::ReadReady;
        }
    }

    /// Whether a complete frame boundary has been observed.
    pub fn is_read_ready(&self) -> (r: bool)
        ensures
            r == (self@.state == MTState::ReadReady),
    {
        match self.state {
            MTState::ReadReady => true,
            _ => false,
        }
    }
}

/// The symbolic name of a multitouch event code, for diagnostics.
pub open spec fn code_name(code: u16) -> Option<Seq<char>> {
    if code == 0x00 {
        Option::Some("X"@)
    } else if code == 0x01 {
        Option::Some("Y"@)
    } else if code == 0x2f {
        Option::Some("SLOT"@)
    } else if code == 0x30 {
        Option::Some("TOUCH_MAJOR"@)
    } else if code == 0x31 {
        Option::Some("TOUCH_MINOR"@)
    } else if code == 0x32 {
        Option::Some("WIDTH_MAJOR"@)
    } else if code == 0x33 {
        Option::Some("WIDTH_MINOR"@)
    } else if code == 0x34 {
        Option::Some("ORIENTATION"@)
    } else if code == 0x35 {
        Option::Some("POSITION_X"@)
    } else if code == 0x36 {
        Option::Some("POSITION_Y"@)
    } else if code == 0x37 {
        Option::Some("TOOL_TYPE"@)
    } else if code == 0x38 {
        Option::Some("BLOB_ID"@)
    } else if code == 0x39 {
        Option::Some("TRACKING_ID"@)
    } else if code == 0x3a {
        Option::Some("PRESSURE"@)
    } else if code == 0x3b {
        Option::Some("DISTANCE"@)
    } else if code == 0x3c {
        Option::Some("TOOL_X"@)
    } else if code == 0x3d {
        Option::Some("TOOL_Y"@)
    } else if code == 0x110 {
        Option::Some("BTN_LEFT"@)
    } else if code == 0x111 {
        Option::Some("BTN_RIGHT"@)
    } else if code == 0x112 {
        Option::Some("BTN_MIDDLE"@)
    } else if code == 0x145 {
        Option::Some("BTN_TOOL_FINGER"@)
    } else if code == 0x14a {
        Option::Some("BTN_TOUCH"@)
    } else if code == 0x14d {
        Option::Some("BTN_TOOL_DOUBLETAP"@)
    } else {
        Option::None
    }
}

/// The symbolic name of a multitouch event code, exactly as `code_name`
/// gives it; codes outside the table have none.
pub fn code_lookup(code: u16) -> (r: Option<&'static str>)
    ensures
        match code_name(code) {
            Option::Some(v) => r matches Option::Some(s) && s@ == v,
            Option::None => r is None,
        },
{
    match code {
        0x00 => Some("X"),
        0x01 => Some("Y"),
        0x2f => Some("SLOT"),
        0x30 => Some("TOUCH_MAJOR"),
        0x31 => Some("TOUCH_MINOR"),
        0x32 => Some("WIDTH_MAJOR"),
        0x33 => Some("WIDTH_MINOR"),
        0x34 => Some("ORIENTATION"),
        0x35 => Some("POSITION_X"),
        0x36 => Some("POSITION_Y"),
        0x37 => Some("TOOL_TYPE"),
        0x38 => Some("BLOB_ID"),
        0x39 => Some("TRACKING_ID"),
        0x3a => Some("PRESSURE"),
        0x3b => Some("DISTANCE"),
        0x3c => Some("TOOL_X"),
        0x3d => Some("TOOL_Y"),
        0x110 => Some("BTN_LEFT"),
        0x111 => Some("BTN_RIGHT"),
        0x112 => Some("BTN_MIDDLE"),
        0x145 => Some("BTN_TOOL_FINGER"),
        0x14a => Some("BTN_TOUCH"),
        0x14d => Some("BTN_TOOL_DOUBLETAP"),
        _ => None,
    }
}

} // verus!
