//! The canonical touch-state snapshot shared by both decoder families,
//! and the capability interface of a platform input backend.

use vstd::prelude::*;

use crate::multitouch::{
    button_state_default, touch_data_default, ButtonState, MTStateMachine, TouchData,
    MAX_TOUCH_POINTS,
};

verus! {

/// One consistent instant of the contact table and the buttons, as
/// delivered to a consumer. Either decoder family produces this shape.
#[derive(Clone, Debug)]
pub struct TouchState {
    pub touches: Vec<TouchData>,
    pub buttons: ButtonState,
}

/// A well-formed snapshot always holds exactly `MAX_TOUCH_POINTS`
/// records.
pub open spec fn touch_state_wf(t: TouchState) -> bool {
    t.touches@.len() == MAX_TOUCH_POINTS
}

impl Default for TouchState {
    /// An empty snapshot: a cleared table and no buttons pressed.
    fn default() -> (t: Self)
        ensures
            touch_state_wf(t),
            forall|k: int| 0 <= k < t.touches@.len() ==> t.touches@[k] == touch_data_default(),
            t.buttons == button_state_default(),
    {
        let mut touches: Vec<TouchData> = Vec::new();
        let mut i: usize = 0;
        while i < MAX_TOUCH_POINTS
            invariant
                i <= MAX_TOUCH_POINTS,
                touches@.len() == i,
                forall|k: int| 0 <= k < i ==> touches@[k] == touch_data_default(),
            decreases MAX_TOUCH_POINTS - i,
        {
            touches.push(TouchData::default());
            i = i + 1;
        }
        TouchState { touches, buttons: ButtonState::default() }
    }
}

impl MTStateMachine {
    /// The decoder's current table and buttons as one snapshot.
    pub fn snapshot(&self) -> (t: TouchState)
        ensures
            t.touches@ == self@.touches,
            t.buttons == self@.buttons,
    {
        TouchState { touches: self.touches.clone(), buttons: self.buttons }
    }
}

/// A failure of a platform input backend, carried as plain text from the
/// OS layer.
#[derive(Clone, Debug)]
pub enum InputError {
    OpenFailed(String),
    GrabFailed(String),
    ReadError(String),
}

/// The capability interface of a platform input backend: open a device
/// by path, optionally grab it exclusively, and poll for the next
/// complete touch-state snapshot (`None` when nothing is pending).
/// Implementations live outside this crate, one per host platform, and
/// must be indistinguishable to callers.
pub trait InputBackend: Sized {
    fn open(device_path: &str) -> (r: Result<Self, InputError>);

    fn grab(&mut self) -> (r: Result<(), InputError>);

    fn ungrab(&mut self) -> (r: Result<(), InputError>);

    fn poll_events(&mut self) -> (r: Result<Option<TouchState>, InputError>);
}

} // verus!
