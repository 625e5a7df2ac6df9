use vstd::prelude::*;

verus! {

/// The buttons of a standard NES controller.
#[derive(Clone, Copy, Debug, PartialEq, Eq, Structural)]
pub enum Button {
    A,
    B,
    Select,
    Start,
    Up,
    Down,
    Left,
    Right,
}

/// A change of a button's state at the start of a frame.
#[derive(Clone, Copy, Debug, PartialEq, Eq, Structural)]
pub struct InputChange {
    pub frame: u64,
    pub button: Button,
    pub state: bool,
}

/// A recording of controller inputs, replayed until `end_frame`.
pub struct ReplayInputs {
    pub inputs: Vec<InputChange>,
    pub end_frame: u64,
}

impl ReplayInputs {
    pub fn new() -> (r: Self)
        ensures
            r.inputs@ == Seq::<InputChange>::empty(),
            r.end_frame == 0,
    {
        Self { inputs: Vec::new(), end_frame: 0 }
    }

    /// Records that `button` changed to `state` at frame `frame`.
    pub fn add_input_change(&mut self, frame: u64, button: Button, state: bool)
        ensures
            final(self).inputs@ == old(self).inputs@.push(InputChange { frame, button, state }),
            final(self).end_frame == old(self).end_frame,
    {
        self.inputs.push(InputChange { frame, button, state });
    }

    /// Sets the frame at which the replay ends (before the recording is saved).
    pub fn set_end_frame(&mut self, end_frame: u64)
        ensures
            final(self).inputs == old(self).inputs,
            final(self).end_frame == end_frame,
    {
        self.end_frame = end_frame;
    }
}

} // verus!
