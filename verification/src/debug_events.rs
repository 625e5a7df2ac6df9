use vstd::prelude::*;

verus! {

/// The kinds of events the debugger shows.
#[derive(Clone, Copy, Debug, PartialEq, Eq, Structural)]
pub enum EventKind {
    Irq,
}

impl EventKind {
    /// The event's name.
    pub fn to_string(&self) -> (r: String)
        ensures
            r@ == "IRQ"@,
    {
        match self {
            EventKind::Irq => "IRQ".to_owned(),
        }
    }
}

/// An event, with the PPU position at which it happened.
#[derive(Clone, Copy, Debug, PartialEq, Eq, Structural)]
pub struct DebugEvent {
    pub kind: EventKind,
    pub scanline: u16,
    pub xpos: u16,
}

/// The events of the current frame and of the previous one.
pub struct DebugEvents {
    events_0: Vec<DebugEvent>,
    events_1: Vec<DebugEvent>,
    current_frame: u8,
}

impl DebugEvents {
    /// The invariant: the current frame is 0 or 1.
    pub closed spec fn wf(&self) -> bool {
        self.current_frame <= 1
    }

    /// The events recorded during the current frame.
    pub closed spec fn current(&self) -> Seq<DebugEvent> {
        if self.current_frame == 0 { self.events_0@ } else { self.events_1@ }
    }

    /// The events recorded during the previous frame.
    pub closed spec fn previous(&self) -> Seq<DebugEvent> {
        if self.current_frame == 0 { self.events_1@ } else { self.events_0@ }
    }

    pub fn new() -> (r: Self)
        ensures
            r.wf(),
            r.current() == Seq::<DebugEvent>::empty(),
            r.previous() == Seq::<DebugEvent>::empty(),
    {
        Self { events_0: Vec::with_capacity(128), events_1: Vec::with_capacity(128), current_frame: 0 }
    }

    /// Records an event in the current frame.
    pub fn add(&mut self, kind: EventKind, scanline: u16, xpos: u16)
        requires
            old(self).wf(),
        ensures
            final(self).wf(),
            final(self).current() == old(self).current().push(DebugEvent { kind, scanline, xpos }),
            final(self).previous() == old(self).previous(),
    {
        let e = DebugEvent { kind, scanline, xpos };
        if self.current_frame == 0 {
            self.events_0.push(e);
        } else {
            self.events_1.push(e);
        }
    }

    /// Starts a new frame: the current frame's events become the previous frame's, and
    /// the new frame starts with none.
    pub fn on_frame_ended(&mut self)
        requires
            old(self).wf(),
        ensures
            final(self).wf(),
            final(self).previous() == old(self).current(),
            final(self).current() == Seq::<DebugEvent>::empty(),
    {
        if self.current_frame == 0 {
            self.current_frame = 1;
            self.events_1.clear();
        } else {
            self.current_frame = 0;
            self.events_0.clear();
        }
    }

    /// The events of the previous (complete) frame.
    pub fn events(&self) -> (r: &[DebugEvent])
        requires
            self.wf(),
        ensures
            r@ == self.previous(),
    {
        if self.current_frame == 0 {
            self.events_1.as_slice()
        } else {
            self.events_0.as_slice()
        }
    }
}

} // verus!
