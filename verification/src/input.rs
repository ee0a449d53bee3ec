//! Pointer injection: absolute targets turned into relative motion events,
//! and the event sequence of a click.

use vstd::prelude::*;

verus! {

/// One event handed to the virtual pointer device.
#[derive(Clone, Copy, Debug, PartialEq, Eq, Structural)]
pub enum InputEvent {
    /// Relative motion along the horizontal axis.
    RelativeX(i32),
    /// Relative motion along the vertical axis.
    RelativeY(i32),
    /// The left button goes down (`true`) or up (`false`).
    LeftButton(bool),
    /// The events sent so far form one report.
    Synchronize,
}

/// The events that move the pointer from its anchor to `(x, y)`: none
/// without an anchor and none for a zero displacement, else the
/// displacement on both axes followed by a synchronisation.
pub open spec fn motion(anchor: Option<(i32, i32)>, x: i32, y: i32) -> Seq<InputEvent> {
    match anchor {
        None => Seq::empty(),
        Some(a) => if a == (x, y) {
            Seq::empty()
        } else {
            seq![
                InputEvent::RelativeX((x - a.0) as i32),
                InputEvent::RelativeY((y - a.1) as i32),
                InputEvent::Synchronize,
            ]
        },
    }
}

/// Whether the displacement from the anchor to `(x, y)` can be written as
/// two `i32` values.
pub open spec fn reachable(anchor: Option<(i32, i32)>, x: i32, y: i32) -> bool {
    anchor matches Some(a) ==> {
        &&& i32::MIN <= x - a.0 <= i32::MAX
        &&& i32::MIN <= y - a.1 <= i32::MAX
    }
}

/// The events of one left click: button down and button up, each in a
/// report of its own.
pub open spec fn click() -> Seq<InputEvent> {
    seq![
        InputEvent::LeftButton(true),
        InputEvent::Synchronize,
        InputEvent::LeftButton(false),
        InputEvent::Synchronize,
    ]
}

/// Tracks the pointer's anchor: the last position it was moved to.
#[derive(Clone, Copy, Debug)]
pub struct MouseManager {
    last_x: i32,
    last_y: i32,
    is_initialized: bool,
}

impl MouseManager {
    /// The last position moved to, if any.
    pub closed spec fn anchor(&self) -> Option<(i32, i32)> {
        if self.is_initialized {
            Some((self.last_x, self.last_y))
        } else {
            None
        }
    }

    /// A manager without an anchor.
    pub fn new() -> (m: MouseManager)
        ensures
            m.anchor() is None,
    {
        MouseManager { last_x: 0, last_y: 0, is_initialized: false }
    }

    /// The last position moved to, if any.
    pub fn position(&self) -> (r: Option<(i32, i32)>)
        ensures
            r == self.anchor(),
    {
        if self.is_initialized {
            Some((self.last_x, self.last_y))
        } else {
            None
        }
    }

    /// Whether `move_to` and `motion_events` accept the target `(x, y)`.
    pub fn can_reach(&self, x: i32, y: i32) -> (ok: bool)
        ensures
            ok == reachable(self.anchor(), x, y),
    {
        if !self.is_initialized {
            return true;
        }
        let dx: i64 = x as i64 - self.last_x as i64;
        let dy: i64 = y as i64 - self.last_y as i64;
        -2147483648 <= dx && dx <= 2147483647 && -2147483648 <= dy && dy <= 2147483647
    }

    /// The events that a move to `(x, y)` emits; the anchor stays.
    pub fn motion_events(&self, x: i32, y: i32) -> (events: Vec<InputEvent>)
        requires
            reachable(self.anchor(), x, y),
        ensures
            events@ == motion(self.anchor(), x, y),
    {
        let mut events: Vec<InputEvent> = Vec::new();
        if self.is_initialized {
            let dx: i32 = x - self.last_x;
            let dy: i32 = y - self.last_y;
            if dx != 0 || dy != 0 {
                events.push(InputEvent::RelativeX(dx));
                events.push(InputEvent::RelativeY(dy));
                events.push(InputEvent::Synchronize);
            }
        }
        assert(events@ =~= motion(self.anchor(), x, y));
        events
    }

    /// Moves the anchor to `(x, y)` and returns the events that carry the
    /// pointer there. The first move only sets the anchor.
    pub fn move_to(&mut self, x: i32, y: i32) -> (events: Vec<InputEvent>)
        requires
            reachable(old(self).anchor(), x, y),
        ensures
            events@ == motion(old(self).anchor(), x, y),
            final(self).anchor() == Some((x, y)),
    {
        let events: Vec<InputEvent> = self.motion_events(x, y);
        self.last_x = x;
        self.last_y = y;
        self.is_initialized = true;
        events
    }

    /// The events of one left click.
    pub fn click_left(&self) -> (events: Vec<InputEvent>)
        ensures
            events@ == click(),
    {
        let mut events: Vec<InputEvent> = Vec::new();
        events.push(InputEvent::LeftButton(true));
        events.push(InputEvent::Synchronize);
        events.push(InputEvent::LeftButton(false));
        events.push(InputEvent::Synchronize);
        assert(events@ =~= click());
        events
    }
}

/// The first move and a move to the anchor itself emit nothing: two moves
/// to one target in a row emit no event in all.
pub proof fn lemma_repeated_target_is_silent(x: i32, y: i32)
    ensures
        motion(None, x, y) == Seq::<InputEvent>::empty(),
        motion(Some((x, y)), x, y) == Seq::<InputEvent>::empty(),
{
}

/// A move to a target other than the anchor emits exactly one pair of
/// relative motions, the displacement on each axis, and one
/// synchronisation.
pub proof fn lemma_motion_is_displacement(ax: i32, ay: i32, x: i32, y: i32)
    requires
        (ax, ay) != (x, y),
        reachable(Some((ax, ay)), x, y),
    ensures
        motion(Some((ax, ay)), x, y).len() == 3,
        motion(Some((ax, ay)), x, y)[0] == InputEvent::RelativeX((x - ax) as i32),
        motion(Some((ax, ay)), x, y)[1] == InputEvent::RelativeY((y - ay) as i32),
        motion(Some((ax, ay)), x, y)[2] == InputEvent::Synchronize,
        ax + (x - ax) as i32 == x,
        ay + (y - ay) as i32 == y,
{
}

} // verus!
