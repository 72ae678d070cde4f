//! The touch input adapter: what the controller reported becomes the one
//! pointer event of a cycle.

use vstd::prelude::*;
use embedded_graphics_core::geometry::Point;
use crate::fault::BusFault;
use crate::panel::on_panel;
use crate::panel::is_on_panel;

verus! {

/// The state of the touch controller at one poll.
#[derive(Clone, Copy, Debug, PartialEq, Eq, Structural)]
pub struct TouchSample {
    /// Column of the touch; meaningless unless `pressed`.
    pub x: i32,
    /// Row of the touch; meaningless unless `pressed`.
    pub y: i32,
    /// Whether a finger is on the panel.
    pub pressed: bool,
}

impl TouchSample {
    /// A pressed sample lies on the panel.
    pub open spec fn wf(self) -> bool {
        self.pressed ==> on_panel(self.x as int, self.y as int)
    }

    /// Tests whether the sample is one that the controller can give: a
    /// pressed sample lies on the panel.
    pub fn is_valid(&self) -> (r: bool)
        ensures
            r == self.wf(),
    {
        !self.pressed || is_on_panel(self.x, self.y)
    }
}

/// Makes `embedded_graphics_core::geometry::Point` known to the verifier. The
/// type is read as the graphics crate defines it: a pair of public `i32`
/// coordinates, `x` and `y`.
#[verifier::external_type_specification]
pub struct ExPoint(Point);

/// Contract of `embedded_graphics_core::geometry::Point::new`, taken on trust
/// from that function's source: the point it returns has the first argument
/// as its `x` and the second as its `y`, unchanged.
pub assume_specification[ Point::new ](x: i32, y: i32) -> (p: Point)
    ensures
        p.x == x,
        p.y == y,
;

/// What the rendering runtime is told about the pointer.
#[derive(Clone, Copy, Debug, PartialEq, Eq, Structural)]
pub enum PointerEvent {
    /// A finger is down at `(x, y)`.
    Pressed { x: i32, y: i32 },
    /// No finger is down. The coordinates carry no meaning.
    Released { x: i32, y: i32 },
}

impl PointerEvent {
    /// The event that stands for a sample: a press where it was taken, or a
    /// release at the origin where there is no sample or it is not pressed.
    pub open spec fn of(sample: Option<TouchSample>) -> PointerEvent {
        match sample {
            Some(s) => if s.pressed {
                PointerEvent::Pressed { x: s.x, y: s.y }
            } else {
                PointerEvent::Released { x: 0, y: 0 }
            },
            None => PointerEvent::Released { x: 0, y: 0 },
        }
    }

    /// The column that the event carries.
    pub open spec fn column(self) -> i32 {
        match self {
            PointerEvent::Pressed { x, .. } => x,
            PointerEvent::Released { x, .. } => x,
        }
    }

    /// The row that the event carries.
    pub open spec fn row(self) -> i32 {
        match self {
            PointerEvent::Pressed { y, .. } => y,
            PointerEvent::Released { y, .. } => y,
        }
    }

    /// The event that stands for a sample.
    pub fn from_sample(sample: Option<TouchSample>) -> (event: PointerEvent)
        ensures
            event == PointerEvent::of(sample),
    {
        match sample {
            Some(s) => {
                if s.pressed {
                    PointerEvent::Pressed { x: s.x, y: s.y }
                } else {
                    PointerEvent::Released { x: 0, y: 0 }
                }
            },
            None => PointerEvent::Released { x: 0, y: 0 },
        }
    }

    /// The place that the event carries, as the rendering runtime takes it.
    pub fn position(&self) -> (p: Point)
        ensures
            p.x == self.column(),
            p.y == self.row(),
    {
        Point::new(self.x(), self.y())
    }

    /// Whether the event is a press.
    pub fn is_pressed(&self) -> (r: bool)
        ensures
            r == (*self is Pressed),
    {
        match self {
            PointerEvent::Pressed { .. } => true,
            PointerEvent::Released { .. } => false,
        }
    }

    /// The column that the event carries.
    pub fn x(&self) -> (v: i32)
        ensures
            v == self.column(),
    {
        match self {
            PointerEvent::Pressed { x, .. } => *x,
            PointerEvent::Released { x, .. } => *x,
        }
    }

    /// The row that the event carries.
    pub fn y(&self) -> (v: i32)
        ensures
            v == self.row(),
    {
        match self {
            PointerEvent::Pressed { y, .. } => *y,
            PointerEvent::Released { y, .. } => *y,
        }
    }
}

/// What a poll of the controller amounts to: the fault where the bus failed,
/// else the event that stands for the sample.
pub open spec fn reading(polled: Result<Option<TouchSample>, BusFault>) -> Result<
    PointerEvent,
    BusFault,
> {
    match polled {
        Ok(sample) => Ok(PointerEvent::of(sample)),
        Err(fault) => Err(fault),
    }
}

/// Turns the outcome of one poll into the cycle's pointer event. A bus fault
/// is handed on as it is; that no finger is down is no fault.
pub fn read(polled: Result<Option<TouchSample>, BusFault>) -> (r: Result<PointerEvent, BusFault>)
    ensures
        r == reading(polled),
{
    match polled {
        Ok(sample) => Ok(PointerEvent::from_sample(sample)),
        Err(fault) => Err(fault),
    }
}

/// Of the updates that the controller produced since the last poll, the one
/// that counts: the last. Without an update there is no sample.
pub open spec fn latest_of(updates: Seq<TouchSample>) -> Option<TouchSample> {
    if updates.len() == 0 {
        None
    } else {
        Some(updates.last())
    }
}

/// Collapses the updates that the controller produced since the last poll
/// into the one state that is reported: the last update wins.
pub fn latest(updates: &Vec<TouchSample>) -> (sample: Option<TouchSample>)
    ensures
        sample == latest_of(updates@),
{
    let n = updates.len();
    if n == 0 {
        None
    } else {
        Some(updates[n - 1])
    }
}

/// A press at `(x, y)` gives the press event at `(x, y)`.
pub proof fn lemma_press_is_reported(x: i32, y: i32)
    ensures
        PointerEvent::of(Some(TouchSample { x, y, pressed: true })) == (PointerEvent::Pressed {
            x,
            y,
        }),
        reading(Ok(Some(TouchSample { x, y, pressed: true }))) == Ok::<PointerEvent, BusFault>(
            PointerEvent::Pressed { x, y },
        ),
{
}

/// Without a press the event is a release at the origin, wherever the sample
/// says it was taken.
pub proof fn lemma_no_touch_is_release(sample: Option<TouchSample>)
    requires
        sample matches Some(s) ==> !s.pressed,
    ensures
        PointerEvent::of(sample) == (PointerEvent::Released { x: 0, y: 0 }),
        reading(Ok(sample)) == Ok::<PointerEvent, BusFault>(
            PointerEvent::Released { x: 0, y: 0 },
        ),
{
}

/// The event of a valid sample lies on the panel.
pub proof fn lemma_event_on_panel(sample: Option<TouchSample>)
    requires
        sample matches Some(s) ==> s.wf(),
    ensures
        on_panel(PointerEvent::of(sample).column() as int, PointerEvent::of(sample).row() as int),
{
}

} // verus!
