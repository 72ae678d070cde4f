//! The sweep animation: an angle that walks up and down between zero and
//! [`SWEEP`], one step per cycle.

use vstd::prelude::*;

verus! {

/// The angle at which the sweep turns round, and the number of steps between
/// two turns.
pub const SWEEP: u16 = 270;

/// Where on the dial the arc begins, in degrees. The sweep is drawn from
/// here on.
pub const ARC_START: u16 = 135;

/// Which way the angle is walking.
#[derive(Clone, Copy, Debug, PartialEq, Eq, Structural)]
pub enum Direction {
    /// The angle grows by one per cycle.
    Forward,
    /// The angle shrinks by one per cycle.
    Backward,
}

impl Direction {
    /// The other direction.
    pub open spec fn flipped(self) -> Direction {
        match self {
            Direction::Forward => Direction::Backward,
            Direction::Backward => Direction::Forward,
        }
    }

    /// The other direction.
    pub fn reversed(self) -> (r: Direction)
        ensures
            r == self.flipped(),
    {
        match self {
            Direction::Forward => Direction::Backward,
            Direction::Backward => Direction::Forward,
        }
    }
}

/// The animation as mathematics sees it.
pub struct AnimationModel {
    /// The angle of the sweep.
    pub angle: int,
    /// Which way the angle walks.
    pub direction: Direction,
    /// Cycles counted since the last turn.
    pub counter: int,
}

impl AnimationModel {
    /// The animation before its first cycle.
    pub open spec fn initial() -> AnimationModel {
        AnimationModel { angle: 0, direction: Direction::Forward, counter: 0 }
    }

    /// The counter and the direction fix the angle: walking forward the angle
    /// is the counter, walking backward it is what is left of the sweep.
    pub open spec fn wf(self) -> bool {
        match self.direction {
            Direction::Forward => 0 <= self.counter <= SWEEP && self.angle == self.counter,
            Direction::Backward => 1 <= self.counter <= SWEEP && self.angle == SWEEP
                - self.counter,
        }
    }

    /// Whether the next cycle turns the sweep round: counting it would take
    /// the counter past [`SWEEP`].
    pub open spec fn turns(self) -> bool {
        self.counter + 1 > SWEEP
    }

    /// The direction in which the next cycle moves the angle.
    pub open spec fn next_direction(self) -> Direction {
        if self.turns() {
            self.direction.flipped()
        } else {
            self.direction
        }
    }

    /// The animation one cycle later.
    pub open spec fn advance(self) -> AnimationModel {
        AnimationModel {
            angle: match self.next_direction() {
                Direction::Forward => self.angle + 1,
                Direction::Backward => self.angle - 1,
            },
            direction: self.next_direction(),
            counter: if self.turns() {
                1
            } else {
                self.counter + 1
            },
        }
    }

    /// The animation `n` cycles later.
    pub open spec fn advance_by(self, n: nat) -> AnimationModel
        decreases n,
    {
        if n == 0 {
            self
        } else {
            self.advance().advance_by((n - 1) as nat)
        }
    }
}

/// The angle of a well-formed animation never leaves the sweep.
pub proof fn lemma_angle_within_sweep(m: AnimationModel)
    requires
        m.wf(),
    ensures
        0 <= m.angle <= SWEEP,
{
}

/// A cycle keeps the animation well formed, moves the angle by exactly one in
/// the direction it then has, and turns the sweep round exactly when the
/// counter would pass [`SWEEP`], after which the counter is one.
pub proof fn lemma_advance(m: AnimationModel)
    requires
        m.wf(),
    ensures
        m.advance().wf(),
        0 <= m.advance().angle <= SWEEP,
        m.advance().direction == Direction::Forward ==> m.advance().angle == m.angle + 1,
        m.advance().direction == Direction::Backward ==> m.advance().angle == m.angle - 1,
        m.advance().direction != m.direction <==> m.counter + 1 > SWEEP,
        m.counter + 1 > SWEEP ==> m.advance().counter == 1,
        m.counter + 1 <= SWEEP ==> m.advance().counter == m.counter + 1,
{
}

/// However many cycles pass, the animation stays well formed and its angle
/// stays within the sweep.
pub proof fn lemma_advance_by(m: AnimationModel, n: nat)
    requires
        m.wf(),
    ensures
        m.advance_by(n).wf(),
        0 <= m.advance_by(n).angle <= SWEEP,
    decreases n,
{
    if n > 0 {
        lemma_advance(m);
        lemma_advance_by(m.advance(), (n - 1) as nat);
    }
}

/// While no turn falls among them, `n` cycles move the angle by `n` in the
/// direction of travel and count `n` cycles.
pub proof fn lemma_steady_run(m: AnimationModel, n: nat)
    requires
        m.wf(),
        m.counter + n <= SWEEP,
    ensures
        m.advance_by(n).direction == m.direction,
        m.advance_by(n).counter == m.counter + n,
        m.direction == Direction::Forward ==> m.advance_by(n).angle == m.angle + n,
        m.direction == Direction::Backward ==> m.advance_by(n).angle == m.angle - n,
    decreases n,
{
    if n > 0 {
        lemma_advance(m);
        lemma_steady_run(m.advance(), (n - 1) as nat);
    }
}

/// From its initial state the animation reaches the top of the sweep after
/// [`SWEEP`] cycles, and the cycle after that turns it round: it then walks
/// backward, has counted one cycle, and the angle has begun to fall.
pub proof fn lemma_first_turn()
    ensures
        AnimationModel::initial().wf(),
        AnimationModel::initial().advance_by(SWEEP as nat) == (AnimationModel {
            angle: SWEEP as int,
            direction: Direction::Forward,
            counter: SWEEP as int,
        }),
        AnimationModel::initial().advance_by((SWEEP + 1) as nat) == (AnimationModel {
            angle: SWEEP - 1,
            direction: Direction::Backward,
            counter: 1,
        }),
{
    let start = AnimationModel::initial();
    lemma_steady_run(start, SWEEP as nat);
    let top = start.advance_by(SWEEP as nat);
    lemma_advance_by_split(start, SWEEP as nat, 1);
    assert(top.advance_by(1) == top.advance()) by {
        assert(top.advance().advance_by(0) == top.advance());
    }
}

/// Cycles add up: `a` cycles and then `b` more are `a + b` cycles.
pub proof fn lemma_advance_by_split(m: AnimationModel, a: nat, b: nat)
    ensures
        m.advance_by(a + b) == m.advance_by(a).advance_by(b),
    decreases a,
{
    if a > 0 {
        lemma_advance_by_split(m.advance(), (a - 1) as nat, b);
        assert(m.advance_by(a + b) == m.advance().advance_by((a + b - 1) as nat));
    }
}

/// The animation of the sweep: its angle, its direction of travel and the
/// cycles counted since the last turn.
#[derive(Clone, Copy, Debug)]
pub struct AnimationState {
    angle: u16,
    direction: Direction,
    counter: u16,
}

impl View for AnimationState {
    type V = AnimationModel;

    closed spec fn view(&self) -> AnimationModel {
        AnimationModel {
            angle: self.angle as int,
            direction: self.direction,
            counter: self.counter as int,
        }
    }
}

impl AnimationState {
    /// Whether the state is one that the animation can be in.
    pub open spec fn wf(&self) -> bool {
        self@.wf()
    }

    /// The animation before its first cycle: angle zero, walking forward,
    /// no cycle counted.
    pub fn new() -> (s: AnimationState)
        ensures
            s.wf(),
            s@ == AnimationModel::initial(),
    {
        AnimationState { angle: 0, direction: Direction::Forward, counter: 0 }
    }

    /// Moves the animation on by one cycle and says whether that cycle turned
    /// the sweep round.
    pub fn advance(&mut self) -> (turned: bool)
        requires
            old(self).wf(),
        ensures
            final(self).wf(),
            final(self)@ == old(self)@.advance(),
            turned == old(self)@.turns(),
    {
        let turned = self.counter >= SWEEP;
        let direction = if turned {
            self.direction.reversed()
        } else {
            self.direction
        };
        let counter: u16 = if turned {
            1
        } else {
            self.counter + 1
        };
        let angle: u16 = match direction {
            Direction::Forward => self.angle + 1,
            Direction::Backward => self.angle - 1,
        };
        *self = AnimationState { angle, direction, counter };
        turned
    }

    /// The angle of the sweep, between zero and [`SWEEP`].
    pub fn angle(&self) -> (a: u16)
        ensures
            a == self@.angle,
            self.wf() ==> a <= SWEEP,
    {
        self.angle
    }

    /// Where on the dial the arc ends: the angle of the sweep, counted from
    /// [`ARC_START`].
    pub fn arc_end(&self) -> (end: u16)
        requires
            self.wf(),
        ensures
            end == ARC_START + self@.angle,
    {
        ARC_START + self.angle
    }

    /// Which way the angle is walking.
    pub fn direction(&self) -> (d: Direction)
        ensures
            d == self@.direction,
    {
        self.direction
    }

    /// Cycles counted since the last turn.
    pub fn counter(&self) -> (c: u16)
        ensures
            c == self@.counter,
    {
        self.counter
    }
}

} // verus!
