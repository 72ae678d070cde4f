//! The cooperative render scheduler: the loop as a machine that is told what
//! happened and says what to do next.
//!
//! A cycle is five exchanges, always in this order: take the time, poll the
//! touch controller, forward the pointer event, redraw, pace. The scheduler
//! asks for one thing at a time and moves on only when the answer to that
//! request arrives; any other event leaves it where it is. A fault of the
//! touch controller or of the panel puts it into a state that it never
//! leaves.

use vstd::prelude::*;
use crate::animation::AnimationModel;
use crate::animation::AnimationState;
use crate::animation::lemma_advance;
use crate::animation::lemma_advance_by;
use crate::fault::BusFault;
use crate::fault::Fault;
use crate::fault::PanelFault;
use crate::flush::DisplayFlushAdapter;
use crate::pacer::ClockTick;
use crate::pacer::FramePacer;
use crate::pacer::elapsed;
use crate::pacer::CYCLE_DELAY_MS;
use crate::touch::PointerEvent;
use crate::touch::TouchSample;
use crate::touch::read;

verus! {

/// Where in its cycle the scheduler stands: what it waits for.
#[derive(Clone, Copy, Debug, PartialEq, Eq, Structural)]
pub enum Phase {
    /// Waiting for the clock reading that opens a cycle.
    AwaitStart,
    /// Waiting for the touch controller's answer.
    AwaitTouch,
    /// Waiting for the rendering runtime to take the pointer event.
    AwaitForward { event: PointerEvent },
    /// Waiting for the rendering runtime to finish redrawing.
    AwaitRedraw { diagnostics: bool },
    /// Waiting for the tick to be fed and the rest to pass.
    AwaitPace { tick: ClockTick, diagnostics: bool },
    /// Stopped by a fault, for good.
    Faulted { fault: Fault },
}

/// What the scheduler is told.
#[derive(Clone, Copy, Debug)]
pub enum Event {
    /// A cycle opens; the monotonic clock reads `now` microseconds.
    Started { now: u64 },
    /// The touch controller was polled.
    TouchPolled { polled: Result<Option<TouchSample>, BusFault> },
    /// The rendering runtime took the pointer event.
    Forwarded,
    /// The rendering runtime worked off its dirty regions, with `outcome` at
    /// the panel; the monotonic clock now reads `now` microseconds.
    Redrawn { outcome: Result<(), PanelFault>, now: u64 },
    /// The tick was fed and the rest has passed.
    Paced,
}

impl Event {
    /// The report that a redraw has ended at clock reading `now`, with the
    /// outcome that the flush adapter holds: its fault, if a transfer
    /// failed.
    pub fn redrawn(flush: &DisplayFlushAdapter, now: u64) -> (event: Event)
        ensures
            event == (Event::Redrawn { outcome: flush@.outcome(), now }),
    {
        Event::Redrawn { outcome: flush.outcome(), now }
    }
}

/// What the scheduler asks for.
#[derive(Clone, Copy, Debug, PartialEq, Eq, Structural)]
pub enum Action {
    /// Read the monotonic clock and report `Started`.
    BeginCycle,
    /// Poll the touch controller and report `TouchPolled`.
    PollTouch,
    /// Hand `event` to the rendering runtime and report `Forwarded`.
    Forward { event: PointerEvent },
    /// Show the sweep at `angle`, let the rendering runtime work off its
    /// dirty regions and report `Redrawn`.
    Redraw { angle: u16 },
    /// Advance the rendering runtime's clock by `tick`, log a diagnostic
    /// snapshot if `diagnostics` is set, rest for `delay_ms` milliseconds and
    /// report `Paced`.
    Pace { tick: ClockTick, delay_ms: u32, diagnostics: bool },
    /// Leave the loop with `fault`.
    Halt { fault: Fault },
}

/// What one cycle meets on the outside.
pub struct CycleInput {
    /// The clock reading when the cycle opens.
    pub started_at: u64,
    /// The answer of the touch controller.
    pub polled: Result<Option<TouchSample>, BusFault>,
    /// How the redraw ends at the panel.
    pub redrawn: Result<(), PanelFault>,
    /// The clock reading when the redraw has ended.
    pub finished_at: u64,
}

impl CycleInput {
    /// Neither the touch controller nor the panel fails in this cycle.
    pub open spec fn clean(self) -> bool {
        self.polled is Ok && self.redrawn is Ok
    }

    /// The fault that this cycle runs into, if it does: that of the touch
    /// controller, which is asked first, or else that of the panel.
    pub open spec fn fault(self) -> Option<Fault> {
        match self.polled {
            Err(f) => Some(Fault::Bus(f)),
            Ok(_) => match self.redrawn {
                Err(f) => Some(Fault::Panel(f)),
                Ok(_) => None,
            },
        }
    }
}

/// The scheduler as mathematics sees it.
pub struct SchedulerModel {
    /// What the scheduler waits for.
    pub phase: Phase,
    /// The sweep animation.
    pub animation: AnimationModel,
    /// The clock reading at which the running cycle opened.
    pub started: Option<u64>,
}

impl SchedulerModel {
    /// The scheduler after set-up: ready for its first cycle where the touch
    /// controller's reset went through, stopped where it did not.
    pub open spec fn boot(reset: Result<(), BusFault>) -> SchedulerModel {
        SchedulerModel {
            phase: match reset {
                Ok(_) => Phase::AwaitStart,
                Err(f) => Phase::Faulted { fault: Fault::Bus(f) },
            },
            animation: AnimationModel::initial(),
            started: None,
        }
    }

    /// The animation is well formed.
    pub open spec fn wf(self) -> bool {
        self.animation.wf()
    }

    /// Whether the loop is still running.
    pub open spec fn running(self) -> bool {
        !(self.phase is Faulted)
    }

    /// The fault that stopped the loop, if one did.
    pub open spec fn fault(self) -> Option<Fault> {
        match self.phase {
            Phase::Faulted { fault } => Some(fault),
            _ => None,
        }
    }

    /// The scheduler after `event`. Only the answer to what it waits for
    /// moves it; anything else leaves it as it is.
    pub open spec fn step(self, event: Event) -> SchedulerModel {
        match (self.phase, event) {
            (Phase::AwaitStart, Event::Started { now }) => SchedulerModel {
                phase: Phase::AwaitTouch,
                started: Some(now),
                ..self
            },
            (Phase::AwaitTouch, Event::TouchPolled { polled }) => SchedulerModel {
                phase: match crate::touch::reading(polled) {
                    Ok(event) => Phase::AwaitForward { event },
                    Err(f) => Phase::Faulted { fault: Fault::Bus(f) },
                },
                ..self
            },
            (Phase::AwaitForward { .. }, Event::Forwarded) => SchedulerModel {
                phase: Phase::AwaitRedraw { diagnostics: self.animation.turns() },
                animation: self.animation.advance(),
                ..self
            },
            (Phase::AwaitRedraw { diagnostics }, Event::Redrawn { outcome, now }) => match outcome {
                Ok(_) => SchedulerModel {
                    phase: Phase::AwaitPace {
                        tick: ClockTick { micros: elapsed(self.started, now) },
                        diagnostics,
                    },
                    started: None,
                    ..self
                },
                Err(f) => SchedulerModel { phase: Phase::Faulted { fault: Fault::Panel(f) }, ..self },
            },
            (Phase::AwaitPace { .. }, Event::Paced) => SchedulerModel {
                phase: Phase::AwaitStart,
                ..self
            },
            _ => self,
        }
    }

    /// What the scheduler asks for in the state it is in.
    pub open spec fn pending(self) -> Action {
        match self.phase {
            Phase::AwaitStart => Action::BeginCycle,
            Phase::AwaitTouch => Action::PollTouch,
            Phase::AwaitForward { event } => Action::Forward { event },
            Phase::AwaitRedraw { .. } => Action::Redraw { angle: self.animation.angle as u16 },
            Phase::AwaitPace { tick, diagnostics } => Action::Pace {
                tick,
                delay_ms: CYCLE_DELAY_MS,
                diagnostics,
            },
            Phase::Faulted { fault } => Action::Halt { fault },
        }
    }

    /// The scheduler after a run of events, the first event first.
    pub open spec fn run(self, events: Seq<Event>) -> SchedulerModel
        decreases events.len(),
    {
        if events.len() == 0 {
            self
        } else {
            self.run(events.drop_last()).step(events.last())
        }
    }

    /// The scheduler after the `n`-th of the five exchanges of a cycle that
    /// meets `input`, each request answered as asked.
    pub open spec fn within_cycle(self, input: CycleInput, n: nat) -> SchedulerModel {
        let s1 = self.step(Event::Started { now: input.started_at });
        let s2 = s1.step(Event::TouchPolled { polled: input.polled });
        let s3 = s2.step(Event::Forwarded);
        let s4 = s3.step(Event::Redrawn { outcome: input.redrawn, now: input.finished_at });
        let s5 = s4.step(Event::Paced);
        if n == 0 {
            self
        } else if n == 1 {
            s1
        } else if n == 2 {
            s2
        } else if n == 3 {
            s3
        } else if n == 4 {
            s4
        } else {
            s5
        }
    }

    /// The scheduler after a whole cycle that meets `input`.
    pub open spec fn cycle(self, input: CycleInput) -> SchedulerModel {
        self.within_cycle(input, 5)
    }

    /// What the scheduler asks for in the course of a cycle that meets
    /// `input`: the request that follows each of the five events.
    pub open spec fn cycle_actions(self, input: CycleInput) -> Seq<Action> {
        Seq::new(5, |i: int| self.within_cycle(input, (i + 1) as nat).pending())
    }

    /// The scheduler after one cycle for each of `inputs`, the first input
    /// first.
    pub open spec fn cycles(self, inputs: Seq<CycleInput>) -> SchedulerModel
        decreases inputs.len(),
    {
        if inputs.len() == 0 {
            self
        } else {
            self.cycles(inputs.drop_last()).cycle(inputs.last())
        }
    }
}

/// No event makes the animation ill formed.
pub proof fn lemma_step_wf(m: SchedulerModel, event: Event)
    requires
        m.wf(),
    ensures
        m.step(event).wf(),
        0 <= m.step(event).animation.angle <= crate::animation::SWEEP,
{
    lemma_advance(m.animation);
}

/// A cycle without a fault asks, in this order and once each, for the touch
/// poll, for the forwarding of the one pointer event that stands for the
/// sample, for the redraw at the angle that the animation has after its
/// step, and for the pacing with the time that the cycle took; it then asks
/// for the next cycle. Input is thus applied before the cycle's own redraw.
pub proof fn lemma_clean_cycle(m: SchedulerModel, input: CycleInput)
    requires
        m.wf(),
        m.phase is AwaitStart,
        input.clean(),
    ensures
        m.cycle_actions(input) == seq![
            Action::PollTouch,
            Action::Forward { event: PointerEvent::of(input.polled->Ok_0) },
            Action::Redraw { angle: m.animation.advance().angle as u16 },
            Action::Pace {
                tick: ClockTick { micros: elapsed(Some(input.started_at), input.finished_at) },
                delay_ms: CYCLE_DELAY_MS,
                diagnostics: m.animation.turns(),
            },
            Action::BeginCycle,
        ],
        m.cycle(input) == (SchedulerModel {
            phase: Phase::AwaitStart,
            animation: m.animation.advance(),
            started: None,
        }),
        m.cycle(input).wf(),
{
    lemma_advance(m.animation);
    assert(m.cycle_actions(input) =~= seq![
        Action::PollTouch,
        Action::Forward { event: PointerEvent::of(input.polled->Ok_0) },
        Action::Redraw { angle: m.animation.advance().angle as u16 },
        Action::Pace {
            tick: ClockTick { micros: elapsed(Some(input.started_at), input.finished_at) },
            delay_ms: CYCLE_DELAY_MS,
            diagnostics: m.animation.turns(),
        },
        Action::BeginCycle,
    ]);
}

/// In a cycle in which the touch controller reports a press at `(x, y)`,
/// the scheduler forwards the press at `(x, y)`, and it forwards nothing
/// else in that cycle.
pub proof fn lemma_press_forwarded_once(m: SchedulerModel, input: CycleInput, x: i32, y: i32)
    requires
        m.wf(),
        m.phase is AwaitStart,
        input.polled == Ok::<Option<TouchSample>, BusFault>(
            Some(TouchSample { x, y, pressed: true }),
        ),
    ensures
        m.cycle_actions(input)[1] == (Action::Forward { event: PointerEvent::Pressed { x, y } }),
        forall|i: int| 0 <= i < 5 && i != 1 ==> !(#[trigger] m.cycle_actions(input)[i] is Forward),
{
}

/// In a cycle in which the touch controller reports no touch, or a sample
/// that is not pressed, the scheduler forwards the release at the origin,
/// and it forwards nothing else in that cycle.
pub proof fn lemma_release_forwarded_once(m: SchedulerModel, input: CycleInput)
    requires
        m.wf(),
        m.phase is AwaitStart,
        input.polled matches Ok(sample) && (sample matches Some(s) ==> !s.pressed),
    ensures
        m.cycle_actions(input)[1] == (Action::Forward {
            event: PointerEvent::Released { x: 0, y: 0 },
        }),
        forall|i: int| 0 <= i < 5 && i != 1 ==> !(#[trigger] m.cycle_actions(input)[i] is Forward),
{
}

/// A fault of the touch controller stops the loop at the poll: nothing is
/// forwarded, the animation does not move, nothing is redrawn, and from
/// then on the scheduler asks only to halt with that fault.
pub proof fn lemma_bus_fault_halts(m: SchedulerModel, input: CycleInput, fault: BusFault)
    requires
        m.phase is AwaitStart,
        input.polled == Err::<Option<TouchSample>, BusFault>(fault),
    ensures
        m.cycle_actions(input)[0] == Action::PollTouch,
        forall|i: int|
            1 <= i < 5 ==> #[trigger] m.cycle_actions(input)[i] == (Action::Halt {
                fault: Fault::Bus(fault),
            }),
        m.cycle(input).fault() == Some(Fault::Bus(fault)),
        m.cycle(input).animation == m.animation,
{
}

/// A fault of the panel stops the loop at the redraw: the cycle is not
/// paced, and from then on the scheduler asks only to halt with that fault.
pub proof fn lemma_panel_fault_halts(m: SchedulerModel, input: CycleInput, fault: PanelFault)
    requires
        m.phase is AwaitStart,
        input.polled is Ok,
        input.redrawn == Err::<(), PanelFault>(fault),
    ensures
        forall|i: int|
            3 <= i < 5 ==> #[trigger] m.cycle_actions(input)[i] == (Action::Halt {
                fault: Fault::Panel(fault),
            }),
        m.cycle(input).fault() == Some(Fault::Panel(fault)),
{
}

/// The faulted state is final: whatever events follow, the scheduler stays
/// as it is and asks only to halt. No further cycle is attempted.
pub proof fn lemma_fault_is_terminal(m: SchedulerModel, events: Seq<Event>)
    requires
        !m.running(),
    ensures
        m.run(events) == m,
        m.run(events).pending() == (Action::Halt { fault: m.fault()->Some_0 }),
    decreases events.len(),
{
    if events.len() > 0 {
        lemma_fault_is_terminal(m, events.drop_last());
    }
}

/// Once faulted, further cycles change nothing, whatever they would meet.
pub proof fn lemma_no_cycle_after_fault(m: SchedulerModel, inputs: Seq<CycleInput>)
    requires
        !m.running(),
    ensures
        m.cycles(inputs) == m,
    decreases inputs.len(),
{
    if inputs.len() > 0 {
        lemma_no_cycle_after_fault(m, inputs.drop_last());
    }
}

/// A run of cycles without a fault moves the animation by one step per
/// cycle and leaves the scheduler running, ready for the next cycle: what
/// the touch controller reports has no bearing on the animation.
pub proof fn lemma_clean_cycles(m: SchedulerModel, inputs: Seq<CycleInput>)
    requires
        m.wf(),
        m.phase is AwaitStart,
        forall|i: int| 0 <= i < inputs.len() ==> (#[trigger] inputs[i]).clean(),
    ensures
        m.cycles(inputs) == (SchedulerModel {
            phase: Phase::AwaitStart,
            animation: m.animation.advance_by(inputs.len()),
            started: if inputs.len() == 0 {
                m.started
            } else {
                None
            },
        }),
        m.cycles(inputs).wf(),
    decreases inputs.len(),
{
    if inputs.len() > 0 {
        let front = inputs.drop_last();
        lemma_clean_cycles(m, front);
        let before = m.cycles(front);
        lemma_clean_cycle(before, inputs.last());
        crate::animation::lemma_advance_by_split(m.animation, front.len(), 1);
        assert(m.animation.advance_by(front.len()).advance_by(1) == m.animation.advance_by(
            front.len(),
        ).advance()) by {
            let a = m.animation.advance_by(front.len());
            assert(a.advance().advance_by(0) == a.advance());
        }
        lemma_advance_by(m.animation, inputs.len());
    }
}

/// A run of cycles ends with the first cycle that meets a fault: the
/// scheduler is stopped with that cycle's fault, and the cycles behind it
/// are never run.
pub proof fn lemma_first_fault_ends_the_run(
    m: SchedulerModel,
    inputs: Seq<CycleInput>,
    k: int,
)
    requires
        m.wf(),
        m.phase is AwaitStart,
        0 <= k < inputs.len(),
        forall|i: int| 0 <= i < k ==> (#[trigger] inputs[i]).clean(),
        !inputs[k].clean(),
    ensures
        m.cycles(inputs).fault() == inputs[k].fault(),
        !m.cycles(inputs).running(),
        m.cycles(inputs) == m.cycles(inputs.take(k + 1)),
    decreases inputs.len(),
{
    let front = inputs.drop_last();
    if k == inputs.len() - 1 {
        lemma_clean_cycles(m, front);
        assert(inputs.take(k + 1) =~= inputs);
    } else {
        lemma_first_fault_ends_the_run(m, front, k);
        assert(front.take(k + 1) =~= inputs.take(k + 1));
        lemma_no_cycle_after_fault(m.cycles(front), seq![inputs.last()]);
        assert(seq![inputs.last()].drop_last() =~= Seq::<CycleInput>::empty());
        assert(m.cycles(front).cycles(seq![inputs.last()]) == m.cycles(front).cycle(
            inputs.last(),
        ));
    }
}

/// The loop's scheduler. It owns the animation and the frame pacer, and it
/// turns what the touch controller reports into the cycle's pointer event.
#[derive(Clone, Copy, Debug)]
pub struct RenderScheduler {
    phase: Phase,
    animation: AnimationState,
    pacer: FramePacer,
}

impl View for RenderScheduler {
    type V = SchedulerModel;

    closed spec fn view(&self) -> SchedulerModel {
        SchedulerModel {
            phase: self.phase,
            animation: self.animation@,
            started: self.pacer.started(),
        }
    }
}

impl RenderScheduler {
    /// Whether the scheduler is in a state that it can reach.
    pub open spec fn wf(&self) -> bool {
        self@.wf()
    }

    /// The scheduler after set-up, given how the reset of the touch
    /// controller went: ready for its first cycle, or stopped by the reset's
    /// fault.
    pub fn start(reset: Result<(), BusFault>) -> (s: RenderScheduler)
        ensures
            s.wf(),
            s@ == SchedulerModel::boot(reset),
    {
        let phase = match reset {
            Ok(_) => Phase::AwaitStart,
            Err(f) => Phase::Faulted { fault: Fault::Bus(f) },
        };
        RenderScheduler { phase, animation: AnimationState::new(), pacer: FramePacer::new() }
    }

    /// Takes one event and says what to do next.
    pub fn step(&mut self, event: Event) -> (action: Action)
        requires
            old(self).wf(),
        ensures
            final(self).wf(),
            final(self)@ == old(self)@.step(event),
            action == final(self)@.pending(),
    {
        proof {
            lemma_step_wf(old(self)@, event);
        }
        match self.phase {
            Phase::AwaitStart => {
                if let Event::Started { now } = event {
                    self.pacer.begin(now);
                    self.phase = Phase::AwaitTouch;
                }
            },
            Phase::AwaitTouch => {
                if let Event::TouchPolled { polled } = event {
                    self.phase = match read(polled) {
                        Ok(event) => Phase::AwaitForward { event },
                        Err(f) => Phase::Faulted { fault: Fault::Bus(f) },
                    };
                }
            },
            Phase::AwaitForward { .. } => {
                if let Event::Forwarded = event {
                    let turned = self.animation.advance();
                    self.phase = Phase::AwaitRedraw { diagnostics: turned };
                }
            },
            Phase::AwaitRedraw { diagnostics } => {
                if let Event::Redrawn { outcome, now } = event {
                    match outcome {
                        Ok(_) => {
                            let tick = self.pacer.finish(now);
                            self.phase = Phase::AwaitPace { tick, diagnostics };
                        },
                        Err(f) => {
                            self.phase = Phase::Faulted { fault: Fault::Panel(f) };
                        },
                    }
                }
            },
            Phase::AwaitPace { .. } => {
                if let Event::Paced = event {
                    self.phase = Phase::AwaitStart;
                }
            },
            Phase::Faulted { .. } => {},
        }
        self.pending()
    }

    /// What the scheduler asks for in the state it is in.
    pub fn pending(&self) -> (action: Action)
        ensures
            action == self@.pending(),
    {
        match self.phase {
            Phase::AwaitStart => Action::BeginCycle,
            Phase::AwaitTouch => Action::PollTouch,
            Phase::AwaitForward { event } => Action::Forward { event },
            Phase::AwaitRedraw { .. } => Action::Redraw { angle: self.animation.angle() },
            Phase::AwaitPace { tick, diagnostics } => Action::Pace {
                tick,
                delay_ms: self.pacer.delay_ms(),
                diagnostics,
            },
            Phase::Faulted { fault } => Action::Halt { fault },
        }
    }

    /// Whether the loop is still running.
    pub fn is_running(&self) -> (r: bool)
        ensures
            r == self@.running(),
    {
        match self.phase {
            Phase::Faulted { .. } => false,
            _ => true,
        }
    }

    /// The fault that stopped the loop, if one did.
    pub fn fault(&self) -> (f: Option<Fault>)
        ensures
            f == self@.fault(),
    {
        match self.phase {
            Phase::Faulted { fault } => Some(fault),
            _ => None,
        }
    }

    /// What the scheduler waits for.
    pub fn phase(&self) -> (p: Phase)
        ensures
            p == self@.phase,
    {
        self.phase
    }

    /// The sweep animation as it stands.
    pub fn animation(&self) -> (a: AnimationState)
        ensures
            a@ == self@.animation,
            self.wf() ==> a.wf(),
    {
        self.animation
    }
}

} // verus!
