//! The fixed-timestep driver: each tick the controller acts on the reactor's
//! input and output, then the reactor advances by one tick.
use vstd::prelude::*;
use crate::controller::Controller;
use crate::reactor::{reactor_next, Reactor, ReactorView};
use crate::units::SECOND;

verus! {

/// Ticks per simulated second.
pub const TICK_RATE: u64 = 60;

/// The length of one tick, in microseconds.
pub const TICK: u64 = SECOND / TICK_RATE;

/// One tick: the controller takes its turn on the reactor's input and
/// output, then the reactor advances by `TICK`.
pub open spec fn tick<C: Controller>(r: ReactorView, c: C::V) -> (ReactorView, C::V) {
    let input = C::next_input(c, r.output, r.input);
    (reactor_next(ReactorView { input, ..r }, TICK as int), C::next_view(c, r.output, r.input))
}

/// The reactor and the controller's state after `n` ticks.
pub open spec fn simulate<C: Controller>(r: ReactorView, c: C::V, n: nat) -> (ReactorView, C::V)
    decreases n,
{
    if n == 0 {
        (r, c)
    } else {
        let (r1, c1) = simulate::<C>(r, c, (n - 1) as nat);
        tick::<C>(r1, c1)
    }
}

/// A run of a fixed number of ticks of one reactor under one controller.
pub struct Simulation<C> {
    ticks: u64,
    reactor: Reactor,
    controller: C,
}

impl<C: Controller> Simulation<C> {
    pub closed spec fn ticks(&self) -> nat {
        self.ticks as nat
    }

    pub closed spec fn reactor(&self) -> ReactorView {
        self.reactor@
    }

    pub closed spec fn controller(&self) -> C::V {
        self.controller@
    }

    pub closed spec fn wf(&self) -> bool {
        self.reactor@.wf() && self.controller.inv()
    }

    /// A run of `duration_secs` simulated seconds, `TICK_RATE` ticks each.
    pub fn new(duration_secs: u64, reactor: Reactor, controller: C) -> (s: Self)
        requires
            duration_secs * TICK_RATE <= u64::MAX,
            reactor@.wf(),
            controller.inv(),
        ensures
            s.ticks() == duration_secs * TICK_RATE,
            s.reactor() == reactor@,
            s.controller() == controller@,
            s.wf(),
    {
        let ticks = duration_secs * TICK_RATE;
        Simulation { ticks, reactor, controller }
    }

    /// Runs every tick and hands the controller back.
    pub fn run(self) -> (c: C)
        requires
            self.wf(),
        ensures
            c@ == simulate::<C>(self.reactor(), self.controller(), self.ticks()).1,
            c.inv(),
    {
        let ghost r0 = self.reactor@;
        let ghost c0 = self.controller@;
        let ticks = self.ticks;
        let mut reactor = self.reactor;
        let mut controller = self.controller;
        let mut done: u64 = 0;
        while done < ticks
            invariant
                done <= ticks,
                reactor@.wf(),
                controller.inv(),
                (reactor@, controller@) == simulate::<C>(r0, c0, done as nat),
            decreases ticks - done,
        {
            let (input, output) = reactor.controls();
            controller.update(output, input);
            reactor.update(TICK);
            done = done + 1;
        }
        controller
    }
}

} // verus!
