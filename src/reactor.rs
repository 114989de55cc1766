//! The reactor: its control surface (`Input`), its snapshot (`Output`), the
//! fission core and the turbine, and the per-tick update that ties them.
use vstd::prelude::*;
use crate::units::{
    lemma_fraction_bound, approach, approach_spec, clamp, div_trunc, clamp_spec, min, min_spec, mul_div, scale_by_time, HEAT_POTENTIAL,
    ONE, RATE_MAX, SECOND, TARGET_SPEED, TEMPERATURE_MAX, TEMPERATURE_SPEED,
};

verus! {

/// What an `Input` holds, as integers.
pub ghost struct InputView {
    pub fission_rate: int,
    pub turbine_rate: int,
    pub load: int,
}

impl InputView {
    /// Every field is a percentage in `[0, RATE_MAX]`.
    pub open spec fn wf(self) -> bool {
        &&& 0 <= self.fission_rate <= RATE_MAX
        &&& 0 <= self.turbine_rate <= RATE_MAX
        &&& 0 <= self.load <= RATE_MAX
    }
}

/// The control surface: fission target rate, turbine target rate and load,
/// each stored clamped to `[0, RATE_MAX]`.
pub struct Input {
    fission_rate: i64,
    turbine_rate: i64,
    load: i64,
}

impl View for Input {
    type V = InputView;

    closed spec fn view(&self) -> InputView {
        InputView {
            fission_rate: self.fission_rate as int,
            turbine_rate: self.turbine_rate as int,
            load: self.load as int,
        }
    }
}

/// A percentage as the setters store it.
pub open spec fn rate_of(x: int) -> int {
    clamp_spec(x, 0, RATE_MAX as int)
}

fn clamp_rate(x: i64) -> (r: i64)
    ensures
        r == rate_of(x as int),
{
    clamp(x as i128, 0, RATE_MAX as i128) as i64
}

impl Input {
    pub(crate) fn new() -> (r: Input)
        ensures
            r@ == (InputView { fission_rate: 0, turbine_rate: 0, load: 0 }),
    {
        Input { fission_rate: 0, turbine_rate: 0, load: 0 }
    }

    pub fn set_fission_rate(&mut self, fission_rate: i64)
        ensures
            final(self)@ == (InputView { fission_rate: rate_of(fission_rate as int), ..old(self)@ }),
    {
        self.fission_rate = clamp_rate(fission_rate);
    }

    pub fn get_fission_rate(&self) -> (r: i64)
        ensures
            r == self@.fission_rate,
    {
        self.fission_rate
    }

    pub fn set_turbine_rate(&mut self, turbine_rate: i64)
        ensures
            final(self)@ == (InputView { turbine_rate: rate_of(turbine_rate as int), ..old(self)@ }),
    {
        self.turbine_rate = clamp_rate(turbine_rate);
    }

    pub fn get_turbine_rate(&self) -> (r: i64)
        ensures
            r == self@.turbine_rate,
    {
        self.turbine_rate
    }

    pub fn set_load(&mut self, load: i64)
        ensures
            final(self)@ == (InputView { load: rate_of(load as int), ..old(self)@ }),
    {
        self.load = clamp_rate(load);
    }

    pub fn get_load(&self) -> (r: i64)
        ensures
            r == self@.load,
    {
        self.load
    }
}

/// What an `Output` holds, as integers.
pub ghost struct OutputView {
    pub temperature: int,
    pub load: int,
    pub power: int,
    pub fuel_potential: int,
    pub fission_rate: int,
    pub turbine_rate: int,
}

/// The snapshot a reactor publishes after each tick. The actual fission and
/// turbine rates are hidden from the operator panel, and kept here for
/// measurement.
pub struct Output {
    temperature: i64,
    load: i64,
    power: i64,
    fuel_potential: i64,
    fission_rate: i64,
    turbine_rate: i64,
}

impl View for Output {
    type V = OutputView;

    closed spec fn view(&self) -> OutputView {
        OutputView {
            temperature: self.temperature as int,
            load: self.load as int,
            power: self.power as int,
            fuel_potential: self.fuel_potential as int,
            fission_rate: self.fission_rate as int,
            turbine_rate: self.turbine_rate as int,
        }
    }
}

impl Output {
    fn new(fuel_potential: i64) -> (r: Output)
        ensures
            r@ == (OutputView {
                temperature: 0,
                load: 0,
                power: 0,
                fuel_potential: fuel_potential as int,
                fission_rate: 0,
                turbine_rate: 0,
            }),
    {
        Output { temperature: 0, load: 0, power: 0, fuel_potential, fission_rate: 0, turbine_rate: 0 }
    }

    pub fn get_temperature(&self) -> (r: i64)
        ensures
            r == self@.temperature,
    {
        self.temperature
    }

    pub fn get_load(&self) -> (r: i64)
        ensures
            r == self@.load,
    {
        self.load
    }

    pub fn get_power(&self) -> (r: i64)
        ensures
            r == self@.power,
    {
        self.power
    }

    pub fn get_fuel_potential(&self) -> (r: i64)
        ensures
            r == self@.fuel_potential,
    {
        self.fuel_potential
    }

    /// Hidden, cannot be read in game.
    pub fn get_fission_rate(&self) -> (r: i64)
        ensures
            r == self@.fission_rate,
    {
        self.fission_rate
    }

    /// Hidden, cannot be read in game.
    pub fn get_turbine_rate(&self) -> (r: i64)
        ensures
            r == self@.turbine_rate,
    {
        self.turbine_rate
    }
}

/// The state of an actuator (the core or the turbine): its actual activity
/// and the rate-limited target it is moving toward.
pub ghost struct ActuatorView {
    pub value: int,
    pub target: int,
}

impl ActuatorView {
    pub open spec fn wf(self) -> bool {
        &&& 0 <= self.value <= RATE_MAX
        &&& 0 <= self.target <= RATE_MAX
    }
}

/// The target after one call: toward `goal` by at most `TARGET_SPEED` units per second.
pub open spec fn next_target(target: int, goal: int, dt: int) -> int {
    approach_spec(target, goal, TARGET_SPEED * dt)
}

/// The actual activity after one call: a first-order relaxation toward `goal`,
/// clamped to `[0, RATE_MAX]`.
pub open spec fn relax(value: int, goal: int, dt: int) -> int {
    clamp_spec(value + scale_by_time(goal - value, dt), 0, RATE_MAX as int)
}

/// The core after one call; its value relaxes toward its target capped at
/// `HEAT_POTENTIAL`.
pub open spec fn core_next(c: ActuatorView, goal: int, dt: int) -> ActuatorView {
    let target = next_target(c.target, goal, dt);
    ActuatorView { value: relax(c.value, min_spec(target, HEAT_POTENTIAL as int), dt), target }
}

/// The turbine after one call; its value relaxes toward its target.
pub open spec fn turbine_next(t: ActuatorView, goal: int, dt: int) -> ActuatorView {
    let target = next_target(t.target, goal, dt);
    ActuatorView { value: relax(t.value, target, dt), target }
}

/// The shared step of both actuators.
fn step_actuator(value: i64, target: i64, goal: i64, cap: i64, dt: u64) -> (r: (i64, i64))
    requires
        0 <= value <= RATE_MAX,
        0 <= target <= RATE_MAX,
        0 <= goal <= RATE_MAX,
        0 <= cap,
    ensures
        r.1 == next_target(target as int, goal as int, dt as int),
        r.0 == relax(value as int, min_spec(r.1 as int, cap as int), dt as int),
        0 <= r.0 <= RATE_MAX,
        0 <= r.1 <= RATE_MAX,
{
    let step: i128 = (TARGET_SPEED as i128) * (dt as i128);
    assert(step <= 5 * 0xffff_ffff_ffff_ffff) by (nonlinear_arith)
        requires
            step == TARGET_SPEED * dt,
            TARGET_SPEED == 5,
            dt <= 0xffff_ffff_ffff_ffff,
    ;
    let new_target = approach(target as i128, goal as i128, step);
    let goal_value = min(new_target, cap as i128);
    let change = mul_div(goal_value - value as i128, dt as i128, SECOND as i128);
    let new_value = clamp(value as i128 + change, 0, RATE_MAX as i128);
    (new_value as i64, new_target as i64)
}

/// The fission core.
pub struct Core {
    value: i64,
    target: i64,
}

impl View for Core {
    type V = ActuatorView;

    closed spec fn view(&self) -> ActuatorView {
        ActuatorView { value: self.value as int, target: self.target as int }
    }
}

impl Core {
    pub fn new() -> (r: Core)
        ensures
            r@ == (ActuatorView { value: 0, target: 0 }),
    {
        Core { value: 0, target: 0 }
    }

    /// The actual activity.
    pub fn get_value(&self) -> (r: i64)
        ensures
            r == self@.value,
    {
        self.value
    }

    /// The rate-limited target.
    pub fn get_target(&self) -> (r: i64)
        ensures
            r == self@.target,
    {
        self.target
    }

    /// Moves the target toward `new_target` and lets the value follow.
    pub fn update(&mut self, new_target: i64, time_delta: u64)
        requires
            old(self)@.wf(),
            0 <= new_target <= RATE_MAX,
        ensures
            final(self)@ == core_next(old(self)@, new_target as int, time_delta as int),
            final(self)@.wf(),
    {
        let (value, target) = step_actuator(self.value, self.target, new_target, HEAT_POTENTIAL, time_delta);
        self.value = value;
        self.target = target;
    }
}

/// The turbine.
pub struct Turbine {
    value: i64,
    target: i64,
}

impl View for Turbine {
    type V = ActuatorView;

    closed spec fn view(&self) -> ActuatorView {
        ActuatorView { value: self.value as int, target: self.target as int }
    }
}

impl Turbine {
    pub fn new() -> (r: Turbine)
        ensures
            r@ == (ActuatorView { value: 0, target: 0 }),
    {
        Turbine { value: 0, target: 0 }
    }

    /// The actual activity.
    pub fn get_value(&self) -> (r: i64)
        ensures
            r == self@.value,
    {
        self.value
    }

    /// The rate-limited target.
    pub fn get_target(&self) -> (r: i64)
        ensures
            r == self@.target,
    {
        self.target
    }

    /// Moves the target toward `new_target` and lets the value follow.
    pub fn update(&mut self, new_target: i64, time_delta: u64)
        requires
            old(self)@.wf(),
            0 <= new_target <= RATE_MAX,
        ensures
            final(self)@ == turbine_next(old(self)@, new_target as int, time_delta as int),
            final(self)@.wf(),
    {
        let (value, target) = step_actuator(self.value, self.target, new_target, RATE_MAX, time_delta);
        self.value = value;
        self.target = target;
    }
}

/// What a `Reactor` holds, as integers.
pub ghost struct ReactorView {
    pub fuel_potential: int,
    pub power_max: int,
    pub turbine: ActuatorView,
    pub core: ActuatorView,
    pub load: int,
    pub input: InputView,
    pub temperature: int,
    pub output: OutputView,
}

impl ReactorView {
    /// The reactor's invariant: positive fuel potential, actuators and input
    /// in range, and a temperature in `[0, TEMPERATURE_MAX]`.
    pub open spec fn wf(self) -> bool {
        &&& 0 < self.fuel_potential
        &&& self.core.wf()
        &&& self.turbine.wf()
        &&& self.input.wf()
        &&& 0 <= self.load <= RATE_MAX
        &&& 0 <= self.temperature <= TEMPERATURE_MAX
    }
}

/// Heat produced by a core of activity `core_value`.
pub open spec fn heat_supply_of(core_value: int, fuel_potential: int) -> int {
    div_trunc(2 * core_value * fuel_potential, ONE as int)
}

/// Heat drawn by a turbine of activity `turbine_value`.
pub open spec fn heat_demand_of(turbine_value: int) -> int {
    turbine_value * 75
}

/// Power delivered by a turbine of activity `turbine_value`.
pub open spec fn power_of(turbine_value: int, power_max: int) -> int {
    div_trunc(turbine_value * power_max, RATE_MAX as int)
}

/// How far the temperature lies from what supply and demand ask for.
pub open spec fn temperature_gap(r: ReactorView) -> int {
    heat_supply_of(r.core.value, r.fuel_potential) - r.turbine.value * 100 - r.temperature
}

/// The change of temperature in one tick: toward the gap at
/// `TEMPERATURE_SPEED` units per second, never past it.
pub open spec fn temperature_step(gap: int, dt: int) -> int {
    let limit = TEMPERATURE_SPEED * dt;
    if gap > 0 {
        min_spec(limit, gap)
    } else if gap < 0 {
        -min_spec(limit, -gap)
    } else {
        0
    }
}

/// The temperature after one tick, clamped to `[0, TEMPERATURE_MAX]`.
pub open spec fn next_temperature(r: ReactorView, dt: int) -> int {
    clamp_spec(r.temperature + temperature_step(temperature_gap(r), dt), 0, TEMPERATURE_MAX as int)
}

/// The reactor after one tick of `dt` microseconds: the temperature reacts to
/// the actuators as they were, then the core and the turbine move toward the
/// input, then the output is refreshed.
pub open spec fn reactor_next(r: ReactorView, dt: int) -> ReactorView {
    let temperature = next_temperature(r, dt);
    let core = core_next(r.core, r.input.fission_rate, dt);
    let turbine = turbine_next(r.turbine, r.input.turbine_rate, dt);
    ReactorView {
        temperature,
        core,
        turbine,
        output: OutputView {
            temperature,
            load: r.input.load,
            power: power_of(turbine.value, r.power_max),
            fuel_potential: r.fuel_potential,
            fission_rate: core.value,
            turbine_rate: turbine.value,
        },
        ..r
    }
}

/// The reactor as `Reactor::new` makes it.
pub open spec fn reactor_init(fuel_potential: int, power_max: int) -> ReactorView {
    ReactorView {
        fuel_potential,
        power_max,
        turbine: ActuatorView { value: 0, target: 0 },
        core: ActuatorView { value: 0, target: 0 },
        load: 0,
        input: InputView { fission_rate: 0, turbine_rate: 0, load: 0 },
        temperature: 0,
        output: OutputView {
            temperature: 0,
            load: 0,
            power: 0,
            fuel_potential,
            fission_rate: 0,
            turbine_rate: 0,
        },
    }
}

/// The reactor: a fission core, a turbine, the input that controllers set,
/// and the output it publishes each tick.
pub struct Reactor {
    fuel_potential: i64,
    power_max: i64,
    turbine: Turbine,
    core: Core,
    load: i64,
    input: Input,
    temperature: i64,
    output: Output,
}

impl View for Reactor {
    type V = ReactorView;

    closed spec fn view(&self) -> ReactorView {
        ReactorView {
            fuel_potential: self.fuel_potential as int,
            power_max: self.power_max as int,
            turbine: self.turbine@,
            core: self.core@,
            load: self.load as int,
            input: self.input@,
            temperature: self.temperature as int,
            output: self.output@,
        }
    }
}

impl Reactor {
    /// A cold reactor with every rate at zero.
    pub fn new(fuel_potential: i64, power_max: i64) -> (r: Reactor)
        requires
            0 < fuel_potential,
        ensures
            r@ == reactor_init(fuel_potential as int, power_max as int),
            r@.wf(),
    {
        Reactor {
            input: Input::new(),
            core: Core::new(),
            turbine: Turbine::new(),
            power_max,
            fuel_potential,
            load: 0,
            temperature: 0,
            output: Output::new(fuel_potential),
        }
    }

    pub fn get_output(&self) -> (r: &Output)
        ensures
            r@ == self@.output,
    {
        &self.output
    }

    pub fn get_input(&self) -> (r: &Input)
        ensures
            r@ == self@.input,
    {
        &self.input
    }

    /// The input, for a controller to change; nothing else of the reactor changes.
    pub fn get_input_mut(&mut self) -> (r: &mut Input)
        ensures
            r@ == old(self)@.input,
            final(self)@ == (ReactorView { input: final(r)@, ..old(self)@ }),
    {
        &mut self.input
    }

    /// The input to change and the output to read, for one tick of control.
    pub fn controls(&mut self) -> (r: (&mut Input, &Output))
        ensures
            r.0@ == old(self)@.input,
            r.1@ == old(self)@.output,
            final(self)@ == (ReactorView { input: final(r.0)@, ..old(self)@ }),
    {
        (&mut self.input, &self.output)
    }

    /// Advances the reactor by `time_delta` microseconds.
    pub fn update(&mut self, time_delta: u64)
        requires
            old(self)@.wf(),
        ensures
            final(self)@ == reactor_next(old(self)@, time_delta as int),
            final(self)@.wf(),
    {
        self.update_temperature(time_delta);
        self.core.update(self.input.fission_rate, time_delta);
        self.turbine.update(self.input.turbine_rate, time_delta);
        self.output.fuel_potential = self.fuel_potential;
        self.output.fission_rate = self.get_fission_rate();
        self.output.load = self.input.get_load();
        self.output.turbine_rate = self.get_turbine_rate();
        self.output.power = self.get_power();
    }

    fn update_temperature(&mut self, time_delta: u64)
        requires
            old(self)@.wf(),
        ensures
            final(self)@ == (ReactorView {
                temperature: next_temperature(old(self)@, time_delta as int),
                output: OutputView {
                    temperature: next_temperature(old(self)@, time_delta as int),
                    ..old(self)@.output
                },
                ..old(self)@
            }),
            final(self)@.wf(),
    {
        let supply = self.heat_supply();
        let gap: i128 = supply - (self.turbine.value as i128) * 100 - self.temperature as i128;
        let limit: i128 = (TEMPERATURE_SPEED as i128) * (time_delta as i128);
        assert(limit <= 1000 * 0xffff_ffff_ffff_ffff) by (nonlinear_arith)
            requires
                limit == TEMPERATURE_SPEED * time_delta,
                TEMPERATURE_SPEED == 1000,
                time_delta <= 0xffff_ffff_ffff_ffff,
        ;
        let change: i128 = if gap > 0 {
            min(limit, gap)
        } else if gap < 0 {
            -min(limit, -gap)
        } else {
            0
        };
        let temperature = clamp(self.temperature as i128 + change, 0, TEMPERATURE_MAX as i128);
        self.temperature = temperature as i64;
        self.output.temperature = temperature as i64;
    }

    /// Heat drawn by the turbine.
    pub fn heat_demand(&self) -> (r: i64)
        requires
            self@.wf(),
        ensures
            r == heat_demand_of(self@.turbine.value),
    {
        self.turbine.value * 75
    }

    /// Heat produced by the core.
    pub fn heat_supply(&self) -> (r: i128)
        requires
            self@.wf(),
        ensures
            r == heat_supply_of(self@.core.value, self@.fuel_potential),
            -0x4000_0000_0000_0000_0000_0000_0000_0000 < r < 0x4000_0000_0000_0000_0000_0000_0000_0000,
    {
        mul_div(2 * self.core.value as i128, self.fuel_potential as i128, ONE as i128)
    }

    pub fn get_temperature(&self) -> (r: i64)
        ensures
            r == self@.temperature,
    {
        self.temperature
    }

    /// The core's actual activity.
    pub fn get_fission_rate(&self) -> (r: i64)
        ensures
            r == self@.core.value,
    {
        self.core.value
    }

    /// The turbine's actual activity.
    pub fn get_turbine_rate(&self) -> (r: i64)
        ensures
            r == self@.turbine.value,
    {
        self.turbine.value
    }

    pub fn set_fission_rate(&mut self, fission_rate: i64)
        ensures
            final(self)@ == (ReactorView {
                input: InputView { fission_rate: rate_of(fission_rate as int), ..old(self)@.input },
                ..old(self)@
            }),
    {
        self.input.set_fission_rate(fission_rate);
    }

    pub fn set_turbine_rate(&mut self, turbine_rate: i64)
        ensures
            final(self)@ == (ReactorView {
                input: InputView { turbine_rate: rate_of(turbine_rate as int), ..old(self)@.input },
                ..old(self)@
            }),
    {
        self.input.set_turbine_rate(turbine_rate);
    }

    pub fn set_load(&mut self, load: i64)
        ensures
            final(self)@ == (ReactorView { load: rate_of(load as int), ..old(self)@ }),
    {
        self.load = clamp_rate(load);
    }

    /// Power delivered by the turbine.
    pub fn get_power(&self) -> (r: i64)
        requires
            self@.turbine.wf(),
        ensures
            r == power_of(self@.turbine.value, self@.power_max),
    {
        let power = mul_div(self.turbine.value as i128, self.power_max as i128, RATE_MAX as i128);
        proof {
            lemma_fraction_bound(self.turbine.value as int, self.power_max as int, RATE_MAX as int);
        }
        power as i64
    }
}

/// A call of one of the input's setters, with its argument.
pub ghost enum Setting {
    FissionRate(int),
    TurbineRate(int),
    Load(int),
}

/// The input after one setter call.
pub open spec fn apply_setting(v: InputView, s: Setting) -> InputView {
    match s {
        Setting::FissionRate(x) => InputView { fission_rate: rate_of(x), ..v },
        Setting::TurbineRate(x) => InputView { turbine_rate: rate_of(x), ..v },
        Setting::Load(x) => InputView { load: rate_of(x), ..v },
    }
}

/// The input after a sequence of setter calls, first to last.
pub open spec fn apply_settings(v: InputView, ss: Seq<Setting>) -> InputView
    decreases ss.len(),
{
    if ss.len() == 0 {
        v
    } else {
        apply_setting(apply_settings(v, ss.drop_last()), ss.last())
    }
}

/// Whatever values the setters are given, negative or above a hundred
/// percent, every stored rate and load stays within `[0, RATE_MAX]`.
pub proof fn lemma_settings_stay_in_range(v: InputView, ss: Seq<Setting>)
    requires
        v.wf(),
    ensures
        apply_settings(v, ss).wf(),
    decreases ss.len(),
{
    if ss.len() > 0 {
        lemma_settings_stay_in_range(v, ss.drop_last());
    }
}

/// In one update of the core or the turbine the target moves by at most
/// `TARGET_SPEED` units per second of `dt`, toward the goal and never past it.
pub proof fn lemma_target_rate_limited(a: ActuatorView, goal: int, dt: int)
    requires
        a.wf(),
        0 <= goal <= RATE_MAX,
        0 <= dt,
    ensures
        -(TARGET_SPEED * dt) <= core_next(a, goal, dt).target - a.target <= TARGET_SPEED * dt,
        -(TARGET_SPEED * dt) <= turbine_next(a, goal, dt).target - a.target <= TARGET_SPEED * dt,
        a.target <= goal ==> a.target <= core_next(a, goal, dt).target <= goal,
        goal <= a.target ==> goal <= core_next(a, goal, dt).target <= a.target,
        core_next(a, goal, dt).target == turbine_next(a, goal, dt).target,
        core_next(a, goal, dt).wf(),
        turbine_next(a, goal, dt).wf(),
{
}

/// One tick changes the temperature by no more than the gap it pursues,
/// and in the gap's direction: it never overshoots.
pub proof fn lemma_no_overshoot(gap: int, dt: int)
    requires
        0 <= dt,
    ensures
        -gap <= temperature_step(gap, dt) <= gap || gap <= temperature_step(gap, dt) <= -gap,
        gap >= 0 ==> 0 <= temperature_step(gap, dt) <= gap,
        gap <= 0 ==> gap <= temperature_step(gap, dt) <= 0,
        -(TEMPERATURE_SPEED * dt) <= temperature_step(gap, dt) <= TEMPERATURE_SPEED * dt,
{
}

/// The reactor's invariant holds after one tick.
pub proof fn lemma_next_wf(r: ReactorView, dt: int)
    requires
        r.wf(),
        0 <= dt,
    ensures
        reactor_next(r, dt).wf(),
{
    lemma_target_rate_limited(r.core, r.input.fission_rate, dt);
    lemma_target_rate_limited(r.turbine, r.input.turbine_rate, dt);
}

/// The reactor after ticks of the given lengths, first to last.
pub open spec fn run_ticks(r: ReactorView, dts: Seq<nat>) -> ReactorView
    decreases dts.len(),
{
    if dts.len() == 0 {
        r
    } else {
        reactor_next(run_ticks(r, dts.drop_last()), dts.last() as int)
    }
}

/// From any well-formed state, after any sequence of ticks, the temperature
/// (and the rest of the invariant) stays within bounds.
pub proof fn lemma_temperature_bounded(r: ReactorView, dts: Seq<nat>)
    requires
        r.wf(),
    ensures
        run_ticks(r, dts).wf(),
        0 <= run_ticks(r, dts).temperature <= TEMPERATURE_MAX,
    decreases dts.len(),
{
    if dts.len() > 0 {
        lemma_temperature_bounded(r, dts.drop_last());
        lemma_next_wf(run_ticks(r, dts.drop_last()), dts.last() as int);
    }
}

/// A cold reactor whose input is left at zero stays at rest: no activity, no
/// heat, whatever the tick lengths.
pub proof fn lemma_cold_start_rests(fuel_potential: int, power_max: int, dts: Seq<nat>)
    ensures
        run_ticks(reactor_init(fuel_potential, power_max), dts) == reactor_init(fuel_potential, power_max),
    decreases dts.len(),
{
    if dts.len() > 0 {
        lemma_cold_start_rests(fuel_potential, power_max, dts.drop_last());
        let r = reactor_init(fuel_potential, power_max);
        let dt = dts.last() as int;
        assert(0int * dt == 0);
        assert(2 * 0int * fuel_potential == 0);
        assert(0int * power_max == 0);
        assert(reactor_next(r, dt) == r);
    }
}

} // verus!
