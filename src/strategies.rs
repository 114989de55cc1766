//! Example controllers: a threshold controller for the core, a square-wave
//! load on the turbine, and a recorder of measurements; and the evaluation of
//! one reactor under all three.
use vstd::prelude::*;
use vstd::arithmetic::div_mod::lemma_div_nonincreasing;
use crate::controller::Controller;
use crate::reactor::{rate_of, reactor_init, Input, InputView, Output, OutputView, Reactor};
use crate::simulation::{simulate, Simulation};
use crate::units::{div_trunc, mul_div, ONE, RATE_MAX};

verus! {

/// The temperature the threshold controller holds the reactor around.
pub const SETPOINT: i64 = 5000 * ONE;

/// The highest peak temperature of a run that counts as safe.
pub const SAFE_TEMPERATURE: i64 = 6482 * ONE;

/// The threshold controller's state: the coefficients of an incremental PID
/// law, kept for that law as an extension point. The active law does not
/// read them.
pub ghost struct SimpleControllerView {
    pub a0: int,
    pub a1: int,
    pub a2: int,
}

/// Switches fission fully on below `SETPOINT` and fully off above it.
pub struct SimpleController {
    a0: i64,
    a1: i64,
    a2: i64,
}

impl View for SimpleController {
    type V = SimpleControllerView;

    closed spec fn view(&self) -> SimpleControllerView {
        SimpleControllerView { a0: self.a0 as int, a1: self.a1 as int, a2: self.a2 as int }
    }
}

impl SimpleController {
    /// A controller for the gains `kp`, `ki` and `kd`.
    pub fn new(kp: i64, ki: i64, kd: i64) -> (r: SimpleController)
        requires
            i64::MIN <= kp + ki + kd <= i64::MAX,
            i64::MIN <= -kp - 2 * kd <= i64::MAX,
        ensures
            r@ == (SimpleControllerView { a0: kp + ki + kd, a1: -kp - 2 * kd, a2: kd as int }),
    {
        let a0 = (kp as i128 + ki as i128 + kd as i128) as i64;
        let a1 = (-(kp as i128) - 2 * kd as i128) as i64;
        SimpleController { a0, a1, a2: kd }
    }
}

/// The fission target the threshold controller sets for a temperature.
pub open spec fn threshold_fission(temperature: int) -> int {
    if temperature > SETPOINT {
        0
    } else {
        RATE_MAX as int
    }
}

impl Controller for SimpleController {
    open spec fn inv(&self) -> bool {
        true
    }

    open spec fn next_input(state: SimpleControllerView, output: OutputView, input: InputView) -> InputView {
        InputView { fission_rate: threshold_fission(output.temperature), ..input }
    }

    open spec fn next_view(state: SimpleControllerView, output: OutputView, input: InputView) -> SimpleControllerView {
        state
    }

    fn update(&mut self, output: &Output, input: &mut Input) {
        if output.get_temperature() > SETPOINT {
            input.set_fission_rate(0);
        } else {
            input.set_fission_rate(RATE_MAX);
        }
    }
}

/// The load generator's state: a tick counter that wraps at `periode`.
pub ghost struct LoadView {
    pub tick: nat,
    pub min: int,
    pub max: int,
    pub periode: nat,
}

/// A square wave on the turbine target: `max` for the first half of each
/// period, `min` for the second.
pub struct Load {
    tick: u64,
    min: i64,
    max: i64,
    periode: u64,
}

impl View for Load {
    type V = LoadView;

    closed spec fn view(&self) -> LoadView {
        LoadView {
            tick: self.tick as nat,
            min: self.min as int,
            max: self.max as int,
            periode: self.periode as nat,
        }
    }
}

impl Load {
    /// A square wave between `min` and `max` of `periode` ticks.
    pub fn new(min: i64, max: i64, periode: u64) -> (r: Load)
        requires
            0 < periode,
        ensures
            r@ == (LoadView { tick: 0, min: min as int, max: max as int, periode: periode as nat }),
            r.inv(),
    {
        Load { tick: 0, min, max, periode }
    }
}

/// The load generator's counter after one tick.
pub open spec fn load_tick(s: LoadView) -> nat {
    (s.tick + 1) % s.periode
}

impl Controller for Load {
    closed spec fn inv(&self) -> bool {
        0 < self.periode && self.tick < self.periode
    }

    open spec fn next_input(state: LoadView, output: OutputView, input: InputView) -> InputView {
        let level = if load_tick(state) < state.periode / 2 {
            state.max
        } else {
            state.min
        };
        InputView { turbine_rate: rate_of(level), ..input }
    }

    open spec fn next_view(state: LoadView, output: OutputView, input: InputView) -> LoadView {
        LoadView { tick: load_tick(state), ..state }
    }

    fn update(&mut self, output: &Output, input: &mut Input) {
        self.tick = (self.tick + 1) % self.periode;
        if self.tick < self.periode / 2 {
            input.set_turbine_rate(self.max);
        } else {
            input.set_turbine_rate(self.min);
        }
    }
}

/// The recorded samples, one per tick of each kind, in tick order.
pub ghost struct MeasurementsView {
    pub temperature: Seq<i64>,
    pub fission: Seq<i64>,
    pub fission_target: Seq<i64>,
    pub fission_optimal: Seq<i64>,
    pub turbine: Seq<i64>,
    pub turbine_target: Seq<i64>,
    pub turbine_optimal: Seq<i64>,
}

/// The fission rate that would balance the turbine's demand for a fuel
/// potential; zero where the fuel potential is not positive.
pub open spec fn optimal_fission(turbine_rate: int, fuel_potential: int) -> int {
    if fuel_potential > 0 {
        div_trunc(turbine_rate * 75 * ONE, fuel_potential)
    } else {
        0
    }
}

/// Records, each tick, the temperature and the actual and target rates.
pub struct Measurements {
    temperature: Vec<i64>,
    fission: Vec<i64>,
    fission_target: Vec<i64>,
    fission_optimal: Vec<i64>,
    turbine: Vec<i64>,
    turbine_target: Vec<i64>,
    turbine_optimal: Vec<i64>,
}

impl View for Measurements {
    type V = MeasurementsView;

    closed spec fn view(&self) -> MeasurementsView {
        MeasurementsView {
            temperature: self.temperature@,
            fission: self.fission@,
            fission_target: self.fission_target@,
            fission_optimal: self.fission_optimal@,
            turbine: self.turbine@,
            turbine_target: self.turbine_target@,
            turbine_optimal: self.turbine_optimal@,
        }
    }
}

/// Nothing recorded yet.
pub open spec fn no_measurements() -> MeasurementsView {
    MeasurementsView {
        temperature: Seq::empty(),
        fission: Seq::empty(),
        fission_target: Seq::empty(),
        fission_optimal: Seq::empty(),
        turbine: Seq::empty(),
        turbine_target: Seq::empty(),
        turbine_optimal: Seq::empty(),
    }
}

/// `m` is the largest sample of `s`.
pub open spec fn is_max_of(m: i64, s: Seq<i64>) -> bool {
    s.contains(m) && forall|k: int| 0 <= k < s.len() ==> s[k] <= m
}

impl Measurements {
    /// Empty buffers with room for `capacity` samples each.
    pub fn with_capacity(capacity: usize) -> (r: Measurements)
        ensures
            r@ == no_measurements(),
    {
        Measurements {
            temperature: Vec::with_capacity(capacity),
            fission: Vec::with_capacity(capacity),
            fission_target: Vec::with_capacity(capacity),
            fission_optimal: Vec::with_capacity(capacity),
            turbine: Vec::with_capacity(capacity),
            turbine_target: Vec::with_capacity(capacity),
            turbine_optimal: Vec::with_capacity(capacity),
        }
    }

    pub fn temperature(&self) -> (r: &Vec<i64>)
        ensures
            r@ == self@.temperature,
    {
        &self.temperature
    }

    pub fn fission(&self) -> (r: &Vec<i64>)
        ensures
            r@ == self@.fission,
    {
        &self.fission
    }

    pub fn fission_target(&self) -> (r: &Vec<i64>)
        ensures
            r@ == self@.fission_target,
    {
        &self.fission_target
    }

    pub fn fission_optimal(&self) -> (r: &Vec<i64>)
        ensures
            r@ == self@.fission_optimal,
    {
        &self.fission_optimal
    }

    pub fn turbine(&self) -> (r: &Vec<i64>)
        ensures
            r@ == self@.turbine,
    {
        &self.turbine
    }

    pub fn turbine_target(&self) -> (r: &Vec<i64>)
        ensures
            r@ == self@.turbine_target,
    {
        &self.turbine_target
    }

    pub fn turbine_optimal(&self) -> (r: &Vec<i64>)
        ensures
            r@ == self@.turbine_optimal,
    {
        &self.turbine_optimal
    }

    /// The highest recorded temperature, if any was recorded.
    pub fn peak_temperature(&self) -> (r: Option<i64>)
        ensures
            r is None <==> self@.temperature.len() == 0,
            r matches Some(m) ==> is_max_of(m, self@.temperature),
    {
        if self.temperature.len() == 0 {
            return None;
        }
        let mut best: i64 = self.temperature[0];
        let ghost mut at: int = 0;
        let mut k: usize = 1;
        while k < self.temperature.len()
            invariant
                1 <= k <= self.temperature@.len(),
                0 <= at < k,
                self.temperature@[at] == best,
                forall|j: int| 0 <= j < k ==> self.temperature@[j] <= best,
            decreases self.temperature@.len() - k,
        {
            if self.temperature[k] > best {
                best = self.temperature[k];
                proof {
                    at = k as int;
                }
            }
            k = k + 1;
        }
        assert(self@.temperature[at] == best);
        Some(best)
    }
}

impl Controller for Measurements {
    open spec fn inv(&self) -> bool {
        true
    }

    open spec fn next_input(state: MeasurementsView, output: OutputView, input: InputView) -> InputView {
        input
    }

    open spec fn next_view(state: MeasurementsView, output: OutputView, input: InputView) -> MeasurementsView {
        MeasurementsView {
            temperature: state.temperature.push(output.temperature as i64),
            fission: state.fission.push(output.fission_rate as i64),
            fission_target: state.fission_target.push(input.fission_rate as i64),
            fission_optimal: state.fission_optimal.push(
                optimal_fission(input.turbine_rate, output.fuel_potential) as i64,
            ),
            turbine: state.turbine.push(output.turbine_rate as i64),
            turbine_target: state.turbine_target.push(input.turbine_rate as i64),
            turbine_optimal: state.turbine_optimal,
        }
    }

    fn update(&mut self, output: &Output, input: &mut Input) {
        self.temperature.push(output.get_temperature());
        self.fission.push(output.get_fission_rate());
        self.fission_target.push(input.get_fission_rate());
        let turbine_rate = input.get_turbine_rate();
        let fuel_potential = output.get_fuel_potential();
        let optimal: i64 = if fuel_potential > 0 {
            let q = mul_div(turbine_rate as i128 * 75, ONE as i128, fuel_potential as i128);
            proof {
                lemma_div_nonincreasing(turbine_rate * 75 * ONE, fuel_potential as int);
            }
            q as i64
        } else {
            0
        };
        self.fission_optimal.push(optimal);
        self.turbine.push(output.get_turbine_rate());
        self.turbine_target.push(turbine_rate);
    }
}

/// Whether a run whose hottest tick reached `peak` stayed safe.
pub fn is_safe(peak: i64) -> (r: bool)
    ensures
        r == (peak <= SAFE_TEMPERATURE),
{
    peak <= SAFE_TEMPERATURE
}

/// The rated power of the evaluated reactors.
pub const POWER_MAX: i64 = 4000 * ONE;

/// How long one evaluation runs, in simulated seconds.
pub const EVALUATION_SECS: u64 = 60;

/// The period of the evaluation's load, in ticks.
pub const LOAD_PERIODE: u64 = 18_000;

/// The proportional gain of the evaluation's controller.
pub const GAIN: i64 = 3333;

/// The controllers of an evaluation as they start.
pub open spec fn evaluation_start() -> (LoadView, MeasurementsView, SimpleControllerView) {
    (
        LoadView { tick: 0, min: 0, max: RATE_MAX as int, periode: LOAD_PERIODE as nat },
        no_measurements(),
        SimpleControllerView { a0: GAIN as int, a1: -GAIN, a2: 0 },
    )
}

/// Runs a reactor of the given fuel potential for `EVALUATION_SECS` seconds
/// under a square-wave load and the threshold controller, and returns what
/// was recorded.
pub fn evaluate(fuel_potential: i64) -> (r: Measurements)
    requires
        0 < fuel_potential,
    ensures
        r@ == simulate::<(Load, Measurements, SimpleController)>(
            reactor_init(fuel_potential as int, POWER_MAX as int),
            evaluation_start(),
            (EVALUATION_SECS * 60) as nat,
        ).1.1,
{
    let reactor = Reactor::new(fuel_potential, POWER_MAX);
    let measurements = Measurements::with_capacity(1800);
    let load = Load::new(0, RATE_MAX, LOAD_PERIODE);
    let controller = SimpleController::new(GAIN, 0, 0);
    let simulation = Simulation::new(EVALUATION_SECS, reactor, (load, measurements, controller));
    let (_, measurements, _) = simulation.run();
    measurements
}

} // verus!
