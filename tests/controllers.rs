use barotrauma_simulator::controller::Controller;
use barotrauma_simulator::reactor::Reactor;
use barotrauma_simulator::simulation::{Simulation, TICK};
use barotrauma_simulator::strategies::{
    evaluate, is_safe, Load, Measurements, SimpleController, SAFE_TEMPERATURE, SETPOINT,
};
use barotrauma_simulator::units::{ONE, RATE_MAX, TEMPERATURE_MAX};

#[test]
fn threshold_controller_switches_fission() {
    let mut reactor = Reactor::new(160 * ONE, 4000 * ONE);
    let mut controller = SimpleController::new(3333, 0, 0);
    let (input, output) = reactor.controls();
    controller.update(output, input);
    assert_eq!(reactor.get_input().get_fission_rate(), RATE_MAX);
    // Heat the reactor past the setpoint, then let the controller act.
    for _ in 0..1200 {
        reactor.update(TICK);
    }
    assert!(reactor.get_temperature() > SETPOINT);
    let (input, output) = reactor.controls();
    controller.update(output, input);
    assert_eq!(reactor.get_input().get_fission_rate(), 0);
}

#[test]
fn load_is_a_square_wave() {
    let mut reactor = Reactor::new(160 * ONE, 4000 * ONE);
    let mut load = Load::new(10 * ONE, 90 * ONE, 4);
    let mut seen = Vec::new();
    for _ in 0..8 {
        let (input, output) = reactor.controls();
        load.update(output, input);
        seen.push(reactor.get_input().get_turbine_rate());
    }
    let hi = 90 * ONE;
    let lo = 10 * ONE;
    assert_eq!(seen, vec![hi, lo, lo, hi, hi, lo, lo, hi]);
}

#[test]
fn load_levels_are_clamped() {
    let mut reactor = Reactor::new(160 * ONE, 4000 * ONE);
    let mut load = Load::new(-50 * ONE, 500 * ONE, 2);
    let (input, output) = reactor.controls();
    load.update(output, input);
    assert_eq!(reactor.get_input().get_turbine_rate(), 0);
    let (input, output) = reactor.controls();
    load.update(output, input);
    assert_eq!(reactor.get_input().get_turbine_rate(), RATE_MAX);
}

#[test]
fn composition_runs_members_in_order() {
    let mut reactor = Reactor::new(160 * ONE, 4000 * ONE);
    // The recorder comes after the threshold controller and records what it set.
    let mut pair = (SimpleController::new(0, 0, 0), Measurements::with_capacity(4));
    let (input, output) = reactor.controls();
    pair.update(output, input);
    assert_eq!(pair.1.fission_target(), &vec![RATE_MAX]);
    // In the other order the recorder sees the input before the controller acts.
    let mut reactor = Reactor::new(160 * ONE, 4000 * ONE);
    let mut swapped = (Measurements::with_capacity(4), SimpleController::new(0, 0, 0));
    let (input, output) = reactor.controls();
    swapped.update(output, input);
    assert_eq!(swapped.0.fission_target(), &vec![0]);
    assert_eq!(reactor.get_input().get_fission_rate(), RATE_MAX);
}

#[test]
fn empty_composition_leaves_input() {
    let mut reactor = Reactor::new(160 * ONE, 4000 * ONE);
    reactor.set_fission_rate(12 * ONE);
    reactor.set_turbine_rate(34 * ONE);
    let mut nothing = ();
    for _ in 0..100 {
        let (input, output) = reactor.controls();
        nothing.update(output, input);
        reactor.update(TICK);
    }
    assert_eq!(reactor.get_input().get_fission_rate(), 12 * ONE);
    assert_eq!(reactor.get_input().get_turbine_rate(), 34 * ONE);
    assert_eq!(reactor.get_input().get_load(), 0);
}

#[test]
fn measurements_record_each_tick() {
    let reactor = Reactor::new(160 * ONE, 4000 * ONE);
    let load = Load::new(0, 40 * ONE, 10);
    let simulation = Simulation::new(2, reactor, (load, Measurements::with_capacity(120)));
    let (_, measurements) = simulation.run();
    assert_eq!(measurements.temperature().len(), 120);
    assert_eq!(measurements.fission().len(), 120);
    assert_eq!(measurements.fission_target().len(), 120);
    assert_eq!(measurements.fission_optimal().len(), 120);
    assert_eq!(measurements.turbine().len(), 120);
    assert_eq!(measurements.turbine_target().len(), 120);
    assert!(measurements.turbine_optimal().is_empty());
    // First tick: the load set 40, optimal fission = 40 * 75 / 160 = 18.75.
    assert_eq!(measurements.turbine_target()[0], 40 * ONE);
    assert_eq!(measurements.fission_optimal()[0], 18_750_000);
    assert_eq!(measurements.turbine()[0], 0);
    assert!(measurements.turbine()[119] > 0);
}

#[test]
fn peak_temperature_and_safety() {
    let empty = Measurements::with_capacity(0);
    assert_eq!(empty.peak_temperature(), None);
    let reactor = Reactor::new(160 * ONE, 4000 * ONE);
    let mut measurements = Measurements::with_capacity(3);
    let mut reactor = reactor;
    reactor.set_fission_rate(RATE_MAX);
    for _ in 0..600 {
        let (input, output) = reactor.controls();
        measurements.update(output, input);
        reactor.update(TICK);
    }
    let peak = measurements.peak_temperature().unwrap();
    assert_eq!(peak, *measurements.temperature().iter().max().unwrap());
    assert!(peak > 0 && peak <= TEMPERATURE_MAX);
    assert!(is_safe(SAFE_TEMPERATURE));
    assert!(!is_safe(SAFE_TEMPERATURE + 1));
    assert!(is_safe(0));
}

#[test]
fn simulation_runs_every_tick() {
    let reactor = Reactor::new(160 * ONE, 4000 * ONE);
    let simulation = Simulation::new(0, reactor, Measurements::with_capacity(0));
    assert!(simulation.run().temperature().is_empty());
    let reactor = Reactor::new(160 * ONE, 4000 * ONE);
    let simulation = Simulation::new(10, reactor, Measurements::with_capacity(600));
    let measurements = simulation.run();
    assert_eq!(measurements.temperature().len(), 600);
    assert!(measurements.temperature().iter().all(|&t| t == 0));
}

#[test]
fn evaluation_records_a_minute() {
    let measurements = evaluate(160 * ONE);
    assert_eq!(measurements.temperature().len(), 3600);
    let peak = measurements.peak_temperature().unwrap();
    assert!(peak > SETPOINT && peak <= TEMPERATURE_MAX);
}
