use barotrauma_simulator::reactor::{Core, Reactor, Turbine};
use barotrauma_simulator::simulation::TICK;
use barotrauma_simulator::units::{ONE, RATE_MAX, SECOND, TEMPERATURE_MAX};

fn step(reactor: &mut Reactor, ticks: usize) {
    for _ in 0..ticks {
        reactor.update(TICK);
    }
}

#[test]
fn input_setters_clamp() {
    let mut reactor = Reactor::new(160 * ONE, 4000 * ONE);
    let input = reactor.get_input_mut();
    input.set_fission_rate(-5 * ONE);
    assert_eq!(input.get_fission_rate(), 0);
    input.set_fission_rate(250 * ONE);
    assert_eq!(input.get_fission_rate(), RATE_MAX);
    input.set_turbine_rate(42 * ONE);
    assert_eq!(input.get_turbine_rate(), 42 * ONE);
    input.set_turbine_rate(i64::MAX);
    assert_eq!(input.get_turbine_rate(), RATE_MAX);
    input.set_load(i64::MIN);
    assert_eq!(input.get_load(), 0);
    input.set_load(7 * ONE);
    assert_eq!(input.get_load(), 7 * ONE);
    assert_eq!(reactor.get_input().get_fission_rate(), RATE_MAX);
    assert_eq!(reactor.get_input().get_turbine_rate(), RATE_MAX);
}

#[test]
fn reactor_setters_clamp() {
    let mut reactor = Reactor::new(160 * ONE, 4000 * ONE);
    reactor.set_fission_rate(-1);
    assert_eq!(reactor.get_input().get_fission_rate(), 0);
    reactor.set_fission_rate(101 * ONE);
    assert_eq!(reactor.get_input().get_fission_rate(), RATE_MAX);
    reactor.set_turbine_rate(30 * ONE);
    assert_eq!(reactor.get_input().get_turbine_rate(), 30 * ONE);
    reactor.set_turbine_rate(-30 * ONE);
    assert_eq!(reactor.get_input().get_turbine_rate(), 0);
    reactor.set_load(500 * ONE);
    reactor.set_load(-2);
}

#[test]
fn core_target_is_rate_limited() {
    let mut core = Core::new();
    core.update(RATE_MAX, SECOND);
    // 5 units per second: the target moves 5 units, the value relaxes all the way to it.
    assert_eq!(core.get_target(), 5 * ONE);
    assert_eq!(core.get_value(), 5 * ONE);
    core.update(RATE_MAX, 0);
    assert_eq!(core.get_target(), 5 * ONE);
    assert_eq!(core.get_value(), 5 * ONE);
    core.update(0, SECOND / 10);
    assert_eq!(core.get_target(), 4_500_000);
    assert_eq!(core.get_value(), 4_950_000);
    let mut turbine = Turbine::new();
    turbine.update(RATE_MAX, SECOND / 2);
    assert_eq!(turbine.get_target(), 2_500_000);
    assert_eq!(turbine.get_value(), 1_250_000);
    turbine.update(0, 0);
    assert_eq!(turbine.get_target(), 2_500_000);
    assert_eq!(turbine.get_value(), 1_250_000);
    // A goal within reach is met exactly, not passed.
    turbine.update(3 * ONE, SECOND);
    assert_eq!(turbine.get_target(), 3 * ONE);
}

#[test]
fn actuators_follow_targets_through_reactor() {
    let mut reactor = Reactor::new(160 * ONE, 4000 * ONE);
    reactor.set_fission_rate(RATE_MAX);
    reactor.set_turbine_rate(RATE_MAX);
    // One whole second: the targets reach 5, the values relax fully to them.
    reactor.update(SECOND);
    assert_eq!(reactor.get_fission_rate(), 5 * ONE);
    assert_eq!(reactor.get_turbine_rate(), 5 * ONE);
    // Half a second more: targets 7.5, values move half the remaining gap of 2.5.
    reactor.update(SECOND / 2);
    assert_eq!(reactor.get_fission_rate(), 6_250_000);
    assert_eq!(reactor.get_turbine_rate(), 6_250_000);
    let output = reactor.get_output();
    assert_eq!(output.get_fission_rate(), 6_250_000);
    assert_eq!(output.get_turbine_rate(), 6_250_000);
    assert_eq!(output.get_fuel_potential(), 160 * ONE);
    // power = 6.25 * 4000 / 100 = 250
    assert_eq!(output.get_power(), 250 * ONE);
    assert_eq!(reactor.get_power(), 250 * ONE);
}

#[test]
fn a_large_time_delta_cannot_overshoot() {
    let mut reactor = Reactor::new(160 * ONE, 4000 * ONE);
    reactor.set_fission_rate(10 * ONE);
    reactor.update(100 * SECOND);
    // target reaches 10 without passing it; the value relaxes past it and is clamped.
    assert_eq!(reactor.get_fission_rate(), RATE_MAX);
    reactor.update(100 * SECOND);
    // heat supply 2 * 100 * 160 = 32000 is far above the ceiling
    assert_eq!(reactor.get_temperature(), TEMPERATURE_MAX);
}

#[test]
fn temperature_pursuit_exact_values() {
    let mut reactor = Reactor::new(160 * ONE, 4000 * ONE);
    reactor.set_fission_rate(RATE_MAX);
    reactor.update(SECOND);
    // The temperature still saw the cold core: no change.
    assert_eq!(reactor.get_temperature(), 0);
    assert_eq!(reactor.get_fission_rate(), 5 * ONE);
    // supply = 2 * 5 * 160 = 1600; a tenth of a second allows 100.
    reactor.update(SECOND / 10);
    assert_eq!(reactor.get_temperature(), 100 * ONE);
    assert_eq!(reactor.get_output().get_temperature(), 100 * ONE);
    // Ten seconds allow 10000, but the gap is only about 1500 more: no overshoot.
    let supply = reactor.heat_supply();
    reactor.update(10 * SECOND);
    assert_eq!(reactor.get_temperature() as i128, supply);
}

#[test]
fn heat_and_power_queries() {
    let mut reactor = Reactor::new(80 * ONE, 2000 * ONE);
    assert_eq!(reactor.heat_supply(), 0);
    assert_eq!(reactor.heat_demand(), 0);
    reactor.set_fission_rate(RATE_MAX);
    reactor.set_turbine_rate(RATE_MAX);
    reactor.update(SECOND);
    // core 5: supply 2 * 5 * 80 = 800; turbine 5: demand 5 * 75 = 375; power 5 * 2000 / 100 = 100
    assert_eq!(reactor.heat_supply(), 800 * ONE as i128);
    assert_eq!(reactor.heat_demand(), 375 * ONE);
    assert_eq!(reactor.get_power(), 100 * ONE);
}

#[test]
fn zero_time_delta_changes_nothing() {
    let mut reactor = Reactor::new(160 * ONE, 4000 * ONE);
    reactor.set_fission_rate(RATE_MAX);
    reactor.update(SECOND);
    reactor.update(SECOND);
    let temperature = reactor.get_temperature();
    let fission = reactor.get_fission_rate();
    reactor.update(0);
    assert_eq!(reactor.get_temperature(), temperature);
    assert_eq!(reactor.get_fission_rate(), fission);
}

#[test]
fn cold_start_stays_idle() {
    let mut reactor = Reactor::new(160 * ONE, 4000 * ONE);
    for _ in 0..600 {
        reactor.update(TICK);
        assert_eq!(reactor.get_fission_rate(), 0);
        assert_eq!(reactor.get_turbine_rate(), 0);
        assert_eq!(reactor.get_temperature(), 0);
    }
}

#[test]
fn full_fission_zero_turbine() {
    let mut reactor = Reactor::new(160 * ONE, 4000 * ONE);
    reactor.set_fission_rate(100 * ONE);
    let mut previous = reactor.get_temperature();
    let mut saturated_at = None;
    for tick in 0..1200 {
        reactor.update(TICK);
        let temperature = reactor.get_temperature();
        assert!(temperature >= previous);
        assert!(temperature <= TEMPERATURE_MAX);
        if temperature == TEMPERATURE_MAX && saturated_at.is_none() {
            saturated_at = Some(tick);
        }
        previous = temperature;
    }
    assert!(saturated_at.is_some());
    // The target only reaches 100 at the last tick, so the core lags it by about 5.
    assert!(reactor.get_fission_rate() >= 95 * ONE);
    step(&mut reactor, 200);
    assert!(reactor.get_fission_rate() >= 99 * ONE);
    assert!(reactor.get_fission_rate() <= RATE_MAX);
    assert_eq!(reactor.get_temperature(), TEMPERATURE_MAX);
}

#[test]
fn matched_load_reaches_equilibrium() {
    let mut reactor = Reactor::new(80 * ONE, 4000 * ONE);
    reactor.set_fission_rate(50 * ONE);
    reactor.set_turbine_rate(50 * ONE);
    step(&mut reactor, 2990);
    let mut previous = reactor.get_temperature();
    for _ in 0..10 {
        reactor.update(TICK);
        let temperature = reactor.get_temperature();
        assert!((temperature - previous).abs() <= ONE / 1000);
        previous = temperature;
    }
    assert!(previous > 0 && previous < TEMPERATURE_MAX);
    // supply 2 * 50 * 80 = 8000, demand 50 * 100 = 5000
    assert!((previous - 3000 * ONE).abs() <= ONE / 100);
}
