use approx::RelativeEq;
use circuitsim::be_solver::matrix::ABMatrix;
use circuitsim::be_solver::matrix_view::{Coefficient, Source};
use circuitsim::be_solver::stampable::{OperatingPoint, Readout};
use circuitsim::be_solver::assembly::Assembly;
use circuitsim::be_solver::{Outcome, Phase, SolveError, Step};
use circuitsim::components::{
    Capacitor, Component, CurrentSource, Diode, Inductor, Netlist, Resistor, VoltageSource,
};
use circuitsim::{BESolver, Expr, Scalar};
use nalgebra::DMatrix;

fn s(value: f64) -> Scalar {
    Scalar::from_bits(value.to_bits())
}

fn f(value: Scalar) -> f64 {
    f64::from_bits(value.to_bits())
}

fn eval(e: &Expr) -> f64 {
    match e {
        Expr::Value(v) => f(*v),
        Expr::Neg(a) => -eval(a),
        Expr::Sum(a, b) => eval(a) + eval(b),
        Expr::Difference(a, b) => eval(a) - eval(b),
        Expr::Product(a, b) => eval(a) * eval(b),
        Expr::Quotient(a, b) => eval(a) / eval(b),
        Expr::Exp(a) => eval(a).exp(),
        Expr::Abs(a) => eval(a).abs(),
    }
}

/// One round of the Newton loop in doubles: fill the matrices, invert, and
/// measure the relative change.
fn round(assembly: &Assembly, iterate: &Vec<Scalar>) -> Outcome {
    let n = assembly.dimension;
    let mut a = DMatrix::<f64>::zeros(n, n);
    let mut b = DMatrix::<f64>::zeros(n, 1);
    for c in &assembly.coefficients {
        a[(c.row, c.col)] += eval(&c.value);
    }
    for c in &assembly.sources {
        b[(c.row, 0)] += eval(&c.value);
    }
    if !a.try_inverse_mut() {
        return Outcome::Singular;
    }
    let x_prime = &a * &b;
    let mut change = 0.0f64;
    for i in 0..n {
        let new = x_prime[(i, 0)];
        let difference = (new - f(iterate[i])).abs();
        let r = if new.abs() < f64::MIN_POSITIVE { difference } else { difference / new.abs() };
        if r > change || r.is_nan() {
            change = r;
        }
    }
    Outcome::Solved { x: x_prime.iter().map(|v| s(*v)).collect(), change: s(change) }
}

fn point(readout: &Readout) -> OperatingPoint {
    OperatingPoint {
        voltage: readout.voltage.as_ref().map(|e| s(eval(e))),
        current: readout.current.as_ref().map(|e| s(eval(e))),
    }
}

fn value(formula: &Expr) -> Scalar {
    s(eval(formula))
}

/// The dense solve in doubles: invert, and multiply.
fn linear(system: ABMatrix) -> Option<Vec<Scalar>> {
    let (a, b) = system.into_ab();
    let n = b.len();
    let mut a = DMatrix::from_iterator(n, n, a.iter().map(|v| f(*v)));
    let b = DMatrix::from_iterator(n, 1, b.iter().map(|v| f(*v)));
    if !a.try_inverse_mut() {
        return None;
    }
    let x = &a * &b;
    Some(x.iter().map(|v| s(*v)).collect())
}

fn solve(solver: &mut BESolver, dt: f64) -> Result<(), SolveError> {
    solver.solve(s(dt), &value, &linear)
}

/// The same step, with whole rounds done in doubles.
fn solve_by_rounds(solver: &mut BESolver, dt: f64) -> Result<(), SolveError> {
    solver.newton(s(dt), round, point)
}

/// The same step, with the loop written out against the solver's steps.
fn solve_by_steps(solver: &mut BESolver, dt: f64) -> Result<(), SolveError> {
    let mut step = solver.begin(s(dt))?;
    loop {
        match step {
            Step::Done => return Ok(()),
            Step::Solve(assembly) => {
                assert_eq!(solver.get_phase(), Phase::Iterating);
                assert_eq!(solver.get_iterate().len(), assembly.dimension);
                let outcome = round(&assembly, solver.get_iterate());
                step = solver.advance(outcome)?;
            }
            Step::Update(readouts) => {
                assert_eq!(solver.get_phase(), Phase::Converged);
                assert_eq!(readouts.len(), solver.get_netlist().get_components().len());
                let points: Vec<OperatingPoint> = readouts.iter().map(point).collect();
                solver.finish(&points);
                assert_eq!(solver.get_phase(), Phase::Idle);
                step = Step::Done;
            }
        }
    }
}

fn assert_relative(actual: f64, expected: f64) {
    assert!(
        actual.relative_eq(&expected, f64::EPSILON, 0.001),
        "{} is not within 0.1% of {}",
        actual,
        expected
    );
}

#[test]
fn test_voltage_source_resistor() {
    let mut netlist = Netlist::new();
    netlist
        .add_component(VoltageSource::new(1, 0, s(10.0)))
        .add_component(Resistor::new(1, 0, s(2.0)));

    {
        let mut solver = BESolver::new(&mut netlist);
        solve(&mut solver, 0.001).unwrap();
    }

    println!("{:?}", netlist);

    let v: VoltageSource = netlist.get_components()[0].try_into().unwrap();
    let r: Resistor = netlist.get_components()[1].try_into().unwrap();

    assert_relative(f(v.get_voltage()), 10.0);
    assert_relative(f(v.get_current()), 5.0);
    assert_relative(f(r.get_voltage()), 10.0);
    assert_relative(eval(&r.get_current()), 5.0);
}

#[test]
fn test_two_voltage_source_resistor() {
    let mut netlist = Netlist::new();
    netlist
        .add_component(VoltageSource::new(1, 0, s(10.0)))
        .add_component(Resistor::new(1, 2, s(2.0)))
        .add_component(VoltageSource::new(2, 0, s(5.0)));

    {
        let mut solver = BESolver::new(&mut netlist);
        solve(&mut solver, 0.001).unwrap();
    }

    println!("{:?}", netlist);

    let v1: VoltageSource = netlist.get_components()[0].try_into().unwrap();
    let r: Resistor = netlist.get_components()[1].try_into().unwrap();
    let v2: VoltageSource = netlist.get_components()[2].try_into().unwrap();

    assert_relative(f(v1.get_voltage()), 10.0);
    assert_relative(f(v1.get_current()), 2.5);
    assert_relative(f(r.get_voltage()), 5.0);
    assert_relative(eval(&r.get_current()), 2.5);
    assert_relative(f(v2.get_voltage()), 5.0);
    assert_relative(f(v2.get_current()), -2.5);
}

#[test]
fn test_voltage_source_voltage_divider() {
    let mut netlist = Netlist::new();
    netlist
        .add_component(VoltageSource::new(1, 0, s(5.0)))
        .add_component(Resistor::new(1, 2, s(4.0)))
        .add_component(Resistor::new(2, 0, s(1.0)));

    {
        let mut solver = BESolver::new(&mut netlist);
        solve(&mut solver, 0.001).unwrap();
    }

    println!("{:?}", netlist);

    let v: VoltageSource = netlist.get_components()[0].try_into().unwrap();
    let r1: Resistor = netlist.get_components()[1].try_into().unwrap();
    let r2: Resistor = netlist.get_components()[2].try_into().unwrap();

    assert_relative(f(v.get_voltage()), 5.0);
    assert_relative(f(v.get_current()), 1.0);
    assert_relative(f(r1.get_voltage()), 4.0);
    assert_relative(eval(&r1.get_current()), 1.0);
    assert_relative(f(r2.get_voltage()), 1.0);
    assert_relative(eval(&r2.get_current()), 1.0);
}

#[test]
fn test_current_source_resistor() {
    let mut netlist = Netlist::new();
    netlist
        .add_component(CurrentSource::new(1, 0, s(5.0)))
        .add_component(Resistor::new(1, 0, s(2.0)));

    {
        let mut solver = BESolver::new(&mut netlist);
        solve(&mut solver, 0.001).unwrap();
    }

    println!("{:?}", netlist);

    let i: CurrentSource = netlist.get_components()[0].try_into().unwrap();
    let r: Resistor = netlist.get_components()[1].try_into().unwrap();

    assert_relative(f(i.get_voltage()), 10.0);
    assert_relative(f(i.get_current()), 5.0);
    assert_relative(f(r.get_voltage()), 10.0);
    assert_relative(eval(&r.get_current()), 5.0);
}

#[test]
fn test_current_source_capacitor() {
    let mut netlist = Netlist::new();
    netlist
        .add_component(CurrentSource::new(1, 0, s(1.0)))
        .add_component(Capacitor::new(1, 0, s(0.5), s(0.0)));

    {
        let mut solver = BESolver::new(&mut netlist);
        solve(&mut solver, 0.25).unwrap();
    }

    println!("{:?}", netlist);

    let i: CurrentSource = netlist.get_components()[0].try_into().unwrap();
    let c: Capacitor = netlist.get_components()[1].try_into().unwrap();

    assert_relative(f(i.get_voltage()), 0.50);
    assert_relative(f(i.get_current()), 1.0);
    assert_relative(f(c.get_voltage()), 0.50);
    assert_relative(f(c.get_current()), 1.0);

    {
        let mut solver = BESolver::new(&mut netlist);
        solve(&mut solver, 0.75).unwrap();
    }

    println!("{:?}", netlist);

    let i: CurrentSource = netlist.get_components()[0].try_into().unwrap();
    let c: Capacitor = netlist.get_components()[1].try_into().unwrap();

    assert_relative(f(i.get_voltage()), 2.0);
    assert_relative(f(i.get_current()), 1.0);
    assert_relative(f(c.get_voltage()), 2.0);
    assert_relative(f(c.get_current()), 1.0);
}

#[test]
fn test_rc_step() {
    let mut netlist = Netlist::new();
    netlist
        .add_component(VoltageSource::new(1, 0, s(1.0)))
        .add_component(Resistor::new(1, 2, s(1000.0)))
        .add_component(Capacitor::new(2, 0, s(0.001), s(0.0)));

    {
        let mut solver = BESolver::new(&mut netlist);
        for _ in 0..1000 {
            solve(&mut solver, 0.001).unwrap();
        }
    }

    println!("{:?}", netlist);

    let v: VoltageSource = netlist.get_components()[0].try_into().unwrap();
    let r: Resistor = netlist.get_components()[1].try_into().unwrap();
    let c: Capacitor = netlist.get_components()[2].try_into().unwrap();

    assert_relative(f(v.get_voltage()), 1.0);
    assert_relative(f(v.get_current()), 0.000367879441171);
    assert_relative(f(r.get_voltage()), 0.367879441171);
    assert_relative(eval(&r.get_current()), 0.000367879441171);
    assert_relative(f(c.get_voltage()), 0.632120558829);
    assert_relative(f(c.get_current()), 0.000367879441171);
}

#[test]
fn test_voltage_source_inductor() {
    let mut netlist = Netlist::new();
    netlist
        .add_component(VoltageSource::new(1, 0, s(1.0)))
        .add_component(Inductor::new(1, 0, s(0.5), s(0.0)));

    {
        let mut solver = BESolver::new(&mut netlist);
        solve(&mut solver, 0.25).unwrap();
    }

    println!("{:?}", netlist);

    let v: VoltageSource = netlist.get_components()[0].try_into().unwrap();
    let l: Inductor = netlist.get_components()[1].try_into().unwrap();

    assert_relative(f(v.get_voltage()), 1.0);
    assert_relative(f(v.get_current()), 0.5);
    assert_relative(f(l.get_voltage()), 1.0);
    assert_relative(f(l.get_current()), 0.5);

    {
        let mut solver = BESolver::new(&mut netlist);
        solve(&mut solver, 0.75).unwrap();
    }

    println!("{:?}", netlist);

    let v: VoltageSource = netlist.get_components()[0].try_into().unwrap();
    let l: Inductor = netlist.get_components()[1].try_into().unwrap();

    assert_relative(f(v.get_voltage()), 1.0);
    assert_relative(f(v.get_current()), 2.0);
    assert_relative(f(l.get_voltage()), 1.0);
    assert_relative(f(l.get_current()), 2.0);
}

#[test]
fn test_rl_step() {
    let mut netlist = Netlist::new();
    netlist
        .add_component(VoltageSource::new(1, 0, s(1.0)))
        .add_component(Resistor::new(1, 2, s(0.001)))
        .add_component(Inductor::new(2, 0, s(0.01), s(0.0)));

    {
        let mut solver = BESolver::new(&mut netlist);
        for _ in 0..1000 {
            solve(&mut solver, 0.001).unwrap();
        }
    }

    println!("{:?}", netlist);

    let v: VoltageSource = netlist.get_components()[0].try_into().unwrap();
    let r: Resistor = netlist.get_components()[1].try_into().unwrap();
    let l: Inductor = netlist.get_components()[2].try_into().unwrap();

    assert_relative(f(v.get_voltage()), 1.0);
    assert_relative(f(v.get_current()), 95.162581964);
    assert_relative(f(r.get_voltage()), 0.095162581964);
    assert_relative(eval(&r.get_current()), 95.162581964);
    assert_relative(f(l.get_voltage()), 0.904837418036);
    assert_relative(f(l.get_current()), 95.162581964);
}

#[test]
fn test_r_diode() {
    let mut netlist = Netlist::new();
    netlist
        .add_component(VoltageSource::new(1, 0, s(10.0)))
        .add_component(Resistor::new(1, 2, s(10.0)))
        // Approximately a Vishay 1N4148 just for fun
        .add_component(Diode::new(2, 0, s(25.0e-9), s(2.0), s(26.0e-3)));

    {
        let mut solver = BESolver::new(&mut netlist);
        solve(&mut solver, 0.001).unwrap();
    }

    println!("{:?}", netlist);

    let v: VoltageSource = netlist.get_components()[0].try_into().unwrap();
    let r: Resistor = netlist.get_components()[1].try_into().unwrap();
    let d: Diode = netlist.get_components()[2].try_into().unwrap();

    assert_relative(f(v.get_voltage()), 10.0);
    assert_relative(f(v.get_current()), 0.9094706);
    assert_relative(f(r.get_voltage()), 9.094706);
    assert_relative(eval(&r.get_current()), 0.9094706);
    assert_relative(f(d.get_voltage()), 0.905294);
    assert_relative(eval(&d.get_current()), 0.9094706);
}

#[test]
fn empty_netlist_has_nothing_to_solve() {
    let mut netlist = Netlist::new();
    assert_eq!(netlist.get_num_nodes(), 0);
    let mut solver = BESolver::new(&mut netlist);
    assert_eq!(solver.begin(s(0.001)), Ok(Step::Done));
    assert_eq!(solver.get_phase(), Phase::Idle);
    assert_eq!(solve(&mut solver, 0.001), Ok(()));
}

#[test]
fn ground_only_netlist_is_left_untouched() {
    let mut netlist = Netlist::new();
    netlist
        .add_component(Resistor::new(0, 0, s(2.0)))
        .add_component(Capacitor::new(0, 0, s(0.5), s(3.0)))
        .add_component(CurrentSource::new(0, 0, s(1.0)));
    let before: Vec<Component> = netlist.get_components().clone();
    {
        let mut solver = BESolver::new(&mut netlist);
        assert_eq!(solver.begin(s(0.001)), Ok(Step::Done));
        assert_eq!(solve(&mut solver, 0.001), Ok(()));
    }
    assert_eq!(netlist.get_components(), &before);
}

#[test]
fn shorted_voltage_source_is_singular() {
    let mut netlist = Netlist::new();
    netlist
        .add_component(VoltageSource::new(1, 1, s(5.0)))
        .add_component(Resistor::new(1, 0, s(2.0)));
    let before: Vec<Component> = netlist.get_components().clone();
    {
        let mut solver = BESolver::new(&mut netlist);
        assert_eq!(solve(&mut solver, 0.001), Err(SolveError::SingularMatrix));
        assert_eq!(solver.get_phase(), Phase::Idle);
    }
    assert_eq!(netlist.get_components(), &before);
}

#[test]
fn floating_node_is_singular() {
    let mut netlist = Netlist::new();
    netlist
        .add_component(VoltageSource::new(1, 0, s(5.0)))
        .add_component(Resistor::new(2, 3, s(2.0)));
    let mut solver = BESolver::new(&mut netlist);
    assert_eq!(solve(&mut solver, 0.001), Err(SolveError::SingularMatrix));
}

#[test]
fn invalid_parameters_are_refused_before_stamping() {
    let bad: Vec<Component> = vec![
        Resistor::new(1, 0, s(0.0)).into(),
        Resistor::new(1, 0, s(-0.0)).into(),
        Resistor::new(1, 0, s(-2.0)).into(),
        Capacitor::new(1, 0, s(0.0), s(0.0)).into(),
        Capacitor::new(1, 0, s(-1e-6), s(0.0)).into(),
        Inductor::new(1, 0, s(-0.5), s(0.0)).into(),
        Inductor::new(1, 0, s(f64::NEG_INFINITY), s(0.0)).into(),
        Diode::new(1, 0, s(25.0e-9), s(0.0), s(26.0e-3)).into(),
        Diode::new(1, 0, s(25.0e-9), s(2.0), s(-26.0e-3)).into(),
    ];
    for component in bad {
        assert!(!component.is_valid());
        let mut netlist = Netlist::new();
        netlist
            .add_component(VoltageSource::new(1, 0, s(1.0)))
            .add_component(component);
        let mut solver = BESolver::new(&mut netlist);
        assert_eq!(solver.begin(s(0.001)), Err(SolveError::InvalidNetlist));
        assert_eq!(solver.get_phase(), Phase::Idle);
    }
}

#[test]
fn sources_take_any_value() {
    let mut netlist = Netlist::new();
    netlist
        .add_component(VoltageSource::new(1, 0, s(-3.0)))
        .add_component(Resistor::new(1, 0, s(2.0)))
        .add_component(CurrentSource::new(1, 0, s(0.0)));
    {
        let mut solver = BESolver::new(&mut netlist);
        solve(&mut solver, 0.001).unwrap();
    }
    let v: VoltageSource = netlist.get_components()[0].try_into().unwrap();
    let r: Resistor = netlist.get_components()[1].try_into().unwrap();
    assert_relative(f(v.get_current()), -1.5);
    assert_relative(f(r.get_voltage()), -3.0);
}

#[test]
fn oversized_node_id_is_refused() {
    let mut netlist = Netlist::new();
    netlist.add_component(VoltageSource::new(usize::MAX, 0, s(1.0)));
    let mut solver = BESolver::new(&mut netlist);
    assert_eq!(solver.begin(s(0.001)), Err(SolveError::InvalidNetlist));
}

#[test]
fn loop_gives_up_at_the_round_cap() {
    let mut netlist = Netlist::new();
    netlist
        .add_component(VoltageSource::new(1, 0, s(10.0)))
        .add_component(Resistor::new(1, 0, s(2.0)));
    let before: Vec<Component> = netlist.get_components().clone();
    {
        let mut solver = BESolver::new(&mut netlist);
        let mut step = solver.begin(s(0.001));
        let mut rounds = 0;
        // Report a solution that never settles.
        while let Ok(Step::Solve(assembly)) = step {
            assert_eq!(assembly.dimension, 2);
            rounds += 1;
            let x = vec![s(rounds as f64), s(1.0)];
            step = solver.advance(Outcome::Solved { x, change: s(1.0) });
        }
        assert_eq!(rounds, 1000);
        assert_eq!(step, Err(SolveError::NonConvergence(vec![s(1000.0), s(1.0)])));
        assert_eq!(solver.get_phase(), Phase::Idle);
    }
    assert_eq!(netlist.get_components(), &before);
}

#[test]
fn tolerance_is_one_part_in_ten_thousand() {
    let cases = [
        (0.0, true),
        (-0.0, true),
        (0.99e-4, true),
        (1e-4, false),
        (1.01e-4, false),
        (1.0, false),
        (f64::INFINITY, false),
        (f64::NAN, false),
    ];
    for (change, converges) in cases {
        let mut netlist = Netlist::new();
        netlist
            .add_component(VoltageSource::new(1, 0, s(10.0)))
            .add_component(Resistor::new(1, 0, s(2.0)));
        let mut solver = BESolver::new(&mut netlist);
        assert!(matches!(solver.begin(s(0.001)), Ok(Step::Solve(_))));
        let step = solver.advance(Outcome::Solved { x: vec![s(10.0), s(5.0)], change: s(change) });
        assert_eq!(matches!(step, Ok(Step::Update(_))), converges, "change {}", change);
        assert_eq!(solver.get_iterate(), &vec![s(10.0), s(5.0)]);
    }
}

#[test]
fn newton_starts_from_zero_and_linear_systems_repeat() {
    let mut netlist = Netlist::new();
    netlist
        .add_component(VoltageSource::new(1, 0, s(5.0)))
        .add_component(Resistor::new(1, 2, s(4.0)))
        .add_component(Capacitor::new(2, 0, s(1.0), s(0.5)));
    let mut solver = BESolver::new(&mut netlist);
    let first = match solver.begin(s(0.001)) {
        Ok(Step::Solve(assembly)) => assembly,
        other => panic!("unexpected {:?}", other),
    };
    assert_eq!(first.dimension, 3);
    assert_eq!(solver.get_iterate(), &vec![s(0.0); 3]);
    let outcome = round(&first, solver.get_iterate());
    let second = match solver.advance(outcome) {
        Ok(Step::Solve(assembly)) => assembly,
        other => panic!("unexpected {:?}", other),
    };
    // Without a diode the system does not depend on the iterate.
    assert_eq!(first, second);
    let outcome = round(&second, solver.get_iterate());
    assert!(matches!(solver.advance(outcome), Ok(Step::Update(_))));
}

#[test]
fn equal_netlists_give_bitwise_equal_states() {
    let build = || {
        let mut netlist = Netlist::new();
        netlist
            .add_component(VoltageSource::new(1, 0, s(10.0)))
            .add_component(Resistor::new(1, 2, s(10.0)))
            .add_component(Diode::new(2, 0, s(25.0e-9), s(2.0), s(26.0e-3)))
            .add_component(Capacitor::new(2, 0, s(1e-6), s(0.1)));
        netlist
    };
    let mut first = build();
    let mut second = build();
    for netlist in [&mut first, &mut second] {
        let mut solver = BESolver::new(netlist);
        for _ in 0..3 {
            solve(&mut solver, 0.001).unwrap();
        }
    }
    assert_eq!(first.get_components(), second.get_components());
}

#[test]
fn solved_step_obeys_the_current_law_and_the_element_laws() {
    let mut netlist = Netlist::new();
    netlist
        .add_component(VoltageSource::new(1, 0, s(5.0)))
        .add_component(Resistor::new(1, 2, s(4.0)))
        .add_component(Resistor::new(2, 0, s(1.0)))
        .add_component(Resistor::new(2, 0, s(3.0)));
    {
        let mut solver = BESolver::new(&mut netlist);
        solve(&mut solver, 0.001).unwrap();
    }
    let v: VoltageSource = netlist.get_components()[0].try_into().unwrap();
    let r1: Resistor = netlist.get_components()[1].try_into().unwrap();
    let r2: Resistor = netlist.get_components()[2].try_into().unwrap();
    let r3: Resistor = netlist.get_components()[3].try_into().unwrap();
    let (i1, i2, i3) = (eval(&r1.get_current()), eval(&r2.get_current()), eval(&r3.get_current()));
    let largest = i1.abs().max(i2.abs()).max(i3.abs());
    // Node 1: the source delivers what the first resistor takes.
    assert!((i1 - f(v.get_current())).abs() <= 1e-6 * largest);
    // Node 2: what comes through the first resistor leaves through the others.
    assert!((i1 - i2 - i3).abs() <= 1e-6 * largest);
    for r in [r1, r2, r3] {
        assert!((f(r.get_voltage()) - f(r.get_resistance()) * eval(&r.get_current())).abs() <= 1e-6);
    }
    assert!((f(r1.get_voltage()) + f(r2.get_voltage()) - f(v.get_voltage())).abs() <= 1e-6);
}

#[test]
fn capacitor_energy_follows_the_delivered_power() {
    let mut netlist = Netlist::new();
    netlist
        .add_component(CurrentSource::new(1, 0, s(1.0)))
        .add_component(Capacitor::new(1, 0, s(0.5), s(0.0)));
    let dt = 1e-3;
    let mut delivered = 0.0;
    {
        let mut solver = BESolver::new(&mut netlist);
        for _ in 0..1000 {
            solve(&mut solver, dt).unwrap();
            let c: Capacitor = solver.get_netlist().get_components()[1].try_into().unwrap();
            delivered += eval(&c.get_power()) * dt;
        }
    }
    let c: Capacitor = netlist.get_components()[1].try_into().unwrap();
    let stored = 0.5 * f(c.get_capacitance()) * f(c.get_voltage()) * f(c.get_voltage());
    assert!((stored - 1.0).abs() < 1e-9);
    // Backward Euler sums the power at the end of each step: first order in dt.
    assert!((stored - delivered).abs() <= 2.0 * dt);
}

#[test]
fn solve_and_the_steps_agree() {
    let build = || {
        let mut netlist = Netlist::new();
        netlist
            .add_component(VoltageSource::new(1, 0, s(10.0)))
            .add_component(Resistor::new(1, 2, s(10.0)))
            .add_component(Diode::new(2, 0, s(25.0e-9), s(2.0), s(26.0e-3)))
            .add_component(Inductor::new(2, 3, s(1e-3), s(0.0)))
            .add_component(Capacitor::new(3, 0, s(1e-6), s(0.0)));
        netlist
    };
    let mut first = build();
    let mut second = build();
    {
        let mut third = build();
        let mut solver = BESolver::new(&mut first);
        let mut stepper = BESolver::new(&mut second);
        let mut rounder = BESolver::new(&mut third);
        for _ in 0..5 {
            assert_eq!(solve(&mut solver, 1e-5), Ok(()));
            assert_eq!(solve_by_steps(&mut stepper, 1e-5), Ok(()));
            assert_eq!(solve_by_rounds(&mut rounder, 1e-5), Ok(()));
            assert_eq!(solver.get_phase(), Phase::Idle);
            assert_eq!(
                solver.get_netlist().get_components(),
                rounder.get_netlist().get_components()
            );
        }
    }
    assert_eq!(first.get_components(), second.get_components());
    let c: Capacitor = first.get_components()[4].try_into().unwrap();
    assert!(f(c.get_voltage()) != 0.0);
}

#[test]
fn newton_reports_what_the_rounds_report() {
    let mut netlist = Netlist::new();
    netlist
        .add_component(VoltageSource::new(1, 0, s(10.0)))
        .add_component(Resistor::new(1, 0, s(2.0)));
    let before: Vec<Component> = netlist.get_components().clone();
    {
        let mut solver = BESolver::new(&mut netlist);
        let singular = |_: &Assembly, _: &Vec<Scalar>| Outcome::Singular;
        assert_eq!(solver.newton(s(0.001), singular, point), Err(SolveError::SingularMatrix));
        let restless = |assembly: &Assembly, x: &Vec<Scalar>| Outcome::Solved {
            x: vec![s(f(x[0]) + 1.0); assembly.dimension],
            change: s(0.5),
        };
        assert_eq!(
            solver.newton(s(0.001), restless, point),
            Err(SolveError::NonConvergence(vec![s(1000.0), s(1000.0)]))
        );
        assert_eq!(solver.get_phase(), Phase::Idle);
    }
    assert_eq!(netlist.get_components(), &before);
    {
        let mut solver = BESolver::new(&mut netlist);
        let settled = |_: &Assembly, _: &Vec<Scalar>| Outcome::Solved {
            x: vec![s(10.0), s(5.0)],
            change: s(0.0),
        };
        assert_eq!(solver.newton(s(0.001), settled, point), Ok(()));
    }
    let v: VoltageSource = netlist.get_components()[0].try_into().unwrap();
    let r: Resistor = netlist.get_components()[1].try_into().unwrap();
    assert_eq!(f(v.get_current()), 5.0);
    assert_eq!(f(r.get_voltage()), 10.0);
}

#[test]
fn diode_obeys_its_law_after_convergence() {
    let mut netlist = Netlist::new();
    netlist
        .add_component(VoltageSource::new(1, 0, s(10.0)))
        .add_component(Resistor::new(1, 2, s(10.0)))
        .add_component(Diode::new(2, 0, s(25.0e-9), s(2.0), s(26.0e-3)));
    {
        let mut solver = BESolver::new(&mut netlist);
        solve(&mut solver, 0.001).unwrap();
    }
    let r: Resistor = netlist.get_components()[1].try_into().unwrap();
    let d: Diode = netlist.get_components()[2].try_into().unwrap();
    // The current that the circuit drives through the diode is the one that
    // the diode's law gives for its voltage.
    let driven = eval(&r.get_current());
    let law = 25.0e-9 * ((f(d.get_voltage()) / (2.0 * 26.0e-3)).exp() - 1.0);
    assert_eq!(eval(&d.get_current()), law);
    assert!((driven - law).abs() <= 1e-4 * driven.abs());
}

#[test]
fn inductor_energy_follows_the_delivered_power() {
    let mut netlist = Netlist::new();
    netlist
        .add_component(VoltageSource::new(1, 0, s(1.0)))
        .add_component(Inductor::new(1, 0, s(0.5), s(0.0)));
    let dt = 1e-3;
    let mut delivered = 0.0;
    {
        let mut solver = BESolver::new(&mut netlist);
        for _ in 0..1000 {
            solve(&mut solver, dt).unwrap();
            let l: Inductor = solver.get_netlist().get_components()[1].try_into().unwrap();
            delivered += eval(&l.get_power()) * dt;
        }
    }
    let l: Inductor = netlist.get_components()[1].try_into().unwrap();
    let stored = 0.5 * f(l.get_inductance()) * f(l.get_current()) * f(l.get_current());
    assert!((f(l.get_current()) - 2.0).abs() < 1e-9);
    assert!((stored - 1.0).abs() < 1e-9);
    assert!((stored - delivered).abs() <= 2.0 * dt);
}

#[test]
fn linear_step_solves_the_same_system_twice() {
    let mut netlist = Netlist::new();
    netlist
        .add_component(VoltageSource::new(1, 0, s(5.0)))
        .add_component(Resistor::new(1, 2, s(4.0)))
        .add_component(Resistor::new(2, 0, s(1.0)));
    let seen: std::cell::RefCell<Vec<(Assembly, Vec<Scalar>)>> = std::cell::RefCell::new(Vec::new());
    {
        let mut solver = BESolver::new(&mut netlist);
        let watched = |assembly: &Assembly, x: &Vec<Scalar>| {
            let copy = Assembly {
                dimension: assembly.dimension,
                num_nodes: assembly.num_nodes,
                coefficients: assembly
                    .coefficients
                    .iter()
                    .map(|c| Coefficient { row: c.row, col: c.col, value: c.value.duplicate() })
                    .collect(),
                sources: assembly
                    .sources
                    .iter()
                    .map(|c| Source { row: c.row, value: c.value.duplicate() })
                    .collect(),
            };
            seen.borrow_mut().push((copy, x.clone()));
            round(assembly, x)
        };
        assert_eq!(solver.newton(s(0.001), watched, point), Ok(()));
    }
    let seen = seen.into_inner();
    // The first round starts from zero and cannot tell that it has the
    // answer; the second solves the same system and finds no change.
    assert_eq!(seen.len(), 2);
    assert_eq!(seen[0].1, vec![s(0.0); 3]);
    assert_eq!(seen[0].0, seen[1].0);
    assert_eq!(seen[1].1.iter().map(|v| f(*v)).collect::<Vec<f64>>(), vec![5.0, 1.0, 1.0]);
}

#[test]
fn solve_refuses_what_no_dense_matrix_holds() {
    let mut netlist = Netlist::new();
    netlist.add_component(VoltageSource::new(usize::MAX / 2, 0, s(1.0)));
    let mut solver = BESolver::new(&mut netlist);
    assert_eq!(solve(&mut solver, 0.001), Err(SolveError::InvalidNetlist));
    assert_eq!(solver.get_phase(), Phase::Idle);
}

#[test]
fn solve_reports_singular_and_unsettled_rounds() {
    let mut netlist = Netlist::new();
    netlist
        .add_component(VoltageSource::new(1, 0, s(10.0)))
        .add_component(Resistor::new(1, 0, s(2.0)));
    let before: Vec<Component> = netlist.get_components().clone();
    {
        let mut solver = BESolver::new(&mut netlist);
        let none = |_: ABMatrix| -> Option<Vec<Scalar>> { None };
        assert_eq!(solver.solve(s(0.001), &value, &none), Err(SolveError::SingularMatrix));
        // A solver that answers with ever larger numbers never settles.
        let calls = std::cell::Cell::new(0.0f64);
        let growing = |_: ABMatrix| -> Option<Vec<Scalar>> {
            calls.set(calls.get() + 1.0);
            Some(vec![s(calls.get().exp2()), s(1.0)])
        };
        assert_eq!(
            solver.solve(s(0.001), &value, &growing),
            Err(SolveError::NonConvergence(vec![s(1000.0f64.exp2()), s(1.0)]))
        );
        assert_eq!(calls.get(), 1000.0);
        assert_eq!(solver.get_phase(), Phase::Idle);
    }
    assert_eq!(netlist.get_components(), &before);
}

#[test]
fn abandon_ends_a_step_without_a_change() {
    let mut netlist = Netlist::new();
    netlist
        .add_component(VoltageSource::new(1, 0, s(10.0)))
        .add_component(Resistor::new(1, 0, s(2.0)));
    let before: Vec<Component> = netlist.get_components().clone();
    {
        let mut solver = BESolver::new(&mut netlist);
        assert!(matches!(solver.begin(s(0.001)), Ok(Step::Solve(_))));
        assert_eq!(solver.get_phase(), Phase::Iterating);
        solver.abandon();
        assert_eq!(solver.get_phase(), Phase::Idle);
        assert_eq!(solve(&mut solver, 0.001), Ok(()));
    }
    assert_ne!(netlist.get_components(), &before);
}

#[test]
fn voltage_sources_in_series_add_up() {
    let mut netlist = Netlist::new();
    netlist
        .add_component(VoltageSource::new(1, 0, s(5.0)))
        .add_component(VoltageSource::new(2, 1, s(3.0)))
        .add_component(Resistor::new(2, 0, s(4.0)));
    {
        let mut solver = BESolver::new(&mut netlist);
        solve(&mut solver, 0.001).unwrap();
    }
    let v1: VoltageSource = netlist.get_components()[0].try_into().unwrap();
    let v2: VoltageSource = netlist.get_components()[1].try_into().unwrap();
    let r: Resistor = netlist.get_components()[2].try_into().unwrap();
    assert_relative(f(r.get_voltage()), 8.0);
    assert_relative(eval(&r.get_current()), 2.0);
    assert_relative(f(v1.get_current()), 2.0);
    assert_relative(f(v2.get_current()), 2.0);
}
