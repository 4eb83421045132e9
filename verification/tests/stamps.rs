use circuitsim::be_solver::matrix_view::{ABMatrixView, Coefficient, Source, XMatrixView};
use circuitsim::be_solver::stampable::{OperatingPoint, Readout, Stampable};
use circuitsim::be_solver::assembly::{assemble, count_variables, readouts, update, validate};
use circuitsim::scalar::zeros;
use circuitsim::components::{
    Capacitor, Component, CurrentSource, Diode, Inductor, Netlist, Resistor, VoltageSource,
};
use circuitsim::{Expr, Scalar};

fn s(value: f64) -> Scalar {
    Scalar::from_bits(value.to_bits())
}

fn f(value: Scalar) -> f64 {
    f64::from_bits(value.to_bits())
}

fn eval(e: &Expr) -> f64 {
    match e {
        Expr::Value(v) => f(*v),
        Expr::Neg(a) => -eval(a),
        Expr::Sum(a, b) => eval(a) + eval(b),
        Expr::Difference(a, b) => eval(a) - eval(b),
        Expr::Product(a, b) => eval(a) * eval(b),
        Expr::Quotient(a, b) => eval(a) / eval(b),
        Expr::Exp(a) => eval(a).exp(),
        Expr::Abs(a) => eval(a).abs(),
    }
}

/// Stamps one element into an empty system of `num_nodes` nodes whose
/// auxiliary unknowns begin at `start`.
fn stamp<C: Stampable>(
    element: &C,
    num_nodes: usize,
    start: usize,
    x: &Vec<Scalar>,
    dt: f64,
) -> (Vec<Coefficient>, Vec<Source>) {
    let mut a = Vec::new();
    let mut b = Vec::new();
    {
        let mut view = ABMatrixView::new(&mut a, &mut b, num_nodes, element.num_variables(), start);
        let op_point = XMatrixView::new(x, num_nodes, element.num_variables(), start);
        element.stamp(&mut view, &op_point, s(dt));
    }
    (a, b)
}

fn places(a: &[Coefficient]) -> Vec<(usize, usize, f64)> {
    a.iter().map(|c| (c.row, c.col, eval(&c.value))).collect()
}

fn sides(b: &[Source]) -> Vec<(usize, f64)> {
    b.iter().map(|c| (c.row, eval(&c.value))).collect()
}

fn one() -> Expr {
    Expr::Value(s(1.0))
}

#[test]
fn only_voltage_sources_add_unknowns() {
    assert_eq!(Resistor::new(1, 0, s(1.0)).num_variables(), 0);
    assert_eq!(Capacitor::new(1, 0, s(1.0), s(0.0)).num_variables(), 0);
    assert_eq!(Inductor::new(1, 0, s(1.0), s(0.0)).num_variables(), 0);
    assert_eq!(Diode::new(1, 0, s(1.0), s(1.0), s(1.0)).num_variables(), 0);
    assert_eq!(CurrentSource::new(1, 0, s(1.0)).num_variables(), 0);
    assert_eq!(VoltageSource::new(1, 0, s(1.0)).num_variables(), 1);
    assert_eq!(Component::from(VoltageSource::new(1, 0, s(1.0))).num_variables(), 1);
    assert_eq!(Component::from(Resistor::new(1, 0, s(1.0))).num_variables(), 0);
}

#[test]
fn resistor_stamps_its_conductance() {
    let r = Resistor::new(1, 2, s(2.0));
    let x = vec![s(0.0); 2];
    let (a, b) = stamp(&r, 2, 2, &x, 0.001);
    let g = || Expr::Quotient(Box::new(one()), Box::new(Expr::Value(s(2.0))));
    assert_eq!(
        a,
        vec![
            Coefficient { row: 0, col: 0, value: g() },
            Coefficient { row: 0, col: 1, value: Expr::Neg(Box::new(g())) },
            Coefficient { row: 1, col: 0, value: Expr::Neg(Box::new(g())) },
            Coefficient { row: 1, col: 1, value: g() },
        ]
    );
    assert_eq!(places(&a), vec![(0, 0, 0.5), (0, 1, -0.5), (1, 0, -0.5), (1, 1, 0.5)]);
    assert!(b.is_empty());
    assert_eq!(r.get_conductance(), g());
}

#[test]
fn grounded_terminal_leaves_one_entry() {
    let x = vec![s(0.0); 3];
    let (a, b) = stamp(&Resistor::new(3, 0, s(4.0)), 3, 3, &x, 0.001);
    assert_eq!(places(&a), vec![(2, 2, 0.25)]);
    assert!(b.is_empty());
    let (a, _) = stamp(&Resistor::new(0, 2, s(4.0)), 3, 3, &x, 0.001);
    assert_eq!(places(&a), vec![(1, 1, 0.25)]);
    let (a, b) = stamp(&Capacitor::new(0, 0, s(4.0), s(1.0)), 3, 3, &x, 0.001);
    assert!(a.is_empty());
    assert!(b.is_empty());
}

#[test]
fn capacitor_stamps_backward_euler() {
    let c = Capacitor::new(1, 2, s(0.5), s(3.0));
    let x = vec![s(0.0); 2];
    let (a, b) = stamp(&c, 2, 2, &x, 0.25);
    assert_eq!(places(&a), vec![(0, 0, 2.0), (0, 1, -2.0), (1, 0, -2.0), (1, 1, 2.0)]);
    assert_eq!(sides(&b), vec![(0, 6.0), (1, -6.0)]);
    assert_eq!(
        a[0].value,
        Expr::Quotient(Box::new(Expr::Value(s(0.5))), Box::new(Expr::Value(s(0.25))))
    );
    assert_eq!(
        a[1].value,
        Expr::Quotient(
            Box::new(Expr::Neg(Box::new(Expr::Value(s(0.5))))),
            Box::new(Expr::Value(s(0.25)))
        )
    );
    assert_eq!(
        b[0].value,
        Expr::Quotient(
            Box::new(Expr::Product(Box::new(Expr::Value(s(0.5))), Box::new(Expr::Value(s(3.0))))),
            Box::new(Expr::Value(s(0.25)))
        )
    );
    assert_eq!(
        b[1].value,
        Expr::Quotient(
            Box::new(Expr::Product(
                Box::new(Expr::Neg(Box::new(Expr::Value(s(0.5))))),
                Box::new(Expr::Value(s(3.0)))
            )),
            Box::new(Expr::Value(s(0.25)))
        )
    );
}

#[test]
fn inductor_stamps_backward_euler() {
    let l = Inductor::new(2, 1, s(0.5), s(3.0));
    let x = vec![s(0.0); 2];
    let (a, b) = stamp(&l, 2, 2, &x, 0.25);
    assert_eq!(places(&a), vec![(1, 1, 0.5), (1, 0, -0.5), (0, 1, -0.5), (0, 0, 0.5)]);
    assert_eq!(sides(&b), vec![(1, -3.0), (0, 3.0)]);
    assert_eq!(
        a[1].value,
        Expr::Quotient(
            Box::new(Expr::Neg(Box::new(Expr::Value(s(0.25))))),
            Box::new(Expr::Value(s(0.5)))
        )
    );
    assert_eq!(b[0].value, Expr::Neg(Box::new(Expr::Value(s(3.0)))));
    assert_eq!(b[1].value, Expr::Value(s(3.0)));
}

#[test]
fn voltage_source_stamps_its_branch_equation() {
    let v = VoltageSource::new(1, 2, s(9.0));
    let x = vec![s(0.0); 5];
    let (a, b) = stamp(&v, 2, 4, &x, 0.001);
    assert_eq!(
        a,
        vec![
            Coefficient { row: 0, col: 4, value: Expr::Neg(Box::new(one())) },
            Coefficient { row: 1, col: 4, value: one() },
            Coefficient { row: 4, col: 0, value: one() },
            Coefficient { row: 4, col: 1, value: Expr::Neg(Box::new(one())) },
        ]
    );
    assert_eq!(b, vec![Source { row: 4, value: Expr::Value(s(9.0)) }]);

    let (a, b) = stamp(&VoltageSource::new(1, 0, s(9.0)), 1, 1, &x, 0.001);
    assert_eq!(places(&a), vec![(0, 1, -1.0), (1, 0, 1.0)]);
    assert_eq!(sides(&b), vec![(1, 9.0)]);
}

#[test]
fn current_source_stamps_the_right_hand_side() {
    let i = CurrentSource::new(1, 2, s(5.0));
    let x = vec![s(0.0); 2];
    let (a, b) = stamp(&i, 2, 2, &x, 0.001);
    assert!(a.is_empty());
    assert_eq!(
        b,
        vec![
            Source { row: 0, value: Expr::Value(s(5.0)) },
            Source { row: 1, value: Expr::Neg(Box::new(Expr::Value(s(5.0)))) },
        ]
    );
}

#[test]
fn diode_stamps_its_companion_model() {
    let d = Diode::new(1, 2, s(25.0e-9), s(2.0), s(26.0e-3));
    let x = vec![s(0.9), s(0.2)];
    let (a, b) = stamp(&d, 2, 2, &x, 0.001);
    let v0: f64 = 0.9 - 0.2;
    let nvt: f64 = 2.0 * 26.0e-3;
    let g = (25.0e-9 / nvt) * (v0 / nvt).exp();
    let i0 = 25.0e-9 * ((v0 / nvt).exp() - 1.0);
    let ieq = i0 - g * v0;
    assert_eq!(places(&a), vec![(0, 0, g), (0, 1, -g), (1, 0, -g), (1, 1, g)]);
    assert_eq!(sides(&b), vec![(0, -ieq), (1, ieq)]);
    // At the operating point the model carries the diode's own current.
    assert!((g * v0 + ieq - i0).abs() <= 1e-12 * i0.abs());
    assert_eq!(eval(&d.get_di_dv(s(v0))), g);
    assert_eq!(eval(&d.get_current_with_voltage(s(v0))), i0);
}

#[test]
fn diode_reads_the_ground_as_zero() {
    let d = Diode::new(0, 1, s(25.0e-9), s(2.0), s(26.0e-3));
    let x = vec![s(-0.5)];
    let (a, b) = stamp(&d, 1, 1, &x, 0.001);
    let v0: f64 = 0.0 - -0.5;
    let nvt: f64 = 2.0 * 26.0e-3;
    let g = (25.0e-9 / nvt) * (v0 / nvt).exp();
    let ieq = 25.0e-9 * ((v0 / nvt).exp() - 1.0) - g * v0;
    assert_eq!(places(&a), vec![(0, 0, g)]);
    assert_eq!(sides(&b), vec![(0, ieq)]);
}

#[test]
fn component_stamps_as_its_element_does() {
    let x = vec![s(0.3), s(0.1), s(0.0)];
    let elements: Vec<Component> = vec![
        Resistor::new(1, 2, s(2.0)).into(),
        Capacitor::new(1, 2, s(0.5), s(3.0)).into(),
        Inductor::new(1, 2, s(0.5), s(3.0)).into(),
        Diode::new(1, 2, s(25.0e-9), s(2.0), s(26.0e-3)).into(),
        VoltageSource::new(1, 2, s(9.0)).into(),
        CurrentSource::new(1, 2, s(5.0)).into(),
    ];
    for component in elements {
        let direct = match component {
            Component::Resistor(c) => stamp(&c, 2, 2, &x, 0.25),
            Component::Capacitor(c) => stamp(&c, 2, 2, &x, 0.25),
            Component::Inductor(c) => stamp(&c, 2, 2, &x, 0.25),
            Component::Diode(c) => stamp(&c, 2, 2, &x, 0.25),
            Component::VoltageSource(c) => stamp(&c, 2, 2, &x, 0.25),
            Component::CurrentSource(c) => stamp(&c, 2, 2, &x, 0.25),
        };
        assert_eq!(stamp(&component, 2, 2, &x, 0.25), direct);
    }
}

#[test]
fn assembly_walks_the_netlist_in_order() {
    let mut netlist = Netlist::new();
    netlist
        .add_component(VoltageSource::new(1, 0, s(10.0)))
        .add_component(Resistor::new(1, 2, s(2.0)))
        .add_component(VoltageSource::new(2, 0, s(5.0)));
    assert_eq!(count_variables(&netlist), Some(2));
    assert!(validate(&netlist));
    let x = zeros(4);
    assert_eq!(x, vec![s(0.0); 4]);
    let assembly = assemble(&netlist, &x, s(0.001));
    assert_eq!(assembly.dimension, 4);
    assert_eq!(
        places(&assembly.coefficients),
        vec![
            // The first source owns row and column 2.
            (0, 2, -1.0),
            (2, 0, 1.0),
            (0, 0, 0.5),
            (0, 1, -0.5),
            (1, 0, -0.5),
            (1, 1, 0.5),
            // The second source owns row and column 3.
            (1, 3, -1.0),
            (3, 1, 1.0),
        ]
    );
    assert_eq!(sides(&assembly.sources), vec![(2, 10.0), (3, 5.0)]);
    for c in &assembly.coefficients {
        assert!(c.row < assembly.dimension && c.col < assembly.dimension);
    }
}

#[test]
fn validate_finds_a_bad_element_anywhere() {
    let mut netlist = Netlist::new();
    assert!(validate(&netlist));
    netlist
        .add_component(Resistor::new(1, 2, s(2.0)))
        .add_component(Capacitor::new(1, 2, s(f64::MIN_POSITIVE), s(0.0)))
        .add_component(Inductor::new(1, 2, s(f64::INFINITY), s(0.0)));
    assert!(validate(&netlist));
    netlist.add_component(Diode::new(1, 2, s(-1.0), s(2.0), s(0.0)));
    assert!(!validate(&netlist));
}

#[test]
fn readouts_give_the_formulas_of_the_new_state() {
    let x = vec![s(7.0), s(3.0), s(0.125)];
    let view = XMatrixView::new(&x, 2, 1, 2);
    let v = || {
        Expr::Difference(Box::new(Expr::Value(s(7.0))), Box::new(Expr::Value(s(3.0))))
    };

    let r = Resistor::new(1, 2, s(2.0)).readout(&view, s(0.25));
    assert_eq!(r, Readout { voltage: Some(v()), current: None });

    let c = Capacitor::new(1, 2, s(0.5), s(1.0)).readout(&view, s(0.25));
    assert_eq!(c.voltage, Some(v()));
    assert_eq!(
        c.current,
        Some(Expr::Quotient(
            Box::new(Expr::Product(
                Box::new(Expr::Value(s(0.5))),
                Box::new(Expr::Difference(Box::new(v()), Box::new(Expr::Value(s(1.0)))))
            )),
            Box::new(Expr::Value(s(0.25)))
        ))
    );
    assert_eq!(eval(c.current.as_ref().unwrap()), 0.5 * (4.0 - 1.0) / 0.25);

    let l = Inductor::new(1, 2, s(0.5), s(1.0)).readout(&view, s(0.25));
    assert_eq!(l.voltage, Some(v()));
    assert_eq!(
        l.current,
        Some(Expr::Sum(
            Box::new(Expr::Quotient(
                Box::new(Expr::Product(Box::new(v()), Box::new(Expr::Value(s(0.25))))),
                Box::new(Expr::Value(s(0.5)))
            )),
            Box::new(Expr::Value(s(1.0)))
        ))
    );
    assert_eq!(eval(l.current.as_ref().unwrap()), 4.0 * 0.25 / 0.5 + 1.0);

    let source = VoltageSource::new(1, 2, s(4.0)).readout(&view, s(0.25));
    assert_eq!(source, Readout { voltage: None, current: Some(Expr::Value(s(0.125))) });

    let i = CurrentSource::new(2, 0, s(4.0)).readout(&view, s(0.25));
    assert_eq!(
        i,
        Readout {
            voltage: Some(Expr::Difference(
                Box::new(Expr::Value(s(3.0))),
                Box::new(Expr::Value(s(0.0)))
            )),
            current: None
        }
    );

    let d = Diode::new(1, 2, s(25.0e-9), s(2.0), s(26.0e-3)).readout(&view, s(0.25));
    assert_eq!(d, Readout { voltage: Some(v()), current: None });
}

#[test]
fn update_sets_the_state_and_nothing_else() {
    let point = OperatingPoint { voltage: Some(s(4.0)), current: Some(s(6.0)) };
    let nothing = OperatingPoint { voltage: None, current: None };

    let mut r = Resistor::new(1, 2, s(2.0));
    r.update(point);
    assert_eq!(r, Resistor { voltage: s(4.0), ..Resistor::new(1, 2, s(2.0)) });
    r.update(nothing);
    assert_eq!(f(r.get_voltage()), 4.0);

    let mut c = Capacitor::new(1, 2, s(0.5), s(1.0));
    c.update(point);
    assert_eq!(c, Capacitor { voltage: s(4.0), current: s(6.0), ..Capacitor::new(1, 2, s(0.5), s(1.0)) });
    c.update(OperatingPoint { voltage: None, current: Some(s(9.0)) });
    assert_eq!((f(c.get_voltage()), f(c.get_current())), (4.0, 9.0));

    let mut l = Inductor::new(1, 2, s(0.5), s(1.0));
    l.update(point);
    assert_eq!(l, Inductor { voltage: s(4.0), current: s(6.0), ..Inductor::new(1, 2, s(0.5), s(1.0)) });
    l.update(OperatingPoint { voltage: Some(s(9.0)), current: None });
    assert_eq!((f(l.get_voltage()), f(l.get_current())), (9.0, 6.0));

    let mut v = VoltageSource::new(1, 2, s(5.0));
    v.update(point);
    assert_eq!(v, VoltageSource { current: s(6.0), ..VoltageSource::new(1, 2, s(5.0)) });
    assert_eq!(f(v.get_voltage()), 5.0);

    let mut i = CurrentSource::new(1, 2, s(5.0));
    i.update(point);
    assert_eq!(i, CurrentSource { voltage: s(4.0), ..CurrentSource::new(1, 2, s(5.0)) });
    assert_eq!(f(i.get_current()), 5.0);

    let mut d = Diode::new(1, 2, s(25.0e-9), s(2.0), s(26.0e-3));
    d.update(point);
    assert_eq!(d, Diode { voltage: s(4.0), ..Diode::new(1, 2, s(25.0e-9), s(2.0), s(26.0e-3)) });

    let mut component = Component::from(Capacitor::new(1, 2, s(0.5), s(1.0)));
    component.update(point);
    assert_eq!(component, Component::Capacitor(c_with(4.0, 6.0)));
}

fn c_with(voltage: f64, current: f64) -> Capacitor {
    Capacitor { voltage: s(voltage), current: s(current), ..Capacitor::new(1, 2, s(0.5), s(1.0)) }
}

#[test]
fn netlist_readouts_and_update_go_element_by_element() {
    let mut netlist = Netlist::new();
    netlist
        .add_component(VoltageSource::new(1, 0, s(10.0)))
        .add_component(Capacitor::new(1, 2, s(0.5), s(1.0)))
        .add_component(VoltageSource::new(2, 0, s(5.0)));
    let x = vec![s(10.0), s(5.0), s(2.0), s(-2.0)];
    let all = readouts(&netlist, &x, s(0.25));
    assert_eq!(all.len(), 3);
    assert_eq!(all[0], Readout { voltage: None, current: Some(Expr::Value(s(2.0))) });
    assert_eq!(eval(all[1].voltage.as_ref().unwrap()), 5.0);
    assert_eq!(eval(all[1].current.as_ref().unwrap()), 0.5 * (5.0 - 1.0) / 0.25);
    assert_eq!(all[2], Readout { voltage: None, current: Some(Expr::Value(s(-2.0))) });

    let points = vec![
        OperatingPoint { voltage: None, current: Some(s(2.0)) },
        OperatingPoint { voltage: Some(s(5.0)), current: Some(s(8.0)) },
        OperatingPoint { voltage: None, current: Some(s(-2.0)) },
    ];
    update(&mut netlist, &points);
    assert_eq!(
        netlist.get_components(),
        &vec![
            Component::VoltageSource(VoltageSource { current: s(2.0), ..VoltageSource::new(1, 0, s(10.0)) }),
            Component::Capacitor(Capacitor {
                voltage: s(5.0),
                current: s(8.0),
                ..Capacitor::new(1, 2, s(0.5), s(1.0))
            }),
            Component::VoltageSource(VoltageSource { current: s(-2.0), ..VoltageSource::new(2, 0, s(5.0)) }),
        ]
    );
}
