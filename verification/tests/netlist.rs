use circuitsim::components::{
    Capacitor, Component, CurrentSource, Diode, Inductor, Netlist, Resistor, VoltageSource,
};
use circuitsim::Scalar;

fn s(value: f64) -> Scalar {
    Scalar::from_bits(value.to_bits())
}

#[test]
fn test_get_num_nodes() {
    let mut netlist = Netlist::new();
    netlist
        .add_component(Resistor::new(1, 2, s(1.0)))
        .add_component(VoltageSource::new(3, 4, s(1.0)));
    assert_eq!(netlist.get_num_nodes(), 4);

    let mut netlist = Netlist::new();
    netlist
        .add_component(VoltageSource::new(1, 2, s(1.0)))
        .add_component(Resistor::new(3, 4, s(1.0)));
    assert_eq!(netlist.get_num_nodes(), 4);
}

#[test]
fn new_netlist_is_empty() {
    let netlist = Netlist::new();
    assert!(netlist.get_components().is_empty());
    assert_eq!(netlist.get_num_nodes(), 0);
    assert!(Netlist::default().get_components().is_empty());
}

#[test]
fn components_keep_insertion_order() {
    let r = Resistor::new(1, 2, s(1.0));
    let c = Capacitor::new(2, 0, s(2.0), s(0.5));
    let l = Inductor::new(5, 3, s(3.0), s(0.25));
    let d = Diode::new(0, 7, s(1e-9), s(2.0), s(0.026));
    let v = VoltageSource::new(1, 0, s(9.0));
    let i = CurrentSource::new(0, 1, s(0.1));
    let mut netlist = Netlist::new();
    netlist.add_component(r).add_component(c).add_component(Component::Inductor(l));
    netlist.add_components(vec![d.into(), v.into(), i.into()]);
    assert_eq!(
        netlist.get_components(),
        &vec![
            Component::Resistor(r),
            Component::Capacitor(c),
            Component::Inductor(l),
            Component::Diode(d),
            Component::VoltageSource(v),
            Component::CurrentSource(i),
        ]
    );
    assert_eq!(netlist.get_num_nodes(), 7);
}

#[test]
fn components_can_be_changed_in_place() {
    let mut netlist = Netlist::new();
    netlist.add_component(Resistor::new(1, 0, s(1.0)));
    netlist.get_components_mut()[0] = Component::Resistor(Resistor::new(9, 0, s(1.0)));
    netlist.get_components_mut().push(CurrentSource::new(2, 3, s(1.0)).into());
    assert_eq!(netlist.get_components().len(), 2);
    assert_eq!(netlist.get_num_nodes(), 9);
}

#[test]
fn num_nodes_counts_ground_only_netlists_as_zero() {
    let mut netlist = Netlist::new();
    netlist.add_component(Resistor::new(0, 0, s(1.0)));
    assert_eq!(netlist.get_num_nodes(), 0);
}

#[test]
fn max_node_is_the_larger_terminal() {
    assert_eq!(Resistor::new(3, 8, s(1.0)).max_node(), 8);
    assert_eq!(Resistor::new(8, 3, s(1.0)).max_node(), 8);
    assert_eq!(Capacitor::new(4, 4, s(1.0), s(0.0)).max_node(), 4);
    assert_eq!(Inductor::new(0, 1, s(1.0), s(0.0)).max_node(), 1);
    assert_eq!(VoltageSource::new(2, 0, s(1.0)).max_node(), 2);
    assert_eq!(CurrentSource::new(0, 0, s(1.0)).max_node(), 0);
    assert_eq!(Diode::new(6, 5, s(1.0), s(1.0), s(1.0)).max_node(), 6);
    assert_eq!(Component::from(Diode::new(6, 5, s(1.0), s(1.0), s(1.0))).max_node(), 6);
}

#[test]
fn conversions_round_trip_and_refuse_other_kinds() {
    let r = Resistor::new(1, 2, s(1.0));
    let v = VoltageSource::new(1, 0, s(9.0));
    let component: Component = r.into();
    assert_eq!(Resistor::try_from(component), Ok(r));
    assert_eq!(VoltageSource::try_from(component), Err(()));
    assert_eq!(Capacitor::try_from(component), Err(()));
    assert_eq!(Inductor::try_from(component), Err(()));
    assert_eq!(Diode::try_from(component), Err(()));
    assert_eq!(CurrentSource::try_from(component), Err(()));
    assert_eq!(VoltageSource::try_from(Component::from(v)), Ok(v));
    assert_eq!(Resistor::try_from(Component::from(v)), Err(()));
}
