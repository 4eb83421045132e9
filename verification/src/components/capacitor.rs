use vstd::prelude::*;
use vstd::std_specs::convert::TryFromSpecImpl;
use crate::components::Component;
use crate::expr::Expr;
use crate::scalar::Scalar;

verus! {

/// A capacitor between two nodes.
#[derive(Debug, Clone, Copy, PartialEq, Eq, Structural)]
pub struct Capacitor {
    pub positive_node: usize,
    pub negative_node: usize,
    /// The capacitance, in farads.
    pub capacitance: Scalar,
    /// The voltage across the capacitor: its state from step to step.
    pub voltage: Scalar,
    /// The current through the capacitor during the last solved step.
    pub current: Scalar,
}

impl Capacitor {
    pub open spec fn max_node_spec(&self) -> usize {
        if self.positive_node >= self.negative_node {
            self.positive_node
        } else {
            self.negative_node
        }
    }

    /// The capacitance is accepted: it is not `<= 0`.
    pub open spec fn is_valid_spec(&self) -> bool {
        !self.capacitance.le_spec(Scalar::zero_spec())
    }

    /// The power `v * I`.
    pub open spec fn power(&self) -> Expr {
        Expr::product_spec(Expr::Value(self.voltage), Expr::Value(self.current))
    }

    pub fn new(
        positive_node: usize,
        negative_node: usize,
        capacitance: Scalar,
        initial_voltage: Scalar,
    ) -> (c: Self)
        ensures
            c == (Capacitor {
                positive_node,
                negative_node,
                capacitance,
                voltage: initial_voltage,
                current: Scalar::zero_spec(),
            }),
    {
        Self {
            positive_node,
            negative_node,
            capacitance,
            voltage: initial_voltage,
            current: Scalar::zero(),
        }
    }

    pub fn max_node(&self) -> (node: usize)
        ensures
            node == self.max_node_spec(),
    {
        if self.positive_node >= self.negative_node {
            self.positive_node
        } else {
            self.negative_node
        }
    }

    pub fn is_valid(&self) -> (valid: bool)
        ensures
            valid == self.is_valid_spec(),
    {
        !self.capacitance.is_at_most(Scalar::zero())
    }

    pub fn get_positive_node(&self) -> (node: usize)
        ensures
            node == self.positive_node,
    {
        self.positive_node
    }

    pub fn get_negative_node(&self) -> (node: usize)
        ensures
            node == self.negative_node,
    {
        self.negative_node
    }

    pub fn get_capacitance(&self) -> (capacitance: Scalar)
        ensures
            capacitance == self.capacitance,
    {
        self.capacitance
    }

    pub fn get_voltage(&self) -> (voltage: Scalar)
        ensures
            voltage == self.voltage,
    {
        self.voltage
    }

    pub fn set_voltage(&mut self, voltage: Scalar)
        ensures
            *final(self) == (Capacitor { voltage, ..*old(self) }),
    {
        self.voltage = voltage;
    }

    pub fn get_current(&self) -> (current: Scalar)
        ensures
            current == self.current,
    {
        self.current
    }

    pub fn set_current(&mut self, current: Scalar)
        ensures
            *final(self) == (Capacitor { current, ..*old(self) }),
    {
        self.current = current;
    }

    pub fn get_power(&self) -> (power: Expr)
        ensures
            power == self.power(),
    {
        Expr::product(Expr::value(self.voltage), Expr::value(self.current))
    }
}

impl TryFrom<Component> for Capacitor {
    type Error = ();

    fn try_from(value: Component) -> (element: Result<Self, ()>) {
        match value {
            Component::Capacitor(c) => Ok(c),
            _ => Err(()),
        }
    }
}

impl TryFromSpecImpl<Component> for Capacitor {
    open spec fn obeys_try_from_spec() -> bool {
        true
    }

    open spec fn try_from_spec(value: Component) -> Result<Self, ()> {
        match value {
            Component::Capacitor(c) => Ok(c),
            _ => Err(()),
        }
    }
}

} // verus!
