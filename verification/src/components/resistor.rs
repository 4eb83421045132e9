use vstd::prelude::*;
use vstd::std_specs::convert::TryFromSpecImpl;
use crate::components::Component;
use crate::expr::Expr;
use crate::scalar::Scalar;

verus! {

/// A resistor between two nodes.
#[derive(Debug, Clone, Copy, PartialEq, Eq, Structural)]
pub struct Resistor {
    pub positive_node: usize,
    pub negative_node: usize,
    /// The resistance, in ohms.
    pub resistance: Scalar,
    /// The voltage across the resistor at the last solved step.
    pub voltage: Scalar,
}

impl Resistor {
    pub open spec fn max_node_spec(&self) -> usize {
        if self.positive_node >= self.negative_node {
            self.positive_node
        } else {
            self.negative_node
        }
    }

    /// The resistance is accepted: it is not `<= 0`.
    pub open spec fn is_valid_spec(&self) -> bool {
        !self.resistance.le_spec(Scalar::zero_spec())
    }

    /// The conductance `1 / R`.
    pub open spec fn conductance(&self) -> Expr {
        Expr::quotient_spec(Expr::Value(Scalar::one_spec()), Expr::Value(self.resistance))
    }

    /// The current `v / R`.
    pub open spec fn current(&self) -> Expr {
        Expr::quotient_spec(Expr::Value(self.voltage), Expr::Value(self.resistance))
    }

    /// The power `v * (v / R)`.
    pub open spec fn power(&self) -> Expr {
        Expr::product_spec(Expr::Value(self.voltage), self.current())
    }

    pub fn new(positive_node: usize, negative_node: usize, resistance: Scalar) -> (r: Self)
        ensures
            r == (Resistor {
                positive_node,
                negative_node,
                resistance,
                voltage: Scalar::zero_spec(),
            }),
    {
        Self { positive_node, negative_node, resistance, voltage: Scalar::zero() }
    }

    pub fn max_node(&self) -> (node: usize)
        ensures
            node == self.max_node_spec(),
    {
        if self.positive_node >= self.negative_node {
            self.positive_node
        } else {
            self.negative_node
        }
    }

    pub fn is_valid(&self) -> (valid: bool)
        ensures
            valid == self.is_valid_spec(),
    {
        !self.resistance.is_at_most(Scalar::zero())
    }

    pub fn get_positive_node(&self) -> (node: usize)
        ensures
            node == self.positive_node,
    {
        self.positive_node
    }

    pub fn get_negative_node(&self) -> (node: usize)
        ensures
            node == self.negative_node,
    {
        self.negative_node
    }

    pub fn get_resistance(&self) -> (resistance: Scalar)
        ensures
            resistance == self.resistance,
    {
        self.resistance
    }

    pub fn get_voltage(&self) -> (voltage: Scalar)
        ensures
            voltage == self.voltage,
    {
        self.voltage
    }

    pub fn set_voltage(&mut self, voltage: Scalar)
        ensures
            *final(self) == (Resistor { voltage, ..*old(self) }),
    {
        self.voltage = voltage;
    }

    pub fn get_conductance(&self) -> (g: Expr)
        ensures
            g == self.conductance(),
    {
        Expr::quotient(Expr::value(Scalar::one()), Expr::value(self.resistance))
    }

    pub fn get_current(&self) -> (current: Expr)
        ensures
            current == self.current(),
    {
        Expr::quotient(Expr::value(self.voltage), Expr::value(self.resistance))
    }

    pub fn get_power(&self) -> (power: Expr)
        ensures
            power == self.power(),
    {
        Expr::product(Expr::value(self.voltage), self.get_current())
    }
}

impl TryFrom<Component> for Resistor {
    type Error = ();

    fn try_from(value: Component) -> (element: Result<Self, ()>) {
        match value {
            Component::Resistor(c) => Ok(c),
            _ => Err(()),
        }
    }
}

impl TryFromSpecImpl<Component> for Resistor {
    open spec fn obeys_try_from_spec() -> bool {
        true
    }

    open spec fn try_from_spec(value: Component) -> Result<Self, ()> {
        match value {
            Component::Resistor(c) => Ok(c),
            _ => Err(()),
        }
    }
}

} // verus!
