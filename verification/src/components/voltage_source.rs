use vstd::prelude::*;
use vstd::std_specs::convert::TryFromSpecImpl;
use crate::components::Component;
use crate::expr::Expr;
use crate::scalar::Scalar;

verus! {

/// An ideal voltage source: it holds the positive node `V` volts above the
/// negative one.
#[derive(Debug, Clone, Copy, PartialEq, Eq, Structural)]
pub struct VoltageSource {
    pub positive_node: usize,
    pub negative_node: usize,
    /// The voltage of the source.
    pub voltage: Scalar,
    /// The current that the source delivered at the last solved step.
    pub current: Scalar,
}

impl VoltageSource {
    pub open spec fn max_node_spec(&self) -> usize {
        if self.positive_node >= self.negative_node {
            self.positive_node
        } else {
            self.negative_node
        }
    }

    /// The power `V * I`.
    pub open spec fn power(&self) -> Expr {
        Expr::product_spec(Expr::Value(self.voltage), Expr::Value(self.current))
    }

    pub fn new(positive_node: usize, negative_node: usize, voltage: Scalar) -> (v: Self)
        ensures
            v == (VoltageSource {
                positive_node,
                negative_node,
                voltage,
                current: Scalar::zero_spec(),
            }),
    {
        Self { positive_node, negative_node, voltage, current: Scalar::zero() }
    }

    pub fn max_node(&self) -> (node: usize)
        ensures
            node == self.max_node_spec(),
    {
        if self.positive_node >= self.negative_node {
            self.positive_node
        } else {
            self.negative_node
        }
    }

    pub fn get_positive_node(&self) -> (node: usize)
        ensures
            node == self.positive_node,
    {
        self.positive_node
    }

    pub fn get_negative_node(&self) -> (node: usize)
        ensures
            node == self.negative_node,
    {
        self.negative_node
    }

    pub fn get_voltage(&self) -> (voltage: Scalar)
        ensures
            voltage == self.voltage,
    {
        self.voltage
    }

    pub fn get_current(&self) -> (current: Scalar)
        ensures
            current == self.current,
    {
        self.current
    }

    pub fn set_current(&mut self, current: Scalar)
        ensures
            *final(self) == (VoltageSource { current, ..*old(self) }),
    {
        self.current = current;
    }

    pub fn get_power(&self) -> (power: Expr)
        ensures
            power == self.power(),
    {
        Expr::product(Expr::value(self.voltage), Expr::value(self.current))
    }
}

impl TryFrom<Component> for VoltageSource {
    type Error = ();

    fn try_from(value: Component) -> (element: Result<Self, ()>) {
        match value {
            Component::VoltageSource(c) => Ok(c),
            _ => Err(()),
        }
    }
}

impl TryFromSpecImpl<Component> for VoltageSource {
    open spec fn obeys_try_from_spec() -> bool {
        true
    }

    open spec fn try_from_spec(value: Component) -> Result<Self, ()> {
        match value {
            Component::VoltageSource(c) => Ok(c),
            _ => Err(()),
        }
    }
}

} // verus!
