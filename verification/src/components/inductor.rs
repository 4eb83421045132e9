use vstd::prelude::*;
use vstd::std_specs::convert::TryFromSpecImpl;
use crate::components::Component;
use crate::expr::Expr;
use crate::scalar::Scalar;

verus! {

/// An inductor between two nodes.
#[derive(Debug, Clone, Copy, PartialEq, Eq, Structural)]
pub struct Inductor {
    pub positive_node: usize,
    pub negative_node: usize,
    /// The inductance, in henries.
    pub inductance: Scalar,
    /// The current through the inductor: its state from step to step.
    pub current: Scalar,
    /// The voltage across the inductor during the last solved step.
    pub voltage: Scalar,
}

impl Inductor {
    pub open spec fn max_node_spec(&self) -> usize {
        if self.positive_node >= self.negative_node {
            self.positive_node
        } else {
            self.negative_node
        }
    }

    /// The inductance is accepted: it is not `<= 0`.
    pub open spec fn is_valid_spec(&self) -> bool {
        !self.inductance.le_spec(Scalar::zero_spec())
    }

    /// The power `v * I`.
    pub open spec fn power(&self) -> Expr {
        Expr::product_spec(Expr::Value(self.voltage), Expr::Value(self.current))
    }

    pub fn new(
        positive_node: usize,
        negative_node: usize,
        inductance: Scalar,
        initial_current: Scalar,
    ) -> (l: Self)
        ensures
            l == (Inductor {
                positive_node,
                negative_node,
                inductance,
                current: initial_current,
                voltage: Scalar::zero_spec(),
            }),
    {
        Self {
            positive_node,
            negative_node,
            inductance,
            current: initial_current,
            voltage: Scalar::zero(),
        }
    }

    pub fn max_node(&self) -> (node: usize)
        ensures
            node == self.max_node_spec(),
    {
        if self.positive_node >= self.negative_node {
            self.positive_node
        } else {
            self.negative_node
        }
    }

    pub fn is_valid(&self) -> (valid: bool)
        ensures
            valid == self.is_valid_spec(),
    {
        !self.inductance.is_at_most(Scalar::zero())
    }

    pub fn get_positive_node(&self) -> (node: usize)
        ensures
            node == self.positive_node,
    {
        self.positive_node
    }

    pub fn get_negative_node(&self) -> (node: usize)
        ensures
            node == self.negative_node,
    {
        self.negative_node
    }

    pub fn get_inductance(&self) -> (inductance: Scalar)
        ensures
            inductance == self.inductance,
    {
        self.inductance
    }

    pub fn get_current(&self) -> (current: Scalar)
        ensures
            current == self.current,
    {
        self.current
    }

    pub fn set_current(&mut self, current: Scalar)
        ensures
            *final(self) == (Inductor { current, ..*old(self) }),
    {
        self.current = current;
    }

    pub fn get_voltage(&self) -> (voltage: Scalar)
        ensures
            voltage == self.voltage,
    {
        self.voltage
    }

    pub fn set_voltage(&mut self, voltage: Scalar)
        ensures
            *final(self) == (Inductor { voltage, ..*old(self) }),
    {
        self.voltage = voltage;
    }

    pub fn get_power(&self) -> (power: Expr)
        ensures
            power == self.power(),
    {
        Expr::product(Expr::value(self.voltage), Expr::value(self.current))
    }
}

impl TryFrom<Component> for Inductor {
    type Error = ();

    fn try_from(value: Component) -> (element: Result<Self, ()>) {
        match value {
            Component::Inductor(c) => Ok(c),
            _ => Err(()),
        }
    }
}

impl TryFromSpecImpl<Component> for Inductor {
    open spec fn obeys_try_from_spec() -> bool {
        true
    }

    open spec fn try_from_spec(value: Component) -> Result<Self, ()> {
        match value {
            Component::Inductor(c) => Ok(c),
            _ => Err(()),
        }
    }
}

} // verus!
