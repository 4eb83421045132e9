use vstd::prelude::*;
use vstd::std_specs::convert::TryFromSpecImpl;
use crate::components::Component;
use crate::expr::Expr;
use crate::scalar::Scalar;

verus! {

/// An ideal current source: it drives `I` amperes from the negative node
/// into the positive one.
#[derive(Debug, Clone, Copy, PartialEq, Eq, Structural)]
pub struct CurrentSource {
    pub positive_node: usize,
    pub negative_node: usize,
    /// The current of the source.
    pub current: Scalar,
    /// The voltage across the source at the last solved step.
    pub voltage: Scalar,
}

impl CurrentSource {
    pub open spec fn max_node_spec(&self) -> usize {
        if self.positive_node >= self.negative_node {
            self.positive_node
        } else {
            self.negative_node
        }
    }

    /// The power `v * I`.
    pub open spec fn power(&self) -> Expr {
        Expr::product_spec(Expr::Value(self.voltage), Expr::Value(self.current))
    }

    pub fn new(positive_node: usize, negative_node: usize, current: Scalar) -> (i: Self)
        ensures
            i == (CurrentSource {
                positive_node,
                negative_node,
                current,
                voltage: Scalar::zero_spec(),
            }),
    {
        Self { positive_node, negative_node, current, voltage: Scalar::zero() }
    }

    pub fn max_node(&self) -> (node: usize)
        ensures
            node == self.max_node_spec(),
    {
        if self.positive_node >= self.negative_node {
            self.positive_node
        } else {
            self.negative_node
        }
    }

    pub fn get_positive_node(&self) -> (node: usize)
        ensures
            node == self.positive_node,
    {
        self.positive_node
    }

    pub fn get_negative_node(&self) -> (node: usize)
        ensures
            node == self.negative_node,
    {
        self.negative_node
    }

    pub fn get_current(&self) -> (current: Scalar)
        ensures
            current == self.current,
    {
        self.current
    }

    pub fn get_voltage(&self) -> (voltage: Scalar)
        ensures
            voltage == self.voltage,
    {
        self.voltage
    }

    pub fn set_voltage(&mut self, voltage: Scalar)
        ensures
            *final(self) == (CurrentSource { voltage, ..*old(self) }),
    {
        self.voltage = voltage;
    }

    pub fn get_power(&self) -> (power: Expr)
        ensures
            power == self.power(),
    {
        Expr::product(Expr::value(self.voltage), Expr::value(self.current))
    }
}

impl TryFrom<Component> for CurrentSource {
    type Error = ();

    fn try_from(value: Component) -> (element: Result<Self, ()>) {
        match value {
            Component::CurrentSource(c) => Ok(c),
            _ => Err(()),
        }
    }
}

impl TryFromSpecImpl<Component> for CurrentSource {
    open spec fn obeys_try_from_spec() -> bool {
        true
    }

    open spec fn try_from_spec(value: Component) -> Result<Self, ()> {
        match value {
            Component::CurrentSource(c) => Ok(c),
            _ => Err(()),
        }
    }
}

} // verus!
