use vstd::prelude::*;
use vstd::std_specs::convert::TryFromSpecImpl;
use crate::components::Component;
use crate::expr::Expr;
use crate::scalar::Scalar;

verus! {

/// A diode that conducts from its positive node to its negative one, after
/// the Shockley law `I = Is * (exp(v / (eta * Vt)) - 1)`.
#[derive(Debug, Clone, Copy, PartialEq, Eq, Structural)]
pub struct Diode {
    pub positive_node: usize,
    pub negative_node: usize,
    /// `Is`, in amperes.
    pub reverse_saturation_current: Scalar,
    /// `eta`.
    pub ideality_factor: Scalar,
    /// `Vt`, in volts.
    pub thermal_voltage: Scalar,
    /// The voltage across the diode at the last solved step.
    pub voltage: Scalar,
}

impl Diode {
    pub open spec fn max_node_spec(&self) -> usize {
        if self.positive_node >= self.negative_node {
            self.positive_node
        } else {
            self.negative_node
        }
    }

    /// The parameters are accepted: neither `eta` nor `Vt` is `<= 0`.
    pub open spec fn is_valid_spec(&self) -> bool {
        &&& !self.ideality_factor.le_spec(Scalar::zero_spec())
        &&& !self.thermal_voltage.le_spec(Scalar::zero_spec())
    }

    /// `v / (eta * Vt)`.
    pub open spec fn exponent_at(&self, voltage: Expr) -> Expr {
        Expr::quotient_spec(
            voltage,
            Expr::product_spec(
                Expr::Value(self.ideality_factor),
                Expr::Value(self.thermal_voltage),
            ),
        )
    }

    /// The current at a voltage: `Is * (exp(v / (eta * Vt)) - 1)`.
    pub open spec fn current_at(&self, voltage: Expr) -> Expr {
        Expr::product_spec(
            Expr::Value(self.reverse_saturation_current),
            Expr::difference_spec(
                Expr::exp_spec(self.exponent_at(voltage)),
                Expr::Value(Scalar::one_spec()),
            ),
        )
    }

    /// The slope of the current at a voltage:
    /// `(Is / (eta * Vt)) * exp(v / (eta * Vt))`.
    pub open spec fn di_dv_at(&self, voltage: Expr) -> Expr {
        Expr::product_spec(
            Expr::quotient_spec(
                Expr::Value(self.reverse_saturation_current),
                Expr::product_spec(
                    Expr::Value(self.ideality_factor),
                    Expr::Value(self.thermal_voltage),
                ),
            ),
            Expr::exp_spec(self.exponent_at(voltage)),
        )
    }

    /// The power `v * I(v)`.
    pub open spec fn power(&self) -> Expr {
        Expr::product_spec(Expr::Value(self.voltage), self.current_at(Expr::Value(self.voltage)))
    }

    pub fn new(
        positive_node: usize,
        negative_node: usize,
        reverse_saturation_current: Scalar,
        ideality_factor: Scalar,
        thermal_voltage: Scalar,
    ) -> (d: Self)
        ensures
            d == (Diode {
                positive_node,
                negative_node,
                reverse_saturation_current,
                ideality_factor,
                thermal_voltage,
                voltage: Scalar::zero_spec(),
            }),
    {
        Self {
            positive_node,
            negative_node,
            reverse_saturation_current,
            ideality_factor,
            thermal_voltage,
            voltage: Scalar::zero(),
        }
    }

    pub fn max_node(&self) -> (node: usize)
        ensures
            node == self.max_node_spec(),
    {
        if self.positive_node >= self.negative_node {
            self.positive_node
        } else {
            self.negative_node
        }
    }

    pub fn is_valid(&self) -> (valid: bool)
        ensures
            valid == self.is_valid_spec(),
    {
        !self.ideality_factor.is_at_most(Scalar::zero()) && !self.thermal_voltage.is_at_most(
            Scalar::zero(),
        )
    }

    pub fn get_positive_node(&self) -> (node: usize)
        ensures
            node == self.positive_node,
    {
        self.positive_node
    }

    pub fn get_negative_node(&self) -> (node: usize)
        ensures
            node == self.negative_node,
    {
        self.negative_node
    }

    pub fn get_reverse_saturation_current(&self) -> (current: Scalar)
        ensures
            current == self.reverse_saturation_current,
    {
        self.reverse_saturation_current
    }

    pub fn get_ideality_factor(&self) -> (factor: Scalar)
        ensures
            factor == self.ideality_factor,
    {
        self.ideality_factor
    }

    pub fn get_thermal_voltage(&self) -> (voltage: Scalar)
        ensures
            voltage == self.thermal_voltage,
    {
        self.thermal_voltage
    }

    pub fn get_voltage(&self) -> (voltage: Scalar)
        ensures
            voltage == self.voltage,
    {
        self.voltage
    }

    pub fn set_voltage(&mut self, voltage: Scalar)
        ensures
            *final(self) == (Diode { voltage, ..*old(self) }),
    {
        self.voltage = voltage;
    }

    pub fn get_current(&self) -> (current: Expr)
        ensures
            current == self.current_at(Expr::Value(self.voltage)),
    {
        self.get_current_with_voltage(self.voltage)
    }

    pub fn get_power(&self) -> (power: Expr)
        ensures
            power == self.power(),
    {
        Expr::product(Expr::value(self.voltage), self.get_current())
    }

    pub fn get_current_with_voltage(&self, voltage: Scalar) -> (current: Expr)
        ensures
            current == self.current_at(Expr::Value(voltage)),
    {
        self.current_for(Expr::value(voltage))
    }

    pub fn get_di_dv(&self, voltage: Scalar) -> (slope: Expr)
        ensures
            slope == self.di_dv_at(Expr::Value(voltage)),
    {
        self.di_dv_for(Expr::value(voltage))
    }

    fn exponent_for(&self, voltage: Expr) -> (exponent: Expr)
        ensures
            exponent == self.exponent_at(voltage),
    {
        Expr::quotient(
            voltage,
            Expr::product(Expr::value(self.ideality_factor), Expr::value(self.thermal_voltage)),
        )
    }

    /// The current at a voltage that is itself a formula.
    pub fn current_for(&self, voltage: Expr) -> (current: Expr)
        ensures
            current == self.current_at(voltage),
    {
        Expr::product(
            Expr::value(self.reverse_saturation_current),
            Expr::difference(Expr::exp(self.exponent_for(voltage)), Expr::value(Scalar::one())),
        )
    }

    /// The slope of the current at a voltage that is itself a formula.
    pub fn di_dv_for(&self, voltage: Expr) -> (slope: Expr)
        ensures
            slope == self.di_dv_at(voltage),
    {
        Expr::product(
            Expr::quotient(
                Expr::value(self.reverse_saturation_current),
                Expr::product(
                    Expr::value(self.ideality_factor),
                    Expr::value(self.thermal_voltage),
                ),
            ),
            Expr::exp(self.exponent_for(voltage)),
        )
    }
}

impl TryFrom<Component> for Diode {
    type Error = ();

    fn try_from(value: Component) -> (element: Result<Self, ()>) {
        match value {
            Component::Diode(c) => Ok(c),
            _ => Err(()),
        }
    }
}

impl TryFromSpecImpl<Component> for Diode {
    open spec fn obeys_try_from_spec() -> bool {
        true
    }

    open spec fn try_from_spec(value: Component) -> Result<Self, ()> {
        match value {
            Component::Diode(c) => Ok(c),
            _ => Err(()),
        }
    }
}

} // verus!
