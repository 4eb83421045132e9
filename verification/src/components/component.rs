use vstd::prelude::*;
use vstd::std_specs::convert::FromSpecImpl;
use crate::components::{Capacitor, CurrentSource, Diode, Inductor, Resistor, VoltageSource};

verus! {

/// An element of a circuit.
#[derive(Debug, Clone, Copy, PartialEq, Eq, Structural)]
pub enum Component {
    Resistor(Resistor),
    Capacitor(Capacitor),
    Inductor(Inductor),
    Diode(Diode),
    VoltageSource(VoltageSource),
    CurrentSource(CurrentSource),
}

impl Component {
    /// The larger of the ids of the element's two nodes.
    pub open spec fn max_node_spec(&self) -> usize {
        match self {
            Component::Resistor(c) => c.max_node_spec(),
            Component::Capacitor(c) => c.max_node_spec(),
            Component::Inductor(c) => c.max_node_spec(),
            Component::Diode(c) => c.max_node_spec(),
            Component::VoltageSource(c) => c.max_node_spec(),
            Component::CurrentSource(c) => c.max_node_spec(),
        }
    }

    /// The element's parameters are accepted: no resistance, capacitance or
    /// inductance, and no ideality factor or thermal voltage of a diode, is
    /// `<= 0`. Sources take any value.
    pub open spec fn is_valid_spec(&self) -> bool {
        match self {
            Component::Resistor(c) => c.is_valid_spec(),
            Component::Capacitor(c) => c.is_valid_spec(),
            Component::Inductor(c) => c.is_valid_spec(),
            Component::Diode(c) => c.is_valid_spec(),
            Component::VoltageSource(_) => true,
            Component::CurrentSource(_) => true,
        }
    }

    pub fn max_node(&self) -> (node: usize)
        ensures
            node == self.max_node_spec(),
    {
        match self {
            Self::Resistor(c) => c.max_node(),
            Self::Capacitor(c) => c.max_node(),
            Self::Inductor(c) => c.max_node(),
            Self::Diode(c) => c.max_node(),
            Self::VoltageSource(c) => c.max_node(),
            Self::CurrentSource(c) => c.max_node(),
        }
    }

    pub fn is_valid(&self) -> (valid: bool)
        ensures
            valid == self.is_valid_spec(),
    {
        match self {
            Self::Resistor(c) => c.is_valid(),
            Self::Capacitor(c) => c.is_valid(),
            Self::Inductor(c) => c.is_valid(),
            Self::Diode(c) => c.is_valid(),
            Self::VoltageSource(_) => true,
            Self::CurrentSource(_) => true,
        }
    }
}

impl From<Resistor> for Component {
    fn from(value: Resistor) -> (component: Self) {
        Self::Resistor(value)
    }
}

impl FromSpecImpl<Resistor> for Component {
    open spec fn obeys_from_spec() -> bool {
        true
    }

    open spec fn from_spec(value: Resistor) -> Self {
        Component::Resistor(value)
    }
}

impl From<Capacitor> for Component {
    fn from(value: Capacitor) -> (component: Self) {
        Self::Capacitor(value)
    }
}

impl FromSpecImpl<Capacitor> for Component {
    open spec fn obeys_from_spec() -> bool {
        true
    }

    open spec fn from_spec(value: Capacitor) -> Self {
        Component::Capacitor(value)
    }
}

impl From<Inductor> for Component {
    fn from(value: Inductor) -> (component: Self) {
        Self::Inductor(value)
    }
}

impl FromSpecImpl<Inductor> for Component {
    open spec fn obeys_from_spec() -> bool {
        true
    }

    open spec fn from_spec(value: Inductor) -> Self {
        Component::Inductor(value)
    }
}

impl From<Diode> for Component {
    fn from(value: Diode) -> (component: Self) {
        Self::Diode(value)
    }
}

impl FromSpecImpl<Diode> for Component {
    open spec fn obeys_from_spec() -> bool {
        true
    }

    open spec fn from_spec(value: Diode) -> Self {
        Component::Diode(value)
    }
}

impl From<VoltageSource> for Component {
    fn from(value: VoltageSource) -> (component: Self) {
        Self::VoltageSource(value)
    }
}

impl FromSpecImpl<VoltageSource> for Component {
    open spec fn obeys_from_spec() -> bool {
        true
    }

    open spec fn from_spec(value: VoltageSource) -> Self {
        Component::VoltageSource(value)
    }
}

impl From<CurrentSource> for Component {
    fn from(value: CurrentSource) -> (component: Self) {
        Self::CurrentSource(value)
    }
}

impl FromSpecImpl<CurrentSource> for Component {
    open spec fn obeys_from_spec() -> bool {
        true
    }

    open spec fn from_spec(value: CurrentSource) -> Self {
        Component::CurrentSource(value)
    }
}

} // verus!
