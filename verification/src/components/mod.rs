mod resistor;
pub use resistor::Resistor;

mod capacitor;
pub use capacitor::Capacitor;

mod inductor;
pub use inductor::Inductor;

mod voltage_source;
pub use voltage_source::VoltageSource;

mod current_source;
pub use current_source::CurrentSource;

mod diode;
pub use diode::Diode;

mod component;
pub use component::Component;

mod netlist;
pub use netlist::{max_node_of, Netlist};
