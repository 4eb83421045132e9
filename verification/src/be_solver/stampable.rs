//! What each element adds to the system, and what it takes from a solution.
use vstd::prelude::*;
use crate::be_solver::matrix_view::{
    with_coefficient,
    with_source,
    ABMatrixView,
    Coefficient,
    Source,
    ViewEquationIndex,
    ViewVariableIndex,
    XMatrixView,
};
use crate::components::{
    Capacitor,
    Component,
    CurrentSource,
    Diode,
    Inductor,
    Resistor,
    VoltageSource,
};
use crate::expr::Expr;
use crate::scalar::Scalar;

verus! {

/// The formulas for what a solved step makes of an element's state. A field
/// that is `None` is left as it was.
#[derive(Debug, PartialEq, Eq)]
pub struct Readout {
    pub voltage: Option<Expr>,
    pub current: Option<Expr>,
}

/// The values of an element's state after a solved step. A field that is
/// `None` is left as it was.
#[derive(Debug, Clone, Copy, PartialEq, Eq, Structural)]
pub struct OperatingPoint {
    pub voltage: Option<Scalar>,
    pub current: Option<Scalar>,
}

/// The contributions of an admittance between the nodes `p` and `n`: `y` on
/// the diagonal, (`E_p`, `V_p`) and (`E_n`, `V_n`), and `minus_y` off it,
/// (`E_p`, `V_n`) and (`E_n`, `V_p`). Current that leaves one node through
/// the element enters the other, so the two rows mirror each other.
pub open spec fn admittance_stamp(
    num_nodes: usize,
    positive_node: usize,
    negative_node: usize,
    y: Expr,
    minus_y: Expr,
) -> Seq<Coefficient> {
    let ep = ViewEquationIndex::NodalEquation(positive_node).global_index(num_nodes, 0, 0);
    let en = ViewEquationIndex::NodalEquation(negative_node).global_index(num_nodes, 0, 0);
    let vp = ViewVariableIndex::NodeVoltage(positive_node).global_index(num_nodes, 0, 0);
    let vn = ViewVariableIndex::NodeVoltage(negative_node).global_index(num_nodes, 0, 0);
    with_coefficient(
        with_coefficient(
            with_coefficient(with_coefficient(Seq::empty(), ep, vp, y), ep, vn, minus_y),
            en,
            vp,
            minus_y,
        ),
        en,
        vn,
        y,
    )
}

/// The contributions of a current between the nodes `p` and `n` to the
/// right-hand side: `at_positive` in `E_p`, `at_negative` in `E_n`.
pub open spec fn current_stamp(
    num_nodes: usize,
    positive_node: usize,
    negative_node: usize,
    at_positive: Expr,
    at_negative: Expr,
) -> Seq<Source> {
    let ep = ViewEquationIndex::NodalEquation(positive_node).global_index(num_nodes, 0, 0);
    let en = ViewEquationIndex::NodalEquation(negative_node).global_index(num_nodes, 0, 0);
    with_source(with_source(Seq::empty(), ep, at_positive), en, at_negative)
}

/// Adds the contributions of an admittance between two nodes.
fn stamp_admittance(
    view: &mut ABMatrixView,
    positive_node: usize,
    negative_node: usize,
    y: &Expr,
    minus_y: &Expr,
)
    ensures
        final(view).a@ == old(view).a@ + admittance_stamp(
            old(view).num_nodes,
            positive_node,
            negative_node,
            *y,
            *minus_y,
        ),
        final(view).b@ == old(view).b@,
        final(view).same_place(old(view)),
        *final(final(view).a) == *final(old(view).a),
        *final(final(view).b) == *final(old(view).b),
{
    let ep = ViewEquationIndex::NodalEquation(positive_node);
    let en = ViewEquationIndex::NodalEquation(negative_node);
    let vp = ViewVariableIndex::NodeVoltage(positive_node);
    let vn = ViewVariableIndex::NodeVoltage(negative_node);
    let ghost before = view.a@;
    let ghost stamp = admittance_stamp(view.num_nodes, positive_node, negative_node, *y, *minus_y);
    view.coefficient_add(ep, vp, y.duplicate());
    view.coefficient_add(ep, vn, minus_y.duplicate());
    view.coefficient_add(en, vp, minus_y.duplicate());
    view.coefficient_add(en, vn, y.duplicate());
    assert(view.a@ =~= before + stamp);
}

/// Adds the contributions of a current between two nodes.
fn stamp_current(
    view: &mut ABMatrixView,
    positive_node: usize,
    negative_node: usize,
    at_positive: Expr,
    at_negative: Expr,
)
    ensures
        final(view).b@ == old(view).b@ + current_stamp(
            old(view).num_nodes,
            positive_node,
            negative_node,
            at_positive,
            at_negative,
        ),
        final(view).a@ == old(view).a@,
        final(view).same_place(old(view)),
        *final(final(view).a) == *final(old(view).a),
        *final(final(view).b) == *final(old(view).b),
{
    let ghost before = view.b@;
    let ghost stamp = current_stamp(
        view.num_nodes,
        positive_node,
        negative_node,
        at_positive,
        at_negative,
    );
    view.result_add(ViewEquationIndex::NodalEquation(positive_node), at_positive);
    view.result_add(ViewEquationIndex::NodalEquation(negative_node), at_negative);
    assert(view.b@ =~= before + stamp);
}

/// An element that can be stamped into the system and updated from its
/// solution.
pub trait Stampable: Sized {
    /// The number of auxiliary unknowns, with one equation each, that the
    /// element adds to the system.
    spec fn variables(&self) -> usize;

    /// Whether `op_point` holds what the element's stamp reads from it.
    spec fn stamp_reads(&self, op_point: &XMatrixView) -> bool;

    /// The element's contributions to the matrix of coefficients, in the
    /// order in which it makes them, in a system of `num_nodes` nodes where
    /// the element's auxiliary unknowns begin at `variables_start`.
    spec fn coefficients(
        &self,
        num_nodes: usize,
        num_variables: usize,
        variables_start: usize,
        op_point: &XMatrixView,
        dt: Scalar,
    ) -> Seq<Coefficient>;

    /// The element's contributions to the right-hand side, in the order in
    /// which it makes them.
    spec fn sources(
        &self,
        num_nodes: usize,
        num_variables: usize,
        variables_start: usize,
        op_point: &XMatrixView,
        dt: Scalar,
    ) -> Seq<Source>;

    /// Returns the number of additional variables this component will add to
    /// the matrix.
    fn num_variables(&self) -> (count: usize)
        ensures
            count == self.variables(),
    ;

    /// Stamps the coefficients of the component for a step of `dt` seconds.
    ///
    /// A nonlinear component linearises around `op_point`: the initial
    /// guess, or the solution of the last iteration.
    fn stamp(&self, view: &mut ABMatrixView, op_point: &XMatrixView, dt: Scalar)
        requires
            self.stamp_reads(op_point),
        ensures
            final(view).a@ == old(view).a@ + self.coefficients(
                old(view).num_nodes,
                old(view).num_variables,
                old(view).variables_start,
                op_point,
                dt,
            ),
            final(view).b@ == old(view).b@ + self.sources(
                old(view).num_nodes,
                old(view).num_variables,
                old(view).variables_start,
                op_point,
                dt,
            ),
            final(view).same_place(old(view)),
            *final(final(view).a) == *final(old(view).a),
            *final(final(view).b) == *final(old(view).b),
    ;

    /// Whether `view` holds what the element's state is computed from.
    spec fn update_reads(&self, view: &XMatrixView) -> bool;

    /// The formulas for the element's state after a step of `dt` seconds
    /// that ended in the solution behind `view`.
    spec fn next_state(&self, view: &XMatrixView, dt: Scalar) -> Readout;

    /// The element with the given values for its state.
    spec fn updated(&self, point: OperatingPoint) -> Self;

    /// What the solution behind `view` makes of the element's state, as
    /// formulas. The element itself is not changed.
    fn readout(&self, view: &XMatrixView, dt: Scalar) -> (readout: Readout)
        requires
            self.update_reads(view),
        ensures
            readout == self.next_state(view, dt),
    ;

    /// Updates the component state to the given values.
    fn update(&mut self, point: OperatingPoint)
        ensures
            *final(self) == old(self).updated(point),
    ;
}

impl Stampable for Resistor {
    open spec fn variables(&self) -> usize {
        0
    }

    open spec fn stamp_reads(&self, op_point: &XMatrixView) -> bool {
        true
    }

    /// `g = 1 / R` between the two nodes, `-g` across.
    open spec fn coefficients(
        &self,
        num_nodes: usize,
        num_variables: usize,
        variables_start: usize,
        op_point: &XMatrixView,
        dt: Scalar,
    ) -> Seq<Coefficient> {
        admittance_stamp(
            num_nodes,
            self.positive_node,
            self.negative_node,
            self.conductance(),
            Expr::neg_spec(self.conductance()),
        )
    }

    open spec fn sources(
        &self,
        num_nodes: usize,
        num_variables: usize,
        variables_start: usize,
        op_point: &XMatrixView,
        dt: Scalar,
    ) -> Seq<Source> {
        Seq::empty()
    }

    fn num_variables(&self) -> (count: usize) {
        0
    }

    fn stamp(&self, view: &mut ABMatrixView, _op_point: &XMatrixView, _dt: Scalar) {
        // Current flowing out of the positive node is (v_positive - v_negative) / R.
        let g = self.get_conductance();
        let minus_g = Expr::neg(self.get_conductance());
        stamp_admittance(view, self.positive_node, self.negative_node, &g, &minus_g);
    }

    open spec fn update_reads(&self, view: &XMatrixView) -> bool {
        view.reads_nodes(self.positive_node, self.negative_node)
    }

    /// `v = v_p - v_n`.
    open spec fn next_state(&self, view: &XMatrixView, dt: Scalar) -> Readout {
        Readout {
            voltage: Some(view.voltage_between(self.positive_node, self.negative_node)),
            current: None,
        }
    }

    open spec fn updated(&self, point: OperatingPoint) -> Self {
        match point.voltage {
            Some(voltage) => Resistor { voltage, ..*self },
            None => *self,
        }
    }

    fn readout(&self, view: &XMatrixView, _dt: Scalar) -> (readout: Readout) {
        Readout {
            voltage: Some(view.get_voltage_between(self.positive_node, self.negative_node)),
            current: None,
        }
    }

    fn update(&mut self, point: OperatingPoint) {
        if let Some(voltage) = point.voltage {
            self.set_voltage(voltage);
        }
    }
}

impl Capacitor {
    /// The admittance of the Backward Euler companion: `C / dt`.
    pub open spec fn admittance(&self, dt: Scalar) -> Expr {
        Expr::quotient_spec(Expr::Value(self.capacitance), Expr::Value(dt))
    }

    /// `-C / dt`.
    pub open spec fn minus_admittance(&self, dt: Scalar) -> Expr {
        Expr::quotient_spec(Expr::neg_spec(Expr::Value(self.capacitance)), Expr::Value(dt))
    }

    /// The current that the held voltage stands for: `C * v / dt`.
    pub open spec fn history(&self, dt: Scalar) -> Expr {
        Expr::quotient_spec(
            Expr::product_spec(Expr::Value(self.capacitance), Expr::Value(self.voltage)),
            Expr::Value(dt),
        )
    }

    /// `-C * v / dt`.
    pub open spec fn minus_history(&self, dt: Scalar) -> Expr {
        Expr::quotient_spec(
            Expr::product_spec(
                Expr::neg_spec(Expr::Value(self.capacitance)),
                Expr::Value(self.voltage),
            ),
            Expr::Value(dt),
        )
    }

    /// The current during a step that took the voltage to `voltage`:
    /// `C * (voltage - v) / dt`.
    pub open spec fn charging_current(&self, voltage: Expr, dt: Scalar) -> Expr {
        Expr::quotient_spec(
            Expr::product_spec(
                Expr::Value(self.capacitance),
                Expr::difference_spec(voltage, Expr::Value(self.voltage)),
            ),
            Expr::Value(dt),
        )
    }
}

impl Stampable for Capacitor {
    open spec fn variables(&self) -> usize {
        0
    }

    open spec fn stamp_reads(&self, op_point: &XMatrixView) -> bool {
        true
    }

    /// `C / dt` between the two nodes, `-C / dt` across.
    open spec fn coefficients(
        &self,
        num_nodes: usize,
        num_variables: usize,
        variables_start: usize,
        op_point: &XMatrixView,
        dt: Scalar,
    ) -> Seq<Coefficient> {
        admittance_stamp(
            num_nodes,
            self.positive_node,
            self.negative_node,
            self.admittance(dt),
            self.minus_admittance(dt),
        )
    }

    /// `C * v / dt` into the positive node, out of the negative one.
    open spec fn sources(
        &self,
        num_nodes: usize,
        num_variables: usize,
        variables_start: usize,
        op_point: &XMatrixView,
        dt: Scalar,
    ) -> Seq<Source> {
        current_stamp(
            num_nodes,
            self.positive_node,
            self.negative_node,
            self.history(dt),
            self.minus_history(dt),
        )
    }

    fn num_variables(&self) -> (count: usize) {
        0
    }

    fn stamp(&self, view: &mut ABMatrixView, _op_point: &XMatrixView, dt: Scalar) {
        // The differential equation describing a capacitor is i = C*dv/dt.
        // Discretizing we get i = C*(v_new - v_old)/dt, so the current flowing out of the
        // positive node is C*v_positive/dt - C*v_negative/dt - C*v_old/dt.
        let c = self.capacitance;
        let y = Expr::quotient(Expr::value(c), Expr::value(dt));
        let minus_y = Expr::quotient(Expr::neg(Expr::value(c)), Expr::value(dt));
        stamp_admittance(view, self.positive_node, self.negative_node, &y, &minus_y);
        let history = Expr::quotient(
            Expr::product(Expr::value(c), Expr::value(self.voltage)),
            Expr::value(dt),
        );
        let minus_history = Expr::quotient(
            Expr::product(Expr::neg(Expr::value(c)), Expr::value(self.voltage)),
            Expr::value(dt),
        );
        stamp_current(view, self.positive_node, self.negative_node, history, minus_history);
    }

    open spec fn update_reads(&self, view: &XMatrixView) -> bool {
        view.reads_nodes(self.positive_node, self.negative_node)
    }

    /// `v' = v_p - v_n` and `I = C * (v' - v) / dt`, with `v` the voltage
    /// before the step.
    open spec fn next_state(&self, view: &XMatrixView, dt: Scalar) -> Readout {
        Readout {
            voltage: Some(view.voltage_between(self.positive_node, self.negative_node)),
            current: Some(
                self.charging_current(
                    view.voltage_between(self.positive_node, self.negative_node),
                    dt,
                ),
            ),
        }
    }

    open spec fn updated(&self, point: OperatingPoint) -> Self {
        Capacitor {
            voltage: match point.voltage {
                Some(voltage) => voltage,
                None => self.voltage,
            },
            current: match point.current {
                Some(current) => current,
                None => self.current,
            },
            ..*self
        }
    }

    fn readout(&self, view: &XMatrixView, dt: Scalar) -> (readout: Readout) {
        let new_voltage = view.get_voltage_between(self.positive_node, self.negative_node);
        // Discretized equation is i = C*(v_new - v_old)/dt (see capacitor stamping function).
        let current = Expr::quotient(
            Expr::product(
                Expr::value(self.capacitance),
                Expr::difference(new_voltage.duplicate(), Expr::value(self.voltage)),
            ),
            Expr::value(dt),
        );
        Readout { voltage: Some(new_voltage), current: Some(current) }
    }

    fn update(&mut self, point: OperatingPoint) {
        if let Some(current) = point.current {
            self.set_current(current);
        }
        if let Some(voltage) = point.voltage {
            self.set_voltage(voltage);
        }
    }
}

impl Inductor {
    /// The admittance of the Backward Euler companion: `dt / L`.
    pub open spec fn admittance(&self, dt: Scalar) -> Expr {
        Expr::quotient_spec(Expr::Value(dt), Expr::Value(self.inductance))
    }

    /// `-dt / L`.
    pub open spec fn minus_admittance(&self, dt: Scalar) -> Expr {
        Expr::quotient_spec(Expr::neg_spec(Expr::Value(dt)), Expr::Value(self.inductance))
    }

    /// The current after a step during which the voltage was `voltage`:
    /// `voltage * dt / L + I`.
    pub open spec fn stepped_current(&self, voltage: Expr, dt: Scalar) -> Expr {
        Expr::sum_spec(
            Expr::quotient_spec(
                Expr::product_spec(voltage, Expr::Value(dt)),
                Expr::Value(self.inductance),
            ),
            Expr::Value(self.current),
        )
    }
}

impl Stampable for Inductor {
    open spec fn variables(&self) -> usize {
        0
    }

    open spec fn stamp_reads(&self, op_point: &XMatrixView) -> bool {
        true
    }

    /// `dt / L` between the two nodes, `-dt / L` across.
    open spec fn coefficients(
        &self,
        num_nodes: usize,
        num_variables: usize,
        variables_start: usize,
        op_point: &XMatrixView,
        dt: Scalar,
    ) -> Seq<Coefficient> {
        admittance_stamp(
            num_nodes,
            self.positive_node,
            self.negative_node,
            self.admittance(dt),
            self.minus_admittance(dt),
        )
    }

    /// The held current `I` out of the positive node, into the negative one.
    open spec fn sources(
        &self,
        num_nodes: usize,
        num_variables: usize,
        variables_start: usize,
        op_point: &XMatrixView,
        dt: Scalar,
    ) -> Seq<Source> {
        current_stamp(
            num_nodes,
            self.positive_node,
            self.negative_node,
            Expr::neg_spec(Expr::Value(self.current)),
            Expr::Value(self.current),
        )
    }

    fn num_variables(&self) -> (count: usize) {
        0
    }

    fn stamp(&self, view: &mut ABMatrixView, _op_point: &XMatrixView, dt: Scalar) {
        // The differential equation describing an inductor is v = L*di/dt.
        // Discretizing and solving for i_new we get
        // i_new = v_positive*dt/L - v_negative*dt/L + i_old,
        // which is the current flowing out of the positive node.
        let l = self.inductance;
        let y = Expr::quotient(Expr::value(dt), Expr::value(l));
        let minus_y = Expr::quotient(Expr::neg(Expr::value(dt)), Expr::value(l));
        stamp_admittance(view, self.positive_node, self.negative_node, &y, &minus_y);
        stamp_current(
            view,
            self.positive_node,
            self.negative_node,
            Expr::neg(Expr::value(self.current)),
            Expr::value(self.current),
        );
    }

    open spec fn update_reads(&self, view: &XMatrixView) -> bool {
        view.reads_nodes(self.positive_node, self.negative_node)
    }

    /// `v = v_p - v_n` and `I' = v * dt / L + I`, with `I` the current
    /// before the step.
    open spec fn next_state(&self, view: &XMatrixView, dt: Scalar) -> Readout {
        Readout {
            voltage: Some(view.voltage_between(self.positive_node, self.negative_node)),
            current: Some(
                self.stepped_current(
                    view.voltage_between(self.positive_node, self.negative_node),
                    dt,
                ),
            ),
        }
    }

    open spec fn updated(&self, point: OperatingPoint) -> Self {
        Inductor {
            voltage: match point.voltage {
                Some(voltage) => voltage,
                None => self.voltage,
            },
            current: match point.current {
                Some(current) => current,
                None => self.current,
            },
            ..*self
        }
    }

    fn readout(&self, view: &XMatrixView, dt: Scalar) -> (readout: Readout) {
        let voltage = view.get_voltage_between(self.positive_node, self.negative_node);
        // Discretized equation is i_new = v*dt/L + i_old (see inductor stamping function).
        let current = Expr::sum(
            Expr::quotient(
                Expr::product(voltage.duplicate(), Expr::value(dt)),
                Expr::value(self.inductance),
            ),
            Expr::value(self.current),
        );
        Readout { voltage: Some(voltage), current: Some(current) }
    }

    fn update(&mut self, point: OperatingPoint) {
        if let Some(voltage) = point.voltage {
            self.set_voltage(voltage);
        }
        if let Some(current) = point.current {
            self.set_current(current);
        }
    }
}

impl Stampable for VoltageSource {
    open spec fn variables(&self) -> usize {
        1
    }

    open spec fn stamp_reads(&self, op_point: &XMatrixView) -> bool {
        true
    }

    /// The source's current `I_s` is its auxiliary unknown: `-1` at
    /// (`E_p`, `I_s`) and `1` at (`E_n`, `I_s`). Its auxiliary equation is
    /// `v_p - v_n = V`: `1` at `V_p` and `-1` at `V_n`.
    open spec fn coefficients(
        &self,
        num_nodes: usize,
        num_variables: usize,
        variables_start: usize,
        op_point: &XMatrixView,
        dt: Scalar,
    ) -> Seq<Coefficient> {
        let ep = ViewEquationIndex::NodalEquation(self.positive_node).global_index(
            num_nodes,
            num_variables,
            variables_start,
        );
        let en = ViewEquationIndex::NodalEquation(self.negative_node).global_index(
            num_nodes,
            num_variables,
            variables_start,
        );
        let es = ViewEquationIndex::SpecificEquation(0).global_index(
            num_nodes,
            num_variables,
            variables_start,
        );
        let vp = ViewVariableIndex::NodeVoltage(self.positive_node).global_index(
            num_nodes,
            num_variables,
            variables_start,
        );
        let vn = ViewVariableIndex::NodeVoltage(self.negative_node).global_index(
            num_nodes,
            num_variables,
            variables_start,
        );
        let is = ViewVariableIndex::SpecificVariable(0).global_index(
            num_nodes,
            num_variables,
            variables_start,
        );
        let one = Expr::Value(Scalar::one_spec());
        let minus_one = Expr::neg_spec(Expr::Value(Scalar::one_spec()));
        with_coefficient(
            with_coefficient(
                with_coefficient(with_coefficient(Seq::empty(), ep, is, minus_one), en, is, one),
                es,
                vp,
                one,
            ),
            es,
            vn,
            minus_one,
        )
    }

    /// `V` in the source's auxiliary equation.
    open spec fn sources(
        &self,
        num_nodes: usize,
        num_variables: usize,
        variables_start: usize,
        op_point: &XMatrixView,
        dt: Scalar,
    ) -> Seq<Source> {
        with_source(
            Seq::empty(),
            ViewEquationIndex::SpecificEquation(0).global_index(
                num_nodes,
                num_variables,
                variables_start,
            ),
            Expr::Value(self.voltage),
        )
    }

    fn num_variables(&self) -> (count: usize) {
        1
    }

    fn stamp(&self, view: &mut ABMatrixView, _op_point: &XMatrixView, _dt: Scalar) {
        let positive_equation_index = ViewEquationIndex::NodalEquation(self.positive_node);
        let negative_equation_index = ViewEquationIndex::NodalEquation(self.negative_node);
        let specific_equation_index = ViewEquationIndex::SpecificEquation(0);
        let positive_voltage_index = ViewVariableIndex::NodeVoltage(self.positive_node);
        let negative_voltage_index = ViewVariableIndex::NodeVoltage(self.negative_node);
        let current_index = ViewVariableIndex::SpecificVariable(0);
        let ghost a = view.a@;
        let ghost b = view.b@;

        // Current flowing out of positive node is -i_source
        view.coefficient_add(
            positive_equation_index,
            current_index,
            Expr::neg(Expr::value(Scalar::one())),
        );
        // Current flowing out of negative node is i_source
        view.coefficient_add(negative_equation_index, current_index, Expr::value(Scalar::one()));

        // Source equation is v_positive - v_negative = v_source
        view.coefficient_add(
            specific_equation_index,
            positive_voltage_index,
            Expr::value(Scalar::one()),
        );
        view.coefficient_add(
            specific_equation_index,
            negative_voltage_index,
            Expr::neg(Expr::value(Scalar::one())),
        );
        view.result_add(specific_equation_index, Expr::value(self.voltage));
        assert(view.a@ =~= a + self.coefficients(
            view.num_nodes,
            view.num_variables,
            view.variables_start,
            _op_point,
            _dt,
        ));
        assert(view.b@ =~= b + self.sources(
            view.num_nodes,
            view.num_variables,
            view.variables_start,
            _op_point,
            _dt,
        ));
    }

    open spec fn update_reads(&self, view: &XMatrixView) -> bool {
        view.variable(ViewVariableIndex::SpecificVariable(0)).is_some()
    }

    /// `I` is the solved value of the source's auxiliary unknown.
    open spec fn next_state(&self, view: &XMatrixView, dt: Scalar) -> Readout {
        Readout {
            voltage: None,
            current: Some(
                Expr::Value(view.variable(ViewVariableIndex::SpecificVariable(0)).unwrap()),
            ),
        }
    }

    open spec fn updated(&self, point: OperatingPoint) -> Self {
        match point.current {
            Some(current) => VoltageSource { current, ..*self },
            None => *self,
        }
    }

    fn readout(&self, view: &XMatrixView, _dt: Scalar) -> (readout: Readout) {
        let current_index = ViewVariableIndex::SpecificVariable(0);
        Readout {
            voltage: None,
            current: Some(Expr::value(view.get_variable(current_index).unwrap())),
        }
    }

    fn update(&mut self, point: OperatingPoint) {
        if let Some(current) = point.current {
            self.set_current(current);
        }
    }
}

impl Stampable for CurrentSource {
    open spec fn variables(&self) -> usize {
        0
    }

    open spec fn stamp_reads(&self, op_point: &XMatrixView) -> bool {
        true
    }

    open spec fn coefficients(
        &self,
        num_nodes: usize,
        num_variables: usize,
        variables_start: usize,
        op_point: &XMatrixView,
        dt: Scalar,
    ) -> Seq<Coefficient> {
        Seq::empty()
    }

    /// `I` into the positive node, out of the negative one.
    open spec fn sources(
        &self,
        num_nodes: usize,
        num_variables: usize,
        variables_start: usize,
        op_point: &XMatrixView,
        dt: Scalar,
    ) -> Seq<Source> {
        current_stamp(
            num_nodes,
            self.positive_node,
            self.negative_node,
            Expr::Value(self.current),
            Expr::neg_spec(Expr::Value(self.current)),
        )
    }

    fn num_variables(&self) -> (count: usize) {
        0
    }

    fn stamp(&self, view: &mut ABMatrixView, _op_point: &XMatrixView, _dt: Scalar) {
        // The signs are those of constants on the right-hand side, not of coefficients:
        // the current flowing out of the positive node is -i_source.
        stamp_current(
            view,
            self.positive_node,
            self.negative_node,
            Expr::value(self.current),
            Expr::neg(Expr::value(self.current)),
        );
    }

    open spec fn update_reads(&self, view: &XMatrixView) -> bool {
        view.reads_nodes(self.positive_node, self.negative_node)
    }

    /// `v = v_p - v_n`.
    open spec fn next_state(&self, view: &XMatrixView, dt: Scalar) -> Readout {
        Readout {
            voltage: Some(view.voltage_between(self.positive_node, self.negative_node)),
            current: None,
        }
    }

    open spec fn updated(&self, point: OperatingPoint) -> Self {
        match point.voltage {
            Some(voltage) => CurrentSource { voltage, ..*self },
            None => *self,
        }
    }

    fn readout(&self, view: &XMatrixView, _dt: Scalar) -> (readout: Readout) {
        Readout {
            voltage: Some(view.get_voltage_between(self.positive_node, self.negative_node)),
            current: None,
        }
    }

    fn update(&mut self, point: OperatingPoint) {
        if let Some(voltage) = point.voltage {
            self.set_voltage(voltage);
        }
    }
}

impl Diode {
    /// The conductance of the companion model around the voltage `v0`:
    /// `g_d = (Is / (eta * Vt)) * exp(v0 / (eta * Vt))`.
    pub open spec fn companion_conductance(&self, v0: Expr) -> Expr {
        self.di_dv_at(v0)
    }

    /// The current of the companion model around the voltage `v0`:
    /// `I_eq = I(v0) - g_d * v0`, so that the model `g_d * v + I_eq` carries
    /// `I(v0)` at `v = v0`.
    pub open spec fn companion_current(&self, v0: Expr) -> Expr {
        Expr::difference_spec(
            self.current_at(v0),
            Expr::product_spec(self.di_dv_at(v0), v0),
        )
    }

    fn get_companion_current(&self, v0: &Expr) -> (current: Expr)
        ensures
            current == self.companion_current(*v0),
    {
        Expr::difference(
            self.current_for(v0.duplicate()),
            Expr::product(self.di_dv_for(v0.duplicate()), v0.duplicate()),
        )
    }
}

impl Stampable for Diode {
    open spec fn variables(&self) -> usize {
        0
    }

    open spec fn stamp_reads(&self, op_point: &XMatrixView) -> bool {
        op_point.reads_nodes(self.positive_node, self.negative_node)
    }

    /// `g_d` between the two nodes, `-g_d` across, around the voltage that
    /// `op_point` holds between them.
    open spec fn coefficients(
        &self,
        num_nodes: usize,
        num_variables: usize,
        variables_start: usize,
        op_point: &XMatrixView,
        dt: Scalar,
    ) -> Seq<Coefficient> {
        let v0 = op_point.voltage_between(self.positive_node, self.negative_node);
        admittance_stamp(
            num_nodes,
            self.positive_node,
            self.negative_node,
            self.companion_conductance(v0),
            Expr::neg_spec(self.companion_conductance(v0)),
        )
    }

    /// `I_eq` out of the positive node, into the negative one.
    open spec fn sources(
        &self,
        num_nodes: usize,
        num_variables: usize,
        variables_start: usize,
        op_point: &XMatrixView,
        dt: Scalar,
    ) -> Seq<Source> {
        let v0 = op_point.voltage_between(self.positive_node, self.negative_node);
        current_stamp(
            num_nodes,
            self.positive_node,
            self.negative_node,
            Expr::neg_spec(self.companion_current(v0)),
            self.companion_current(v0),
        )
    }

    fn num_variables(&self) -> (count: usize) {
        0
    }

    fn stamp(&self, view: &mut ABMatrixView, op_point: &XMatrixView, _dt: Scalar) {
        // Around v0 the current flowing out of the positive node is g_d*(v_positive -
        // v_negative) + i_eq.
        let v0 = op_point.get_voltage_between(self.positive_node, self.negative_node);
        let g = self.di_dv_for(v0.duplicate());
        let minus_g = Expr::neg(self.di_dv_for(v0.duplicate()));
        stamp_admittance(view, self.positive_node, self.negative_node, &g, &minus_g);
        stamp_current(
            view,
            self.positive_node,
            self.negative_node,
            Expr::neg(self.get_companion_current(&v0)),
            self.get_companion_current(&v0),
        );
    }

    open spec fn update_reads(&self, view: &XMatrixView) -> bool {
        view.reads_nodes(self.positive_node, self.negative_node)
    }

    /// `v = v_p - v_n`.
    open spec fn next_state(&self, view: &XMatrixView, dt: Scalar) -> Readout {
        Readout {
            voltage: Some(view.voltage_between(self.positive_node, self.negative_node)),
            current: None,
        }
    }

    open spec fn updated(&self, point: OperatingPoint) -> Self {
        match point.voltage {
            Some(voltage) => Diode { voltage, ..*self },
            None => *self,
        }
    }

    fn readout(&self, view: &XMatrixView, _dt: Scalar) -> (readout: Readout) {
        Readout {
            voltage: Some(view.get_voltage_between(self.positive_node, self.negative_node)),
            current: None,
        }
    }

    fn update(&mut self, point: OperatingPoint) {
        if let Some(voltage) = point.voltage {
            self.set_voltage(voltage);
        }
    }
}

impl Stampable for Component {
    open spec fn variables(&self) -> usize {
        match self {
            Component::Resistor(c) => c.variables(),
            Component::Capacitor(c) => c.variables(),
            Component::Inductor(c) => c.variables(),
            Component::Diode(c) => c.variables(),
            Component::VoltageSource(c) => c.variables(),
            Component::CurrentSource(c) => c.variables(),
        }
    }

    open spec fn stamp_reads(&self, op_point: &XMatrixView) -> bool {
        match self {
            Component::Resistor(c) => c.stamp_reads(op_point),
            Component::Capacitor(c) => c.stamp_reads(op_point),
            Component::Inductor(c) => c.stamp_reads(op_point),
            Component::Diode(c) => c.stamp_reads(op_point),
            Component::VoltageSource(c) => c.stamp_reads(op_point),
            Component::CurrentSource(c) => c.stamp_reads(op_point),
        }
    }

    open spec fn coefficients(
        &self,
        num_nodes: usize,
        num_variables: usize,
        variables_start: usize,
        op_point: &XMatrixView,
        dt: Scalar,
    ) -> Seq<Coefficient> {
        match self {
            Component::Resistor(c) => c.coefficients(
                num_nodes,
                num_variables,
                variables_start,
                op_point,
                dt,
            ),
            Component::Capacitor(c) => c.coefficients(
                num_nodes,
                num_variables,
                variables_start,
                op_point,
                dt,
            ),
            Component::Inductor(c) => c.coefficients(
                num_nodes,
                num_variables,
                variables_start,
                op_point,
                dt,
            ),
            Component::Diode(c) => c.coefficients(
                num_nodes,
                num_variables,
                variables_start,
                op_point,
                dt,
            ),
            Component::VoltageSource(c) => c.coefficients(
                num_nodes,
                num_variables,
                variables_start,
                op_point,
                dt,
            ),
            Component::CurrentSource(c) => c.coefficients(
                num_nodes,
                num_variables,
                variables_start,
                op_point,
                dt,
            ),
        }
    }

    open spec fn sources(
        &self,
        num_nodes: usize,
        num_variables: usize,
        variables_start: usize,
        op_point: &XMatrixView,
        dt: Scalar,
    ) -> Seq<Source> {
        match self {
            Component::Resistor(c) => c.sources(
                num_nodes,
                num_variables,
                variables_start,
                op_point,
                dt,
            ),
            Component::Capacitor(c) => c.sources(
                num_nodes,
                num_variables,
                variables_start,
                op_point,
                dt,
            ),
            Component::Inductor(c) => c.sources(
                num_nodes,
                num_variables,
                variables_start,
                op_point,
                dt,
            ),
            Component::Diode(c) => c.sources(num_nodes, num_variables, variables_start, op_point, dt),
            Component::VoltageSource(c) => c.sources(
                num_nodes,
                num_variables,
                variables_start,
                op_point,
                dt,
            ),
            Component::CurrentSource(c) => c.sources(
                num_nodes,
                num_variables,
                variables_start,
                op_point,
                dt,
            ),
        }
    }

    fn num_variables(&self) -> (count: usize) {
        match self {
            Self::Resistor(c) => c.num_variables(),
            Self::Capacitor(c) => c.num_variables(),
            Self::Inductor(c) => c.num_variables(),
            Self::Diode(c) => c.num_variables(),
            Self::VoltageSource(c) => c.num_variables(),
            Self::CurrentSource(c) => c.num_variables(),
        }
    }

    fn stamp(&self, view: &mut ABMatrixView, op_point: &XMatrixView, dt: Scalar) {
        match self {
            Self::Resistor(c) => c.stamp(view, op_point, dt),
            Self::Capacitor(c) => c.stamp(view, op_point, dt),
            Self::Inductor(c) => c.stamp(view, op_point, dt),
            Self::Diode(c) => c.stamp(view, op_point, dt),
            Self::VoltageSource(c) => c.stamp(view, op_point, dt),
            Self::CurrentSource(c) => c.stamp(view, op_point, dt),
        }
    }

    open spec fn update_reads(&self, view: &XMatrixView) -> bool {
        match self {
            Component::Resistor(c) => c.update_reads(view),
            Component::Capacitor(c) => c.update_reads(view),
            Component::Inductor(c) => c.update_reads(view),
            Component::Diode(c) => c.update_reads(view),
            Component::VoltageSource(c) => c.update_reads(view),
            Component::CurrentSource(c) => c.update_reads(view),
        }
    }

    open spec fn next_state(&self, view: &XMatrixView, dt: Scalar) -> Readout {
        match self {
            Component::Resistor(c) => c.next_state(view, dt),
            Component::Capacitor(c) => c.next_state(view, dt),
            Component::Inductor(c) => c.next_state(view, dt),
            Component::Diode(c) => c.next_state(view, dt),
            Component::VoltageSource(c) => c.next_state(view, dt),
            Component::CurrentSource(c) => c.next_state(view, dt),
        }
    }

    open spec fn updated(&self, point: OperatingPoint) -> Self {
        match self {
            Component::Resistor(c) => Component::Resistor(c.updated(point)),
            Component::Capacitor(c) => Component::Capacitor(c.updated(point)),
            Component::Inductor(c) => Component::Inductor(c.updated(point)),
            Component::Diode(c) => Component::Diode(c.updated(point)),
            Component::VoltageSource(c) => Component::VoltageSource(c.updated(point)),
            Component::CurrentSource(c) => Component::CurrentSource(c.updated(point)),
        }
    }

    fn readout(&self, view: &XMatrixView, dt: Scalar) -> (readout: Readout) {
        match self {
            Self::Resistor(c) => c.readout(view, dt),
            Self::Capacitor(c) => c.readout(view, dt),
            Self::Inductor(c) => c.readout(view, dt),
            Self::Diode(c) => c.readout(view, dt),
            Self::VoltageSource(c) => c.readout(view, dt),
            Self::CurrentSource(c) => c.readout(view, dt),
        }
    }

    fn update(&mut self, point: OperatingPoint) {
        match self {
            Self::Resistor(c) => c.update(point),
            Self::Capacitor(c) => c.update(point),
            Self::Inductor(c) => c.update(point),
            Self::Diode(c) => c.update(point),
            Self::VoltageSource(c) => c.update(point),
            Self::CurrentSource(c) => c.update(point),
        }
    }
}

} // verus!
