//! The system as one element sees it while it is stamped.
//!
//! An element addresses equations and unknowns by the ids of its own nodes
//! and by the numbers, from 0, of the auxiliary unknowns that it owns. A view
//! knows where the element's auxiliary slice begins and turns these local
//! coordinates into rows and columns of the whole system. What does not exist
//! there (the ground, a node past the last one, an auxiliary past the
//! element's own) is dropped without a trace.
use vstd::prelude::*;
use crate::expr::Expr;
use crate::scalar::Scalar;

verus! {

/// An equation, as an element names it.
#[derive(Debug, Clone, Copy, PartialEq, Eq, Structural)]
pub enum ViewEquationIndex {
    /// The current law at the node with this id.
    NodalEquation(usize),
    /// The element's own auxiliary equation with this number, from 0.
    SpecificEquation(usize),
}

impl ViewEquationIndex {
    /// The row of the whole system that the equation stands in, if it has one.
    pub open spec fn global_index(
        self,
        num_nodes: usize,
        num_variables: usize,
        variables_start: usize,
    ) -> Option<usize> {
        match self {
            ViewEquationIndex::NodalEquation(idx) => if 1 <= idx <= num_nodes {
                Some((idx - 1) as usize)
            } else {
                None
            },
            ViewEquationIndex::SpecificEquation(idx) => if idx < num_variables && variables_start
                + idx <= usize::MAX {
                Some((variables_start + idx) as usize)
            } else {
                None
            },
        }
    }

    pub fn into_global_index(
        self,
        num_nodes: usize,
        num_variables: usize,
        variables_start: usize,
    ) -> (index: Option<usize>)
        ensures
            index == self.global_index(num_nodes, num_variables, variables_start),
    {
        match self {
            Self::NodalEquation(idx) => {
                if idx == 0 {
                    return None;
                }
                if idx > num_nodes {
                    return None;
                }
                Some(idx - 1)
            },
            Self::SpecificEquation(idx) => {
                if idx >= num_variables {
                    return None;
                }
                variables_start.checked_add(idx)
            },
        }
    }
}

/// An unknown, as an element names it.
#[derive(Debug, Clone, Copy, PartialEq, Eq, Structural)]
pub enum ViewVariableIndex {
    /// The voltage of the node with this id.
    NodeVoltage(usize),
    /// The element's own auxiliary unknown with this number, from 0.
    SpecificVariable(usize),
}

impl ViewVariableIndex {
    /// The column of the whole system that the unknown stands in, if it has
    /// one.
    pub open spec fn global_index(
        self,
        num_nodes: usize,
        num_variables: usize,
        variables_start: usize,
    ) -> Option<usize> {
        match self {
            ViewVariableIndex::NodeVoltage(idx) => if 1 <= idx <= num_nodes {
                Some((idx - 1) as usize)
            } else {
                None
            },
            ViewVariableIndex::SpecificVariable(idx) => if idx < num_variables && variables_start
                + idx <= usize::MAX {
                Some((variables_start + idx) as usize)
            } else {
                None
            },
        }
    }

    pub fn into_global_index(
        self,
        num_nodes: usize,
        num_variables: usize,
        variables_start: usize,
    ) -> (index: Option<usize>)
        ensures
            index == self.global_index(num_nodes, num_variables, variables_start),
    {
        match self {
            Self::NodeVoltage(idx) => {
                if idx == 0 {
                    return None;
                }
                if idx > num_nodes {
                    return None;
                }
                Some(idx - 1)
            },
            Self::SpecificVariable(idx) => {
                if idx >= num_variables {
                    return None;
                }
                variables_start.checked_add(idx)
            },
        }
    }
}

/// One contribution to the matrix of coefficients: `value` is added to the
/// entry in row `row`, column `col`.
#[derive(Debug, PartialEq, Eq)]
pub struct Coefficient {
    pub row: usize,
    pub col: usize,
    pub value: Expr,
}

/// One contribution to the right-hand side: `value` is added to the entry in
/// row `row`.
#[derive(Debug, PartialEq, Eq)]
pub struct Source {
    pub row: usize,
    pub value: Expr,
}

/// `entries`, followed by the contribution of `value` at (`row`, `col`) where
/// both exist.
pub open spec fn with_coefficient(
    entries: Seq<Coefficient>,
    row: Option<usize>,
    col: Option<usize>,
    value: Expr,
) -> Seq<Coefficient> {
    match (row, col) {
        (Some(r), Some(c)) => entries.push(Coefficient { row: r, col: c, value }),
        _ => entries,
    }
}

/// `entries`, followed by the contribution of `value` at `row` where it
/// exists.
pub open spec fn with_source(entries: Seq<Source>, row: Option<usize>, value: Expr) -> Seq<
    Source,
> {
    match row {
        Some(r) => entries.push(Source { row: r, value }),
        None => entries,
    }
}

/// The view through which an element adds to the system.
///
/// The system is kept as the list of its contributions, in the order in
/// which they were made: an entry of the matrix is `+0.0` plus the values
/// contributed to it, added one after the other in that order.
pub struct ABMatrixView<'a> {
    pub a: &'a mut Vec<Coefficient>,
    pub b: &'a mut Vec<Source>,
    pub num_nodes: usize,
    pub num_variables: usize,
    pub variables_start: usize,
}

impl<'a> ABMatrixView<'a> {
    /// The row that an equation is routed to.
    pub open spec fn row_of(&self, equation: ViewEquationIndex) -> Option<usize> {
        equation.global_index(self.num_nodes, self.num_variables, self.variables_start)
    }

    /// The column that an unknown is routed to.
    pub open spec fn col_of(&self, variable: ViewVariableIndex) -> Option<usize> {
        variable.global_index(self.num_nodes, self.num_variables, self.variables_start)
    }

    /// Whether two views stand at the same place of a system of the same
    /// shape.
    pub open spec fn same_place(&self, other: &Self) -> bool {
        &&& self.num_nodes == other.num_nodes
        &&& self.num_variables == other.num_variables
        &&& self.variables_start == other.variables_start
    }

    pub fn new(
        a: &'a mut Vec<Coefficient>,
        b: &'a mut Vec<Source>,
        num_nodes: usize,
        num_variables: usize,
        variables_start: usize,
    ) -> (view: Self)
        ensures
            view.a@ == old(a)@,
            view.b@ == old(b)@,
            view.num_nodes == num_nodes,
            view.num_variables == num_variables,
            view.variables_start == variables_start,
            *final(view.a) == *final(a),
            *final(view.b) == *final(b),
    {
        Self { a, b, num_nodes, num_variables, variables_start }
    }

    /// Adds `value` to the coefficient of `variable` in `equation`.
    pub fn coefficient_add(
        &mut self,
        equation: ViewEquationIndex,
        variable: ViewVariableIndex,
        value: Expr,
    )
        ensures
            final(self).a@ == with_coefficient(
                old(self).a@,
                old(self).row_of(equation),
                old(self).col_of(variable),
                value,
            ),
            final(self).b@ == old(self).b@,
            final(self).same_place(old(self)),
            *final(final(self).a) == *final(old(self).a),
            *final(final(self).b) == *final(old(self).b),
    {
        let row = equation.into_global_index(
            self.num_nodes,
            self.num_variables,
            self.variables_start,
        );
        let col = variable.into_global_index(
            self.num_nodes,
            self.num_variables,
            self.variables_start,
        );
        match (row, col) {
            (Some(r), Some(c)) => {
                self.a.push(Coefficient { row: r, col: c, value });
            },
            _ => {},
        }
    }

    /// Adds `value` to the right-hand side of `equation`.
    pub fn result_add(&mut self, equation: ViewEquationIndex, value: Expr)
        ensures
            final(self).b@ == with_source(old(self).b@, old(self).row_of(equation), value),
            final(self).a@ == old(self).a@,
            final(self).same_place(old(self)),
            *final(final(self).a) == *final(old(self).a),
            *final(final(self).b) == *final(old(self).b),
    {
        let row = equation.into_global_index(
            self.num_nodes,
            self.num_variables,
            self.variables_start,
        );
        match row {
            Some(r) => {
                self.b.push(Source { row: r, value });
            },
            None => {},
        }
    }
}

/// The view through which an element reads a solution vector.
pub struct XMatrixView<'a> {
    pub x: &'a Vec<Scalar>,
    pub num_nodes: usize,
    pub num_variables: usize,
    pub variables_start: usize,
}

impl<'a> XMatrixView<'a> {
    /// What a query for an unknown gives: `+0.0` for the voltage of the
    /// ground, the entry of the unknown's column where the vector has it, and
    /// nothing otherwise.
    pub open spec fn variable(&self, variable: ViewVariableIndex) -> Option<Scalar> {
        if variable == ViewVariableIndex::NodeVoltage(0) {
            Some(Scalar::zero_spec())
        } else {
            match variable.global_index(self.num_nodes, self.num_variables, self.variables_start) {
                Some(col) => if col < self.x@.len() {
                    Some(self.x@[col as int])
                } else {
                    None
                },
                None => None,
            }
        }
    }

    pub fn new(
        x: &'a Vec<Scalar>,
        num_nodes: usize,
        num_variables: usize,
        variables_start: usize,
    ) -> (view: Self)
        ensures
            view == (XMatrixView { x, num_nodes, num_variables, variables_start }),
    {
        Self { x, num_nodes, num_variables, variables_start }
    }

    /// Whether the voltages of both nodes can be read.
    pub open spec fn reads_nodes(&self, positive_node: usize, negative_node: usize) -> bool {
        &&& self.variable(ViewVariableIndex::NodeVoltage(positive_node)).is_some()
        &&& self.variable(ViewVariableIndex::NodeVoltage(negative_node)).is_some()
    }

    /// The voltage from one node to another: `v_p - v_n`.
    pub open spec fn voltage_between(&self, positive_node: usize, negative_node: usize) -> Expr {
        Expr::difference_spec(
            Expr::Value(self.variable(ViewVariableIndex::NodeVoltage(positive_node)).unwrap()),
            Expr::Value(self.variable(ViewVariableIndex::NodeVoltage(negative_node)).unwrap()),
        )
    }

    pub fn get_voltage_between(&self, positive_node: usize, negative_node: usize) -> (voltage:
        Expr)
        requires
            self.reads_nodes(positive_node, negative_node),
        ensures
            voltage == self.voltage_between(positive_node, negative_node),
    {
        let positive = self.get_variable(ViewVariableIndex::NodeVoltage(positive_node)).unwrap();
        let negative = self.get_variable(ViewVariableIndex::NodeVoltage(negative_node)).unwrap();
        Expr::difference(Expr::value(positive), Expr::value(negative))
    }

    pub fn get_variable(&self, variable: ViewVariableIndex) -> (value: Option<Scalar>)
        ensures
            value == self.variable(variable),
    {
        match variable {
            ViewVariableIndex::NodeVoltage(0) => Some(Scalar::zero()),
            _ => match variable.into_global_index(
                self.num_nodes,
                self.num_variables,
                self.variables_start,
            ) {
                Some(col) => if col < self.x.len() {
                    Some(self.x[col])
                } else {
                    None
                },
                None => None,
            },
        }
    }
}

} // verus!
