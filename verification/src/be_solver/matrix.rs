//! Coordinates into the whole system, and the solution vector read by them.
//!
//! The system has one row per non-ground node (the current law at that node)
//! followed by one row per voltage source (its branch equation), and one
//! unknown per row: the node's voltage, or the source's current. Node 0 is the
//! ground: it has no row and no unknown.
use vstd::prelude::*;
use crate::scalar::{zeros, Scalar};

verus! {

/// An equation of the system.
#[derive(Debug, Clone, Copy, PartialEq, Eq, Structural)]
pub enum EquationIndex {
    /// The current law at the node with this id.
    NodalEquation(usize),
    /// The branch equation of the voltage source with this number, from 0.
    VoltageSourceEquation(usize),
}

impl EquationIndex {
    /// The row that holds the equation, if the system has one for it.
    pub open spec fn row(self, num_nodes: usize, num_voltage_sources: usize) -> Option<usize> {
        match self {
            EquationIndex::NodalEquation(idx) => if 1 <= idx <= num_nodes {
                Some((idx - 1) as usize)
            } else {
                None
            },
            EquationIndex::VoltageSourceEquation(idx) => if idx < num_voltage_sources && num_nodes
                + idx <= usize::MAX {
                Some((num_nodes + idx) as usize)
            } else {
                None
            },
        }
    }

    pub fn into_row(self, num_nodes: usize, num_voltage_sources: usize) -> (row: Option<usize>)
        ensures
            row == self.row(num_nodes, num_voltage_sources),
    {
        match self {
            EquationIndex::NodalEquation(idx) => {
                if idx == 0 {
                    return None;
                }
                if idx > num_nodes {
                    return None;
                }
                Some(idx - 1)
            },
            EquationIndex::VoltageSourceEquation(idx) => {
                if idx >= num_voltage_sources {
                    return None;
                }
                num_nodes.checked_add(idx)
            },
        }
    }
}

/// An unknown of the system.
#[derive(Debug, Clone, Copy, PartialEq, Eq, Structural)]
pub enum VariableIndex {
    /// The voltage of the node with this id.
    NodalVoltage(usize),
    /// The current through the voltage source with this number, from 0.
    VoltageSourceCurrent(usize),
}

impl VariableIndex {
    /// The column that holds the unknown, if the system has one for it.
    pub open spec fn col(self, num_nodes: usize, num_voltage_sources: usize) -> Option<usize> {
        match self {
            VariableIndex::NodalVoltage(idx) => if 1 <= idx <= num_nodes {
                Some((idx - 1) as usize)
            } else {
                None
            },
            VariableIndex::VoltageSourceCurrent(idx) => if idx < num_voltage_sources && num_nodes
                + idx <= usize::MAX {
                Some((num_nodes + idx) as usize)
            } else {
                None
            },
        }
    }

    pub fn into_col(self, num_nodes: usize, num_voltage_sources: usize) -> (col: Option<usize>)
        ensures
            col == self.col(num_nodes, num_voltage_sources),
    {
        match self {
            VariableIndex::NodalVoltage(idx) => {
                if idx == 0 {
                    return None;
                }
                if idx > num_nodes {
                    return None;
                }
                Some(idx - 1)
            },
            VariableIndex::VoltageSourceCurrent(idx) => {
                if idx >= num_voltage_sources {
                    return None;
                }
                num_nodes.checked_add(idx)
            },
        }
    }
}

/// A solution vector together with the shape of the system it solves.
pub struct XMatrix {
    x: Vec<Scalar>,
    num_nodes: usize,
    num_voltage_sources: usize,
}

impl XMatrix {
    /// The entries of the vector, first to last.
    pub closed spec fn entries(&self) -> Seq<Scalar> {
        self.x@
    }

    pub closed spec fn num_nodes(&self) -> usize {
        self.num_nodes
    }

    pub closed spec fn num_voltage_sources(&self) -> usize {
        self.num_voltage_sources
    }

    /// What a query for an unknown gives: `+0.0` for the voltage of the
    /// ground, the entry of the unknown's column where the vector has it, and
    /// nothing otherwise.
    pub open spec fn variable(&self, variable_index: VariableIndex) -> Option<Scalar> {
        if variable_index == VariableIndex::NodalVoltage(0) {
            Some(Scalar::zero_spec())
        } else {
            match variable_index.col(self.num_nodes(), self.num_voltage_sources()) {
                Some(col) => if col < self.entries().len() {
                    Some(self.entries()[col as int])
                } else {
                    None
                },
                None => None,
            }
        }
    }

    pub fn new(x: Vec<Scalar>, num_nodes: usize, num_voltage_sources: usize) -> (m: Self)
        ensures
            m.entries() == x@,
            m.num_nodes() == num_nodes,
            m.num_voltage_sources() == num_voltage_sources,
    {
        Self { x, num_nodes, num_voltage_sources }
    }

    pub fn get_variable(&self, variable_index: VariableIndex) -> (value: Option<Scalar>)
        ensures
            value == self.variable(variable_index),
    {
        match variable_index {
            VariableIndex::NodalVoltage(0) => Some(Scalar::zero()),
            _ => match variable_index.into_col(self.num_nodes, self.num_voltage_sources) {
                Some(col) => if col < self.x.len() {
                    Some(self.x[col])
                } else {
                    None
                },
                None => None,
            },
        }
    }
}

/// The matrix of coefficients and the right-hand side of a system, entry by
/// entry, for a caller who fills them in.
pub struct ABMatrix {
    a: Vec<Scalar>,
    b: Vec<Scalar>,
    num_nodes: usize,
    num_voltage_sources: usize,
}

impl ABMatrix {
    /// The entries of the matrix, column after column.
    pub closed spec fn coefficients(&self) -> Seq<Scalar> {
        self.a@
    }

    /// The entries of the right-hand side.
    pub closed spec fn results(&self) -> Seq<Scalar> {
        self.b@
    }

    pub closed spec fn num_nodes(&self) -> usize {
        self.num_nodes
    }

    pub closed spec fn num_voltage_sources(&self) -> usize {
        self.num_voltage_sources
    }

    /// The number of rows, and of columns.
    pub open spec fn size(&self) -> int {
        self.num_nodes() + self.num_voltage_sources()
    }

    /// The matrix is square, and the right-hand side as long as it is high.
    #[verifier::type_invariant]
    spec fn wf(&self) -> bool {
        &&& self.a@.len() == (self.num_nodes + self.num_voltage_sources) * (self.num_nodes
            + self.num_voltage_sources)
        &&& self.b@.len() == self.num_nodes + self.num_voltage_sources
    }

    /// Where the entry of a row and a column stands among the entries of
    /// the matrix.
    pub open spec fn position(&self, row: usize, col: usize) -> int {
        row + col * self.size()
    }

    /// A system of `+0.0` everywhere.
    pub fn new(num_nodes: usize, num_voltage_sources: usize) -> (m: Self)
        requires
            (num_nodes + num_voltage_sources) * (num_nodes + num_voltage_sources) <= usize::MAX,
        ensures
            m.num_nodes() == num_nodes,
            m.num_voltage_sources() == num_voltage_sources,
            m.coefficients() == Seq::new(
                (m.size() * m.size()) as nat,
                |i: int| Scalar::zero_spec(),
            ),
            m.results() == Seq::new(m.size() as nat, |i: int| Scalar::zero_spec()),
    {
        assert(num_nodes + num_voltage_sources <= (num_nodes + num_voltage_sources) * (num_nodes
            + num_voltage_sources)) by (nonlinear_arith);
        let size: usize = num_nodes + num_voltage_sources;
        let a = zeros(size * size);
        let b = zeros(size);
        Self { a, b, num_nodes, num_voltage_sources }
    }

    /// The system with the given entries: those of the matrix column after
    /// column, and those of the right-hand side. There is none unless the
    /// matrix is square and the right-hand side as long as it is high.
    pub fn from_entries(
        num_nodes: usize,
        num_voltage_sources: usize,
        a: Vec<Scalar>,
        b: Vec<Scalar>,
    ) -> (m: Option<Self>)
        ensures
            match m {
                Some(m) => {
                    &&& m.num_nodes() == num_nodes
                    &&& m.num_voltage_sources() == num_voltage_sources
                    &&& m.coefficients() == a@
                    &&& m.results() == b@
                    &&& a@.len() == m.size() * m.size()
                    &&& b@.len() == m.size()
                },
                None => {
                    ||| b@.len() != num_nodes + num_voltage_sources
                    ||| a@.len() != (num_nodes + num_voltage_sources) * (num_nodes
                        + num_voltage_sources)
                },
            },
    {
        let height = b.len();
        let entries = a.len();
        let size = match num_nodes.checked_add(num_voltage_sources) {
            Some(size) => size,
            None => {
                return None;
            },
        };
        if height != size {
            return None;
        }
        match size.checked_mul(size) {
            Some(total) => {
                if entries != total {
                    return None;
                }
            },
            None => {
                return None;
            },
        }
        Some(Self { a, b, num_nodes, num_voltage_sources })
    }

    /// The entry of the matrix for an equation and an unknown, to read or
    /// to overwrite, if the system has both.
    pub fn get_coefficient_mut(
        &mut self,
        equation_index: EquationIndex,
        variable_index: VariableIndex,
    ) -> (cell: Option<&mut Scalar>)
        ensures
            old(self).coefficients().len() == old(self).size() * old(self).size(),
            final(self).num_nodes() == old(self).num_nodes(),
            final(self).num_voltage_sources() == old(self).num_voltage_sources(),
            final(self).results() == old(self).results(),
            match (
                equation_index.row(old(self).num_nodes(), old(self).num_voltage_sources()),
                variable_index.col(old(self).num_nodes(), old(self).num_voltage_sources()),
            ) {
                (Some(row), Some(col)) => {
                    &&& cell matches Some(entry)
                    &&& *entry == old(self).coefficients()[old(self).position(row, col)]
                    &&& final(self).coefficients() == old(self).coefficients().update(
                        old(self).position(row, col),
                        *final(entry),
                    )
                },
                _ => cell is None && final(self).coefficients() == old(self).coefficients(),
            },
    {
        let row = equation_index.into_row(self.num_nodes, self.num_voltage_sources);
        let col = variable_index.into_col(self.num_nodes, self.num_voltage_sources);
        proof {
            use_type_invariant(&*self);
        }
        match (row, col) {
            (Some(r), Some(c)) => {
                let size: usize = self.b.len();
                let entries: usize = self.a.len();
                assert(entries == size * size);
                assert(0 <= c * size && r + c * size < size * size) by (nonlinear_arith)
                    requires
                        0 <= r < size,
                        0 <= c < size,
                ;
                let position: usize = r + c * size;
                Some(&mut self.a[position])
            },
            _ => None,
        }
    }

    /// The entry of the right-hand side for an equation, to read or to
    /// overwrite, if the system has it.
    pub fn get_result_mut(&mut self, equation_index: EquationIndex) -> (cell: Option<&mut Scalar>)
        ensures
            old(self).results().len() == old(self).size(),
            final(self).num_nodes() == old(self).num_nodes(),
            final(self).num_voltage_sources() == old(self).num_voltage_sources(),
            final(self).coefficients() == old(self).coefficients(),
            match equation_index.row(old(self).num_nodes(), old(self).num_voltage_sources()) {
                Some(row) => {
                    &&& cell matches Some(entry)
                    &&& *entry == old(self).results()[row as int]
                    &&& final(self).results() == old(self).results().update(
                        row as int,
                        *final(entry),
                    )
                },
                None => cell is None && final(self).results() == old(self).results(),
            },
    {
        proof {
            use_type_invariant(&*self);
        }
        match equation_index.into_row(self.num_nodes, self.num_voltage_sources) {
            Some(r) => Some(&mut self.b[r]),
            None => None,
        }
    }

    /// The entries of the matrix, column after column, and those of the
    /// right-hand side.
    pub fn into_ab(self) -> (ab: (Vec<Scalar>, Vec<Scalar>))
        ensures
            ab.0@ == self.coefficients(),
            ab.1@ == self.results(),
            ab.0@.len() == self.size() * self.size(),
            ab.1@.len() == self.size(),
    {
        proof {
            use_type_invariant(&self);
        }
        (self.a, self.b)
    }
}

} // verus!
