//! What holds of every system that the solver assembles.
use vstd::prelude::*;
use crate::be_solver::matrix::{EquationIndex, VariableIndex, XMatrix};
use crate::be_solver::matrix_view::{
    Coefficient,
    Source,
    ViewEquationIndex,
    ViewVariableIndex,
    XMatrixView,
};
use crate::be_solver::assembly::{
    coefficients_of,
    dimension,
    lemma_prefix_bounds,
    lemma_variables_nonnegative,
    readouts_of,
    sources_of,
    updated_all,
    view_at,
};
use crate::be_solver::round::largest_of;
use crate::be_solver::stampable::{OperatingPoint, Stampable};
use crate::components::Component;
use crate::scalar::Scalar;

verus! {

/// Every contribution stands in one of the first `size` rows and columns.
pub open spec fn coefficients_in_range(entries: Seq<Coefficient>, size: int) -> bool {
    forall|k: int|
        0 <= k < entries.len() ==> (#[trigger] entries[k]).row < size && entries[k].col < size
}

/// Every contribution stands in one of the first `size` rows.
pub open spec fn sources_in_range(entries: Seq<Source>, size: int) -> bool {
    forall|k: int| 0 <= k < entries.len() ==> (#[trigger] entries[k]).row < size
}

/// No element of the netlist is a diode.
pub open spec fn is_linear(components: Seq<Component>) -> bool {
    forall|i: int| 0 <= i < components.len() ==> !((#[trigger] components[i]) is Diode)
}

/// The ground is fixed: node 0 has no equation and no unknown, in the whole
/// system and through every view, while node `k` of `1..=num_nodes` has row
/// and column `k - 1`.
pub proof fn lemma_ground_has_no_row(
    node: usize,
    num_nodes: usize,
    num_variables: usize,
    variables_start: usize,
)
    ensures
        EquationIndex::NodalEquation(0).row(num_nodes, num_variables) is None,
        VariableIndex::NodalVoltage(0).col(num_nodes, num_variables) is None,
        ViewEquationIndex::NodalEquation(0).global_index(
            num_nodes,
            num_variables,
            variables_start,
        ) is None,
        ViewVariableIndex::NodeVoltage(0).global_index(num_nodes, num_variables, variables_start)
            is None,
        1 <= node <= num_nodes ==> {
            &&& EquationIndex::NodalEquation(node).row(num_nodes, num_variables) == Some(
                (node - 1) as usize,
            )
            &&& VariableIndex::NodalVoltage(node).col(num_nodes, num_variables) == Some(
                (node - 1) as usize,
            )
            &&& ViewEquationIndex::NodalEquation(node).global_index(
                num_nodes,
                num_variables,
                variables_start,
            ) == Some((node - 1) as usize)
            &&& ViewVariableIndex::NodeVoltage(node).global_index(
                num_nodes,
                num_variables,
                variables_start,
            ) == Some((node - 1) as usize)
        },
{
}

/// The ground is fixed: a query for the voltage of node 0 gives `+0.0`,
/// whatever the solution vector holds.
pub proof fn lemma_ground_voltage_is_zero(view: &XMatrixView, matrix: &XMatrix)
    ensures
        view.variable(ViewVariableIndex::NodeVoltage(0)) == Some(Scalar { bits: 0 }),
        matrix.variable(VariableIndex::NodalVoltage(0)) == Some(Scalar { bits: 0 }),
{
}

/// An element stays in its own part of the system: its contributions stand
/// in the rows and columns of the nodes, or in those of its own auxiliary
/// unknowns.
pub proof fn lemma_element_in_range(
    component: Component,
    num_nodes: usize,
    variables_start: usize,
    op_point: &XMatrixView,
    dt: Scalar,
    size: int,
)
    requires
        num_nodes <= variables_start,
        variables_start + component.variables() <= size,
    ensures
        coefficients_in_range(
            component.coefficients(
                num_nodes,
                component.variables(),
                variables_start,
                op_point,
                dt,
            ),
            size,
        ),
        sources_in_range(
            component.sources(num_nodes, component.variables(), variables_start, op_point, dt),
            size,
        ),
{
}

/// Every contribution to an assembled system stands inside it: its row and
/// its column are below the system's dimension.
pub proof fn lemma_assembly_in_range(
    components: Seq<Component>,
    count: int,
    x: &Vec<Scalar>,
    dt: Scalar,
)
    requires
        0 <= count <= components.len(),
        dimension(components) <= usize::MAX,
    ensures
        coefficients_in_range(coefficients_of(components, count, x, dt), dimension(components)),
        sources_in_range(sources_of(components, count, x, dt), dimension(components)),
    decreases count,
{
    if count > 0 {
        lemma_assembly_in_range(components, count - 1, x, dt);
        lemma_prefix_bounds(components, count - 1, components.len() as int);
        lemma_variables_nonnegative(components, components.len() as int);
        let view = view_at(components, count - 1, x);
        lemma_element_in_range(
            components[count - 1],
            view.num_nodes,
            view.variables_start,
            &view,
            dt,
            dimension(components),
        );
    }
}

/// What an element adds to the system depends on the iterate only through
/// the entries of the iterate, and for an element that is no diode not at
/// all.
pub proof fn lemma_element_reads_entries(
    component: Component,
    num_nodes: usize,
    num_variables: usize,
    variables_start: usize,
    x1: &Vec<Scalar>,
    x2: &Vec<Scalar>,
    dt: Scalar,
)
    requires
        x1@ == x2@ || !(component is Diode),
    ensures
        component.coefficients(
            num_nodes,
            num_variables,
            variables_start,
            &XMatrixView { x: x1, num_nodes, num_variables, variables_start },
            dt,
        ) == component.coefficients(
            num_nodes,
            num_variables,
            variables_start,
            &XMatrixView { x: x2, num_nodes, num_variables, variables_start },
            dt,
        ),
        component.sources(
            num_nodes,
            num_variables,
            variables_start,
            &XMatrixView { x: x1, num_nodes, num_variables, variables_start },
            dt,
        ) == component.sources(
            num_nodes,
            num_variables,
            variables_start,
            &XMatrixView { x: x2, num_nodes, num_variables, variables_start },
            dt,
        ),
{
}

/// Determinism of a round: equal netlists, stamped for equal steps around
/// iterates with equal entries, give the same contributions in the same
/// order.
pub proof fn lemma_assembly_deterministic(
    components: Seq<Component>,
    count: int,
    x1: &Vec<Scalar>,
    x2: &Vec<Scalar>,
    dt: Scalar,
)
    requires
        0 <= count <= components.len(),
        x1@ == x2@,
    ensures
        coefficients_of(components, count, x1, dt) == coefficients_of(components, count, x2, dt),
        sources_of(components, count, x1, dt) == sources_of(components, count, x2, dt),
    decreases count,
{
    if count > 0 {
        lemma_assembly_deterministic(components, count - 1, x1, x2, dt);
        let view = view_at(components, count - 1, x1);
        lemma_element_reads_entries(
            components[count - 1],
            view.num_nodes,
            view.num_variables,
            view.variables_start,
            x1,
            x2,
            dt,
        );
    }
}

/// Determinism of the update: equal netlists and solutions with equal
/// entries give the same formulas for the elements' state, and equal values
/// for them give equal elements.
pub proof fn lemma_update_deterministic(
    components: Seq<Component>,
    x1: &Vec<Scalar>,
    x2: &Vec<Scalar>,
    dt: Scalar,
    points1: Seq<OperatingPoint>,
    points2: Seq<OperatingPoint>,
)
    requires
        x1@ == x2@,
        points1 == points2,
    ensures
        readouts_of(components, x1, dt) == readouts_of(components, x2, dt),
        updated_all(components, points1) == updated_all(components, points2),
{
    assert forall|i: int| 0 <= i < components.len() implies components[i].next_state(
        &view_at(components, i, x1),
        dt,
    ) == components[i].next_state(&view_at(components, i, x2), dt) by {}
    assert(readouts_of(components, x1, dt) =~= readouts_of(components, x2, dt));
}

/// A circuit without diodes is linear: its system is the same around every
/// iterate, so each round of a step solves the system of the first round.
pub proof fn lemma_linear_assembly_is_constant(
    components: Seq<Component>,
    count: int,
    x1: &Vec<Scalar>,
    x2: &Vec<Scalar>,
    dt: Scalar,
)
    requires
        0 <= count <= components.len(),
        is_linear(components),
    ensures
        coefficients_of(components, count, x1, dt) == coefficients_of(components, count, x2, dt),
        sources_of(components, count, x1, dt) == sources_of(components, count, x2, dt),
    decreases count,
{
    if count > 0 {
        lemma_linear_assembly_is_constant(components, count - 1, x1, x2, dt);
        let view = view_at(components, count - 1, x1);
        lemma_element_reads_entries(
            components[count - 1],
            view.num_nodes,
            view.num_variables,
            view.variables_start,
            x1,
            x2,
            dt,
        );
    }
}

/// The largest change is below a positive bound exactly when the change of
/// every unknown is: a round has converged when no unknown moved by the
/// tolerance or more, and a change that is a NaN keeps it from converging.
pub proof fn lemma_largest_is_below(values: Seq<Scalar>, count: int, bound: Scalar)
    requires
        0 <= count <= values.len(),
        Scalar::zero_spec().lt_spec(bound),
    ensures
        largest_of(values, count).lt_spec(bound) <==> forall|i: int|
            0 <= i < count ==> (#[trigger] values[i]).lt_spec(bound),
    decreases count,
{
    if count > 0 {
        lemma_largest_is_below(values, count - 1, bound);
        let rest = largest_of(values, count - 1);
        let value = values[count - 1];
        if largest_of(values, count).lt_spec(bound) {
            assert forall|i: int| 0 <= i < count implies (#[trigger] values[i]).lt_spec(bound) by {
                if i == count - 1 {
                    assert(value.lt_spec(bound));
                }
            }
        }
        if forall|i: int| 0 <= i < count ==> (#[trigger] values[i]).lt_spec(bound) {
            assert(value.lt_spec(bound));
            assert(rest.lt_spec(bound));
        }
    }
}

} // verus!
