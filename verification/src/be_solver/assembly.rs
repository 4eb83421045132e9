//! The linear system of a Newton round, and the passes over the netlist
//! that make it and that read its solution.
//!
//! Each pass walks the elements in the order of the netlist. The auxiliary
//! unknowns are numbered along the way: those of the first element that has
//! any begin right after the nodes, those of the next right after them.
use vstd::prelude::*;
use crate::be_solver::matrix_view::{ABMatrixView, Coefficient, Source, XMatrixView};
use crate::be_solver::stampable::{OperatingPoint, Readout, Stampable};
use crate::components::{max_node_of, Component, Netlist};
use crate::scalar::Scalar;

verus! {

/// The number of auxiliary unknowns of the first `count` elements.
pub open spec fn variables_before(components: Seq<Component>, count: int) -> int
    decreases count,
{
    if count <= 0 {
        0
    } else {
        variables_before(components, count - 1) + components[count - 1].variables()
    }
}

/// The number of unknowns of the system: one per node besides the ground and
/// one per auxiliary unknown.
pub open spec fn dimension(components: Seq<Component>) -> int {
    max_node_of(components, components.len() as int) + variables_before(
        components,
        components.len() as int,
    )
}

/// Every element's parameters are accepted.
pub open spec fn all_valid(components: Seq<Component>) -> bool {
    forall|i: int| 0 <= i < components.len() ==> (#[trigger] components[i]).is_valid_spec()
}

/// The view of the iterate `x` that the element with index `index` is given:
/// its auxiliary unknowns begin after the nodes and after the auxiliary
/// unknowns of the elements before it.
pub open spec fn view_at<'a>(components: Seq<Component>, index: int, x: &'a Vec<Scalar>)
    -> XMatrixView<'a> {
    XMatrixView {
        x,
        num_nodes: max_node_of(components, components.len() as int),
        num_variables: components[index].variables(),
        variables_start: (max_node_of(components, components.len() as int) + variables_before(
            components,
            index,
        )) as usize,
    }
}

/// The contributions of the first `count` elements to the matrix of
/// coefficients, element after element in the order of the netlist.
pub open spec fn coefficients_of(
    components: Seq<Component>,
    count: int,
    x: &Vec<Scalar>,
    dt: Scalar,
) -> Seq<Coefficient>
    decreases count,
{
    if count <= 0 {
        Seq::empty()
    } else {
        let view = view_at(components, count - 1, x);
        coefficients_of(components, count - 1, x, dt) + components[count - 1].coefficients(
            view.num_nodes,
            view.num_variables,
            view.variables_start,
            &view,
            dt,
        )
    }
}

/// The contributions of the first `count` elements to the right-hand side,
/// element after element in the order of the netlist.
pub open spec fn sources_of(components: Seq<Component>, count: int, x: &Vec<Scalar>, dt: Scalar)
    -> Seq<Source>
    decreases count,
{
    if count <= 0 {
        Seq::empty()
    } else {
        let view = view_at(components, count - 1, x);
        sources_of(components, count - 1, x, dt) + components[count - 1].sources(
            view.num_nodes,
            view.num_variables,
            view.variables_start,
            &view,
            dt,
        )
    }
}

/// The linear system of one Newton round.
///
/// The matrix and the right-hand side start from `+0.0` everywhere; then
/// each contribution is evaluated and added to its entry, in the order of
/// the two lists.
#[derive(Debug, PartialEq, Eq)]
pub struct Assembly {
    /// The number of equations, and of unknowns.
    pub dimension: usize,
    /// The number of nodes besides the ground: the first rows and columns
    /// are theirs.
    pub num_nodes: usize,
    pub coefficients: Vec<Coefficient>,
    pub sources: Vec<Source>,
}

/// The first `count` elements use no node past `max_node_of`, and their
/// auxiliary unknowns are counted in `variables_before` of every longer
/// prefix.
pub proof fn lemma_prefix_bounds(components: Seq<Component>, index: int, count: int)
    requires
        0 <= index < count <= components.len(),
    ensures
        components[index].max_node_spec() <= max_node_of(components, count),
        0 <= variables_before(components, index),
        variables_before(components, index) + components[index].variables() <= variables_before(
            components,
            count,
        ),
    decreases count,
{
    if index + 1 < count {
        lemma_prefix_bounds(components, index, count - 1);
    } else {
        lemma_variables_nonnegative(components, index);
    }
}

/// A prefix has no negative number of auxiliary unknowns.
pub proof fn lemma_variables_nonnegative(components: Seq<Component>, count: int)
    ensures
        0 <= variables_before(components, count),
    decreases count,
{
    if count > 0 {
        lemma_variables_nonnegative(components, count - 1);
    }
}

/// The formulas for every element's state after a step of `dt` seconds that
/// ended in the solution `x`, element by element.
pub open spec fn readouts_of(components: Seq<Component>, x: &Vec<Scalar>, dt: Scalar) -> Seq<
    Readout,
> {
    Seq::new(
        components.len(),
        |i: int| components[i].next_state(&view_at(components, i, x), dt),
    )
}

/// Every element with its state set to the values of the same index.
pub open spec fn updated_all(components: Seq<Component>, points: Seq<OperatingPoint>) -> Seq<
    Component,
> {
    Seq::new(components.len(), |i: int| components[i].updated(points[i]))
}

/// Whether `assembly` is the system that the elements make around `x`.
pub open spec fn is_assembly_of(
    assembly: Assembly,
    components: Seq<Component>,
    x: &Vec<Scalar>,
    dt: Scalar,
) -> bool {
    &&& assembly.dimension == dimension(components)
    &&& assembly.num_nodes == max_node_of(components, components.len() as int)
    &&& assembly.coefficients@ == coefficients_of(components, components.len() as int, x, dt)
    &&& assembly.sources@ == sources_of(components, components.len() as int, x, dt)
}

/// The number of auxiliary unknowns of the netlist, if it can be counted.
pub fn count_variables(netlist: &Netlist) -> (count: Option<usize>)
    ensures
        match count {
            Some(n) => n == variables_before(netlist@, netlist@.len() as int),
            None => variables_before(netlist@, netlist@.len() as int) > usize::MAX,
        },
{
    let components = netlist.get_components();
    let mut count: usize = 0;
    let mut i: usize = 0;
    while i < components.len()
        invariant
            i <= components@.len(),
            components@ == netlist@,
            count == variables_before(components@, i as int),
        decreases components@.len() - i,
    {
        let more = components[i].num_variables();
        match count.checked_add(more) {
            Some(sum) => {
                count = sum;
            },
            None => {
                proof {
                    lemma_prefix_bounds(components@, i as int, components@.len() as int);
                }
                return None;
            },
        }
        i += 1;
    }
    Some(count)
}

/// Stamps every element, in the order of the netlist, around the iterate
/// `x`, for a step of `dt` seconds.
pub fn assemble(netlist: &Netlist, x: &Vec<Scalar>, dt: Scalar) -> (assembly: Assembly)
    requires
        x@.len() == dimension(netlist@),
    ensures
        is_assembly_of(assembly, netlist@, x, dt),
{
    let components = netlist.get_components();
    let num_nodes = netlist.get_num_nodes();
    let mut a: Vec<Coefficient> = Vec::new();
    let mut b: Vec<Source> = Vec::new();
    let size = x.len();
    let mut variables_start: usize = num_nodes;
    let mut i: usize = 0;
    proof {
        lemma_variables_nonnegative(components@, components@.len() as int);
    }
    while i < components.len()
        invariant
            i <= components@.len(),
            components@ == netlist@,
            num_nodes == max_node_of(components@, components@.len() as int),
            size == dimension(components@),
            x@.len() == size,
            variables_start == num_nodes + variables_before(components@, i as int),
            a@ == coefficients_of(components@, i as int, x, dt),
            b@ == sources_of(components@, i as int, x, dt),
        decreases components@.len() - i,
    {
        let c = &components[i];
        let num_variables = c.num_variables();
        proof {
            lemma_prefix_bounds(components@, i as int, components@.len() as int);
        }
        let op_point = XMatrixView::new(x, num_nodes, num_variables, variables_start);
        assert(op_point == view_at(components@, i as int, x));
        {
            let mut view = ABMatrixView::new(&mut a, &mut b, num_nodes, num_variables, variables_start);
            c.stamp(&mut view, &op_point, dt);
        }
        assert(variables_start + num_variables <= num_nodes + variables_before(
            components@,
            components@.len() as int,
        ));
        variables_start = variables_start + num_variables;
        i += 1;
    }
    Assembly { dimension: size, num_nodes, coefficients: a, sources: b }
}

/// Reads for every element, in the order of the netlist, what the solution
/// `x` of a step of `dt` seconds makes of its state.
pub fn readouts(netlist: &Netlist, x: &Vec<Scalar>, dt: Scalar) -> (readouts: Vec<Readout>)
    requires
        x@.len() == dimension(netlist@),
    ensures
        readouts@ == readouts_of(netlist@, x, dt),
{
    let components = netlist.get_components();
    let num_nodes = netlist.get_num_nodes();
    let mut readouts: Vec<Readout> = Vec::new();
    let size = x.len();
    let mut variables_start: usize = num_nodes;
    let mut i: usize = 0;
    proof {
        lemma_variables_nonnegative(components@, components@.len() as int);
    }
    while i < components.len()
        invariant
            i <= components@.len(),
            components@ == netlist@,
            num_nodes == max_node_of(components@, components@.len() as int),
            size == dimension(components@),
            x@.len() == size,
            variables_start == num_nodes + variables_before(components@, i as int),
            readouts@.len() == i,
            forall|k: int|
                0 <= k < i ==> readouts@[k] == components@[k].next_state(
                    &view_at(components@, k, x),
                    dt,
                ),
        decreases components@.len() - i,
    {
        let c = &components[i];
        let num_variables = c.num_variables();
        proof {
            lemma_prefix_bounds(components@, i as int, components@.len() as int);
        }
        let view = XMatrixView::new(x, num_nodes, num_variables, variables_start);
        assert(view == view_at(components@, i as int, x));
        readouts.push(c.readout(&view, dt));
        assert(variables_start + num_variables <= num_nodes + variables_before(
            components@,
            components@.len() as int,
        ));
        variables_start = variables_start + num_variables;
        i += 1;
    }
    assert(readouts@ =~= readouts_of(netlist@, x, dt));
    readouts
}

/// Whether every element's parameters are accepted.
pub fn validate(netlist: &Netlist) -> (valid: bool)
    ensures
        valid == all_valid(netlist@),
{
    let components = netlist.get_components();
    let mut i: usize = 0;
    while i < components.len()
        invariant
            i <= components@.len(),
            components@ == netlist@,
            forall|k: int| 0 <= k < i ==> (#[trigger] components@[k]).is_valid_spec(),
        decreases components@.len() - i,
    {
        if !components[i].is_valid() {
            return false;
        }
        i += 1;
    }
    true
}

/// Sets every element's state to the values of the same index.
pub fn update(netlist: &mut Netlist, points: &Vec<OperatingPoint>)
    requires
        points@.len() == old(netlist)@.len(),
    ensures
        final(netlist)@ == updated_all(old(netlist)@, points@),
{
    let components = netlist.get_components_mut();
    let ghost before = components@;
    let mut i: usize = 0;
    while i < components.len()
        invariant
            i <= components@.len(),
            components@.len() == before.len(),
            points@.len() == before.len(),
            forall|k: int| 0 <= k < i ==> components@[k] == before[k].updated(points@[k]),
            forall|k: int| i <= k < before.len() ==> components@[k] == before[k],
        decreases components@.len() - i,
    {
        let mut c = components[i];
        c.update(points[i]);
        components.set(i, c);
        i += 1;
    }
    assert(components@ =~= updated_all(before, points@));
}

} // verus!
