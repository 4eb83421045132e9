//! A whole timestep, around an arithmetic of the caller.
use vstd::prelude::*;
use crate::be_solver::assembly::{
    all_valid,
    coefficients_of,
    count_variables,
    dimension,
    is_assembly_of,
    lemma_variables_nonnegative,
    readouts_of,
    sources_of,
    updated_all,
    Assembly,
};
use crate::be_solver::matrix::ABMatrix;
use crate::be_solver::round::{is_point, point_with, round_reports, round_with};
use crate::be_solver::stampable::{OperatingPoint, Readout};
use crate::be_solver::{
    ends_converged,
    ends_singular,
    ends_unsettled,
    reports,
    unsettled,
    BESolver,
    Outcome,
    Phase,
    SolveError,
    MAX_ITERATIONS,
    TOLERANCE_BITS,
};
use crate::components::{max_node_of, Component};
use crate::expr::Expr;
use crate::scalar::Scalar;

verus! {

/// Whether the system of the netlist can be held as a dense matrix.
pub open spec fn is_dense(components: Seq<Component>) -> bool {
    dimension(components) * dimension(components) <= usize::MAX
}

/// Whether a round of the solver around `iterate` may end in `outcome`: a
/// round on the system that the elements make around `iterate`.
pub open spec fn solves<E: Fn(&Expr) -> Scalar, L: Fn(ABMatrix) -> Option<Vec<Scalar>>>(
    value: E,
    linear: L,
    components: Seq<Component>,
    iterate: &Vec<Scalar>,
    dt: Scalar,
    outcome: Outcome,
) -> bool {
    round_reports(
        value,
        linear,
        dimension(components) as usize,
        max_node_of(components, components.len() as int),
        coefficients_of(components, components.len() as int, iterate, dt),
        sources_of(components, components.len() as int, iterate, dt),
        iterate@,
        outcome,
    )
}

/// Whether `iterates` is a run of rounds of the solver: it starts from
/// `+0.0` everywhere, and each further iterate is the solution of a round
/// around the iterate before it, with the change of the same index.
pub open spec fn is_solved_run<E: Fn(&Expr) -> Scalar, L: Fn(ABMatrix) -> Option<Vec<Scalar>>>(
    value: E,
    linear: L,
    components: Seq<Component>,
    dt: Scalar,
    iterates: Seq<Vec<Scalar>>,
    changes: Seq<Scalar>,
) -> bool {
    &&& iterates.len() == changes.len() + 1
    &&& iterates[0]@ == Seq::new(dimension(components) as nat, |i: int| Scalar::zero_spec())
    &&& forall|k: int|
        0 <= k < changes.len() ==> solves(
            value,
            linear,
            components,
            &iterates[k],
            dt,
            Outcome::Solved { x: #[trigger] iterates[k + 1], change: changes[k] },
        )
}

/// A run that converged in its last round, with values of the formulas of
/// the elements' new state and the elements `after` the update.
pub open spec fn solved<E: Fn(&Expr) -> Scalar, L: Fn(ABMatrix) -> Option<Vec<Scalar>>>(
    value: E,
    linear: L,
    components: Seq<Component>,
    dt: Scalar,
    iterates: Seq<Vec<Scalar>>,
    changes: Seq<Scalar>,
    points: Seq<OperatingPoint>,
    after: Seq<Component>,
) -> bool {
    &&& is_solved_run(value, linear, components, dt, iterates, changes)
    &&& 1 <= changes.len() <= MAX_ITERATIONS
    &&& unsettled(changes, changes.len() - 1)
    &&& changes.last().lt_spec(Scalar { bits: TOLERANCE_BITS })
    &&& points.len() == components.len()
    &&& forall|i: int|
        0 <= i < points.len() ==> is_point(
            value,
            readouts_of(components, &iterates.last(), dt)[i],
            #[trigger] points[i],
        )
    &&& after == updated_all(components, points)
}

/// A run of 1000 rounds none of which converged, with the entries of its
/// last iterate.
pub open spec fn gave_up<E: Fn(&Expr) -> Scalar, L: Fn(ABMatrix) -> Option<Vec<Scalar>>>(
    value: E,
    linear: L,
    components: Seq<Component>,
    dt: Scalar,
    iterates: Seq<Vec<Scalar>>,
    changes: Seq<Scalar>,
    last: Seq<Scalar>,
) -> bool {
    &&& is_solved_run(value, linear, components, dt, iterates, changes)
    &&& changes.len() == MAX_ITERATIONS
    &&& unsettled(changes, changes.len() as int)
    &&& last == iterates.last()@
}

/// A run of fewer than 1000 rounds none of which converged, after which a
/// round found the matrix singular.
pub open spec fn broke_down<E: Fn(&Expr) -> Scalar, L: Fn(ABMatrix) -> Option<Vec<Scalar>>>(
    value: E,
    linear: L,
    components: Seq<Component>,
    dt: Scalar,
    iterates: Seq<Vec<Scalar>>,
    changes: Seq<Scalar>,
) -> bool {
    &&& is_solved_run(value, linear, components, dt, iterates, changes)
    &&& changes.len() < MAX_ITERATIONS
    &&& unsettled(changes, changes.len() as int)
    &&& solves(value, linear, components, &iterates.last(), dt, Outcome::Singular)
}

impl<'n> BESolver<'n> {
    /// Solves the system for the next timestep `dt`, with the arithmetic of
    /// the caller: `value` evaluates a formula, and `linear` solves a dense
    /// linear system or finds that its matrix is singular.
    ///
    /// A netlist with an element whose parameters are not accepted, or
    /// whose system is too large for a dense matrix, is refused. The Newton
    /// loop starts from zero, feeds each solution into the next round and
    /// ends with the first round that converges, that finds a singular
    /// matrix, or that is the 1000th. The elements are updated if and only
    /// if the loop converges.
    pub fn solve<E, L>(&mut self, dt: Scalar, value: &E, linear: &L) -> (result: Result<
        (),
        SolveError,
    >) where E: Fn(&Expr) -> Scalar, L: Fn(ABMatrix) -> Option<Vec<Scalar>>
        requires
            forall|formula: &Expr| value.requires((formula,)),
            forall|system: ABMatrix| linear.requires((system,)),
            forall|system: ABMatrix, solution: Option<Vec<Scalar>>|
                linear.ensures((system,), solution) ==> (solution matches Some(x) ==> x@.len()
                    == system.size()),
        ensures
            *final(final(self).netlist) == *final(old(self).netlist),
            final(self).phase() == Phase::Idle,
            result is Err ==> final(self).components() == old(self).components(),
            result matches Err(SolveError::InvalidNetlist) <==> !all_valid(old(self).components())
                || !is_dense(old(self).components()),
            all_valid(old(self).components()) && dimension(old(self).components()) == 0 ==> {
                &&& result is Ok
                &&& final(self).components() == old(self).components()
            },
            result is Ok && dimension(old(self).components()) != 0 ==> exists|
                iterates: Seq<Vec<Scalar>>,
                changes: Seq<Scalar>,
                points: Seq<OperatingPoint>,
            |
                #[trigger] solved(
                    *value,
                    *linear,
                    old(self).components(),
                    dt,
                    iterates,
                    changes,
                    points,
                    final(self).components(),
                ),
            result matches Err(SolveError::NonConvergence(last)) ==> exists|
                iterates: Seq<Vec<Scalar>>,
                changes: Seq<Scalar>,
            |
                #[trigger] gave_up(
                    *value,
                    *linear,
                    old(self).components(),
                    dt,
                    iterates,
                    changes,
                    last@,
                ),
            result matches Err(SolveError::SingularMatrix) ==> exists|
                iterates: Seq<Vec<Scalar>>,
                changes: Seq<Scalar>,
            |
                #[trigger] broke_down(
                    *value,
                    *linear,
                    old(self).components(),
                    dt,
                    iterates,
                    changes,
                ),
    {
        let ghost components = self.components();
        proof {
            lemma_variables_nonnegative(components, components.len() as int);
        }
        let netlist = self.get_netlist();
        let dense = match count_variables(netlist) {
            Some(num_variables) => match netlist.get_num_nodes().checked_add(num_variables) {
                Some(size) => size.checked_mul(size).is_some(),
                None => false,
            },
            None => false,
        };
        if !dense {
            assert(!is_dense(components)) by (nonlinear_arith)
                requires
                    dimension(components) > usize::MAX || dimension(components) * dimension(
                        components,
                    ) > usize::MAX,
                    dimension(components) >= 0,
            ;
            self.abandon();
            return Err(SolveError::InvalidNetlist);
        }
        assert(dimension(components) <= usize::MAX) by (nonlinear_arith)
            requires
                is_dense(components),
                dimension(components) >= 0,
        ;
        let round = |assembly: &Assembly, iterate: &Vec<Scalar>| -> (outcome: Outcome)
            requires
                assembly.num_nodes <= assembly.dimension,
                assembly.dimension * assembly.dimension <= usize::MAX,
                iterate@.len() == assembly.dimension,
            ensures
                round_reports(
                    *value,
                    *linear,
                    assembly.dimension,
                    assembly.num_nodes,
                    assembly.coefficients@,
                    assembly.sources@,
                    iterate@,
                    outcome,
                ),
                outcome matches Outcome::Solved { x, .. } ==> x@.len() == assembly.dimension,
            { round_with(assembly, iterate, value, linear) };
        let point = |readout: &Readout| -> (point: OperatingPoint)
            ensures
                is_point(*value, *readout, point),
            { point_with(readout, value) };
        let result = self.newton(dt, round, point);
        proof {
            assert forall|iterate: &Vec<Scalar>, outcome: Outcome|
                reports(round, components, iterate, dt, outcome) implies solves(
                *value,
                *linear,
                components,
                iterate,
                dt,
                outcome,
            ) by {
                let assembly = choose|assembly: &Assembly|
                    is_assembly_of(*assembly, components, iterate, dt) && #[trigger] round.ensures(
                        (assembly, iterate),
                        outcome,
                    );
                assert(round.ensures((assembly, iterate), outcome));
            }
            match &result {
                Ok(_) => {
                    if dimension(components) != 0 {
                        let (iterates, changes, points) = choose|
                            iterates: Seq<Vec<Scalar>>,
                            changes: Seq<Scalar>,
                            points: Seq<OperatingPoint>,
                        |
                            #[trigger] ends_converged(
                                round,
                                point,
                                components,
                                dt,
                                iterates,
                                changes,
                                points,
                                self.components(),
                            );
                        assert(is_solved_run(*value, *linear, components, dt, iterates, changes));
                        let readouts = readouts_of(components, &iterates.last(), dt);
                        assert forall|i: int| 0 <= i < points.len() implies is_point(
                            *value,
                            readouts[i],
                            #[trigger] points[i],
                        ) by {
                            assert(point.ensures((&readouts[i],), points[i]));
                        }
                        assert(solved(
                            *value,
                            *linear,
                            components,
                            dt,
                            iterates,
                            changes,
                            points,
                            self.components(),
                        ));
                    }
                },
                Err(SolveError::NonConvergence(last)) => {
                    let (iterates, changes) = choose|
                        iterates: Seq<Vec<Scalar>>,
                        changes: Seq<Scalar>,
                    |
                        #[trigger] ends_unsettled(
                            round,
                            components,
                            dt,
                            iterates,
                            changes,
                            last@,
                        );
                    assert(is_solved_run(*value, *linear, components, dt, iterates, changes));
                    assert(gave_up(*value, *linear, components, dt, iterates, changes, last@));
                },
                Err(SolveError::SingularMatrix) => {
                    let (iterates, changes) = choose|
                        iterates: Seq<Vec<Scalar>>,
                        changes: Seq<Scalar>,
                    |
                        #[trigger] ends_singular(round, components, dt, iterates, changes);
                    assert(is_solved_run(*value, *linear, components, dt, iterates, changes));
                    assert(broke_down(*value, *linear, components, dt, iterates, changes));
                },
                Err(SolveError::InvalidNetlist) => {},
            }
        }
        result
    }
}

} // verus!
