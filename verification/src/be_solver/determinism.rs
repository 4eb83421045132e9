//! A step is determined by the netlist, the length of the step and the
//! arithmetic: where the arithmetic gives one answer only, so does the
//! solver.
use vstd::prelude::*;
use crate::be_solver::assembly::{
    coefficients_of,
    dimension,
    readouts_of,
    sources_of,
    updated_all,
};
use crate::be_solver::laws::{lemma_assembly_deterministic, lemma_update_deterministic};
use crate::be_solver::matrix::ABMatrix;
use crate::be_solver::matrix_view::{Coefficient, Source};
use crate::be_solver::round::{
    are_values,
    change_formulas,
    is_point,
    largest_of,
    matrix_formulas,
    round_reports,
    side_formulas,
};
use crate::be_solver::solve::{broke_down, gave_up, is_solved_run, solved, solves};
use crate::be_solver::stampable::OperatingPoint;
use crate::be_solver::{unsettled, Outcome, TOLERANCE_BITS};
use crate::components::{max_node_of, Component};
use crate::expr::Expr;
use crate::scalar::Scalar;

verus! {

/// `value` gives every formula one value only.
pub open spec fn is_single_valued<E: Fn(&Expr) -> Scalar>(value: E) -> bool {
    forall|formula: &Expr, a: Scalar, b: Scalar|
        #![trigger value.ensures((formula,), a), value.ensures((formula,), b)]
        value.ensures((formula,), a) && value.ensures((formula,), b) ==> a == b
}

/// Two answers of a linear solver that agree: both find no solution, or
/// both find solutions with the same entries.
pub open spec fn same_solution(a: Option<Vec<Scalar>>, b: Option<Vec<Scalar>>) -> bool {
    match (a, b) {
        (None, None) => true,
        (Some(x), Some(y)) => x@ == y@,
        _ => false,
    }
}

/// `linear` answers by the entries of the system: systems with the same
/// entries get answers that agree.
pub open spec fn answers_by_entries<L: Fn(ABMatrix) -> Option<Vec<Scalar>>>(linear: L) -> bool {
    forall|s1: ABMatrix, s2: ABMatrix, a: Option<Vec<Scalar>>, b: Option<Vec<Scalar>>|
        #![trigger linear.ensures((s1,), a), linear.ensures((s2,), b)]
        linear.ensures((s1,), a) && linear.ensures((s2,), b) && s1.coefficients()
            == s2.coefficients() && s1.results() == s2.results() ==> same_solution(a, b)
}

/// Two outcomes of a round that agree: both singular, or both solved with
/// the same entries and the same change.
pub open spec fn same_outcome(a: Outcome, b: Outcome) -> bool {
    match (a, b) {
        (Outcome::Singular, Outcome::Singular) => true,
        (Outcome::Solved { x: x1, change: c1 }, Outcome::Solved { x: x2, change: c2 }) => x1@
            == x2@ && c1 == c2,
        _ => false,
    }
}

/// The values of a list of formulas are determined.
pub proof fn lemma_values_are_determined<E: Fn(&Expr) -> Scalar>(
    value: E,
    formulas: Seq<Expr>,
    first: Seq<Scalar>,
    second: Seq<Scalar>,
)
    requires
        is_single_valued(value),
        are_values(value, formulas, first),
        are_values(value, formulas, second),
    ensures
        first == second,
{
    assert forall|i: int| 0 <= i < first.len() implies first[i] == second[i] by {
        assert(value.ensures((&formulas[i],), first[i]));
        assert(value.ensures((&formulas[i],), second[i]));
    }
    assert(first =~= second);
}

/// The outcome of a round is determined by the system and the iterate.
pub proof fn lemma_round_is_determined<
    E: Fn(&Expr) -> Scalar,
    L: Fn(ABMatrix) -> Option<Vec<Scalar>>,
>(
    value: E,
    linear: L,
    size: usize,
    num_nodes: usize,
    coefficients: Seq<Coefficient>,
    sources: Seq<Source>,
    iterate: Seq<Scalar>,
    first: Outcome,
    second: Outcome,
)
    requires
        is_single_valued(value),
        answers_by_entries(linear),
        round_reports(value, linear, size, num_nodes, coefficients, sources, iterate, first),
        round_reports(value, linear, size, num_nodes, coefficients, sources, iterate, second),
    ensures
        same_outcome(first, second),
{
    let (s1, a1) = choose|system: ABMatrix, solution: Option<Vec<Scalar>>|
        {
            &&& #[trigger] linear.ensures((system,), solution)
            &&& system.num_nodes() == num_nodes
            &&& system.size() == size
            &&& are_values(value, matrix_formulas(coefficients, size as int), system.coefficients())
            &&& are_values(value, side_formulas(sources, size as int), system.results())
            &&& match solution {
                None => first is Singular,
                Some(x) => exists|changes: Seq<Scalar>|
                    {
                        &&& #[trigger] are_values(value, change_formulas(x@, iterate), changes)
                        &&& first == Outcome::Solved {
                            x,
                            change: largest_of(changes, changes.len() as int),
                        }
                    },
            }
        };
    let (s2, a2) = choose|system: ABMatrix, solution: Option<Vec<Scalar>>|
        {
            &&& #[trigger] linear.ensures((system,), solution)
            &&& system.num_nodes() == num_nodes
            &&& system.size() == size
            &&& are_values(value, matrix_formulas(coefficients, size as int), system.coefficients())
            &&& are_values(value, side_formulas(sources, size as int), system.results())
            &&& match solution {
                None => second is Singular,
                Some(x) => exists|changes: Seq<Scalar>|
                    {
                        &&& #[trigger] are_values(value, change_formulas(x@, iterate), changes)
                        &&& second == Outcome::Solved {
                            x,
                            change: largest_of(changes, changes.len() as int),
                        }
                    },
            }
        };
    lemma_values_are_determined(
        value,
        matrix_formulas(coefficients, size as int),
        s1.coefficients(),
        s2.coefficients(),
    );
    lemma_values_are_determined(
        value,
        side_formulas(sources, size as int),
        s1.results(),
        s2.results(),
    );
    assert(linear.ensures((s1,), a1) && linear.ensures((s2,), a2));
    assert(same_solution(a1, a2));
    if a1 is Some {
        let x1 = a1->0;
        let x2 = a2->0;
        let c1 = choose|changes: Seq<Scalar>|
            {
                &&& #[trigger] are_values(value, change_formulas(x1@, iterate), changes)
                &&& first == Outcome::Solved {
                    x: x1,
                    change: largest_of(changes, changes.len() as int),
                }
            };
        let c2 = choose|changes: Seq<Scalar>|
            {
                &&& #[trigger] are_values(value, change_formulas(x2@, iterate), changes)
                &&& second == Outcome::Solved {
                    x: x2,
                    change: largest_of(changes, changes.len() as int),
                }
            };
        lemma_values_are_determined(value, change_formulas(x1@, iterate), c1, c2);
    }
}

/// Two runs on one netlist go the same way as far as both go: their
/// iterates have the same entries and their changes are the same.
pub proof fn lemma_runs_agree<E: Fn(&Expr) -> Scalar, L: Fn(ABMatrix) -> Option<Vec<Scalar>>>(
    value: E,
    linear: L,
    components: Seq<Component>,
    dt: Scalar,
    iterates1: Seq<Vec<Scalar>>,
    changes1: Seq<Scalar>,
    iterates2: Seq<Vec<Scalar>>,
    changes2: Seq<Scalar>,
    rounds: int,
)
    requires
        is_single_valued(value),
        answers_by_entries(linear),
        is_solved_run(value, linear, components, dt, iterates1, changes1),
        is_solved_run(value, linear, components, dt, iterates2, changes2),
        0 <= rounds <= changes1.len(),
        rounds <= changes2.len(),
    ensures
        iterates1[rounds]@ == iterates2[rounds]@,
        forall|j: int| 0 <= j < rounds ==> changes1[j] == changes2[j],
    decreases rounds,
{
    if rounds > 0 {
        let k = rounds - 1;
        lemma_runs_agree(
            value,
            linear,
            components,
            dt,
            iterates1,
            changes1,
            iterates2,
            changes2,
            k,
        );
        lemma_assembly_deterministic(
            components,
            components.len() as int,
            &iterates1[k],
            &iterates2[k],
            dt,
        );
        let first = Outcome::Solved { x: iterates1[k + 1], change: changes1[k] };
        let second = Outcome::Solved { x: iterates2[k + 1], change: changes2[k] };
        assert(solves(value, linear, components, &iterates1[k], dt, first));
        assert(solves(value, linear, components, &iterates2[k], dt, second));
        lemma_round_is_determined(
            value,
            linear,
            dimension(components) as usize,
            max_node_of(components, components.len() as int),
            coefficients_of(components, components.len() as int, &iterates1[k], dt),
            sources_of(components, components.len() as int, &iterates1[k], dt),
            iterates1[k]@,
            first,
            second,
        );
    }
}

/// Determinism: two solved steps of one netlist, of the same length and
/// with the same arithmetic, take the same number of rounds and leave the
/// same elements, bit for bit.
pub proof fn lemma_solve_is_deterministic<
    E: Fn(&Expr) -> Scalar,
    L: Fn(ABMatrix) -> Option<Vec<Scalar>>,
>(
    value: E,
    linear: L,
    components: Seq<Component>,
    dt: Scalar,
    iterates1: Seq<Vec<Scalar>>,
    changes1: Seq<Scalar>,
    points1: Seq<OperatingPoint>,
    after1: Seq<Component>,
    iterates2: Seq<Vec<Scalar>>,
    changes2: Seq<Scalar>,
    points2: Seq<OperatingPoint>,
    after2: Seq<Component>,
)
    requires
        is_single_valued(value),
        answers_by_entries(linear),
        solved(value, linear, components, dt, iterates1, changes1, points1, after1),
        solved(value, linear, components, dt, iterates2, changes2, points2, after2),
    ensures
        changes1.len() == changes2.len(),
        after1 == after2,
{
    let n1 = changes1.len() as int;
    let n2 = changes2.len() as int;
    if n1 < n2 {
        lemma_runs_agree(
            value,
            linear,
            components,
            dt,
            iterates1,
            changes1,
            iterates2,
            changes2,
            n1,
        );
        assert(changes1[n1 - 1] == changes2[n1 - 1]);
        assert(false);
    }
    if n2 < n1 {
        lemma_runs_agree(
            value,
            linear,
            components,
            dt,
            iterates1,
            changes1,
            iterates2,
            changes2,
            n2,
        );
        assert(changes1[n2 - 1] == changes2[n2 - 1]);
        assert(false);
    }
    lemma_runs_agree(value, linear, components, dt, iterates1, changes1, iterates2, changes2, n1);
    lemma_update_deterministic(
        components,
        &iterates1.last(),
        &iterates2.last(),
        dt,
        points1,
        points1,
    );
    let readouts = readouts_of(components, &iterates1.last(), dt);
    assert forall|i: int| 0 <= i < points1.len() implies points1[i] == points2[i] by {
        assert(is_point(value, readouts[i], points1[i]));
        assert(is_point(value, readouts[i], points2[i]));
    }
    assert(points1 =~= points2);
}

/// A step ends one way only: a run that gave up or broke down did not also
/// converge, and a run that gave up did not also break down.
pub proof fn lemma_step_ends_one_way<
    E: Fn(&Expr) -> Scalar,
    L: Fn(ABMatrix) -> Option<Vec<Scalar>>,
>(
    value: E,
    linear: L,
    components: Seq<Component>,
    dt: Scalar,
    iterates1: Seq<Vec<Scalar>>,
    changes1: Seq<Scalar>,
    iterates2: Seq<Vec<Scalar>>,
    changes2: Seq<Scalar>,
    points: Seq<OperatingPoint>,
    after: Seq<Component>,
    last: Seq<Scalar>,
)
    requires
        is_single_valued(value),
        answers_by_entries(linear),
    ensures
        !(solved(value, linear, components, dt, iterates1, changes1, points, after) && gave_up(
            value,
            linear,
            components,
            dt,
            iterates2,
            changes2,
            last,
        )),
        !(solved(value, linear, components, dt, iterates1, changes1, points, after) && broke_down(
            value,
            linear,
            components,
            dt,
            iterates2,
            changes2,
        )),
        !(gave_up(value, linear, components, dt, iterates1, changes1, last) && broke_down(
            value,
            linear,
            components,
            dt,
            iterates2,
            changes2,
        )),
{
    let n1 = changes1.len() as int;
    let n2 = changes2.len() as int;
    if is_solved_run(value, linear, components, dt, iterates1, changes1) && is_solved_run(
        value,
        linear,
        components,
        dt,
        iterates2,
        changes2,
    ) {
        let both = if n1 <= n2 {
            n1
        } else {
            n2
        };
        lemma_runs_agree(
            value,
            linear,
            components,
            dt,
            iterates1,
            changes1,
            iterates2,
            changes2,
            both,
        );
        if n1 >= 1 && n1 <= n2 {
            assert(changes1[n1 - 1] == changes2[n1 - 1]);
        }
        if n2 < n1 {
            // The second run ended in a singular matrix where the first went on.
            lemma_assembly_deterministic(
                components,
                components.len() as int,
                &iterates1[n2],
                &iterates2[n2],
                dt,
            );
            let went_on = Outcome::Solved { x: iterates1[n2 + 1], change: changes1[n2] };
            assert(solves(value, linear, components, &iterates1[n2], dt, went_on));
            if solves(value, linear, components, &iterates2.last(), dt, Outcome::Singular) {
                lemma_round_is_determined(
                    value,
                    linear,
                    dimension(components) as usize,
                    max_node_of(components, components.len() as int),
                    coefficients_of(components, components.len() as int, &iterates1[n2], dt),
                    sources_of(components, components.len() as int, &iterates1[n2], dt),
                    iterates1[n2]@,
                    went_on,
                    Outcome::Singular,
                );
            }
        }
    }
}

} // verus!
