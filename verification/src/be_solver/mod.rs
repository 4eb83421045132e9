//! The Backward Euler solver: how one timestep proceeds.
//!
//! A step is a Newton loop. Each round the elements are stamped around the
//! current iterate, the linear system is solved, and the new iterate is
//! compared with the old one. The solver decides what happens next; the
//! arithmetic is the caller's.
//!
//! The solver can be driven at three levels. Step by step, the caller is
//! told what to do by a [`Step`] and reports back with an [`Outcome`]
//! ([`BESolver::begin`], [`BESolver::advance`], [`BESolver::finish`]). With
//! [`BESolver::newton`] the solver runs the loop itself and calls the caller
//! for each round. With [`BESolver::solve`] it runs the rounds too, and
//! calls the caller only to evaluate a formula and to solve a dense system.
pub mod matrix;
pub mod matrix_view;
pub mod stampable;
pub mod assembly;
pub mod round;
pub mod solve;
pub mod laws;
pub mod determinism;

use vstd::prelude::*;
use crate::be_solver::assembly::{
    all_valid,
    assemble,
    count_variables,
    dimension,
    is_assembly_of,
    lemma_variables_nonnegative,
    readouts,
    readouts_of,
    update,
    updated_all,
    validate,
    Assembly,
};
use crate::be_solver::stampable::{OperatingPoint, Readout};
use crate::components::{max_node_of, Component, Netlist};
use crate::scalar::{zeros, Scalar};

verus! {

/// The number of Newton rounds after which a step is given up.
pub const MAX_ITERATIONS: usize = 1000;

/// The pattern of `1e-4`: a round has converged when the relative change of
/// the iterate is less than this.
pub const TOLERANCE_BITS: u64 = 0x3F1A_36E2_EB1C_432D;

/// Why a step failed.
#[derive(Debug, PartialEq, Eq)]
pub enum SolveError {
    /// The matrix of some round has no inverse.
    SingularMatrix,
    /// The rounds did not converge; the last iterate is attached.
    NonConvergence(Vec<Scalar>),
    /// An element's parameter is not accepted, or the node ids are so large
    /// that the system cannot be indexed or, where a dense matrix is asked
    /// for, cannot be held as one.
    InvalidNetlist,
}

/// Where a solver stands.
#[derive(Debug, Clone, Copy, PartialEq, Eq, Structural)]
pub enum Phase {
    /// Between two steps.
    Idle,
    /// In the Newton loop, waiting for the outcome of a round.
    Iterating,
    /// Past the Newton loop, waiting for the values of the elements' state.
    Converged,
}

/// Whether `assembly` and `iterate` have the shape of a system of the
/// netlist and of an iterate for it.
pub open spec fn fits(assembly: Assembly, iterate: Seq<Scalar>, components: Seq<Component>)
    -> bool {
    &&& assembly.dimension == dimension(components)
    &&& assembly.num_nodes == max_node_of(components, components.len() as int)
    &&& iterate.len() == dimension(components)
}

/// Whether `round` may report `outcome` for the system that the elements
/// make around `iterate`.
pub open spec fn reports<R: Fn(&Assembly, &Vec<Scalar>) -> Outcome>(
    round: R,
    components: Seq<Component>,
    iterate: &Vec<Scalar>,
    dt: Scalar,
    outcome: Outcome,
) -> bool {
    exists|assembly: &Assembly|
        is_assembly_of(*assembly, components, iterate, dt) && #[trigger] round.ensures(
            (assembly, iterate),
            outcome,
        )
}

/// Whether `iterates` is a run of Newton rounds: it starts from `+0.0`
/// everywhere, and each further iterate is a solution that `round` reported
/// for the system around the iterate before it, together with the change of
/// the same index.
pub open spec fn is_run<R: Fn(&Assembly, &Vec<Scalar>) -> Outcome>(
    round: R,
    components: Seq<Component>,
    dt: Scalar,
    iterates: Seq<Vec<Scalar>>,
    changes: Seq<Scalar>,
) -> bool {
    &&& iterates.len() == changes.len() + 1
    &&& iterates[0]@ == Seq::new(dimension(components) as nat, |i: int| Scalar::zero_spec())
    &&& forall|k: int|
        0 <= k < changes.len() ==> reports(
            round,
            components,
            &iterates[k],
            dt,
            Outcome::Solved { x: #[trigger] iterates[k + 1], change: changes[k] },
        )
}

/// None of the first `count` changes is less than the tolerance.
pub open spec fn unsettled(changes: Seq<Scalar>, count: int) -> bool {
    forall|k: int|
        0 <= k < count ==> !(#[trigger] changes[k]).lt_spec(Scalar { bits: TOLERANCE_BITS })
}

/// Whether `points` holds, for each formula pair of `readouts`, values that
/// `point` may give for it.
pub open spec fn are_points<P: Fn(&Readout) -> OperatingPoint>(
    point: P,
    readouts: Seq<Readout>,
    points: Seq<OperatingPoint>,
) -> bool {
    &&& points.len() == readouts.len()
    &&& forall|i: int|
        0 <= i < points.len() ==> point.ensures((&readouts[i],), #[trigger] points[i])
}

/// A run that converged in its last round, with the values that `point`
/// gave for the elements' new state and the elements `after` the update.
pub open spec fn ends_converged<
    R: Fn(&Assembly, &Vec<Scalar>) -> Outcome,
    P: Fn(&Readout) -> OperatingPoint,
>(
    round: R,
    point: P,
    components: Seq<Component>,
    dt: Scalar,
    iterates: Seq<Vec<Scalar>>,
    changes: Seq<Scalar>,
    points: Seq<OperatingPoint>,
    after: Seq<Component>,
) -> bool {
    &&& is_run(round, components, dt, iterates, changes)
    &&& 1 <= changes.len() <= MAX_ITERATIONS
    &&& unsettled(changes, changes.len() - 1)
    &&& changes.last().lt_spec(Scalar { bits: TOLERANCE_BITS })
    &&& are_points(point, readouts_of(components, &iterates.last(), dt), points)
    &&& after == updated_all(components, points)
}

/// A run of 1000 rounds none of which converged, with the entries of its
/// last iterate.
pub open spec fn ends_unsettled<R: Fn(&Assembly, &Vec<Scalar>) -> Outcome>(
    round: R,
    components: Seq<Component>,
    dt: Scalar,
    iterates: Seq<Vec<Scalar>>,
    changes: Seq<Scalar>,
    last: Seq<Scalar>,
) -> bool {
    &&& is_run(round, components, dt, iterates, changes)
    &&& changes.len() == MAX_ITERATIONS
    &&& unsettled(changes, changes.len() as int)
    &&& last == iterates.last()@
}

/// A run of fewer than 1000 rounds none of which converged, after which
/// `round` reported a singular matrix.
pub open spec fn ends_singular<R: Fn(&Assembly, &Vec<Scalar>) -> Outcome>(
    round: R,
    components: Seq<Component>,
    dt: Scalar,
    iterates: Seq<Vec<Scalar>>,
    changes: Seq<Scalar>,
) -> bool {
    &&& is_run(round, components, dt, iterates, changes)
    &&& changes.len() < MAX_ITERATIONS
    &&& unsettled(changes, changes.len() as int)
    &&& reports(round, components, &iterates.last(), dt, Outcome::Singular)
}

/// What the caller is to do next.
#[derive(Debug, PartialEq, Eq)]
pub enum Step {
    /// Nothing: the circuit has no unknowns, or the step is complete.
    Done,
    /// Evaluate this system, solve it, and report the outcome to
    /// [`BESolver::advance`].
    Solve(Assembly),
    /// The iterate has converged. Evaluate these formulas, one pair for each
    /// element in the order of the netlist, and hand their values to
    /// [`BESolver::finish`].
    Update(Vec<Readout>),
}

/// How a round of the Newton loop ended.
#[derive(Debug, PartialEq, Eq)]
pub enum Outcome {
    /// The matrix has no inverse.
    Singular,
    /// The system has the solution `x`; `change` is the largest relative
    /// change of an unknown from the iterate that the round began with.
    Solved { x: Vec<Scalar>, change: Scalar },
}

/// How far the Newton loop of a solver has come.
pub struct Progress {
    phase: Phase,
    dt: Scalar,
    x: Vec<Scalar>,
    iteration: usize,
}

impl Progress {
    pub closed spec fn phase(&self) -> Phase {
        self.phase
    }

    /// The length of the step that is under way.
    pub closed spec fn dt(&self) -> Scalar {
        self.dt
    }

    /// The current iterate.
    pub closed spec fn iterate(&self) -> Vec<Scalar> {
        self.x
    }

    /// The number of rounds of the step under way that did not converge.
    pub closed spec fn iteration(&self) -> usize {
        self.iteration
    }
}

/// A Backward Euler method solver for solving transient circuits.
///
/// The solver holds the netlist for as long as it lives; what its steps
/// make of the elements is what the netlist holds afterwards.
pub struct BESolver<'n> {
    pub netlist: &'n mut Netlist,
    pub progress: Progress,
}

impl<'n> BESolver<'n> {
    /// The elements of the netlist that the solver works on, as they stand.
    pub open spec fn components(&self) -> Seq<Component> {
        self.netlist@
    }

    pub open spec fn phase(&self) -> Phase {
        self.progress.phase()
    }

    /// The length of the step that is under way.
    pub open spec fn dt(&self) -> Scalar {
        self.progress.dt()
    }

    /// The current iterate of the Newton loop.
    pub open spec fn iterate(&self) -> Vec<Scalar> {
        self.progress.iterate()
    }

    /// The number of rounds of the step under way that did not converge.
    pub open spec fn iteration(&self) -> usize {
        self.progress.iteration()
    }

    /// Creates a new solver for a netlist.
    pub fn new(netlist: &'n mut Netlist) -> (solver: Self)
        ensures
            solver.components() == old(netlist)@,
            solver.phase() == Phase::Idle,
            *final(solver.netlist) == *final(netlist),
    {
        Self {
            netlist,
            progress: Progress { phase: Phase::Idle, dt: Scalar::zero(), x: Vec::new(), iteration: 0 },
        }
    }

    pub fn get_phase(&self) -> (phase: Phase)
        ensures
            phase == self.phase(),
    {
        self.progress.phase
    }

    /// The elements of the netlist, as they stand.
    pub fn get_netlist(&self) -> (netlist: &Netlist)
        ensures
            netlist@ == self.components(),
    {
        &*self.netlist
    }

    /// The current iterate of the Newton loop.
    pub fn get_iterate(&self) -> (x: &Vec<Scalar>)
        ensures
            *x == self.iterate(),
    {
        &self.progress.x
    }

    /// Begins a step of `dt` seconds.
    ///
    /// A netlist with an element whose parameters are not accepted, or whose
    /// system is too large to index, is refused. A netlist without unknowns
    /// has nothing to solve. Otherwise the Newton loop starts from the
    /// iterate that is `+0.0` everywhere. No element is changed.
    pub fn begin(&mut self, dt: Scalar) -> (step: Result<Step, SolveError>)
        ensures
            *final(final(self).netlist) == *final(old(self).netlist),
            final(self).components() == old(self).components(),
            match step {
                Err(e) => {
                    &&& e is InvalidNetlist
                    &&& !all_valid(old(self).components()) || dimension(old(self).components())
                        > usize::MAX
                    &&& final(self).phase() == Phase::Idle
                },
                Ok(Step::Done) => {
                    &&& all_valid(old(self).components())
                    &&& dimension(old(self).components()) == 0
                    &&& final(self).phase() == Phase::Idle
                },
                Ok(Step::Solve(assembly)) => {
                    &&& all_valid(old(self).components())
                    &&& 0 < dimension(old(self).components()) <= usize::MAX
                    &&& final(self).phase() == Phase::Iterating
                    &&& final(self).dt() == dt
                    &&& final(self).iteration() == 0
                    &&& final(self).iterate()@ == Seq::new(
                        dimension(old(self).components()) as nat,
                        |i: int| Scalar::zero_spec(),
                    )
                    &&& is_assembly_of(
                        assembly,
                        old(self).components(),
                        &final(self).iterate(),
                        dt,
                    )
                },
                Ok(Step::Update(_)) => false,
            },
    {
        self.progress.phase = Phase::Idle;
        if !validate(self.netlist) {
            return Err(SolveError::InvalidNetlist);
        }
        let num_nodes = self.netlist.get_num_nodes();
        proof {
            lemma_variables_nonnegative(self.netlist@, self.netlist@.len() as int);
        }
        let size = match count_variables(self.netlist) {
            Some(num_variables) => match num_nodes.checked_add(num_variables) {
                Some(size) => size,
                None => {
                    return Err(SolveError::InvalidNetlist);
                },
            },
            None => {
                return Err(SolveError::InvalidNetlist);
            },
        };
        if size == 0 {
            return Ok(Step::Done);
        }
        self.progress.dt = dt;
        self.progress.iteration = 0;
        self.progress.x = zeros(size);
        self.progress.phase = Phase::Iterating;
        Ok(Step::Solve(assemble(self.netlist, &self.progress.x, dt)))
    }

    /// Takes the outcome of a round and decides how the step goes on.
    ///
    /// A singular matrix ends the step. A solution becomes the iterate; if
    /// its relative change is less than `1e-4` the loop has converged and the
    /// elements' new state is asked for; if not, the loop goes into its next
    /// round, unless that would be round 1000, in which case the step ends
    /// without convergence. No element is changed.
    pub fn advance(&mut self, outcome: Outcome) -> (step: Result<Step, SolveError>)
        requires
            old(self).phase() == Phase::Iterating,
            outcome matches Outcome::Solved { x, .. } ==> x@.len() == dimension(
                old(self).components(),
            ),
        ensures
            *final(final(self).netlist) == *final(old(self).netlist),
            final(self).components() == old(self).components(),
            final(self).dt() == old(self).dt(),
            match outcome {
                Outcome::Singular => {
                    &&& step matches Err(e) && e is SingularMatrix
                    &&& final(self).phase() == Phase::Idle
                },
                Outcome::Solved { x, change } => {
                    &&& final(self).iterate() == x
                    &&& if change.lt_spec(Scalar { bits: TOLERANCE_BITS }) {
                        &&& step matches Ok(Step::Update(readouts)) && readouts@ == readouts_of(
                            old(self).components(),
                            &x,
                            old(self).dt(),
                        )
                        &&& final(self).phase() == Phase::Converged
                    } else if old(self).iteration() + 1 >= MAX_ITERATIONS {
                        &&& step matches Err(SolveError::NonConvergence(last)) && last@ == x@
                        &&& final(self).phase() == Phase::Idle
                    } else {
                        &&& step matches Ok(Step::Solve(assembly)) && is_assembly_of(
                            assembly,
                            old(self).components(),
                            &x,
                            old(self).dt(),
                        )
                        &&& final(self).phase() == Phase::Iterating
                        &&& final(self).iteration() == old(self).iteration() + 1
                    }
                },
            },
    {
        match outcome {
            Outcome::Singular => {
                self.progress.phase = Phase::Idle;
                Err(SolveError::SingularMatrix)
            },
            Outcome::Solved { x, change } => {
                self.progress.x = x;
                if change.is_less_than(Scalar::from_bits(TOLERANCE_BITS)) {
                    self.progress.phase = Phase::Converged;
                    Ok(Step::Update(readouts(self.netlist, &self.progress.x, self.progress.dt)))
                } else if self.progress.iteration >= MAX_ITERATIONS - 1 {
                    self.progress.phase = Phase::Idle;
                    Err(SolveError::NonConvergence(copy_of(&self.progress.x)))
                } else {
                    self.progress.iteration = self.progress.iteration + 1;
                    Ok(Step::Solve(assemble(self.netlist, &self.progress.x, self.progress.dt)))
                }
            },
        }
    }

    /// Runs the Newton loop of a step of `dt` seconds with rounds of the
    /// caller: `round` evaluates and solves the system of one round, given
    /// the iterate that the round begins with, and `point` evaluates the
    /// formulas of one element's new state.
    ///
    /// The loop starts from zero, feeds each solution into the next round
    /// and ends with the first round that converges, that reports a singular
    /// matrix, or that is the 1000th. The elements are updated if and only if
    /// the loop converges.
    pub fn newton<R, P>(&mut self, dt: Scalar, round: R, point: P) -> (result: Result<
        (),
        SolveError,
    >) where R: Fn(&Assembly, &Vec<Scalar>) -> Outcome, P: Fn(&Readout) -> OperatingPoint
        requires
            forall|assembly: &Assembly, iterate: &Vec<Scalar>|
                fits(*assembly, iterate@, old(self).components()) ==> round.requires(
                    (assembly, iterate),
                ),
            forall|assembly: &Assembly, iterate: &Vec<Scalar>, outcome: Outcome|
                round.ensures((assembly, iterate), outcome) ==> (outcome matches Outcome::Solved {
                    x,
                    ..
                } ==> x@.len() == assembly.dimension),
            forall|readout: &Readout| point.requires((readout,)),
        ensures
            *final(final(self).netlist) == *final(old(self).netlist),
            final(self).phase() == Phase::Idle,
            result is Err ==> final(self).components() == old(self).components(),
            result matches Err(SolveError::InvalidNetlist) <==> !all_valid(old(self).components())
                || dimension(old(self).components()) > usize::MAX,
            all_valid(old(self).components()) && dimension(old(self).components()) == 0 ==> {
                &&& result is Ok
                &&& final(self).components() == old(self).components()
            },
            result is Ok && dimension(old(self).components()) != 0 ==> exists|
                iterates: Seq<Vec<Scalar>>,
                changes: Seq<Scalar>,
                points: Seq<OperatingPoint>,
            |
                #[trigger] ends_converged(
                    round,
                    point,
                    old(self).components(),
                    dt,
                    iterates,
                    changes,
                    points,
                    final(self).components(),
                ),
            result matches Err(SolveError::NonConvergence(last)) ==> exists|
                iterates: Seq<Vec<Scalar>>,
                changes: Seq<Scalar>,
            |
                #[trigger] ends_unsettled(
                    round,
                    old(self).components(),
                    dt,
                    iterates,
                    changes,
                    last@,
                ),
            result matches Err(SolveError::SingularMatrix) ==> exists|
                iterates: Seq<Vec<Scalar>>,
                changes: Seq<Scalar>,
            |
                #[trigger] ends_singular(round, old(self).components(), dt, iterates, changes),
    {
        let mut step = match self.begin(dt) {
            Ok(step) => step,
            Err(e) => {
                return Err(e);
            },
        };
        let ghost mut iterates: Seq<Vec<Scalar>> = seq![self.progress.x];
        let ghost mut changes: Seq<Scalar> = Seq::empty();
        loop
            invariant
                *final(self.netlist) == *final(old(self).netlist),
                self.components() == old(self).components(),
                all_valid(self.components()),
                dimension(self.components()) <= usize::MAX,
                forall|assembly: &Assembly, iterate: &Vec<Scalar>|
                    fits(*assembly, iterate@, self.components()) ==> round.requires(
                        (assembly, iterate),
                    ),
                forall|assembly: &Assembly, iterate: &Vec<Scalar>, outcome: Outcome|
                    round.ensures((assembly, iterate), outcome) ==> (outcome matches Outcome::Solved {
                        x,
                        ..
                    } ==> x@.len() == assembly.dimension),
                forall|readout: &Readout| point.requires((readout,)),
                step is Done ==> self.phase() == Phase::Idle && dimension(self.components()) == 0,
                !(step is Done) ==> {
                    &&& dimension(self.components()) != 0
                    &&& self.dt() == dt
                    &&& is_run(round, self.components(), dt, iterates, changes)
                    &&& iterates.last() == self.iterate()
                    &&& self.iterate()@.len() == dimension(self.components())
                },
                step matches Step::Solve(assembly) ==> {
                    &&& self.phase() == Phase::Iterating
                    &&& is_assembly_of(assembly, self.components(), &self.iterate(), dt)
                    &&& changes.len() == self.iteration()
                    &&& self.iteration() < MAX_ITERATIONS
                    &&& unsettled(changes, changes.len() as int)
                },
                step matches Step::Update(readouts) ==> {
                    &&& self.phase() == Phase::Converged
                    &&& readouts@ == readouts_of(self.components(), &self.iterate(), dt)
                    &&& 1 <= changes.len() <= MAX_ITERATIONS
                    &&& unsettled(changes, changes.len() - 1)
                    &&& changes.last().lt_spec(Scalar { bits: TOLERANCE_BITS })
                },
            decreases
                    (if step is Solve {
                        1int
                    } else {
                        0int
                    }),
                    MAX_ITERATIONS - self.iteration(),
        {
            match step {
                Step::Done => {
                    return Ok(());
                },
                Step::Solve(assembly) => {
                    assert(fits(assembly, self.progress.x@, self.components()));
                    let outcome = round(&assembly, &self.progress.x);
                    proof {
                        assert(reports(round, self.components(), &self.progress.x, dt, outcome));
                        if outcome is Solved {
                            let ghost before = iterates;
                            let ghost settled = changes;
                            iterates = iterates.push(outcome->x);
                            changes = changes.push(outcome->change);
                            assert forall|k: int| 0 <= k < changes.len() - 1 implies !(
                            #[trigger] changes[k]).lt_spec(Scalar { bits: TOLERANCE_BITS }) by {
                                assert(changes[k] == settled[k]);
                            }
                            assert forall|k: int| 0 <= k < changes.len() implies reports(
                                round,
                                self.components(),
                                &iterates[k],
                                dt,
                                Outcome::Solved { x: #[trigger] iterates[k + 1], change: changes[k] },
                            ) by {
                                if k < changes.len() - 1 {
                                    assert(before[k + 1] == iterates[k + 1]);
                                }
                            }
                        }
                    }
                    let ghost unsettled_before = self.iteration();
                    step = match self.advance(outcome) {
                        Ok(step) => step,
                        Err(e) => {
                            proof {
                                if e is NonConvergence {
                                    assert(changes.len() == unsettled_before + 1);
                                    assert(unsettled(changes, changes.len() as int));
                                    assert(ends_unsettled(
                                        round,
                                        self.components(),
                                        dt,
                                        iterates,
                                        changes,
                                        e->0@,
                                    ));
                                } else {
                                    assert(ends_singular(
                                        round,
                                        self.components(),
                                        dt,
                                        iterates,
                                        changes,
                                    ));
                                }
                            }
                            return Err(e);
                        },
                    };
                },
                Step::Update(readouts) => {
                    let mut points: Vec<OperatingPoint> = Vec::new();
                    let mut i: usize = 0;
                    while i < readouts.len()
                        invariant
                            i <= readouts@.len(),
                            points@.len() == i,
                            forall|readout: &Readout| point.requires((readout,)),
                            forall|k: int|
                                0 <= k < i ==> point.ensures(
                                    (&readouts@[k],),
                                    #[trigger] points@[k],
                                ),
                        decreases readouts@.len() - i,
                    {
                        points.push(point(&readouts[i]));
                        i += 1;
                    }
                    assert(are_points(point, readouts@, points@));
                    self.finish(&points);
                    assert(ends_converged(
                        round,
                        point,
                        old(self).components(),
                        dt,
                        iterates,
                        changes,
                        points@,
                        self.components(),
                    ));
                    return Ok(());
                },
            }
        }
    }

    /// Abandons the step under way, if there is one. No element is changed.
    pub fn abandon(&mut self)
        ensures
            *final(final(self).netlist) == *final(old(self).netlist),
            final(self).phase() == Phase::Idle,
            final(self).components() == old(self).components(),
    {
        self.progress.phase = Phase::Idle;
    }

    /// Ends a converged step: every element's state is set to the values of
    /// the same index.
    pub fn finish(&mut self, points: &Vec<OperatingPoint>)
        requires
            old(self).phase() == Phase::Converged,
            points@.len() == old(self).components().len(),
        ensures
            *final(final(self).netlist) == *final(old(self).netlist),
            final(self).components() == updated_all(old(self).components(), points@),
            final(self).phase() == Phase::Idle,
    {
        update(self.netlist, points);
        self.progress.phase = Phase::Idle;
    }
}

/// A copy of a vector of numbers.
fn copy_of(x: &Vec<Scalar>) -> (copy: Vec<Scalar>)
    ensures
        copy@ == x@,
{
    let mut copy: Vec<Scalar> = Vec::new();
    let mut i: usize = 0;
    while i < x.len()
        invariant
            i <= x@.len(),
            copy@ == x@.take(i as int),
        decreases x@.len() - i,
    {
        copy.push(x[i]);
        assert(copy@ =~= x@.take(i + 1));
        i += 1;
    }
    assert(x@.take(x@.len() as int) =~= x@);
    copy
}

} // verus!
