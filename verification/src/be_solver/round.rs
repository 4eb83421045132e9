//! One round of the Newton loop, around an arithmetic of the caller.
//!
//! The caller brings two things: `value`, which evaluates a formula, and
//! `linear`, which solves a dense linear system. A round sums the
//! contributions to each entry of the system, has the sums evaluated and the
//! system solved, and measures how far the solution is from the iterate that
//! the round began with.
use vstd::prelude::*;
use vstd::arithmetic::div_mod::{
    lemma_fundamental_div_mod,
    lemma_fundamental_div_mod_converse,
    lemma_mod_bound,
    lemma_multiply_divide_lt,
};
use crate::be_solver::assembly::Assembly;
use crate::be_solver::matrix::ABMatrix;
use crate::be_solver::matrix_view::{Coefficient, Source};
use crate::be_solver::stampable::{OperatingPoint, Readout};
use crate::be_solver::Outcome;
use crate::expr::Expr;
use crate::scalar::Scalar;

verus! {

/// The pattern of the smallest positive normal number: an unknown whose new
/// value is smaller than this is measured by its absolute change.
pub const FLOOR_BITS: u64 = 0x0010_0000_0000_0000;

/// The entry of the matrix in row `row` and column `col` after the first
/// `count` contributions: `+0.0`, plus each contribution to that entry, in
/// order.
pub open spec fn coefficient_sum(entries: Seq<Coefficient>, count: int, row: int, col: int)
    -> Expr
    decreases count,
{
    if count <= 0 {
        Expr::Value(Scalar::zero_spec())
    } else if entries[count - 1].row == row && entries[count - 1].col == col {
        Expr::sum_spec(coefficient_sum(entries, count - 1, row, col), entries[count - 1].value)
    } else {
        coefficient_sum(entries, count - 1, row, col)
    }
}

/// The entry of the right-hand side in row `row` after the first `count`
/// contributions.
pub open spec fn source_sum(entries: Seq<Source>, count: int, row: int) -> Expr
    decreases count,
{
    if count <= 0 {
        Expr::Value(Scalar::zero_spec())
    } else if entries[count - 1].row == row {
        Expr::sum_spec(source_sum(entries, count - 1, row), entries[count - 1].value)
    } else {
        source_sum(entries, count - 1, row)
    }
}

/// The entries of a square matrix of `size` rows, column after column: the
/// entry of row `r` and column `c` stands at `r + c * size`.
pub open spec fn matrix_formulas(entries: Seq<Coefficient>, size: int) -> Seq<Expr> {
    Seq::new(
        (size * size) as nat,
        |k: int| coefficient_sum(entries, entries.len() as int, k % size, k / size),
    )
}

/// The entries of a right-hand side of `size` rows.
pub open spec fn side_formulas(entries: Seq<Source>, size: int) -> Seq<Expr> {
    Seq::new(size as nat, |k: int| source_sum(entries, entries.len() as int, k))
}

/// The relative change of an unknown from `old` to `new`,
/// `|new - old| / |new|`; where `|new|` is below the floor, the absolute
/// change `|new - old|` instead.
pub open spec fn change_formula(new: Scalar, old: Scalar) -> Expr {
    let difference = Expr::abs_spec(Expr::difference_spec(Expr::Value(new), Expr::Value(old)));
    if new.abs_spec().lt_spec(Scalar { bits: FLOOR_BITS }) {
        difference
    } else {
        Expr::quotient_spec(difference, Expr::abs_spec(Expr::Value(new)))
    }
}

/// The change of every unknown from `old` to `new`.
pub open spec fn change_formulas(new: Seq<Scalar>, old: Seq<Scalar>) -> Seq<Expr> {
    Seq::new(new.len(), |i: int| change_formula(new[i], old[i]))
}

/// The largest of the first `count` values, and `+0.0` if that is larger or
/// there is none. A NaN among them is larger than any number.
pub open spec fn largest_of(values: Seq<Scalar>, count: int) -> Scalar
    decreases count,
{
    if count <= 0 {
        Scalar::zero_spec()
    } else {
        let rest = largest_of(values, count - 1);
        let value = values[count - 1];
        if rest.is_nan_spec() {
            rest
        } else if value.is_nan_spec() || rest.lt_spec(value) {
            value
        } else {
            rest
        }
    }
}

/// Whether `values` holds, for each of `formulas`, a value that `value` may
/// give for it.
pub open spec fn are_values<E: Fn(&Expr) -> Scalar>(
    value: E,
    formulas: Seq<Expr>,
    values: Seq<Scalar>,
) -> bool {
    &&& values.len() == formulas.len()
    &&& forall|i: int|
        0 <= i < values.len() ==> value.ensures((&formulas[i],), #[trigger] values[i])
}

/// Whether `value` may give the values of `point` for the formulas of
/// `readout`.
pub open spec fn is_point<E: Fn(&Expr) -> Scalar>(
    value: E,
    readout: Readout,
    point: OperatingPoint,
) -> bool {
    &&& match readout.voltage {
        Some(formula) => point.voltage matches Some(v) && value.ensures((&formula,), v),
        None => point.voltage is None,
    }
    &&& match readout.current {
        Some(formula) => point.current matches Some(i) && value.ensures((&formula,), i),
        None => point.current is None,
    }
}

/// Where the entry of a row and a column stands, and that no other entry
/// stands there.
proof fn lemma_position(row: int, col: int, size: int, k: int)
    requires
        0 <= row < size,
        0 <= col < size,
        0 <= k < size * size,
    ensures
        0 <= row + col * size < size * size,
        k == row + col * size <==> (k % size == row && k / size == col),
        0 <= k % size < size,
        0 <= k / size < size,
{
    assert(0 <= col * size && row + col * size < size * size) by (nonlinear_arith)
        requires
            0 <= row < size,
            0 <= col < size,
    ;
    lemma_fundamental_div_mod(k, size);
    lemma_mod_bound(k, size);
    lemma_multiply_divide_lt(k, size, size);
    assert(0 <= k / size) by (nonlinear_arith)
        requires
            0 <= k,
            0 < size,
    ;
    if k == row + col * size {
        lemma_fundamental_div_mod_converse(k, size, col, row);
    }
    assert(size * (k / size) == (k / size) * size) by (nonlinear_arith);
}

/// The formulas of the entries of the matrix, column after column.
pub fn matrix_formulas_of(assembly: &Assembly) -> (cells: Vec<Expr>)
    requires
        assembly.dimension * assembly.dimension <= usize::MAX,
    ensures
        cells@ == matrix_formulas(assembly.coefficients@, assembly.dimension as int),
{
    let size = assembly.dimension;
    let total = size * size;
    let ghost entries = assembly.coefficients@;
    let mut cells: Vec<Expr> = Vec::new();
    let mut k: usize = 0;
    while k < total
        invariant
            k <= total,
            cells@.len() == k,
            forall|j: int| 0 <= j < k ==> cells@[j] == Expr::Value(Scalar::zero_spec()),
        decreases total - k,
    {
        cells.push(Expr::value(Scalar::zero()));
        k += 1;
    }
    let mut i: usize = 0;
    while i < assembly.coefficients.len()
        invariant
            i <= entries.len(),
            entries == assembly.coefficients@,
            size == assembly.dimension,
            total == size * size,
            cells@.len() == total,
            forall|j: int|
                0 <= j < total ==> #[trigger] cells@[j] == coefficient_sum(
                    entries,
                    i as int,
                    j % (size as int),
                    j / (size as int),
                ),
        decreases entries.len() - i,
    {
        let entry = &assembly.coefficients[i];
        let ghost before = cells@;
        if entry.row < size && entry.col < size {
            proof {
                assert(0 < size * size) by (nonlinear_arith)
                    requires
                        0 < size,
                ;
                lemma_position(entry.row as int, entry.col as int, size as int, 0);
            }
            let position: usize = entry.row + entry.col * size;
            let sum = Expr::sum(cells[position].duplicate(), entry.value.duplicate());
            cells.set(position, sum);
            assert forall|j: int| 0 <= j < total implies #[trigger] cells@[j] == coefficient_sum(
                entries,
                i + 1,
                j % (size as int),
                j / (size as int),
            ) by {
                lemma_position(entry.row as int, entry.col as int, size as int, j);
                assert(before[j] == coefficient_sum(
                    entries,
                    i as int,
                    j % (size as int),
                    j / (size as int),
                ));
            }
        } else {
            assert forall|j: int| 0 <= j < total implies #[trigger] cells@[j] == coefficient_sum(
                entries,
                i + 1,
                j % (size as int),
                j / (size as int),
            ) by {
                assert(0 < size) by (nonlinear_arith)
                    requires
                        0 <= j < size * size,
                ;
                lemma_position(0, 0, size as int, j);
            }
        }
        i += 1;
    }
    assert(cells@ =~= matrix_formulas(entries, size as int));
    cells
}

/// The formulas of the entries of the right-hand side.
pub fn side_formulas_of(assembly: &Assembly) -> (cells: Vec<Expr>)
    ensures
        cells@ == side_formulas(assembly.sources@, assembly.dimension as int),
{
    let size = assembly.dimension;
    let ghost entries = assembly.sources@;
    let mut cells: Vec<Expr> = Vec::new();
    let mut k: usize = 0;
    while k < size
        invariant
            k <= size,
            cells@.len() == k,
            forall|j: int| 0 <= j < k ==> cells@[j] == Expr::Value(Scalar::zero_spec()),
        decreases size - k,
    {
        cells.push(Expr::value(Scalar::zero()));
        k += 1;
    }
    let mut i: usize = 0;
    while i < assembly.sources.len()
        invariant
            i <= entries.len(),
            entries == assembly.sources@,
            cells@.len() == size,
            forall|j: int| 0 <= j < size ==> #[trigger] cells@[j] == source_sum(entries, i as int, j),
        decreases entries.len() - i,
    {
        let entry = &assembly.sources[i];
        if entry.row < size {
            let sum = Expr::sum(cells[entry.row].duplicate(), entry.value.duplicate());
            cells.set(entry.row, sum);
        }
        i += 1;
    }
    assert(cells@ =~= side_formulas(entries, size as int));
    cells
}

/// The values of the formulas, in their order.
pub fn evaluate_all<E: Fn(&Expr) -> Scalar>(formulas: &Vec<Expr>, value: &E) -> (values: Vec<
    Scalar,
>)
    requires
        forall|formula: &Expr| value.requires((formula,)),
    ensures
        are_values(*value, formulas@, values@),
{
    let mut values: Vec<Scalar> = Vec::new();
    let mut i: usize = 0;
    while i < formulas.len()
        invariant
            i <= formulas@.len(),
            values@.len() == i,
            forall|formula: &Expr| value.requires((formula,)),
            forall|j: int| 0 <= j < i ==> value.ensures((&formulas@[j],), #[trigger] values@[j]),
        decreases formulas@.len() - i,
    {
        values.push(value(&formulas[i]));
        i += 1;
    }
    values
}

/// The formulas of the change of every unknown from `old` to `new`.
pub fn change_formulas_of(new: &Vec<Scalar>, old: &Vec<Scalar>) -> (formulas: Vec<Expr>)
    requires
        new@.len() == old@.len(),
    ensures
        formulas@ == change_formulas(new@, old@),
{
    let mut formulas: Vec<Expr> = Vec::new();
    let mut i: usize = 0;
    while i < new.len()
        invariant
            i <= new@.len(),
            new@.len() == old@.len(),
            formulas@.len() == i,
            forall|j: int| 0 <= j < i ==> formulas@[j] == change_formula(new@[j], old@[j]),
        decreases new@.len() - i,
    {
        let difference = Expr::abs(
            Expr::difference(Expr::value(new[i]), Expr::value(old[i])),
        );
        if new[i].abs().is_less_than(Scalar::from_bits(FLOOR_BITS)) {
            formulas.push(difference);
        } else {
            formulas.push(Expr::quotient(difference, Expr::abs(Expr::value(new[i]))));
        }
        i += 1;
    }
    assert(formulas@ =~= change_formulas(new@, old@));
    formulas
}

/// The largest of the values.
pub fn largest(values: &Vec<Scalar>) -> (most: Scalar)
    ensures
        most == largest_of(values@, values@.len() as int),
{
    let mut most = Scalar::zero();
    let mut i: usize = 0;
    while i < values.len()
        invariant
            i <= values@.len(),
            most == largest_of(values@, i as int),
        decreases values@.len() - i,
    {
        if !most.is_nan() && (values[i].is_nan() || most.is_less_than(values[i])) {
            most = values[i];
        }
        i += 1;
    }
    most
}

/// The values of the formulas of one element's new state.
pub fn point_with<E: Fn(&Expr) -> Scalar>(readout: &Readout, value: &E) -> (point: OperatingPoint)
    requires
        forall|formula: &Expr| value.requires((formula,)),
    ensures
        is_point(*value, *readout, point),
{
    let voltage = match &readout.voltage {
        Some(formula) => Some(value(formula)),
        None => None,
    };
    let current = match &readout.current {
        Some(formula) => Some(value(formula)),
        None => None,
    };
    OperatingPoint { voltage, current }
}

/// Whether a round may end in `outcome`: a round that begins with `iterate`
/// in a system of `size` unknowns, `num_nodes` of them node voltages, with
/// the given contributions.
///
/// Every entry of the system is a value of the sum of its contributions.
/// If `linear` finds no solution of that system, the round reports a
/// singular matrix. If it finds one, the round reports it together with the
/// largest among values of the changes of the unknowns.
pub open spec fn round_reports<E: Fn(&Expr) -> Scalar, L: Fn(ABMatrix) -> Option<Vec<Scalar>>>(
    value: E,
    linear: L,
    size: usize,
    num_nodes: usize,
    coefficients: Seq<Coefficient>,
    sources: Seq<Source>,
    iterate: Seq<Scalar>,
    outcome: Outcome,
) -> bool {
    exists|system: ABMatrix, solution: Option<Vec<Scalar>>|
        {
            &&& #[trigger] linear.ensures((system,), solution)
            &&& system.num_nodes() == num_nodes
            &&& system.size() == size
            &&& are_values(value, matrix_formulas(coefficients, size as int), system.coefficients())
            &&& are_values(value, side_formulas(sources, size as int), system.results())
            &&& match solution {
                None => outcome is Singular,
                Some(x) => exists|changes: Seq<Scalar>|
                    {
                        &&& #[trigger] are_values(value, change_formulas(x@, iterate), changes)
                        &&& outcome == Outcome::Solved {
                            x,
                            change: largest_of(changes, changes.len() as int),
                        }
                    },
            }
        }
}

/// Runs one round of the Newton loop around the iterate `iterate`.
pub fn round_with<E: Fn(&Expr) -> Scalar, L: Fn(ABMatrix) -> Option<Vec<Scalar>>>(
    assembly: &Assembly,
    iterate: &Vec<Scalar>,
    value: &E,
    linear: &L,
) -> (outcome: Outcome)
    requires
        assembly.num_nodes <= assembly.dimension,
        assembly.dimension * assembly.dimension <= usize::MAX,
        iterate@.len() == assembly.dimension,
        forall|formula: &Expr| value.requires((formula,)),
        forall|system: ABMatrix| linear.requires((system,)),
        forall|system: ABMatrix, solution: Option<Vec<Scalar>>|
            linear.ensures((system,), solution) ==> (solution matches Some(x) ==> x@.len()
                == system.size()),
    ensures
        round_reports(
            *value,
            *linear,
            assembly.dimension,
            assembly.num_nodes,
            assembly.coefficients@,
            assembly.sources@,
            iterate@,
            outcome,
        ),
        outcome matches Outcome::Solved { x, .. } ==> x@.len() == assembly.dimension,
{
    let matrix = matrix_formulas_of(assembly);
    let side = side_formulas_of(assembly);
    let a = evaluate_all(&matrix, value);
    let b = evaluate_all(&side, value);
    let system = ABMatrix::from_entries(
        assembly.num_nodes,
        assembly.dimension - assembly.num_nodes,
        a,
        b,
    ).unwrap();
    let ghost given = system;
    let solution = linear(system);
    let ghost found = solution;
    match solution {
        None => {
            let outcome = Outcome::Singular;
            assert(linear.ensures((given,), found));
            outcome
        },
        Some(x) => {
            let formulas = change_formulas_of(&x, iterate);
            let changes = evaluate_all(&formulas, value);
            let change = largest(&changes);
            let outcome = Outcome::Solved { x, change };
            assert(are_values(*value, change_formulas(x@, iterate@), changes@));
            assert(linear.ensures((given,), found));
            outcome
        },
    }
}

} // verus!
