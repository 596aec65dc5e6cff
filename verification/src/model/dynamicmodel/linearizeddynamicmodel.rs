//! Shape rules of a linear state-space model `x' = A x + B u`,
//! `y = C x + D u`.

use crate::error::LinearizationError;
use crate::text::{decimal, decimal_text};
use vstd::prelude::*;

verus! {

/// The first shape rule of a state-space model that a set of matrices breaks.
#[derive(Debug, Clone, Copy, PartialEq, Eq, Structural)]
pub enum ShapeMismatch {
    /// `A` is not square.
    StateMatrixNotSquare { rows: usize, cols: usize },
    /// `B` has a different number of rows than `A`.
    InputMatrixRows { rows: usize, expected: usize },
    /// `C` has a different number of columns than `A` has rows.
    OutputMatrixColumns { cols: usize, expected: usize },
    /// `D` is not (rows of `C`) by (columns of `B`).
    FeedthroughMatrixShape { rows: usize, cols: usize, expected_rows: usize, expected_cols: usize },
    /// A computed Jacobian has a different number of rows than the model's rank.
    JacobianRank { rows: usize, expected: usize },
    /// A computed Jacobian has a different number of columns than the model's inputs.
    JacobianInputs { cols: usize, expected: usize },
    /// A computed Jacobian has a different number of rows than the model's outputs.
    JacobianOutputs { rows: usize, expected: usize },
}

/// `prefix`, the decimal text of `a`, `middle`, the decimal text of `b`.
pub open spec fn two_counts(prefix: Seq<char>, a: usize, middle: Seq<char>, b: usize) -> Seq<
    char,
> {
    prefix + decimal(a as nat) + middle + decimal(b as nat)
}

fn two_counts_text(prefix: &str, a: usize, middle: &str, b: usize) -> (s: String)
    ensures
        s@ == two_counts(prefix@, a, middle@, b),
{
    let a_text = decimal_text(a);
    let b_text = decimal_text(b);
    String::from_str(prefix).concat(a_text.as_str()).concat(middle).concat(b_text.as_str())
}

impl ShapeMismatch {
    /// The message that describes the broken rule.
    pub open spec fn text(self) -> Seq<char> {
        match self {
            ShapeMismatch::StateMatrixNotSquare { .. } => "A must be square"@,
            ShapeMismatch::InputMatrixRows { rows, expected } => two_counts(
                "B rows "@,
                rows,
                " ≠ A rows "@,
                expected,
            ),
            ShapeMismatch::OutputMatrixColumns { cols, expected } => two_counts(
                "C cols "@,
                cols,
                " ≠ A rows "@,
                expected,
            ),
            ShapeMismatch::FeedthroughMatrixShape { rows, cols, expected_rows, expected_cols } =>
            two_counts("D shape "@, rows, "×"@, cols) + two_counts(
                " ≠ C rows "@,
                expected_rows,
                " × B cols "@,
                expected_cols,
            ),
            ShapeMismatch::JacobianRank { rows, expected } => two_counts(
                "A rows "@,
                rows,
                " ≠ model.system_rank() "@,
                expected,
            ),
            ShapeMismatch::JacobianInputs { cols, expected } => two_counts(
                "B cols "@,
                cols,
                " ≠ model.num_inputs() "@,
                expected,
            ),
            ShapeMismatch::JacobianOutputs { rows, expected } => two_counts(
                "C rows "@,
                rows,
                " ≠ model.num_outputs() "@,
                expected,
            ),
        }
    }

    /// Renders the message that describes the broken rule.
    pub fn message(&self) -> (s: String)
        ensures
            s@ == self.text(),
    {
        match *self {
            ShapeMismatch::StateMatrixNotSquare { .. } => String::from_str("A must be square"),
            ShapeMismatch::InputMatrixRows { rows, expected } => two_counts_text(
                "B rows ",
                rows,
                " ≠ A rows ",
                expected,
            ),
            ShapeMismatch::OutputMatrixColumns { cols, expected } => two_counts_text(
                "C cols ",
                cols,
                " ≠ A rows ",
                expected,
            ),
            ShapeMismatch::FeedthroughMatrixShape { rows, cols, expected_rows, expected_cols } => {
                let first = two_counts_text("D shape ", rows, "×", cols);
                let second = two_counts_text(" ≠ C rows ", expected_rows, " × B cols ", expected_cols);
                first.concat(second.as_str())
            },
            ShapeMismatch::JacobianRank { rows, expected } => two_counts_text(
                "A rows ",
                rows,
                " ≠ model.system_rank() ",
                expected,
            ),
            ShapeMismatch::JacobianInputs { cols, expected } => two_counts_text(
                "B cols ",
                cols,
                " ≠ model.num_inputs() ",
                expected,
            ),
            ShapeMismatch::JacobianOutputs { rows, expected } => two_counts_text(
                "C rows ",
                rows,
                " ≠ model.num_outputs() ",
                expected,
            ),
        }
    }

    /// The linearization error that reports this mismatch.
    pub fn into_error(self) -> (e: LinearizationError)
        ensures
            e matches LinearizationError::DimensionMismatch(m) && m@ == self.text(),
    {
        LinearizationError::DimensionMismatch(self.message())
    }
}

/// A shape, as (rows, columns).
pub type Shape = (usize, usize);

/// The matrices `A`, `B`, `C`, `D` of these shapes form a state-space model:
/// `A` is n by n, `B` is n by m, `C` is p by n and `D` is p by m.
pub open spec fn shapes_consistent(a: Shape, b: Shape, c: Shape, d: Shape) -> bool {
    &&& a.0 == a.1
    &&& b.0 == a.0
    &&& c.1 == a.0
    &&& d.0 == c.0
    &&& d.1 == b.1
}

/// The outcome of the shape check: the first rule broken, in the order
/// `A` square, rows of `B`, columns of `C`, shape of `D`.
pub open spec fn shape_check(a: Shape, b: Shape, c: Shape, d: Shape) -> Result<(), ShapeMismatch> {
    if a.0 != a.1 {
        Err(ShapeMismatch::StateMatrixNotSquare { rows: a.0, cols: a.1 })
    } else if b.0 != a.0 {
        Err(ShapeMismatch::InputMatrixRows { rows: b.0, expected: a.0 })
    } else if c.1 != a.0 {
        Err(ShapeMismatch::OutputMatrixColumns { cols: c.1, expected: a.0 })
    } else if d.0 != c.0 || d.1 != b.1 {
        Err(
            ShapeMismatch::FeedthroughMatrixShape {
                rows: d.0,
                cols: d.1,
                expected_rows: c.0,
                expected_cols: b.1,
            },
        )
    } else {
        Ok(())
    }
}

/// Checks that matrices of the given shapes form a state-space model, and
/// reports the first rule they break.
pub fn check_state_space_shapes(a: Shape, b: Shape, c: Shape, d: Shape) -> (r: Result<
    (),
    ShapeMismatch,
>)
    ensures
        r == shape_check(a, b, c, d),
        r is Ok <==> shapes_consistent(a, b, c, d),
        r is Ok <==> (a.0 == a.1 && b.0 == a.0 && c.1 == a.0 && d.0 == c.0 && d.1 == b.1),
        a.0 != a.1 ==> r == Err::<(), ShapeMismatch>(
            ShapeMismatch::StateMatrixNotSquare { rows: a.0, cols: a.1 },
        ),
        a.0 == a.1 && b.0 != a.0 ==> r == Err::<(), ShapeMismatch>(
            ShapeMismatch::InputMatrixRows { rows: b.0, expected: a.0 },
        ),
        a.0 == a.1 && b.0 == a.0 && c.1 != a.0 ==> r == Err::<(), ShapeMismatch>(
            ShapeMismatch::OutputMatrixColumns { cols: c.1, expected: a.0 },
        ),
        a.0 == a.1 && b.0 == a.0 && c.1 == a.0 && (d.0 != c.0 || d.1 != b.1) ==> r == Err::<
            (),
            ShapeMismatch,
        >(
            ShapeMismatch::FeedthroughMatrixShape {
                rows: d.0,
                cols: d.1,
                expected_rows: c.0,
                expected_cols: b.1,
            },
        ),
{
    if a.0 != a.1 {
        return Err(ShapeMismatch::StateMatrixNotSquare { rows: a.0, cols: a.1 });
    }
    let n = a.0;
    let m = b.1;
    let p = c.0;
    if b.0 != n {
        return Err(ShapeMismatch::InputMatrixRows { rows: b.0, expected: n });
    }
    if c.1 != n {
        return Err(ShapeMismatch::OutputMatrixColumns { cols: c.1, expected: n });
    }
    if d.0 != p || d.1 != m {
        return Err(
            ShapeMismatch::FeedthroughMatrixShape {
                rows: d.0,
                cols: d.1,
                expected_rows: p,
                expected_cols: m,
            },
        );
    }
    Ok(())
}

/// The shape check accepts exactly the state-space models (A n by n, B n by
/// m, C p by n, D p by m) and otherwise names the first broken rule with the
/// offending and the expected dimensions; in particular a feedthrough matrix
/// whose row count differs from the output matrix's is always rejected.
pub proof fn lemma_shape_check_accepts_exactly_state_space_models(
    a: Shape,
    b: Shape,
    c: Shape,
    d: Shape,
)
    ensures
        shape_check(a, b, c, d) is Ok <==> (a.0 == a.1 && b.0 == a.0 && c.1 == a.0 && d.0 == c.0
            && d.1 == b.1),
        d.0 != c.0 ==> shape_check(a, b, c, d) is Err,
        a.0 == a.1 && b.0 == a.0 && c.1 == a.0 && d.0 != c.0 ==> shape_check(a, b, c, d) == Err::<
            (),
            ShapeMismatch,
        >(
            ShapeMismatch::FeedthroughMatrixShape {
                rows: d.0,
                cols: d.1,
                expected_rows: c.0,
                expected_cols: b.1,
            },
        ),
        a.0 != a.1 ==> shape_check(a, b, c, d) == Err::<(), ShapeMismatch>(
            ShapeMismatch::StateMatrixNotSquare { rows: a.0, cols: a.1 },
        ),
{
}

/// The outcome of the check of the Jacobians computed for a model of rank
/// `rank` with `inputs` inputs and `outputs` outputs: the rows of `A`, the
/// columns of `B` and the rows of `C` are checked in this order.
pub open spec fn jacobian_check(
    a_rows: usize,
    b_cols: usize,
    c_rows: usize,
    rank: usize,
    inputs: usize,
    outputs: usize,
) -> Result<(), ShapeMismatch> {
    if a_rows != rank {
        Err(ShapeMismatch::JacobianRank { rows: a_rows, expected: rank })
    } else if b_cols != inputs {
        Err(ShapeMismatch::JacobianInputs { cols: b_cols, expected: inputs })
    } else if c_rows != outputs {
        Err(ShapeMismatch::JacobianOutputs { rows: c_rows, expected: outputs })
    } else {
        Ok(())
    }
}

/// Checks the Jacobians computed by a linearization against the dimensions
/// of the model they were computed for.
pub fn check_jacobian_dimensions(
    a_rows: usize,
    b_cols: usize,
    c_rows: usize,
    rank: usize,
    inputs: usize,
    outputs: usize,
) -> (r: Result<(), ShapeMismatch>)
    ensures
        r == jacobian_check(a_rows, b_cols, c_rows, rank, inputs, outputs),
        r is Ok <==> a_rows == rank && b_cols == inputs && c_rows == outputs,
        a_rows != rank ==> r == Err::<(), ShapeMismatch>(
            ShapeMismatch::JacobianRank { rows: a_rows, expected: rank },
        ),
        a_rows == rank && b_cols != inputs ==> r == Err::<(), ShapeMismatch>(
            ShapeMismatch::JacobianInputs { cols: b_cols, expected: inputs },
        ),
        a_rows == rank && b_cols == inputs && c_rows != outputs ==> r == Err::<(), ShapeMismatch>(
            ShapeMismatch::JacobianOutputs { rows: c_rows, expected: outputs },
        ),
{
    if a_rows != rank {
        return Err(ShapeMismatch::JacobianRank { rows: a_rows, expected: rank });
    }
    if b_cols != inputs {
        return Err(ShapeMismatch::JacobianInputs { cols: b_cols, expected: inputs });
    }
    if c_rows != outputs {
        return Err(ShapeMismatch::JacobianOutputs { rows: c_rows, expected: outputs });
    }
    Ok(())
}

} // verus!
