//! Where the six affine parameters sit in the 3×3 homogeneous matrix, and
//! which 2×2 minors of that matrix make up the inverse.
//!
//! The parameters are `[m00, m01, m10, m11, tx, ty]` and the matrix is
//!
//! ```text
//! | m00  m01  tx |
//! | m10  m11  ty |
//! |  0    0    1 |
//! ```
//!
//! The laws at the end of this module hold in exact arithmetic over the
//! integers, which is the model the floating-point arithmetic of a caller
//! approximates.
use vstd::prelude::*;

use crate::error::TransformError;

verus! {

/// What a cell of the homogeneous matrix holds.
#[derive(Clone, Copy, Debug, PartialEq, Eq, Structural)]
pub enum Entry {
    /// The parameter of this index.
    Param(usize),
    /// The constant zero of the bottom row.
    Zero,
    /// The constant one in the bottom-right corner.
    One,
}

pub open spec fn spec_matrix_entry(row: int, col: int) -> Entry {
    if row == 0 && col == 0 {
        Entry::Param(0)
    } else if row == 0 && col == 1 {
        Entry::Param(1)
    } else if row == 0 && col == 2 {
        Entry::Param(4)
    } else if row == 1 && col == 0 {
        Entry::Param(2)
    } else if row == 1 && col == 1 {
        Entry::Param(3)
    } else if row == 1 && col == 2 {
        Entry::Param(5)
    } else if row == 2 && col == 2 {
        Entry::One
    } else {
        Entry::Zero
    }
}

/// The cell `(row, col)` at which parameter `i` stands.
pub open spec fn spec_param_cell(i: int) -> (usize, usize) {
    if i == 0 {
        (0, 0)
    } else if i == 1 {
        (0, 1)
    } else if i == 2 {
        (1, 0)
    } else if i == 3 {
        (1, 1)
    } else if i == 4 {
        (0, 2)
    } else {
        (1, 2)
    }
}

/// What the cell at `row`, `col` of the homogeneous matrix holds.
pub fn matrix_entry(row: usize, col: usize) -> (e: Entry)
    requires
        row < 3,
        col < 3,
    ensures
        e == spec_matrix_entry(row as int, col as int),
{
    if row == 2 {
        if col == 2 {
            Entry::One
        } else {
            Entry::Zero
        }
    } else if col == 2 {
        Entry::Param(4 + row)
    } else {
        Entry::Param(2 * row + col)
    }
}

/// The cell at which parameter `i` stands; a product matrix is read back
/// into parameters through it.
pub fn param_cell(i: usize) -> (rc: (usize, usize))
    requires
        i < 6,
    ensures
        rc == spec_param_cell(i as int),
{
    if i < 4 {
        (i / 2, i % 2)
    } else {
        (i - 4, 2)
    }
}

/// Each parameter stands in exactly one cell, in the top two rows, and every
/// other cell holds a constant of the bottom row.
pub proof fn lemma_layout(i: int, row: int, col: int)
    requires
        0 <= i < 6,
        0 <= row < 3,
        0 <= col < 3,
    ensures
        spec_param_cell(i).0 < 2,
        spec_param_cell(i).1 < 3,
        spec_matrix_entry(spec_param_cell(i).0 as int, spec_param_cell(i).1 as int) == Entry::Param(
            i as usize,
        ),
        spec_matrix_entry(row, col) == Entry::Param(i as usize) ==> spec_param_cell(i) == (
        row as usize,
        col as usize,
        ),
        row == 2 ==> !(spec_matrix_entry(row, col) is Param),
        row < 2 ==> spec_matrix_entry(row, col) is Param,
{
}

/// A 2×2 minor of the homogeneous matrix: the two rows (`top`, `bottom`) and
/// the two columns (`left`, `right`) it keeps, and whether its determinant is
/// negated.
#[derive(Clone, Copy, Debug, PartialEq, Eq, Structural)]
pub struct Cofactor {
    pub top: usize,
    pub bottom: usize,
    pub left: usize,
    pub right: usize,
    pub negate: bool,
}

/// The minor whose determinant is the determinant of the linear block.
pub open spec fn spec_determinant_minor() -> Cofactor {
    Cofactor { top: 0, bottom: 1, left: 0, right: 1, negate: false }
}

/// The signed minor whose determinant, divided by the determinant of the
/// linear block, is parameter `i` of the inverse.
pub open spec fn spec_inverse_cofactor(i: int) -> Cofactor {
    if i == 0 {
        Cofactor { top: 1, bottom: 2, left: 1, right: 2, negate: false }
    } else if i == 1 {
        Cofactor { top: 0, bottom: 2, left: 1, right: 2, negate: true }
    } else if i == 2 {
        Cofactor { top: 1, bottom: 2, left: 0, right: 2, negate: true }
    } else if i == 3 {
        Cofactor { top: 0, bottom: 2, left: 0, right: 2, negate: false }
    } else if i == 4 {
        Cofactor { top: 0, bottom: 1, left: 1, right: 2, negate: false }
    } else {
        Cofactor { top: 0, bottom: 1, left: 0, right: 2, negate: true }
    }
}

pub fn determinant_minor() -> (c: Cofactor)
    ensures
        c == spec_determinant_minor(),
{
    Cofactor { top: 0, bottom: 1, left: 0, right: 1, negate: false }
}

pub fn inverse_cofactor(i: usize) -> (c: Cofactor)
    requires
        i < 6,
    ensures
        c == spec_inverse_cofactor(i as int),
{
    match i {
        0 => Cofactor { top: 1, bottom: 2, left: 1, right: 2, negate: false },
        1 => Cofactor { top: 0, bottom: 2, left: 1, right: 2, negate: true },
        2 => Cofactor { top: 1, bottom: 2, left: 0, right: 2, negate: true },
        3 => Cofactor { top: 0, bottom: 2, left: 0, right: 2, negate: false },
        4 => Cofactor { top: 0, bottom: 1, left: 1, right: 2, negate: false },
        _ => Cofactor { top: 0, bottom: 1, left: 0, right: 2, negate: true },
    }
}

/// Value of the cell at `row`, `col` of the homogeneous matrix of the
/// parameters `p`.
pub open spec fn cell_value(p: Seq<int>, row: int, col: int) -> int {
    match spec_matrix_entry(row, col) {
        Entry::Param(i) => p[i as int],
        Entry::Zero => 0,
        Entry::One => 1,
    }
}

/// The cell at `row`, `col` of the matrix product of the homogeneous
/// matrices of `a` and `b`.
pub open spec fn product_cell(a: Seq<int>, b: Seq<int>, row: int, col: int) -> int {
    cell_value(a, row, 0) * cell_value(b, 0, col) + cell_value(a, row, 1) * cell_value(b, 1, col)
        + cell_value(a, row, 2) * cell_value(b, 2, col)
}

/// The parameters of the composition "`b`, then `a`", read back from the
/// matrix product cell by cell.
pub open spec fn compose(a: Seq<int>, b: Seq<int>) -> Seq<int> {
    Seq::new(
        6,
        |i: int| product_cell(a, b, spec_param_cell(i).0 as int, spec_param_cell(i).1 as int),
    )
}

/// The parameters of the identity transform.
pub open spec fn identity() -> Seq<int> {
    seq![1, 0, 0, 1, 0, 0]
}

/// The signed determinant of the minor `c` of the homogeneous matrix of `p`.
pub open spec fn minor_value(p: Seq<int>, c: Cofactor) -> int {
    let d = cell_value(p, c.top as int, c.left as int) * cell_value(p, c.bottom as int, c.right as int)
        - cell_value(p, c.top as int, c.right as int) * cell_value(p, c.bottom as int, c.left as int);
    if c.negate {
        -d
    } else {
        d
    }
}

/// The determinant of the linear block of `p`.
pub open spec fn determinant(p: Seq<int>) -> int {
    minor_value(p, spec_determinant_minor())
}

/// The parameters of the inverse of `p`, each multiplied by its determinant.
pub open spec fn adjugate(p: Seq<int>) -> Seq<int> {
    Seq::new(6, |i: int| minor_value(p, spec_inverse_cofactor(i)))
}

/// The product of two homogeneous matrices is homogeneous again: its bottom
/// row is `0 0 1`, so reading its six parameters back through the layout
/// loses nothing.
pub proof fn lemma_compose_homogeneous(a: Seq<int>, b: Seq<int>, row: int, col: int)
    requires
        a.len() == 6,
        b.len() == 6,
        0 <= row < 3,
        0 <= col < 3,
    ensures
        cell_value(compose(a, b), row, col) == product_cell(a, b, row, col),
{
}

/// Inversion law: where the determinant of `p` is not zero and `q` is the
/// adjugate of `p` divided by that determinant, composing `p` with `q` in
/// either order gives the identity.
proof fn lemma_cancel(d: int, x: int, v: int)
    requires
        d != 0,
        d * x == d * v,
    ensures
        x == v,
{
    assert((d * (x - v) == 0) ==> (x - v == 0)) by (nonlinear_arith)
        requires
            d != 0,
    ;
    assert(d * (x - v) == d * x - d * v) by (nonlinear_arith);
}

/// `d` times a cell of a product in which `y0`, `y1` are the scaled
/// entries `d * y0 == e0`, `d * y1 == e1` of the right factor.
proof fn lemma_scaled_cell(d: int, x0: int, y0: int, x1: int, y1: int, c: int, e0: int, e1: int)
    requires
        d * y0 == e0,
        d * y1 == e1,
    ensures
        d * (x0 * y0 + x1 * y1 + c) == x0 * e0 + x1 * e1 + d * c,
{
    assert(d * (x0 * y0 + x1 * y1 + c) == x0 * (d * y0) + x1 * (d * y1) + d * c)
        by (nonlinear_arith);
}

/// Inversion law: where the determinant of `p` is not zero and `q` is the
/// adjugate of `p` divided by that determinant, composing `p` with `q` in
/// either order gives the identity.
pub proof fn lemma_inverse(p: Seq<int>, q: Seq<int>)
    requires
        p.len() == 6,
        q.len() == 6,
        determinant(p) != 0,
        forall|i: int| 0 <= i < 6 ==> determinant(p) * #[trigger] q[i] == adjugate(p)[i],
    ensures
        compose(p, q) == identity(),
        compose(q, p) == identity(),
{
    let d = determinant(p);
    let a = adjugate(p);
    let (p0, p1, p2, p3, p4, p5) = (p[0], p[1], p[2], p[3], p[4], p[5]);
    let (q0, q1, q2, q3, q4, q5) = (q[0], q[1], q[2], q[3], q[4], q[5]);
    assert(d * q[0] == a[0]);
    assert(d * q[1] == a[1]);
    assert(d * q[2] == a[2]);
    assert(d * q[3] == a[3]);
    assert(d * q[4] == a[4]);
    assert(d * q[5] == a[5]);
    assert(d == p0 * p3 - p1 * p2);
    assert(a[0] == p3 * 1 - p5 * 0);
    assert(a[1] == -(p1 * 1 - p4 * 0));
    assert(a[2] == -(p2 * 1 - p5 * 0));
    assert(a[3] == p0 * 1 - p4 * 0);
    assert(a[4] == p1 * p5 - p4 * p3);
    assert(a[5] == -(p0 * p5 - p4 * p2));
    let (e0, e1, e2, e3, e4, e5) = (p3, -p1, -p2, p0, p1 * p5 - p4 * p3, -(p0 * p5 - p4 * p2));
    assert(d * q0 == e0 && d * q1 == e1 && d * q2 == e2 && d * q3 == e3 && d * q4 == e4 && d
        * q5 == e5);
    // p after q
    lemma_scaled_cell(d, p0, q0, p1, q2, 0, e0, e2);
    assert(p0 * e0 + p1 * e2 == d) by (nonlinear_arith)
        requires
            e0 == p3, e2 == -p2, d == p0 * p3 - p1 * p2,
    ;
    lemma_cancel(d, p0 * q0 + p1 * q2 + 0, 1);
    lemma_scaled_cell(d, p0, q1, p1, q3, 0, e1, e3);
    assert(p0 * e1 + p1 * e3 == 0) by (nonlinear_arith)
        requires
            e1 == -p1, e3 == p0,
    ;
    lemma_cancel(d, p0 * q1 + p1 * q3 + 0, 0);
    lemma_scaled_cell(d, p2, q0, p3, q2, 0, e0, e2);
    assert(p2 * e0 + p3 * e2 == 0) by (nonlinear_arith)
        requires
            e0 == p3, e2 == -p2,
    ;
    lemma_cancel(d, p2 * q0 + p3 * q2 + 0, 0);
    lemma_scaled_cell(d, p2, q1, p3, q3, 0, e1, e3);
    assert(p2 * e1 + p3 * e3 == d) by (nonlinear_arith)
        requires
            e1 == -p1, e3 == p0, d == p0 * p3 - p1 * p2,
    ;
    lemma_cancel(d, p2 * q1 + p3 * q3 + 0, 1);
    lemma_scaled_cell(d, p0, q4, p1, q5, p4, e4, e5);
    assert(p0 * e4 + p1 * e5 + d * p4 == 0) by (nonlinear_arith)
        requires
            e4 == p1 * p5 - p4 * p3, e5 == -(p0 * p5 - p4 * p2), d == p0 * p3 - p1 * p2,
    ;
    lemma_cancel(d, p0 * q4 + p1 * q5 + p4, 0);
    lemma_scaled_cell(d, p2, q4, p3, q5, p5, e4, e5);
    assert(p2 * e4 + p3 * e5 + d * p5 == 0) by (nonlinear_arith)
        requires
            e4 == p1 * p5 - p4 * p3, e5 == -(p0 * p5 - p4 * p2), d == p0 * p3 - p1 * p2,
    ;
    lemma_cancel(d, p2 * q4 + p3 * q5 + p5, 0);
    // q after p
    lemma_scaled_cell(d, p0, q0, p2, q1, 0, e0, e1);
    assert(p0 * e0 + p2 * e1 == d) by (nonlinear_arith)
        requires
            e0 == p3, e1 == -p1, d == p0 * p3 - p1 * p2,
    ;
    lemma_cancel(d, q0 * p0 + q1 * p2 + 0, 1);
    lemma_scaled_cell(d, p1, q0, p3, q1, 0, e0, e1);
    assert(p1 * e0 + p3 * e1 == 0) by (nonlinear_arith)
        requires
            e0 == p3, e1 == -p1,
    ;
    lemma_cancel(d, q0 * p1 + q1 * p3 + 0, 0);
    lemma_scaled_cell(d, p0, q2, p2, q3, 0, e2, e3);
    assert(p0 * e2 + p2 * e3 == 0) by (nonlinear_arith)
        requires
            e2 == -p2, e3 == p0,
    ;
    lemma_cancel(d, q2 * p0 + q3 * p2 + 0, 0);
    lemma_scaled_cell(d, p1, q2, p3, q3, 0, e2, e3);
    assert(p1 * e2 + p3 * e3 == d) by (nonlinear_arith)
        requires
            e2 == -p2, e3 == p0, d == p0 * p3 - p1 * p2,
    ;
    lemma_cancel(d, q2 * p1 + q3 * p3 + 0, 1);
    lemma_scaled_cell(d, p4, q0, p5, q1, 0, e0, e1);
    lemma_scaled_cell(d, 1, q4, 0, q5, 0, e4, e5);
    assert(p4 * e0 + p5 * e1 + e4 == 0) by (nonlinear_arith)
        requires
            e0 == p3, e1 == -p1, e4 == p1 * p5 - p4 * p3,
    ;
    assert(d * (q0 * p4 + q1 * p5 + q4) == d * (p4 * q0 + p5 * q1 + 0) + d * q4) by (nonlinear_arith);
    lemma_cancel(d, q0 * p4 + q1 * p5 + q4, 0);
    lemma_scaled_cell(d, p4, q2, p5, q3, 0, e2, e3);
    assert(p4 * e2 + p5 * e3 + e5 == 0) by (nonlinear_arith)
        requires
            e2 == -p2, e3 == p0, e5 == -(p0 * p5 - p4 * p2),
    ;
    assert(d * (q2 * p4 + q3 * p5 + q5) == d * (p4 * q2 + p5 * q3 + 0) + d * q5) by (nonlinear_arith);
    lemma_cancel(d, q2 * p4 + q3 * p5 + q5, 0);
    assert(compose(p, q) =~= identity());
    assert(compose(q, p) =~= identity());
}

} // verus!
