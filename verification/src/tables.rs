//! Calibration tables: bilinear interpolation over a rectangular grid with
//! clamping outside it.
//!
//! The x axis is typically RPM and the y axis engine load (MAP or TPS); the
//! data hold the calibrated quantity (volumetric efficiency, target AFR,
//! ignition advance) in whatever fixed-point unit the calibrator chose.
//! Axis breakpoints are signed integers, data values unsigned; both are
//! bounded so that every product in the interpolation fits comfortably in
//! 64 bits.

use vstd::prelude::*;

verus! {

/// Largest magnitude an axis breakpoint may have.
pub const AXIS_BOUND: i64 = 1_000_000;

/// Largest value a data cell may hold.
pub const DATA_BOUND: u32 = 1_000_000;

/// A rectangular calibration surface: N columns along `x_axis`, M rows
/// along `y_axis`, and an M x N data matrix indexed `data[row][column]`.
pub struct Table3D {
    /// Strictly increasing breakpoints of the horizontal axis.
    pub x_axis: Vec<i64>,
    /// Strictly increasing breakpoints of the vertical axis.
    pub y_axis: Vec<i64>,
    /// Data values, one row per y breakpoint, one column per x breakpoint.
    pub data: Vec<Vec<u32>>,
}

impl Table3D {
    /// An axis is usable when it is strictly increasing and bounded.
    pub open spec fn axis_wf(a: Seq<i64>) -> bool {
        &&& forall|i: int, j: int| 0 <= i < j < a.len() ==> a[i] < a[j]
        &&& forall|i: int| 0 <= i < a.len() ==> -AXIS_BOUND <= #[trigger] a[i] <= AXIS_BOUND
    }

    /// Well-formedness of the three parts of a table: both axes usable, a
    /// full rectangular matrix, and bounded data.
    pub open spec fn parts_wf(x: Seq<i64>, y: Seq<i64>, data: Seq<Vec<u32>>) -> bool {
        &&& 1 <= x.len()
        &&& 1 <= y.len()
        &&& data.len() == y.len()
        &&& forall|r: int| 0 <= r < data.len() ==> (#[trigger] data[r])@.len() == x.len()
        &&& Self::axis_wf(x)
        &&& Self::axis_wf(y)
        &&& forall|r: int, c: int|
            0 <= r < data.len() && 0 <= c < data[r]@.len() ==> #[trigger] data[r]@[c]
                <= DATA_BOUND
    }

    /// Well-formedness of a table.
    pub open spec fn wf(self) -> bool {
        Self::parts_wf(self.x_axis@, self.y_axis@, self.data@)
    }

    /// Whether `i` is the index of the axis cell holding `v`.
    pub open spec fn is_cell(a: Seq<i64>, v: i64, i: int) -> bool {
        0 <= i < a.len() - 1 && a[i] <= v && v < a[i + 1]
    }

    /// The index of the axis cell holding `v`; unique on a strictly
    /// increasing axis.
    pub open spec fn spec_cell_of(a: Seq<i64>, v: i64) -> int {
        choose|i: int| Self::is_cell(a, v, i)
    }

    /// Where a query value falls on one axis: low and high breakpoint
    /// indices and the fractional position inside the cell as a
    /// numerator/denominator pair. Queries outside the axis clamp to the
    /// end breakpoints with a zero fraction.
    pub open spec fn spec_axis_cell(a: Seq<i64>, v: i64) -> (int, int, int, int) {
        if v <= a[0] {
            (0, 0, 0, 1)
        } else if v >= a[a.len() - 1] {
            (a.len() - 1, a.len() - 1, 0, 1)
        } else {
            let i = Self::spec_cell_of(a, v);
            (i, i + 1, v - a[i], a[i + 1] - a[i])
        }
    }

    /// Linear interpolation between `q0` and `q1` at fraction `num/den`,
    /// rounded down.
    pub open spec fn spec_lerp(q0: int, q1: int, num: int, den: int) -> int {
        (q0 * (den - num) + q1 * num) / den
    }

    /// The bilinearly interpolated value at `(x, y)`: interpolate along x
    /// on the two neighbouring rows, then along y between those results.
    pub open spec fn spec_interpolate(self, x: i64, y: i64) -> int {
        let (x0, x1, nx, dx) = Self::spec_axis_cell(self.x_axis@, x);
        let (y0, y1, ny, dy) = Self::spec_axis_cell(self.y_axis@, y);
        let q11 = self.data@[y0]@[x0];
        let q21 = self.data@[y0]@[x1];
        let q12 = self.data@[y1]@[x0];
        let q22 = self.data@[y1]@[x1];
        let r1 = Self::spec_lerp(q11 as int, q21 as int, nx, dx);
        let r2 = Self::spec_lerp(q12 as int, q22 as int, nx, dx);
        Self::spec_lerp(r1, r2, ny, dy)
    }

    /// Build a table from its parts. Strictly increasing axes and a full
    /// matrix are a precondition, as the consumers' contracts need them.
    pub fn new(x_axis: Vec<i64>, y_axis: Vec<i64>, data: Vec<Vec<u32>>) -> (t: Table3D)
        requires
            Self::parts_wf(x_axis@, y_axis@, data@),
        ensures
            t.x_axis == x_axis,
            t.y_axis == y_axis,
            t.data == data,
            t.wf(),
    {
        Table3D { x_axis, y_axis, data }
    }

    /// Locate `value` on an axis: returns the two neighbouring breakpoint
    /// indices and the fractional position between them as `num/den`.
    fn find_axis_indices(axis: &Vec<i64>, value: i64) -> (r: (usize, usize, i64, i64))
        requires
            Self::axis_wf(axis@),
            axis@.len() >= 1,
        ensures
            ({
                let (i0, i1, num, den) = Self::spec_axis_cell(axis@, value);
                &&& r.0 == i0
                &&& r.1 == i1
                &&& r.2 == num
                &&& r.3 == den
            }),
            r.0 <= r.1 < axis@.len(),
            0 <= r.2 < r.3,
            1 <= r.3 <= 2 * AXIS_BOUND,
    {
        let n = axis.len();
        if value <= axis[0] {
            return (0, 0, 0, 1);
        }
        if value >= axis[n - 1] {
            return (n - 1, n - 1, 0, 1);
        }
        // Here axis[0] < value < axis[n-1], so some interior cell holds it.
        let mut idx: usize = 0;
        while value >= axis[idx + 1]
            invariant
                Self::axis_wf(axis@),
                n == axis@.len(),
                axis@[n - 1] > value,
                0 <= idx < n - 1,
                axis@[idx as int] <= value,
            decreases n - idx,
        {
            idx = idx + 1;
        }
        proof {
            assert(Self::is_cell(axis@, value, idx as int));
            let c = Self::spec_cell_of(axis@, value);
            assert(Self::is_cell(axis@, value, c));
            lemma_cell_unique(axis@, value, idx as int, c);
        }
        (idx, idx + 1, value - axis[idx], axis[idx + 1] - axis[idx])
    }

    /// The surface value at `(x_val, y_val)`: the bilinear blend of the
    /// four grid corners around the point, clamped to the edges outside
    /// the grid. The result always lies within the data bounds.
    pub fn interpolate(&self, x_val: i64, y_val: i64) -> (z: u32)
        requires
            self.wf(),
        ensures
            z == self.spec_interpolate(x_val, y_val),
            z <= DATA_BOUND,
    {
        let (x0, x1, nx, dx) = Self::find_axis_indices(&self.x_axis, x_val);
        let (y0, y1, ny, dy) = Self::find_axis_indices(&self.y_axis, y_val);

        let q11 = self.data[y0][x0];
        let q21 = self.data[y0][x1];
        let q12 = self.data[y1][x0];
        let q22 = self.data[y1][x1];

        let r1 = Self::lerp(q11, q21, nx, dx);
        let r2 = Self::lerp(q12, q22, nx, dx);
        Self::lerp(r1, r2, ny, dy)
    }

    /// Linear interpolation between two data values at fraction `num/den`.
    fn lerp(q0: u32, q1: u32, num: i64, den: i64) -> (r: u32)
        requires
            q0 <= DATA_BOUND,
            q1 <= DATA_BOUND,
            0 <= num < den,
            1 <= den <= 2 * AXIS_BOUND,
        ensures
            r == Self::spec_lerp(q0 as int, q1 as int, num as int, den as int),
            r <= DATA_BOUND,
    {
        proof {
            lemma_lerp_bounds(q0 as int, q1 as int, num as int, den as int);
        }
        let total: u64 = (q0 as u64) * ((den - num) as u64) + (q1 as u64) * (num as u64);
        let r64: u64 = total / (den as u64);
        r64 as u32
    }
}

/// On a strictly increasing axis at most one cell holds a value.
proof fn lemma_cell_unique(a: Seq<i64>, v: i64, i: int, j: int)
    requires
        Table3D::axis_wf(a),
        Table3D::is_cell(a, v, i),
        Table3D::is_cell(a, v, j),
    ensures
        i == j,
{
    if i < j {
        assert(a[i + 1] <= a[j]);
    }
    if j < i {
        assert(a[j + 1] <= a[i]);
    }
}

/// The weighted sum inside a linear interpolation is bounded by the larger
/// endpoint times the denominator, and is nonnegative; hence the quotient
/// stays between 0 and the data bound.
proof fn lemma_lerp_bounds(q0: int, q1: int, num: int, den: int)
    requires
        0 <= q0 <= DATA_BOUND,
        0 <= q1 <= DATA_BOUND,
        0 <= num < den,
        1 <= den <= 2 * AXIS_BOUND,
    ensures
        0 <= q0 * (den - num) + q1 * num <= DATA_BOUND * den,
        DATA_BOUND * den <= 2_000_000_000_000,
        0 <= Table3D::spec_lerp(q0, q1, num, den) <= DATA_BOUND,
{
    assert(0 <= q0 * (den - num) + q1 * num <= DATA_BOUND * den) by (nonlinear_arith)
        requires
            0 <= q0 <= DATA_BOUND,
            0 <= q1 <= DATA_BOUND,
            0 <= num < den,
    ;
    assert(DATA_BOUND * den <= 2_000_000_000_000) by (nonlinear_arith)
        requires 1 <= den <= 2_000_000
    ;
    assert(0 <= (q0 * (den - num) + q1 * num) / den <= DATA_BOUND) by (nonlinear_arith)
        requires
            0 <= q0 * (den - num) + q1 * num <= DATA_BOUND * den,
            1 <= den,
    ;
}

/// A query exactly on a grid node returns that node's data value.
pub proof fn lemma_interpolate_at_node(t: Table3D, i: int, j: int)
    requires
        t.wf(),
        0 <= i < t.x_axis@.len(),
        0 <= j < t.y_axis@.len(),
    ensures
        t.spec_interpolate(t.x_axis@[i], t.y_axis@[j]) == t.data@[j]@[i],
{
    lemma_axis_cell_at_breakpoint(t.x_axis@, i);
    lemma_axis_cell_at_breakpoint(t.y_axis@, j);
    let (x0, x1, nx, dx) = Table3D::spec_axis_cell(t.x_axis@, t.x_axis@[i]);
    let (y0, y1, ny, dy) = Table3D::spec_axis_cell(t.y_axis@, t.y_axis@[j]);
    let q11 = t.data@[y0]@[x0];
    let q21 = t.data@[y0]@[x1];
    let q12 = t.data@[y1]@[x0];
    let q22 = t.data@[y1]@[x1];
    lemma_lerp_at_zero(q11 as int, q21 as int, dx);
    lemma_lerp_at_zero(q12 as int, q22 as int, dx);
    let r1 = Table3D::spec_lerp(q11 as int, q21 as int, nx, dx);
    let r2 = Table3D::spec_lerp(q12 as int, q22 as int, nx, dx);
    lemma_lerp_at_zero(r1, r2, dy);
}

/// Locating a breakpoint itself yields that breakpoint's index with a zero
/// fraction.
proof fn lemma_axis_cell_at_breakpoint(a: Seq<i64>, i: int)
    requires
        Table3D::axis_wf(a),
        0 <= i < a.len(),
    ensures
        ({
            let (i0, i1, num, den) = Table3D::spec_axis_cell(a, a[i]);
            i0 == i && num == 0 && 1 <= den
        }),
{
    let v = a[i];
    if v <= a[0] {
        if i > 0 {
            assert(a[0] < a[i]);
        }
    } else if v >= a[a.len() - 1] {
        if i < a.len() - 1 {
            assert(a[i] < a[a.len() - 1]);
        }
    } else {
        assert(Table3D::is_cell(a, v, i));
        let c = Table3D::spec_cell_of(a, v);
        assert(Table3D::is_cell(a, v, c));
        lemma_cell_unique(a, v, i, c);
    }
}

/// Interpolating at fraction zero returns the low endpoint exactly.
proof fn lemma_lerp_at_zero(q0: int, q1: int, den: int)
    requires
        1 <= den,
    ensures
        Table3D::spec_lerp(q0, q1, 0, den) == q0,
{
    assert((q0 * (den - 0) + q1 * 0) / den == q0) by (nonlinear_arith)
        requires 1 <= den
    ;
}

} // verus!
