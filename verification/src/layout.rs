//! The virtual keyboard: its layout, and the arithmetic that turns the
//! position of the left hat into a cell of the layout.

use vstd::prelude::*;

verus! {

/// The absolute value of an integer.
pub open spec fn abs_int(a: int) -> int {
    if a < 0 { -a } else { a }
}

/// Integer division that rounds toward zero, as `/` does on Rust's signed
/// integers.
pub open spec fn trunc_div(a: int, b: int) -> int {
    let q = abs_int(a) / abs_int(b);
    if (a < 0) != (b < 0) { -q } else { q }
}

/// `v` is a value of `i32`.
pub open spec fn fits_i32(v: int) -> bool {
    i32::MIN <= v <= i32::MAX
}

/// The divisor of the position arithmetic, for an axis whose maximum is `max`.
pub open spec fn span(max: int) -> int {
    max * 2 + 1
}

/// The position `(column, row)` on a keyboard of `rows` rows and `cols`
/// columns selected by the hat values `x` and `y`, where `max` is the
/// maximum of the horizontal hat axis; `None` when the hat is at rest.
pub open spec fn keypos(max: int, rows: int, cols: int, x: int, y: int) -> Option<(int, int)> {
    if x == 0 && y == 0 {
        None
    } else {
        Some((
            trunc_div((x + max) * cols, span(max)),
            trunc_div(abs_int(y - max) * rows, span(max)),
        ))
    }
}

/// No step of the `i32` arithmetic of `keypos` overflows.
pub open spec fn keypos_arith_ok(max: int, rows: int, cols: int, x: int, y: int) -> bool {
    (x == 0 && y == 0) || {
        &&& fits_i32(y - max)
        &&& fits_i32(abs_int(y - max))
        &&& fits_i32(abs_int(y - max) * rows)
        &&& fits_i32(max * 2)
        &&& fits_i32(span(max))
        &&& !(abs_int(y - max) * rows == i32::MIN && span(max) == -1)
        &&& fits_i32(x + max)
        &&& fits_i32((x + max) * cols)
        &&& !((x + max) * cols == i32::MIN && span(max) == -1)
    }
}

/// Whether no step of the `i32` arithmetic of `keypos` overflows.
pub fn check_keypos_arith(max: i32, rows: i32, cols: i32, x: i32, y: i32) -> (ok: bool)
    ensures
        ok == keypos_arith_ok(max as int, rows as int, cols as int, x as int, y as int),
{
    if x == 0 && y == 0 {
        return true;
    }
    let lo: i128 = i32::MIN as i128;
    let hi: i128 = i32::MAX as i128;
    let dy: i128 = y as i128 - max as i128;
    let ady: i128 = if dy < 0 { -dy } else { dy };
    let r: i128 = rows as i128;
    assert(-0x1_0000_0000_0000_0000 <= ady * r <= 0x1_0000_0000_0000_0000) by (nonlinear_arith)
        requires
            0 <= ady <= 0x2_0000_0000,
            -0x8000_0000 <= r <= 0x8000_0000,
    ;
    let ny: i128 = ady * r;
    let m2: i128 = max as i128 * 2;
    let den: i128 = m2 + 1;
    let sx: i128 = x as i128 + max as i128;
    let c: i128 = cols as i128;
    assert(-0x1_0000_0000_0000_0000 <= sx * c <= 0x1_0000_0000_0000_0000) by (nonlinear_arith)
        requires
            -0x2_0000_0000 <= sx <= 0x2_0000_0000,
            -0x8000_0000 <= c <= 0x8000_0000,
    ;
    let nx: i128 = sx * c;
    assert(ady == abs_int(y - max));
    lo <= dy && dy <= hi && ady <= hi && lo <= ny && ny <= hi && lo <= m2 && m2 <= hi && lo <= den
        && den <= hi && !(ny == lo && den == -1) && lo <= sx && sx <= hi && lo <= nx && nx <= hi
        && !(nx == lo && den == -1)
}

/// `i32` division rounding toward zero.
pub fn div_trunc(a: i32, b: i32) -> (q: i32)
    requires
        b != 0,
        !(a == i32::MIN && b == -1),
    ensures
        q == trunc_div(a as int, b as int),
{
    let na: i64 = a as i64;
    let nb: i64 = b as i64;
    let ua: u64 = if na < 0 { (-na) as u64 } else { na as u64 };
    let ub: u64 = if nb < 0 { (-nb) as u64 } else { nb as u64 };
    assert(ua == abs_int(a as int) && ub == abs_int(b as int));
    let uq: u64 = ua / ub;
    assert(uq <= ua) by (nonlinear_arith)
        requires
            uq == ua / ub,
            ub >= 1,
    ;
    assert(ub >= 2 ==> uq <= ua / 2) by (nonlinear_arith)
        requires
            uq == ua / ub,
            ub >= 1,
    ;
    let nq: i64 = uq as i64;
    if (a < 0) != (b < 0) {
        (-nq) as i32
    } else {
        assert(nq <= i32::MAX);
        nq as i32
    }
}

/// The absolute value of an `i32` other than `i32::MIN`.
pub fn abs_i32(a: i32) -> (r: i32)
    requires
        a != i32::MIN,
    ensures
        r == abs_int(a as int),
{
    if a < 0 { -a } else { a }
}

/// The position selected by the hat values `x` and `y`; see `keypos`.
pub fn compute_keypos(max: i32, rows: i32, cols: i32, x: i32, y: i32) -> (res: Option<(i32, i32)>)
    requires
        keypos_arith_ok(max as int, rows as int, cols as int, x as int, y as int),
    ensures
        match keypos(max as int, rows as int, cols as int, x as int, y as int) {
            Some((cx, cy)) => res == Some((cx as i32, cy as i32)) && fits_i32(cx) && fits_i32(cy),
            None => res is None,
        },
{
    if x == 0 && y == 0 {
        return None;
    }
    let dy: i32 = abs_i32(y - max) * rows;
    let den: i32 = max * 2 + 1;
    let vy: i32 = div_trunc(dy, den);
    let dx: i32 = (x + max) * cols;
    let vx: i32 = div_trunc(dx, den);
    Some((vx, vy))
}


/// The keys of a row of cells, cell after cell, each cell's four keys in
/// order.
pub open spec fn row_keys(row: Seq<[u16; 4]>) -> Seq<u16>
    decreases row.len(),
{
    if row.len() == 0 {
        Seq::empty()
    } else {
        row_keys(row.drop_last()) + row.last()@
    }
}

/// The keys of a layout, row after row.
pub open spec fn layout_keys(cells: Seq<Vec<[u16; 4]>>) -> Seq<u16>
    decreases cells.len(),
{
    if cells.len() == 0 {
        Seq::empty()
    } else {
        layout_keys(cells.drop_last()) + row_keys(cells.last()@)
    }
}

/// The rows of `cells` are as many as an `i32` holds, at least one, and all
/// as long as the first, whose length an `i32` holds too.
pub open spec fn layout_wf(cells: Seq<Vec<[u16; 4]>>) -> bool {
    &&& 1 <= cells.len() <= i32::MAX
    &&& cells[0]@.len() <= i32::MAX
    &&& forall|r: int| 0 <= r < cells.len() ==> #[trigger] cells[r]@.len() == cells[0]@.len()
}

/// The virtual keyboard: rows of cells, each cell holding four keys, one
/// for each of the four face buttons (south, east, north, west).
pub struct VkbdLayout {
    pub cells: Vec<Vec<[u16; 4]>>,
}

impl VkbdLayout {
    pub open spec fn rows(&self) -> int {
        self.cells@.len() as int
    }

    pub open spec fn cols(&self) -> int {
        self.cells@[0]@.len() as int
    }

    /// The key of face button `section` in the cell at `row` and `col`.
    pub open spec fn key_at(&self, row: int, col: int, section: int) -> u16 {
        self.cells@[row]@[col]@[section]
    }

    pub open spec fn wf(&self) -> bool {
        layout_wf(self.cells@)
    }

    /// A layout from its rows of cells; `None` unless they are well formed.
    pub fn new(cells: Vec<Vec<[u16; 4]>>) -> (res: Option<VkbdLayout>)
        ensures
            res is Some <==> layout_wf(cells@),
            res matches Some(l) ==> l.cells@ == cells@,
    {
        let rows: usize = cells.len();
        if rows == 0 || rows > i32::MAX as usize {
            return None;
        }
        let cols: usize = cells[0].len();
        if cols > i32::MAX as usize {
            return None;
        }
        let mut r: usize = 0;
        while r < rows
            invariant
                rows == cells@.len(),
                cols == cells@[0]@.len(),
                r <= rows,
                forall|i: int| 0 <= i < r ==> #[trigger] cells@[i]@.len() == cols,
            decreases rows - r,
        {
            if cells[r].len() != cols {
                return None;
            }
            r = r + 1;
        }
        Some(VkbdLayout { cells })
    }

    /// Number of rows, as the `i32` that the position arithmetic uses.
    pub fn num_rows(&self) -> (n: i32)
        requires
            self.wf(),
        ensures
            n == self.rows(),
    {
        self.cells.len() as i32
    }

    /// Number of columns, as the `i32` that the position arithmetic uses.
    pub fn num_cols(&self) -> (n: i32)
        requires
            self.wf(),
        ensures
            n == self.cols(),
    {
        self.cells[0].len() as i32
    }

    /// All keys of the layout, row after row, cell after cell.
    pub fn keys(&self) -> (res: Vec<u16>)
        ensures
            res@ == layout_keys(self.cells@),
    {
        let mut res: Vec<u16> = Vec::new();
        let rows: usize = self.cells.len();
        let mut r: usize = 0;
        while r < rows
            invariant
                rows == self.cells@.len(),
                r <= rows,
                res@ == layout_keys(self.cells@.take(r as int)),
            decreases rows - r,
        {
            let row: &Vec<[u16; 4]> = &self.cells[r];
            let ghost before = res@;
            let n: usize = row.len();
            let mut c: usize = 0;
            while c < n
                invariant
                    n == row@.len(),
                    c <= n,
                    res@ == before + row_keys(row@.take(c as int)),
                decreases n - c,
            {
                let cell: [u16; 4] = row[c];
                res.push(cell[0]);
                res.push(cell[1]);
                res.push(cell[2]);
                res.push(cell[3]);
                assert(row@.take(c + 1).drop_last() == row@.take(c as int));
                assert(cell@ == seq![cell@[0], cell@[1], cell@[2], cell@[3]]);
                assert(res@ == before + row_keys(row@.take(c + 1)));
                c = c + 1;
            }
            assert(row@.take(n as int) == row@);
            assert(self.cells@.take(r + 1).drop_last() == self.cells@.take(r as int));
            r = r + 1;
        }
        assert(self.cells@.take(rows as int) == self.cells@);
        res
    }
}

/// Every key of every cell of a row is among the row's keys.
pub proof fn lemma_row_key_listed(row: Seq<[u16; 4]>, c: int, s: int)
    requires
        0 <= c < row.len(),
        0 <= s < 4,
    ensures
        row_keys(row).contains(row[c]@[s]),
    decreases row.len(),
{
    let pre = row_keys(row.drop_last());
    if c == row.len() - 1 {
        assert(row_keys(row)[pre.len() + s] == row[c]@[s]);
    } else {
        lemma_row_key_listed(row.drop_last(), c, s);
        assert(row.drop_last()[c] == row[c]);
        let i = choose|i: int| 0 <= i < pre.len() && pre[i] == row[c]@[s];
        assert(row_keys(row)[i] == pre[i]);
    }
}

/// Every key of every cell of a layout is among the layout's keys.
pub proof fn lemma_layout_key_listed(cells: Seq<Vec<[u16; 4]>>, r: int, c: int, s: int)
    requires
        0 <= r < cells.len(),
        0 <= c < cells[r]@.len(),
        0 <= s < 4,
    ensures
        layout_keys(cells).contains(cells[r]@[c]@[s]),
    decreases cells.len(),
{
    let pre = layout_keys(cells.drop_last());
    if r == cells.len() - 1 {
        lemma_row_key_listed(cells[r]@, c, s);
        let row = row_keys(cells.last()@);
        let i = choose|i: int| 0 <= i < row.len() && row[i] == cells[r]@[c]@[s];
        assert(layout_keys(cells)[pre.len() + i] == row[i]);
    } else {
        lemma_layout_key_listed(cells.drop_last(), r, c, s);
        assert(cells.drop_last()[r] == cells[r]);
        let i = choose|i: int| 0 <= i < pre.len() && pre[i] == cells[r]@[c]@[s];
        assert(layout_keys(cells)[i] == pre[i]);
    }
}

/// A hat position inside the axis range `-max..=max` (other than the rest
/// position) selects a cell inside the layout, and when the span of the
/// axis times the layout's size fits an `i32`, computing it overflows
/// nothing.
pub proof fn lemma_hat_in_range_selects_cell(max: int, rows: int, cols: int, x: int, y: int)
    requires
        0 <= max,
        1 <= rows,
        1 <= cols,
        -max <= x <= max,
        -max <= y <= max,
        !(x == 0 && y == 0),
    ensures
        keypos(max, rows, cols, x, y) matches Some((cx, cy)) && 0 <= cx < cols && 0 <= cy < rows,
        span(max) * rows <= i32::MAX && span(max) * cols <= i32::MAX ==> keypos_arith_ok(
            max,
            rows,
            cols,
            x,
            y,
        ),
{
    let d = span(max);
    let nx = (x + max) * cols;
    let ny = abs_int(y - max) * rows;
    assert(0 <= nx <= 2 * max * cols) by (nonlinear_arith)
        requires
            nx == (x + max) * cols,
            0 <= x + max <= 2 * max,
            cols >= 1,
    ;
    assert(0 <= ny <= 2 * max * rows) by (nonlinear_arith)
        requires
            ny == abs_int(y - max) * rows,
            0 <= abs_int(y - max) <= 2 * max,
            rows >= 1,
    ;
    assert(nx / d < cols) by (nonlinear_arith)
        requires
            0 <= nx <= 2 * max * cols,
            d == 2 * max + 1,
            max >= 0,
            cols >= 1,
    ;
    assert(ny / d < rows) by (nonlinear_arith)
        requires
            0 <= ny <= 2 * max * rows,
            d == 2 * max + 1,
            max >= 0,
            rows >= 1,
    ;
    assert(0 <= nx / d && 0 <= ny / d) by (nonlinear_arith)
        requires
            0 <= nx,
            0 <= ny,
            d >= 1,
    ;
    if d * rows <= i32::MAX && d * cols <= i32::MAX {
        assert(2 * max * rows <= d * rows && 2 * max * cols <= d * cols) by (nonlinear_arith)
            requires
                d == 2 * max + 1,
                rows >= 1,
                cols >= 1,
        ;
        assert(d <= d * rows) by (nonlinear_arith)
            requires
                d >= 1,
                rows >= 1,
        ;
    }
}

} // verus!
