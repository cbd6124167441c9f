//! Detection of a straight line of one player's marks on a rectangular board.
//!
//! A board is seen through `cell(r, c)`: whether the player holds the cell at
//! row `r` and column `c`. Lines run along a row, along a column, or along one
//! of the two diagonals.

use vstd::prelude::*;

verus! {

/// The player holds the cell `(r, c)`, which lies on the board.
pub open spec fn owned(cell: spec_fn(int, int) -> bool, rows: int, cols: int, r: int, c: int) -> bool {
    0 <= r < rows && 0 <= c < cols && cell(r, c)
}

/// Moves `x` by `i` steps in direction `d` (`0`, positive or negative).
pub open spec fn step(x: int, d: int, i: int) -> int {
    if d == 0 {
        x
    } else if d > 0 {
        x + i
    } else {
        x - i
    }
}

/// The `i`-th cell of the line that starts at `(r, c)` and runs in direction `(dr, dc)` is held.
pub open spec fn line_cell(
    cell: spec_fn(int, int) -> bool,
    rows: int,
    cols: int,
    r: int,
    c: int,
    dr: int,
    dc: int,
    i: int,
) -> bool {
    owned(cell, rows, cols, step(r, dr, i), step(c, dc, i))
}

/// The `len` cells from `(r, c)` in direction `(dr, dc)` are all held.
pub open spec fn line_at(
    cell: spec_fn(int, int) -> bool,
    rows: int,
    cols: int,
    r: int,
    c: int,
    dr: int,
    dc: int,
    len: int,
) -> bool {
    forall|i: int| 0 <= i < len ==> #[trigger] line_cell(cell, rows, cols, r, c, dr, dc, i)
}

/// A line of `len` held cells starts at `(r, c)`: to the right, downwards,
/// down-right or down-left.
pub open spec fn line_from(
    cell: spec_fn(int, int) -> bool,
    rows: int,
    cols: int,
    r: int,
    c: int,
    len: int,
) -> bool {
    ||| line_at(cell, rows, cols, r, c, 0, 1, len)
    ||| line_at(cell, rows, cols, r, c, 1, 0, len)
    ||| line_at(cell, rows, cols, r, c, 1, 1, len)
    ||| line_at(cell, rows, cols, r, c, 1, -1, len)
}

/// Somewhere on the board the player holds `len` cells in a straight line.
pub open spec fn has_line(cell: spec_fn(int, int) -> bool, rows: int, cols: int, len: int) -> bool {
    exists|r: int, c: int| #[trigger] line_from(cell, rows, cols, r, c, len)
}

/// `mask` has `rows` rows of `cols` cells and says of each cell what `cell` says.
pub open spec fn mask_matches(
    mask: Seq<Vec<bool>>,
    cell: spec_fn(int, int) -> bool,
    rows: int,
    cols: int,
) -> bool {
    &&& mask.len() == rows
    &&& forall|r: int| 0 <= r < rows ==> #[trigger] mask[r]@.len() == cols
    &&& forall|r: int, c: int| 0 <= r < rows && 0 <= c < cols ==> mask[r]@[c] == cell(r, c)
}

/// A line of more than `len` held cells holds one of `len` cells: its first `len`.
pub proof fn lemma_longer_line(
    cell: spec_fn(int, int) -> bool,
    rows: int,
    cols: int,
    r: int,
    c: int,
    dr: int,
    dc: int,
    longer: int,
    len: int,
)
    requires
        len <= longer,
        line_at(cell, rows, cols, r, c, dr, dc, longer),
    ensures
        line_at(cell, rows, cols, r, c, dr, dc, len),
{
    assert forall|i: int| 0 <= i < len implies #[trigger] line_cell(cell, rows, cols, r, c, dr, dc, i) by {
        assert(line_cell(cell, rows, cols, r, c, dr, dc, i));
    }
}

/// A run of `longer` held cells along a row, a column or a diagonal, with
/// `longer` at least `len`, is a line of `len` held cells.
pub proof fn lemma_long_run_is_line(
    cell: spec_fn(int, int) -> bool,
    rows: int,
    cols: int,
    r: int,
    c: int,
    dr: int,
    dc: int,
    longer: int,
    len: int,
)
    requires
        len <= longer,
        (dr, dc) == (0int, 1int) || (dr, dc) == (1int, 0int) || (dr, dc) == (1int, 1int) || (dr, dc) == (1int, -1int),
        line_at(cell, rows, cols, r, c, dr, dc, longer),
    ensures
        has_line(cell, rows, cols, len),
{
    lemma_longer_line(cell, rows, cols, r, c, dr, dc, longer, len);
    assert(line_from(cell, rows, cols, r, c, len));
}

/// A line whose first cell is not held is no line.
proof fn lemma_first_cell(
    cell: spec_fn(int, int) -> bool,
    rows: int,
    cols: int,
    r: int,
    c: int,
    dr: int,
    dc: int,
    len: int,
)
    requires
        len >= 1,
        !owned(cell, rows, cols, r, c),
    ensures
        !line_at(cell, rows, cols, r, c, dr, dc, len),
{
    assert(!line_cell(cell, rows, cols, r, c, dr, dc, 0));
}

/// A line whose `i`-th cell is not held is no line.
proof fn lemma_gap(
    cell: spec_fn(int, int) -> bool,
    rows: int,
    cols: int,
    r: int,
    c: int,
    dr: int,
    dc: int,
    len: int,
    i: int,
)
    requires
        0 <= i < len,
        !line_cell(cell, rows, cols, r, c, dr, dc, i),
    ensures
        !line_at(cell, rows, cols, r, c, dr, dc, len),
{
}

/// Scans row `r` with a running count of consecutive held cells.
fn row_has_line(mask: &Vec<Vec<bool>>, rows: usize, cols: usize, len: usize, r: usize, Ghost(
    cell,
): Ghost<spec_fn(int, int) -> bool>) -> (found: bool)
    requires
        mask_matches(mask@, cell, rows as int, cols as int),
        len >= 1,
        r < rows,
    ensures
        found ==> exists|c: int| #[trigger] line_at(cell, rows as int, cols as int, r as int, c, 0, 1, len as int),
        !found ==> forall|c: int| !#[trigger] line_at(cell, rows as int, cols as int, r as int, c, 0, 1, len as int),
{
    let mut count: usize = 0;
    let mut c: usize = 0;
    proof {
        assert forall|c0: int| c0 + len <= 0 implies !line_at(cell, rows as int, cols as int, r as int, c0, 0, 1, len as int) by {
            lemma_first_cell(cell, rows as int, cols as int, r as int, c0, 0, 1, len as int);
        }
    }
    while c < cols
        invariant
            mask_matches(mask@, cell, rows as int, cols as int),
            len >= 1,
            r < rows,
            c <= cols,
            count <= c,
            count < len,
            forall|k: int| c - count <= k < c ==> owned(cell, rows as int, cols as int, r as int, k),
            count < c ==> !owned(cell, rows as int, cols as int, r as int, c - 1 - count),
            forall|c0: int|
                c0 + len <= c ==> !line_at(cell, rows as int, cols as int, r as int, c0, 0, 1, len as int),
        decreases cols - c,
    {
        let held = mask[r][c];
        if held {
            count = count + 1;
            if count >= len {
                let ghost c0 = c + 1 - len;
                assert forall|i: int| 0 <= i < len implies #[trigger] line_cell(
                    cell,
                    rows as int,
                    cols as int,
                    r as int,
                    c0,
                    0,
                    1,
                    i,
                ) by {
                    assert(owned(cell, rows as int, cols as int, r as int, c0 + i));
                }
                assert(line_at(cell, rows as int, cols as int, r as int, c0, 0, 1, len as int));
                return true;
            }
            proof {
                let c0 = c + 1 - len;
                if c0 < 0 {
                    lemma_first_cell(cell, rows as int, cols as int, r as int, c0, 0, 1, len as int);
                } else {
                    let gap = c - count;
                    assert(!line_cell(cell, rows as int, cols as int, r as int, c0, 0, 1, gap - c0));
                    lemma_gap(cell, rows as int, cols as int, r as int, c0, 0, 1, len as int, gap - c0);
                }
            }
        } else {
            proof {
                let c0 = c + 1 - len;
                assert(!line_cell(cell, rows as int, cols as int, r as int, c0, 0, 1, len - 1));
                lemma_gap(cell, rows as int, cols as int, r as int, c0, 0, 1, len as int, len - 1);
            }
            count = 0;
        }
        c = c + 1;
    }
    proof {
        assert forall|c0: int| !line_at(cell, rows as int, cols as int, r as int, c0, 0, 1, len as int) by {
            if c0 + len > cols {
                let last = len - 1;
                assert(!line_cell(cell, rows as int, cols as int, r as int, c0, 0, 1, last));
                lemma_gap(cell, rows as int, cols as int, r as int, c0, 0, 1, len as int, last);
            }
        }
    }
    false
}

/// Scans column `c` with a running count of consecutive held cells.
fn column_has_line(mask: &Vec<Vec<bool>>, rows: usize, cols: usize, len: usize, c: usize, Ghost(
    cell,
): Ghost<spec_fn(int, int) -> bool>) -> (found: bool)
    requires
        mask_matches(mask@, cell, rows as int, cols as int),
        len >= 1,
        c < cols,
    ensures
        found ==> exists|r: int| #[trigger] line_at(cell, rows as int, cols as int, r, c as int, 1, 0, len as int),
        !found ==> forall|r: int| !#[trigger] line_at(cell, rows as int, cols as int, r, c as int, 1, 0, len as int),
{
    let mut count: usize = 0;
    let mut r: usize = 0;
    proof {
        assert forall|r0: int| r0 + len <= 0 implies !line_at(cell, rows as int, cols as int, r0, c as int, 1, 0, len as int) by {
            lemma_first_cell(cell, rows as int, cols as int, r0, c as int, 1, 0, len as int);
        }
    }
    while r < rows
        invariant
            mask_matches(mask@, cell, rows as int, cols as int),
            len >= 1,
            c < cols,
            r <= rows,
            count <= r,
            count < len,
            forall|k: int| r - count <= k < r ==> owned(cell, rows as int, cols as int, k, c as int),
            count < r ==> !owned(cell, rows as int, cols as int, r - 1 - count, c as int),
            forall|r0: int|
                r0 + len <= r ==> !line_at(cell, rows as int, cols as int, r0, c as int, 1, 0, len as int),
        decreases rows - r,
    {
        let held = mask[r][c];
        if held {
            count = count + 1;
            if count >= len {
                let ghost r0 = r + 1 - len;
                assert forall|i: int| 0 <= i < len implies #[trigger] line_cell(
                    cell,
                    rows as int,
                    cols as int,
                    r0,
                    c as int,
                    1,
                    0,
                    i,
                ) by {
                    assert(owned(cell, rows as int, cols as int, r0 + i, c as int));
                }
                assert(line_at(cell, rows as int, cols as int, r0, c as int, 1, 0, len as int));
                return true;
            }
            proof {
                let r0 = r + 1 - len;
                if r0 < 0 {
                    lemma_first_cell(cell, rows as int, cols as int, r0, c as int, 1, 0, len as int);
                } else {
                    let gap = r - count;
                    assert(!line_cell(cell, rows as int, cols as int, r0, c as int, 1, 0, gap - r0));
                    lemma_gap(cell, rows as int, cols as int, r0, c as int, 1, 0, len as int, gap - r0);
                }
            }
        } else {
            proof {
                let r0 = r + 1 - len;
                assert(!line_cell(cell, rows as int, cols as int, r0, c as int, 1, 0, len - 1));
                lemma_gap(cell, rows as int, cols as int, r0, c as int, 1, 0, len as int, len - 1);
            }
            count = 0;
        }
        r = r + 1;
    }
    proof {
        assert forall|r0: int| !line_at(cell, rows as int, cols as int, r0, c as int, 1, 0, len as int) by {
            if r0 + len > rows {
                let last = len - 1;
                assert(!line_cell(cell, rows as int, cols as int, r0, c as int, 1, 0, last));
                lemma_gap(cell, rows as int, cols as int, r0, c as int, 1, 0, len as int, last);
            }
        }
    }
    false
}

/// Checks the `len` cells of one diagonal from `(r, c)`: down-right, or
/// down-left when `leftward`.
fn diagonal_held(
    mask: &Vec<Vec<bool>>,
    rows: usize,
    cols: usize,
    len: usize,
    r: usize,
    c: usize,
    leftward: bool,
    Ghost(cell): Ghost<spec_fn(int, int) -> bool>,
) -> (held: bool)
    requires
        mask_matches(mask@, cell, rows as int, cols as int),
        r + len <= rows,
        leftward ==> len <= c + 1 && c < cols,
        !leftward ==> c + len <= cols,
    ensures
        held == line_at(cell, rows as int, cols as int, r as int, c as int, 1, if leftward { -1 } else { 1 }, len as int),
{
    let ghost dc: int = if leftward { -1 } else { 1 };
    let mut i: usize = 0;
    while i < len
        invariant
            mask_matches(mask@, cell, rows as int, cols as int),
            r + len <= rows,
            leftward ==> len <= c + 1 && c < cols,
            !leftward ==> c + len <= cols,
            dc == if leftward { -1int } else { 1int },
            i <= len,
            forall|j: int| 0 <= j < i ==> #[trigger] line_cell(cell, rows as int, cols as int, r as int, c as int, 1, dc, j),
        decreases len - i,
    {
        let col = if leftward { c - i } else { c + i };
        if !mask[r + i][col] {
            assert(!line_cell(cell, rows as int, cols as int, r as int, c as int, 1, dc, i as int));
            return false;
        }
        assert(line_cell(cell, rows as int, cols as int, r as int, c as int, 1, dc, i as int));
        i = i + 1;
    }
    true
}

/// Whether the board holds a line of `len` of the player's cells, in any
/// row, column or diagonal.
pub(crate) fn find_line(mask: &Vec<Vec<bool>>, rows: usize, cols: usize, len: usize, Ghost(
    cell,
): Ghost<spec_fn(int, int) -> bool>) -> (found: bool)
    requires
        mask_matches(mask@, cell, rows as int, cols as int),
        len >= 1,
    ensures
        found == has_line(cell, rows as int, cols as int, len as int),
{
    let ghost (ri, ci, li) = (rows as int, cols as int, len as int);
    let mut r: usize = 0;
    while r < rows
        invariant
            mask_matches(mask@, cell, ri, ci),
            ri == rows && ci == cols && li == len,
            len >= 1,
            r <= rows,
            forall|r0: int, c0: int| 0 <= r0 < r ==> !#[trigger] line_at(cell, ri, ci, r0, c0, 0, 1, li),
        decreases rows - r,
    {
        if row_has_line(mask, rows, cols, len, r, Ghost(cell)) {
            proof {
                let c0 = choose|c0: int| #[trigger] line_at(cell, ri, ci, r as int, c0, 0, 1, li);
                assert(line_from(cell, ri, ci, r as int, c0, li));
            }
            return true;
        }
        r = r + 1;
    }
    let mut c: usize = 0;
    while c < cols
        invariant
            mask_matches(mask@, cell, ri, ci),
            ri == rows && ci == cols && li == len,
            len >= 1,
            c <= cols,
            forall|r0: int, c0: int| 0 <= r0 < rows ==> !#[trigger] line_at(cell, ri, ci, r0, c0, 0, 1, li),
            forall|r0: int, c0: int| 0 <= c0 < c ==> !#[trigger] line_at(cell, ri, ci, r0, c0, 1, 0, li),
        decreases cols - c,
    {
        if column_has_line(mask, rows, cols, len, c, Ghost(cell)) {
            proof {
                let r0 = choose|r0: int| #[trigger] line_at(cell, ri, ci, r0, c as int, 1, 0, li);
                assert(line_from(cell, ri, ci, r0, c as int, li));
            }
            return true;
        }
        c = c + 1;
    }
    if len <= rows && len <= cols {
        let mut sr: usize = 0;
        while sr <= rows - len
            invariant
                mask_matches(mask@, cell, ri, ci),
                ri == rows && ci == cols && li == len,
                1 <= len <= rows && len <= cols,
                sr <= rows - len + 1,
                forall|r0: int, c0: int|
                    0 <= r0 < sr && 0 <= c0 <= cols - len ==> !#[trigger] line_at(cell, ri, ci, r0, c0, 1, 1, li),
                forall|r0: int, c0: int|
                    0 <= r0 < sr && len - 1 <= c0 < cols ==> !#[trigger] line_at(cell, ri, ci, r0, c0, 1, -1, li),
            decreases rows - len + 1 - sr,
        {
            let mut sc: usize = 0;
            while sc <= cols - len
                invariant
                    mask_matches(mask@, cell, ri, ci),
                    ri == rows && ci == cols && li == len,
                    1 <= len <= rows && len <= cols,
                    sr <= rows - len,
                    sc <= cols - len + 1,
                    forall|c0: int| 0 <= c0 < sc ==> !#[trigger] line_at(cell, ri, ci, sr as int, c0, 1, 1, li),
                decreases cols - len + 1 - sc,
            {
                if diagonal_held(mask, rows, cols, len, sr, sc, false, Ghost(cell)) {
                    assert(line_from(cell, ri, ci, sr as int, sc as int, li));
                    return true;
                }
                sc = sc + 1;
            }
            let mut sc: usize = len - 1;
            while sc < cols
                invariant
                    mask_matches(mask@, cell, ri, ci),
                    ri == rows && ci == cols && li == len,
                    1 <= len <= rows && len <= cols,
                    sr <= rows - len,
                    len - 1 <= sc <= cols,
                    forall|c0: int| len - 1 <= c0 < sc ==> !#[trigger] line_at(cell, ri, ci, sr as int, c0, 1, -1, li),
                decreases cols - sc,
            {
                if diagonal_held(mask, rows, cols, len, sr, sc, true, Ghost(cell)) {
                    assert(line_from(cell, ri, ci, sr as int, sc as int, li));
                    return true;
                }
                sc = sc + 1;
            }
            sr = sr + 1;
        }
    }
    proof {
        assert forall|r0: int, c0: int| !#[trigger] line_from(cell, ri, ci, r0, c0, li) by {
            lemma_no_line_outside(cell, ri, ci, r0, c0, li);
        }
    }
    false
}

/// Lines that would leave the board are no lines: what the scans of
/// `find_line` leave out cannot hold a line.
proof fn lemma_no_line_outside(cell: spec_fn(int, int) -> bool, rows: int, cols: int, r: int, c: int, len: int)
    requires
        len >= 1,
    ensures
        (r < 0 || r >= rows) ==> !line_at(cell, rows, cols, r, c, 0, 1, len),
        (c < 0 || c >= cols) ==> !line_at(cell, rows, cols, r, c, 1, 0, len),
        !(0 <= r <= rows - len && 0 <= c <= cols - len) ==> !line_at(cell, rows, cols, r, c, 1, 1, len),
        !(0 <= r <= rows - len && len - 1 <= c < cols) ==> !line_at(cell, rows, cols, r, c, 1, -1, len),
{
    let last = len - 1;
    if r < 0 || r >= rows || c < 0 || c >= cols {
        lemma_first_cell(cell, rows, cols, r, c, 0, 1, len);
        lemma_first_cell(cell, rows, cols, r, c, 1, 0, len);
        lemma_first_cell(cell, rows, cols, r, c, 1, 1, len);
        lemma_first_cell(cell, rows, cols, r, c, 1, -1, len);
    }
    if r > rows - len || c > cols - len {
        assert(!line_cell(cell, rows, cols, r, c, 1, 1, last));
        lemma_gap(cell, rows, cols, r, c, 1, 1, len, last);
    }
    if r > rows - len || c < len - 1 {
        assert(!line_cell(cell, rows, cols, r, c, 1, -1, last));
        lemma_gap(cell, rows, cols, r, c, 1, -1, len, last);
    }
}

/// A copy of a board, row by row and cell by cell.
pub(crate) fn copy_rows<T: Copy>(board: &Vec<Vec<T>>) -> (r: Vec<Vec<T>>)
    ensures
        r@.len() == board@.len(),
        forall|i: int| 0 <= i < board@.len() ==> (#[trigger] r@[i])@ == board@[i]@,
{
    let mut out: Vec<Vec<T>> = Vec::new();
    let mut i: usize = 0;
    while i < board.len()
        invariant
            i <= board@.len(),
            out@.len() == i,
            forall|k: int| 0 <= k < i ==> (#[trigger] out@[k])@ == board@[k]@,
        decreases board@.len() - i,
    {
        let mut row: Vec<T> = Vec::new();
        let mut j: usize = 0;
        while j < board[i].len()
            invariant
                i < board@.len(),
                j <= board@[i as int]@.len(),
                row@ == board@[i as int]@.subrange(0, j as int),
            decreases board@[i as int]@.len() - j,
        {
            row.push(board[i][j]);
            j = j + 1;
        }
        assert(row@ == board@[i as int]@);
        out.push(row);
        i = i + 1;
    }
    out
}

/// The number of cells of a board of `rows` by `cols`.
pub fn cell_count(rows: u32, cols: u32) -> (r: u64)
    ensures
        r == rows * cols,
{
    proof {
        let (a, b) = (rows as int, cols as int);
        assert(a * b <= 0xffff_ffff * 0xffff_ffff) by (nonlinear_arith)
            requires
                0 <= a <= 0xffff_ffff,
                0 <= b <= 0xffff_ffff,
        ;
    }
    rows as u64 * cols as u64
}

} // verus!
