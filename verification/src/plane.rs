//! Stride correction for decoded pixel planes. A scaled plane often
//! carries padding samples at the end of each row; treating the plane
//! as row-major with the padded row length recovers correct
//! coordinates, and everything past the logical width falls out of
//! bounds and is dropped by the grid.

use vstd::prelude::*;

verus! {

use vstd::arithmetic::div_mod::lemma_div_nonincreasing;
use vstd::arithmetic::div_mod::lemma_div_pos_is_pos;

use crate::position::Position;
use crate::screen::pos_of;

/// The padded row length of a plane: the target columns plus the
/// excess samples spread evenly across the rows.
pub open spec fn spec_real_cols(plane_len: int, cols: int, rows: int) -> int {
    cols + (plane_len - cols * rows) / rows
}

/// The plane fits the stride model: a non-empty target grid, at least
/// one sample per cell, and padding that divides evenly across rows.
pub open spec fn plane_dims_ok(plane_len: int, cols: int, rows: int) -> bool {
    &&& 0 < cols
    &&& 0 < rows
    &&& cols * rows <= plane_len
    &&& (plane_len - cols * rows) % rows == 0
}

/// Checks the stride-model precondition explicitly, so that a caller
/// never feeds the mapper dimensions whose padding would be silently
/// truncated.
pub fn valid_plane_dims(plane_len: usize, cols: i32, rows: i32) -> (ok: bool)
    ensures
        ok <==> plane_dims_ok(plane_len as int, cols as int, rows as int),
{
    if cols <= 0 || rows <= 0 {
        return false;
    }
    proof {
        assert((cols as int) * (rows as int) <= 0x8000_0000 * 0x8000_0000) by (nonlinear_arith)
            requires
                0 < cols <= 0x8000_0000,
                0 < rows <= 0x8000_0000,
        ;
    }
    let total: u128 = (cols as u128) * (rows as u128);
    if (plane_len as u128) < total {
        return false;
    }
    let excess: u128 = (plane_len as u128) - total;
    excess % (rows as u128) == 0
}

/// The padded row length, computed as the source declares it: target
/// columns plus the per-row share of the excess samples.
pub fn real_cols(plane_len: usize, cols: i32, rows: i32) -> (rc: i32)
    requires
        plane_dims_ok(plane_len as int, cols as int, rows as int),
        plane_len <= i32::MAX,
    ensures
        rc == spec_real_cols(plane_len as int, cols as int, rows as int),
        cols <= rc,
        0 < rc,
{
    let excess: i32 = (plane_len as i32) - cols * rows;
    proof {
        lemma_div_pos_is_pos(excess as int, rows as int);
        lemma_div_nonincreasing(excess as int, rows as int);
        assert(cols <= cols * rows) by (nonlinear_arith)
            requires
                1 <= rows,
                0 < cols,
        ;
    }
    cols + excess / rows
}

/// Where sample `index` of a plane `real_cols` wide lands on the grid:
/// row-major with the padded row length.
pub fn plane_position(index: usize, real_cols: i32) -> (p: Position)
    requires
        0 < real_cols,
        index <= i32::MAX,
    ensures
        p == pos_of(index as int, real_cols as int),
        p.col == index as int % real_cols as int,
        p.row == index as int / real_cols as int,
        0 <= p.col < real_cols,
        0 <= p.row <= index,
{
    let i: i32 = index as i32;
    proof {
        lemma_div_pos_is_pos(i as int, real_cols as int);
        lemma_div_nonincreasing(i as int, real_cols as int);
    }
    Position::new(i % real_cols, i / real_cols)
}

} // verus!
