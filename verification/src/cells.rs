//! Reading values out of a fetched spreadsheet grid.
//!
//! A range fetch yields an optional grid of rows of cell strings; the grid,
//! any row, or any cell may be absent. Absence is not an error: an absent
//! grid, row, or cell reads as the empty string (or the empty column), and
//! only transport failures — handled outside this crate — abort a job.

use vstd::prelude::*;
use crate::text::spec_normalize_cell;
use crate::text::normalize_cell;

verus! {

/// An absent grid reads as a grid with no rows.
pub open spec fn spec_grid(g: Option<Seq<Seq<Seq<char>>>>) -> Seq<Seq<Seq<char>>> {
    match g {
        Some(rows) => rows,
        None => Seq::empty(),
    }
}

/// The first cell of the first row, or the empty string where the grid is
/// empty or its first row has no cells.
pub open spec fn spec_first_cell(rows: Seq<Seq<Seq<char>>>) -> Seq<char> {
    if rows.len() > 0 && rows[0].len() > 0 {
        rows[0][0]
    } else {
        Seq::empty()
    }
}

/// Each row's first cell, in row order; a row with no cells reads as the
/// empty string. The column is as long as the grid.
pub open spec fn spec_first_column(rows: Seq<Seq<Seq<char>>>) -> Seq<Seq<char>> {
    Seq::new(rows.len(), |i: int| if rows[i].len() > 0 { rows[i][0] } else { Seq::empty() })
}

/// The value of a column at a row index; a row past the column's end reads
/// as the empty string.
pub open spec fn spec_value_at(col: Seq<Seq<char>>, i: int) -> Seq<char> {
    if 0 <= i < col.len() {
        col[i]
    } else {
        Seq::empty()
    }
}

/// A single-cell read: the first cell of the first row of the grid (empty
/// where absent), normalized as every single-cell fetch is.
pub fn read_cell(grid: &Option<Vec<Vec<String>>>) -> (r: String)
    ensures
        r@ == spec_normalize_cell(spec_first_cell(spec_grid(grid.deep_view()))),
{
    let raw: &str = match grid {
        Some(rows) => {
            if rows.len() > 0 && rows[0].len() > 0 {
                rows[0][0].as_str()
            } else {
                ""
            }
        },
        None => "",
    };
    proof {
        reveal_strlit("");
        assert(raw@ =~= spec_first_cell(spec_grid(grid.deep_view())));
    }
    normalize_cell(raw)
}

/// A range read: each row's first cell, empty where the row has no cells.
pub fn first_column(grid: &Option<Vec<Vec<String>>>) -> (r: Vec<String>)
    ensures
        r.deep_view() == spec_first_column(spec_grid(grid.deep_view())),
{
    let mut out: Vec<String> = Vec::new();
    match grid {
        Some(rows) => {
            let n = rows.len();
            let mut i: usize = 0;
            while i < n
                invariant
                    n == rows@.len(),
                    i <= n,
                    grid == Some(*rows),
                    out.deep_view() =~= spec_first_column(spec_grid(grid.deep_view())).subrange(
                        0,
                        i as int,
                    ),
                decreases n - i,
            {
                let ghost prefix = out.deep_view();
                if rows[i].len() > 0 {
                    out.push(rows[i][0].clone());
                    proof {
                        assert(out.deep_view() =~= prefix.push(rows@[i as int]@[0]@));
                        assert(spec_first_column(spec_grid(grid.deep_view()))[i as int]
                            == rows@[i as int]@[0]@);
                    }
                } else {
                    out.push(String::new());
                    proof {
                        assert(out.deep_view() =~= prefix.push(Seq::<char>::empty()));
                        assert(spec_first_column(spec_grid(grid.deep_view()))[i as int]
                            =~= Seq::<char>::empty());
                    }
                }
                i = i + 1;
            }
            proof {
                assert(spec_first_column(spec_grid(grid.deep_view())).subrange(
                    0,
                    n as int,
                ) =~= spec_first_column(spec_grid(grid.deep_view())));
                assert(out.deep_view() =~= spec_first_column(spec_grid(grid.deep_view())));
            }
        },
        None => {
            proof {
                assert(out.deep_view() =~= spec_first_column(spec_grid(grid.deep_view())));
            }
        },
    }
    out
}

/// Reads a column at a row index; rows past the column's end read as empty.
pub fn value_at(col: &Vec<String>, i: usize) -> (r: String)
    ensures
        r@ == spec_value_at(col.deep_view(), i as int),
{
    if i < col.len() {
        col[i].clone()
    } else {
        String::new()
    }
}

} // verus!
