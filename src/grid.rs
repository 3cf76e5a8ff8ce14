//! The mapping from USV structure to worksheet cells, as mathematics.
//!
//! Record `i` of a group becomes row `i` of its worksheet and unit `j` of that
//! record becomes column `j`. The writer stores no cell for an empty unit.

use vstd::prelude::*;
use crate::xlsx::cell_fits;

verus! {

/// `(i1, j1)` comes strictly before `(i2, j2)` in row-major order.
pub open spec fn precedes(i1: int, j1: int, i2: int, j2: int) -> bool {
    i1 < i2 || (i1 == i2 && j1 < j2)
}

/// `(i, j)` names a unit of `recs`.
pub open spec fn is_unit(recs: Seq<Seq<Seq<char>>>, i: int, j: int) -> bool {
    0 <= i < recs.len() && 0 <= j < recs[i].len()
}

/// The cells written for the units of `recs` that come before `(i, j)`.
pub open spec fn grid_upto(recs: Seq<Seq<Seq<char>>>, i: int, j: int) -> Map<(u32, u16), Seq<char>> {
    Map::new(
        |k: (u32, u16)|
            is_unit(recs, k.0 as int, k.1 as int) && recs[k.0 as int][k.1 as int].len() > 0
                && precedes(k.0 as int, k.1 as int, i, j),
        |k: (u32, u16)| recs[k.0 as int][k.1 as int],
    )
}

/// The cells of the worksheet made from the records `recs`: the text of
/// unit `j` of record `i` at (`i`, `j`), for each unit that is not empty.
pub open spec fn grid_of(recs: Seq<Seq<Seq<char>>>) -> Map<(u32, u16), Seq<char>> {
    Map::new(
        |k: (u32, u16)| is_unit(recs, k.0 as int, k.1 as int) && recs[k.0 as int][k.1 as int].len() > 0,
        |k: (u32, u16)| recs[k.0 as int][k.1 as int],
    )
}

/// The cells of each worksheet made from `groups`, in order.
pub open spec fn sheets_of(groups: Seq<Seq<Seq<Seq<char>>>>) -> Seq<Map<(u32, u16), Seq<char>>> {
    groups.map_values(|g: Seq<Seq<Seq<char>>>| grid_of(g))
}

/// The writer accepts every unit of `recs` at its place.
pub open spec fn records_fit(recs: Seq<Seq<Seq<char>>>) -> bool {
    forall|i: int, j: int| is_unit(recs, i, j) ==> cell_fits(i, j, #[trigger] recs[i][j])
}

/// The writer accepts every unit of every group.
pub open spec fn groups_fit(groups: Seq<Seq<Seq<Seq<char>>>>) -> bool {
    forall|g: int| 0 <= g < groups.len() ==> records_fit(#[trigger] groups[g])
}

/// `(i, j)` is the first unit of `recs`, in row-major order, that the writer
/// refuses.
pub open spec fn first_misfit(recs: Seq<Seq<Seq<char>>>, i: int, j: int) -> bool {
    &&& is_unit(recs, i, j)
    &&& !cell_fits(i, j, recs[i][j])
    &&& forall|i2: int, j2: int|
        is_unit(recs, i2, j2) && precedes(i2, j2, i, j) ==> cell_fits(i2, j2, #[trigger] recs[i2][j2])
}

/// Unit `(i, j)` of group `g` is the first unit of `groups` that the writer
/// refuses: every earlier group fits and it is the first misfit of its own.
pub open spec fn first_misfit_in(groups: Seq<Seq<Seq<Seq<char>>>>, g: int, i: int, j: int) -> bool {
    &&& 0 <= g < groups.len()
    &&& forall|h: int| 0 <= h < g ==> records_fit(#[trigger] groups[h])
    &&& first_misfit(groups[g], i, j)
}

} // verus!
