//! Laws of the conversion, proved from the contracts of `convert`.

use vstd::prelude::*;
use rust_xlsxwriter::Workbook;
use crate::convert::{book_result, ConvertError};
use crate::grid::{first_misfit_in, grid_of, is_unit, records_fit, precedes};
use crate::tokens::usv_groups;
use crate::xlsx::{book_sheets, cell_fits};

verus! {

/// Order is kept: in a workbook converted from `groups`, the cell at row `i`,
/// column `j` of worksheet `g` holds unit `j` of record `i` of group `g`, for
/// every unit that is not empty.
pub proof fn lemma_cells_follow_units(groups: Seq<Seq<Seq<Seq<char>>>>, b: Workbook)
    requires
        book_result(groups, Ok(b)),
    ensures
        forall|g: int, i: int, j: int|
            0 <= g < groups.len() && is_unit(groups[g], i, j) && #[trigger] groups[g][i][j].len() > 0
                ==> book_sheets(b)[g].contains_key((i as u32, j as u16)) && book_sheets(b)[g][(
                i as u32,
                j as u16,
            )] == groups[g][i][j],
{
    assert forall|g: int, i: int, j: int|
        0 <= g < groups.len() && is_unit(groups[g], i, j) && #[trigger] groups[g][i][j].len()
            > 0 implies book_sheets(b)[g].contains_key((i as u32, j as u16)) && book_sheets(b)[g][(
        i as u32,
        j as u16,
    )] == groups[g][i][j] by {
        assert(records_fit(groups[g]));
        assert(cell_fits(i, j, groups[g][i][j]));
        let k = (i as u32, j as u16);
        assert(k.0 as int == i && k.1 as int == j);
        assert(book_sheets(b)[g] == grid_of(groups[g]));
    }
}

/// Counts are kept: a workbook converted from `groups` has one worksheet per
/// group, and worksheet `g` has a cell at row `i`, column `j` exactly when
/// record `i` of group `g` has a unit `j` that is not empty.
pub proof fn lemma_counts_follow_structure(groups: Seq<Seq<Seq<Seq<char>>>>, b: Workbook)
    requires
        book_result(groups, Ok(b)),
    ensures
        book_sheets(b).len() == groups.len(),
        forall|g: int, k: (u32, u16)|
            0 <= g < groups.len() ==> (#[trigger] book_sheets(b)[g].contains_key(k) <==> (is_unit(
                groups[g],
                k.0 as int,
                k.1 as int,
            ) && groups[g][k.0 as int][k.1 as int].len() > 0)),
{
    assert forall|g: int, k: (u32, u16)| 0 <= g < groups.len() implies (
    #[trigger] book_sheets(b)[g].contains_key(k) <==> (is_unit(groups[g], k.0 as int, k.1 as int)
        && groups[g][k.0 as int][k.1 as int].len() > 0)) by {
        assert(book_sheets(b)[g] == grid_of(groups[g]));
    }
}

/// No groups give a workbook without worksheets, and no error.
pub proof fn lemma_no_groups_no_worksheets(r: Result<Workbook, ConvertError>)
    requires
        book_result(Seq::empty(), r),
    ensures
        r matches Ok(b) && book_sheets(b).len() == 0,
{
}

/// A group without records gives a worksheet without cells.
pub proof fn lemma_empty_group_empty_worksheet(groups: Seq<Seq<Seq<Seq<char>>>>, b: Workbook, g: int)
    requires
        book_result(groups, Ok(b)),
        0 <= g < groups.len(),
        groups[g].len() == 0,
    ensures
        book_sheets(b)[g].dom().is_empty(),
{
    assert(book_sheets(b)[g] == grid_of(groups[g]));
    assert(book_sheets(b)[g].dom() =~= Set::empty());
}

/// A record without units gives a row without cells, and still takes its
/// row: the records after it keep their own row numbers.
pub proof fn lemma_empty_record_keeps_its_row(groups: Seq<Seq<Seq<Seq<char>>>>, b: Workbook, g: int, i: int)
    requires
        book_result(groups, Ok(b)),
        0 <= g < groups.len(),
        0 <= i < groups[g].len(),
        groups[g][i].len() == 0,
    ensures
        forall|k: (u32, u16)| k.0 == i ==> !(#[trigger] book_sheets(b)[g].contains_key(k)),
        forall|i2: int, j: int|
            i < i2 && is_unit(groups[g], i2, j) && #[trigger] groups[g][i2][j].len() > 0
                ==> book_sheets(b)[g].contains_key((i2 as u32, j as u16)),
{
    lemma_counts_follow_structure(groups, b);
    lemma_cells_follow_units(groups, b);
    assert forall|i2: int, j: int|
        i < i2 && is_unit(groups[g], i2, j) && #[trigger] groups[g][i2][j].len()
            > 0 implies book_sheets(b)[g].contains_key((i2 as u32, j as u16)) by {
        assert(groups[g][i2][j].len() > 0);
    }
}

proof fn lemma_first_misfit_unique(groups: Seq<Seq<Seq<Seq<char>>>>, g1: int, i1: int, j1: int, g2: int, i2: int, j2: int)
    requires
        first_misfit_in(groups, g1, i1, j1),
        first_misfit_in(groups, g2, i2, j2),
    ensures
        g1 == g2 && i1 == i2 && j1 == j2,
{
    if g1 < g2 {
        assert(records_fit(groups[g1]));
        assert(cell_fits(i1, j1, groups[g1][i1][j1]));
    } else if g2 < g1 {
        assert(records_fit(groups[g2]));
        assert(cell_fits(i2, j2, groups[g2][i2][j2]));
    } else if precedes(i1, j1, i2, j2) {
        assert(cell_fits(i1, j1, groups[g1][i1][j1]));
    } else if precedes(i2, j2, i1, j1) {
        assert(cell_fits(i2, j2, groups[g2][i2][j2]));
    }
}

/// Converting the same text twice gives the same outcome: both succeed with
/// worksheets of the same cells, or both fail at the same unit.
pub proof fn lemma_conversion_deterministic(
    text: Seq<char>,
    r1: Result<Workbook, ConvertError>,
    r2: Result<Workbook, ConvertError>,
)
    requires
        book_result(usv_groups(text), r1),
        book_result(usv_groups(text), r2),
    ensures
        r1 is Ok <==> r2 is Ok,
        r1 is Ok ==> book_sheets(r1->Ok_0) == book_sheets(r2->Ok_0),
        r1 matches Err(ConvertError::Cell { group, record, unit, .. }) ==> (r2 matches Err(
            ConvertError::Cell { group: g2, record: i2, unit: j2, .. },
        ) && group == g2 && record == i2 && unit == j2),
{
    let groups = usv_groups(text);
    match (r1, r2) {
        (Err(ConvertError::Cell { group, record, unit, .. }), Err(ConvertError::Cell { group: g2, record: i2, unit: j2, .. })) => {
            lemma_first_misfit_unique(groups, group as int, record as int, unit as int, g2 as int, i2 as int, j2 as int);
        },
        (Ok(_), Err(ConvertError::Cell { group, .. })) => {
            assert(records_fit(groups[group as int]));
        },
        (Err(ConvertError::Cell { group, .. }), Ok(_)) => {
            assert(records_fit(groups[group as int]));
        },
        _ => {},
    }
}

} // verus!
