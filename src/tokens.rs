//! The part of the `usv` crate that the conversion relies on: splitting text
//! into files, groups, records and units.

use vstd::prelude::*;

verus! {

/// The text of each unit of a record.
pub open spec fn units_view(r: Vec<String>) -> Seq<Seq<char>> {
    r@.map_values(|u: String| u@)
}

/// The units of each record of a group.
pub open spec fn records_view(g: Vec<Vec<String>>) -> Seq<Seq<Seq<char>>> {
    g@.map_values(|r: Vec<String>| units_view(r))
}

/// The records of each group of a file.
pub open spec fn groups_view(f: Vec<Vec<Vec<String>>>) -> Seq<Seq<Seq<Seq<char>>>> {
    f@.map_values(|g: Vec<Vec<String>>| records_view(g))
}

/// The groups of each file of a collection of files.
pub open spec fn files_view(fs: Vec<Vec<Vec<Vec<String>>>>) -> Seq<Seq<Seq<Seq<Seq<char>>>>> {
    fs@.map_values(|f: Vec<Vec<Vec<String>>>| groups_view(f))
}

/// The records that the USV tokenizer reads from a text.
pub uninterp spec fn usv_records(text: Seq<char>) -> Seq<Seq<Seq<char>>>;

/// The groups that the USV tokenizer reads from a text.
pub uninterp spec fn usv_groups(text: Seq<char>) -> Seq<Seq<Seq<Seq<char>>>>;

/// The files that the USV tokenizer reads from a text.
pub uninterp spec fn usv_files(text: Seq<char>) -> Seq<Seq<Seq<Seq<Seq<char>>>>>;

/// Relies on `usv::StrExt::records`, collected: the records of the text, which
/// depend on the text alone; an empty text has none.
#[verifier::external_body]
pub(crate) fn split_records(text: &str) -> (r: Vec<Vec<String>>)
    ensures
        records_view(r) == usv_records(text@),
        text@.len() == 0 ==> r@.len() == 0,
{
    usv::StrExt::records(text).collect()
}

/// Relies on `usv::StrExt::groups`, collected: the groups of the text, which
/// depend on the text alone; an empty text has none.
#[verifier::external_body]
pub(crate) fn split_groups(text: &str) -> (r: Vec<Vec<Vec<String>>>)
    ensures
        groups_view(r) == usv_groups(text@),
        text@.len() == 0 ==> r@.len() == 0,
{
    usv::StrExt::groups(text).collect()
}

/// Relies on `usv::StrExt::files`, collected: the files of the text, which
/// depend on the text alone; an empty text has none.
#[verifier::external_body]
pub(crate) fn split_files(text: &str) -> (r: Vec<Vec<Vec<Vec<String>>>>)
    ensures
        files_view(r) == usv_files(text@),
        text@.len() == 0 ==> r@.len() == 0,
{
    usv::StrExt::files(text).collect()
}

} // verus!
