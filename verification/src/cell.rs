//! The write-once cell that caches a command's source text.
//!
//! The cell is `once_cell::sync::OnceCell`. Nothing in this file is proved:
//! each contract below says what the library takes from that crate. The
//! library fills a cell through [`fill_cell`] alone, which holds the cell
//! exclusively, so that what a cell holds changes only there.

use once_cell::sync::OnceCell;
use vstd::prelude::*;

verus! {

/// `once_cell::sync::OnceCell`, a cell that is empty or holds the one value
/// it was ever given.
#[verifier::external_type_specification]
#[verifier::external_body]
#[verifier::reject_recursive_types(T)]
pub struct ExOnceCell<T>(OnceCell<T>);

/// What a cell of source text holds: nothing, or the text it was given.
pub uninterp spec fn cell_text(cell: OnceCell<String>) -> Option<Seq<char>>;

/// `OnceCell::new`: a new cell is empty.
#[verifier::external_body]
pub(crate) fn empty_cell() -> (cell: OnceCell<String>)
    ensures
        cell_text(cell) is None,
{
    OnceCell::new()
}

/// `OnceCell::get`, with the text copied out: gives what the cell holds, and
/// nothing where the cell is empty.
#[verifier::external_body]
pub(crate) fn read_cell(cell: &OnceCell<String>) -> (text: Option<String>)
    ensures
        text is Some <==> cell_text(*cell) is Some,
        text is Some ==> cell_text(*cell) == Some(text->0@),
{
    cell.get().cloned()
}

/// `OnceCell::try_insert`, with the result copied out: an empty cell takes
/// `text`, a full cell keeps what it holds, and either way the call returns
/// what the cell holds afterwards.
#[verifier::external_body]
pub(crate) fn fill_cell(cell: &mut OnceCell<String>, text: String) -> (kept: String)
    ensures
        cell_text(*final(cell)) == Some(kept@),
        cell_text(*old(cell)) is Some ==> cell_text(*old(cell)) == Some(kept@),
        cell_text(*old(cell)) is None ==> kept@ == text@,
{
    match cell.try_insert(text) {
        Ok(kept) => kept.clone(),
        Err((kept, _)) => kept.clone(),
    }
}

} // verus!
