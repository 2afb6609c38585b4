//! The cell that keeps the compiled form of a transaction, written at most once.
//!
//! The cell is tokio's `OnceCell`. It is reached through the calls below only, and written
//! through an exclusive reference, so that what it holds changes nowhere else.

use crate::error::Error;
use crate::programmable::InstructionView;
use crate::programmable::ProgrammableTransaction;
use tokio::sync::OnceCell;
use vstd::prelude::*;

verus! {

/// tokio's cell that can be written only once.
#[verifier::external_type_specification]
#[verifier::external_body]
#[verifier::reject_recursive_types(T)]
pub struct ExOnceCell<T>(tokio::sync::OnceCell<T>);

/// What a cell holds: the view of the transaction in it, or nothing while it is empty.
pub uninterp spec fn held(cell: OnceCell<ProgrammableTransaction>) -> Option<Seq<InstructionView>>;

/// `OnceCell::new`: a cell that holds nothing.
#[verifier::external_body]
pub(crate) fn empty_cell() -> (cell: OnceCell<ProgrammableTransaction>)
    ensures
        held(cell) is None,
{
    OnceCell::new()
}

/// `OnceCell::get`: the value in the cell, or nothing while the cell is empty.
#[verifier::external_body]
pub(crate) fn peek(cell: &OnceCell<ProgrammableTransaction>) -> (value: Option<
    &ProgrammableTransaction,
>)
    ensures
        match value {
            Some(transaction) => held(*cell) == Some(transaction@),
            None => held(*cell) is None,
        },
{
    cell.get()
}

/// `OnceCell::set`: a cell that takes the value holds it afterwards, and the call says so;
/// a cell that does not take it stays as it is. A full cell never takes a value.
#[verifier::external_body]
pub(crate) fn put(cell: &mut OnceCell<ProgrammableTransaction>, value: ProgrammableTransaction) -> (taken:
    bool)
    ensures
        held(*old(cell)) is Some ==> !taken,
        held(*final(cell)) == (if taken {
            Some(value@)
        } else {
            held(*old(cell))
        }),
{
    cell.set(value).is_ok()
}

/// `OnceCell::new_with` on a value: a cell that holds the value.
#[verifier::external_body]
pub(crate) fn full_cell(value: ProgrammableTransaction) -> (cell: OnceCell<ProgrammableTransaction>)
    ensures
        held(cell) == Some(value@),
{
    OnceCell::new_with(Some(value))
}

/// What a build gives back, when the cell holds `cached` and compiling gives `compiled`
/// (nothing, where it fails): what the cell holds, and only for an empty cell what was
/// compiled.
pub open spec fn served(
    cached: Option<Seq<InstructionView>>,
    compiled: Option<Seq<InstructionView>>,
) -> Option<Seq<InstructionView>> {
    match cached {
        Some(kept) => Some(kept),
        None => compiled,
    }
}

/// A copy of what the cell holds.
pub fn get(cell: &OnceCell<ProgrammableTransaction>) -> (kept: Option<ProgrammableTransaction>)
    ensures
        match kept {
            Some(transaction) => held(*cell) == Some(transaction@),
            None => held(*cell) is None,
        },
{
    match peek(cell) {
        Some(transaction) => Some(transaction.duplicate()),
        None => None,
    }
}

/// Hands the outcome of a compilation through the cell: a full cell gives what it holds
/// and stays as it is; an empty cell keeps a successful outcome and gives it back, and
/// stays empty on a failure.
pub fn get_or_keep(
    cell: &mut OnceCell<ProgrammableTransaction>,
    compiled: Result<ProgrammableTransaction, Error>,
) -> (outcome: Result<ProgrammableTransaction, Error>)
    ensures
        held(*final(cell)) == served(
            held(*old(cell)),
            match compiled {
                Ok(transaction) => Some(transaction@),
                Err(_) => None,
            },
        ),
        match outcome {
            Ok(transaction) => held(*final(cell)) == Some(transaction@),
            Err(error) => held(*old(cell)) is None && compiled == Err::<
                ProgrammableTransaction,
                Error,
            >(error),
        },
{
    match get(cell) {
        Some(kept) => Ok(kept),
        None => match compiled {
            Ok(transaction) => {
                // An empty cell refuses a value only after an initialization was given
                // up half-way; such a cell is replaced by a full one.
                if !put(cell, transaction.duplicate()) {
                    *cell = full_cell(transaction.duplicate());
                }
                Ok(transaction)
            },
            Err(error) => Err(error),
        },
    }
}

/// Once a build has succeeded, every later build gives the same transaction, whatever
/// compiling would give then.
pub proof fn lemma_build_is_idempotent(
    cached: Option<Seq<InstructionView>>,
    first: Option<Seq<InstructionView>>,
    second: Option<Seq<InstructionView>>,
)
    requires
        served(cached, first) is Some,
    ensures
        served(served(cached, first), second) == served(cached, first),
{
}

/// A failed build leaves the cell empty, so that a later build compiles afresh.
pub proof fn lemma_failure_is_not_kept(second: Option<Seq<InstructionView>>)
    ensures
        served(None, None) is None,
        served(served(None, None), second) == second,
{
}

} // verus!
