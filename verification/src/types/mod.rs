//! Core data types for notarization.

use vstd::prelude::*;

pub mod event;
pub mod lock_order;
pub mod metadata;
pub mod notarization;
pub mod object;
pub mod state;
pub mod timelock;
pub mod type_tag;

verus! {

/// Indicates the used notarization method.
#[derive(Debug, Clone, Copy, PartialEq, Eq, Structural)]
pub enum NotarizationMethod {
    /// The record can be updated and transferred after creation.
    Dynamic,
    /// The record is immutable after creation.
    Locked,
}

/// The view of an optional text: the characters it holds, if any.
pub open spec fn text_of(text: Option<String>) -> Option<Seq<char>> {
    match text {
        Some(s) => Some(s@),
        None => None,
    }
}

/// A copy of an optional text.
pub fn copy_text(text: &Option<String>) -> (copy: Option<String>)
    ensures
        text_of(copy) == text_of(*text),
{
    match text {
        Some(held) => Some(held.clone()),
        None => None,
    }
}

/// A copy of a byte vector.
pub fn copy_bytes(bytes: &Vec<u8>) -> (copy: Vec<u8>)
    ensures
        copy@ == bytes@,
{
    let mut copy: Vec<u8> = Vec::new();
    let mut i: usize = 0;
    while i < bytes.len()
        invariant
            i <= bytes.len(),
            copy@ == bytes@.subrange(0, i as int),
        decreases bytes.len() - i,
    {
        copy.push(bytes[i]);
        assert(copy@ =~= bytes@.subrange(0, i + 1));
        i = i + 1;
    }
    assert(copy@ =~= bytes@);
    copy
}

} // verus!
