//! The debug form of a list: its elements in order, written as a list.

use crate::list::Link;
use std::fmt::{Debug, DebugList, Error, Formatter};
use vstd::prelude::*;

verus! {

/// `std::fmt::Formatter`, the sink that a value is written to. Nothing is
/// stated of what it holds.
#[verifier::external_type_specification]
#[verifier::external_body]
pub struct ExFormatter<'a>(Formatter<'a>);

/// `std::fmt::Error`, the error of a failed write.
#[verifier::external_type_specification]
#[verifier::external_body]
pub struct ExError(Error);

/// `std::fmt::DebugList`, the builder that writes a bracketed,
/// comma-separated list to a formatter.
#[verifier::external_type_specification]
#[verifier::external_body]
pub struct ExDebugList<'a, 'b: 'a>(DebugList<'a, 'b>);

/// Calls `Formatter::debug_list`, which starts a list on the formatter.
/// Nothing is stated of the builder that it returns.
#[verifier::external_body]
fn begin_list<'a, 'b>(f: &'a mut Formatter<'b>) -> DebugList<'a, 'b> {
    f.debug_list()
}

/// Calls `DebugList::entry`, which writes one more entry in the entry's
/// own debug form. Nothing is stated of the builder afterwards.
#[verifier::external_body]
fn add_entry<T: Debug>(list: &mut DebugList<'_, '_>, entry: &T) {
    list.entry(entry);
}

/// Calls `DebugList::finish`, which closes the list and tells whether
/// every write went through. Nothing is stated of the result.
#[verifier::external_body]
fn end_list(list: &mut DebugList<'_, '_>) -> Result<(), Error> {
    list.finish()
}

impl<T: Debug> Debug for Link<T> {
    /// Writes the elements, first to last, as one list: `[1, 2, 3]`, and
    /// `[]` for an empty list.
    fn fmt(&self, f: &mut Formatter<'_>) -> Result<(), Error> {
        let mut list = begin_list(f);
        let mut it = self.iter();
        loop
            decreases it@.len(),
        {
            match it.next() {
                Some(v) => {
                    add_entry(&mut list, v);
                },
                None => {
                    break ;
                },
            }
        }
        end_list(&mut list)
    }
}

} // verus!
