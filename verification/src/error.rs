//! The two ways in which marshalling can fail.

use vstd::prelude::*;

verus! {

/// A failure of conversion, on the way to the native library or back.
///
/// A native call that finds nothing (no such window, a wait that ran out) is
/// no error: it is an ordinary answer.
#[derive(Debug, Clone, Copy, PartialEq, Eq)]
pub enum Error {
    /// The text cannot be handed over as a nul-terminated wide string: it
    /// holds the character U+0000. `position` counts the UTF-16 code units
    /// in front of the first one.
    ContainsNul { position: usize },
    /// The native buffer does not hold well-formed UTF-16: `unit` is the
    /// first surrogate in it that has no partner.
    UnpairedSurrogate { unit: u16 },
}

/// A result as contracts speak of it: a value by its view, an error as it
/// is.
pub open spec fn outcome<T: View>(r: Result<T, Error>) -> Result<T::V, Error> {
    match r {
        Ok(value) => Ok(value@),
        Err(e) => Err(e),
    }
}

} // verus!
