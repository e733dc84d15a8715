//! The font families of the machine.
//!
//! Asking the operating system for its fonts can fail. The window is never
//! told of such a failure: it is shown no families instead.

use vstd::prelude::*;

verus! {

/// The font families to offer, given what the system's font source answered.
///
/// `query` holds the family names that the source listed, or `None` where
/// asking it failed. The names are handed on as they came, in their order; a
/// failed query gives an empty list, never an error.
pub fn get_system_fonts(query: Option<Vec<String>>) -> (families: Vec<String>)
    ensures
        match query {
            Some(listed) => families == listed,
            None => families@.len() == 0,
        },
{
    query.unwrap_or_default()
}

} // verus!
