//! Spacecraft registry: the fixed mapping between the operator-facing
//! selector index and the wire-level craft identifier of the command
//! protocol.
//!
//! The mapping is protocol constant data: the menu orders the craft types
//! by operator familiarity while the wire protocol enumerates them in its
//! own order, so the two indices differ and the table below must be kept
//! exactly as it stands.

use vstd::prelude::*;

verus! {

/// Error raised for a selector outside the closed registry range.
#[derive(Clone, Copy, PartialEq, Eq, Structural, Debug)]
pub enum RegistryError {
    UnknownSpacecraft,
}

/// The selectors the registry accepts: a small closed range, one per
/// supported craft type.
pub open spec fn valid_selector(selector: u32) -> bool {
    selector <= 5
}

/// The wire craft identifier for a valid selector, as the fixed table
/// gives it: 0 -> 2 (Command Module), 1 -> 3 (Lunar Module),
/// 2 -> 1 (Gemini), 3 -> 0 (Mercury), 4 -> 4 (Space Shuttle),
/// 5 -> 5 (Vostok).
pub open spec fn craft_id_spec(selector: u32) -> u32
    recommends
        valid_selector(selector),
{
    if selector == 0 {
        2
    } else if selector == 1 {
        3
    } else if selector == 2 {
        1
    } else if selector == 3 {
        0
    } else if selector == 4 {
        4
    } else {
        5
    }
}

/// Resolves a selector to its wire craft identifier; total over the valid
/// range, and every selector outside it is rejected.
pub fn craft_id_for(selector: u32) -> (r: Result<u32, RegistryError>)
    ensures
        valid_selector(selector) ==> r == Ok::<u32, RegistryError>(craft_id_spec(selector)),
        !valid_selector(selector) ==> r == Err::<u32, RegistryError>(
            RegistryError::UnknownSpacecraft,
        ),
{
    match selector {
        0 => Ok(2),
        1 => Ok(3),
        2 => Ok(1),
        3 => Ok(0),
        4 => Ok(4),
        5 => Ok(5),
        _ => Err(RegistryError::UnknownSpacecraft),
    }
}

} // verus!
