//! Groups of lights, as the bridge describes them.

use vstd::prelude::*;

verus! {

/// The kind of a group of lights.
pub enum GroupType {
    Luminaire,
    LightSource,
    LightGroup,
    Room,
    Entertainment,
    Zone,
}

/// Whether any, or all, of the lights of a group are on.
pub struct GroupState {
    any_on: bool,
    all_on: bool,
}

} // verus!
