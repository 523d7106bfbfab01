use vstd::prelude::*;

verus! {

/// Target family that selects platform-dependent defaults.
#[derive(Clone, Copy, Debug, PartialEq, Eq, Structural)]
pub enum Platform {
    Desktop,
    Android,
}

} // verus!
