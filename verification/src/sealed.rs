//! The seal on [`Phase`](crate::phase::Phase).

use vstd::prelude::*;

verus! {

/// Implemented by the phase markers of this crate and by nothing else, so no
/// other crate can add a phase.
pub trait Sealed {

}

} // verus!
