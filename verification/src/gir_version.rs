//! The version of the generator, as recorded in the files it writes.
use vstd::prelude::*;

verus! {

/// Revision of the generator.
pub const VERSION: &'static str = "5bd99c6";

} // verus!
