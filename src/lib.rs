//! Raw system-call invocation layer: marshaling of logical values into
//! machine words, decoding of the kernel's result word, per-architecture
//! register conventions, backend selection and the dispatch of one call.
use vstd::prelude::*;

pub mod arch;
pub mod dispatch;
pub mod ops;
pub mod reg;
pub mod select;

verus! {

} // verus!
