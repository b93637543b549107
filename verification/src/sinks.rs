//! Where the driver's caller reports the position of each operator.

use crate::operator::SourceLoc;
use vstd::prelude::*;

verus! {

/// Takes the offsets of the operators of a function: for each operator, where
/// it stands in the source and where its code starts.
pub trait OffsetSink {
    fn offset(&mut self, offset_in_wasm_function: SourceLoc, offset_in_compiled_function: usize);
}

/// The sink that drops what it is given.
pub struct NullOffsetSink;

impl OffsetSink for NullOffsetSink {
    fn offset(&mut self, offset_in_wasm_function: SourceLoc, offset_in_compiled_function: usize) {
    }
}

} // verus!
