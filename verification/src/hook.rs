//! What a builder loads besides its own program: hooks and filters.

use vstd::prelude::*;

verus! {

/// An instrumentation payload that runs as one stage of an attached program.
/// The library never looks inside it.
#[derive(Debug)]
pub struct Hook {
    pub data: Vec<u8>,
}

impl View for Hook {
    type V = Seq<u8>;

    open spec fn view(&self) -> Seq<u8> {
        self.data@
    }
}

impl Hook {
    /// A hook made of the bytes of a compiled payload.
    pub fn from_bytes(data: Vec<u8>) -> (h: Hook)
        ensures
            h@ == data@,
    {
        Hook { data }
    }
}

/// A compiled predicate, and the slot of the loaded program it is patched
/// into. The library never looks inside the predicate.
#[derive(Debug)]
pub struct Filter {
    pub slot: String,
    pub handle: u32,
}

} // verus!
