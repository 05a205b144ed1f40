use vstd::prelude::*;

verus! {

/// An execution-time failure of the engine. A module that references
/// an id no op has defined, or whose value has the wrong kind, is a
/// programming bug: the engine aborts the execution and surfaces this.
#[derive(Clone, Copy, PartialEq, Eq, Structural, Debug)]
pub enum EngineError {
    InvalidModule,
}

impl EngineError {
    /// A short description for diagnostics.
    pub fn message(&self) -> (r: &'static str)
        ensures
            r@ =~= "op references an unknown id or a value of a different kind"@,
    {
        "op references an unknown id or a value of a different kind"
    }
}

} // verus!
