use vstd::prelude::*;

verus! {

/// Whether a sound starts again from the beginning when it ends.
#[derive(Clone, Copy, Debug, PartialEq, Eq, Structural)]
#[allow(non_camel_case_types)]
pub enum LOOPING {
    NO,
    YES,
}

impl LOOPING {
    /// The flag to set on a track that plays with this setting.
    pub fn loops(&self) -> (r: bool)
        ensures
            r == (*self is YES),
    {
        match self {
            LOOPING::NO => false,
            LOOPING::YES => true,
        }
    }
}

} // verus!
