use vstd::prelude::*;

verus! {

/// Transfer priority of a torrent, as the daemon understands it.
#[derive(Clone, Copy, Debug, PartialEq, Eq, Structural)]
pub enum Priority {
    Low,
    Normal,
    High,
}

impl Priority {
    /// The signed integer that stands for this priority on the wire.
    pub open spec fn wire_int(self) -> int {
        match self {
            Priority::Low => -1,
            Priority::Normal => 0,
            Priority::High => 1,
        }
    }

    /// Converts the priority to its wire integer: low is -1, normal 0, high 1.
    pub fn wire_value(self) -> (r: i64)
        ensures
            r as int == self.wire_int(),
    {
        match self {
            Priority::Low => -1,
            Priority::Normal => 0,
            Priority::High => 1,
        }
    }
}

/// A construction-time error of a setter: the given value has no wire
/// representation, so the call fails rather than store a malformed value.
#[derive(Clone, Copy, Debug, PartialEq, Eq, Structural)]
pub enum ConversionError {
    /// A floating-point input was NaN or infinite; the protocol cannot
    /// carry it.
    NonFinite,
}

} // verus!
