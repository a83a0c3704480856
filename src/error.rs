use vstd::prelude::*;

verus! {

/// The failures the pipeline reports.
#[derive(Debug, Clone, Copy, PartialEq, Eq, Structural)]
pub enum Error {
    /// A device index that the enumerated device list does not hold; the
    /// command is rejected and the pipeline continues.
    Device(u32),
    /// A refresh found no split point in the captured audio; the previous
    /// synthesis is kept.
    EmptyPartition,
}

impl Error {
    /// A short description of the failure kind.
    pub fn description(&self) -> (r: &'static str)
        ensures
            r@ == error_description(*self)@,
    {
        match self {
            Error::Device(_) => "invalid or unavailable device",
            Error::EmptyPartition => "no possible partitions found",
        }
    }
}

/// The description text of each failure kind.
pub open spec fn error_description(e: Error) -> &'static str {
    match e {
        Error::Device(_) => "invalid or unavailable device",
        Error::EmptyPartition => "no possible partitions found",
    }
}

} // verus!
