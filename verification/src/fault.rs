use vstd::prelude::*;

verus! {

/// Every way an operation of this library can fail.
#[derive(Clone, Copy, Debug, PartialEq, Eq, Structural)]
pub enum Fault {
    /// The requested object does not exist.
    NotFound,
    /// A derivative was requested for an original that does not exist.
    SourceMissing,
    /// Stored bytes are not a valid image, or a stored log is not a valid list.
    DecodeError,
    /// A requested width or height is zero.
    InvalidSize,
    /// The host failed to read or write, or a result could not be brought
    /// into its stored form.
    StorageError,
}

impl Fault {
    /// A short fixed description for the caller.
    pub fn message(&self) -> (r: &'static str)
        ensures
            r@ == Self::message_of(*self),
    {
        match self {
            Fault::NotFound => "not found",
            Fault::SourceMissing => "source image missing",
            Fault::DecodeError => "stored data is malformed",
            Fault::InvalidSize => "width and height must be positive",
            Fault::StorageError => "storage failure",
        }
    }

    pub open spec fn message_of(e: Fault) -> Seq<char> {
        match e {
            Fault::NotFound => "not found"@,
            Fault::SourceMissing => "source image missing"@,
            Fault::DecodeError => "stored data is malformed"@,
            Fault::InvalidSize => "width and height must be positive"@,
            Fault::StorageError => "storage failure"@,
        }
    }
}

} // verus!
