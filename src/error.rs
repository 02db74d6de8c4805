use vstd::prelude::*;

verus! {

/// The errors that the instruction raises on its own account.
#[derive(Clone, Copy, Debug, PartialEq, Eq, Structural)]
pub enum MetaIdError {
    /// The metadata URI is empty.
    InvalidMetadataUri,
    /// The metadata URI is longer than the record can hold.
    MetadataUriTooLong,
}

impl MetaIdError {
    /// The message that goes with each error.
    pub fn message(&self) -> (r: &'static str)
        ensures
            r@ == self.spec_message(),
    {
        match self {
            MetaIdError::InvalidMetadataUri => "Metadata URI cannot be empty",
            MetaIdError::MetadataUriTooLong => "Metadata URI is too long (max 200 characters)",
        }
    }

    pub open spec fn spec_message(&self) -> Seq<char> {
        match self {
            MetaIdError::InvalidMetadataUri => "Metadata URI cannot be empty"@,
            MetaIdError::MetadataUriTooLong => "Metadata URI is too long (max 200 characters)"@,
        }
    }
}

} // verus!
