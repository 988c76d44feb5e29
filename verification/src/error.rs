//! The ways in which an operation on the blog can fail.

use vstd::prelude::*;

verus! {

/// Why an operation was refused. A refused operation leaves the blog as it was.
#[derive(Debug, Clone, Copy, PartialEq, Eq, Structural)]
pub enum BlogError {
    /// The slug names no post.
    NotFound,
    /// The caller is not the owner of the post.
    Unauthorized,
    /// The blog already has a state and cannot be created again.
    AlreadyInitialized,
    /// The donation of the post would no longer fit in 128 bits.
    DonationOverflow,
}

impl BlogError {
    /// The message that goes with each error.
    pub open spec fn message_text(self) -> Seq<char> {
        match self {
            BlogError::NotFound => "Post not exists"@,
            BlogError::Unauthorized => "Only the owner may call this method"@,
            BlogError::AlreadyInitialized => "Already initialized"@,
            BlogError::DonationOverflow => "Donation exceeds the largest amount"@,
        }
    }

    /// A description of the error for whoever made the call.
    pub fn message(&self) -> (text: String)
        ensures
            text@ == self.message_text(),
    {
        match self {
            BlogError::NotFound => "Post not exists".to_owned(),
            BlogError::Unauthorized => "Only the owner may call this method".to_owned(),
            BlogError::AlreadyInitialized => "Already initialized".to_owned(),
            BlogError::DonationOverflow => "Donation exceeds the largest amount".to_owned(),
        }
    }
}

} // verus!
