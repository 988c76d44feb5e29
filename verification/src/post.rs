//! A post and the donation it carries.

use crate::error::BlogError;
use vstd::prelude::*;

verus! {

/// What a post is, as mathematics: who owns it, what it says, and the
/// donation that has accrued to it.
pub struct PostView {
    pub owner_id: Seq<char>,
    pub title: Seq<char>,
    pub text: Seq<char>,
    pub donation: nat,
}

impl PostView {
    /// Whether `caller` is the owner of this post.
    pub open spec fn owned_by(self, caller: Seq<char>) -> bool {
        self.owner_id == caller
    }

    /// This post with a new title and text; owner and donation stay.
    pub open spec fn revise(self, title: Seq<char>, text: Seq<char>) -> PostView {
        PostView { title, text, ..self }
    }

    /// This post after `amount` has been added to its donation.
    pub open spec fn clap(self, amount: nat) -> PostView {
        PostView { donation: self.donation + amount, ..self }
    }

    /// This post after its donation has been paid out.
    pub open spec fn withdraw(self) -> PostView {
        PostView { donation: 0, ..self }
    }
}

/// A text record with its owner and the donation it has received.
#[derive(Debug, Clone, PartialEq, Eq)]
pub struct Post {
    pub owner_id: String,
    pub title: String,
    pub text: String,
    pub donation: u128,
}

impl View for Post {
    type V = PostView;

    open spec fn view(&self) -> PostView {
        PostView {
            owner_id: self.owner_id@,
            title: self.title@,
            text: self.text@,
            donation: self.donation as nat,
        }
    }
}

impl Post {
    /// A post owned by `owner_id` that starts with `donation`.
    pub fn new(owner_id: String, title: String, text: String, donation: u128) -> (post: Post)
        ensures
            post@ == (PostView {
                owner_id: owner_id@,
                title: title@,
                text: text@,
                donation: donation as nat,
            }),
    {
        Post { owner_id, title, text, donation }
    }

    /// Replaces title and text and keeps owner and donation.
    pub fn revise(self, title: String, text: String) -> (post: Post)
        ensures
            post@ == self@.revise(title@, text@),
    {
        Post { owner_id: self.owner_id, title, text, donation: self.donation }
    }

    /// Adds `amount` to the donation. Anyone may do this; nothing about the
    /// caller is asked. Fails only where the sum leaves 128 bits.
    pub fn clap(self, amount: u128) -> (result: Result<Post, BlogError>)
        ensures
            self.donation + amount <= u128::MAX ==> result is Ok && result->Ok_0@ == self@.clap(
                amount as nat,
            ),
            self.donation + amount > u128::MAX ==> result == Err::<Post, BlogError>(
                BlogError::DonationOverflow,
            ),
    {
        match self.donation.checked_add(amount) {
            Some(donation) => Ok(
                Post { owner_id: self.owner_id, title: self.title, text: self.text, donation },
            ),
            None => Err(BlogError::DonationOverflow),
        }
    }

    /// Empties the donation and hands back the amount that is to be paid out
    /// to the owner. Whether the caller is the owner is decided before.
    pub fn withdraw(self) -> (result: (Post, u128))
        ensures
            result.0@ == self@.withdraw(),
            result.1 == self.donation,
    {
        let amount: u128 = self.donation;
        (Post { owner_id: self.owner_id, title: self.title, text: self.text, donation: 0 }, amount)
    }
}

} // verus!
