//! Who may do what: the tests every operation makes before it changes anything.

use crate::error::BlogError;
use crate::post::Post;
use crate::post::PostView;
use vstd::prelude::*;

verus! {

/// What asking `caller` for ownership of `post` gives.
pub open spec fn owner_or_unauthorized(post: PostView, caller: Seq<char>) -> Result<
    (),
    BlogError,
> {
    if post.owned_by(caller) {
        Ok(())
    } else {
        Err(BlogError::Unauthorized)
    }
}

/// Hands out the post that a lookup found, or fails with `NotFound`.
pub fn require_exists(found: Option<Post>) -> (result: Result<Post, BlogError>)
    ensures
        result == match found {
            Some(post) => Ok::<Post, BlogError>(post),
            None => Err::<Post, BlogError>(BlogError::NotFound),
        },
{
    match found {
        Some(post) => Ok(post),
        None => Err(BlogError::NotFound),
    }
}

/// Succeeds where `caller` owns `post`, and fails with `Unauthorized` where not.
pub fn require_owner(post: &Post, caller: &String) -> (result: Result<(), BlogError>)
    ensures
        result == owner_or_unauthorized(post@, caller@),
{
    if *caller == post.owner_id {
        Ok(())
    } else {
        Err(BlogError::Unauthorized)
    }
}

} // verus!
