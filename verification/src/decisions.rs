//! What each operation decides.
//!
//! The posts and the slugs are kept by whoever embeds the blog, and so are
//! the payments. An operation here takes what was found under the slug and
//! the context of the call, and says what is to be stored, removed or paid,
//! or why the call is refused. A refused call stores, removes and pays nothing.

use crate::context::CallerContext;
use crate::error::BlogError;
use crate::policy::require_exists;
use crate::policy::require_owner;
use crate::post::Post;
use crate::post::PostView;
use vstd::prelude::*;

verus! {

/// Creating the blog: allowed unless a state exists already. Where it is
/// allowed the blog starts without posts and without slugs.
pub fn decide_init(state_exists: bool) -> (result: Result<(), BlogError>)
    ensures
        state_exists ==> result == Err::<(), BlogError>(BlogError::AlreadyInitialized),
        !state_exists ==> result == Ok::<(), BlogError>(()),
{
    if state_exists {
        Err(BlogError::AlreadyInitialized)
    } else {
        Ok(())
    }
}

/// Publishing: the post that is to be stored under the slug, and the slug
/// listed. The signer owns it and the attached amount is its donation.
/// Nothing is asked of what the slug held before: whoever publishes under a
/// slug that is taken takes the slug over, donation included.
pub fn decide_publish(context: &CallerContext, title: String, text: String) -> (post: Post)
    ensures
        post@ == (PostView {
            owner_id: context.signer_id@,
            title: title@,
            text: text@,
            donation: context.attached_deposit as nat,
        }),
{
    Post::new(context.signer_id.clone(), title, text, context.attached_deposit)
}

/// Updating: the post that is to be stored in place of the one found, with
/// the new title and text. Only the owner may update.
pub fn decide_update(found: Option<Post>, context: &CallerContext, title: String, text: String) -> (result:
    Result<Post, BlogError>)
    ensures
        found is None ==> result == Err::<Post, BlogError>(BlogError::NotFound),
        found is Some && !found->0@.owned_by(context.predecessor_id@) ==> result == Err::<
            Post,
            BlogError,
        >(BlogError::Unauthorized),
        found is Some && found->0@.owned_by(context.predecessor_id@) ==> result is Ok
            && result->Ok_0@ == found->0@.revise(title@, text@),
{
    let post = match require_exists(found) {
        Ok(post) => post,
        Err(e) => { return Err(e); },
    };
    match require_owner(&post, &context.predecessor_id) {
        Ok(()) => {},
        Err(e) => { return Err(e); },
    }
    Ok(post.revise(title, text))
}

/// Deleting: whether the post found is to be removed, and its slug taken
/// off the list. Only the owner may delete.
pub fn decide_delete(found: Option<Post>, context: &CallerContext) -> (result: Result<
    (),
    BlogError,
>)
    ensures
        found is None ==> result == Err::<(), BlogError>(BlogError::NotFound),
        found is Some && !found->0@.owned_by(context.predecessor_id@) ==> result == Err::<
            (),
            BlogError,
        >(BlogError::Unauthorized),
        found is Some && found->0@.owned_by(context.predecessor_id@) ==> result == Ok::<
            (),
            BlogError,
        >(()),
{
    let post = match require_exists(found) {
        Ok(post) => post,
        Err(e) => { return Err(e); },
    };
    require_owner(&post, &context.predecessor_id)
}

/// Withdrawing: the post that is to be stored in place of the one found,
/// with its donation emptied, and the amount that is to be paid to the
/// caller: the donation as it was found. Only the owner may withdraw. The
/// emptied post has to be stored before the payment is asked for, so that a
/// call that comes in between finds nothing left to pay.
pub fn decide_withdraw(found: Option<Post>, context: &CallerContext) -> (result: Result<
    (Post, u128),
    BlogError,
>)
    ensures
        found is None ==> result == Err::<(Post, u128), BlogError>(BlogError::NotFound),
        found is Some && !found->0@.owned_by(context.predecessor_id@) ==> result == Err::<
            (Post, u128),
            BlogError,
        >(BlogError::Unauthorized),
        found is Some && found->0@.owned_by(context.predecessor_id@) ==> result is Ok
            && result->Ok_0.0@ == found->0@.withdraw() && result->Ok_0.1 == found->0.donation,
{
    let post = match require_exists(found) {
        Ok(post) => post,
        Err(e) => { return Err(e); },
    };
    match require_owner(&post, &context.predecessor_id) {
        Ok(()) => {},
        Err(e) => { return Err(e); },
    }
    Ok(post.withdraw())
}

/// Clapping: the post that is to be stored in place of the one found, with
/// the attached amount added to its donation. Anyone may clap: neither the
/// signer nor the predecessor is looked at. Where the sum would leave 128
/// bits the call is refused with `DonationOverflow`.
pub fn decide_clap(found: Option<Post>, context: &CallerContext) -> (result: Result<
    Post,
    BlogError,
>)
    ensures
        found is None ==> result == Err::<Post, BlogError>(BlogError::NotFound),
        found is Some && found->0.donation + context.attached_deposit > u128::MAX ==> result
            == Err::<Post, BlogError>(BlogError::DonationOverflow),
        found is Some && found->0.donation + context.attached_deposit <= u128::MAX ==> result is Ok
            && result->Ok_0@ == found->0@.clap(context.attached_deposit as nat),
{
    let post = match require_exists(found) {
        Ok(post) => post,
        Err(e) => { return Err(e); },
    };
    post.clap(context.attached_deposit)
}

} // verus!
