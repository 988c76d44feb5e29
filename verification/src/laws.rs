//! What holds of a blog whatever is done with it.

use crate::error::BlogError;
use crate::model::deletes_at;
use crate::model::published_and_kept;
use crate::model::publishes_at;
use crate::model::BlogState;
use crate::model::Operation;
use crate::post::PostView;
use vstd::prelude::*;

verus! {

/// After a post has been published under a slug, looking the slug up gives
/// that post: owned by the signer, with the given title and text and the
/// attached amount as its donation.
pub proof fn law_publish_then_get(
    state: BlogState,
    signer: Seq<char>,
    attached: nat,
    slug: Seq<char>,
    title: Seq<char>,
    text: Seq<char>,
)
    ensures
        state.publish(signer, attached, slug, title, text).get(slug) == Some(
            PostView { owner_id: signer, title, text, donation: attached },
        ),
        state.publish(signer, attached, slug, title, text).slugs.contains(slug),
{
}

/// Publishing under one slug leaves the post under every other slug as it was.
pub proof fn law_publish_keeps_others(
    state: BlogState,
    signer: Seq<char>,
    attached: nat,
    slug: Seq<char>,
    title: Seq<char>,
    text: Seq<char>,
    other: Seq<char>,
)
    requires
        other != slug,
    ensures
        state.publish(signer, attached, slug, title, text).get(other) == state.get(other),
        state.publish(signer, attached, slug, title, text).slugs.contains(other)
            == state.slugs.contains(other),
{
}

/// A new blog has no post under any slug and lists no slug.
pub proof fn law_new_blog_is_empty(slug: Seq<char>)
    ensures
        BlogState::empty().get(slug) is None,
        !BlogState::empty().slugs.contains(slug),
        BlogState::empty().consistent(),
{
}

/// Whether an update goes through is decided by the caller alone: on an
/// existing post it succeeds if and only if the caller is the stored owner,
/// and is refused as `Unauthorized` otherwise, which leaves the blog as it
/// was. Where it succeeds, title and text are the new ones, owner and
/// donation stay, and so does every other post.
pub proof fn law_update_owner_only(
    state: BlogState,
    caller: Seq<char>,
    slug: Seq<char>,
    title: Seq<char>,
    text: Seq<char>,
)
    requires
        state.posts.contains_key(slug),
    ensures
        state.update(caller, slug, title, text) is Ok <==> caller == state.posts[slug].owner_id,
        caller != state.posts[slug].owner_id ==> state.update(caller, slug, title, text) == Err::<
            BlogState,
            BlogError,
        >(BlogError::Unauthorized),
        caller != state.posts[slug].owner_id ==> state.step(
            Operation::Update { caller, slug, title, text },
        ) == state,
        state.update(caller, slug, title, text) matches Ok(next) ==> {
            &&& next.get(slug) == Some(
                PostView {
                    owner_id: state.posts[slug].owner_id,
                    title,
                    text,
                    donation: state.posts[slug].donation,
                },
            )
            &&& next.slugs == state.slugs
            &&& forall|other: Seq<char>| other != slug ==> next.get(other) == state.get(other)
        },
{
}

/// An operation on a slug without a post is refused as `NotFound`, whoever calls.
pub proof fn law_missing_post_not_found(
    state: BlogState,
    caller: Seq<char>,
    slug: Seq<char>,
    title: Seq<char>,
    text: Seq<char>,
    amount: nat,
)
    requires
        !state.posts.contains_key(slug),
    ensures
        state.update(caller, slug, title, text) == Err::<BlogState, BlogError>(
            BlogError::NotFound,
        ),
        state.delete(caller, slug) == Err::<BlogState, BlogError>(BlogError::NotFound),
        state.withdraw(caller, slug) == Err::<(BlogState, nat), BlogError>(BlogError::NotFound),
        state.clap(slug, amount) == Err::<BlogState, BlogError>(BlogError::NotFound),
{
}

/// A delete that goes through takes the slug out of the posts and out of the
/// listed slugs, and touches nothing else; the slug then has no post.
pub proof fn law_delete_removes(state: BlogState, caller: Seq<char>, slug: Seq<char>)
    ensures
        state.delete(caller, slug) is Ok <==> state.posts.contains_key(slug) && caller
            == state.posts[slug].owner_id,
        state.delete(caller, slug) matches Ok(next) ==> {
            &&& next.get(slug) is None
            &&& !next.slugs.contains(slug)
            &&& forall|other: Seq<char>|
                other != slug ==> next.get(other) == state.get(other) && next.slugs.contains(
                    other,
                ) == state.slugs.contains(other)
        },
{
}

/// A clap on an existing post adds exactly the attached amount to its
/// donation and changes nothing else. No caller enters into it.
pub proof fn law_clap_adds_exactly(state: BlogState, slug: Seq<char>, amount: nat)
    requires
        state.posts.contains_key(slug),
    ensures
        state.clap(slug, amount) matches Ok(next) && {
            &&& next.get(slug) == Some(
                PostView { donation: state.posts[slug].donation + amount, ..state.posts[slug] },
            )
            &&& next.slugs == state.slugs
            &&& forall|other: Seq<char>| other != slug ==> next.get(other) == state.get(other)
        },
{
}

/// A withdrawal by the owner empties the donation, and the amount owed is
/// the donation as it was just before. A second withdrawal right after it
/// owes nothing and changes nothing.
pub proof fn law_withdraw_pays_once(state: BlogState, caller: Seq<char>, slug: Seq<char>)
    requires
        state.posts.contains_key(slug),
        caller == state.posts[slug].owner_id,
    ensures
        state.withdraw(caller, slug) matches Ok((next, amount)) && {
            &&& amount == state.posts[slug].donation
            &&& next.get(slug) == Some(PostView { donation: 0, ..state.posts[slug] })
            &&& next.slugs == state.slugs
            &&& forall|other: Seq<char>| other != slug ==> next.get(other) == state.get(other)
            &&& next.withdraw(caller, slug) == Ok::<(BlogState, nat), BlogError>((next, 0))
        },
{
    let next = state.withdraw(caller, slug)->Ok_0.0;
    let again = next.withdraw(caller, slug)->Ok_0.0;
    assert(again.posts =~= next.posts);
}

/// A withdrawal by anyone but the owner is refused as `Unauthorized`.
pub proof fn law_withdraw_owner_only(state: BlogState, caller: Seq<char>, slug: Seq<char>)
    requires
        state.posts.contains_key(slug),
    ensures
        state.withdraw(caller, slug) is Ok <==> caller == state.posts[slug].owner_id,
        caller != state.posts[slug].owner_id ==> state.withdraw(caller, slug) == Err::<
            (BlogState, nat),
            BlogError,
        >(BlogError::Unauthorized),
{
}

/// Publishing under a slug that has a post replaces the post whole: the blog
/// is as if the earlier post had never been published.
pub proof fn law_republish_replaces(
    state: BlogState,
    first_signer: Seq<char>,
    first_attached: nat,
    first_title: Seq<char>,
    first_text: Seq<char>,
    signer: Seq<char>,
    attached: nat,
    slug: Seq<char>,
    title: Seq<char>,
    text: Seq<char>,
)
    ensures
        state.publish(first_signer, first_attached, slug, first_title, first_text).publish(
            signer,
            attached,
            slug,
            title,
            text,
        ) == state.publish(signer, attached, slug, title, text),
        state.publish(first_signer, first_attached, slug, first_title, first_text).publish(
            signer,
            attached,
            slug,
            title,
            text,
        ).get(slug) == Some(PostView { owner_id: signer, title, text, donation: attached }),
{
    let once = state.publish(signer, attached, slug, title, text);
    let twice = state.publish(first_signer, first_attached, slug, first_title, first_text).publish(
        signer,
        attached,
        slug,
        title,
        text,
    );
    assert(twice.posts =~= once.posts);
    assert(twice.slugs =~= once.slugs);
}

/// Every operation keeps the listed slugs and the slugs with a post the same.
pub proof fn law_step_keeps_consistency(state: BlogState, operation: Operation)
    requires
        state.consistent(),
    ensures
        state.step(operation).consistent(),
{
    let next = state.step(operation);
    assert(next.slugs =~= next.posts.dom());
}

/// Whatever has been done with a blog since it was created, the listed slugs
/// are the slugs with a post.
pub proof fn law_history_keeps_consistency(history: Seq<Operation>)
    ensures
        BlogState::empty().run(history).consistent(),
    decreases history.len(),
{
    if history.len() == 0 {
        assert(BlogState::empty().slugs =~= BlogState::empty().posts.dom());
    } else {
        law_history_keeps_consistency(history.drop_last());
        law_step_keeps_consistency(BlogState::empty().run(history.drop_last()), history.last());
    }
}

/// The listed slugs are the slugs that have been published and not deleted
/// since, whatever else has been done with the blog.
pub proof fn law_listed_is_published_and_kept(history: Seq<Operation>, slug: Seq<char>)
    ensures
        BlogState::empty().run(history).slugs.contains(slug) <==> published_and_kept(
            history,
            slug,
        ),
    decreases history.len(),
{
    if history.len() == 0 {
    } else {
        let n = history.len() - 1;
        let before = history.drop_last();
        let state = BlogState::empty().run(before);
        law_listed_is_published_and_kept(before, slug);
        assert(history.take(n) =~= before);
        assert forall|j: int| 0 <= j < n implies deletes_at(history, j, slug) == deletes_at(
            before,
            j,
            slug,
        ) && publishes_at(history, j, slug) == publishes_at(before, j, slug) by {
            assert(history.take(j) =~= before.take(j));
        }
        if publishes_at(history, n, slug) {
            assert(published_and_kept(history, slug));
        } else if deletes_at(history, n, slug) {
            assert(!published_and_kept(history, slug)) by {
                if published_and_kept(history, slug) {
                    let i = choose|i: int|
                        0 <= i < history.len() && #[trigger] publishes_at(history, i, slug)
                            && forall|j: int|
                            i < j < history.len() ==> !#[trigger] deletes_at(history, j, slug);
                    assert(i < n);
                    assert(deletes_at(history, n, slug));
                }
            }
        } else {
            assert(state.step(history.last()).slugs.contains(slug) == state.slugs.contains(slug));
            if published_and_kept(before, slug) {
                let i = choose|i: int|
                    0 <= i < before.len() && #[trigger] publishes_at(before, i, slug)
                        && forall|j: int|
                        i < j < before.len() ==> !#[trigger] deletes_at(before, j, slug);
                assert(publishes_at(history, i, slug));
                assert forall|j: int| i < j < history.len() implies !#[trigger] deletes_at(
                    history,
                    j,
                    slug,
                ) by {
                    if j < n {
                        assert(!deletes_at(before, j, slug));
                    }
                }
                assert(published_and_kept(history, slug));
            }
            if published_and_kept(history, slug) {
                let i = choose|i: int|
                    0 <= i < history.len() && #[trigger] publishes_at(history, i, slug)
                        && forall|j: int|
                        i < j < history.len() ==> !#[trigger] deletes_at(history, j, slug);
                assert(i < n);
                assert(publishes_at(before, i, slug));
                assert forall|j: int| i < j < before.len() implies !#[trigger] deletes_at(
                    before,
                    j,
                    slug,
                ) by {
                    assert(!deletes_at(history, j, slug));
                }
                assert(published_and_kept(before, slug));
            }
        }
    }
}

/// A slug has a post exactly where it has been published and not deleted
/// since: a slug never published, or deleted since, has none.
pub proof fn law_get_follows_history(history: Seq<Operation>, slug: Seq<char>)
    ensures
        BlogState::empty().run(history).get(slug) is Some <==> published_and_kept(history, slug),
{
    law_history_keeps_consistency(history);
    law_listed_is_published_and_kept(history, slug);
}

/// Publishing is storing the decided post under the slug and listing the
/// slug: the post owned by the signer, with the attached amount as donation.
pub proof fn law_publish_by_decision(
    state: BlogState,
    signer: Seq<char>,
    attached: nat,
    slug: Seq<char>,
    title: Seq<char>,
    text: Seq<char>,
)
    ensures
        state.publish(signer, attached, slug, title, text) == (BlogState {
            posts: state.posts.insert(
                slug,
                PostView { owner_id: signer, title, text, donation: attached },
            ),
            slugs: state.slugs.insert(slug),
        }),
{
}

/// Updating is looking the slug up, deciding on what was found, and storing
/// the decided post under the slug: refused as `NotFound` where nothing was
/// found and as `Unauthorized` where the caller does not own what was found,
/// and otherwise the post found with the new title and text.
pub proof fn law_update_by_decision(
    state: BlogState,
    caller: Seq<char>,
    slug: Seq<char>,
    title: Seq<char>,
    text: Seq<char>,
)
    ensures
        state.get(slug) is None ==> state.update(caller, slug, title, text) == Err::<
            BlogState,
            BlogError,
        >(BlogError::NotFound),
        state.get(slug) is Some && !state.get(slug)->0.owned_by(caller) ==> state.update(
            caller,
            slug,
            title,
            text,
        ) == Err::<BlogState, BlogError>(BlogError::Unauthorized),
        state.get(slug) is Some && state.get(slug)->0.owned_by(caller) ==> state.update(
            caller,
            slug,
            title,
            text,
        ) == Ok::<BlogState, BlogError>(
            BlogState { posts: state.posts.insert(slug, state.get(slug)->0.revise(title, text)), ..state },
        ),
{
}

/// Deleting is looking the slug up, deciding on what was found, and removing
/// the post and the slug where the decision allows it.
pub proof fn law_delete_by_decision(state: BlogState, caller: Seq<char>, slug: Seq<char>)
    ensures
        state.get(slug) is None ==> state.delete(caller, slug) == Err::<BlogState, BlogError>(
            BlogError::NotFound,
        ),
        state.get(slug) is Some && !state.get(slug)->0.owned_by(caller) ==> state.delete(
            caller,
            slug,
        ) == Err::<BlogState, BlogError>(BlogError::Unauthorized),
        state.get(slug) is Some && state.get(slug)->0.owned_by(caller) ==> state.delete(
            caller,
            slug,
        ) == Ok::<BlogState, BlogError>(
            BlogState { posts: state.posts.remove(slug), slugs: state.slugs.remove(slug) },
        ),
{
}

/// Withdrawing is looking the slug up, deciding on what was found, and
/// storing the emptied post under the slug; the amount owed is the donation
/// that was found.
pub proof fn law_withdraw_by_decision(state: BlogState, caller: Seq<char>, slug: Seq<char>)
    ensures
        state.get(slug) is None ==> state.withdraw(caller, slug) == Err::<
            (BlogState, nat),
            BlogError,
        >(BlogError::NotFound),
        state.get(slug) is Some && !state.get(slug)->0.owned_by(caller) ==> state.withdraw(
            caller,
            slug,
        ) == Err::<(BlogState, nat), BlogError>(BlogError::Unauthorized),
        state.get(slug) is Some && state.get(slug)->0.owned_by(caller) ==> state.withdraw(
            caller,
            slug,
        ) == Ok::<(BlogState, nat), BlogError>(
            (
                BlogState { posts: state.posts.insert(slug, state.get(slug)->0.withdraw()), ..state },
                state.get(slug)->0.donation,
            ),
        ),
{
}

/// Clapping is looking the slug up, deciding on what was found, and storing
/// the post with the larger donation under the slug, whoever calls.
pub proof fn law_clap_by_decision(state: BlogState, slug: Seq<char>, amount: nat)
    ensures
        state.get(slug) is None ==> state.clap(slug, amount) == Err::<BlogState, BlogError>(
            BlogError::NotFound,
        ),
        state.get(slug) is Some ==> state.clap(slug, amount) == Ok::<
            BlogState,
            BlogError,
        >(BlogState { posts: state.posts.insert(slug, state.get(slug)->0.clap(amount)), ..state }),
{
}

} // verus!
