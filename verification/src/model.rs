//! The blog as mathematics: a map from slugs to posts beside the set of live
//! slugs, and what each operation makes of them.

use crate::error::BlogError;
use crate::post::PostView;
use vstd::prelude::*;

verus! {

/// The whole state of a blog.
#[verifier::ext_equal]
pub struct BlogState {
    /// The post stored under each slug.
    pub posts: Map<Seq<char>, PostView>,
    /// The slugs that can be listed.
    pub slugs: Set<Seq<char>>,
}

impl BlogState {
    /// The blog right after it has been created.
    pub open spec fn empty() -> BlogState {
        BlogState { posts: Map::empty(), slugs: Set::empty() }
    }

    /// The slugs that can be listed are the slugs that have a post, and no others.
    pub open spec fn consistent(self) -> bool {
        self.slugs == self.posts.dom()
    }

    /// The post stored under `slug`, if there is one.
    pub open spec fn get(self, slug: Seq<char>) -> Option<PostView> {
        if self.posts.contains_key(slug) {
            Some(self.posts[slug])
        } else {
            None
        }
    }

    /// The post under `slug` where `caller` may change it: `NotFound` where
    /// there is none, `Unauthorized` where it belongs to somebody else.
    pub open spec fn owned_post(self, caller: Seq<char>, slug: Seq<char>) -> Result<
        PostView,
        BlogError,
    > {
        if !self.posts.contains_key(slug) {
            Err(BlogError::NotFound)
        } else if !self.posts[slug].owned_by(caller) {
            Err(BlogError::Unauthorized)
        } else {
            Ok(self.posts[slug])
        }
    }

    /// Publishing stores a post owned by `signer` under `slug`, whatever was
    /// there before, and lists the slug.
    pub open spec fn publish(
        self,
        signer: Seq<char>,
        attached: nat,
        slug: Seq<char>,
        title: Seq<char>,
        text: Seq<char>,
    ) -> BlogState {
        BlogState {
            posts: self.posts.insert(
                slug,
                PostView { owner_id: signer, title, text, donation: attached },
            ),
            slugs: self.slugs.insert(slug),
        }
    }

    /// Updating replaces title and text of a post that `caller` owns.
    pub open spec fn update(
        self,
        caller: Seq<char>,
        slug: Seq<char>,
        title: Seq<char>,
        text: Seq<char>,
    ) -> Result<BlogState, BlogError> {
        match self.owned_post(caller, slug) {
            Ok(post) => Ok(
                BlogState { posts: self.posts.insert(slug, post.revise(title, text)), ..self },
            ),
            Err(e) => Err(e),
        }
    }

    /// Deleting takes a post that `caller` owns out of the posts and out of
    /// the listed slugs.
    pub open spec fn delete(self, caller: Seq<char>, slug: Seq<char>) -> Result<
        BlogState,
        BlogError,
    > {
        match self.owned_post(caller, slug) {
            Ok(_) => Ok(BlogState { posts: self.posts.remove(slug), slugs: self.slugs.remove(slug) }),
            Err(e) => Err(e),
        }
    }

    /// Clapping adds `amount` to the donation of an existing post, for any caller.
    pub open spec fn clap(self, slug: Seq<char>, amount: nat) -> Result<BlogState, BlogError> {
        if self.posts.contains_key(slug) {
            Ok(BlogState { posts: self.posts.insert(slug, self.posts[slug].clap(amount)), ..self })
        } else {
            Err(BlogError::NotFound)
        }
    }

    /// Withdrawing empties the donation of a post that `caller` owns. Beside
    /// the new state stands the amount that is owed to the caller.
    pub open spec fn withdraw(self, caller: Seq<char>, slug: Seq<char>) -> Result<
        (BlogState, nat),
        BlogError,
    > {
        match self.owned_post(caller, slug) {
            Ok(post) => Ok(
                (
                    BlogState { posts: self.posts.insert(slug, post.withdraw()), ..self },
                    post.donation,
                ),
            ),
            Err(e) => Err(e),
        }
    }
}

/// One call made to a blog, with everything it depends on.
pub enum Operation {
    Publish { signer: Seq<char>, attached: nat, slug: Seq<char>, title: Seq<char>, text: Seq<char> },
    Update { caller: Seq<char>, slug: Seq<char>, title: Seq<char>, text: Seq<char> },
    Delete { caller: Seq<char>, slug: Seq<char> },
    Withdraw { caller: Seq<char>, slug: Seq<char> },
    Clap { slug: Seq<char>, attached: nat },
}

impl BlogState {
    /// The state after `operation`. A refused operation leaves the state as it is.
    pub open spec fn step(self, operation: Operation) -> BlogState {
        match operation {
            Operation::Publish { signer, attached, slug, title, text } => self.publish(
                signer,
                attached,
                slug,
                title,
                text,
            ),
            Operation::Update { caller, slug, title, text } => match self.update(
                caller,
                slug,
                title,
                text,
            ) {
                Ok(next) => next,
                Err(_) => self,
            },
            Operation::Delete { caller, slug } => match self.delete(caller, slug) {
                Ok(next) => next,
                Err(_) => self,
            },
            Operation::Withdraw { caller, slug } => match self.withdraw(caller, slug) {
                Ok((next, _)) => next,
                Err(_) => self,
            },
            Operation::Clap { slug, attached } => match self.clap(slug, attached) {
                Ok(next) => next,
                Err(_) => self,
            },
        }
    }

    /// The state after the operations of `history`, the first one first.
    pub open spec fn run(self, history: Seq<Operation>) -> BlogState
        decreases history.len(),
    {
        if history.len() == 0 {
            self
        } else {
            self.run(history.drop_last()).step(history.last())
        }
    }
}

/// Whether the operation at place `i` of `history` publishes `slug`.
pub open spec fn publishes_at(history: Seq<Operation>, i: int, slug: Seq<char>) -> bool {
    history[i] matches Operation::Publish { slug: published, .. } && published == slug
}

/// Whether the operation at place `i` of `history`, made on a new blog after
/// the operations before it, is a delete of `slug` that is not refused.
pub open spec fn deletes_at(history: Seq<Operation>, i: int, slug: Seq<char>) -> bool {
    history[i] matches Operation::Delete { caller, slug: deleted } && deleted == slug
        && BlogState::empty().run(history.take(i)).delete(caller, slug) is Ok
}

/// Whether `slug` has been published in `history` and not deleted since.
pub open spec fn published_and_kept(history: Seq<Operation>, slug: Seq<char>) -> bool {
    exists|i: int|
        0 <= i < history.len() && #[trigger] publishes_at(history, i, slug) && forall|j: int|
            i < j < history.len() ==> !#[trigger] deletes_at(history, j, slug)
}

} // verus!
