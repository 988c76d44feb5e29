use blog::decisions::decide_clap;
use blog::decisions::decide_delete;
use blog::decisions::decide_init;
use blog::decisions::decide_publish;
use blog::decisions::decide_update;
use blog::decisions::decide_withdraw;
use blog::policy::require_exists;
use blog::policy::require_owner;
use blog::BlogError;
use blog::CallerContext;
use blog::Post;
use std::collections::BTreeMap;
use std::collections::BTreeSet;

/// A blog kept in memory and run by the library's decisions: every
/// operation looks up, asks, and then stores, removes and pays as told.
struct Contract {
    posts: BTreeMap<String, Post>,
    slugs: BTreeSet<String>,
    paid: Vec<(String, u128)>,
}

impl Contract {
    fn new() -> Contract {
        decide_init(false).unwrap();
        Contract { posts: BTreeMap::new(), slugs: BTreeSet::new(), paid: Vec::new() }
    }

    fn publish_post(&mut self, context: &CallerContext, slug: String, title: String, text: String) {
        let post = decide_publish(context, title, text);
        self.posts.insert(slug.clone(), post);
        self.slugs.insert(slug);
    }

    fn get_post(&self, slug: String) -> Option<Post> {
        self.posts.get(&slug).cloned()
    }

    fn update_post(
        &mut self,
        context: &CallerContext,
        slug: String,
        title: String,
        text: String,
    ) -> Result<(), BlogError> {
        let post = decide_update(self.get_post(slug.clone()), context, title, text)?;
        self.posts.insert(slug, post);
        Ok(())
    }

    fn delete_post(&mut self, context: &CallerContext, slug: String) -> Result<(), BlogError> {
        decide_delete(self.get_post(slug.clone()), context)?;
        self.posts.remove(&slug);
        self.slugs.remove(&slug);
        Ok(())
    }

    fn withdraw_post_donation(
        &mut self,
        context: &CallerContext,
        slug: String,
    ) -> Result<(), BlogError> {
        let (post, amount) = decide_withdraw(self.get_post(slug.clone()), context)?;
        self.posts.insert(slug, post);
        self.paid.push((context.predecessor_id.clone(), amount));
        Ok(())
    }

    fn clap_post(&mut self, context: &CallerContext, slug: String) -> Result<(), BlogError> {
        let post = decide_clap(self.get_post(slug.clone()), context)?;
        self.posts.insert(slug, post);
        Ok(())
    }

    fn list_slugs(&self) -> BTreeSet<String> {
        self.slugs.clone()
    }
}

fn get_context(_is_view: bool) -> CallerContext {
    caller("bob_near", 0)
}

fn caller(account: &str, deposit: u128) -> CallerContext {
    CallerContext::new(account.to_string(), account.to_string(), deposit)
}

fn post(owner: &str, title: &str, text: &str, donation: u128) -> Post {
    Post {
        owner_id: owner.to_string(),
        title: title.to_string(),
        text: text.to_string(),
        donation,
    }
}

fn names(slugs: &[&str]) -> BTreeSet<String> {
    slugs.iter().map(|s| s.to_string()).collect()
}

#[test]
fn check_publish_post() {
    // set up the context of the call
    let context = get_context(false);

    // Set up contract object and call the new method
    let mut contract = Contract::new();
    // Publish post
    let slug = "test-post".to_string();
    let title = "Test Post".to_string();
    let text = "Big news!".to_string();
    contract.publish_post(&context, slug.clone(), title.clone(), text.clone());

    assert!(contract.get_post(slug.clone()).is_some(), "Post exists");
    assert!(contract.get_post("404-post".to_string()).is_none());
    assert!(contract.get_post(slug.clone()).unwrap().title == title.clone());
    assert!(contract.get_post(slug.clone()).unwrap().text == text.clone());
    assert!(
        contract.get_post(slug.clone()).unwrap().donation == 0,
        "Should be zero"
    );
}

#[test]
fn init_is_refused_where_a_state_exists() {
    assert_eq!(decide_init(true), Err(BlogError::AlreadyInitialized));
    assert_eq!(decide_init(false), Ok(()));
}

#[test]
fn publish_decides_the_post_of_the_signer() {
    let relayed = CallerContext::new("alice".to_string(), "relay".to_string(), 7);
    assert_eq!(
        decide_publish(&relayed, "Hi".to_string(), "World".to_string()),
        post("alice", "Hi", "World", 7)
    );
    assert_eq!(
        decide_publish(&caller("bob", u128::MAX), String::new(), String::new()),
        post("bob", "", "", u128::MAX)
    );
}

#[test]
fn update_decides_for_the_owner_only() {
    let found = post("alice", "Hi", "World", 3);
    assert_eq!(
        decide_update(Some(found.clone()), &caller("alice", 9), "Hi!".to_string(), "World!".to_string()),
        Ok(post("alice", "Hi!", "World!", 3))
    );
    assert_eq!(
        decide_update(Some(found.clone()), &caller("bob", 0), "Hi!".to_string(), "World!".to_string()),
        Err(BlogError::Unauthorized)
    );
    assert_eq!(
        decide_update(None, &caller("alice", 0), "Hi!".to_string(), "World!".to_string()),
        Err(BlogError::NotFound)
    );
}

#[test]
fn ownership_is_tested_against_the_predecessor() {
    let found = post("alice", "Hi", "World", 3);
    let signed_by_owner = CallerContext::new("alice".to_string(), "relay".to_string(), 0);
    let made_by_owner = CallerContext::new("relay".to_string(), "alice".to_string(), 0);
    assert_eq!(
        decide_update(Some(found.clone()), &signed_by_owner, "a".to_string(), "b".to_string()),
        Err(BlogError::Unauthorized)
    );
    assert_eq!(
        decide_update(Some(found.clone()), &made_by_owner, "a".to_string(), "b".to_string()),
        Ok(post("alice", "a", "b", 3))
    );
    assert_eq!(decide_delete(Some(found.clone()), &signed_by_owner), Err(BlogError::Unauthorized));
    assert_eq!(decide_delete(Some(found.clone()), &made_by_owner), Ok(()));
    assert_eq!(decide_withdraw(Some(found.clone()), &signed_by_owner), Err(BlogError::Unauthorized));
    assert_eq!(
        decide_withdraw(Some(found.clone()), &made_by_owner),
        Ok((post("alice", "Hi", "World", 0), 3))
    );
}

#[test]
fn delete_decides_for_the_owner_only() {
    let found = post("alice", "Hi", "World", 3);
    assert_eq!(decide_delete(Some(found.clone()), &caller("alice", 0)), Ok(()));
    assert_eq!(decide_delete(Some(found.clone()), &caller("bob", 0)), Err(BlogError::Unauthorized));
    assert_eq!(decide_delete(None, &caller("alice", 0)), Err(BlogError::NotFound));
}

#[test]
fn withdraw_decides_the_emptied_post_and_the_amount() {
    let found = post("alice", "Hi", "World", 5);
    assert_eq!(
        decide_withdraw(Some(found.clone()), &caller("alice", 0)),
        Ok((post("alice", "Hi", "World", 0), 5))
    );
    assert_eq!(
        decide_withdraw(Some(post("alice", "Hi", "World", 0)), &caller("alice", 0)),
        Ok((post("alice", "Hi", "World", 0), 0))
    );
    assert_eq!(
        decide_withdraw(Some(post("alice", "Hi", "World", u128::MAX)), &caller("alice", 1)),
        Ok((post("alice", "Hi", "World", 0), u128::MAX))
    );
    assert_eq!(decide_withdraw(Some(found.clone()), &caller("bob", 0)), Err(BlogError::Unauthorized));
    assert_eq!(decide_withdraw(None, &caller("alice", 0)), Err(BlogError::NotFound));
}

#[test]
fn clap_decides_the_sum_for_any_caller() {
    let found = post("alice", "Hi", "World", 10);
    assert_eq!(decide_clap(Some(found.clone()), &caller("bob", 5)), Ok(post("alice", "Hi", "World", 15)));
    assert_eq!(decide_clap(Some(found.clone()), &caller("alice", 5)), Ok(post("alice", "Hi", "World", 15)));
    assert_eq!(decide_clap(Some(found.clone()), &caller("carol", 0)), Ok(post("alice", "Hi", "World", 10)));
    assert_eq!(decide_clap(None, &caller("bob", 5)), Err(BlogError::NotFound));
}

#[test]
fn clap_beyond_the_largest_amount_is_refused() {
    let found = post("alice", "Hi", "World", u128::MAX - 1);
    assert_eq!(decide_clap(Some(found.clone()), &caller("bob", 2)), Err(BlogError::DonationOverflow));
    assert_eq!(
        decide_clap(Some(found.clone()), &caller("bob", 1)),
        Ok(post("alice", "Hi", "World", u128::MAX))
    );
    assert_eq!(
        decide_clap(Some(post("alice", "Hi", "World", u128::MAX)), &caller("bob", 1)),
        Err(BlogError::DonationOverflow)
    );
    assert_eq!(decide_clap(None, &caller("bob", u128::MAX)), Err(BlogError::NotFound));
}

#[test]
fn example_scenario() {
    let alice = caller("alice", 0);
    let bob = caller("bob", 5);
    let mut contract = Contract::new();

    contract.publish_post(&alice, "hello".to_string(), "Hi".to_string(), "World".to_string());
    assert_eq!(contract.get_post("hello".to_string()), Some(post("alice", "Hi", "World", 0)));

    assert_eq!(contract.clap_post(&bob, "hello".to_string()), Ok(()));
    assert_eq!(contract.get_post("hello".to_string()).unwrap().donation, 5);

    assert_eq!(contract.withdraw_post_donation(&alice, "hello".to_string()), Ok(()));
    assert_eq!(contract.paid, vec![("alice".to_string(), 5)]);
    assert_eq!(contract.get_post("hello".to_string()).unwrap().donation, 0);

    assert_eq!(contract.withdraw_post_donation(&alice, "hello".to_string()), Ok(()));
    assert_eq!(contract.paid, vec![("alice".to_string(), 5), ("alice".to_string(), 0)]);

    assert_eq!(
        contract.update_post(&bob, "hello".to_string(), "Hi!".to_string(), "World!".to_string()),
        Err(BlogError::Unauthorized)
    );
    assert_eq!(contract.get_post("hello".to_string()), Some(post("alice", "Hi", "World", 0)));
    assert_eq!(contract.list_slugs(), names(&["hello"]));
}

#[test]
fn refused_withdrawal_pays_nothing() {
    let mut contract = Contract::new();
    contract.publish_post(&caller("alice", 9), "hello".to_string(), "Hi".to_string(), "World".to_string());
    assert_eq!(
        contract.withdraw_post_donation(&caller("bob", 0), "hello".to_string()),
        Err(BlogError::Unauthorized)
    );
    assert_eq!(
        contract.withdraw_post_donation(&caller("bob", 0), "other".to_string()),
        Err(BlogError::NotFound)
    );
    assert!(contract.paid.is_empty());
    assert_eq!(contract.get_post("hello".to_string()).unwrap().donation, 9);
}

#[test]
fn republish_replaces_the_post_whole() {
    let mut contract = Contract::new();
    contract.publish_post(&caller("alice", 4), "hello".to_string(), "Hi".to_string(), "World".to_string());
    contract.publish_post(&caller("bob", 1), "hello".to_string(), "Mine".to_string(), "Now".to_string());
    assert_eq!(contract.get_post("hello".to_string()), Some(post("bob", "Mine", "Now", 1)));
    assert_eq!(contract.list_slugs(), names(&["hello"]));
    assert_eq!(
        contract.withdraw_post_donation(&caller("alice", 0), "hello".to_string()),
        Err(BlogError::Unauthorized)
    );
    assert_eq!(contract.withdraw_post_donation(&caller("bob", 0), "hello".to_string()), Ok(()));
    assert_eq!(contract.paid, vec![("bob".to_string(), 1)]);
}

#[test]
fn list_is_published_minus_deleted() {
    let alice = caller("alice", 0);
    let bob = caller("bob", 0);
    let mut contract = Contract::new();
    assert!(contract.list_slugs().is_empty());
    for slug in ["c", "a", "d", "b"] {
        contract.publish_post(&alice, slug.to_string(), slug.to_uppercase(), String::new());
    }
    assert_eq!(contract.list_slugs(), names(&["a", "b", "c", "d"]));
    assert_eq!(contract.delete_post(&bob, "c".to_string()), Err(BlogError::Unauthorized));
    assert_eq!(contract.list_slugs(), names(&["a", "b", "c", "d"]));
    assert_eq!(contract.delete_post(&alice, "c".to_string()), Ok(()));
    assert_eq!(contract.delete_post(&alice, "b".to_string()), Ok(()));
    assert_eq!(contract.delete_post(&alice, "b".to_string()), Err(BlogError::NotFound));
    assert_eq!(contract.list_slugs(), names(&["a", "d"]));
    contract.publish_post(&alice, "b".to_string(), "again".to_string(), String::new());
    assert_eq!(contract.list_slugs(), names(&["a", "b", "d"]));
    assert_eq!(contract.get_post("c".to_string()), None);
    assert_eq!(contract.get_post("b".to_string()), Some(post("alice", "again", "", 0)));
}

#[test]
fn missing_post_is_not_found() {
    let alice = caller("alice", 1);
    let mut contract = Contract::new();
    assert_eq!(
        contract.update_post(&alice, "x".to_string(), "t".to_string(), "b".to_string()),
        Err(BlogError::NotFound)
    );
    assert_eq!(contract.delete_post(&alice, "x".to_string()), Err(BlogError::NotFound));
    assert_eq!(contract.withdraw_post_donation(&alice, "x".to_string()), Err(BlogError::NotFound));
    assert_eq!(contract.clap_post(&alice, "x".to_string()), Err(BlogError::NotFound));
    assert!(contract.list_slugs().is_empty());
    assert!(contract.paid.is_empty());
    assert_eq!(contract.get_post("x".to_string()), None);
}

#[test]
fn error_messages() {
    assert_eq!(BlogError::NotFound.message(), "Post not exists");
    assert_eq!(BlogError::Unauthorized.message(), "Only the owner may call this method");
    assert_eq!(BlogError::AlreadyInitialized.message(), "Already initialized");
    assert_eq!(BlogError::DonationOverflow.message(), "Donation exceeds the largest amount");
}

#[test]
fn post_donation_account() {
    let p = post("alice", "Hi", "World", 3);
    assert_eq!(p.clone().clap(4), Ok(post("alice", "Hi", "World", 7)));
    assert_eq!(p.clone().clap(0), Ok(post("alice", "Hi", "World", 3)));
    assert_eq!(p.clone().clap(u128::MAX - 3), Ok(post("alice", "Hi", "World", u128::MAX)));
    assert_eq!(p.clone().clap(u128::MAX - 2), Err(BlogError::DonationOverflow));
    assert_eq!(p.clone().withdraw(), (post("alice", "Hi", "World", 0), 3));
    assert_eq!(
        p.clone().revise("Hi!".to_string(), "World!".to_string()),
        post("alice", "Hi!", "World!", 3)
    );
    assert_eq!(
        Post::new("alice".to_string(), "Hi".to_string(), "World".to_string(), 3),
        p
    );
}

#[test]
fn ownership_policy() {
    let p = post("alice", "Hi", "World", 3);
    assert_eq!(require_exists(Some(p.clone())), Ok(p.clone()));
    assert_eq!(require_exists(None), Err(BlogError::NotFound));
    assert_eq!(require_owner(&p, &"alice".to_string()), Ok(()));
    assert_eq!(require_owner(&p, &"bob".to_string()), Err(BlogError::Unauthorized));
    assert_eq!(require_owner(&p, &"alice2".to_string()), Err(BlogError::Unauthorized));
    assert_eq!(require_owner(&p, &"Alice".to_string()), Err(BlogError::Unauthorized));
    assert_eq!(require_owner(&p, &"".to_string()), Err(BlogError::Unauthorized));
}

#[test]
fn caller_context_holds_what_it_is_given() {
    let context = CallerContext::new("alice".to_string(), "relay".to_string(), 42);
    assert_eq!(context.signer_id, "alice");
    assert_eq!(context.predecessor_id, "relay");
    assert_eq!(context.attached_deposit, 42);
}
