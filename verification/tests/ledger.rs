use post_ledger::allocator::{IdAllocator, StableRegions};
use post_ledger::error::Error;
use post_ledger::ledger::{record_tweet, Ledger, _get_tweet};
use post_ledger::records::{Profile, Tweet};
use post_ledger::store::EntityStore;

fn fresh_ledger() -> Ledger {
    let regions = StableRegions::open();
    Ledger::new(IdAllocator::open(&regions, 0).unwrap())
}

fn text(s: &str) -> String {
    s.to_string()
}

fn profile_of(username: &str, bio: Option<&str>) -> Profile {
    Profile {
        username: text(username),
        password: text("secret"),
        profile_picture_url: None,
        bio: bio.map(text),
    }
}

#[test]
fn scenario_alice_and_bob() {
    let mut ledger = fresh_ledger();
    let a = 1;
    let b = 2;
    assert_eq!(ledger.claim_username(a, text("alice")), Ok(()));
    assert_eq!(ledger.claim_username(b, text("alice")), Err(Error::AlreadyClaimed));

    let post = ledger.create_tweet(a, text("hello"), 1_000).unwrap();
    assert_eq!(
        post,
        Tweet {
            id: 0,
            author_username: text("alice"),
            content: text("hello"),
            created_at: 1_000,
            likes: 0,
            retweets: 0,
            comments: Vec::new(),
        }
    );

    assert_eq!(ledger.update_tweet(b, 0, text("x")), Err(Error::Unauthorized));
    assert_eq!(ledger.get_tweet(0), Ok(post.clone()));

    let updated = ledger.update_tweet(a, 0, text("bye")).unwrap();
    assert_eq!(updated.id, 0);
    assert_eq!(updated.content, "bye");
    assert_eq!(updated.author_username, "alice");
    assert_eq!(updated.created_at, 1_000);
    assert_eq!(updated.likes, 0);
    assert_eq!(ledger.get_tweet(0), Ok(updated));
}

#[test]
fn list_usernames_on_an_empty_registry_is_empty_condition() {
    let ledger = fresh_ledger();
    assert_eq!(ledger.list_usernames(), Err(Error::Empty));
    assert_eq!(ledger.list_all_authors(), Err(Error::Empty));
}

#[test]
fn list_usernames_never_shows_an_unclaimed_name() {
    let mut ledger = fresh_ledger();
    ledger.claim_username(1, text("alice")).unwrap();
    assert_eq!(ledger.claim_username(2, text("alice")), Err(Error::AlreadyClaimed));
    assert_eq!(ledger.claim_username(1, text("mallory")), Err(Error::AlreadyRegistered));
    assert_eq!(ledger.claim_username(3, String::new()), Err(Error::InvalidInput));
    ledger.claim_username(2, text("bob")).unwrap();
    assert_eq!(ledger.list_usernames(), Ok(vec![text("alice"), text("bob")]));
    assert_eq!(ledger.list_all_authors(), Ok(vec![text("alice"), text("bob")]));
}

#[test]
fn get_profile_of_a_name_never_claimed_is_nothing() {
    let ledger = fresh_ledger();
    assert_eq!(ledger.get_profile(&text("nonexistent")), None);
}

#[test]
fn get_profile_before_any_profile_was_set_is_nothing() {
    let mut ledger = fresh_ledger();
    ledger.claim_username(1, text("alice")).unwrap();
    assert_eq!(ledger.get_profile(&text("alice")), None);
}

#[test]
fn resolve_gives_the_claimed_name() {
    let mut ledger = fresh_ledger();
    assert_eq!(ledger.resolve(1), None);
    ledger.claim_username(1, text("alice")).unwrap();
    assert_eq!(ledger.resolve(1), Some(&text("alice")));
    assert_eq!(ledger.resolve(2), None);
}

#[test]
fn create_with_empty_content_is_invalid() {
    let mut ledger = fresh_ledger();
    ledger.claim_username(1, text("alice")).unwrap();
    assert_eq!(ledger.create_tweet(1, String::new(), 5), Err(Error::InvalidInput));
    assert_eq!(ledger.get_tweet(0), Err(Error::NotFound));
    assert_eq!(ledger.create_tweet(1, text("first"), 6).unwrap().id, 0);
}

#[test]
fn empty_content_is_reported_before_missing_registration() {
    let mut ledger = fresh_ledger();
    assert_eq!(ledger.create_tweet(9, String::new(), 5), Err(Error::InvalidInput));
}

#[test]
fn create_by_an_unregistered_caller_is_unauthorized() {
    let mut ledger = fresh_ledger();
    assert_eq!(ledger.create_tweet(1, text("hello"), 5), Err(Error::Unauthorized));
    assert_eq!(ledger.get_tweet(0), Err(Error::NotFound));
    ledger.claim_username(1, text("alice")).unwrap();
    assert_eq!(ledger.create_tweet(1, text("hello"), 5).unwrap().id, 0);
}

#[test]
fn created_ids_grow_and_posts_round_trip() {
    let mut ledger = fresh_ledger();
    ledger.claim_username(1, text("alice")).unwrap();
    ledger.claim_username(2, text("bob")).unwrap();
    let mut seen: Vec<u64> = Vec::new();
    for k in 0..20u64 {
        let caller = 1 + k % 2;
        let post = ledger.create_tweet(caller, format!("post {}", k), 100 + k).unwrap();
        for earlier in &seen {
            assert!(post.id > *earlier);
        }
        assert_eq!(post.id, k);
        assert_eq!(post.created_at, 100 + k);
        assert_eq!(post.author_username, if caller == 1 { "alice" } else { "bob" });
        assert_eq!(ledger.get_tweet(post.id), Ok(post.clone()));
        assert_eq!(_get_tweet(&ledger, &post.id), Some(post.clone()));
        seen.push(post.id);
    }
}

#[test]
fn get_of_a_missing_post_is_not_found() {
    let ledger = fresh_ledger();
    assert_eq!(ledger.get_tweet(0), Err(Error::NotFound));
    assert_eq!(ledger.get_tweet(u64::MAX), Err(Error::NotFound));
    assert_eq!(_get_tweet(&ledger, &0), None);
}

#[test]
fn update_and_delete_of_a_missing_post_are_not_found() {
    let mut ledger = fresh_ledger();
    ledger.claim_username(1, text("alice")).unwrap();
    assert_eq!(ledger.update_tweet(1, 0, text("x")), Err(Error::NotFound));
    assert_eq!(ledger.delete_tweet(1, 0), Err(Error::NotFound));
    assert_eq!(ledger.update_tweet(2, 0, text("x")), Err(Error::NotFound));
    assert_eq!(ledger.delete_tweet(2, 0), Err(Error::NotFound));
}

#[test]
fn strangers_leave_the_store_untouched() {
    let mut ledger = fresh_ledger();
    ledger.claim_username(1, text("alice")).unwrap();
    ledger.claim_username(2, text("bob")).unwrap();
    let first = ledger.create_tweet(1, text("mine"), 10).unwrap();
    let second = ledger.create_tweet(2, text("his"), 11).unwrap();

    assert_eq!(ledger.update_tweet(2, first.id, text("stolen")), Err(Error::Unauthorized));
    assert_eq!(ledger.delete_tweet(2, first.id), Err(Error::Unauthorized));
    assert_eq!(ledger.update_tweet(3, first.id, text("stolen")), Err(Error::Unauthorized));
    assert_eq!(ledger.delete_tweet(3, first.id), Err(Error::Unauthorized));
    assert_eq!(ledger.update_tweet(1, second.id, text("stolen")), Err(Error::Unauthorized));
    assert_eq!(ledger.delete_tweet(1, second.id), Err(Error::Unauthorized));

    assert_eq!(ledger.get_tweet(first.id), Ok(first));
    assert_eq!(ledger.get_tweet(second.id), Ok(second));
    assert_eq!(ledger.list_usernames(), Ok(vec![text("alice"), text("bob")]));
    assert_eq!(ledger.create_tweet(1, text("next"), 12).unwrap().id, 2);
}

#[test]
fn update_replaces_the_text_only() {
    let mut ledger = fresh_ledger();
    ledger.claim_username(1, text("alice")).unwrap();
    let other = ledger.create_tweet(1, text("other"), 1).unwrap();
    let post = ledger.create_tweet(1, text("draft"), 2).unwrap();
    let updated = ledger.update_tweet(1, post.id, text("final")).unwrap();
    assert_eq!(updated, Tweet { content: text("final"), ..post.clone() });
    assert_eq!(ledger.get_tweet(post.id), Ok(updated));
    assert_eq!(ledger.get_tweet(other.id), Ok(other));
}

#[test]
fn update_may_empty_the_text() {
    let mut ledger = fresh_ledger();
    ledger.claim_username(1, text("alice")).unwrap();
    let post = ledger.create_tweet(1, text("draft"), 2).unwrap();
    let updated = ledger.update_tweet(1, post.id, String::new()).unwrap();
    assert_eq!(updated.content, "");
    assert_eq!(updated.id, post.id);
}

#[test]
fn delete_returns_the_post_and_frees_nothing() {
    let mut ledger = fresh_ledger();
    ledger.claim_username(1, text("alice")).unwrap();
    let first = ledger.create_tweet(1, text("one"), 1).unwrap();
    let second = ledger.create_tweet(1, text("two"), 2).unwrap();
    assert_eq!(ledger.delete_tweet(1, first.id), Ok(first.clone()));
    assert_eq!(ledger.get_tweet(first.id), Err(Error::NotFound));
    assert_eq!(_get_tweet(&ledger, &first.id), None);
    assert_eq!(ledger.delete_tweet(1, first.id), Err(Error::NotFound));
    assert_eq!(ledger.update_tweet(1, first.id, text("x")), Err(Error::NotFound));
    assert_eq!(ledger.get_tweet(second.id), Ok(second.clone()));

    let third = ledger.create_tweet(1, text("three"), 3).unwrap();
    assert_ne!(third.id, first.id);
    assert_eq!(third.id, 2);
    assert_eq!(ledger.delete_tweet(1, second.id), Ok(second));
    assert_eq!(ledger.delete_tweet(1, third.id), Ok(third));
    assert_eq!(ledger.create_tweet(1, text("four"), 4).unwrap().id, 3);
}

#[test]
fn delete_returns_the_updated_text() {
    let mut ledger = fresh_ledger();
    ledger.claim_username(1, text("alice")).unwrap();
    let post = ledger.create_tweet(1, text("draft"), 1).unwrap();
    ledger.update_tweet(1, post.id, text("final")).unwrap();
    let deleted = ledger.delete_tweet(1, post.id).unwrap();
    assert_eq!(deleted.content, "final");
    assert_eq!(deleted.created_at, 1);
}

#[test]
fn profile_needs_a_claimed_username() {
    let mut ledger = fresh_ledger();
    assert_eq!(ledger.update_profile(1, profile_of("alice", None)), Err(Error::Unauthorized));
    assert_eq!(ledger.get_profile(&text("alice")), None);
    ledger.claim_username(1, text("alice")).unwrap();
    assert_eq!(ledger.update_profile(1, profile_of("alice", Some("hi"))), Ok(()));
    assert_eq!(ledger.get_profile(&text("alice")), Some(profile_of("alice", Some("hi"))));
}

#[test]
fn profile_under_another_callers_name_is_unauthorized() {
    let mut ledger = fresh_ledger();
    ledger.claim_username(1, text("alice")).unwrap();
    ledger.claim_username(2, text("bob")).unwrap();
    assert_eq!(ledger.update_profile(2, profile_of("alice", Some("fake"))), Err(Error::Unauthorized));
    assert_eq!(ledger.update_profile(2, profile_of("carol", None)), Err(Error::Unauthorized));
    assert_eq!(ledger.get_profile(&text("alice")), None);
    assert_eq!(ledger.get_profile(&text("bob")), None);
    assert_eq!(ledger.get_profile(&text("carol")), None);
}

#[test]
fn profile_update_replaces_the_whole_record() {
    let mut ledger = fresh_ledger();
    ledger.claim_username(1, text("alice")).unwrap();
    let full = Profile {
        username: text("alice"),
        password: text("pw1"),
        profile_picture_url: Some(text("http://pic")),
        bio: Some(text("bio")),
    };
    assert_eq!(ledger.update_profile(1, full.clone()), Ok(()));
    assert_eq!(ledger.get_profile(&text("alice")), Some(full));
    let bare = Profile {
        username: text("alice"),
        password: text("pw2"),
        profile_picture_url: None,
        bio: None,
    };
    assert_eq!(ledger.update_profile(1, bare.clone()), Ok(()));
    assert_eq!(ledger.get_profile(&text("alice")), Some(bare.clone()));
    assert_eq!(ledger.update_profile(1, bare.clone()), Ok(()));
    assert_eq!(ledger.get_profile(&text("alice")), Some(bare));
}

#[test]
fn password_is_stored_as_given() {
    let mut ledger = fresh_ledger();
    ledger.claim_username(1, text("alice")).unwrap();
    let mut profile = profile_of("alice", None);
    profile.password = text("p@ss wörd");
    ledger.update_profile(1, profile).unwrap();
    assert_eq!(ledger.get_profile(&text("alice")).unwrap().password, "p@ss wörd");
}

#[test]
fn a_resumed_counter_continues_after_earlier_posts() {
    let regions = StableRegions::open();
    let mut first = Ledger::new(IdAllocator::open(&regions, 0).unwrap());
    first.claim_username(1, text("alice")).unwrap();
    assert_eq!(first.create_tweet(1, text("a"), 1).unwrap().id, 0);
    assert_eq!(first.create_tweet(1, text("b"), 2).unwrap().id, 1);
    let mut second = Ledger::new(IdAllocator::open(&regions, 0).unwrap());
    second.claim_username(1, text("alice")).unwrap();
    assert_eq!(second.create_tweet(1, text("c"), 3).unwrap().id, 2);
}

#[test]
fn clones_of_records_are_equal() {
    let mut ledger = fresh_ledger();
    ledger.claim_username(1, text("alice")).unwrap();
    let post = ledger.create_tweet(1, text("hello"), 1).unwrap();
    assert_eq!(post.clone(), post);
    let profile = profile_of("alice", Some("bio"));
    assert_eq!(profile.clone(), profile);
}

#[test]
fn record_tweet_stores_under_the_issued_identifier() {
    let mut tweets: EntityStore<Tweet> = EntityStore::new();
    let created = record_tweet(&mut tweets, Some(7), text("alice"), text("hello"), 42);
    let expected = Tweet {
        id: 7,
        author_username: text("alice"),
        content: text("hello"),
        created_at: 42,
        likes: 0,
        retweets: 0,
        comments: Vec::new(),
    };
    assert_eq!(created, Ok(expected.clone()));
    assert_eq!(tweets.get(7), Some(&expected));
    assert_eq!(tweets.iterate(), vec![(7, &expected)]);
}

#[test]
fn record_tweet_keeps_the_other_posts() {
    let mut tweets: EntityStore<Tweet> = EntityStore::new();
    let first = record_tweet(&mut tweets, Some(0), text("alice"), text("one"), 1).unwrap();
    let second = record_tweet(&mut tweets, Some(u64::MAX), text("bob"), text("two"), 2).unwrap();
    assert_eq!(second.id, u64::MAX);
    assert_eq!(second.author_username, "bob");
    assert_eq!(tweets.iterate(), vec![(0, &first), (u64::MAX, &second)]);
}

#[test]
fn record_tweet_without_an_identifier_stores_nothing() {
    let mut tweets: EntityStore<Tweet> = EntityStore::new();
    let kept = record_tweet(&mut tweets, Some(3), text("alice"), text("kept"), 1).unwrap();
    let refused = record_tweet(&mut tweets, None, text("alice"), text("lost"), 2);
    assert_eq!(refused, Err(Error::CounterUnavailable));
    assert_eq!(tweets.iterate(), vec![(3, &kept)]);
}
