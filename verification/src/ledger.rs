//! The ledger itself: posts, username claims and profiles behind one set of
//! operations, each taking the identity of its caller.

use crate::allocator::IdAllocator;
use crate::error::Error;
use crate::laws::{
    claim_keeps_validity, create_keeps_validity, delete_keeps_validity, profile_keeps_validity,
    update_keeps_validity,
};
use crate::model::LedgerView;
use crate::records::{profile_views, tweet_views, Profile, Tweet, TweetView};
use crate::registry::{claim_verdict, text_views, username_of, UsernameRegistry};
use crate::store::EntityStore;
use vstd::prelude::*;

verus! {

/// The stores of the ledger. They are built once and handed to every
/// operation through this value.
pub struct Ledger {
    ids: IdAllocator,
    tweets: EntityStore<Tweet>,
    registry: UsernameRegistry,
    profiles: EntityStore<Profile>,
}

impl View for Ledger {
    type V = LedgerView;

    closed spec fn view(&self) -> LedgerView {
        LedgerView {
            upcoming: self.ids.upcoming(),
            tweets: tweet_views(self.tweets@),
            claims: self.registry@,
            profiles: profile_views(self.profiles@),
        }
    }
}

/// The post stored under `tweet_id`, if there is one.
pub fn _get_tweet(ledger: &Ledger, tweet_id: &u64) -> (found: Option<Tweet>)
    ensures
        match found {
            Some(tweet) => ledger@.get_tweet(*tweet_id) == Ok::<TweetView, Error>(tweet@),
            None => ledger@.get_tweet(*tweet_id) == Err::<TweetView, Error>(Error::NotFound),
        },
{
    match ledger.tweets.get(*tweet_id) {
        Some(stored) => Some(stored.clone()),
        None => None,
    }
}

/// What creating a post comes to for each answer of the counter. With
/// the identifier `id` issued, the post of `author` with `content`, made at
/// time `now`, is stored under `id` and returned: it has no likes, no
/// retweets and no comments. With none issued, nothing is stored and the
/// answer is `CounterUnavailable`.
pub fn record_tweet(
    tweets: &mut EntityStore<Tweet>,
    issued: Option<u64>,
    author: String,
    content: String,
    now: u64,
) -> (created: Result<Tweet, Error>)
    ensures
        match issued {
            Some(id) => {
                &&& created matches Ok(tweet) && tweet@ == TweetView::fresh(
                    id,
                    author@,
                    content@,
                    now,
                )
                &&& tweet_views(final(tweets)@) == tweet_views(old(tweets)@).insert(
                    id,
                    TweetView::fresh(id, author@, content@, now),
                )
            },
            None => {
                &&& created == Err::<Tweet, Error>(Error::CounterUnavailable)
                &&& final(tweets)@ == old(tweets)@
            },
        },
{
    let id = match issued {
        Some(id) => id,
        None => {
            return Err(Error::CounterUnavailable);
        },
    };
    let tweet = Tweet {
        id,
        author_username: author,
        content,
        created_at: now,
        likes: 0,
        retweets: 0,
        comments: Vec::new(),
    };
    let stored = tweet.clone();
    tweets.upsert(id, stored);
    proof {
        assert(tweet@.comments =~= Seq::empty());
        assert(tweet_views(tweets@) =~= tweet_views(old(tweets)@).insert(id, tweet@));
    }
    Ok(tweet)
}

impl Ledger {
    /// The invariant of a ledger: its view is valid.
    pub open spec fn well_formed(&self) -> bool {
        self@.valid()
    }

    /// A ledger without posts, claims or profiles, whose post identifiers
    /// come from `ids`.
    pub fn new(ids: IdAllocator) -> (ledger: Self)
        ensures
            ledger@ == LedgerView::initial(ids.upcoming()),
            ledger.well_formed(),
    {
        let ledger = Ledger {
            ids,
            tweets: EntityStore::new(),
            registry: UsernameRegistry::new(),
            profiles: EntityStore::new(),
        };
        assert(ledger@ =~= LedgerView::initial(ids.upcoming()));
        ledger
    }

    /// Binds `username` to the caller `identity`. Refused with
    /// `InvalidInput` for an empty username, `AlreadyClaimed` for one that
    /// is taken, `AlreadyRegistered` for a caller that holds one; the first
    /// of these that applies.
    pub fn claim_username(&mut self, identity: u64, username: String) -> (verdict: Result<
        (),
        Error,
    >)
        requires
            old(self).well_formed(),
        ensures
            final(self).well_formed(),
            verdict == claim_verdict(old(self)@.claims, identity, username@),
            final(self)@ == old(self)@.after_claim(identity, username@),
    {
        let verdict = self.registry.claim(identity, username);
        proof {
            claim_keeps_validity(old(self)@, identity, username@);
        }
        verdict
    }

    /// The username that the caller `identity` holds, if any.
    pub fn resolve(&self, identity: u64) -> (found: Option<&String>)
        requires
            self.well_formed(),
        ensures
            match found {
                Some(name) => username_of(self@.claims, identity) == Some(name@),
                None => username_of(self@.claims, identity) is None,
            },
    {
        self.registry.resolve(identity)
    }

    /// Creates a post by the caller `identity` at time `now`. Refused with
    /// `InvalidInput` for empty content, else with `Unauthorized` for a
    /// caller without a username, else with `CounterUnavailable` when no
    /// identifier could be issued. Otherwise the post gets the upcoming
    /// identifier and the caller's username as its author, is stored, and
    /// is returned.
    pub fn create_tweet(&mut self, identity: u64, content: String, now: u64) -> (created: Result<
        Tweet,
        Error,
    >)
        requires
            old(self).well_formed(),
        ensures
            final(self).well_formed(),
            match old(self)@.create_refusal(identity, content@) {
                Some(e) => created == Err::<Tweet, Error>(e) && final(self)@ == old(self)@,
                None => match created {
                    Ok(tweet) => {
                        &&& tweet@ == old(self)@.created_tweet(identity, content@, now)
                        &&& final(self)@ == old(self)@.after_create(identity, content@, now)
                    },
                    Err(e) => e == Error::CounterUnavailable && final(self)@ == old(self)@,
                },
            },
            old(self)@.upcoming == u64::MAX ==> created is Err,
    {
        if content.as_str().is_empty() {
            return Err(Error::InvalidInput);
        }
        let author = match self.registry.resolve(identity) {
            Some(name) => name.clone(),
            None => {
                return Err(Error::Unauthorized);
            },
        };
        let issued = self.ids.next();
        let created = record_tweet(&mut self.tweets, issued, author, content, now);
        proof {
            if issued is Some {
                assert(self@ =~= old(self)@.after_create(identity, content@, now));
                create_keeps_validity(old(self)@, identity, content@, now);
            } else {
                assert(self@ =~= old(self)@);
            }
        }
        created
    }

    /// The post stored under `id`, or `NotFound`.
    pub fn get_tweet(&self, id: u64) -> (found: Result<Tweet, Error>)
        ensures
            match found {
                Ok(tweet) => self@.get_tweet(id) == Ok::<TweetView, Error>(tweet@),
                Err(e) => self@.get_tweet(id) == Err::<TweetView, Error>(e),
            },
    {
        match _get_tweet(self, &id) {
            Some(tweet) => Ok(tweet),
            None => Err(Error::NotFound),
        }
    }

    /// Whether the caller `identity` holds the username `author`.
    fn holds(&self, identity: u64, author: &String) -> (answer: bool)
        requires
            self.well_formed(),
        ensures
            answer == (username_of(self@.claims, identity) == Some(author@)),
    {
        match self.registry.resolve(identity) {
            Some(name) => *name == *author,
            None => false,
        }
    }

    /// Replaces the text of the post stored under `id` by `content` and
    /// returns the post as it then is. Refused with `NotFound` for a post
    /// that does not exist, else with `Unauthorized` unless the caller
    /// `identity` holds the username recorded as its author.
    ///
    /// Ownership goes by the author's name as it was written into the post
    /// when the post was created, not by an identity kept with the post.
    /// Since a username never changes hands, the two agree.
    pub fn update_tweet(&mut self, identity: u64, id: u64, content: String) -> (updated: Result<
        Tweet,
        Error,
    >)
        requires
            old(self).well_formed(),
        ensures
            final(self).well_formed(),
            final(self)@ == old(self)@.after_update(identity, id, content@),
            match updated {
                Ok(tweet) => old(self)@.update_answer(identity, id, content@) == Ok::<
                    TweetView,
                    Error,
                >(tweet@),
                Err(e) => old(self)@.update_answer(identity, id, content@) == Err::<
                    TweetView,
                    Error,
                >(e),
            },
    {
        let mut tweet = match self.tweets.get(id) {
            Some(stored) => {
                if !self.holds(identity, &stored.author_username) {
                    return Err(Error::Unauthorized);
                }
                stored.clone()
            },
            None => {
                return Err(Error::NotFound);
            },
        };
        tweet.content = content;
        let stored = tweet.clone();
        self.tweets.upsert(id, stored);
        proof {
            assert(self@.tweets =~= old(self)@.tweets.insert(id, tweet@));
            assert(self@ =~= old(self)@.after_update(identity, id, content@));
            update_keeps_validity(old(self)@, identity, id, content@);
        }
        Ok(tweet)
    }

    /// Removes the post stored under `id` and returns it as it was.
    /// Refused like `update_tweet`.
    pub fn delete_tweet(&mut self, identity: u64, id: u64) -> (deleted: Result<Tweet, Error>)
        requires
            old(self).well_formed(),
        ensures
            final(self).well_formed(),
            final(self)@ == old(self)@.after_delete(identity, id),
            match deleted {
                Ok(tweet) => old(self)@.editable(identity, id) == Ok::<TweetView, Error>(tweet@),
                Err(e) => old(self)@.editable(identity, id) == Err::<TweetView, Error>(e),
            },
    {
        match self.tweets.get(id) {
            Some(stored) => {
                if !self.holds(identity, &stored.author_username) {
                    return Err(Error::Unauthorized);
                }
            },
            None => {
                return Err(Error::NotFound);
            },
        }
        match self.tweets.remove(id) {
            Some(tweet) => {
                proof {
                    assert(self@.tweets =~= old(self)@.tweets.remove(id));
                    assert(self@ =~= old(self)@.after_delete(identity, id));
                    delete_keeps_validity(old(self)@, identity, id);
                }
                Ok(tweet)
            },
            None => Err(Error::NotFound),
        }
    }

    /// Every claimed username, in the order of the claims; `Empty` while
    /// there is none, so a successful listing is never empty.
    pub fn list_usernames(&self) -> (listing: Result<Vec<String>, Error>)
        ensures
            match listing {
                Ok(names) => self@.list_usernames() == Ok::<Seq<Seq<char>>, Error>(
                    text_views(names@),
                ),
                Err(e) => self@.list_usernames() == Err::<Seq<Seq<char>>, Error>(e),
            },
    {
        self.registry.list_all_usernames()
    }

    /// Everyone who can have written a post: the claimed usernames, as
    /// `list_usernames` gives them. Authors are not collected from the
    /// posts, so a username is listed from the moment it is claimed.
    pub fn list_all_authors(&self) -> (listing: Result<Vec<String>, Error>)
        ensures
            match listing {
                Ok(names) => self@.list_usernames() == Ok::<Seq<Seq<char>>, Error>(
                    text_views(names@),
                ),
                Err(e) => self@.list_usernames() == Err::<Seq<Seq<char>>, Error>(e),
            },
    {
        self.list_usernames()
    }

    /// Stores `profile` as the profile of the caller `identity`, in place
    /// of any earlier one: the whole record is replaced, nothing is merged.
    /// Refused with `Unauthorized` unless the caller holds the username
    /// that the profile names; a caller without a username holds none.
    pub fn update_profile(&mut self, identity: u64, profile: Profile) -> (verdict: Result<
        (),
        Error,
    >)
        requires
            old(self).well_formed(),
        ensures
            final(self).well_formed(),
            final(self)@ == old(self)@.after_profile(identity, profile@),
            verdict == if old(self)@.may_set_profile(identity, profile@) {
                Ok::<(), Error>(())
            } else {
                Err::<(), Error>(Error::Unauthorized)
            },
    {
        if !self.holds(identity, &profile.username) {
            return Err(Error::Unauthorized);
        }
        self.profiles.upsert(identity, profile);
        proof {
            assert(self@.profiles =~= old(self)@.profiles.insert(identity, profile@));
            assert(self@ =~= old(self)@.after_profile(identity, profile@));
            profile_keeps_validity(old(self)@, identity, profile@);
        }
        Ok(())
    }

    /// The profile of the caller that holds `username`: `None` if nobody
    /// holds it or its holder has set no profile.
    pub fn get_profile(&self, username: &String) -> (found: Option<Profile>)
        requires
            self.well_formed(),
        ensures
            match found {
                Some(profile) => self@.get_profile(username@) == Some(profile@),
                None => self@.get_profile(username@) is None,
            },
    {
        match self.registry.owner(username) {
            Some(identity) => match self.profiles.get(identity) {
                Some(profile) => Some(profile.clone()),
                None => None,
            },
            None => None,
        }
    }
}

} // verus!
