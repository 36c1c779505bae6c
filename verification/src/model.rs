//! The ledger as a mathematical value, and each operation as a function on
//! such values.

use crate::error::Error;
use crate::records::{ProfileView, TweetView};
use crate::registry::{
    bijective, claims_after, name_taken, owner_of, username_of, usernames, ClaimView,
};
use vstd::prelude::*;

verus! {

/// Everything the ledger holds.
#[verifier::ext_equal]
pub struct LedgerView {
    /// The identifier that the next post gets. Every identifier below it
    /// has been issued, and none from it on.
    pub upcoming: u64,
    /// The posts that exist, by identifier.
    pub tweets: Map<u64, TweetView>,
    /// The username claims, in the order in which they were made.
    pub claims: Seq<ClaimView>,
    /// The profiles that were set, by caller.
    pub profiles: Map<u64, ProfileView>,
}

impl LedgerView {
    /// A ledger without posts, claims or profiles, whose counter stands at
    /// `upcoming`.
    pub open spec fn initial(upcoming: u64) -> LedgerView {
        LedgerView {
            upcoming,
            tweets: Map::empty(),
            claims: Seq::empty(),
            profiles: Map::empty(),
        }
    }

    /// What holds of every ledger: the claims are bijective; a post is
    /// stored under its own identifier, which has been issued, and its
    /// author is a claimed username; a profile belongs to a caller that
    /// holds the profile's username.
    pub open spec fn valid(self) -> bool {
        &&& bijective(self.claims)
        &&& forall|id: u64| #[trigger]
            self.tweets.contains_key(id) ==> {
                &&& id < self.upcoming
                &&& self.tweets[id].id == id
                &&& name_taken(self.claims, self.tweets[id].author_username)
            }
        &&& forall|identity: u64| #[trigger]
            self.profiles.contains_key(identity) ==> username_of(self.claims, identity) == Some(
                self.profiles[identity].username,
            )
    }

    /// Whether the identifier `id` has been issued to a post, stored or
    /// deleted since.
    pub open spec fn issued(self, id: u64) -> bool {
        id < self.upcoming
    }

    /// The ledger after `identity` has tried to claim `username`.
    pub open spec fn after_claim(self, identity: u64, username: Seq<char>) -> LedgerView {
        LedgerView { claims: claims_after(self.claims, identity, username), ..self }
    }

    /// Why `identity` may not post `content`, if so: empty content is
    /// invalid, and a caller without a username is not authorized.
    pub open spec fn create_refusal(self, identity: u64, content: Seq<char>) -> Option<Error> {
        if content.len() == 0 {
            Some(Error::InvalidInput)
        } else if username_of(self.claims, identity) is None {
            Some(Error::Unauthorized)
        } else {
            None
        }
    }

    /// The post that `identity` creates with `content` at time `now`.
    pub open spec fn created_tweet(self, identity: u64, content: Seq<char>, now: u64) -> TweetView {
        TweetView::fresh(self.upcoming, username_of(self.claims, identity).unwrap(), content, now)
    }

    /// The ledger after `identity` has created a post with `content` at
    /// time `now`.
    pub open spec fn after_create(self, identity: u64, content: Seq<char>, now: u64) -> LedgerView {
        LedgerView {
            upcoming: (self.upcoming + 1) as u64,
            tweets: self.tweets.insert(self.upcoming, self.created_tweet(identity, content, now)),
            ..self
        }
    }

    /// The post stored under `id`.
    pub open spec fn get_tweet(self, id: u64) -> Result<TweetView, Error> {
        if self.tweets.contains_key(id) {
            Ok(self.tweets[id])
        } else {
            Err(Error::NotFound)
        }
    }

    /// Whether `identity` holds the username recorded as author of the
    /// post stored under `id`.
    pub open spec fn owns(self, identity: u64, id: u64) -> bool {
        self.tweets.contains_key(id) && username_of(self.claims, identity) == Some(
            self.tweets[id].author_username,
        )
    }

    /// The stored post that `identity` may change or delete under `id`, or
    /// why not: a post that does not exist is not found, and one of another
    /// author is out of bounds.
    pub open spec fn editable(self, identity: u64, id: u64) -> Result<TweetView, Error> {
        if !self.tweets.contains_key(id) {
            Err(Error::NotFound)
        } else if !self.owns(identity, id) {
            Err(Error::Unauthorized)
        } else {
            Ok(self.tweets[id])
        }
    }

    /// What `identity` gets back from replacing the text of post `id` by
    /// `content`: the post with the new text and nothing else changed.
    pub open spec fn update_answer(self, identity: u64, id: u64, content: Seq<char>) -> Result<
        TweetView,
        Error,
    > {
        match self.editable(identity, id) {
            Ok(stored) => Ok(stored.with_content(content)),
            Err(e) => Err(e),
        }
    }

    /// The ledger after `identity` has tried to replace the text of post
    /// `id` by `content`.
    pub open spec fn after_update(self, identity: u64, id: u64, content: Seq<char>) -> LedgerView {
        match self.editable(identity, id) {
            Ok(stored) => LedgerView {
                tweets: self.tweets.insert(id, stored.with_content(content)),
                ..self
            },
            Err(_) => self,
        }
    }

    /// The ledger after `identity` has tried to delete post `id`. The
    /// answer to the attempt is `editable`: the post as it was stored.
    pub open spec fn after_delete(self, identity: u64, id: u64) -> LedgerView {
        match self.editable(identity, id) {
            Ok(_) => LedgerView { tweets: self.tweets.remove(id), ..self },
            Err(_) => self,
        }
    }

    /// Every claimed username in the order of the claims, or `Empty` while
    /// there is none.
    pub open spec fn list_usernames(self) -> Result<Seq<Seq<char>>, Error> {
        if self.claims.len() == 0 {
            Err(Error::Empty)
        } else {
            Ok(usernames(self.claims))
        }
    }

    /// Whether `identity` may store `profile`: only a caller that holds the
    /// profile's username may.
    pub open spec fn may_set_profile(self, identity: u64, profile: ProfileView) -> bool {
        username_of(self.claims, identity) == Some(profile.username)
    }

    /// The ledger after `identity` has tried to store `profile`.
    pub open spec fn after_profile(self, identity: u64, profile: ProfileView) -> LedgerView {
        if self.may_set_profile(identity, profile) {
            LedgerView { profiles: self.profiles.insert(identity, profile), ..self }
        } else {
            self
        }
    }

    /// The profile of the caller that holds `username`, if the username is
    /// claimed and its holder has set a profile.
    pub open spec fn get_profile(self, username: Seq<char>) -> Option<ProfileView> {
        match owner_of(self.claims, username) {
            Some(identity) => if self.profiles.contains_key(identity) {
                Some(self.profiles[identity])
            } else {
                None
            },
            None => None,
        }
    }
}

/// A call that can change the ledger, with what it was given.
pub enum Call {
    /// The caller `identity` tries to claim `username`.
    ClaimUsername { identity: u64, username: Seq<char> },
    /// The caller `identity` tries to post `content` at time `now`;
    /// `granted` tells whether the counter issues an identifier.
    CreatePost { identity: u64, content: Seq<char>, now: u64, granted: bool },
    /// The caller `identity` tries to replace the text of post `id`.
    UpdatePost { identity: u64, id: u64, content: Seq<char> },
    /// The caller `identity` tries to delete post `id`.
    DeletePost { identity: u64, id: u64 },
    /// The caller `identity` tries to store `profile`.
    UpdateProfile { identity: u64, profile: ProfileView },
}

impl LedgerView {
    /// The identifier of the post that `call` creates, if it creates one:
    /// a post is created by a caller that is not refused, when the counter
    /// is not exhausted and issues an identifier.
    pub open spec fn creates(self, call: Call) -> Option<u64> {
        match call {
            Call::CreatePost { identity, content, now, granted } => if granted && self.upcoming
                < u64::MAX && self.create_refusal(identity, content) is None {
                Some(self.upcoming)
            } else {
                None
            },
            _ => None,
        }
    }

    /// The ledger after `call`.
    pub open spec fn after(self, call: Call) -> LedgerView {
        match call {
            Call::ClaimUsername { identity, username } => self.after_claim(identity, username),
            Call::CreatePost { identity, content, now, granted } => if self.creates(call) is Some {
                self.after_create(identity, content, now)
            } else {
                self
            },
            Call::UpdatePost { identity, id, content } => self.after_update(identity, id, content),
            Call::DeletePost { identity, id } => self.after_delete(identity, id),
            Call::UpdateProfile { identity, profile } => self.after_profile(identity, profile),
        }
    }

    /// The ledger after the calls of `calls`, one after the other.
    pub open spec fn after_all(self, calls: Seq<Call>) -> LedgerView
        decreases calls.len(),
    {
        if calls.len() == 0 {
            self
        } else {
            self.after_all(calls.drop_last()).after(calls.last())
        }
    }

    /// The ledger as the call at position `at` of `calls` finds it: after
    /// the calls before it.
    pub open spec fn before_call(self, calls: Seq<Call>, at: int) -> LedgerView {
        self.after_all(calls.take(at))
    }
}

} // verus!
