//! The registry of usernames: each caller holds at most one username, and
//! each username belongs to at most one caller, for good.

use crate::error::Error;
use vstd::prelude::*;

verus! {

/// One claim: `username` belongs to the caller `identity`.
pub struct Claim {
    identity: u64,
    username: String,
}

/// A claim as plain values.
pub struct ClaimView {
    pub identity: u64,
    pub username: Seq<char>,
}

impl View for Claim {
    type V = ClaimView;

    closed spec fn view(&self) -> ClaimView {
        ClaimView { identity: self.identity, username: self.username@ }
    }
}

/// Whether some caller holds `username`.
pub open spec fn name_taken(claims: Seq<ClaimView>, username: Seq<char>) -> bool {
    exists|i: int| 0 <= i < claims.len() && (#[trigger] claims[i]).username == username
}

/// Whether the caller `identity` holds a username.
pub open spec fn identity_bound(claims: Seq<ClaimView>, identity: u64) -> bool {
    exists|i: int| 0 <= i < claims.len() && (#[trigger] claims[i]).identity == identity
}

/// The username that the caller `identity` holds, if any.
pub open spec fn username_of(claims: Seq<ClaimView>, identity: u64) -> Option<Seq<char>> {
    if identity_bound(claims, identity) {
        let i = choose|i: int| 0 <= i < claims.len() && (#[trigger] claims[i]).identity == identity;
        Some(claims[i].username)
    } else {
        None
    }
}

/// The caller that holds `username`, if any.
pub open spec fn owner_of(claims: Seq<ClaimView>, username: Seq<char>) -> Option<u64> {
    if name_taken(claims, username) {
        let i = choose|i: int| 0 <= i < claims.len() && (#[trigger] claims[i]).username == username;
        Some(claims[i].identity)
    } else {
        None
    }
}

/// The usernames of `claims`, in the order in which they were claimed.
pub open spec fn usernames(claims: Seq<ClaimView>) -> Seq<Seq<char>> {
    claims.map_values(|c: ClaimView| c.username)
}

/// No caller occurs twice, no username occurs twice, and no username is
/// empty.
pub open spec fn bijective(claims: Seq<ClaimView>) -> bool {
    &&& forall|i: int, j: int|
        0 <= i < j < claims.len() ==> (#[trigger] claims[i]).identity != (#[trigger] claims[j]).identity
    &&& forall|i: int, j: int|
        0 <= i < j < claims.len() ==> (#[trigger] claims[i]).username != (#[trigger] claims[j]).username
    &&& forall|i: int| 0 <= i < claims.len() ==> (#[trigger] claims[i]).username.len() > 0
}

/// What the attempt of `identity` to claim `username` answers: the first
/// of these that applies. An empty username is invalid; a username that is
/// taken is already claimed; a caller that holds a username is already
/// registered.
pub open spec fn claim_verdict(claims: Seq<ClaimView>, identity: u64, username: Seq<char>) -> Result<
    (),
    Error,
> {
    if username.len() == 0 {
        Err(Error::InvalidInput)
    } else if name_taken(claims, username) {
        Err(Error::AlreadyClaimed)
    } else if identity_bound(claims, identity) {
        Err(Error::AlreadyRegistered)
    } else {
        Ok(())
    }
}

/// The claims after `identity` has tried to claim `username`: one more at
/// the end if the attempt succeeds, the same otherwise.
pub open spec fn claims_after(claims: Seq<ClaimView>, identity: u64, username: Seq<char>) -> Seq<
    ClaimView,
> {
    if claim_verdict(claims, identity, username) is Ok {
        claims.push(ClaimView { identity, username })
    } else {
        claims
    }
}

/// The views of a run of texts, in the same order.
pub open spec fn text_views(texts: Seq<String>) -> Seq<Seq<char>> {
    texts.map_values(|t: String| t@)
}

/// The claims made so far, in the order in which they were made.
pub struct UsernameRegistry {
    claims: Vec<Claim>,
}

impl View for UsernameRegistry {
    type V = Seq<ClaimView>;

    closed spec fn view(&self) -> Seq<ClaimView> {
        self.claims@.map_values(|c: Claim| c@)
    }
}

impl UsernameRegistry {
    /// The invariant of a registry: its claims are bijective.
    pub open spec fn well_formed(&self) -> bool {
        bijective(self@)
    }

    /// A registry without claims.
    pub fn new() -> (registry: Self)
        ensures
            registry@ == Seq::<ClaimView>::empty(),
            registry.well_formed(),
    {
        let registry = UsernameRegistry { claims: Vec::new() };
        assert(registry@ =~= Seq::<ClaimView>::empty());
        registry
    }

    /// The number of claims.
    pub fn len(&self) -> (count: usize)
        ensures
            count == self@.len(),
    {
        self.claims.len()
    }

    /// The username that the caller `identity` holds, if any.
    pub fn resolve(&self, identity: u64) -> (found: Option<&String>)
        requires
            self.well_formed(),
        ensures
            match found {
                Some(name) => username_of(self@, identity) == Some(name@),
                None => username_of(self@, identity) is None,
            },
    {
        let mut i: usize = 0;
        while i < self.claims.len()
            invariant
                i <= self.claims.len(),
                self.well_formed(),
                forall|j: int| 0 <= j < i ==> (#[trigger] self@[j]).identity != identity,
            decreases self.claims.len() - i,
        {
            if self.claims[i].identity == identity {
                assert(self@[i as int].identity == identity);
                return Some(&self.claims[i].username);
            }
            i = i + 1;
        }
        None
    }

    /// The caller that holds `username`, if any.
    pub fn owner(&self, username: &String) -> (found: Option<u64>)
        requires
            self.well_formed(),
        ensures
            found == owner_of(self@, username@),
    {
        let mut i: usize = 0;
        while i < self.claims.len()
            invariant
                i <= self.claims.len(),
                self.well_formed(),
                forall|j: int| 0 <= j < i ==> (#[trigger] self@[j]).username != username@,
            decreases self.claims.len() - i,
        {
            if self.claims[i].username == *username {
                assert(self@[i as int].username == username@);
                return Some(self.claims[i].identity);
            }
            i = i + 1;
        }
        None
    }

    /// Binds `username` to the caller `identity`, unless the username is
    /// empty or taken or the caller already holds one.
    pub fn claim(&mut self, identity: u64, username: String) -> (verdict: Result<(), Error>)
        requires
            old(self).well_formed(),
        ensures
            final(self).well_formed(),
            verdict == claim_verdict(old(self)@, identity, username@),
            final(self)@ == claims_after(old(self)@, identity, username@),
    {
        if username.as_str().is_empty() {
            return Err(Error::InvalidInput);
        }
        if self.owner(&username).is_some() {
            return Err(Error::AlreadyClaimed);
        }
        if self.resolve(identity).is_some() {
            return Err(Error::AlreadyRegistered);
        }
        self.claims.push(Claim { identity, username });
        assert(self@ =~= old(self)@.push(ClaimView { identity, username: username@ }));
        Ok(())
    }

    /// Every claimed username, in the order in which they were claimed;
    /// `Empty` while there is none. A registry without users is reported
    /// as a condition of its own rather than as an empty listing, so that
    /// a caller cannot take "nobody yet" for a result. Who prefers the
    /// empty listing maps `Empty` to it.
    pub fn list_all_usernames(&self) -> (listing: Result<Vec<String>, Error>)
        ensures
            match listing {
                Ok(names) => self@.len() > 0 && text_views(names@) == usernames(self@),
                Err(e) => self@.len() == 0 && e == Error::Empty,
            },
    {
        if self.claims.len() == 0 {
            return Err(Error::Empty);
        }
        let mut names: Vec<String> = Vec::new();
        let mut i: usize = 0;
        while i < self.claims.len()
            invariant
                i <= self.claims.len(),
                names.len() == i,
                forall|j: int| 0 <= j < i ==> (#[trigger] names@[j])@ == self@[j].username,
            decreases self.claims.len() - i,
        {
            names.push(self.claims[i].username.clone());
            i = i + 1;
        }
        assert(text_views(names@) =~= usernames(self@));
        Ok(names)
    }
}

} // verus!
