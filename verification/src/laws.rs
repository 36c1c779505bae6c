//! What holds of the ledger whatever calls it receives.

use crate::error::Error;
use crate::model::{Call, LedgerView};
use crate::records::{ProfileView, TweetView};
use crate::registry::{
    bijective, claim_verdict, claims_after, name_taken, username_of, ClaimView,
};
use vstd::prelude::*;

verus! {

/// A claim that succeeds adds one claim at the end and keeps all earlier
/// ones in place; one that fails changes nothing. Bijective claims stay
/// bijective either way.
pub proof fn claim_keeps_bijection(claims: Seq<ClaimView>, identity: u64, username: Seq<char>)
    requires
        bijective(claims),
    ensures
        bijective(claims_after(claims, identity, username)),
        claims_after(claims, identity, username).len() >= claims.len(),
        forall|i: int|
            0 <= i < claims.len() ==> claims_after(claims, identity, username)[i] == claims[i],
{
}

/// What a caller holds, the caller keeps: after any claim attempt by
/// anyone, a caller that held a username holds the same one, and a
/// username that was taken is taken.
pub proof fn claims_are_permanent(
    claims: Seq<ClaimView>,
    identity: u64,
    username: Seq<char>,
    who: u64,
    name: Seq<char>,
)
    requires
        bijective(claims),
    ensures
        username_of(claims, who) is Some ==> username_of(
            claims_after(claims, identity, username),
            who,
        ) == username_of(claims, who),
        name_taken(claims, name) ==> name_taken(claims_after(claims, identity, username), name),
{
    let after = claims_after(claims, identity, username);
    claim_keeps_bijection(claims, identity, username);
    if username_of(claims, who) is Some {
        let i = choose|i: int| 0 <= i < claims.len() && (#[trigger] claims[i]).identity == who;
        assert(after[i].identity == who);
        let j = choose|j: int| 0 <= j < after.len() && (#[trigger] after[j]).identity == who;
        assert(i == j);
    }
    if name_taken(claims, name) {
        let i = choose|i: int| 0 <= i < claims.len() && (#[trigger] claims[i]).username == name;
        assert(after[i].username == name);
    }
}

/// A username that a caller holds is a taken username.
pub proof fn held_name_is_taken(claims: Seq<ClaimView>, who: u64)
    requires
        username_of(claims, who) is Some,
    ensures
        name_taken(claims, username_of(claims, who).unwrap()),
{
    let i = choose|i: int| 0 <= i < claims.len() && (#[trigger] claims[i]).identity == who;
    assert(claims[i].username == username_of(claims, who).unwrap());
}

/// A claim attempt leaves a valid ledger valid.
pub proof fn claim_keeps_validity(before: LedgerView, identity: u64, username: Seq<char>)
    requires
        before.valid(),
    ensures
        before.after_claim(identity, username).valid(),
{
    let after = before.after_claim(identity, username);
    claim_keeps_bijection(before.claims, identity, username);
    assert forall|id: u64| #[trigger] after.tweets.contains_key(id) implies name_taken(
        after.claims,
        after.tweets[id].author_username,
    ) by {
        claims_are_permanent(before.claims, identity, username, 0, before.tweets[id].author_username);
    }
    assert forall|who: u64| #[trigger] after.profiles.contains_key(who) implies username_of(
        after.claims,
        who,
    ) == Some(after.profiles[who].username) by {
        claims_are_permanent(before.claims, identity, username, who, Seq::empty());
    }
}

/// Creating a post leaves a valid ledger valid, unless the counter is
/// exhausted.
pub proof fn create_keeps_validity(before: LedgerView, identity: u64, content: Seq<char>, now: u64)
    requires
        before.valid(),
        before.create_refusal(identity, content) is None,
        before.upcoming < u64::MAX,
    ensures
        before.after_create(identity, content, now).valid(),
{
    held_name_is_taken(before.claims, identity);
}

/// Replacing the text of a post leaves a valid ledger valid.
pub proof fn update_keeps_validity(before: LedgerView, identity: u64, id: u64, content: Seq<char>)
    requires
        before.valid(),
    ensures
        before.after_update(identity, id, content).valid(),
{
}

/// Deleting a post leaves a valid ledger valid.
pub proof fn delete_keeps_validity(before: LedgerView, identity: u64, id: u64)
    requires
        before.valid(),
    ensures
        before.after_delete(identity, id).valid(),
{
}

/// Storing a profile leaves a valid ledger valid.
pub proof fn profile_keeps_validity(before: LedgerView, identity: u64, profile: ProfileView)
    requires
        before.valid(),
    ensures
        before.after_profile(identity, profile).valid(),
{
}

/// Any call leaves a valid ledger valid.
pub proof fn validity_is_kept(before: LedgerView, call: Call)
    requires
        before.valid(),
    ensures
        before.after(call).valid(),
{
    match call {
        Call::ClaimUsername { identity, username } => {
            claim_keeps_validity(before, identity, username);
        },
        Call::CreatePost { identity, content, now, granted } => {
            if before.creates(call) is Some {
                create_keeps_validity(before, identity, content, now);
            }
        },
        Call::UpdatePost { identity, id, content } => {
            update_keeps_validity(before, identity, id, content);
        },
        Call::DeletePost { identity, id } => {
            delete_keeps_validity(before, identity, id);
        },
        Call::UpdateProfile { identity, profile } => {
            profile_keeps_validity(before, identity, profile);
        },
    }
}

/// Each call finds the ledger as the call before it left it.
pub proof fn calls_follow_each_other(start: LedgerView, calls: Seq<Call>, at: int)
    requires
        0 <= at < calls.len(),
    ensures
        start.before_call(calls, at + 1) == start.before_call(calls, at).after(calls[at]),
        start.before_call(calls, 0) == start,
        start.before_call(calls, calls.len() as int) == start.after_all(calls),
{
    assert(calls.take(at + 1).drop_last() =~= calls.take(at));
    assert(calls.take(at + 1).last() == calls[at]);
    assert(calls.take(calls.len() as int) =~= calls);
}

/// A ledger that starts out valid is valid after any calls: at every
/// moment the claims are bijective, every stored post lies under its own
/// identifier, which has been issued, and every profile belongs to a caller
/// that holds a username.
pub proof fn validity_is_kept_throughout(start: LedgerView, calls: Seq<Call>)
    requires
        start.valid(),
    ensures
        start.after_all(calls).valid(),
    decreases calls.len(),
{
    if calls.len() > 0 {
        validity_is_kept_throughout(start, calls.drop_last());
        validity_is_kept(start.after_all(calls.drop_last()), calls.last());
    }
}

/// No call lowers the counter of post identifiers, and none removes or
/// moves a claim.
pub proof fn nothing_is_taken_back(before: LedgerView, call: Call)
    ensures
        before.after(call).upcoming >= before.upcoming,
        before.after(call).claims.len() >= before.claims.len(),
        forall|i: int|
            0 <= i < before.claims.len() ==> before.after(call).claims[i] == before.claims[i],
{
}

/// Between two moments of a run of calls, the counter of post identifiers
/// does not fall and the claims made by the earlier moment stay in place.
pub proof fn history_only_grows(start: LedgerView, calls: Seq<Call>, earlier: int, later: int)
    requires
        0 <= earlier <= later <= calls.len(),
    ensures
        start.before_call(calls, later).upcoming >= start.before_call(calls, earlier).upcoming,
        start.before_call(calls, later).claims.len() >= start.before_call(
            calls,
            earlier,
        ).claims.len(),
        forall|i: int|
            0 <= i < start.before_call(calls, earlier).claims.len() ==> start.before_call(
                calls,
                later,
            ).claims[i] == start.before_call(calls, earlier).claims[i],
    decreases later - earlier,
{
    if earlier < later {
        history_only_grows(start, calls, earlier, later - 1);
        calls_follow_each_other(start, calls, later - 1);
        nothing_is_taken_back(start.before_call(calls, later - 1), calls[later - 1]);
    }
}

/// In any run of calls, no two identities successfully claim the same
/// username, and no identity successfully claims twice: of two claims that
/// both succeed, the callers differ and the usernames differ.
pub proof fn claims_never_collide(start: LedgerView, calls: Seq<Call>, first: int, second: int)
    requires
        0 <= first < second < calls.len(),
        calls[first] is ClaimUsername,
        calls[second] is ClaimUsername,
        claim_verdict(
            start.before_call(calls, first).claims,
            calls[first]->ClaimUsername_identity,
            calls[first]->ClaimUsername_username,
        ) is Ok,
        claim_verdict(
            start.before_call(calls, second).claims,
            calls[second]->ClaimUsername_identity,
            calls[second]->ClaimUsername_username,
        ) is Ok,
    ensures
        calls[first]->ClaimUsername_identity != calls[second]->ClaimUsername_identity,
        calls[first]->ClaimUsername_username != calls[second]->ClaimUsername_username,
{
    let found = start.before_call(calls, first);
    let left = start.before_call(calls, first + 1);
    let met = start.before_call(calls, second);
    calls_follow_each_other(start, calls, first);
    history_only_grows(start, calls, first + 1, second);
    let at = found.claims.len() as int;
    assert(left.claims[at].identity == calls[first]->ClaimUsername_identity);
    assert(left.claims[at].username == calls[first]->ClaimUsername_username);
    assert(met.claims[at] == left.claims[at]);
}

/// A post that is created gets an identifier that was never issued before,
/// and the counter moves past it.
pub proof fn created_id_is_fresh(before: LedgerView, call: Call)
    requires
        before.creates(call) is Some,
    ensures
        !before.issued(before.creates(call).unwrap()),
        before.after(call).issued(before.creates(call).unwrap()),
        forall|id: u64| before.issued(id) ==> id < before.creates(call).unwrap(),
{
}

/// In any run of calls, each post that is created gets an identifier
/// strictly greater than that of every post created before it, whether
/// that post still exists or was deleted: no identifier is used twice.
pub proof fn created_ids_increase(start: LedgerView, calls: Seq<Call>, first: int, second: int)
    requires
        0 <= first < second < calls.len(),
        start.before_call(calls, first).creates(calls[first]) is Some,
        start.before_call(calls, second).creates(calls[second]) is Some,
    ensures
        start.before_call(calls, first).creates(calls[first]).unwrap() < start.before_call(
            calls,
            second,
        ).creates(calls[second]).unwrap(),
{
    calls_follow_each_other(start, calls, first);
    history_only_grows(start, calls, first + 1, second);
}

/// A post that was just created is what a lookup of its identifier gives.
pub proof fn created_post_is_found(before: LedgerView, identity: u64, content: Seq<char>, now: u64)
    ensures
        before.after_create(identity, content, now).get_tweet(before.upcoming) == Ok::<
            TweetView,
            Error,
        >(before.created_tweet(identity, content, now)),
        before.created_tweet(identity, content, now).id == before.upcoming,
{
}

/// A caller that does not hold the author's username cannot change or
/// delete a post that exists: both attempts are answered `Unauthorized`
/// and leave the ledger exactly as it was.
pub proof fn stranger_changes_nothing(before: LedgerView, identity: u64, id: u64, content: Seq<char>)
    requires
        before.tweets.contains_key(id),
        !before.owns(identity, id),
    ensures
        before.update_answer(identity, id, content) == Err::<TweetView, Error>(Error::Unauthorized),
        before.after_update(identity, id, content) == before,
        before.editable(identity, id) == Err::<TweetView, Error>(Error::Unauthorized),
        before.after_delete(identity, id) == before,
{
}

/// An attempt that is refused, whatever the reason, leaves the ledger
/// exactly as it was.
pub proof fn refusal_changes_nothing(before: LedgerView, call: Call)
    ensures
        match call {
            Call::ClaimUsername { identity, username } => claim_verdict(
                before.claims,
                identity,
                username,
            ) is Err ==> before.after(call) == before,
            Call::CreatePost { identity, content, now, granted } => before.creates(call) is None
                ==> before.after(call) == before,
            Call::UpdatePost { identity, id, content } => before.editable(identity, id) is Err
                ==> before.after(call) == before,
            Call::DeletePost { identity, id } => before.editable(identity, id) is Err
                ==> before.after(call) == before,
            Call::UpdateProfile { identity, profile } => !before.may_set_profile(identity, profile)
                ==> before.after(call) == before,
        },
{
}

/// A post that its author deleted is not found afterwards.
pub proof fn deleted_post_is_gone(before: LedgerView, identity: u64, id: u64)
    requires
        before.editable(identity, id) is Ok,
    ensures
        before.after_delete(identity, id).get_tweet(id) == Err::<TweetView, Error>(Error::NotFound),
{
}

/// The identifier of a deleted post is never given to another post: it
/// counts as issued after the deletion and after any calls that follow, so
/// every post created later gets a greater one.
pub proof fn deleted_id_is_not_reused(
    before: LedgerView,
    identity: u64,
    id: u64,
    calls: Seq<Call>,
    call: Call,
)
    requires
        before.valid(),
        before.editable(identity, id) is Ok,
        before.after_delete(identity, id).after_all(calls).creates(call) is Some,
    ensures
        before.after_delete(identity, id).after_all(calls).creates(call).unwrap() > id,
{
    let gone = before.after_delete(identity, id);
    history_only_grows(gone, calls, 0, calls.len() as int);
    assert(calls.take(0) =~= Seq::<Call>::empty());
    assert(calls.take(calls.len() as int) =~= calls);
}

/// Updating a post changes its text and nothing else: identifier, author,
/// time of creation, counters and comments stay as they were, and so does
/// every other post.
pub proof fn update_touches_only_the_text(
    before: LedgerView,
    identity: u64,
    id: u64,
    content: Seq<char>,
)
    requires
        before.editable(identity, id) is Ok,
    ensures
        before.after_update(identity, id, content).tweets[id] == (TweetView {
            content,
            ..before.tweets[id]
        }),
        before.after_update(identity, id, content).tweets.dom() == before.tweets.dom(),
        forall|other: u64|
            other != id && before.tweets.contains_key(other) ==> before.after_update(
                identity,
                id,
                content,
            ).tweets[other] == before.tweets[other],
{
    assert(before.after_update(identity, id, content).tweets.dom() =~= before.tweets.dom());
}

/// A profile can be looked up only under a claimed username, and what is
/// found names that username.
pub proof fn profile_names_its_owner(ledger: LedgerView, username: Seq<char>)
    requires
        ledger.valid(),
        ledger.get_profile(username) is Some,
    ensures
        name_taken(ledger.claims, username),
        ledger.get_profile(username).unwrap().username == username,
{
    let i = choose|i: int|
        0 <= i < ledger.claims.len() && (#[trigger] ledger.claims[i]).username == username;
    let who = ledger.claims[i].identity;
    let j = choose|j: int| 0 <= j < ledger.claims.len() && (#[trigger] ledger.claims[j]).identity == who;
    assert(i == j);
}

} // verus!
