//! The records that the ledger stores, each with its mathematical view.

use vstd::prelude::*;

verus! {

/// A remark attached to a post.
#[derive(Debug, PartialEq, Eq)]
pub struct Comment {
    pub username: String,
    pub content: String,
    pub created_at: u64,
}

/// What a comment says, as plain values.
pub struct CommentView {
    pub username: Seq<char>,
    pub content: Seq<char>,
    pub created_at: u64,
}

impl View for Comment {
    type V = CommentView;

    open spec fn view(&self) -> CommentView {
        CommentView {
            username: self.username@,
            content: self.content@,
            created_at: self.created_at,
        }
    }
}

impl Clone for Comment {
    fn clone(&self) -> (copy: Self)
        ensures
            copy@ == self@,
    {
        Comment {
            username: self.username.clone(),
            content: self.content.clone(),
            created_at: self.created_at,
        }
    }
}

/// The views of a run of comments, in the same order.
pub open spec fn comment_views(comments: Seq<Comment>) -> Seq<CommentView> {
    comments.map_values(|c: Comment| c@)
}

/// A short text post.
#[derive(Debug, PartialEq, Eq)]
pub struct Tweet {
    pub id: u64,
    pub author_username: String,
    pub content: String,
    pub created_at: u64,
    pub likes: u64,
    pub retweets: u64,
    pub comments: Vec<Comment>,
}

/// What a post says, as plain values.
pub struct TweetView {
    pub id: u64,
    pub author_username: Seq<char>,
    pub content: Seq<char>,
    pub created_at: u64,
    pub likes: u64,
    pub retweets: u64,
    pub comments: Seq<CommentView>,
}

impl View for Tweet {
    type V = TweetView;

    open spec fn view(&self) -> TweetView {
        TweetView {
            id: self.id,
            author_username: self.author_username@,
            content: self.content@,
            created_at: self.created_at,
            likes: self.likes,
            retweets: self.retweets,
            comments: comment_views(self.comments@),
        }
    }
}

impl TweetView {
    /// The post as it is when `author` creates it at time `now` under `id`:
    /// no likes, no retweets, no comments.
    pub open spec fn fresh(id: u64, author: Seq<char>, content: Seq<char>, now: u64) -> TweetView {
        TweetView {
            id,
            author_username: author,
            content,
            created_at: now,
            likes: 0,
            retweets: 0,
            comments: Seq::empty(),
        }
    }

    /// The same post with `content` in place of its text.
    pub open spec fn with_content(self, content: Seq<char>) -> TweetView {
        TweetView { content, ..self }
    }
}

/// The views of the posts of a store, under the same identifiers.
pub open spec fn tweet_views(stored: Map<u64, Tweet>) -> Map<u64, TweetView> {
    stored.map_values(|t: Tweet| t@)
}

/// A copy of `comments`, comment by comment.
fn clone_comments(comments: &Vec<Comment>) -> (copy: Vec<Comment>)
    ensures
        comment_views(copy@) == comment_views(comments@),
{
    let mut copy: Vec<Comment> = Vec::new();
    let mut i: usize = 0;
    while i < comments.len()
        invariant
            i <= comments.len(),
            copy.len() == i,
            forall|j: int| 0 <= j < i ==> (#[trigger] copy@[j])@ == comments@[j]@,
        decreases comments.len() - i,
    {
        copy.push(comments[i].clone());
        i = i + 1;
    }
    assert(comment_views(copy@) =~= comment_views(comments@));
    copy
}

impl Clone for Tweet {
    fn clone(&self) -> (copy: Self)
        ensures
            copy@ == self@,
    {
        Tweet {
            id: self.id,
            author_username: self.author_username.clone(),
            content: self.content.clone(),
            created_at: self.created_at,
            likes: self.likes,
            retweets: self.retweets,
            comments: clone_comments(&self.comments),
        }
    }
}

/// What a caller tells about themselves.
#[derive(Debug, PartialEq, Eq)]
pub struct Profile {
    pub username: String,
    /// Kept exactly as given: whoever stores real credentials must hash
    /// them before they reach the ledger.
    pub password: String,
    pub profile_picture_url: Option<String>,
    pub bio: Option<String>,
}

/// What a profile says, as plain values.
pub struct ProfileView {
    pub username: Seq<char>,
    pub password: Seq<char>,
    pub profile_picture_url: Option<Seq<char>>,
    pub bio: Option<Seq<char>>,
}

/// The view of a text that may be absent.
pub open spec fn optional_text(text: Option<String>) -> Option<Seq<char>> {
    match text {
        Some(t) => Some(t@),
        None => None,
    }
}

impl View for Profile {
    type V = ProfileView;

    open spec fn view(&self) -> ProfileView {
        ProfileView {
            username: self.username@,
            password: self.password@,
            profile_picture_url: optional_text(self.profile_picture_url),
            bio: optional_text(self.bio),
        }
    }
}

/// The views of the profiles of a store, under the same callers.
pub open spec fn profile_views(stored: Map<u64, Profile>) -> Map<u64, ProfileView> {
    stored.map_values(|p: Profile| p@)
}

/// A copy of a text that may be absent.
fn clone_optional(text: &Option<String>) -> (copy: Option<String>)
    ensures
        optional_text(copy) == optional_text(*text),
{
    match text {
        Some(t) => Some(t.clone()),
        None => None,
    }
}

impl Clone for Profile {
    fn clone(&self) -> (copy: Self)
        ensures
            copy@ == self@,
    {
        Profile {
            username: self.username.clone(),
            password: self.password.clone(),
            profile_picture_url: clone_optional(&self.profile_picture_url),
            bio: clone_optional(&self.bio),
        }
    }
}

} // verus!
