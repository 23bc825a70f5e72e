//! Rows of the `users`, `posts` and `favorites` tables, and request bodies.
//!
//! Timestamps are microseconds since the Unix epoch; post identifiers are
//! UUIDs held as their 128-bit value.
use vstd::prelude::*;

verus! {

/// A row of the `users` table.
#[derive(Debug, Clone, PartialEq, Eq)]
pub struct User {
    pub id: String,
    pub name: String,
    pub email: String,
    pub description: Option<String>,
    pub created_at: i64,
    pub updated_at: i64,
}

/// Query parameters of the post listing: page length and page index.
#[derive(Debug, PartialEq, Eq)]
pub struct GetPostList {
    pub length: Option<i32>,
    pub pages: Option<i32>,
}

/// Query parameter naming the post a new post replies to.
#[derive(Debug, PartialEq, Eq)]
pub struct ReplyTo {
    pub reply_to: Option<u128>,
}

/// A row of the `posts` table. `user_id` is the author; `reply_at` is the
/// post this one replies to, if any.
#[derive(Debug, Clone, PartialEq, Eq)]
pub struct Post {
    pub id: u128,
    pub user_id: String,
    pub content_md: String,
    pub content_html: String,
    pub reply_at: Option<u128>,
    pub created_at: i64,
    pub updated_at: i64,
}

/// A post together with its author, the users who favorited it and the
/// number of replies it received.
#[derive(Debug, Clone, PartialEq, Eq)]
pub struct PostInfo {
    pub base_post: Post,
    pub author: User,
    pub favorited_by: Vec<User>,
    pub favorite_count: i64,
    pub replied_count: i64,
}

/// The mathematical value of a [`PostInfo`]: its list of users as a sequence.
pub struct PostInfoView {
    pub base_post: Post,
    pub author: User,
    pub favorited_by: Seq<User>,
    pub favorite_count: i64,
    pub replied_count: i64,
}

impl View for PostInfo {
    type V = PostInfoView;

    open spec fn view(&self) -> PostInfoView {
        PostInfoView {
            base_post: self.base_post,
            author: self.author,
            favorited_by: self.favorited_by@,
            favorite_count: self.favorite_count,
            replied_count: self.replied_count,
        }
    }
}

/// Body of a request that creates a post.
#[derive(Debug, PartialEq, Eq)]
pub struct PostPost {
    pub content_md: String,
    pub content_html: String,
}

/// The columns written when a top-level post is inserted.
pub struct NewPost<'a> {
    pub author_id: &'a String,
    pub content_md: &'a String,
    pub content_html: &'a String,
}

/// The columns written when a reply is inserted.
pub struct NewReply<'a> {
    pub author_id: &'a String,
    pub content_md: &'a String,
    pub content_html: &'a String,
    pub reply_at: &'a u128,
}

/// The columns written when a user is registered.
pub struct NewUser<'a> {
    pub id: &'a String,
    pub name: &'a String,
    pub email: &'a String,
}

/// The columns written when a favorite is recorded.
pub struct NewFavorite<'a> {
    pub user_id: &'a String,
    pub post_id: &'a u128,
}

/// A row of the `favorites` table: `user_id` favorited `post_id`.
#[derive(Debug, Clone, PartialEq, Eq)]
pub struct Favorite {
    pub user_id: String,
    pub post_id: u128,
    pub created_at: i64,
}

} // verus!
