//! The HTTP replies that the request handlers send for each outcome.
use vstd::prelude::*;
use crate::cruds::{CreatePostErr, FavoriteErr, GetPostErr};
use crate::models::PostInfo;

verus! {

broadcast use vstd::string::group_string_axioms;

/// An HTTP reply: a value sent as JSON with status 200, or a status and a
/// plain-text body.
#[derive(Debug, PartialEq, Eq)]
pub enum Reply<T> {
    Json(T),
    Text { status: u16, body: String },
}

/// Whether `reply` is the plain-text reply with this status and body.
pub open spec fn is_text<T>(reply: Reply<T>, status: u16, body: Seq<char>) -> bool {
    reply matches Reply::Text { status: s, body: b } && s == status && b@ == body
}

/// The reply to a request for the details of one post.
pub fn get_post_info_reply(outcome: Result<PostInfo, GetPostErr>) -> (reply: Reply<PostInfo>)
    ensures
        match outcome {
            Ok(info) => reply == Reply::Json(info),
            Err(GetPostErr::InvalidParam) => is_text(reply, 400, "post_id is invalid"@),
            Err(GetPostErr::NotFound) => is_text(reply, 404, "post not found"@),
            Err(GetPostErr::InternalServerError) => is_text(reply, 500, "internal server error"@),
        },
{
    match outcome {
        Ok(info) => Reply::Json(info),
        Err(GetPostErr::InvalidParam) => Reply::Text {
            status: 400,
            body: "post_id is invalid".to_string(),
        },
        Err(GetPostErr::NotFound) => Reply::Text { status: 404, body: "post not found".to_string() },
        Err(GetPostErr::InternalServerError) => Reply::Text {
            status: 500,
            body: "internal server error".to_string(),
        },
    }
}

/// The reply to a request that adds or removes a favorite.
pub fn favorite_reply(outcome: Result<PostInfo, FavoriteErr>) -> (reply: Reply<PostInfo>)
    ensures
        match outcome {
            Ok(info) => reply == Reply::Json(info),
            Err(FavoriteErr::InvalidParam) => is_text(reply, 400, "post_id is invalid"@),
            Err(FavoriteErr::NotFound) => is_text(reply, 404, "post_id is not found"@),
            Err(FavoriteErr::InternalServerError) => is_text(reply, 500, "internal server error"@),
        },
{
    match outcome {
        Ok(info) => Reply::Json(info),
        Err(FavoriteErr::InvalidParam) => Reply::Text {
            status: 400,
            body: "post_id is invalid".to_string(),
        },
        Err(FavoriteErr::NotFound) => Reply::Text {
            status: 404,
            body: "post_id is not found".to_string(),
        },
        Err(FavoriteErr::InternalServerError) => Reply::Text {
            status: 500,
            body: "internal server error".to_string(),
        },
    }
}

/// The reply to a request that creates a post: `None` when the request
/// names no author, otherwise the outcome of the creation.
pub fn post_md_reply(outcome: Option<Result<PostInfo, CreatePostErr>>) -> (reply: Reply<PostInfo>)
    ensures
        match outcome {
            None => is_text(reply, 401, "token is missed"@),
            Some(Ok(info)) => reply == Reply::Json(info),
            Some(Err(_)) => is_text(reply, 500, "internal server error"@),
        },
{
    match outcome {
        None => Reply::Text { status: 401, body: "token is missed".to_string() },
        Some(Ok(info)) => Reply::Json(info),
        Some(Err(_)) => Reply::Text { status: 500, body: "internal server error".to_string() },
    }
}

} // verus!
