//! The comment core: comments on posts, linked to their parents.
//!
//! The core issues the id and the instant of a comment itself, before the
//! one insert, so that the caller knows the id whatever the store does. The
//! comments of a post come back as a flat list in the order of insertion;
//! the thread is rebuilt from the `parent_id` links by whoever needs it.
//! Neither the post, the author nor the parent is looked up, and no
//! operation checks who is asking.

use crate::clock::now_micros;
use crate::error::{ServiceError, StoreError};
use crate::gateway::{comments_reply_view, count_reply_view, StoreState};
use crate::ident::{is_random_uuid, random_uuid};
use crate::memory::MemoryStore;
use crate::model::{comment_views, Comment, CommentView, NewComment, NewCommentView};
use vstd::prelude::*;

verus! {

/// The row of a new comment under `post_id`, given its id and instant.
pub open spec fn new_comment_spec(post_id: u128, body: NewCommentView, id: u128, now: i64) -> CommentView {
    CommentView {
        id: id,
        post_id: post_id,
        user_id: body.user_id,
        content: body.content,
        timestamp: now,
        parent_id: body.parent_id,
    }
}

/// What the core answers to the gateway's answer to `InsertComment`: the id
/// where a row went in, `PersistenceError` in every other case.
pub open spec fn created_comment_spec(id: u128, reply: Result<nat, StoreError>) -> Result<
    u128,
    ServiceError,
> {
    match reply {
        Ok(n) => if n == 0 {
            Err(ServiceError::PersistenceError)
        } else {
            Ok(id)
        },
        Err(_) => Err(ServiceError::PersistenceError),
    }
}

/// What the core answers to the gateway's list of comments.
pub open spec fn listed_comments_spec(reply: Result<Seq<CommentView>, StoreError>) -> Result<
    Seq<CommentView>,
    ServiceError,
> {
    match reply {
        Ok(rows) => Ok(rows),
        Err(_) => Err(ServiceError::PersistenceError),
    }
}

/// What the core answers to a count of edited comments: the id where a row
/// was affected, `NotFound` where none was.
pub open spec fn changed_comment_spec(id: u128, reply: Result<nat, StoreError>) -> Result<
    u128,
    ServiceError,
> {
    match reply {
        Ok(n) => if n == 0 {
            Err(ServiceError::NotFound)
        } else {
            Ok(id)
        },
        Err(_) => Err(ServiceError::PersistenceError),
    }
}

/// What the core answers to a count of deleted comments: success where a
/// row was removed, `NotFound` where none was.
pub open spec fn deleted_comment_spec(reply: Result<nat, StoreError>) -> Result<(), ServiceError> {
    match reply {
        Ok(n) => if n == 0 {
            Err(ServiceError::NotFound)
        } else {
            Ok(())
        },
        Err(_) => Err(ServiceError::PersistenceError),
    }
}

/// `CreateComment`, given the id and the instant.
pub open spec fn create_comment_spec(
    s: StoreState,
    post_id: u128,
    body: NewCommentView,
    id: u128,
    now: i64,
) -> (StoreState, Result<u128, ServiceError>) {
    let row = new_comment_spec(post_id, body, id, now);
    (s.insert_comment(row).0, created_comment_spec(id, s.insert_comment(row).1))
}

/// `GetCommentsByPost`.
pub open spec fn get_comments_spec(s: StoreState, post_id: u128) -> Result<
    Seq<CommentView>,
    ServiceError,
> {
    listed_comments_spec(s.select_comments_by_post_id(post_id))
}

/// `UpdateComment`.
pub open spec fn update_comment_spec(s: StoreState, id: u128, content: Seq<char>) -> (
    StoreState,
    Result<u128, ServiceError>,
) {
    (
        s.update_comment_content(id, content).0,
        changed_comment_spec(id, s.update_comment_content(id, content).1),
    )
}

/// `DeleteComment`.
pub open spec fn delete_comment_spec(s: StoreState, id: u128) -> (
    StoreState,
    Result<(), ServiceError>,
) {
    (s.delete_comment_by_id(id).0, deleted_comment_spec(s.delete_comment_by_id(id).1))
}

/// The value of a result that carries a list of comments.
pub open spec fn comments_result_view(r: Result<Vec<Comment>, ServiceError>) -> Result<
    Seq<CommentView>,
    ServiceError,
> {
    match r {
        Ok(rows) => Ok(comment_views(rows@)),
        Err(e) => Err(e),
    }
}

/// Builds the row of a new comment under `post_id` with the given id and
/// instant.
pub fn new_comment_with(post_id: u128, body: &NewComment, id: u128, now: i64) -> (row: Comment)
    ensures
        row@ == new_comment_spec(post_id, body@, id, now),
{
    Comment {
        id,
        post_id,
        user_id: body.user_id,
        content: body.content.clone(),
        timestamp: now,
        parent_id: body.parent_id,
    }
}

/// Builds the row of a new comment under `post_id`, with a random UUID for
/// its id and the present instant for its timestamp.
pub fn new_comment(post_id: u128, body: &NewComment) -> (row: Comment)
    ensures
        is_random_uuid(row.id),
        row@ == new_comment_spec(post_id, body@, row.id, row.timestamp),
{
    let id = random_uuid();
    let now = now_micros();
    new_comment_with(post_id, body, id, now)
}

/// Makes the answer of `CreateComment` from the gateway's answer.
pub fn created_comment(id: u128, reply: Result<u64, StoreError>) -> (r: Result<u128, ServiceError>)
    ensures
        r == created_comment_spec(id, count_reply_view(reply)),
{
    match reply {
        Ok(n) => if n == 0 {
            Err(ServiceError::PersistenceError)
        } else {
            Ok(id)
        },
        Err(_) => Err(ServiceError::PersistenceError),
    }
}

/// Makes the answer of `GetCommentsByPost` from the gateway's answer.
pub fn listed_comments(reply: Result<Vec<Comment>, StoreError>) -> (r: Result<
    Vec<Comment>,
    ServiceError,
>)
    ensures
        comments_result_view(r) == listed_comments_spec(comments_reply_view(reply)),
{
    match reply {
        Ok(rows) => Ok(rows),
        Err(_) => Err(ServiceError::PersistenceError),
    }
}

/// Makes the answer of `UpdateComment` from the count of affected rows.
pub fn changed_comment(id: u128, reply: Result<u64, StoreError>) -> (r: Result<u128, ServiceError>)
    ensures
        r == changed_comment_spec(id, count_reply_view(reply)),
{
    match reply {
        Ok(n) => if n == 0 {
            Err(ServiceError::NotFound)
        } else {
            Ok(id)
        },
        Err(_) => Err(ServiceError::PersistenceError),
    }
}

/// Makes the answer of `DeleteComment` from the count of affected rows.
pub fn deleted_comment(reply: Result<u64, StoreError>) -> (r: Result<(), ServiceError>)
    ensures
        r == deleted_comment_spec(count_reply_view(reply)),
{
    match reply {
        Ok(n) => if n == 0 {
            Err(ServiceError::NotFound)
        } else {
            Ok(())
        },
        Err(_) => Err(ServiceError::PersistenceError),
    }
}

/// `CreateComment` with the given id and instant: a caller that repeats a
/// request under the id it was given adds no second comment.
///
/// The outcome is exactly [`create_comment_spec`]: the id where the row went
/// in, `PersistenceError` where the store fails or the id is taken.
pub fn create_comment_with(
    store: &mut MemoryStore,
    post_id: u128,
    body: &NewComment,
    id: u128,
    now: i64,
) -> (r: Result<u128, ServiceError>)
    requires
        old(store).wf(),
    ensures
        final(store).wf(),
        (final(store)@, r) == create_comment_spec(old(store)@, post_id, body@, id, now),
{
    let row = new_comment_with(post_id, body, id, now);
    created_comment(id, store.insert_comment(&row))
}

/// `CreateComment`: under a random UUID and at the present instant.
///
/// Whatever id and instant were taken, the outcome is
/// [`create_comment_spec`] under them; an id that comes back is the random
/// UUID that was drawn.
pub fn create_comment(store: &mut MemoryStore, post_id: u128, body: &NewComment) -> (r: Result<
    u128,
    ServiceError,
>)
    requires
        old(store).wf(),
    ensures
        final(store).wf(),
        exists|id: u128, now: i64|
            is_random_uuid(id) && (final(store)@, r) == #[trigger] create_comment_spec(
                old(store)@,
                post_id,
                body@,
                id,
                now,
            ),
        r matches Ok(id) ==> is_random_uuid(id),
{
    let row = new_comment(post_id, body);
    let reply = store.insert_comment(&row);
    let r = created_comment(row.id, reply);
    assert((store@, r) == create_comment_spec(old(store)@, post_id, body@, row.id, row.timestamp));
    r
}

/// `GetCommentsByPost`: the comments under the post in the order of their
/// insertion, `PersistenceError` where the store fails.
pub fn get_comments(store: &MemoryStore, post_id: u128) -> (r: Result<Vec<Comment>, ServiceError>)
    ensures
        comments_result_view(r) == get_comments_spec(store@, post_id),
{
    listed_comments(store.select_comments_by_post_id(post_id))
}

/// `UpdateComment`: replaces the content; nothing of the old content is
/// kept.
pub fn update_comment(store: &mut MemoryStore, id: u128, content: &str) -> (r: Result<
    u128,
    ServiceError,
>)
    requires
        old(store).wf(),
    ensures
        final(store).wf(),
        (final(store)@, r) == update_comment_spec(old(store)@, id, content@),
{
    changed_comment(id, store.update_comment_content(id, content))
}

/// `DeleteComment`: removes the comment and nothing else. A comment that
/// names it as its parent stays, with the link left dangling.
pub fn delete_comment(store: &mut MemoryStore, id: u128) -> (r: Result<(), ServiceError>)
    requires
        old(store).wf(),
    ensures
        final(store).wf(),
        (final(store)@, r) == delete_comment_spec(old(store)@, id),
{
    deleted_comment(store.delete_comment_by_id(id))
}

} // verus!
