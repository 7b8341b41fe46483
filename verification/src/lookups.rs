//! What a lookup finds after the store has changed.

use crate::error::StoreError;
use crate::gateway::{
    comment_on_post, first_row, stored_user, user_has_id, user_has_other_id, user_is_named,
    with_content, with_moderator_flag, with_password_hash, StoreState,
};
use crate::model::{CommentView, DbAddUserView, UserView};
use crate::rows::{
    lemma_filter_contains, lemma_filter_map, lemma_filter_none, lemma_filter_push,
};
use vstd::prelude::*;

verus! {

/// A user that was just inserted is found under the issued id, and under
/// its username.
pub proof fn lemma_inserted_user_is_found(s: StoreState, row: DbAddUserView)
    requires
        s.wf(),
        s.insert_user(row).1 is Ok,
    ensures
        ({
            let (t, r) = s.insert_user(row);
            let user = stored_user(r->Ok_0, row);
            &&& t.select_user_by_id(r->Ok_0) == Ok::<Option<UserView>, StoreError>(Some(user))
            &&& t.select_user_by_username(row.username) == Ok::<Option<UserView>, StoreError>(Some(user))
            &&& t.username_taken(row.username)
        }),
{
    let (t, r) = s.insert_user(row);
    let id = r->Ok_0;
    let user = stored_user(id, row);
    lemma_filter_none(s.users, user_has_id(id));
    lemma_filter_push(s.users, user, user_has_id(id));
    assert(s.users.filter(user_has_id(id)) =~= Seq::empty());
    lemma_filter_push(s.users, user, user_is_named(row.username));
    assert(s.users.filter(user_is_named(row.username)) =~= Seq::empty());
}

/// After the moderator flag was set under `id`, a lookup finds the row it
/// found before, with the flag set where the row has that id.
pub proof fn lemma_flagged_user_is_found(s: StoreState, id: i32, flag: bool, looked_up: i32)
    requires
        s.online,
    ensures
        s.update_user_moderator_flag(id, flag).0.select_user_by_id(looked_up) == Ok::<Option<UserView>, StoreError>(
            match first_row(s.users.filter(user_has_id(looked_up))) {
                Some(u) => Some(with_moderator_flag(id, flag)(u)),
                None => None,
            },
        ),
{
    lemma_filter_map(s.users, user_has_id(looked_up), with_moderator_flag(id, flag));
}

/// After the credential was replaced under `id`, a lookup finds the row it
/// found before, with the new credential where the row has that id.
pub proof fn lemma_rehashed_user_is_found(
    s: StoreState,
    id: i32,
    hash: Seq<char>,
    looked_up: i32,
)
    requires
        s.online,
    ensures
        s.update_user_password_hash(id, hash).0.select_user_by_id(looked_up) == Ok::<Option<UserView>, StoreError>(
            match first_row(s.users.filter(user_has_id(looked_up))) {
                Some(u) => Some(with_password_hash(id, hash)(u)),
                None => None,
            },
        ),
{
    lemma_filter_map(s.users, user_has_id(looked_up), with_password_hash(id, hash));
}

/// The row found under an id has that id.
pub proof fn lemma_found_user_has_id(s: StoreState, id: i32)
    ensures
        first_row(s.users.filter(user_has_id(id))) matches Some(u) ==> u.id == id,
{
    let f = s.users.filter(user_has_id(id));
    if f.len() > 0 {
        assert(f.contains(f[0]));
        lemma_filter_contains(s.users, user_has_id(id), f[0]);
    }
}

/// A deleted user is no longer found.
pub proof fn lemma_deleted_user_is_gone(s: StoreState, id: i32)
    requires
        s.online,
    ensures
        s.delete_user_by_id(id).0.select_user_by_id(id) == Ok::<Option<UserView>, StoreError>(None),
{
    let kept = s.users.filter(user_has_other_id(id));
    assert forall|i: int| 0 <= i < kept.len() implies !user_has_id(id)(#[trigger] kept[i]) by {
        assert(kept.contains(kept[i]));
        lemma_filter_contains(s.users, user_has_other_id(id), kept[i]);
    }
    lemma_filter_none(kept, user_has_id(id));
    assert(kept.filter(user_has_id(id)) =~= Seq::empty());
}

/// A comment that was just inserted is the last of those under its post.
pub proof fn lemma_inserted_comment_is_listed(s: StoreState, row: CommentView)
    requires
        s.insert_comment(row).1 is Ok,
    ensures
        s.insert_comment(row).0.select_comments_by_post_id(row.post_id) == Ok::<Seq<CommentView>, StoreError>(s.comments.filter(comment_on_post(row.post_id)).push(row)),
{
    lemma_filter_push(s.comments, row, comment_on_post(row.post_id));
}

/// After the content was replaced under `id`, the comments under a post are
/// those that were there, with the new content where a comment has that id.
pub proof fn lemma_edited_comments_are_listed(
    s: StoreState,
    id: u128,
    content: Seq<char>,
    post_id: u128,
)
    requires
        s.online,
    ensures
        s.update_comment_content(id, content).0.select_comments_by_post_id(post_id) == Ok::<Seq<CommentView>, StoreError>(s.comments.filter(comment_on_post(post_id)).map_values(with_content(id, content))),
{
    lemma_filter_map(s.comments, comment_on_post(post_id), with_content(id, content));
}

} // verus!
