//! What holds of the cores over any sequence of calls.
//!
//! Each law is stated of the operations' mathematical definitions, which
//! are what the executable operations are proved to compute. What holds of
//! a password right after it was set is stated where the credential is
//! made, by the contracts of `create_user` and `update_user_password`: it is
//! accepted, and any other is refused unless it derives to the same
//! credential under the same salt.

use crate::comments::{
    create_comment_spec, delete_comment_spec, get_comments_spec, new_comment_spec,
    update_comment_spec,
};
use crate::credential::derived_hash;
use crate::error::ServiceError;
use crate::gateway::{
    comment_has_id, comment_has_other_id, comment_on_post, stored_user, user_has_id,
    user_is_named, with_moderator_flag, StoreState,
};
use crate::identity::{
    create_user_spec, delete_user_spec, get_user_by_id_spec, new_user_row_spec,
    set_mod_status_spec, update_user_password_spec, username_exists_spec,
};
use crate::invariants::{lemma_comment_id_taken, lemma_one_user_per_id};
use crate::lookups::{
    lemma_deleted_user_is_gone, lemma_edited_comments_are_listed, lemma_flagged_user_is_found,
    lemma_found_user_has_id, lemma_inserted_comment_is_listed, lemma_inserted_user_is_found,
    lemma_rehashed_user_is_found,
};
use crate::model::{CommentView, NewCommentView, NewUserView, UserProfileView};
use crate::rows::{
    lemma_filter_commutes, lemma_filter_contains, lemma_filter_map, lemma_filter_push,
};
use vstd::prelude::*;

verus! {

/// A username is created once: after a user was created, creating a user
/// with the same username changes nothing and fails with `UniqueViolation`,
/// unless the credential of the second cannot even be derived, which is a
/// `HashingError` before the store is asked.
pub proof fn law_username_is_created_once(
    s: StoreState,
    first: NewUserView,
    second: NewUserView,
    salt1: Seq<char>,
    now1: i64,
    salt2: Seq<char>,
    now2: i64,
)
    requires
        first.username == second.username,
        create_user_spec(s, first, salt1, now1).1 is Ok,
    ensures
        ({
            let t = create_user_spec(s, first, salt1, now1).0;
            create_user_spec(t, second, salt2, now2) == (
                t,
                if derived_hash(second.password, salt2) is Ok {
                    Err::<i32, ServiceError>(ServiceError::UniqueViolation)
                } else {
                    Err::<i32, ServiceError>(ServiceError::HashingError)
                },
            )
        }),
{
    let row = new_user_row_spec(first, salt1, now1)->Ok_0;
    let id = s.insert_user(row).1->Ok_0;
    lemma_filter_push(s.users, stored_user(id, row), user_is_named(first.username));
}

/// A user that was created exists, and is found under the issued id with
/// the username and the flag it was created with.
pub proof fn law_created_user_is_found(s: StoreState, new_user: NewUserView, salt: Seq<char>, now: i64)
    requires
        s.wf(),
        create_user_spec(s, new_user, salt, now).1 is Ok,
    ensures
        ({
            let (t, r) = create_user_spec(s, new_user, salt, now);
            &&& username_exists_spec(t, new_user.username) == Ok::<bool, ServiceError>(true)
            &&& get_user_by_id_spec(t, r->Ok_0) == Ok::<UserProfileView, ServiceError>(
                UserProfileView {
                    id: r->Ok_0,
                    username: new_user.username,
                    is_moderator: new_user.is_moderator,
                    created_at: now,
                },
            )
        }),
{
    let row = new_user_row_spec(new_user, salt, now)->Ok_0;
    lemma_inserted_user_is_found(s, row);
}

/// After the moderator flag was granted or revoked, the user's profile
/// shows the flag as it was set and is otherwise what it was.
pub proof fn law_mod_status_is_shown(s: StoreState, id: i32, flag: bool)
    requires
        set_mod_status_spec(s, id, flag).1 is Ok,
    ensures
        set_mod_status_spec(s, id, flag).1 == Ok::<i32, ServiceError>(id),
        get_user_by_id_spec(s, id) is Ok,
        get_user_by_id_spec(set_mod_status_spec(s, id, flag).0, id) == Ok::<
            UserProfileView,
            ServiceError,
        >(UserProfileView { is_moderator: flag, ..get_user_by_id_spec(s, id)->Ok_0 }),
{
    lemma_flagged_user_is_found(s, id, flag, id);
    lemma_found_user_has_id(s, id);
}

/// Granting twice is granting once, and so is revoking: the second call
/// leaves the store as the first left it and answers the same.
pub proof fn law_mod_status_is_idempotent(s: StoreState, id: i32, flag: bool)
    ensures
        set_mod_status_spec(set_mod_status_spec(s, id, flag).0, id, flag) == set_mod_status_spec(
            s,
            id,
            flag,
        ),
{
    if s.online {
        let f = with_moderator_flag(id, flag);
        let once = s.users.map_values(f);
        assert(once.map_values(f) =~= once);
        lemma_filter_map(s.users, user_has_id(id), f);
    }
}

/// Of a grant and a revoke in a row the later one decides.
pub proof fn law_later_mod_status_decides(s: StoreState, id: i32, earlier: bool, later: bool)
    ensures
        set_mod_status_spec(set_mod_status_spec(s, id, earlier).0, id, later)
            == set_mod_status_spec(s, id, later),
{
    if s.online {
        let f = with_moderator_flag(id, earlier);
        let g = with_moderator_flag(id, later);
        assert(s.users.map_values(f).map_values(g) =~= s.users.map_values(g));
        lemma_filter_map(s.users, user_has_id(id), f);
    }
}

/// Revoking reverts a grant: for a user that was no moderator, a grant and
/// then a revoke leave the store exactly as it was.
pub proof fn law_revoke_reverts_grant(s: StoreState, id: i32)
    requires
        s.wf(),
        get_user_by_id_spec(s, id) matches Ok(p) && !p.is_moderator,
    ensures
        set_mod_status_spec(set_mod_status_spec(s, id, true).0, id, false).0 == s,
{
    law_later_mod_status_decides(s, id, true, false);
    let g = with_moderator_flag(id, false);
    let found = s.users.filter(user_has_id(id));
    lemma_one_user_per_id(s, id);
    assert forall|i: int| 0 <= i < s.users.len() implies g(#[trigger] s.users[i]) == s.users[i] by {
        if s.users[i].id == id {
            assert(s.users.contains(s.users[i]));
            lemma_filter_contains(s.users, user_has_id(id), s.users[i]);
            let k = choose|k: int| 0 <= k < found.len() && found[k] == s.users[i];
            assert(k == 0);
        }
    }
    assert(s.users.map_values(g) =~= s.users);
}

/// A change of password changes nothing of the user's profile.
pub proof fn law_password_change_keeps_profile(
    s: StoreState,
    id: i32,
    password: Seq<char>,
    salt: Seq<char>,
    looked_up: i32,
)
    ensures
        get_user_by_id_spec(update_user_password_spec(s, id, password, salt).0, looked_up)
            == get_user_by_id_spec(s, looked_up),
{
    if s.online && derived_hash(password, salt) is Ok {
        lemma_rehashed_user_is_found(s, id, derived_hash(password, salt)->Ok_0, looked_up);
    }
}

/// A deleted user is no longer found, and the comments stay as they were.
pub proof fn law_deleted_user_is_gone(s: StoreState, id: i32)
    requires
        delete_user_spec(s, id).1 is Ok,
    ensures
        get_user_by_id_spec(delete_user_spec(s, id).0, id) == Err::<UserProfileView, ServiceError>(
            ServiceError::NotFound,
        ),
        delete_user_spec(s, id).0.comments == s.comments,
{
    lemma_deleted_user_is_gone(s, id);
}

/// A comment that was created is listed under its post, after those that
/// were there, with the id that was returned and the content, author and
/// parent that were given.
pub proof fn law_created_comment_is_listed(
    s: StoreState,
    post_id: u128,
    body: NewCommentView,
    id: u128,
    now: i64,
)
    requires
        create_comment_spec(s, post_id, body, id, now).1 is Ok,
    ensures
        create_comment_spec(s, post_id, body, id, now).1 == Ok::<u128, ServiceError>(id),
        get_comments_spec(s, post_id) is Ok,
        get_comments_spec(create_comment_spec(s, post_id, body, id, now).0, post_id) == Ok::<
            Seq<CommentView>,
            ServiceError,
        >(
            get_comments_spec(s, post_id)->Ok_0.push(
                CommentView {
                    id: id,
                    post_id: post_id,
                    user_id: body.user_id,
                    content: body.content,
                    timestamp: now,
                    parent_id: body.parent_id,
                },
            ),
        ),
{
    lemma_inserted_comment_is_listed(s, new_comment_spec(post_id, body, id, now));
}

/// A request that is repeated under an id that was already used adds no
/// comment: the store stays as it is and the answer is `PersistenceError`.
pub proof fn law_repeated_comment_adds_nothing(
    s: StoreState,
    post_id: u128,
    body: NewCommentView,
    id: u128,
    now: i64,
    again_post_id: u128,
    again_body: NewCommentView,
    again_now: i64,
)
    requires
        create_comment_spec(s, post_id, body, id, now).1 is Ok,
    ensures
        ({
            let t = create_comment_spec(s, post_id, body, id, now).0;
            create_comment_spec(t, again_post_id, again_body, id, again_now) == (
                t,
                Err::<u128, ServiceError>(ServiceError::PersistenceError),
            )
        }),
{
    lemma_filter_push(s.comments, new_comment_spec(post_id, body, id, now), comment_has_id(id));
}

/// After an update the comments under any post are those that were there,
/// in the same order: the comment with the given id has the new content,
/// and every id, timestamp, author, post and parent is unchanged.
pub proof fn law_updated_comment_is_listed(
    s: StoreState,
    id: u128,
    content: Seq<char>,
    post_id: u128,
)
    requires
        update_comment_spec(s, id, content).1 is Ok,
    ensures
        update_comment_spec(s, id, content).1 == Ok::<u128, ServiceError>(id),
        get_comments_spec(s, post_id) is Ok,
        get_comments_spec(update_comment_spec(s, id, content).0, post_id) is Ok,
        ({
            let before = get_comments_spec(s, post_id)->Ok_0;
            let after = get_comments_spec(update_comment_spec(s, id, content).0, post_id)->Ok_0;
            &&& after.len() == before.len()
            &&& forall|i: int|
                0 <= i < before.len() ==> (#[trigger] after[i]) == CommentView {
                    content: if before[i].id == id {
                        content
                    } else {
                        before[i].content
                    },
                    ..before[i]
                }
        }),
{
    lemma_edited_comments_are_listed(s, id, content, post_id);
}

/// An update reaches the comment it names: some comment has the given id,
/// and afterwards every comment with that id has the new content.
pub proof fn law_updated_comment_has_content(s: StoreState, id: u128, content: Seq<char>)
    requires
        update_comment_spec(s, id, content).1 is Ok,
    ensures
        exists|i: int| 0 <= i < s.comments.len() && (#[trigger] s.comments[i]).id == id,
        ({
            let t = update_comment_spec(s, id, content).0;
            &&& t.comments.len() == s.comments.len()
            &&& forall|i: int|
                0 <= i < s.comments.len() && s.comments[i].id == id ==> (
                #[trigger] t.comments[i]).content == content && t.comments[i].id == id
                    && t.comments[i].timestamp == s.comments[i].timestamp
        }),
{
    lemma_comment_id_taken(s, id);
}

/// After a delete the comments under any post are those that were there
/// with another id, in the same order: the deleted comment is not listed,
/// and nothing else has left.
pub proof fn law_deleted_comment_is_unlisted(s: StoreState, id: u128, post_id: u128)
    requires
        delete_comment_spec(s, id).1 is Ok,
    ensures
        get_comments_spec(s, post_id) is Ok,
        get_comments_spec(delete_comment_spec(s, id).0, post_id) == Ok::<
            Seq<CommentView>,
            ServiceError,
        >(get_comments_spec(s, post_id)->Ok_0.filter(comment_has_other_id(id))),
        forall|c: CommentView| #[trigger]
            get_comments_spec(delete_comment_spec(s, id).0, post_id)->Ok_0.contains(c) ==> c.id
                != id,
{
    lemma_filter_commutes(s.comments, comment_has_other_id(id), comment_on_post(post_id));
    let after = get_comments_spec(delete_comment_spec(s, id).0, post_id)->Ok_0;
    assert forall|c: CommentView| #[trigger] after.contains(c) implies c.id != id by {
        lemma_filter_contains(
            s.comments.filter(comment_on_post(post_id)),
            comment_has_other_id(id),
            c,
        );
    }
}

/// Deleting a comment orphans its children: a comment that names the
/// deleted one as its parent is still listed, and still names it.
pub proof fn law_children_outlive_their_parent(
    s: StoreState,
    id: u128,
    post_id: u128,
    child: CommentView,
)
    requires
        delete_comment_spec(s, id).1 is Ok,
        get_comments_spec(s, post_id) matches Ok(before) && before.contains(child),
        child.parent_id == Some(id),
        child.id != id,
    ensures
        get_comments_spec(delete_comment_spec(s, id).0, post_id) matches Ok(after)
            && after.contains(child),
{
    law_deleted_comment_is_unlisted(s, id, post_id);
    lemma_filter_contains(
        s.comments.filter(comment_on_post(post_id)),
        comment_has_other_id(id),
        child,
    );
}

} // verus!
