//! Every operation of the gateway keeps the invariant of the store.

use crate::gateway::{
    comment_has_id, comment_has_other_id, user_has_id, user_has_other_id, user_is_named,
    StoreState,
};
use crate::model::{CommentView, DbAddUserView};
use crate::rows::{lemma_filter_contains, lemma_filter_sources};
use vstd::prelude::*;

verus! {

/// The empty store is well formed.
pub proof fn empty_is_wf()
    ensures
        StoreState::empty().wf(),
{
}

/// Reaching or losing the store changes no row.
pub proof fn set_online_keeps_wf(s: StoreState, online: bool)
    requires
        s.wf(),
    ensures
        s.set_online(online).wf(),
{
}

/// A username is taken exactly if some row carries it.
pub proof fn lemma_username_taken(s: StoreState, username: Seq<char>)
    ensures
        s.username_taken(username) <==> exists|i: int|
            0 <= i < s.users.len() && (#[trigger] s.users[i]).username == username,
{
    let p = user_is_named(username);
    let f = s.users.filter(p);
    if f.len() > 0 {
        assert(f.contains(f[0]));
        lemma_filter_contains(s.users, p, f[0]);
        let i = choose|i: int| 0 <= i < s.users.len() && s.users[i] == f[0];
        assert(s.users[i].username == username);
    }
    if exists|i: int| 0 <= i < s.users.len() && (#[trigger] s.users[i]).username == username {
        let i = choose|i: int| 0 <= i < s.users.len() && (#[trigger] s.users[i]).username == username;
        assert(s.users.contains(s.users[i]));
        lemma_filter_contains(s.users, p, s.users[i]);
    }
}

/// A comment id is taken exactly if some row carries it.
pub proof fn lemma_comment_id_taken(s: StoreState, id: u128)
    ensures
        s.comment_id_taken(id) <==> exists|i: int|
            0 <= i < s.comments.len() && (#[trigger] s.comments[i]).id == id,
{
    let p = comment_has_id(id);
    let f = s.comments.filter(p);
    if f.len() > 0 {
        assert(f.contains(f[0]));
        lemma_filter_contains(s.comments, p, f[0]);
        let i = choose|i: int| 0 <= i < s.comments.len() && s.comments[i] == f[0];
        assert(s.comments[i].id == id);
    }
    if exists|i: int| 0 <= i < s.comments.len() && (#[trigger] s.comments[i]).id == id {
        let i = choose|i: int| 0 <= i < s.comments.len() && (#[trigger] s.comments[i]).id == id;
        assert(s.comments.contains(s.comments[i]));
        lemma_filter_contains(s.comments, p, s.comments[i]);
    }
}

/// `InsertUser` keeps the invariant.
pub proof fn insert_user_keeps_wf(s: StoreState, row: DbAddUserView)
    requires
        s.wf(),
    ensures
        s.insert_user(row).0.wf(),
{
    lemma_username_taken(s, row.username);
}

/// `UpdateUserModeratorFlag` keeps the invariant.
pub proof fn update_user_moderator_flag_keeps_wf(s: StoreState, id: i32, flag: bool)
    requires
        s.wf(),
    ensures
        s.update_user_moderator_flag(id, flag).0.wf(),
{
    let t = s.update_user_moderator_flag(id, flag).0;
    assert forall|i: int| 0 <= i < t.users.len() implies (#[trigger] t.users[i]).id
        == s.users[i].id && t.users[i].username == s.users[i].username by {}
}

/// `UpdateUserPasswordHash` keeps the invariant.
pub proof fn update_user_password_hash_keeps_wf(s: StoreState, id: i32, hash: Seq<char>)
    requires
        s.wf(),
    ensures
        s.update_user_password_hash(id, hash).0.wf(),
{
    let t = s.update_user_password_hash(id, hash).0;
    assert forall|i: int| 0 <= i < t.users.len() implies (#[trigger] t.users[i]).id
        == s.users[i].id && t.users[i].username == s.users[i].username by {}
}

/// `DeleteUserById` keeps the invariant.
pub proof fn delete_user_by_id_keeps_wf(s: StoreState, id: i32)
    requires
        s.wf(),
    ensures
        s.delete_user_by_id(id).0.wf(),
{
    let t = s.delete_user_by_id(id).0;
    if s.online {
        let src = lemma_filter_sources(s.users, user_has_other_id(id));
        assert forall|i: int| 0 <= i < t.users.len() implies 1 <= (#[trigger] t.users[i]).id
            < t.next_user_id by {
            assert(t.users[i] == s.users[src[i]]);
        }
        assert forall|i: int, j: int| 0 <= i < j < t.users.len() implies (#[trigger] t.users[i]).id
            != (#[trigger] t.users[j]).id && t.users[i].username != t.users[j].username by {
            assert(t.users[i] == s.users[src[i]]);
            assert(t.users[j] == s.users[src[j]]);
            assert(src[i] < src[j]);
        }
    }
}

/// `InsertComment` keeps the invariant.
pub proof fn insert_comment_keeps_wf(s: StoreState, row: CommentView)
    requires
        s.wf(),
    ensures
        s.insert_comment(row).0.wf(),
{
    lemma_comment_id_taken(s, row.id);
}

/// `UpdateCommentContent` keeps the invariant.
pub proof fn update_comment_content_keeps_wf(s: StoreState, id: u128, content: Seq<char>)
    requires
        s.wf(),
    ensures
        s.update_comment_content(id, content).0.wf(),
{
    let t = s.update_comment_content(id, content).0;
    assert forall|i: int| 0 <= i < t.comments.len() implies (#[trigger] t.comments[i]).id
        == s.comments[i].id by {}
}

/// `DeleteCommentById` keeps the invariant.
pub proof fn delete_comment_by_id_keeps_wf(s: StoreState, id: u128)
    requires
        s.wf(),
    ensures
        s.delete_comment_by_id(id).0.wf(),
{
    let t = s.delete_comment_by_id(id).0;
    if s.online {
        let src = lemma_filter_sources(s.comments, comment_has_other_id(id));
        assert forall|i: int, j: int| 0 <= i < j < t.comments.len() implies (
        #[trigger] t.comments[i]).id != (#[trigger] t.comments[j]).id by {
            assert(t.comments[i] == s.comments[src[i]]);
            assert(t.comments[j] == s.comments[src[j]]);
            assert(src[i] < src[j]);
        }
    }
}

/// In a well-formed store at most one user has a given id.
pub proof fn lemma_one_user_per_id(s: StoreState, id: i32)
    requires
        s.wf(),
    ensures
        s.users.filter(user_has_id(id)).len() <= 1,
{
    let f = s.users.filter(user_has_id(id));
    if f.len() >= 2 {
        let src = lemma_filter_sources(s.users, user_has_id(id));
        assert(src[0] < src[1]);
        lemma_filter_contains(s.users, user_has_id(id), f[0]);
        lemma_filter_contains(s.users, user_has_id(id), f[1]);
        assert(f.contains(f[0]));
        assert(f.contains(f[1]));
        assert(s.users[src[0]].id == id);
        assert(s.users[src[1]].id == id);
    }
}

} // verus!
