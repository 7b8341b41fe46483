//! A gateway that keeps its tables in memory.
//!
//! It answers every operation exactly as the model of the gateway says, and
//! can be taken offline to stand for a store that cannot be reached.

use crate::error::StoreError;
use crate::gateway::{
    comment_has_id, comment_has_other_id, comment_on_post, comments_reply_view, count_reply_view,
    stored_user, user_has_id, user_has_other_id, user_is_named, user_reply_view, with_content,
    with_moderator_flag, with_password_hash, StoreState, MAX_USER_ID,
};
use crate::invariants::{
    delete_comment_by_id_keeps_wf, delete_user_by_id_keeps_wf, insert_comment_keeps_wf,
    insert_user_keeps_wf, set_online_keeps_wf, update_comment_content_keeps_wf,
    update_user_moderator_flag_keeps_wf, update_user_password_hash_keeps_wf,
};
use crate::model::{comment_views, user_views, Comment, DbAddUser, User};
use crate::rows::{lemma_filter_empty, lemma_filter_first, lemma_filter_none, lemma_filter_push};
use vstd::prelude::*;
use vstd::string::StringExecFns;

verus! {

/// The tables of a store, held in memory.
pub struct MemoryStore {
    users: Vec<User>,
    comments: Vec<Comment>,
    next_user_id: i64,
    online: bool,
}

impl View for MemoryStore {
    type V = StoreState;

    closed spec fn view(&self) -> StoreState {
        StoreState {
            users: user_views(self.users@),
            comments: comment_views(self.comments@),
            next_user_id: self.next_user_id as int,
            online: self.online,
        }
    }
}

impl MemoryStore {
    /// The invariant of the store, which every operation keeps.
    pub open spec fn wf(&self) -> bool {
        self@.wf()
    }

    /// An empty store that can be reached.
    pub fn new() -> (s: MemoryStore)
        ensures
            s@ == StoreState::empty(),
            s.wf(),
    {
        let s = MemoryStore { users: Vec::new(), comments: Vec::new(), next_user_id: 1, online: true };
        assert(s@.users =~= Seq::empty());
        assert(s@.comments =~= Seq::empty());
        s
    }

    /// Takes the store offline, or brings it back. The rows stay.
    pub fn set_online(&mut self, online: bool)
        ensures
            final(self)@ == old(self)@.set_online(online),
            old(self).wf() ==> final(self).wf(),
    {
        self.online = online;
        proof {
            if old(self).wf() {
                set_online_keeps_wf(old(self)@, online);
            }
        }
    }

    /// Whether the store can be reached.
    pub fn is_online(&self) -> (b: bool)
        ensures
            b == self@.online,
    {
        self.online
    }

    fn position_of_user(&self, id: i32) -> (r: Option<usize>)
        ensures
            match r {
                Some(i) => i < self@.users.len() && self@.users[i as int].id == id && forall|j: int|
                    0 <= j < i ==> !user_has_id(id)(#[trigger] self@.users[j]),
                None => forall|j: int|
                    0 <= j < self@.users.len() ==> !user_has_id(id)(#[trigger] self@.users[j]),
            },
    {
        let mut i: usize = 0;
        while i < self.users.len()
            invariant
                i <= self.users.len(),
                forall|j: int| 0 <= j < i ==> !user_has_id(id)(#[trigger] self@.users[j]),
            decreases self.users.len() - i,
        {
            if self.users[i].id == id {
                return Some(i);
            }
            i = i + 1;
        }
        None
    }

    fn position_of_username(&self, username: &String) -> (r: Option<usize>)
        ensures
            match r {
                Some(i) => i < self@.users.len() && self@.users[i as int].username == username@
                    && forall|j: int|
                    0 <= j < i ==> !user_is_named(username@)(#[trigger] self@.users[j]),
                None => forall|j: int|
                    0 <= j < self@.users.len() ==> !user_is_named(username@)(
                        #[trigger] self@.users[j],
                    ),
            },
    {
        let mut i: usize = 0;
        while i < self.users.len()
            invariant
                i <= self.users.len(),
                forall|j: int|
                    0 <= j < i ==> !user_is_named(username@)(#[trigger] self@.users[j]),
            decreases self.users.len() - i,
        {
            if self.users[i].username == *username {
                return Some(i);
            }
            i = i + 1;
        }
        None
    }

    fn position_of_comment(&self, id: u128) -> (r: Option<usize>)
        ensures
            match r {
                Some(i) => i < self@.comments.len() && self@.comments[i as int].id == id,
                None => forall|j: int|
                    0 <= j < self@.comments.len() ==> !comment_has_id(id)(
                        #[trigger] self@.comments[j],
                    ),
            },
    {
        let mut i: usize = 0;
        while i < self.comments.len()
            invariant
                i <= self.comments.len(),
                forall|j: int| 0 <= j < i ==> !comment_has_id(id)(#[trigger] self@.comments[j]),
            decreases self.comments.len() - i,
        {
            if self.comments[i].id == id {
                return Some(i);
            }
            i = i + 1;
        }
        None
    }

    fn count_users(&self, id: i32) -> (n: u64)
        ensures
            n as nat == self@.users.filter(user_has_id(id)).len(),
    {
        let ghost rows = self@.users;
        let mut n: u64 = 0;
        let mut i: usize = 0;
        proof {
            lemma_filter_empty(user_has_id(id));
            assert(rows.take(0) =~= Seq::empty());
        }
        while i < self.users.len()
            invariant
                i <= self.users.len(),
                rows == self@.users,
                rows.len() == self.users.len(),
                n as nat == rows.take(i as int).filter(user_has_id(id)).len(),
                n <= i,
            decreases self.users.len() - i,
        {
            proof {
                assert(rows.take(i + 1) =~= rows.take(i as int).push(rows[i as int]));
                lemma_filter_push(rows.take(i as int), rows[i as int], user_has_id(id));
            }
            if self.users[i].id == id {
                n = n + 1;
            }
            i = i + 1;
        }
        assert(rows.take(i as int) =~= rows);
        n
    }

    fn count_comments(&self, id: u128) -> (n: u64)
        ensures
            n as nat == self@.comments.filter(comment_has_id(id)).len(),
    {
        let ghost rows = self@.comments;
        let mut n: u64 = 0;
        let mut i: usize = 0;
        proof {
            lemma_filter_empty(comment_has_id(id));
            assert(rows.take(0) =~= Seq::empty());
        }
        while i < self.comments.len()
            invariant
                i <= self.comments.len(),
                rows == self@.comments,
                rows.len() == self.comments.len(),
                n as nat == rows.take(i as int).filter(comment_has_id(id)).len(),
                n <= i,
            decreases self.comments.len() - i,
        {
            proof {
                assert(rows.take(i + 1) =~= rows.take(i as int).push(rows[i as int]));
                lemma_filter_push(rows.take(i as int), rows[i as int], comment_has_id(id));
            }
            if self.comments[i].id == id {
                n = n + 1;
            }
            i = i + 1;
        }
        assert(rows.take(i as int) =~= rows);
        n
    }

    /// `InsertUser`.
    pub fn insert_user(&mut self, row: &DbAddUser) -> (r: Result<i32, StoreError>)
        requires
            old(self).wf(),
        ensures
            final(self).wf(),
            (final(self)@, r) == old(self)@.insert_user(row@),
    {
        if !self.online {
            return Err(StoreError::IoError);
        }
        match self.position_of_username(&row.username) {
            Some(i) => {
                proof {
                    lemma_filter_first(self@.users, user_is_named(row.username@), i as int);
                }
                Err(StoreError::UniqueViolation)
            },
            None => {
                proof {
                    lemma_filter_none(self@.users, user_is_named(row.username@));
                    insert_user_keeps_wf(self@, row@);
                }
                if self.next_user_id > MAX_USER_ID as i64 {
                    return Err(StoreError::IoError);
                }
                let id = self.next_user_id as i32;
                let user = User {
                    id,
                    username: row.username.clone(),
                    password_hash: row.password_hash.clone(),
                    is_moderator: row.is_moderator,
                    created_at: row.created_at,
                };
                self.users.push(user);
                self.next_user_id = self.next_user_id + 1;
                assert(self@.users =~= old(self)@.users.push(stored_user(id, row@)));
                Ok(id)
            },
        }
    }

    /// `SelectUserById`.
    pub fn select_user_by_id(&self, id: i32) -> (r: Result<Option<User>, StoreError>)
        ensures
            user_reply_view(r) == self@.select_user_by_id(id),
    {
        if !self.online {
            return Err(StoreError::IoError);
        }
        match self.position_of_user(id) {
            Some(i) => {
                proof {
                    lemma_filter_first(self@.users, user_has_id(id), i as int);
                }
                Ok(Some(self.users[i].clone()))
            },
            None => {
                proof {
                    lemma_filter_none(self@.users, user_has_id(id));
                }
                Ok(None)
            },
        }
    }

    /// `SelectUserByUsername`.
    pub fn select_user_by_username(&self, username: &str) -> (r: Result<Option<User>, StoreError>)
        ensures
            user_reply_view(r) == self@.select_user_by_username(username@),
    {
        if !self.online {
            return Err(StoreError::IoError);
        }
        let name = String::from_str(username);
        match self.position_of_username(&name) {
            Some(i) => {
                proof {
                    lemma_filter_first(self@.users, user_is_named(username@), i as int);
                }
                Ok(Some(self.users[i].clone()))
            },
            None => {
                proof {
                    lemma_filter_none(self@.users, user_is_named(username@));
                }
                Ok(None)
            },
        }
    }

    /// `UpdateUserModeratorFlag`.
    pub fn update_user_moderator_flag(&mut self, id: i32, flag: bool) -> (r: Result<
        u64,
        StoreError,
    >)
        requires
            old(self).wf(),
        ensures
            final(self).wf(),
            (final(self)@, count_reply_view(r)) == old(self)@.update_user_moderator_flag(id, flag),
    {
        if !self.online {
            return Err(StoreError::IoError);
        }
        let n = self.count_users(id);
        let ghost before = self@.users;
        let mut i: usize = 0;
        while i < self.users.len()
            invariant
                i <= self.users.len(),
                self.users.len() == before.len(),
                self.comments == old(self).comments,
                self.next_user_id == old(self).next_user_id,
                self.online == old(self).online,
                forall|j: int|
                    0 <= j < i ==> self@.users[j] == with_moderator_flag(id, flag)(#[trigger] before[j]),
                forall|j: int| i <= j < before.len() ==> self@.users[j] == #[trigger] before[j],
            decreases self.users.len() - i,
        {
            if self.users[i].id == id {
                self.users[i].is_moderator = flag;
            }
            i = i + 1;
        }
        proof {
            assert(self@.users =~= before.map_values(with_moderator_flag(id, flag)));
            update_user_moderator_flag_keeps_wf(old(self)@, id, flag);
        }
        Ok(n)
    }

    /// `UpdateUserPasswordHash`.
    pub fn update_user_password_hash(&mut self, id: i32, hash: &str) -> (r: Result<
        u64,
        StoreError,
    >)
        requires
            old(self).wf(),
        ensures
            final(self).wf(),
            (final(self)@, count_reply_view(r)) == old(self)@.update_user_password_hash(id, hash@),
    {
        if !self.online {
            return Err(StoreError::IoError);
        }
        let n = self.count_users(id);
        let ghost before = self@.users;
        let mut i: usize = 0;
        while i < self.users.len()
            invariant
                i <= self.users.len(),
                self.users.len() == before.len(),
                self.comments == old(self).comments,
                self.next_user_id == old(self).next_user_id,
                self.online == old(self).online,
                forall|j: int|
                    0 <= j < i ==> self@.users[j] == with_password_hash(id, hash@)(#[trigger] before[j]),
                forall|j: int| i <= j < before.len() ==> self@.users[j] == #[trigger] before[j],
            decreases self.users.len() - i,
        {
            if self.users[i].id == id {
                self.users[i].password_hash = String::from_str(hash);
            }
            i = i + 1;
        }
        proof {
            assert(self@.users =~= before.map_values(with_password_hash(id, hash@)));
            update_user_password_hash_keeps_wf(old(self)@, id, hash@);
        }
        Ok(n)
    }

    /// `DeleteUserById`.
    pub fn delete_user_by_id(&mut self, id: i32) -> (r: Result<u64, StoreError>)
        requires
            old(self).wf(),
        ensures
            final(self).wf(),
            (final(self)@, count_reply_view(r)) == old(self)@.delete_user_by_id(id),
    {
        if !self.online {
            return Err(StoreError::IoError);
        }
        let n = self.count_users(id);
        let ghost before = self@.users;
        let mut kept: Vec<User> = Vec::new();
        let mut i: usize = 0;
        proof {
            lemma_filter_empty(user_has_other_id(id));
            assert(before.take(0) =~= Seq::empty());
            assert(user_views(kept@) =~= Seq::empty());
        }
        while i < self.users.len()
            invariant
                i <= self.users.len(),
                before == self@.users,
                before.len() == self.users.len(),
                user_views(kept@) == before.take(i as int).filter(user_has_other_id(id)),
            decreases self.users.len() - i,
        {
            proof {
                assert(before.take(i + 1) =~= before.take(i as int).push(before[i as int]));
                lemma_filter_push(before.take(i as int), before[i as int], user_has_other_id(id));
            }
            if self.users[i].id != id {
                let ghost kept_before = kept@;
                let row = self.users[i].clone();
                kept.push(row);
                assert(user_views(kept@) =~= user_views(kept_before).push(before[i as int]));
            }
            i = i + 1;
        }
        proof {
            assert(before.take(i as int) =~= before);
            delete_user_by_id_keeps_wf(old(self)@, id);
        }
        self.users = kept;
        Ok(n)
    }

    /// `InsertComment`.
    pub fn insert_comment(&mut self, row: &Comment) -> (r: Result<u64, StoreError>)
        requires
            old(self).wf(),
        ensures
            final(self).wf(),
            (final(self)@, count_reply_view(r)) == old(self)@.insert_comment(row@),
    {
        if !self.online {
            return Err(StoreError::IoError);
        }
        let n = self.count_comments(row.id);
        if n > 0 {
            return Err(StoreError::UniqueViolation);
        }
        proof {
            insert_comment_keeps_wf(self@, row@);
        }
        self.comments.push(row.clone());
        assert(self@.comments =~= old(self)@.comments.push(row@));
        Ok(1)
    }

    /// `SelectCommentsByPostId`.
    pub fn select_comments_by_post_id(&self, post_id: u128) -> (r: Result<
        Vec<Comment>,
        StoreError,
    >)
        ensures
            comments_reply_view(r) == self@.select_comments_by_post_id(post_id),
    {
        if !self.online {
            return Err(StoreError::IoError);
        }
        let ghost rows = self@.comments;
        let mut found: Vec<Comment> = Vec::new();
        let mut i: usize = 0;
        proof {
            lemma_filter_empty(comment_on_post(post_id));
            assert(rows.take(0) =~= Seq::empty());
            assert(comment_views(found@) =~= Seq::empty());
        }
        while i < self.comments.len()
            invariant
                i <= self.comments.len(),
                rows == self@.comments,
                rows.len() == self.comments.len(),
                comment_views(found@) == rows.take(i as int).filter(comment_on_post(post_id)),
            decreases self.comments.len() - i,
        {
            proof {
                assert(rows.take(i + 1) =~= rows.take(i as int).push(rows[i as int]));
                lemma_filter_push(rows.take(i as int), rows[i as int], comment_on_post(post_id));
            }
            if self.comments[i].post_id == post_id {
                let ghost found_before = found@;
                let row = self.comments[i].clone();
                found.push(row);
                assert(comment_views(found@) =~= comment_views(found_before).push(rows[i as int]));
            }
            i = i + 1;
        }
        assert(rows.take(i as int) =~= rows);
        Ok(found)
    }

    /// `UpdateCommentContent`.
    pub fn update_comment_content(&mut self, id: u128, content: &str) -> (r: Result<
        u64,
        StoreError,
    >)
        requires
            old(self).wf(),
        ensures
            final(self).wf(),
            (final(self)@, count_reply_view(r)) == old(self)@.update_comment_content(id, content@),
    {
        if !self.online {
            return Err(StoreError::IoError);
        }
        let n = self.count_comments(id);
        let ghost before = self@.comments;
        let mut i: usize = 0;
        while i < self.comments.len()
            invariant
                i <= self.comments.len(),
                self.comments.len() == before.len(),
                self.users == old(self).users,
                self.next_user_id == old(self).next_user_id,
                self.online == old(self).online,
                forall|j: int|
                    0 <= j < i ==> self@.comments[j] == with_content(id, content@)(
                        #[trigger] before[j],
                    ),
                forall|j: int| i <= j < before.len() ==> self@.comments[j] == #[trigger] before[j],
            decreases self.comments.len() - i,
        {
            if self.comments[i].id == id {
                self.comments[i].content = String::from_str(content);
            }
            i = i + 1;
        }
        proof {
            assert(self@.comments =~= before.map_values(with_content(id, content@)));
            update_comment_content_keeps_wf(old(self)@, id, content@);
        }
        Ok(n)
    }

    /// `DeleteCommentById`.
    pub fn delete_comment_by_id(&mut self, id: u128) -> (r: Result<u64, StoreError>)
        requires
            old(self).wf(),
        ensures
            final(self).wf(),
            (final(self)@, count_reply_view(r)) == old(self)@.delete_comment_by_id(id),
    {
        if !self.online {
            return Err(StoreError::IoError);
        }
        let n = self.count_comments(id);
        let ghost before = self@.comments;
        let mut kept: Vec<Comment> = Vec::new();
        let mut i: usize = 0;
        proof {
            lemma_filter_empty(comment_has_other_id(id));
            assert(before.take(0) =~= Seq::empty());
            assert(comment_views(kept@) =~= Seq::empty());
        }
        while i < self.comments.len()
            invariant
                i <= self.comments.len(),
                before == self@.comments,
                before.len() == self.comments.len(),
                comment_views(kept@) == before.take(i as int).filter(comment_has_other_id(id)),
            decreases self.comments.len() - i,
        {
            proof {
                assert(before.take(i + 1) =~= before.take(i as int).push(before[i as int]));
                lemma_filter_push(
                    before.take(i as int),
                    before[i as int],
                    comment_has_other_id(id),
                );
            }
            if self.comments[i].id != id {
                let ghost kept_before = kept@;
                let row = self.comments[i].clone();
                kept.push(row);
                assert(comment_views(kept@) =~= comment_views(kept_before).push(before[i as int]));
            }
            i = i + 1;
        }
        proof {
            assert(before.take(i as int) =~= before);
            delete_comment_by_id_keeps_wf(old(self)@, id);
        }
        self.comments = kept;
        Ok(n)
    }
}

} // verus!
