//! The persistence gateway as a mathematical model: two tables of rows and
//! what each operation of the gateway answers and leaves behind.
//!
//! A table is the sequence of its rows in the order of insertion. A lookup
//! is a filter, an update maps the rows, a delete keeps the others, and the
//! count of affected rows is the length of a filter. A store that cannot be
//! reached answers `IoError` and keeps its rows.

use crate::error::StoreError;
use crate::model::{
    comment_views, user_views, Comment, CommentView, DbAddUserView, User, UserView,
};
use vstd::prelude::*;

verus! {

/// The greatest identifier the store can issue to a user.
pub const MAX_USER_ID: i32 = 0x7fff_ffff;

/// Rows of the user table with the given id.
pub open spec fn user_has_id(id: i32) -> spec_fn(UserView) -> bool {
    |u: UserView| u.id == id
}

/// Rows of the user table with any other id.
pub open spec fn user_has_other_id(id: i32) -> spec_fn(UserView) -> bool {
    |u: UserView| u.id != id
}

/// Rows of the user table with exactly this username.
pub open spec fn user_is_named(username: Seq<char>) -> spec_fn(UserView) -> bool {
    |u: UserView| u.username == username
}

/// Sets the moderator flag of the rows with the given id.
pub open spec fn with_moderator_flag(id: i32, flag: bool) -> spec_fn(UserView) -> UserView {
    |u: UserView|
        if u.id == id {
            UserView { is_moderator: flag, ..u }
        } else {
            u
        }
}

/// Replaces the credential of the rows with the given id.
pub open spec fn with_password_hash(id: i32, hash: Seq<char>) -> spec_fn(UserView) -> UserView {
    |u: UserView|
        if u.id == id {
            UserView { password_hash: hash, ..u }
        } else {
            u
        }
}

/// Rows of the comment table with the given id.
pub open spec fn comment_has_id(id: u128) -> spec_fn(CommentView) -> bool {
    |c: CommentView| c.id == id
}

/// Rows of the comment table with any other id.
pub open spec fn comment_has_other_id(id: u128) -> spec_fn(CommentView) -> bool {
    |c: CommentView| c.id != id
}

/// Rows of the comment table under the given post.
pub open spec fn comment_on_post(post_id: u128) -> spec_fn(CommentView) -> bool {
    |c: CommentView| c.post_id == post_id
}

/// Replaces the content of the rows with the given id.
pub open spec fn with_content(id: u128, content: Seq<char>) -> spec_fn(CommentView) -> CommentView {
    |c: CommentView|
        if c.id == id {
            CommentView { content: content, ..c }
        } else {
            c
        }
}

/// The first of the rows, if there is one.
pub open spec fn first_row<A>(rows: Seq<A>) -> Option<A> {
    if rows.len() == 0 {
        None
    } else {
        Some(rows[0])
    }
}

/// The row that an insert of `row` stores under the issued `id`.
pub open spec fn stored_user(id: i32, row: DbAddUserView) -> UserView {
    UserView {
        id: id,
        username: row.username,
        password_hash: row.password_hash,
        is_moderator: row.is_moderator,
        created_at: row.created_at,
    }
}

/// The value of the answer to a lookup of one user.
pub open spec fn user_reply_view(r: Result<Option<User>, StoreError>) -> Result<
    Option<UserView>,
    StoreError,
> {
    match r {
        Ok(Some(u)) => Ok(Some(u@)),
        Ok(None) => Ok(None),
        Err(e) => Err(e),
    }
}

/// The value of the answer to a lookup of several users.
pub open spec fn users_reply_view(r: Result<Vec<User>, StoreError>) -> Result<
    Seq<UserView>,
    StoreError,
> {
    match r {
        Ok(rows) => Ok(user_views(rows@)),
        Err(e) => Err(e),
    }
}

/// The value of an answer that counts the affected rows.
pub open spec fn count_reply_view(r: Result<u64, StoreError>) -> Result<nat, StoreError> {
    match r {
        Ok(n) => Ok(n as nat),
        Err(e) => Err(e),
    }
}

/// The value of the answer to a lookup of comments.
pub open spec fn comments_reply_view(r: Result<Vec<Comment>, StoreError>) -> Result<
    Seq<CommentView>,
    StoreError,
> {
    match r {
        Ok(rows) => Ok(comment_views(rows@)),
        Err(e) => Err(e),
    }
}

/// What a store holds.
pub struct StoreState {
    /// The user table.
    pub users: Seq<UserView>,
    /// The comment table.
    pub comments: Seq<CommentView>,
    /// The identifier that the next inserted user gets.
    pub next_user_id: int,
    /// Whether the store can be reached.
    pub online: bool,
}

impl StoreState {
    /// An empty store that can be reached; it issues identifiers from 1.
    pub open spec fn empty() -> StoreState {
        StoreState { users: Seq::empty(), comments: Seq::empty(), next_user_id: 1, online: true }
    }

    /// The invariant of the store: identifiers of users are issued in
    /// order and never twice, no two users share a username, and no two
    /// comments share an id.
    pub open spec fn wf(self) -> bool {
        &&& 1 <= self.next_user_id <= MAX_USER_ID + 1
        &&& forall|i: int|
            0 <= i < self.users.len() ==> 1 <= (#[trigger] self.users[i]).id < self.next_user_id
        &&& forall|i: int, j: int|
            0 <= i < j < self.users.len() ==> (#[trigger] self.users[i]).id != (
            #[trigger] self.users[j]).id
        &&& forall|i: int, j: int|
            0 <= i < j < self.users.len() ==> (#[trigger] self.users[i]).username != (
            #[trigger] self.users[j]).username
        &&& forall|i: int, j: int|
            0 <= i < j < self.comments.len() ==> (#[trigger] self.comments[i]).id != (
            #[trigger] self.comments[j]).id
    }

    /// The same rows in a store that can, or cannot, be reached.
    pub open spec fn set_online(self, online: bool) -> StoreState {
        StoreState { online: online, ..self }
    }

    /// Whether some user has this username.
    pub open spec fn username_taken(self, username: Seq<char>) -> bool {
        self.users.filter(user_is_named(username)).len() > 0
    }

    /// Whether some comment has this id.
    pub open spec fn comment_id_taken(self, id: u128) -> bool {
        self.comments.filter(comment_has_id(id)).len() > 0
    }

    /// `InsertUser`: the store issues the next identifier, unless it cannot
    /// be reached (`IoError`), the username is taken (`UniqueViolation`), or
    /// no identifier is left (`IoError`).
    pub open spec fn insert_user(self, row: DbAddUserView) -> (StoreState, Result<i32, StoreError>) {
        if !self.online {
            (self, Err(StoreError::IoError))
        } else if self.username_taken(row.username) {
            (self, Err(StoreError::UniqueViolation))
        } else if self.next_user_id > MAX_USER_ID {
            (self, Err(StoreError::IoError))
        } else {
            let id = self.next_user_id as i32;
            (
                StoreState {
                    users: self.users.push(stored_user(id, row)),
                    next_user_id: self.next_user_id + 1,
                    ..self
                },
                Ok(id),
            )
        }
    }

    /// `SelectUserById`.
    pub open spec fn select_user_by_id(self, id: i32) -> Result<Option<UserView>, StoreError> {
        if self.online {
            Ok(first_row(self.users.filter(user_has_id(id))))
        } else {
            Err(StoreError::IoError)
        }
    }

    /// `SelectUserByUsername`: the match is exact.
    pub open spec fn select_user_by_username(self, username: Seq<char>) -> Result<
        Option<UserView>,
        StoreError,
    > {
        if self.online {
            Ok(first_row(self.users.filter(user_is_named(username))))
        } else {
            Err(StoreError::IoError)
        }
    }

    /// `UpdateUserModeratorFlag`.
    pub open spec fn update_user_moderator_flag(self, id: i32, flag: bool) -> (
        StoreState,
        Result<nat, StoreError>,
    ) {
        if self.online {
            (
                StoreState { users: self.users.map_values(with_moderator_flag(id, flag)), ..self },
                Ok(self.users.filter(user_has_id(id)).len()),
            )
        } else {
            (self, Err(StoreError::IoError))
        }
    }

    /// `UpdateUserPasswordHash`.
    pub open spec fn update_user_password_hash(self, id: i32, hash: Seq<char>) -> (
        StoreState,
        Result<nat, StoreError>,
    ) {
        if self.online {
            (
                StoreState { users: self.users.map_values(with_password_hash(id, hash)), ..self },
                Ok(self.users.filter(user_has_id(id)).len()),
            )
        } else {
            (self, Err(StoreError::IoError))
        }
    }

    /// `DeleteUserById`: comments of the user stay.
    pub open spec fn delete_user_by_id(self, id: i32) -> (StoreState, Result<nat, StoreError>) {
        if self.online {
            (
                StoreState { users: self.users.filter(user_has_other_id(id)), ..self },
                Ok(self.users.filter(user_has_id(id)).len()),
            )
        } else {
            (self, Err(StoreError::IoError))
        }
    }

    /// `InsertComment`: the row arrives with its id; an id that is taken is
    /// a `UniqueViolation`. Neither the post, the author nor the parent is
    /// looked up.
    pub open spec fn insert_comment(self, row: CommentView) -> (
        StoreState,
        Result<nat, StoreError>,
    ) {
        if !self.online {
            (self, Err(StoreError::IoError))
        } else if self.comment_id_taken(row.id) {
            (self, Err(StoreError::UniqueViolation))
        } else {
            (StoreState { comments: self.comments.push(row), ..self }, Ok(1nat))
        }
    }

    /// `SelectCommentsByPostId`: the comments under the post, in the order
    /// of their insertion.
    pub open spec fn select_comments_by_post_id(self, post_id: u128) -> Result<
        Seq<CommentView>,
        StoreError,
    > {
        if self.online {
            Ok(self.comments.filter(comment_on_post(post_id)))
        } else {
            Err(StoreError::IoError)
        }
    }

    /// `UpdateCommentContent`.
    pub open spec fn update_comment_content(self, id: u128, content: Seq<char>) -> (
        StoreState,
        Result<nat, StoreError>,
    ) {
        if self.online {
            (
                StoreState { comments: self.comments.map_values(with_content(id, content)), ..self },
                Ok(self.comments.filter(comment_has_id(id)).len()),
            )
        } else {
            (self, Err(StoreError::IoError))
        }
    }

    /// `DeleteCommentById`: comments that name the deleted one as their
    /// parent stay, and keep naming it.
    pub open spec fn delete_comment_by_id(self, id: u128) -> (StoreState, Result<nat, StoreError>) {
        if self.online {
            (
                StoreState { comments: self.comments.filter(comment_has_other_id(id)), ..self },
                Ok(self.comments.filter(comment_has_id(id)).len()),
            )
        } else {
            (self, Err(StoreError::IoError))
        }
    }
}

} // verus!
