//! The rows the cores work on, and the mathematical value of each.
//!
//! Identifiers of comments and posts are UUIDs, held as their 128 bits.
//! Instants are whole microseconds since the Unix epoch, in UTC.

use vstd::prelude::*;

verus! {

/// What a client sends to open an account.
#[derive(Debug, PartialEq, Eq)]
pub struct NewUser {
    pub username: String,
    pub password: String,
    pub is_moderator: bool,
}

/// The value of a [`NewUser`].
pub struct NewUserView {
    pub username: Seq<char>,
    pub password: Seq<char>,
    pub is_moderator: bool,
}

impl View for NewUser {
    type V = NewUserView;

    open spec fn view(&self) -> NewUserView {
        NewUserView {
            username: self.username@,
            password: self.password@,
            is_moderator: self.is_moderator,
        }
    }
}

impl Clone for NewUser {
    fn clone(&self) -> (r: Self)
        ensures
            r@ == self@,
    {
        NewUser {
            username: self.username.clone(),
            password: self.password.clone(),
            is_moderator: self.is_moderator,
        }
    }
}

/// A user as handed to the store for insertion: the store issues the id.
#[derive(Debug, PartialEq, Eq)]
pub struct DbAddUser {
    pub username: String,
    pub password_hash: String,
    pub is_moderator: bool,
    pub created_at: i64,
}

/// The value of a [`DbAddUser`].
pub struct DbAddUserView {
    pub username: Seq<char>,
    pub password_hash: Seq<char>,
    pub is_moderator: bool,
    pub created_at: i64,
}

impl View for DbAddUser {
    type V = DbAddUserView;

    open spec fn view(&self) -> DbAddUserView {
        DbAddUserView {
            username: self.username@,
            password_hash: self.password_hash@,
            is_moderator: self.is_moderator,
            created_at: self.created_at,
        }
    }
}

impl Clone for DbAddUser {
    fn clone(&self) -> (r: Self)
        ensures
            r@ == self@,
    {
        DbAddUser {
            username: self.username.clone(),
            password_hash: self.password_hash.clone(),
            is_moderator: self.is_moderator,
            created_at: self.created_at,
        }
    }
}

/// A stored user, credential included. Only the gateway and the identity
/// core see this row; callers get a [`UserProfile`].
#[derive(Debug, PartialEq, Eq)]
pub struct User {
    pub id: i32,
    pub username: String,
    pub password_hash: String,
    pub is_moderator: bool,
    pub created_at: i64,
}

/// The value of a [`User`].
pub struct UserView {
    pub id: i32,
    pub username: Seq<char>,
    pub password_hash: Seq<char>,
    pub is_moderator: bool,
    pub created_at: i64,
}

impl View for User {
    type V = UserView;

    open spec fn view(&self) -> UserView {
        UserView {
            id: self.id,
            username: self.username@,
            password_hash: self.password_hash@,
            is_moderator: self.is_moderator,
            created_at: self.created_at,
        }
    }
}

impl Clone for User {
    fn clone(&self) -> (r: Self)
        ensures
            r@ == self@,
    {
        User {
            id: self.id,
            username: self.username.clone(),
            password_hash: self.password_hash.clone(),
            is_moderator: self.is_moderator,
            created_at: self.created_at,
        }
    }
}

/// What callers learn of a user: everything but the credential.
#[derive(Debug, PartialEq, Eq)]
pub struct UserProfile {
    pub id: i32,
    pub username: String,
    pub is_moderator: bool,
    pub created_at: i64,
}

/// The value of a [`UserProfile`].
pub struct UserProfileView {
    pub id: i32,
    pub username: Seq<char>,
    pub is_moderator: bool,
    pub created_at: i64,
}

impl View for UserProfile {
    type V = UserProfileView;

    open spec fn view(&self) -> UserProfileView {
        UserProfileView {
            id: self.id,
            username: self.username@,
            is_moderator: self.is_moderator,
            created_at: self.created_at,
        }
    }
}

impl Clone for UserProfile {
    fn clone(&self) -> (r: Self)
        ensures
            r@ == self@,
    {
        UserProfile {
            id: self.id,
            username: self.username.clone(),
            is_moderator: self.is_moderator,
            created_at: self.created_at,
        }
    }
}

impl UserView {
    /// The row without its credential.
    pub open spec fn profile(self) -> UserProfileView {
        UserProfileView {
            id: self.id,
            username: self.username,
            is_moderator: self.is_moderator,
            created_at: self.created_at,
        }
    }
}

impl User {
    /// The row without its credential.
    pub fn profile(&self) -> (p: UserProfile)
        ensures
            p@ == self@.profile(),
    {
        UserProfile {
            id: self.id,
            username: self.username.clone(),
            is_moderator: self.is_moderator,
            created_at: self.created_at,
        }
    }
}

/// What a client sends to comment on a post.
#[derive(Debug, PartialEq, Eq)]
pub struct NewComment {
    pub user_id: i32,
    pub content: String,
    pub parent_id: Option<u128>,
}

/// The value of a [`NewComment`].
pub struct NewCommentView {
    pub user_id: i32,
    pub content: Seq<char>,
    pub parent_id: Option<u128>,
}

impl View for NewComment {
    type V = NewCommentView;

    open spec fn view(&self) -> NewCommentView {
        NewCommentView {
            user_id: self.user_id,
            content: self.content@,
            parent_id: self.parent_id,
        }
    }
}

impl Clone for NewComment {
    fn clone(&self) -> (r: Self)
        ensures
            r@ == self@,
    {
        NewComment {
            user_id: self.user_id,
            content: self.content.clone(),
            parent_id: self.parent_id,
        }
    }
}

/// A comment on a post. A comment without `parent_id` is a root of the
/// post's thread.
#[derive(Debug, PartialEq, Eq)]
pub struct Comment {
    pub id: u128,
    pub post_id: u128,
    pub user_id: i32,
    pub content: String,
    pub timestamp: i64,
    pub parent_id: Option<u128>,
}

/// The value of a [`Comment`].
pub struct CommentView {
    pub id: u128,
    pub post_id: u128,
    pub user_id: i32,
    pub content: Seq<char>,
    pub timestamp: i64,
    pub parent_id: Option<u128>,
}

impl View for Comment {
    type V = CommentView;

    open spec fn view(&self) -> CommentView {
        CommentView {
            id: self.id,
            post_id: self.post_id,
            user_id: self.user_id,
            content: self.content@,
            timestamp: self.timestamp,
            parent_id: self.parent_id,
        }
    }
}

impl Clone for Comment {
    fn clone(&self) -> (r: Self)
        ensures
            r@ == self@,
    {
        Comment {
            id: self.id,
            post_id: self.post_id,
            user_id: self.user_id,
            content: self.content.clone(),
            timestamp: self.timestamp,
            parent_id: self.parent_id,
        }
    }
}

/// The values of a table's rows, in order.
pub open spec fn user_views(rows: Seq<User>) -> Seq<UserView> {
    rows.map_values(|u: User| u@)
}

/// The values of a list of profiles, in order.
pub open spec fn profile_views(rows: Seq<UserProfile>) -> Seq<UserProfileView> {
    rows.map_values(|p: UserProfile| p@)
}

/// The values of a table's rows, in order.
pub open spec fn comment_views(rows: Seq<Comment>) -> Seq<CommentView> {
    rows.map_values(|c: Comment| c@)
}

} // verus!
