//! Users and posts, the response statuses, and the tables that hold them.

use vstd::prelude::*;

verus! {

/// The outcome of a request, as an HTTP status.
#[derive(Clone, Copy, Debug, PartialEq, Eq, Structural)]
pub enum Status {
    Success,
    Created,
    NoContent,
    BadRequest,
    Unauthorized,
    Forbidden,
    NotFound,
    Conflict,
    InternalError,
}

/// The HTTP status code of each outcome.
pub open spec fn status_code(s: Status) -> u16 {
    match s {
        Status::Success => 200,
        Status::Created => 201,
        Status::NoContent => 204,
        Status::BadRequest => 400,
        Status::Unauthorized => 401,
        Status::Forbidden => 403,
        Status::NotFound => 404,
        Status::Conflict => 409,
        Status::InternalError => 500,
    }
}

impl Status {
    /// The numeric HTTP status code.
    pub fn code(&self) -> (r: u16)
        ensures
            r == status_code(*self),
    {
        match self {
            Status::Success => 200,
            Status::Created => 201,
            Status::NoContent => 204,
            Status::BadRequest => 400,
            Status::Unauthorized => 401,
            Status::Forbidden => 403,
            Status::NotFound => 404,
            Status::Conflict => 409,
            Status::InternalError => 500,
        }
    }
}

/// A registered user; `password_hash` is an encoded Argon2 hash.
pub struct User {
    pub id: u128,
    pub email: String,
    pub password_hash: String,
}

/// A user as plain values.
pub struct UserView {
    pub id: u128,
    pub email: Seq<char>,
    pub password_hash: Seq<char>,
}

impl View for User {
    type V = UserView;

    open spec fn view(&self) -> UserView {
        UserView { id: self.id, email: self.email@, password_hash: self.password_hash@ }
    }
}

/// What a caller may see of a user: everything but the password hash.
pub struct UserProfile {
    pub id: u128,
    pub email: String,
}

impl User {
    /// The user without the password hash.
    pub fn profile(&self) -> (r: UserProfile)
        ensures
            r.id == self.id,
            r.email@ == self.email@,
    {
        UserProfile { id: self.id, email: self.email.clone() }
    }
}

/// A post; `user_id` is the user who created it.
pub struct Post {
    pub id: i32,
    pub title: String,
    pub text: String,
    pub user_id: u128,
}

/// A post as plain values.
pub struct PostView {
    pub id: i32,
    pub title: Seq<char>,
    pub text: Seq<char>,
    pub user_id: u128,
}

impl View for Post {
    type V = PostView;

    open spec fn view(&self) -> PostView {
        PostView { id: self.id, title: self.title@, text: self.text@, user_id: self.user_id }
    }
}

impl Post {
    /// A copy of this post.
    pub fn duplicate(&self) -> (r: Post)
        ensures
            r@ == self@,
    {
        Post { id: self.id, title: self.title.clone(), text: self.text.clone(), user_id: self.user_id }
    }
}

/// The users of a table as plain values, in order.
pub open spec fn user_rows(s: Seq<User>) -> Seq<UserView> {
    s.map_values(|u: User| u@)
}

/// The posts of a table as plain values, in order.
pub open spec fn post_rows(s: Seq<Post>) -> Seq<PostView> {
    s.map_values(|p: Post| p@)
}

/// Whether some user has id `id`.
pub open spec fn has_user(s: Seq<UserView>, id: u128) -> bool {
    exists|i: int| 0 <= i < s.len() && s[i].id == id
}

/// Whether some user has email `email`.
pub open spec fn has_email(s: Seq<UserView>, email: Seq<char>) -> bool {
    exists|i: int| 0 <= i < s.len() && s[i].email == email
}

/// Whether some post has id `id`.
pub open spec fn has_post(s: Seq<PostView>, id: i32) -> bool {
    exists|i: int| 0 <= i < s.len() && s[i].id == id
}

/// No two users share an id or an email.
pub open spec fn users_wf(s: Seq<UserView>) -> bool {
    forall|i: int, j: int|
        0 <= i < j < s.len() ==> s[i].id != s[j].id && s[i].email != s[j].email
}

/// No two posts share an id, and every id is below `next`, which is positive.
pub open spec fn posts_wf(s: Seq<PostView>, next: i32) -> bool {
    &&& forall|i: int, j: int| 0 <= i < j < s.len() ==> s[i].id != s[j].id
    &&& forall|i: int| 0 <= i < s.len() ==> s[i].id < next
    &&& 1 <= next
}

/// The tables are as they were.
pub open spec fn unchanged(a: AppState, b: AppState) -> bool {
    &&& a.users_view() == b.users_view()
    &&& a.posts_view() == b.posts_view()
    &&& a.next_post_id == b.next_post_id
}

/// The data store: users keyed by id and unique by email, posts keyed by
/// sequential ids.
pub struct AppState {
    pub users: Vec<User>,
    pub posts: Vec<Post>,
    pub next_post_id: i32,
}

impl AppState {
    /// The users as plain values, in table order.
    pub open spec fn users_view(&self) -> Seq<UserView> {
        user_rows(self.users@)
    }

    /// The posts as plain values, in table order.
    pub open spec fn posts_view(&self) -> Seq<PostView> {
        post_rows(self.posts@)
    }

    /// User ids and emails are unique, post ids are unique and below the
    /// next id to hand out, which is positive.
    pub open spec fn wf(&self) -> bool {
        &&& users_wf(self.users_view())
        &&& posts_wf(self.posts_view(), self.next_post_id)
    }

    /// An empty store.
    pub fn new() -> (r: AppState)
        ensures
            r.wf(),
            r.users_view() == Seq::<UserView>::empty(),
            r.posts_view() == Seq::<PostView>::empty(),
            r.next_post_id == 1,
    {
        let r = AppState { users: Vec::new(), posts: Vec::new(), next_post_id: 1 };
        assert(r.users_view() =~= Seq::<UserView>::empty());
        assert(r.posts_view() =~= Seq::<PostView>::empty());
        r
    }

    /// The position of the user with id `id`.
    pub fn find_user(&self, id: u128) -> (r: Option<usize>)
        ensures
            r matches Some(i) ==> i < self.users_view().len() && self.users_view()[i as int].id == id,
            r is None ==> !has_user(self.users_view(), id),
    {
        let mut i: usize = 0;
        while i < self.users.len()
            invariant
                i <= self.users.len(),
                forall|k: int| 0 <= k < i ==> self.users_view()[k].id != id,
            decreases self.users.len() - i,
        {
            if self.users[i].id == id {
                return Some(i);
            }
            i = i + 1;
        }
        None
    }

    /// The position of the user with email `email`.
    pub fn find_user_by_email(&self, email: &String) -> (r: Option<usize>)
        ensures
            r matches Some(i) ==> i < self.users_view().len() && self.users_view()[i as int].email == email@,
            r is None ==> !has_email(self.users_view(), email@),
    {
        let mut i: usize = 0;
        while i < self.users.len()
            invariant
                i <= self.users.len(),
                forall|k: int| 0 <= k < i ==> self.users_view()[k].email != email@,
            decreases self.users.len() - i,
        {
            if self.users[i].email == *email {
                return Some(i);
            }
            i = i + 1;
        }
        None
    }

    /// The position of the post with id `id`.
    pub fn find_post(&self, id: i32) -> (r: Option<usize>)
        ensures
            r matches Some(i) ==> i < self.posts_view().len() && self.posts_view()[i as int].id == id,
            r is None ==> !has_post(self.posts_view(), id),
    {
        let mut i: usize = 0;
        while i < self.posts.len()
            invariant
                i <= self.posts.len(),
                forall|k: int| 0 <= k < i ==> self.posts_view()[k].id != id,
            decreases self.posts.len() - i,
        {
            if self.posts[i].id == id {
                return Some(i);
            }
            i = i + 1;
        }
        None
    }
}

} // verus!
