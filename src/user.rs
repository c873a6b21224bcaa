//! User handlers: sign-up, sign-in and sign-out, and reads, updates and
//! deletions of users. Passwords reach the store only as Argon2 hashes.

use vstd::prelude::*;
use crate::credential::{MAX_PASSWORD_CHARS, argon2_accepts, argon2_usable, hash_password, verify_password};
use crate::ids::random_uuid;
use crate::session::{ReadableSession, SessionPayload, WritableSession, payload_for};
use crate::state::{AppState, Status, User, UserProfile, UserView, has_email, has_user, unchanged, user_rows};

verus! {

/// The user id taken from the request path.
pub struct IdPath {
    pub user_id: u128,
}

/// The body of a sign-up, sign-in or user update: an email and a password.
pub struct UserForm {
    pub email: String,
    pub password: String,
}

/// Some user other than `id` has email `email`.
pub open spec fn email_taken_by_other(s: Seq<UserView>, email: Seq<char>, id: u128) -> bool {
    exists|j: int| 0 <= j < s.len() && s[j].email == email && s[j].id != id
}

/// The session is as it was.
pub open spec fn same_session(a: WritableSession, b: WritableSession) -> bool {
    &&& a.token == b.token
    &&& a.payload == b.payload
    &&& a.destroyed == b.destroyed
}

/// The session now names `id` as its signed-in user, all else kept.
pub open spec fn signed_in_as(a: WritableSession, b: WritableSession, id: u128) -> bool {
    &&& b.token == a.token
    &&& b.payload == (SessionPayload { id: Some(id), ..a.payload })
    &&& b.destroyed == a.destroyed
}

/// Id and email of each profile, in order.
pub open spec fn profile_pairs(s: Seq<UserProfile>) -> Seq<(u128, Seq<char>)> {
    s.map_values(|p: UserProfile| (p.id, p.email@))
}

/// Id and email of each user, in order.
pub open spec fn user_pairs(s: Seq<UserView>) -> Seq<(u128, Seq<char>)> {
    s.map_values(|u: UserView| (u.id, u.email))
}

/// Adds the user `id` with `email` and an already derived `password_hash`,
/// and signs the session in as that user. An email that is registered
/// already gives `Conflict`; an id in use gives `InternalError`.
pub fn register(
    session: &mut WritableSession,
    state: &mut AppState,
    email: String,
    password_hash: String,
    id: u128,
) -> (r: (Status, Option<UserProfile>))
    requires
        old(state).wf(),
    ensures
        final(state).wf(),
        has_email(old(state).users_view(), email@) ==> r.0 == Status::Conflict,
        !has_email(old(state).users_view(), email@) && has_user(old(state).users_view(), id)
            ==> r.0 == Status::InternalError,
        !has_email(old(state).users_view(), email@) && !has_user(old(state).users_view(), id)
            ==> r.0 == Status::Created,
        r.0 != Status::Created ==> r.1 is None && unchanged(*old(state), *final(state))
            && same_session(*old(session), *final(session)),
        r.0 == Status::Created ==> (r.1 matches Some(p) && p.id == id && p.email@ == email@)
            && final(state).users_view() == old(state).users_view().push(UserView {
                id,
                email: email@,
                password_hash: password_hash@,
            })
            && final(state).posts_view() == old(state).posts_view()
            && final(state).next_post_id == old(state).next_post_id
            && signed_in_as(*old(session), *final(session), id),
{
    if state.find_user_by_email(&email).is_some() {
        return (Status::Conflict, None);
    }
    if state.find_user(id).is_some() {
        return (Status::InternalError, None);
    }
    let user = User { id, email, password_hash };
    let profile = user.profile();
    let ghost before = state.users@;
    let ghost row = user@;
    state.users.push(user);
    assert(user_rows(state.users@) =~= user_rows(before).push(row));
    assert forall|a: int, b: int| 0 <= a < b < state.users_view().len() implies
        state.users_view()[a].id != state.users_view()[b].id
            && state.users_view()[a].email != state.users_view()[b].email by {
        assert(state.users_view()[a] == user_rows(before)[a]);
        if b < user_rows(before).len() {
            assert(state.users_view()[b] == user_rows(before)[b]);
        } else {
            assert(state.users_view()[b] == row);
        }
    }
    session.insert_id(id);
    (Status::Created, Some(profile))
}

/// Signs up: rejects a registered email with `Conflict`, else hashes the
/// password, stores the new user under a fresh random id and signs the
/// session in as that user.
pub fn create_user(session: &mut WritableSession, state: &mut AppState, payload: UserForm) -> (r: (Status, Option<UserProfile>))
    requires
        old(state).wf(),
    ensures
        final(state).wf(),
        has_email(old(state).users_view(), payload.email@) ==> r.0 == Status::Conflict,
        !has_email(old(state).users_view(), payload.email@) ==> r.0 == Status::Created || r.0 == Status::InternalError,
        r.0 != Status::Created ==> r.1 is None && unchanged(*old(state), *final(state))
            && same_session(*old(session), *final(session)),
        r.0 == Status::Created ==> (r.1 matches Some(p)
            && p.email@ == payload.email@
            && !has_user(old(state).users_view(), p.id)
            && final(state).users_view().len() == old(state).users_view().len() + 1
            && final(state).users_view().drop_last() == old(state).users_view()
            && final(state).users_view().last().id == p.id
            && final(state).users_view().last().email == payload.email@
            && argon2_accepts(payload.password@, final(state).users_view().last().password_hash)
            && signed_in_as(*old(session), *final(session), p.id))
            && final(state).posts_view() == old(state).posts_view()
            && final(state).next_post_id == old(state).next_post_id,
{
    if state.find_user_by_email(&payload.email).is_some() {
        return (Status::Conflict, None);
    }
    let password_hash = match hash_password(payload.password.as_str()) {
        Ok(h) => h,
        Err(_) => return (Status::InternalError, None),
    };
    let ghost hash_view = password_hash@;
    let id = match random_uuid() {
        Some(id) => id,
        None => return (Status::InternalError, None),
    };
    let r = register(session, state, payload.email, password_hash, id);
    if r.0 == Status::Created {
        assert(state.users_view().drop_last() =~= old(state).users_view());
        assert(state.users_view().last().password_hash == hash_view);
    }
    r
}

/// Signs in: on an email that is registered and a password that Argon2
/// accepts against its stored hash, the session is signed in as that user.
/// An unknown email and a wrong password answer the same `Unauthorized`
/// and leave the session as it was; a stored hash that cannot be used
/// answers `InternalError`.
pub fn signin(session: &mut WritableSession, state: &AppState, payload: UserForm) -> (r: Status)
    requires
        state.wf(),
    ensures
        !has_email(state.users_view(), payload.email@) ==> r == Status::Unauthorized,
        forall|i: int| 0 <= i < state.users_view().len() && state.users_view()[i].email == payload.email@ ==> {
            &&& (r == Status::NoContent) == argon2_accepts(payload.password@, state.users_view()[i].password_hash)
            &&& r == Status::NoContent ==> signed_in_as(*old(session), *final(session), state.users_view()[i].id)
            &&& argon2_usable(state.users_view()[i].password_hash)
                && !argon2_accepts(payload.password@, state.users_view()[i].password_hash)
                ==> r == Status::Unauthorized
            &&& r == Status::InternalError ==> !argon2_usable(state.users_view()[i].password_hash)
            &&& payload.password@.len() <= MAX_PASSWORD_CHARS
                && !argon2_usable(state.users_view()[i].password_hash) ==> r == Status::InternalError
        },
        r == Status::NoContent || r == Status::Unauthorized || r == Status::InternalError,
        r != Status::NoContent ==> same_session(*old(session), *final(session)),
{
    let i = match state.find_user_by_email(&payload.email) {
        None => return Status::Unauthorized,
        Some(i) => i,
    };
    let user = &state.users[i];
    match verify_password(payload.password.as_str(), user.password_hash.as_str()) {
        Ok(true) => {
            session.insert_id(user.id);
            Status::NoContent
        },
        Ok(false) => Status::Unauthorized,
        Err(_) => Status::InternalError,
    }
}

/// Signs out: the session is destroyed, whether or not it was live.
pub fn signout(session: &mut WritableSession) -> (r: Status)
    ensures
        r == Status::NoContent,
        final(session).destroyed,
        final(session).token == old(session).token,
        final(session).payload == old(session).payload,
{
    session.destroy();
    Status::NoContent
}

/// The profile of the signed-in user.
pub fn get_current_user(session: &ReadableSession, state: &AppState) -> (r: (Status, Option<UserProfile>))
    ensures
        session.payload.id is None ==> r.0 == Status::Unauthorized && r.1 is None,
        session.payload.id matches Some(u) && !has_user(state.users_view(), u)
            ==> r.0 == Status::NotFound && r.1 is None,
        session.payload.id is Some && has_user(state.users_view(), session.payload.id->Some_0)
            ==> r.0 == Status::Success && (r.1 matches Some(p) && p.id == session.payload.id->Some_0
                && user_pairs(state.users_view()).contains((p.id, p.email@))),
{
    match session.current_identity() {
        None => (Status::Unauthorized, None),
        Some(u) => get_user(state, IdPath { user_id: u }),
    }
}

/// The profiles of all users, in the order of the table.
pub fn get_users(state: &AppState) -> (r: Vec<UserProfile>)
    ensures
        profile_pairs(r@) == user_pairs(state.users_view()),
{
    let mut out: Vec<UserProfile> = Vec::new();
    let mut i: usize = 0;
    while i < state.users.len()
        invariant
            i <= state.users.len(),
            profile_pairs(out@) == user_pairs(state.users_view()).subrange(0, i as int),
        decreases state.users.len() - i,
    {
        let p = state.users[i].profile();
        let ghost prev = out@;
        out.push(p);
        assert(profile_pairs(out@) =~= profile_pairs(prev).push((p.id, p.email@)));
        assert(user_pairs(state.users_view()).subrange(0, i + 1)
            =~= user_pairs(state.users_view()).subrange(0, i as int).push((p.id, p.email@)));
        i = i + 1;
    }
    assert(user_pairs(state.users_view()).subrange(0, i as int) =~= user_pairs(state.users_view()));
    out
}

/// The profile of the user with the path's id, or `NotFound`.
pub fn get_user(state: &AppState, path: IdPath) -> (r: (Status, Option<UserProfile>))
    ensures
        !has_user(state.users_view(), path.user_id) ==> r.0 == Status::NotFound && r.1 is None,
        has_user(state.users_view(), path.user_id) ==> r.0 == Status::Success && (r.1 matches Some(p)
            && p.id == path.user_id && user_pairs(state.users_view()).contains((path.user_id, p.email@))),
{
    match state.find_user(path.user_id) {
        None => (Status::NotFound, None),
        Some(i) => {
            let p = state.users[i].profile();
            assert(user_pairs(state.users_view())[i as int] == (p.id, p.email@));
            (Status::Success, Some(p))
        },
    }
}

/// Sets the email of the user at `i`, and its hash when `new_hash` holds
/// one; `Conflict` when another user has that email.
pub fn apply_user_update(state: &mut AppState, i: usize, email: String, new_hash: Option<String>) -> (r: Status)
    requires
        old(state).wf(),
        i < old(state).users_view().len(),
    ensures
        final(state).wf(),
        email_taken_by_other(old(state).users_view(), email@, old(state).users_view()[i as int].id)
            ==> r == Status::Conflict && unchanged(*old(state), *final(state)),
        !email_taken_by_other(old(state).users_view(), email@, old(state).users_view()[i as int].id)
            ==> r == Status::NoContent
            && final(state).posts_view() == old(state).posts_view()
            && final(state).next_post_id == old(state).next_post_id
            && final(state).users_view() == old(state).users_view().update(i as int, UserView {
                id: old(state).users_view()[i as int].id,
                email: email@,
                password_hash: match new_hash {
                    Some(h) => h@,
                    None => old(state).users_view()[i as int].password_hash,
                },
            }),
{
    let id = state.users[i].id;
    if email_taken(state, i, &email) {
        return Status::Conflict;
    }
    let password_hash = match new_hash {
        Some(h) => h,
        None => state.users[i].password_hash.clone(),
    };
    let user = User { id, email, password_hash };
    let ghost before = state.users@;
    let ghost row = user@;
    state.users.set(i, user);
    assert(user_rows(state.users@) =~= user_rows(before).update(i as int, row));
    assert forall|a: int, b: int| 0 <= a < b < state.users_view().len() implies
        state.users_view()[a].id != state.users_view()[b].id
            && state.users_view()[a].email != state.users_view()[b].email by {
        if a != i {
            assert(state.users_view()[a] == user_rows(before)[a]);
        }
        if b != i {
            assert(state.users_view()[b] == user_rows(before)[b]);
        }
    }
    Status::NoContent
}

/// Updates the signed-in user's email, and its password when the new one is
/// not empty; the password is stored only as a fresh hash.
pub fn update_current_user(session: &ReadableSession, state: &mut AppState, update: UserForm) -> (r: Status)
    requires
        old(state).wf(),
    ensures
        final(state).wf(),
        final(state).posts_view() == old(state).posts_view(),
        final(state).next_post_id == old(state).next_post_id,
        r != Status::NoContent ==> unchanged(*old(state), *final(state)),
        r == Status::InternalError ==> update.password@.len() > 0,
        session.payload.id is None ==> r == Status::Unauthorized,
        session.payload.id matches Some(u) && !has_user(old(state).users_view(), u) ==> r == Status::NotFound,
        forall|i: int| 0 <= i < old(state).users_view().len() && session.payload.id == Some(old(state).users_view()[i].id) ==> {
            &&& email_taken_by_other(old(state).users_view(), update.email@, old(state).users_view()[i].id)
                ==> r == Status::Conflict
            &&& !email_taken_by_other(old(state).users_view(), update.email@, old(state).users_view()[i].id)
                ==> r == Status::NoContent || r == Status::InternalError
            &&& update.password@.len() == 0
                && !email_taken_by_other(old(state).users_view(), update.email@, old(state).users_view()[i].id)
                ==> r == Status::NoContent
            &&& r == Status::NoContent ==> final(state).users_view().len() == old(state).users_view().len()
                && (forall|k: int| 0 <= k < old(state).users_view().len() && k != i
                    ==> final(state).users_view()[k] == old(state).users_view()[k])
                && final(state).users_view()[i].id == old(state).users_view()[i].id
                && final(state).users_view()[i].email == update.email@
                && (update.password@.len() == 0 ==> final(state).users_view()[i].password_hash
                    == old(state).users_view()[i].password_hash)
                && (update.password@.len() > 0 ==> argon2_accepts(update.password@, final(state).users_view()[i].password_hash))
        },
{
    let u = match session.current_identity() {
        None => return Status::Unauthorized,
        Some(u) => u,
    };
    let i = match state.find_user(u) {
        None => return Status::NotFound,
        Some(i) => i,
    };
    assert forall|k: int| 0 <= k < state.users_view().len() && state.users_view()[k].id == u implies k == i by {}
    let new_hash = if update.password.as_str().is_empty() {
        None
    } else {
        match hash_password(update.password.as_str()) {
            Ok(h) => Some(h),
            Err(_) => {
                if email_taken(state, i, &update.email) {
                    return Status::Conflict;
                }
                return Status::InternalError;
            },
        }
    };
    apply_user_update(state, i, update.email, new_hash)
}

/// Whether another user than the one at `i` has email `email`.
fn email_taken(state: &AppState, i: usize, email: &String) -> (r: bool)
    requires
        state.wf(),
        i < state.users_view().len(),
    ensures
        r == email_taken_by_other(state.users_view(), email@, state.users_view()[i as int].id),
{
    match state.find_user_by_email(email) {
        Some(j) => {
            if state.users[j].id != state.users[i].id {
                true
            } else {
                assert forall|k: int| 0 <= k < state.users_view().len() && state.users_view()[k].email == email@
                    implies state.users_view()[k].id == state.users_view()[i as int].id by {
                }
                false
            }
        },
        None => false,
    }
}

/// Updates the email and password of the user with the path's id; the
/// password is stored only as a fresh hash. No identity is checked here:
/// this is an administrative operation, and whoever exposes it must gate it.
/// `update_current_user` is the path for a signed-in user.
pub fn update_user(state: &mut AppState, path: IdPath, update: UserForm) -> (r: Status)
    requires
        old(state).wf(),
    ensures
        final(state).wf(),
        final(state).posts_view() == old(state).posts_view(),
        final(state).next_post_id == old(state).next_post_id,
        r != Status::NoContent ==> unchanged(*old(state), *final(state)),
        !has_user(old(state).users_view(), path.user_id) ==> r == Status::NotFound,
        forall|i: int| 0 <= i < old(state).users_view().len() && old(state).users_view()[i].id == path.user_id ==> {
            &&& email_taken_by_other(old(state).users_view(), update.email@, path.user_id) ==> r == Status::Conflict
            &&& !email_taken_by_other(old(state).users_view(), update.email@, path.user_id)
                ==> r == Status::NoContent || r == Status::InternalError
            &&& r == Status::NoContent ==> final(state).users_view().len() == old(state).users_view().len()
                && (forall|k: int| 0 <= k < old(state).users_view().len() && k != i
                    ==> final(state).users_view()[k] == old(state).users_view()[k])
                && final(state).users_view()[i].id == path.user_id
                && final(state).users_view()[i].email == update.email@
                && argon2_accepts(update.password@, final(state).users_view()[i].password_hash)
        },
{
    let i = match state.find_user(path.user_id) {
        None => return Status::NotFound,
        Some(i) => i,
    };
    assert forall|k: int| 0 <= k < state.users_view().len() && state.users_view()[k].id == path.user_id implies k == i by {}
    if email_taken(state, i, &update.email) {
        return Status::Conflict;
    }
    match hash_password(update.password.as_str()) {
        Ok(h) => apply_user_update(state, i, update.email, Some(h)),
        Err(_) => Status::InternalError,
    }
}

/// Deletes the user with the path's id. No identity is checked here: this
/// is an administrative operation, and whoever exposes it must gate it.
pub fn delete_user(state: &mut AppState, path: IdPath) -> (r: Status)
    requires
        old(state).wf(),
    ensures
        final(state).wf(),
        final(state).posts_view() == old(state).posts_view(),
        final(state).next_post_id == old(state).next_post_id,
        !has_user(old(state).users_view(), path.user_id) ==> r == Status::NotFound
            && unchanged(*old(state), *final(state)),
        forall|i: int| 0 <= i < old(state).users_view().len() && old(state).users_view()[i].id == path.user_id
            ==> r == Status::NoContent && final(state).users_view() == old(state).users_view().remove(i),
{
    let i = match state.find_user(path.user_id) {
        None => return Status::NotFound,
        Some(i) => i,
    };
    assert forall|k: int| 0 <= k < state.users_view().len() && state.users_view()[k].id == path.user_id implies k == i by {}
    let ghost before = state.users@;
    state.users.remove(i);
    assert(user_rows(state.users@) =~= user_rows(before).remove(i as int));
    assert forall|a: int, b: int| 0 <= a < b < state.users_view().len() implies
        state.users_view()[a].id != state.users_view()[b].id
            && state.users_view()[a].email != state.users_view()[b].email by {
        let a0 = if a < i { a } else { a + 1 };
        let b0 = if b < i { b } else { b + 1 };
        assert(state.users_view()[a] == user_rows(before)[a0]);
        assert(state.users_view()[b] == user_rows(before)[b0]);
    }
    Status::NoContent
}

/// A user who has just signed up is signed in: once the session is saved
/// under its token, a read of that token resolves to the new user's id.
pub proof fn lemma_signup_session_resolves(
    before: WritableSession,
    after: WritableSession,
    id: u128,
    store: Map<u128, SessionPayload>,
    token: u128,
)
    requires
        signed_in_as(before, after, id),
    ensures
        payload_for(store.insert(token, after.payload), Some(token)).id == Some(id),
{
}

/// Once a user with `row.email` is added, that email is registered, so a
/// second sign-up with it is refused with `Conflict`.
pub proof fn lemma_second_signup_conflicts(users: Seq<UserView>, row: UserView)
    ensures
        has_email(users.push(row), row.email),
{
    assert(users.push(row)[users.len() as int] == row);
}

/// A user stored with a hash that Argon2 accepts for `password` can sign in
/// with that email and password: in a table with unique emails, the only
/// user with that email is the one added.
pub proof fn lemma_signup_then_signin(users: Seq<UserView>, row: UserView, password: Seq<char>)
    requires
        !has_email(users, row.email),
        argon2_accepts(password, row.password_hash),
    ensures
        forall|i: int| 0 <= i < users.push(row).len() && users.push(row)[i].email == row.email
            ==> argon2_accepts(password, #[trigger] users.push(row)[i].password_hash),
{
    assert forall|i: int| 0 <= i < users.push(row).len() && users.push(row)[i].email == row.email
        implies argon2_accepts(password, #[trigger] users.push(row)[i].password_hash) by {
        if i < users.len() {
            assert(users.push(row)[i] == users[i]);
        }
    }
}

} // verus!
