//! Post handlers: creation by a signed-in user, reads, and updates and
//! deletions behind the ownership gate.

use vstd::prelude::*;
use crate::session::ReadableSession;
use crate::state::{AppState, Post, PostView, Status, has_post, post_rows, unchanged};

verus! {

/// The post id taken from the request path.
pub struct IdPath {
    pub post_id: i32,
}

/// The body of a post creation or update.
pub struct PostForm {
    pub title: String,
    pub text: String,
}

/// The ownership gate for a post whose owner is `owner` (`None`: no such
/// post) and a caller whose identity is `identity`: `None` lets the mutation
/// go ahead, otherwise the status to answer. A missing post reports
/// `NotFound` whoever asks; then a missing identity `Unauthorized`; then
/// another user's post `Forbidden`.
pub open spec fn gate(identity: Option<u128>, owner: Option<u128>) -> Option<Status> {
    match owner {
        None => Some(Status::NotFound),
        Some(o) => match identity {
            None => Some(Status::Unauthorized),
            Some(u) => if u == o { None } else { Some(Status::Forbidden) },
        },
    }
}

/// Decides whether the caller `identity` may change a post owned by `owner`.
pub fn ownership_gate(identity: Option<u128>, owner: Option<u128>) -> (r: Option<Status>)
    ensures
        r == gate(identity, owner),
{
    match owner {
        None => Some(Status::NotFound),
        Some(o) => match identity {
            None => Some(Status::Unauthorized),
            Some(u) => if u == o { None } else { Some(Status::Forbidden) },
        },
    }
}

/// Creates a post owned by the signed-in user, under the next sequential id.
pub fn create_post(session: &ReadableSession, state: &mut AppState, payload: PostForm) -> (r: (Status, Option<Post>))
    requires
        old(state).wf(),
    ensures
        final(state).wf(),
        final(state).users_view() == old(state).users_view(),
        session.payload.id is None ==> r.0 == Status::Unauthorized,
        session.payload.id matches Some(u) && !crate::state::has_user(old(state).users_view(), u)
            ==> r.0 == Status::NotFound,
        session.payload.id matches Some(u) && crate::state::has_user(old(state).users_view(), u)
            ==> r.0 == (if old(state).next_post_id < i32::MAX { Status::Created } else { Status::InternalError }),
        r.0 != Status::Created ==> r.1 is None && unchanged(*old(state), *final(state)),
        r.0 == Status::Created ==> (r.1 matches Some(p) && p@ == (PostView {
            id: old(state).next_post_id,
            title: payload.title@,
            text: payload.text@,
            user_id: session.payload.id->Some_0,
        }) && final(state).posts_view() == old(state).posts_view().push(p@)
            && final(state).next_post_id == old(state).next_post_id + 1),
{
    let user_id = match session.current_identity() {
        None => return (Status::Unauthorized, None),
        Some(u) => u,
    };
    if state.find_user(user_id).is_none() {
        return (Status::NotFound, None);
    }
    if state.next_post_id == i32::MAX {
        return (Status::InternalError, None);
    }
    let post = Post { id: state.next_post_id, title: payload.title, text: payload.text, user_id };
    let out = post.duplicate();
    let ghost before = state.posts@;
    state.posts.push(post);
    state.next_post_id = state.next_post_id + 1;
    assert(post_rows(state.posts@) =~= post_rows(before).push(out@));
    assert forall|a: int, b: int| 0 <= a < b < state.posts_view().len() implies
        state.posts_view()[a].id != state.posts_view()[b].id by {
        assert(state.posts_view()[a] == post_rows(before)[a]);
        if b < post_rows(before).len() {
            assert(state.posts_view()[b] == post_rows(before)[b]);
        } else {
            assert(state.posts_view()[b] == out@);
        }
    }
    assert forall|a: int| 0 <= a < state.posts_view().len() implies
        state.posts_view()[a].id < state.next_post_id by {
        if a < post_rows(before).len() {
            assert(state.posts_view()[a] == post_rows(before)[a]);
        } else {
            assert(state.posts_view()[a] == out@);
        }
    }
    (Status::Created, Some(out))
}

/// All posts, in the order of the table.
pub fn get_posts(state: &AppState) -> (r: Vec<Post>)
    ensures
        post_rows(r@) == state.posts_view(),
{
    let mut out: Vec<Post> = Vec::new();
    let mut i: usize = 0;
    while i < state.posts.len()
        invariant
            i <= state.posts.len(),
            post_rows(out@) == state.posts_view().subrange(0, i as int),
        decreases state.posts.len() - i,
    {
        let p = state.posts[i].duplicate();
        let ghost prev = out@;
        out.push(p);
        assert(post_rows(out@) =~= post_rows(prev).push(p@));
        assert(state.posts_view().subrange(0, i + 1) =~= state.posts_view().subrange(0, i as int).push(p@));
        i = i + 1;
    }
    assert(state.posts_view().subrange(0, i as int) =~= state.posts_view());
    out
}

/// The post with the path's id, or `NotFound`.
pub fn get_post(state: &AppState, path: IdPath) -> (r: (Status, Option<Post>))
    ensures
        !has_post(state.posts_view(), path.post_id) ==> r.0 == Status::NotFound && r.1 is None,
        has_post(state.posts_view(), path.post_id) ==> r.0 == Status::Success && (r.1 matches Some(p)
            && p@.id == path.post_id && state.posts_view().contains(p@)),
{
    match state.find_post(path.post_id) {
        None => (Status::NotFound, None),
        Some(i) => {
            let p = state.posts[i].duplicate();
            assert(state.posts_view()[i as int] == p@);
            (Status::Success, Some(p))
        },
    }
}

/// Replaces the title and text of a post that the caller owns.
pub fn update_post(session: &ReadableSession, state: &mut AppState, path: IdPath, update: PostForm) -> (r: Status)
    requires
        old(state).wf(),
    ensures
        final(state).wf(),
        !has_post(old(state).posts_view(), path.post_id) ==> r == Status::NotFound && unchanged(*old(state), *final(state)),
        forall|i: int| 0 <= i < old(state).posts_view().len() && old(state).posts_view()[i].id == path.post_id ==>
            match gate(session.payload.id, Some(old(state).posts_view()[i].user_id)) {
                Some(s) => r == s && unchanged(*old(state), *final(state)),
                None => r == Status::NoContent && final(state).users_view() == old(state).users_view()
                    && final(state).next_post_id == old(state).next_post_id
                    && final(state).posts_view() == old(state).posts_view().update(i, PostView {
                        id: path.post_id,
                        title: update.title@,
                        text: update.text@,
                        user_id: old(state).posts_view()[i].user_id,
                    }),
            },
{
    let found = state.find_post(path.post_id);
    let owner = match found {
        None => None,
        Some(i) => Some(state.posts[i].user_id),
    };
    match ownership_gate(session.current_identity(), owner) {
        Some(s) => s,
        None => {
            let i = found.unwrap();
            let ghost before = state.posts@;
            let post = Post { id: path.post_id, title: update.title, text: update.text, user_id: state.posts[i].user_id };
            let ghost v = post@;
            state.posts.set(i, post);
            assert(post_rows(state.posts@) =~= post_rows(before).update(i as int, v));
            assert forall|a: int| 0 <= a < state.posts_view().len() implies
                state.posts_view()[a].id == post_rows(before)[a].id by {
                if a != i {
                    assert(state.posts_view()[a] == post_rows(before)[a]);
                }
            }
            assert forall|a: int, b: int| 0 <= a < b < state.posts_view().len() implies
                state.posts_view()[a].id != state.posts_view()[b].id by {
                assert(state.posts_view()[a].id == post_rows(before)[a].id);
                assert(state.posts_view()[b].id == post_rows(before)[b].id);
            }
            assert forall|a: int| 0 <= a < state.posts_view().len() implies
                state.posts_view()[a].id < state.next_post_id by {
                assert(state.posts_view()[a].id == post_rows(before)[a].id);
            }
            Status::NoContent
        },
    }
}

/// Deletes a post that the caller owns.
pub fn delete_post(session: &ReadableSession, state: &mut AppState, path: IdPath) -> (r: Status)
    requires
        old(state).wf(),
    ensures
        final(state).wf(),
        !has_post(old(state).posts_view(), path.post_id) ==> r == Status::NotFound && unchanged(*old(state), *final(state)),
        forall|i: int| 0 <= i < old(state).posts_view().len() && old(state).posts_view()[i].id == path.post_id ==>
            match gate(session.payload.id, Some(old(state).posts_view()[i].user_id)) {
                Some(s) => r == s && unchanged(*old(state), *final(state)),
                None => r == Status::NoContent && final(state).users_view() == old(state).users_view()
                    && final(state).next_post_id == old(state).next_post_id
                    && final(state).posts_view() == old(state).posts_view().remove(i),
            },
{
    let found = state.find_post(path.post_id);
    let owner = match found {
        None => None,
        Some(i) => Some(state.posts[i].user_id),
    };
    match ownership_gate(session.current_identity(), owner) {
        Some(s) => s,
        None => {
            let i = found.unwrap();
            let ghost before = state.posts@;
            state.posts.remove(i);
            assert(post_rows(state.posts@) =~= post_rows(before).remove(i as int));
            assert forall|a: int| 0 <= a < state.posts_view().len() implies
                state.posts_view()[a] == post_rows(before)[if a < i { a } else { a + 1 }] by {
                if a < i {
                    assert(state.posts_view()[a] == post_rows(before)[a]);
                } else {
                    assert(state.posts_view()[a] == post_rows(before)[a + 1]);
                }
            }
            assert forall|a: int, b: int| 0 <= a < b < state.posts_view().len() implies
                state.posts_view()[a].id != state.posts_view()[b].id by {
                let a0 = if a < i { a } else { a + 1 };
                let b0 = if b < i { b } else { b + 1 };
                assert(state.posts_view()[a] == post_rows(before)[a0]);
                assert(state.posts_view()[b] == post_rows(before)[b0]);
            }
            assert forall|a: int| 0 <= a < state.posts_view().len() implies
                state.posts_view()[a].id < state.next_post_id by {
                let a0 = if a < i { a } else { a + 1 };
                assert(state.posts_view()[a] == post_rows(before)[a0]);
            }
            Status::NoContent
        },
    }
}

/// Deleting: a caller with no identity is refused with `Unauthorized`,
/// another user with `Forbidden`, a missing post reports `NotFound` whoever
/// asks, and the owner may go ahead.
pub proof fn lemma_delete_gate(owner: u128, other: u128)
    requires
        other != owner,
    ensures
        gate(None, Some(owner)) == Some(Status::Unauthorized),
        gate(Some(other), Some(owner)) == Some(Status::Forbidden),
        gate(None, None::<u128>) == Some(Status::NotFound),
        gate(Some(other), None::<u128>) == Some(Status::NotFound),
        gate(Some(owner), Some(owner)) is None,
{
}

/// Once a post is removed from a table with unique ids, no post with its id
/// is left, so a read of that id reports `NotFound`.
pub proof fn lemma_deleted_post_is_gone(posts: Seq<PostView>, i: int)
    requires
        0 <= i < posts.len(),
        forall|a: int, b: int| 0 <= a < b < posts.len() ==> posts[a].id != posts[b].id,
    ensures
        !has_post(posts.remove(i), posts[i].id),
{
    let rest = posts.remove(i);
    assert forall|k: int| 0 <= k < rest.len() implies rest[k].id != posts[i].id by {
        if k < i {
            assert(rest[k] == posts[k]);
        } else {
            assert(rest[k] == posts[k + 1]);
        }
    }
}

} // verus!
