use starter_rust_rest_api::counter::{display_handler, increment_handler, reset_handler};
use starter_rust_rest_api::post::{
    create_post, delete_post, get_post, get_posts, ownership_gate, update_post, IdPath as PostId, PostForm,
};
use starter_rust_rest_api::session::MemoryStore;
use starter_rust_rest_api::state::{AppState, Status};
use starter_rust_rest_api::user::{
    create_user, delete_user, get_current_user, get_user, get_users, register, signin, signout,
    update_current_user, update_user, IdPath as UserId, UserForm,
};

fn form(email: &str, password: &str) -> UserForm {
    UserForm { email: email.to_string(), password: password.to_string() }
}

fn post_form(title: &str, text: &str) -> PostForm {
    PostForm { title: title.to_string(), text: text.to_string() }
}

/// Registers a user with a placeholder hash and returns a signed-in token.
fn sign_up_plain(store: &mut MemoryStore, state: &mut AppState, email: &str, id: u128) -> u128 {
    let mut s = store.writable(None);
    let (st, _) = register(&mut s, state, email.to_string(), "h".to_string(), id);
    assert_eq!(st, Status::Created);
    store.commit(s).unwrap()
}

#[test]
fn signup_signs_in_and_duplicate_conflicts() {
    let mut store = MemoryStore::new();
    let mut state = AppState::new();
    let mut s = store.writable(None);
    let (st, profile) = create_user(&mut s, &mut state, form("a@x.com", "pw"));
    assert_eq!(st, Status::Created);
    let profile = profile.unwrap();
    assert_eq!(profile.email, "a@x.com");
    let token = store.commit(s).unwrap();
    let r = store.readable(Some(token));
    assert_eq!(r.current_identity(), Some(profile.id));
    assert_ne!(state.users[0].password_hash, "pw");

    let mut s2 = store.writable(None);
    let (st2, p2) = create_user(&mut s2, &mut state, form("a@x.com", "other"));
    assert_eq!(st2, Status::Conflict);
    assert!(p2.is_none());
    assert_eq!(s2.payload.id, None);
    assert_eq!(state.users.len(), 1);
}

#[test]
fn signin_unknown_email_and_wrong_password_look_alike() {
    let mut store = MemoryStore::new();
    let mut state = AppState::new();
    let mut s = store.writable(None);
    create_user(&mut s, &mut state, form("a@x.com", "pw"));

    let mut s1 = store.writable(None);
    let unknown = signin(&mut s1, &state, form("b@x.com", "pw"));
    let mut s2 = store.writable(None);
    let wrong = signin(&mut s2, &state, form("a@x.com", "nope"));
    assert_eq!(unknown, Status::Unauthorized);
    assert_eq!(wrong, Status::Unauthorized);
    assert_eq!(unknown.code(), wrong.code());
    assert_eq!(s1.payload.id, None);
    assert_eq!(s2.payload.id, None);
}

#[test]
fn signin_with_right_password() {
    let mut store = MemoryStore::new();
    let mut state = AppState::new();
    let mut s = store.writable(None);
    let (_, p) = create_user(&mut s, &mut state, form("a@x.com", "pw"));
    let mut s2 = store.writable(None);
    assert_eq!(signin(&mut s2, &state, form("a@x.com", "pw")), Status::NoContent);
    assert_eq!(s2.payload.id, Some(p.unwrap().id));
}

#[test]
fn signin_with_corrupt_hash_is_internal_error() {
    let mut store = MemoryStore::new();
    let mut state = AppState::new();
    sign_up_plain(&mut store, &mut state, "a@x.com", 1);
    let mut s = store.writable(None);
    assert_eq!(signin(&mut s, &state, form("a@x.com", "pw")), Status::InternalError);
    assert_eq!(s.payload.id, None);
}

#[test]
fn signout_clears_identity_and_repeats() {
    let mut store = MemoryStore::new();
    let mut state = AppState::new();
    let token = sign_up_plain(&mut store, &mut state, "a@x.com", 5);
    assert_eq!(store.readable(Some(token)).current_identity(), Some(5));
    let mut s = store.writable(Some(token));
    assert_eq!(signout(&mut s), Status::NoContent);
    assert_eq!(store.commit(s), None);
    assert_eq!(store.readable(Some(token)).current_identity(), None);
    let mut again = store.writable(Some(token));
    assert_eq!(signout(&mut again), Status::NoContent);
    assert_eq!(store.commit(again), None);
    assert_eq!(store.load(token), None);
}

#[test]
fn delete_post_ownership() {
    let mut store = MemoryStore::new();
    let mut state = AppState::new();
    let owner = sign_up_plain(&mut store, &mut state, "a@x.com", 1);
    let other = sign_up_plain(&mut store, &mut state, "b@x.com", 2);
    let (st, post) = create_post(&store.readable(Some(owner)), &mut state, post_form("t", "x"));
    assert_eq!(st, Status::Created);
    let post = post.unwrap();
    assert_eq!(post.id, 1);
    assert_eq!(post.user_id, 1);

    let anon = store.readable(None);
    assert_eq!(delete_post(&anon, &mut state, PostId { post_id: post.id }), Status::Unauthorized);
    let stranger = store.readable(Some(other));
    assert_eq!(delete_post(&stranger, &mut state, PostId { post_id: post.id }), Status::Forbidden);
    assert_eq!(delete_post(&anon, &mut state, PostId { post_id: 99 }), Status::NotFound);
    assert_eq!(delete_post(&stranger, &mut state, PostId { post_id: 99 }), Status::NotFound);
    assert_eq!(get_posts(&state).len(), 1);

    let mine = store.readable(Some(owner));
    assert_eq!(delete_post(&mine, &mut state, PostId { post_id: post.id }), Status::NoContent);
    let (gst, gp) = get_post(&state, PostId { post_id: post.id });
    assert_eq!(gst, Status::NotFound);
    assert!(gp.is_none());
}

#[test]
fn create_post_needs_identity_and_user() {
    let mut store = MemoryStore::new();
    let mut state = AppState::new();
    let (st, p) = create_post(&store.readable(None), &mut state, post_form("t", "x"));
    assert_eq!(st, Status::Unauthorized);
    assert!(p.is_none());
    let token = sign_up_plain(&mut store, &mut state, "a@x.com", 3);
    assert_eq!(delete_user(&mut state, UserId { user_id: 3 }), Status::NoContent);
    let (st2, _) = create_post(&store.readable(Some(token)), &mut state, post_form("t", "x"));
    assert_eq!(st2, Status::NotFound);
    assert!(get_posts(&state).is_empty());
}

#[test]
fn post_ids_are_sequential() {
    let mut store = MemoryStore::new();
    let mut state = AppState::new();
    let token = sign_up_plain(&mut store, &mut state, "a@x.com", 3);
    let r = store.readable(Some(token));
    let (_, a) = create_post(&r, &mut state, post_form("one", "1"));
    let (_, b) = create_post(&r, &mut state, post_form("two", "2"));
    assert_eq!(a.unwrap().id, 1);
    assert_eq!(b.unwrap().id, 2);
    let all = get_posts(&state);
    assert_eq!(all.len(), 2);
    assert_eq!(all[1].title, "two");
    assert_eq!(all[1].text, "2");
}

#[test]
fn post_ids_exhausted() {
    let mut store = MemoryStore::new();
    let mut state = AppState::new();
    let token = sign_up_plain(&mut store, &mut state, "a@x.com", 3);
    state.next_post_id = i32::MAX;
    let (st, p) = create_post(&store.readable(Some(token)), &mut state, post_form("t", "x"));
    assert_eq!(st, Status::InternalError);
    assert!(p.is_none());
}

#[test]
fn update_post_ownership() {
    let mut store = MemoryStore::new();
    let mut state = AppState::new();
    let owner = sign_up_plain(&mut store, &mut state, "a@x.com", 1);
    let other = sign_up_plain(&mut store, &mut state, "b@x.com", 2);
    let (_, post) = create_post(&store.readable(Some(owner)), &mut state, post_form("t", "x"));
    let id = post.unwrap().id;
    assert_eq!(update_post(&store.readable(None), &mut state, PostId { post_id: 5 }, post_form("a", "b")), Status::NotFound);
    assert_eq!(update_post(&store.readable(None), &mut state, PostId { post_id: id }, post_form("a", "b")), Status::Unauthorized);
    assert_eq!(update_post(&store.readable(Some(other)), &mut state, PostId { post_id: id }, post_form("a", "b")), Status::Forbidden);
    assert_eq!(update_post(&store.readable(Some(owner)), &mut state, PostId { post_id: id }, post_form("new", "body")), Status::NoContent);
    let (st, p) = get_post(&state, PostId { post_id: id });
    assert_eq!(st, Status::Success);
    let p = p.unwrap();
    assert_eq!(p.title, "new");
    assert_eq!(p.text, "body");
    assert_eq!(p.user_id, 1);
}

#[test]
fn gate_order() {
    assert_eq!(ownership_gate(None, None), Some(Status::NotFound));
    assert_eq!(ownership_gate(Some(1), None), Some(Status::NotFound));
    assert_eq!(ownership_gate(None, Some(1)), Some(Status::Unauthorized));
    assert_eq!(ownership_gate(Some(2), Some(1)), Some(Status::Forbidden));
    assert_eq!(ownership_gate(Some(1), Some(1)), None);
}

#[test]
fn current_user_and_lookup() {
    let mut store = MemoryStore::new();
    let mut state = AppState::new();
    let (st, p) = get_current_user(&store.readable(None), &state);
    assert_eq!(st, Status::Unauthorized);
    assert!(p.is_none());
    let token = sign_up_plain(&mut store, &mut state, "a@x.com", 7);
    let (st, p) = get_current_user(&store.readable(Some(token)), &state);
    assert_eq!(st, Status::Success);
    assert_eq!(p.unwrap().email, "a@x.com");
    let (st, _) = get_user(&state, UserId { user_id: 8 });
    assert_eq!(st, Status::NotFound);
    let (st, p) = get_user(&state, UserId { user_id: 7 });
    assert_eq!(st, Status::Success);
    assert_eq!(p.unwrap().id, 7);
    delete_user(&mut state, UserId { user_id: 7 });
    let (st, _) = get_current_user(&store.readable(Some(token)), &state);
    assert_eq!(st, Status::NotFound);
}

#[test]
fn list_users_in_order() {
    let mut store = MemoryStore::new();
    let mut state = AppState::new();
    sign_up_plain(&mut store, &mut state, "a@x.com", 1);
    sign_up_plain(&mut store, &mut state, "b@x.com", 2);
    let all = get_users(&state);
    assert_eq!(all.len(), 2);
    assert_eq!(all[0].id, 1);
    assert_eq!(all[1].email, "b@x.com");
}

#[test]
fn register_refuses_taken_id() {
    let mut store = MemoryStore::new();
    let mut state = AppState::new();
    sign_up_plain(&mut store, &mut state, "a@x.com", 1);
    let mut s = store.writable(None);
    let (st, p) = register(&mut s, &mut state, "b@x.com".to_string(), "h".to_string(), 1);
    assert_eq!(st, Status::InternalError);
    assert!(p.is_none());
    assert_eq!(s.payload.id, None);
}

#[test]
fn update_current_user_rehashes() {
    let mut store = MemoryStore::new();
    let mut state = AppState::new();
    let token = sign_up_plain(&mut store, &mut state, "a@x.com", 1);
    sign_up_plain(&mut store, &mut state, "b@x.com", 2);
    assert_eq!(update_current_user(&store.readable(None), &mut state, form("c@x.com", "")), Status::Unauthorized);
    let me = store.readable(Some(token));
    assert_eq!(update_current_user(&me, &mut state, form("b@x.com", "")), Status::Conflict);
    assert_eq!(update_current_user(&me, &mut state, form("c@x.com", "")), Status::NoContent);
    assert_eq!(state.users[0].email, "c@x.com");
    assert_eq!(state.users[0].password_hash, "h");
    assert_eq!(update_current_user(&me, &mut state, form("c@x.com", "new")), Status::NoContent);
    assert_ne!(state.users[0].password_hash, "new");
    let mut s = store.writable(None);
    assert_eq!(signin(&mut s, &state, form("c@x.com", "new")), Status::NoContent);
    assert_eq!(s.payload.id, Some(1));
}

#[test]
fn update_user_by_id() {
    let mut store = MemoryStore::new();
    let mut state = AppState::new();
    sign_up_plain(&mut store, &mut state, "a@x.com", 1);
    sign_up_plain(&mut store, &mut state, "b@x.com", 2);
    assert_eq!(update_user(&mut state, UserId { user_id: 9 }, form("z@x.com", "p")), Status::NotFound);
    assert_eq!(update_user(&mut state, UserId { user_id: 2 }, form("a@x.com", "p")), Status::Conflict);
    assert_eq!(update_user(&mut state, UserId { user_id: 2 }, form("b2@x.com", "p")), Status::NoContent);
    assert_eq!(state.users[1].email, "b2@x.com");
    assert_ne!(state.users[1].password_hash, "p");
    let mut s = store.writable(None);
    assert_eq!(signin(&mut s, &state, form("b2@x.com", "p")), Status::NoContent);
}

#[test]
fn delete_user_by_id() {
    let mut store = MemoryStore::new();
    let mut state = AppState::new();
    sign_up_plain(&mut store, &mut state, "a@x.com", 1);
    assert_eq!(delete_user(&mut state, UserId { user_id: 2 }), Status::NotFound);
    assert_eq!(delete_user(&mut state, UserId { user_id: 1 }), Status::NoContent);
    assert!(get_users(&state).is_empty());
}

#[test]
fn status_codes() {
    assert_eq!(Status::Success.code(), 200);
    assert_eq!(Status::Created.code(), 201);
    assert_eq!(Status::NoContent.code(), 204);
    assert_eq!(Status::BadRequest.code(), 400);
    assert_eq!(Status::Unauthorized.code(), 401);
    assert_eq!(Status::Forbidden.code(), 403);
    assert_eq!(Status::NotFound.code(), 404);
    assert_eq!(Status::Conflict.code(), 409);
    assert_eq!(Status::InternalError.code(), 500);
}

#[test]
fn counter_counts_and_resets() {
    let mut store = MemoryStore::new();
    assert_eq!(display_handler(&store.readable(None)), 0);
    let mut s = store.writable(None);
    assert_eq!(increment_handler(&mut s), 1);
    let token = store.commit(s).unwrap();
    let mut s = store.writable(Some(token));
    assert_eq!(increment_handler(&mut s), 2);
    store.commit(s);
    assert_eq!(display_handler(&store.readable(Some(token))), 2);
    let mut s = store.writable(Some(token));
    reset_handler(&mut s);
    store.commit(s);
    assert_eq!(display_handler(&store.readable(Some(token))), 0);
}

#[test]
fn counter_wraps_at_max() {
    let mut store = MemoryStore::new();
    let mut s = store.writable(None);
    s.insert_count(i32::MAX);
    assert_eq!(increment_handler(&mut s), i32::MIN);
    assert!(store.commit(s).is_some());
}
