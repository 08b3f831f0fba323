use fediboard::post::Post;
use fediboard::store::PostError;
use fediboard::store::ThreadError;
use fediboard::store::ThreadStore;

fn post(id: u128, content: &str) -> Post {
    Post {
        id,
        name: None,
        subject: None,
        content: Some(content.to_string()),
        media_url: None,
    }
}

#[test]
fn create_issues_thread_with_single_original_post() {
    let mut store = ThreadStore::new();
    let t = store.create(5, post(100, "first")).unwrap();
    assert_eq!(t.board_id, 5);
    assert_eq!(t.posts.posts.len(), 1);
    assert_eq!(t.posts.posts[0].id, 100);
    assert_eq!(t.posts.posts[0].content.as_deref(), Some("first"));
}

#[test]
fn created_threads_get_distinct_ids() {
    let mut store = ThreadStore::new();
    let a = store.create(5, post(100, "a")).unwrap();
    let b = store.create(5, post(101, "b")).unwrap();
    let c = store.create(6, post(102, "c")).unwrap();
    assert_ne!(a.thread_id, b.thread_id);
    assert_ne!(a.thread_id, c.thread_id);
    assert_ne!(b.thread_id, c.thread_id);
}

#[test]
fn find_by_id_on_never_issued_identifier_is_not_found() {
    let store = ThreadStore::new();
    // Never an empty or default thread: the failure is the NotFound error.
    assert!(matches!(store.find_by_id(1), Err(ThreadError::NotFound)));

    let mut store = ThreadStore::new();
    let t = store.create(5, post(100, "first")).unwrap();
    assert!(store.find_by_id(t.thread_id).is_ok());
    assert!(matches!(store.find_by_id(t.thread_id + 1), Err(ThreadError::NotFound)));
}

#[test]
fn sequential_appends_keep_completion_order() {
    let mut store = ThreadStore::new();
    let t = store.create(5, post(100, "original")).unwrap();

    store.append_post(t.thread_id, post(101, "one")).unwrap();
    store.append_post(t.thread_id, post(102, "two")).unwrap();
    let last = store.append_post(t.thread_id, post(103, "three")).unwrap();

    // Original count 1 plus three appends, each standing where it finished.
    assert_eq!(last.posts.posts.len(), 4);
    assert_eq!(last.posts.posts[0].id, 100);
    assert_eq!(last.posts.posts[1].id, 101);
    assert_eq!(last.posts.posts[2].id, 102);
    assert_eq!(last.posts.posts[3].id, 103);
    assert_eq!(last.posts.posts[3].content.as_deref(), Some("three"));
}

#[test]
fn serialized_appends_lose_neither_post() {
    // Either serial order of two successful appends keeps both posts.
    for order in [[101u128, 102u128], [102u128, 101u128]] {
        let mut store = ThreadStore::new();
        let t = store.create(5, post(100, "original")).unwrap();
        store.append_post(t.thread_id, post(order[0], "a")).unwrap();
        store.append_post(t.thread_id, post(order[1], "b")).unwrap();

        let found = store.find_by_id(t.thread_id).unwrap();
        assert_eq!(found.posts.posts.len(), 3);
        assert!(found.posts.posts.iter().any(|p| p.id == 101));
        assert!(found.posts.posts.iter().any(|p| p.id == 102));
    }
}

#[test]
fn append_to_missing_thread_is_not_found() {
    let mut store = ThreadStore::new();
    let r = store.append_post(7, post(101, "reply"));
    assert!(matches!(r, Err(PostError::NotFound)));
}

#[test]
fn append_with_taken_post_id_is_store_error() {
    let mut store = ThreadStore::new();
    let t = store.create(5, post(100, "original")).unwrap();
    let r = store.append_post(t.thread_id, post(100, "imposter"));
    assert!(matches!(r, Err(PostError::StoreError)));

    // The refused append left the thread untouched.
    let found = store.find_by_id(t.thread_id).unwrap();
    assert_eq!(found.posts.posts.len(), 1);
    assert_eq!(found.posts.posts[0].content.as_deref(), Some("original"));
}

#[test]
fn identity_survives_repeated_reads_and_appends() {
    let mut store = ThreadStore::new();
    let t = store.create(5, post(100, "original")).unwrap();

    let first = store.find_by_id(t.thread_id).unwrap();
    store.append_post(t.thread_id, post(101, "reply")).unwrap();
    let second = store.find_by_id(t.thread_id).unwrap();

    assert_eq!(first.thread_id, second.thread_id);
    assert_eq!(first.board_id, second.board_id);
    assert_eq!(second.thread_id, t.thread_id);
    assert_eq!(second.board_id, 5);
}

#[test]
fn list_by_board_filters_in_creation_order() {
    let mut store = ThreadStore::new();
    let a = store.create(5, post(100, "a")).unwrap();
    let _b = store.create(6, post(101, "b")).unwrap();
    let c = store.create(5, post(102, "c")).unwrap();

    let on_five = store.list_by_board(5).unwrap();
    assert_eq!(on_five.len(), 2);
    assert_eq!(on_five[0].thread_id, a.thread_id);
    assert_eq!(on_five[1].thread_id, c.thread_id);

    let on_seven = store.list_by_board(7).unwrap();
    assert_eq!(on_seven.len(), 0);
}
