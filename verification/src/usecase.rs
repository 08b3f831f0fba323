//! The use-case layer: the thin orchestration between callers and the
//! two stores. It adds nothing beyond identifier parsing and the
//! board/thread association check; store errors pass through unchanged.

use vstd::prelude::*;

use crate::board::BoardDirectory;
use crate::board::Board;
use crate::ids::fresh_post_id;
use crate::ids::parse_uuid_text;
use crate::ids::uuid_of;
use crate::post::Post;
use crate::post::ThreadCreation;
use crate::post::post_fields_match;
use crate::store::PostError;
use crate::store::Thread;
use crate::store::ThreadError;
use crate::store::ThreadStore;
use crate::store::append_step;
use crate::store::created_step;
use crate::store::on_board;
use crate::store::same_thread;
use crate::store::same_threads;

verus! {

/// What looking up thread `id` under the board named `name` must return:
/// the thread, if it exists and really belongs to that board; otherwise
/// `NotFound` — for a missing board, a missing thread, and a thread of
/// another board alike.
pub open spec fn lookup_outcome(
    store: ThreadStore,
    directory: BoardDirectory,
    id: u128,
    name: Seq<char>,
    r: Result<Thread, ThreadError>,
) -> bool {
    if !directory.has_board_named(name) {
        r == Err::<Thread, ThreadError>(ThreadError::NotFound)
    } else if !store.has_thread(id) {
        r == Err::<Thread, ThreadError>(ThreadError::NotFound)
    } else if store.spec_thread(id).board_id != directory.board_named(name).board_id {
        r == Err::<Thread, ThreadError>(ThreadError::NotFound)
    } else {
        r matches Ok(t) && same_thread(t, store.spec_thread(id))
    }
}

/// Look up an already-parsed thread identifier under the board named
/// `board_name`, checking that the thread really belongs to that board.
pub fn find_thread_in_board(
    store: &ThreadStore,
    directory: &BoardDirectory,
    thread_id: u128,
    board_name: &str,
) -> (r: Result<Thread, ThreadError>)
    requires
        store.wf(),
        directory.wf(),
    ensures
        lookup_outcome(*store, *directory, thread_id, board_name@, r),
{
    let board = match directory.find_board_by_name(board_name) {
        Ok(board) => board,
        Err(_) => {
            return Err(ThreadError::NotFound);
        },
    };
    let t = match store.find_by_id(thread_id) {
        Ok(t) => t,
        Err(e) => {
            return Err(e);
        },
    };
    if t.board_id != board.board_id {
        return Err(ThreadError::NotFound);
    }
    Ok(t)
}

/// Resolve identifier text and board name to the thread they denote.
/// Malformed identifier text fails with `IdError` before any store
/// lookup; everything else is `find_thread_in_board`.
pub fn get_thread_by_id(
    store: &ThreadStore,
    directory: &BoardDirectory,
    thread_id: &str,
    board_name: &str,
) -> (r: Result<Thread, ThreadError>)
    requires
        store.wf(),
        directory.wf(),
    ensures
        uuid_of(thread_id@) is None ==> r == Err::<Thread, ThreadError>(ThreadError::IdError),
        uuid_of(thread_id@) matches Some(id)
            ==> lookup_outcome(*store, *directory, id, board_name@, r),
{
    match parse_uuid_text(thread_id) {
        Some(id) => find_thread_in_board(store, directory, id, board_name),
        None => Err(ThreadError::IdError),
    }
}

/// List the threads of the board named `board_name`, in creation order.
/// An unknown board name fails with `NotFound`.
pub fn get_threads_by_board(
    store: &ThreadStore,
    directory: &BoardDirectory,
    board_name: &str,
) -> (r: Result<Vec<Thread>, ThreadError>)
    requires
        store.wf(),
        directory.wf(),
    ensures
        !directory.has_board_named(board_name@)
            ==> r == Err::<Vec<Thread>, ThreadError>(ThreadError::NotFound),
        directory.has_board_named(board_name@)
            ==> (r matches Ok(ts) && same_threads(
                ts@,
                store@.filter(on_board(directory.board_named(board_name@).board_id)),
            )),
{
    let board = match directory.find_board_by_name(board_name) {
        Ok(board) => board,
        Err(_) => {
            return Err(ThreadError::NotFound);
        },
    };
    store.list_by_board(board.board_id)
}

/// Create a thread on `board` whose original post carries the identifier
/// `post_id` and the supplied fields.
pub fn create_thread_with_id(
    store: &mut ThreadStore,
    board: Board,
    post_id: u128,
    thread_creation: ThreadCreation,
) -> (r: Result<Thread, ThreadError>)
    requires
        old(store).wf(),
    ensures
        final(store).wf(),
        old(store).spec_next_id() == u128::MAX
            ==> r == Err::<Thread, ThreadError>(ThreadError::StoreError)
                && ThreadStore::unchanged(*old(store), *final(store)),
        old(store).spec_next_id() < u128::MAX ==> {
            &&& r matches Ok(t)
            &&& t.thread_id == old(store).spec_next_id()
            &&& !old(store).has_thread(t.thread_id)
            &&& t.board_id == board.board_id
            &&& t.posts.posts@ =~= seq![Post::spec_from_fields(post_id, thread_creation)]
            &&& created_step(*old(store), *final(store), t)
        },
{
    let original_post = Post::from_fields(post_id, thread_creation);
    store.create(board.board_id, original_post)
}

/// Create a thread on `board`: mint a fresh identifier for the original
/// post, then create the aggregate around it. Everything but the minted
/// identifier's value is promised; barring identifier-space exhaustion,
/// success is owed.
pub fn create_thread(
    store: &mut ThreadStore,
    board: Board,
    thread_creation: ThreadCreation,
) -> (r: Result<Thread, ThreadError>)
    requires
        old(store).wf(),
    ensures
        final(store).wf(),
        old(store).spec_next_id() == u128::MAX
            ==> r == Err::<Thread, ThreadError>(ThreadError::StoreError)
                && ThreadStore::unchanged(*old(store), *final(store)),
        old(store).spec_next_id() < u128::MAX ==> {
            &&& r matches Ok(t)
            &&& t.thread_id == old(store).spec_next_id()
            &&& !old(store).has_thread(t.thread_id)
            &&& t.board_id == board.board_id
            &&& t.posts.posts@.len() == 1
            &&& post_fields_match(t.posts.posts@[0], thread_creation)
            &&& created_step(*old(store), *final(store), t)
        },
{
    let post_id = fresh_post_id();
    create_thread_with_id(store, board, post_id, thread_creation)
}

/// Append `new_post` to the thread the caller is replying to. The append
/// itself runs against the store's current post sequence for that
/// thread, never against the caller's possibly stale copy, and returns
/// the last element of the updated sequence — the new post.
pub fn post_into_thread(
    store: &mut ThreadStore,
    thread: Thread,
    new_post: Post,
) -> (r: Result<Post, PostError>)
    requires
        old(store).wf(),
    ensures
        final(store).wf(),
        !old(store).has_thread(thread.thread_id)
            ==> r == Err::<Post, PostError>(PostError::NotFound)
                && ThreadStore::unchanged(*old(store), *final(store)),
        old(store).has_thread(thread.thread_id)
            && old(store).spec_thread(thread.thread_id).has_post_id(new_post.id)
            ==> r == Err::<Post, PostError>(PostError::StoreError)
                && ThreadStore::unchanged(*old(store), *final(store)),
        old(store).has_thread(thread.thread_id)
            && !old(store).spec_thread(thread.thread_id).has_post_id(new_post.id) ==> {
            &&& append_step(old(store)@, final(store)@, thread.thread_id, new_post)
            &&& final(store).spec_next_id() == old(store).spec_next_id()
            &&& r == Ok::<Post, PostError>(new_post)
        },
{
    let mut updated = match store.append_post(thread.thread_id, new_post) {
        Ok(t) => t,
        Err(e) => {
            return Err(e);
        },
    };
    match updated.posts.posts.pop() {
        Some(p) => Ok(p),
        None => Err(PostError::StoreError),
    }
}

/// Hand out a thread's posts, in thread order.
pub fn extract_posts(thread: Thread) -> (r: Vec<Post>)
    ensures
        r@ == thread.posts.posts@,
{
    thread.posts.posts
}

/// Whether `p` is the first post of `posts` carrying `post_id`.
pub open spec fn first_post_with_id(posts: Seq<Post>, post_id: u128, p: Post) -> bool {
    exists|i: int|
        0 <= i < posts.len() && posts[i] == p && posts[i].id == post_id && (forall|j: int|
            0 <= j < i ==> posts[j].id != post_id)
}

/// Find the first post of `thread` carrying `post_id`, if any.
pub fn extract_post_by_id(post_id: u128, thread: Thread) -> (r: Option<Post>)
    ensures
        r matches Some(p) ==> first_post_with_id(thread.posts.posts@, post_id, p),
        r is Some <==> thread.has_post_id(post_id),
{
    let n = thread.posts.posts.len();
    let mut i: usize = 0;
    while i < n
        invariant
            n == thread.posts.posts.len(),
            i <= n,
            forall|j: int| 0 <= j < i ==> thread.posts.posts@[j].id != post_id,
        decreases n - i,
    {
        if thread.posts.posts[i].id == post_id {
            let p = thread.posts.posts[i].clone();
            proof {
                assert(thread.posts.posts@[i as int] == p && thread.posts.posts@[i as int].id
                    == post_id);
                assert(first_post_with_id(thread.posts.posts@, post_id, p));
                assert(thread.has_post_id(post_id));
            }
            return Some(p);
        }
        i += 1;
    }
    None
}

} // verus!
