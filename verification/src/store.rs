//! The thread aggregate store: the single owner of every thread's ordered
//! post sequence.
//!
//! A thread together with its posts is one consistency unit. Appending a
//! post is one atomic step on the store — it reads the current sequence,
//! never a caller-supplied snapshot — so the outcome of any two appends is
//! a serial order of the two, and neither post can be lost.

use vstd::prelude::*;

use crate::post::Post;
use crate::post::Posts;

verus! {

/// How a thread operation fails.
#[derive(Clone, Copy, Debug, PartialEq, Eq, Structural)]
pub enum ThreadError {
    /// The caller-supplied identifier text is not a valid identifier.
    IdError,
    /// The referenced board or thread does not exist.
    NotFound,
    /// The underlying store failed.
    StoreError,
}

/// How appending a post fails.
#[derive(Clone, Copy, Debug, PartialEq, Eq, Structural)]
pub enum PostError {
    /// The referenced thread does not exist.
    NotFound,
    /// The underlying store failed; here, a uniqueness violation on the
    /// new post's identifier.
    StoreError,
}

/// A thread: an aggregate of an immutable identity (its own identifier
/// and the owning board's) and the ordered sequence of its posts.
pub struct Thread {
    pub thread_id: u128,
    pub board_id: u128,
    pub posts: Posts,
}

impl Thread {
    /// A thread always holds its original post, and no two of its posts
    /// share an identifier.
    pub open spec fn wf(self) -> bool {
        &&& self.posts.posts@.len() >= 1
        &&& forall|i: int, j: int|
            0 <= i < self.posts.posts@.len() && 0 <= j < self.posts.posts@.len() && i != j
                ==> self.posts.posts@[i].id != self.posts.posts@[j].id
    }

    /// Whether one of this thread's posts carries the given identifier.
    pub open spec fn has_post_id(self, post_id: u128) -> bool {
        exists|k: int| 0 <= k < self.posts.posts@.len() && self.posts.posts@[k].id == post_id
    }
}

impl Clone for Thread {
    fn clone(&self) -> (r: Self)
        ensures
            same_thread(r, *self),
    {
        let mut copied: Vec<Post> = Vec::new();
        let n = self.posts.posts.len();
        let mut i: usize = 0;
        while i < n
            invariant
                n == self.posts.posts.len(),
                i <= n,
                copied@ =~= self.posts.posts@.take(i as int),
            decreases n - i,
        {
            copied.push(self.posts.posts[i].clone());
            i += 1;
        }
        proof {
            assert(copied@ =~= self.posts.posts@);
        }
        Thread {
            thread_id: self.thread_id,
            board_id: self.board_id,
            posts: Posts { posts: copied },
        }
    }
}

/// Two threads that agree on identity and on the whole post sequence.
/// This is equality of everything a thread consists of; it only leaves
/// open which allocation holds the posts.
pub open spec fn same_thread(a: Thread, b: Thread) -> bool {
    &&& a.thread_id == b.thread_id
    &&& a.board_id == b.board_id
    &&& a.posts.posts@ == b.posts.posts@
}

/// Elementwise `same_thread` over two sequences of threads.
pub open spec fn same_threads(a: Seq<Thread>, b: Seq<Thread>) -> bool {
    &&& a.len() == b.len()
    &&& forall|i: int| 0 <= i < a.len() ==> same_thread(a[i], b[i])
}

/// The predicate that keeps exactly the threads owned by `board_id`.
pub open spec fn on_board(board_id: u128) -> spec_fn(Thread) -> bool {
    |t: Thread| t.board_id == board_id
}

/// One successful append of `p` to the thread identified by `id`: every
/// thread with another identifier is untouched, and the identified thread
/// keeps its identity and gains exactly `p` at the end of its posts.
pub open spec fn append_step(pre: Seq<Thread>, next: Seq<Thread>, id: u128, p: Post) -> bool {
    &&& next.len() == pre.len()
    &&& forall|j: int| 0 <= j < pre.len() && pre[j].thread_id != id ==> next[j] == pre[j]
    &&& forall|j: int|
        0 <= j < pre.len() && pre[j].thread_id == id ==> {
            &&& next[j].thread_id == pre[j].thread_id
            &&& next[j].board_id == pre[j].board_id
            &&& next[j].posts.posts@ == pre[j].posts.posts@.push(p)
        }
}

/// One successful creation: the new thread `t` stands at the end of the
/// store, every existing thread is untouched, and the allocation cursor
/// has moved past the identifier just issued.
pub open spec fn created_step(pre: ThreadStore, cur: ThreadStore, t: Thread) -> bool {
    &&& cur@.len() == pre@.len() + 1
    &&& forall|j: int| 0 <= j < pre@.len() ==> cur@[j] == pre@[j]
    &&& same_thread(cur@[pre@.len() as int], t)
    &&& cur.spec_next_id() == pre.spec_next_id() + 1
}

/// A serial chain of successful appends to the thread identified by `id`,
/// one per element of `ps`, in order.
pub open spec fn append_chain(pre: Seq<Thread>, cur: Seq<Thread>, id: u128, ps: Seq<Post>) -> bool
    decreases ps.len(),
{
    if ps.len() == 0 {
        cur == pre
    } else {
        exists|mid: Seq<Thread>|
            append_chain(pre, mid, id, ps.drop_last()) && append_step(mid, cur, id, ps.last())
    }
}

/// The thread aggregate store. It allocates thread identifiers itself and
/// is the sole writer of every thread's post sequence.
pub struct ThreadStore {
    threads: Vec<Thread>,
    next_thread_id: u128,
}

impl View for ThreadStore {
    type V = Seq<Thread>;

    closed spec fn view(&self) -> Seq<Thread> {
        self.threads@
    }
}

impl ThreadStore {
    /// Thread identifiers are unique, every thread is well formed, and
    /// every issued identifier lies below the allocation cursor.
    pub open spec fn wf(self) -> bool {
        &&& forall|i: int, j: int|
            0 <= i < self@.len() && 0 <= j < self@.len() && i != j
                ==> self@[i].thread_id != self@[j].thread_id
        &&& forall|i: int| 0 <= i < self@.len() ==> self@[i].wf()
        &&& forall|i: int| 0 <= i < self@.len() ==> self@[i].thread_id < self.spec_next_id()
    }

    /// The identifier the next created thread will receive.
    pub closed spec fn spec_next_id(self) -> u128 {
        self.next_thread_id
    }

    /// Whether a thread with this identifier has been issued.
    pub open spec fn has_thread(self, id: u128) -> bool {
        exists|i: int| 0 <= i < self@.len() && self@[i].thread_id == id
    }

    /// The position of the thread with this identifier; meaningful only
    /// when `has_thread` holds, and then unique by `wf`.
    pub open spec fn spec_index_of(self, id: u128) -> int {
        choose|i: int| 0 <= i < self@.len() && self@[i].thread_id == id
    }

    /// The thread with this identifier; meaningful only when `has_thread`
    /// holds.
    pub open spec fn spec_thread(self, id: u128) -> Thread {
        self@[self.spec_index_of(id)]
    }

    /// The store and its allocation cursor are untouched.
    pub open spec fn unchanged(pre: ThreadStore, cur: ThreadStore) -> bool {
        cur@ == pre@ && cur.spec_next_id() == pre.spec_next_id()
    }

    /// An empty store. Identifier allocation starts at 1.
    pub fn new() -> (r: Self)
        ensures
            r@ =~= Seq::<Thread>::empty(),
            r.wf(),
            r.spec_next_id() == 1,
    {
        ThreadStore { threads: Vec::new(), next_thread_id: 1 }
    }

    /// The position of the thread carrying `thread_id`, if any.
    fn index_of(&self, thread_id: u128) -> (r: Option<usize>)
        requires
            self.wf(),
        ensures
            r matches Some(i)
                ==> i < self@.len() && self@[i as int].thread_id == thread_id
                    && self.has_thread(thread_id) && self.spec_index_of(thread_id) == i as int,
            r is None ==> !self.has_thread(thread_id),
    {
        let n = self.threads.len();
        let mut i: usize = 0;
        while i < n
            invariant
                self.wf(),
                n == self.threads.len(),
                i <= n,
                forall|j: int| 0 <= j < i ==> self.threads@[j].thread_id != thread_id,
            decreases n - i,
        {
            if self.threads[i].thread_id == thread_id {
                proof {
                    assert(self@[i as int].thread_id == thread_id);
                    assert(self.has_thread(thread_id));
                    let k = choose|j: int| 0 <= j < self@.len() && self@[j].thread_id == thread_id;
                    assert(k == i as int);
                }
                return Some(i);
            }
            i += 1;
        }
        None
    }

    /// Read the thread carrying `thread_id`. Fails with `NotFound` when no
    /// such thread was ever issued — never with a default or empty thread.
    /// It does not filter by board; callers that need board scoping check
    /// the returned `board_id` themselves.
    pub fn find_by_id(&self, thread_id: u128) -> (r: Result<Thread, ThreadError>)
        requires
            self.wf(),
        ensures
            self.has_thread(thread_id)
                ==> (r matches Ok(t) && same_thread(t, self.spec_thread(thread_id))),
            !self.has_thread(thread_id) ==> r == Err::<Thread, ThreadError>(ThreadError::NotFound),
    {
        match self.index_of(thread_id) {
            Some(i) => Ok(self.threads[i].clone()),
            None => Err(ThreadError::NotFound),
        }
    }

    /// List every thread belonging to `board_id`, in creation order.
    pub fn list_by_board(&self, board_id: u128) -> (r: Result<Vec<Thread>, ThreadError>)
        requires
            self.wf(),
        ensures
            r matches Ok(ts) && same_threads(ts@, self@.filter(on_board(board_id))),
    {
        let mut out: Vec<Thread> = Vec::new();
        let n = self.threads.len();
        let mut i: usize = 0;
        while i < n
            invariant
                n == self.threads.len(),
                i <= n,
                same_threads(out@, self.threads@.take(i as int).filter(on_board(board_id))),
            decreases n - i,
        {
            proof {
                broadcast use vstd::prelude::Seq::lemma_filter_push;
                broadcast use vstd::prelude::Seq::lemma_take_succ_push;

                assert(self.threads@.take(i as int).push(self.threads@[i as int]).filter(
                    on_board(board_id),
                ) == if on_board(board_id)(self.threads@[i as int]) {
                    self.threads@.take(i as int).filter(on_board(board_id)).push(
                        self.threads@[i as int],
                    )
                } else {
                    self.threads@.take(i as int).filter(on_board(board_id))
                });
            }
            if self.threads[i].board_id == board_id {
                out.push(self.threads[i].clone());
            }
            i += 1;
        }
        proof {
            assert(self.threads@.take(n as int) =~= self@);
        }
        Ok(out)
    }

    /// Create a new thread on `board_id` holding exactly the original
    /// post. The store allocates the thread identifier; the one storage
    /// failure this store can hit is exhaustion of the identifier space.
    pub fn create(&mut self, board_id: u128, original_post: Post) -> (r: Result<Thread, ThreadError>)
        requires
            old(self).wf(),
        ensures
            final(self).wf(),
            old(self).spec_next_id() == u128::MAX
                ==> r == Err::<Thread, ThreadError>(ThreadError::StoreError)
                    && ThreadStore::unchanged(*old(self), *final(self)),
            old(self).spec_next_id() < u128::MAX ==> {
                &&& r matches Ok(t)
                &&& t.thread_id == old(self).spec_next_id()
                &&& !old(self).has_thread(t.thread_id)
                &&& t.board_id == board_id
                &&& t.posts.posts@ =~= seq![original_post]
                &&& created_step(*old(self), *final(self), t)
            },
    {
        if self.next_thread_id == u128::MAX {
            return Err(ThreadError::StoreError);
        }
        let id = self.next_thread_id;
        self.next_thread_id = id + 1;
        let mut first: Vec<Post> = Vec::new();
        first.push(original_post);
        let t = Thread { thread_id: id, board_id, posts: Posts { posts: first } };
        let out = t.clone();
        self.threads.push(t);
        proof {
            assert(self@ =~= old(self)@.push(t));
            assert(t.wf());
            assert forall|p: int, q: int|
                0 <= p < self@.len() && 0 <= q < self@.len() && p != q
                implies self@[p].thread_id != self@[q].thread_id by {
                if p < old(self)@.len() && q < old(self)@.len() {
                } else {
                    assert(self@[old(self)@.len() as int].thread_id == id);
                }
            }
        }
        Ok(out)
    }

    /// Append `new_post` to the thread carrying `thread_id`, atomically
    /// against the current post sequence, and return the updated thread.
    /// Fails with `NotFound` when the thread does not exist, and with
    /// `StoreError` when the new post's identifier is already taken inside
    /// the thread; either failure leaves the store untouched.
    pub fn append_post(&mut self, thread_id: u128, new_post: Post) -> (r: Result<Thread, PostError>)
        requires
            old(self).wf(),
        ensures
            final(self).wf(),
            !old(self).has_thread(thread_id)
                ==> r == Err::<Thread, PostError>(PostError::NotFound)
                    && ThreadStore::unchanged(*old(self), *final(self)),
            old(self).has_thread(thread_id) && old(self).spec_thread(thread_id).has_post_id(new_post.id)
                ==> r == Err::<Thread, PostError>(PostError::StoreError)
                    && ThreadStore::unchanged(*old(self), *final(self)),
            old(self).has_thread(thread_id) && !old(self).spec_thread(thread_id).has_post_id(new_post.id)
                ==> {
                    &&& append_step(old(self)@, final(self)@, thread_id, new_post)
                    &&& final(self).spec_next_id() == old(self).spec_next_id()
                    &&& r matches Ok(t) && same_thread(t, final(self).spec_thread(thread_id))
                },
    {
        let i = match self.index_of(thread_id) {
            Some(i) => i,
            None => {
                return Err(PostError::NotFound);
            },
        };
        let m = self.threads[i].posts.posts.len();
        let mut k: usize = 0;
        while k < m
            invariant
                *self == *old(self),
                self.wf(),
                i < self@.len(),
                self@[i as int].thread_id == thread_id,
                self.spec_index_of(thread_id) == i as int,
                m == self@[i as int].posts.posts@.len(),
                k <= m,
                forall|j: int| 0 <= j < k ==> self@[i as int].posts.posts@[j].id != new_post.id,
            decreases m - k,
        {
            if self.threads[i].posts.posts[k].id == new_post.id {
                proof {
                    assert(self.spec_thread(thread_id).has_post_id(new_post.id));
                }
                return Err(PostError::StoreError);
            }
            k += 1;
        }
        let ghost pre = self@;
        let mut t = self.threads.remove(i);
        t.posts.posts.push(new_post);
        let out = t.clone();
        self.threads.insert(i, t);
        proof {
            assert forall|j: int| 0 <= j < pre.len() && pre[j].thread_id != thread_id
                implies self@[j] == pre[j] by {
                assert(j != i as int);
            }
            assert(append_step(pre, self@, thread_id, new_post));
            assert(self@[i as int].thread_id == thread_id);
            assert(self.has_thread(thread_id));
            let c = choose|j: int| 0 <= j < self@.len() && self@[j].thread_id == thread_id;
            assert(c == i as int);
        }
        Ok(out)
    }
}

/// Append ordering: a serial chain of `n` successful appends to one
/// thread leaves that thread with its original posts followed by the `n`
/// appended posts, in completion order — the `k`-th appended post stands
/// at position `original_count + k` — and leaves its identity untouched.
pub proof fn lemma_append_ordering(
    pre: Seq<Thread>,
    cur: Seq<Thread>,
    id: u128,
    ps: Seq<Post>,
    i: int,
)
    requires
        append_chain(pre, cur, id, ps),
        0 <= i < pre.len(),
        pre[i].thread_id == id,
    ensures
        cur.len() == pre.len(),
        cur[i].thread_id == pre[i].thread_id,
        cur[i].board_id == pre[i].board_id,
        cur[i].posts.posts@ == pre[i].posts.posts@ + ps,
        cur[i].posts.posts@.len() == pre[i].posts.posts@.len() + ps.len(),
        forall|k: int|
            0 <= k < ps.len()
                ==> cur[i].posts.posts@[pre[i].posts.posts@.len() + k] == ps[k],
    decreases ps.len(),
{
    if ps.len() == 0 {
        assert(pre[i].posts.posts@ + ps =~= pre[i].posts.posts@);
    } else {
        let mid = choose|mid: Seq<Thread>|
            append_chain(pre, mid, id, ps.drop_last()) && append_step(mid, cur, id, ps.last());
        lemma_append_ordering(pre, mid, id, ps.drop_last(), i);
        assert(pre[i].posts.posts@ + ps =~= (pre[i].posts.posts@ + ps.drop_last()).push(ps.last()));
    }
}

/// No lost update: when appends of two posts to the same thread both
/// succeed, in either serial order, the final post sequence holds both
/// posts — neither append overwrites the other's work.
pub proof fn lemma_no_lost_update(
    pre: Seq<Thread>,
    mid: Seq<Thread>,
    cur: Seq<Thread>,
    id: u128,
    a: Post,
    b: Post,
    i: int,
)
    requires
        append_step(pre, mid, id, a),
        append_step(mid, cur, id, b),
        0 <= i < pre.len(),
        pre[i].thread_id == id,
    ensures
        cur[i].posts.posts@.len() == pre[i].posts.posts@.len() + 2,
        cur[i].posts.posts@.contains(a),
        cur[i].posts.posts@.contains(b),
{
    let original = pre[i].posts.posts@;
    assert(cur[i].posts.posts@ == original.push(a).push(b));
    assert(cur[i].posts.posts@[original.len() as int] == a);
    assert(cur[i].posts.posts@[original.len() as int + 1] == b);
}

/// Identity immutability: an append never changes any thread's own
/// identifier or owning board — not of the appended-to thread, nor of any
/// other.
pub proof fn lemma_identity_immutable(pre: Seq<Thread>, cur: Seq<Thread>, id: u128, p: Post, j: int)
    requires
        append_step(pre, cur, id, p),
        0 <= j < pre.len(),
    ensures
        cur[j].thread_id == pre[j].thread_id,
        cur[j].board_id == pre[j].board_id,
{
}

} // verus!
