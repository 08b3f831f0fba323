//! An imageboard core: boards hold threads, and a thread holds an ordered,
//! never-reordered sequence of posts. The thread aggregate store owns every
//! thread's post sequence and is the only writer of it; appending a post is
//! a single atomic step on the store, so no concurrent append can overwrite
//! another one's work.

pub mod board;
pub mod ids;
pub mod post;
pub mod store;
pub mod usecase;

pub use board::Board;
pub use board::BoardDirectory;
pub use board::BoardError;
pub use post::Post;
pub use post::Posts;
pub use post::ThreadCreation;
pub use store::PostError;
pub use store::Thread;
pub use store::ThreadError;
pub use store::ThreadStore;
pub use usecase::create_thread;
pub use usecase::extract_post_by_id;
pub use usecase::extract_posts;
pub use usecase::get_thread_by_id;
pub use usecase::get_threads_by_board;
pub use usecase::post_into_thread;
