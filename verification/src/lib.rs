//! A minimal asynchronous task primitive.
//!
//! A [`TaskSystem`] owns a fixed pool of worker threads. Handing it a closure
//! yields a [`Task`]: a handle on which the caller polls the status of the
//! work, blocks until it is done, and takes its value out exactly once.
//!
//! The state that a handle shares with its worker is a [`TaskSharedState`].
//! Every operation on it is a verified function with an exact contract and
//! one [`Event`] in the life of the task, and the module [`lifecycle`] proves
//! what holds of every sequence of events.

pub mod status;
pub mod state;
pub mod lifecycle;
pub mod latch;
pub mod parcel;
pub mod pool;
pub mod task;
pub mod system;

pub use status::GetValueError;
pub use status::TaskStatus;
pub use state::Event;
pub use state::TaskSharedState;
pub use task::Promise;
pub use task::Task;
pub use system::TaskSystem;
