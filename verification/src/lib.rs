//! An in-memory record store with a change-watch mechanism.
//!
//! Records are filed under numeric identifiers and mutated only through a
//! small set of atomic operations; subscribers observe a record through a
//! polling session that reports the latest value after each change and
//! ends when the record is removed or the subscriber stops reading.

pub mod record;
pub mod store;
pub mod watch;

pub use record::Todo;
pub use record::TodoView;
pub use store::StoreError;
pub use store::TodoChangeResponse;
pub use store::TodoStore;
pub use watch::PollAction;
pub use watch::SessionState;
pub use watch::WatchSession;
