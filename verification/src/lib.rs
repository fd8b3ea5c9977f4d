//! Advisory file locking: the decisions behind acquiring, converting and
//! releasing shared and exclusive locks with `flock(2)`, open-file-description
//! `fcntl(2)` locks, or `LockFileEx`, stated and proved independently of the
//! operating-system calls that carry them out.
//!
//! A request is carried out by a [`LockSession`]: the caller asks it for the
//! kernel call that is due, makes the call on its file, and hands the reply
//! back, until the session is finished. [`LockState`] is the state of a held
//! lock (its kind, back-end, and whether its guard still has to release it).

pub mod backend;
pub mod error;
pub mod lock;
pub mod options;
pub mod session;
pub mod sys;

pub use backend::LockBackend;
pub use error::{Error, ERROR_LOCK_VIOLATION, IO_PREFIX, UNSUPPORTED_PREFIX, WOULD_BLOCK_MESSAGE};
pub use lock::{LockKind, LockMode, LockState};
pub use options::LockOptions;
pub use session::LockSession;
pub use sys::unix::{OfdTarget, UnixConstants};
pub use sys::windows::WindowsConstants;
pub use sys::{OsCall, Platform, Primitive, Request, Verdict};
