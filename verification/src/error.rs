use vstd::prelude::*;
use vstd::string::to_string_from_display_ensures;

use crate::sys::Platform;

verus! {

/// `std::io::Error`, carried through the library as an opaque value.
#[verifier::external_type_specification]
#[verifier::external_body]
pub struct ExIoError(std::io::Error);

/// Windows `ERROR_LOCK_VIOLATION`: a byte range is already locked.
pub const ERROR_LOCK_VIOLATION: i32 = 33;

/// Errors that can occur when acquiring or releasing a file lock.
#[derive(Debug)]
pub enum Error {
    /// The lock could not be acquired without blocking (non-blocking mode).
    WouldBlock,
    /// The requested locking primitive is not supported on this platform,
    /// OS version, or filesystem.
    Unsupported(&'static str),
    /// An I/O error returned by the operating system.
    Io(std::io::Error),
}

/// The raw OS code that `std::io::Error::raw_os_error` reads out of `error`.
pub uninterp spec fn os_error_code(error: std::io::Error) -> Option<i32>;

/// Whether `std::io::Error::kind` of `error` is `std::io::ErrorKind::WouldBlock`.
pub uninterp spec fn os_error_would_block(error: std::io::Error) -> bool;

/// Calls `std::io::Error::raw_os_error`; its result depends on the error
/// alone, and is named [`os_error_code`].
#[verifier::external_body]
pub(crate) fn io_error_raw_os_error(error: &std::io::Error) -> (code: Option<i32>)
    ensures
        code == os_error_code(*error),
{
    error.raw_os_error()
}

/// Calls `std::io::Error::kind` and tells whether it is
/// `std::io::ErrorKind::WouldBlock`; the answer depends on the error alone,
/// and is named [`os_error_would_block`].
#[verifier::external_body]
pub(crate) fn io_error_kind_is_would_block(error: &std::io::Error) -> (would_block: bool)
    ensures
        would_block == os_error_would_block(*error),
{
    error.kind() == std::io::ErrorKind::WouldBlock
}

/// The error that an OS failure `error` stands for, given what was read out of
/// it: whether its kind is `WouldBlock` and its raw OS code. On Windows the
/// code `ERROR_LOCK_VIOLATION` also means that the lock is contended.
pub open spec fn io_error_meaning(
    error: std::io::Error,
    kind_would_block: bool,
    raw_os_error: Option<i32>,
    platform: Platform,
) -> Error {
    if kind_would_block {
        Error::WouldBlock
    } else if platform is Windows && raw_os_error == Some(ERROR_LOCK_VIOLATION) {
        Error::WouldBlock
    } else {
        Error::Io(error)
    }
}

/// The text of `Error::WouldBlock`.
pub const WOULD_BLOCK_MESSAGE: &'static str = "lock would block: resource is already held by another lock holder";

/// The text that precedes the reason of `Error::Unsupported`.
pub const UNSUPPORTED_PREFIX: &'static str = "locking backend is not supported: ";

/// The text that precedes the description of `Error::Io`.
pub const IO_PREFIX: &'static str = "I/O error during file locking: ";

impl Error {
    /// Maps an OS failure to an error, from what was read out of it
    /// (see [`io_error_meaning`]).
    pub fn from_io_parts(
        error: std::io::Error,
        kind_would_block: bool,
        raw_os_error: Option<i32>,
        platform: &Platform,
    ) -> (mapped: Error)
        ensures
            mapped == io_error_meaning(error, kind_would_block, raw_os_error, *platform),
    {
        if kind_would_block {
            return Error::WouldBlock;
        }
        if let Platform::Windows { .. } = platform {
            if let Some(code) = raw_os_error {
                if code == ERROR_LOCK_VIOLATION {
                    return Error::WouldBlock;
                }
            }
        }
        Error::Io(error)
    }

    /// Maps an OS failure to an error: `WouldBlock` for contention, `Io`
    /// carrying the failure otherwise.
    pub fn from_io(error: std::io::Error, platform: &Platform) -> (mapped: Error)
        ensures
            mapped == io_error_meaning(
                error,
                os_error_would_block(error),
                os_error_code(error),
                *platform,
            ),
    {
        let kind_would_block = io_error_kind_is_would_block(&error);
        let raw_os_error = io_error_raw_os_error(&error);
        Self::from_io_parts(error, kind_would_block, raw_os_error, platform)
    }

    /// The human-readable description of the error: a fixed text, the
    /// reason of `Unsupported`, or the OS error's own `Display` text.
    pub fn message(&self) -> (text: String)
        ensures
            match self {
                Error::WouldBlock => text@ == WOULD_BLOCK_MESSAGE@,
                Error::Unsupported(reason) => text@ == UNSUPPORTED_PREFIX@ + reason@,
                Error::Io(e) => exists|description: String|
                    to_string_from_display_ensures::<std::io::Error>(e, description) && text@
                        == IO_PREFIX@ + description@,
            },
    {
        match self {
            Error::WouldBlock => String::from_str(WOULD_BLOCK_MESSAGE),
            Error::Unsupported(reason) => {
                let mut text = String::from_str(UNSUPPORTED_PREFIX);
                text.append(reason);
                text
            },
            Error::Io(error) => {
                let description = error.to_string();
                let mut text = String::from_str(IO_PREFIX);
                text.append(description.as_str());
                assert(to_string_from_display_ensures::<std::io::Error>(error, description)
                    && text@ == IO_PREFIX@ + description@);
                text
            },
        }
    }
}

} // verus!

verus! {

/// An OS error is contention (`WouldBlock`) when its kind says so, or on
/// Windows when its code is `ERROR_LOCK_VIOLATION`; every other OS error is
/// carried unchanged as `Io`.
pub proof fn law_only_contention_is_would_block(
    error: std::io::Error,
    kind_would_block: bool,
    raw_os_error: Option<i32>,
    platform: Platform,
)
    ensures
        kind_would_block ==> io_error_meaning(error, kind_would_block, raw_os_error, platform)
            == Error::WouldBlock,
        platform is Windows && raw_os_error == Some(ERROR_LOCK_VIOLATION) ==> io_error_meaning(
            error,
            kind_would_block,
            raw_os_error,
            platform,
        ) == Error::WouldBlock,
        !kind_would_block && !(platform is Windows && raw_os_error == Some(ERROR_LOCK_VIOLATION))
            ==> io_error_meaning(error, kind_would_block, raw_os_error, platform) == Error::Io(
            error,
        ),
        platform is Unix ==> (io_error_meaning(error, kind_would_block, raw_os_error, platform)
            == Error::WouldBlock <==> kind_would_block),
{
}

} // verus!
