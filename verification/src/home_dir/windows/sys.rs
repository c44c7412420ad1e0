use vstd::prelude::*;

use crate::home_dir::buffer::{double_capacity, doubled, units_until_nul, wide_c_string};
use crate::home_dir::error::{Failure, HomeDirError};

verus! {

/// What follows an attempt at a native call that fills a buffer.
#[derive(Clone, Copy, Debug, PartialEq, Eq, Structural)]
pub enum Attempt {
    /// The call succeeded, and the first `len` units of the buffer are its answer.
    Done { len: usize },
    /// The buffer was too small: make the same call with one of `capacity` units.
    Retry { capacity: usize },
    /// The call failed: with the system's error `errnum`, or in a way that has no code.
    Fail { errnum: Option<u32> },
}

/// The size in bytes of a buffer of `capacity` process identifiers, as the system
/// takes it: `None` where 32 bits do not hold it.
pub fn process_list_bytes(capacity: usize) -> (bytes: Option<u32>)
    ensures
        bytes == (if 4 * capacity <= u32::MAX { Some((4 * capacity) as u32) } else { None }),
{
    if capacity <= (u32::MAX / 4) as usize {
        Some((4 * capacity) as u32)
    } else {
        None
    }
}

/// What follows a listing of the process identifiers into a buffer of `capacity`
/// identifiers, `given` bytes in all, of which the system filled `filled`.
///
/// The system does not say when the list was cut short, so a buffer that came back
/// full is taken to be too small and is doubled.
pub open spec fn process_list_outcome(ok: bool, last_error: u32, capacity: usize, given: u32, filled: u32) -> Attempt {
    if !ok {
        Attempt::Fail { errnum: Some(last_error) }
    } else if filled == given {
        if doubled(capacity as nat) <= usize::MAX {
            Attempt::Retry { capacity: doubled(capacity as nat) as usize }
        } else {
            Attempt::Fail { errnum: None }
        }
    } else if filled / 4 <= capacity {
        Attempt::Done { len: (filled / 4) as usize }
    } else {
        Attempt::Fail { errnum: None }
    }
}

/// What follows a listing of the process identifiers.
pub fn enum_processes(ok: bool, last_error: u32, capacity: usize, given: u32, filled: u32) -> (next: Attempt)
    ensures
        next == process_list_outcome(ok, last_error, capacity, given, filled),
{
    if !ok {
        Attempt::Fail { errnum: Some(last_error) }
    } else if filled == given {
        match double_capacity(capacity) {
            Some(grown) => Attempt::Retry { capacity: grown },
            None => Attempt::Fail { errnum: None },
        }
    } else if (filled / 4) as usize <= capacity {
        Attempt::Done { len: (filled / 4) as usize }
    } else {
        Attempt::Fail { errnum: None }
    }
}

/// What follows a call that reports the size it needs: a profile directory, the user
/// of a token, the name of an account.
///
/// On success the answer is the first `reported` units. Where the system says that
/// the buffer is too small, the buffer is made as large as it reports to need; a report
/// that asks for no more than the buffer already has cannot be met by growing, and is a
/// failure without a code. Every other failure carries the system's code.
pub open spec fn sized_outcome(ok: bool, last_error: u32, insufficient: u32, capacity: usize, reported: u32) -> Attempt {
    if ok {
        if reported <= capacity {
            Attempt::Done { len: reported as usize }
        } else {
            Attempt::Fail { errnum: None }
        }
    } else if last_error == insufficient {
        if reported > capacity {
            Attempt::Retry { capacity: reported as usize }
        } else {
            Attempt::Fail { errnum: None }
        }
    } else {
        Attempt::Fail { errnum: Some(last_error) }
    }
}

/// What follows a call that reports the size it needs.
fn sized_call(ok: bool, last_error: u32, insufficient: u32, capacity: usize, reported: u32) -> (next: Attempt)
    ensures
        next == sized_outcome(ok, last_error, insufficient, capacity, reported),
{
    if ok {
        if reported as usize <= capacity {
            Attempt::Done { len: reported as usize }
        } else {
            Attempt::Fail { errnum: None }
        }
    } else if last_error == insufficient {
        if reported as usize > capacity {
            Attempt::Retry { capacity: reported as usize }
        } else {
            Attempt::Fail { errnum: None }
        }
    } else {
        Attempt::Fail { errnum: Some(last_error) }
    }
}

/// What follows a request for a profile directory. The size that the system reports
/// on success counts the terminating NUL, which is no part of the path.
pub open spec fn profile_directory_outcome(ok: bool, last_error: u32, insufficient: u32, capacity: usize, reported: u32) -> Attempt {
    match sized_outcome(ok, last_error, insufficient, capacity, reported) {
        Attempt::Done { len } => if len >= 1 {
            Attempt::Done { len: (len - 1) as usize }
        } else {
            Attempt::Fail { errnum: None }
        },
        other => other,
    }
}

/// What follows a request for the profile directory of a token.
pub fn get_user_profile_directory(ok: bool, last_error: u32, insufficient: u32, capacity: usize, reported: u32) -> (next: Attempt)
    ensures
        next == profile_directory_outcome(ok, last_error, insufficient, capacity, reported),
{
    match sized_call(ok, last_error, insufficient, capacity, reported) {
        Attempt::Done { len } => if len >= 1 {
            Attempt::Done { len: len - 1 }
        } else {
            Attempt::Fail { errnum: None }
        },
        other => other,
    }
}

/// What follows a request for the profile directory of the template account.
pub fn get_default_user_profile_directory(ok: bool, last_error: u32, insufficient: u32, capacity: usize, reported: u32) -> (next: Attempt)
    ensures
        next == profile_directory_outcome(ok, last_error, insufficient, capacity, reported),
{
    get_user_profile_directory(ok, last_error, insufficient, capacity, reported)
}

/// The failure of a call that gave a pointer where it should not have.
pub open spec fn invalid_pointer(what: Seq<char>) -> Failure {
    Failure::OS(Some(what))
}

/// What follows a request for the user of a token into a buffer of `capacity` bytes.
pub fn get_token_information_token_user(ok: bool, last_error: u32, insufficient: u32, capacity: usize, reported: u32) -> (next: Attempt)
    ensures
        next == sized_outcome(ok, last_error, insufficient, capacity, reported),
{
    sized_call(ok, last_error, insufficient, capacity, reported)
}

/// Whether what a request for the user of a token left behind can be used: both the
/// record and the identifier in it must be there.
pub fn token_user_sid(record_is_null: bool, sid_is_null: bool) -> (r: Result<(), HomeDirError>)
    ensures
        match r {
            Ok(_) => !record_is_null && !sid_is_null,
            Err(e) => (record_is_null || sid_is_null) && e@ == (if record_is_null {
                invalid_pointer("GetTokenInformation returned an invalid pointer."@)
            } else {
                invalid_pointer("GetTokenInformation return an invalid pointer."@)
            }),
        },
{
    if record_is_null {
        Err(HomeDirError::os_from_str("GetTokenInformation returned an invalid pointer."))
    } else if sid_is_null {
        Err(HomeDirError::os_from_str("GetTokenInformation return an invalid pointer."))
    } else {
        Ok(())
    }
}

/// What follows a lookup of the account of an identifier into a buffer of `capacity`
/// units.
pub fn lookup_account_sid(ok: bool, last_error: u32, insufficient: u32, capacity: usize, reported: u32) -> (next: Attempt)
    ensures
        next == sized_outcome(ok, last_error, insufficient, capacity, reported),
{
    sized_call(ok, last_error, insufficient, capacity, reported)
}

/// The name that a successful lookup left in `buf`: what stands before the first NUL.
pub fn account_name(buf: &[u16]) -> (r: Result<Vec<u16>, HomeDirError>)
    ensures
        match r {
            Ok(name) => wide_c_string(buf@) == Some(name@),
            Err(e) => wide_c_string(buf@) is None && e@ == invalid_pointer(
                "LookupAccountSid unexpectedly return c-string without a nul terminator."@,
            ),
        },
{
    match units_until_nul(buf) {
        Some(name) => Ok(name),
        None => Err(
            HomeDirError::os_from_str("LookupAccountSid unexpectedly return c-string without a nul terminator."),
        ),
    }
}

/// Whether a token is elevated, from the answer to the request for its elevation.
pub fn get_token_information_token_elevation(ok: bool, last_error: u32, token_is_elevated: u32) -> (r: Result<bool, u32>)
    ensures
        r == (if ok { Ok::<bool, u32>(token_is_elevated != 0) } else { Err::<bool, u32>(last_error) }),
{
    if ok {
        Ok(token_is_elevated != 0)
    } else {
        Err(last_error)
    }
}

/// Whether the handle of the calling process can be used.
pub fn get_current_process(handle_is_null: bool) -> (r: Result<(), HomeDirError>)
    ensures
        match r {
            Ok(_) => !handle_is_null,
            Err(e) => handle_is_null && e@ == invalid_pointer("GetCurrentProcess unexpectedly returned a null pointer."@),
        },
{
    if handle_is_null {
        Err(HomeDirError::os_from_str("GetCurrentProcess unexpectedly returned a null pointer."))
    } else {
        Ok(())
    }
}

/// Whether a process was opened: a null handle is a failure with the system's code.
pub fn open_process(handle_is_null: bool, last_error: u32) -> (r: Result<(), u32>)
    ensures
        r == (if handle_is_null { Err::<(), u32>(last_error) } else { Ok::<(), u32>(()) }),
{
    if handle_is_null {
        Err(last_error)
    } else {
        Ok(())
    }
}

/// Why the token of a process could not be opened.
pub enum TokenFault {
    /// The call failed with this code of the system.
    Code(u32),
    /// The call reported success and gave no handle.
    Failed(HomeDirError),
}

/// Whether the token of a process was opened.
pub fn open_process_token(ok: bool, last_error: u32, handle_is_null: bool) -> (r: Result<(), TokenFault>)
    ensures
        match r {
            Ok(_) => ok && !handle_is_null,
            Err(TokenFault::Code(code)) => !ok && code == last_error,
            Err(TokenFault::Failed(e)) => ok && handle_is_null && e@ == invalid_pointer(
                "OpenProcessHandle unexpectedly returned a null pointer."@,
            ),
        },
{
    if !ok {
        Err(TokenFault::Code(last_error))
    } else if handle_is_null {
        Err(TokenFault::Failed(HomeDirError::os_from_str("OpenProcessHandle unexpectedly returned a null pointer.")))
    } else {
        Ok(())
    }
}

/// What follows a request for the text of an error into a buffer of `capacity` units,
/// which gave `len` units.
///
/// No units and the report of too small a buffer ask for a buffer twice the size; no
/// units for any other reason mean that the system has no text for the error.
pub open spec fn message_outcome(len: u32, last_error: u32, insufficient: u32, capacity: usize) -> Attempt {
    if len != 0 {
        if len <= capacity {
            Attempt::Done { len: len as usize }
        } else {
            Attempt::Fail { errnum: None }
        }
    } else if last_error == insufficient && doubled(capacity as nat) <= usize::MAX {
        Attempt::Retry { capacity: doubled(capacity as nat) as usize }
    } else {
        Attempt::Fail { errnum: None }
    }
}

/// What follows a request for the text of an error.
pub fn format_message(len: u32, last_error: u32, insufficient: u32, capacity: usize) -> (next: Attempt)
    ensures
        next == message_outcome(len, last_error, insufficient, capacity),
{
    if len != 0 {
        if len as usize <= capacity {
            Attempt::Done { len: len as usize }
        } else {
            Attempt::Fail { errnum: None }
        }
    } else if last_error == insufficient {
        match double_capacity(capacity) {
            Some(grown) => Attempt::Retry { capacity: grown },
            None => Attempt::Fail { errnum: None },
        }
    } else {
        Attempt::Fail { errnum: None }
    }
}

/// No answer is read beyond the buffer, and a buffer that is tried again has grown:
/// whatever a native call reports, an answer that is taken lies within the `capacity`
/// units that the call was given, and a retry is made with more units than that.
pub proof fn lemma_within_buffer(
    ok: bool,
    last_error: u32,
    insufficient: u32,
    capacity: usize,
    given: u32,
    reported: u32,
)
    ensures
        sized_outcome(ok, last_error, insufficient, capacity, reported) matches Attempt::Done { len } ==> len
            <= capacity,
        sized_outcome(ok, last_error, insufficient, capacity, reported) matches Attempt::Retry { capacity: grown }
            ==> grown > capacity,
        profile_directory_outcome(ok, last_error, insufficient, capacity, reported) matches Attempt::Done { len }
            ==> len < capacity,
        profile_directory_outcome(ok, last_error, insufficient, capacity, reported) matches Attempt::Retry {
            capacity: grown,
        } ==> grown > capacity,
        process_list_outcome(ok, last_error, capacity, given, reported) matches Attempt::Done { len } ==> len
            <= capacity,
        process_list_outcome(ok, last_error, capacity, given, reported) matches Attempt::Retry { capacity: grown }
            ==> grown > capacity,
        message_outcome(reported, last_error, insufficient, capacity) matches Attempt::Done { len } ==> len
            <= capacity,
        message_outcome(reported, last_error, insufficient, capacity) matches Attempt::Retry { capacity: grown }
            ==> grown > capacity,
{
}

/// Growing to the size reported converges at once: where the system says that an
/// answer of `need` units does not fit, the call is made again with a buffer of
/// `need` units, and where it then succeeds, the answer taken is those `need` units.
pub proof fn lemma_one_retry_suffices(last_error: u32, insufficient: u32, capacity: usize, need: u32)
    requires
        need > capacity,
    ensures
        sized_outcome(false, insufficient, insufficient, capacity, need) == (Attempt::Retry {
            capacity: need as usize,
        }),
        sized_outcome(true, last_error, insufficient, need as usize, need) == (Attempt::Done { len: need as usize }),
{
}

/// The text that 16-bit units stand for when they are read as UTF-16, with a
/// replacement character for what is not: `String::from_utf16_lossy`.
pub uninterp spec fn utf16_lossy(units: Seq<u16>) -> Seq<char>;

/// `String::from_utf16_lossy` of std: the text depends on the units alone and is
/// named `utf16_lossy`.
#[verifier::external_body]
fn string_from_utf16_lossy(units: &[u16]) -> (text: String)
    ensures
        text@ == utf16_lossy(units@),
{
    String::from_utf16_lossy(units)
}

/// A text without the white space at its two ends: `str::trim`.
pub uninterp spec fn trimmed(text: Seq<char>) -> Seq<char>;

/// `str::trim` of std, made an owned string: the result depends on the text alone
/// and is named `trimmed`.
#[verifier::external_body]
fn trim(text: &str) -> (inner: String)
    ensures
        inner@ == trimmed(text@),
{
    text.trim().to_string()
}

/// The failure that carries the system's text for an error, as it was left in
/// `units`: read as UTF-16 and trimmed.
pub fn os_from_message(units: &[u16]) -> (e: HomeDirError)
    ensures
        e@ == Failure::OS(Some(trimmed(utf16_lossy(units@)))),
{
    let text = string_from_utf16_lossy(units);
    HomeDirError::os(Some(trim(text.as_str())))
}

} // verus!
