//! How a failure reaches the foreign caller: the slot that keeps the message
//! of the last failure until the caller asks for it, and the errors of the
//! streaming write path.

use crate::decimal::{decimal, decimal_string, decimal_value, lemma_decimal_value};
use crate::string::{content_of, Str};
use vstd::prelude::*;
use vstd::string::StringExecFns;
use vstd::utf8::encode_utf8;

verus! {

/// The slot for the message of the last failure. Each thread has one of its
/// own. It holds one message at most: a new failure takes the place of one
/// that was not read, and reading empties the slot.
pub struct LastError {
    message: Option<String>,
}

impl View for LastError {
    type V = Option<Seq<char>>;

    /// The message that waits in the slot.
    closed spec fn view(&self) -> Option<Seq<char>> {
        match self.message {
            Some(text) => Some(text@),
            None => None,
        }
    }
}

/// What a slot holds once `message` was recorded in it, whatever it held
/// before.
pub open spec fn after_record(pending: Option<Seq<char>>, message: Seq<char>) -> Option<
    Seq<char>,
> {
    Some(message)
}

/// What a slot holds once it was read.
pub open spec fn after_take(pending: Option<Seq<char>>) -> Option<Seq<char>> {
    None
}

impl LastError {
    /// An empty slot.
    pub fn new() -> (slot: Self)
        ensures
            slot@ is None,
    {
        Self { message: None }
    }

    /// Stores `message`. A message that waited unread is lost.
    pub fn record(&mut self, message: String)
        ensures
            final(self)@ == after_record(old(self)@, message@),
    {
        self.message = Some(message);
    }

    /// Removes the message that waits and returns it, or `None` if none
    /// waits.
    pub fn take(&mut self) -> (message: Option<String>)
        ensures
            message.deep_view() == old(self)@,
            final(self)@ == after_take(old(self)@),
    {
        self.message.take()
    }
}

/// Removes the message of the last failure from the slot of this thread and
/// hands it to the caller, who owns the handle from then on. The handle has no
/// content where no message waits, and where the slot cannot be reached: `slot`
/// is `None` while the slot is in use further up the call stack, or once the
/// thread has given it up.
pub fn lol_html_take_last_error(slot: Option<&mut LastError>) -> (message: Str)
    ensures
        match slot {
            Some(slot) => message@ == content_of(slot@) && final(slot)@ == after_take(slot@),
            None => message@ is None,
        },
{
    match slot {
        Some(slot) => Str::from_opt(slot.take()),
        None => Str::from_opt(None),
    }
}

/// Keeps `err` as the message of the last failure on this thread. Where the
/// slot cannot be reached (`slot` is `None`), the message is dropped.
pub fn save_last_error(slot: Option<&mut LastError>, err: String)
    ensures
        slot matches Some(slot) ==> final(slot)@ == after_record(slot@, err@),
{
    match slot {
        Some(slot) => slot.record(err),
        None => {},
    }
}

/// A message that was recorded is handed out by the next read, and by no read
/// after it.
pub proof fn lemma_taken_once(pending: Option<Seq<char>>, message: Seq<char>)
    ensures
        content_of(after_record(pending, message)) == Some(encode_utf8(message)),
        content_of(after_take(after_record(pending, message))) is None,
{
}

/// Of two messages recorded one after the other with no read between them,
/// the slot holds the second, as if the first had never been recorded.
pub proof fn lemma_last_record_wins(
    pending: Option<Seq<char>>,
    first: Seq<char>,
    second: Seq<char>,
)
    ensures
        after_record(after_record(pending, first), second) == after_record(pending, second),
        content_of(after_record(after_record(pending, first), second)) == Some(
            encode_utf8(second),
        ),
{
}

/// Why a streaming write failed.
#[derive(Debug, Clone, Copy, PartialEq, Eq, Structural)]
pub enum CStreamingHandlerError {
    /// A callback of the handler was not set.
    Uninitialized,
    /// The write callback reported this status, which is not 0.
    HandlerError(i32),
}

impl CStreamingHandlerError {
    /// The text of the error.
    pub open spec fn message_text(self) -> Seq<char> {
        match self {
            CStreamingHandlerError::Uninitialized => "Not all fields of the struct were initialized"@,
            CStreamingHandlerError::HandlerError(code) => "write_all_callback reported error: "@
                + decimal(code as int),
        }
    }

    /// The status that the text of a `HandlerError` reports.
    pub open spec fn reported_status(text: Seq<char>) -> int {
        decimal_value(text.skip("write_all_callback reported error: "@.len() as int))
    }

    /// The status that the write callback returned can be read back from the
    /// text of the error that carries it.
    pub proof fn lemma_status_in_message(code: i32)
        ensures
            Self::reported_status(CStreamingHandlerError::HandlerError(code).message_text())
                == code,
    {
        let prefix = "write_all_callback reported error: "@;
        lemma_decimal_value(code as int);
        assert((prefix + decimal(code as int)).skip(prefix.len() as int) =~= decimal(code as int));
    }

    /// The text of the error, for the caller to read.
    pub fn message(&self) -> (text: String)
        ensures
            text@ == self.message_text(),
    {
        match self {
            CStreamingHandlerError::Uninitialized => String::from_str(
                "Not all fields of the struct were initialized",
            ),
            CStreamingHandlerError::HandlerError(code) => {
                let mut text = String::from_str("write_all_callback reported error: ");
                text.append(decimal_string(*code).as_str());
                text
            },
        }
    }

    /// What a status of the write callback means: 0 is success, and any other
    /// status is the error that carries it.
    pub open spec fn status_result(status: i32) -> Result<(), CStreamingHandlerError> {
        if status == 0 {
            Ok(())
        } else {
            Err(CStreamingHandlerError::HandlerError(status))
        }
    }

    /// The result of a write whose callback returned `status`.
    pub fn from_status(status: i32) -> (result: Result<(), CStreamingHandlerError>)
        ensures
            result == Self::status_result(status),
    {
        if status == 0 {
            Ok(())
        } else {
            Err(CStreamingHandlerError::HandlerError(status))
        }
    }
}

/// The status that a call across the boundary returns when it succeeded.
pub const STATUS_OK: i32 = 0;

/// The status that a call across the boundary returns when it failed. It says
/// no more than that: the caller fetches the text of the failure from the
/// slot of its thread.
pub const STATUS_FAILED: i32 = -1;

/// The status that the caller sees for `result`.
pub open spec fn boundary_status(result: Result<(), CStreamingHandlerError>) -> i32 {
    if result is Ok {
        STATUS_OK
    } else {
        STATUS_FAILED
    }
}

/// What the slot holds after `result` has reached the boundary: the text of
/// the error for a failure, and for a success what it held before.
pub open spec fn after_result(
    pending: Option<Seq<char>>,
    result: Result<(), CStreamingHandlerError>,
) -> Option<Seq<char>> {
    match result {
        Ok(_) => pending,
        Err(error) => after_record(pending, error.message_text()),
    }
}

/// Brings the result of a streaming write across the boundary: a failure
/// leaves its text in the slot of the thread, and the caller gets the status.
pub fn streaming_status(
    slot: Option<&mut LastError>,
    result: Result<(), CStreamingHandlerError>,
) -> (status: i32)
    ensures
        status == boundary_status(result),
        slot matches Some(slot) ==> final(slot)@ == after_result(slot@, result),
{
    match result {
        Ok(_) => STATUS_OK,
        Err(error) => {
            save_last_error(slot, error.message());
            STATUS_FAILED
        },
    }
}

} // verus!
