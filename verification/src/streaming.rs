//! The streaming write path: a handler that the caller supplies writes its
//! output through a callback and reports how that went.

use crate::errors::CStreamingHandlerError;
use vstd::prelude::*;

verus! {

/// The callbacks that a caller supplies to produce output piece by piece.
/// Both are required: a handler with one of them unset is not initialized.
pub struct CStreamingHandler<W, D> {
    /// Writes the output and returns a status, 0 for success.
    pub write_all_callback: Option<W>,
    /// Called once, after the last use of the handler.
    pub drop_callback: Option<D>,
}

impl<W: FnOnce(&[u8]) -> i32, D: FnOnce()> CStreamingHandler<W, D> {
    /// Whether every callback is set.
    pub open spec fn is_initialized(self) -> bool {
        self.write_all_callback is Some && self.drop_callback is Some
    }

    /// Whether `result` is what a write through this handler may return: the
    /// error `Uninitialized` for a handler with an unset callback, and else
    /// what a status that the write callback may return for `bytes` means.
    pub open spec fn write_result(
        self,
        bytes: &[u8],
        result: Result<(), CStreamingHandlerError>,
    ) -> bool {
        if self.is_initialized() {
            exists|status: i32|
                call_ensures(self.write_all_callback->0, (bytes,), status) && result
                    == CStreamingHandlerError::status_result(status)
        } else {
            result == Err::<(), _>(CStreamingHandlerError::Uninitialized)
        }
    }

    /// Runs the write callback on `bytes`, then the drop callback, and turns
    /// the status of the write into a result. A handler with an unset callback
    /// is refused with `Uninitialized`: nothing is required of its callbacks,
    /// and none of them is called.
    pub fn write_all(self, bytes: &[u8]) -> (result: Result<(), CStreamingHandlerError>)
        requires
            self.is_initialized() ==> call_requires(self.write_all_callback->0, (bytes,))
                && call_requires(self.drop_callback->0, ()),
        ensures
            self.write_result(bytes, result),
    {
        match (self.write_all_callback, self.drop_callback) {
            (Some(write), Some(drop)) => {
                let status: i32 = write(bytes);
                drop();
                CStreamingHandlerError::from_status(status)
            },
            _ => Err(CStreamingHandlerError::Uninitialized),
        }
    }
}

} // verus!
