//! The encoding of a document, shared between the rewriter and whoever may
//! change it while the document streams through.

use crate::ascii_compatible::AsciiCompatibleEncoding;
use crate::encodings::encoding_name;
use crate::table::{encoding_at, encoding_to_index, in_table, ASCII_COMPATIBLE_LEN};
use encoding_rs::Encoding;
use std::sync::atomic::{AtomicUsize, Ordering};
use std::sync::Arc;
use vstd::prelude::*;

verus! {

/// A character encoding that can be shared and changed.
///
/// The cell holds the position of the encoding in the table, in one atomic
/// word. Every clone shares the cell: a `set` through one of them is seen by a
/// later `get` through any other. Loads and stores are relaxed, and two
/// writers that race leave the value of one of them. The verifier does not
/// follow what an atomic holds, so `get` is proved for every value that a load
/// may return.
#[derive(Clone)]
pub struct SharedEncoding {
    encoding: Arc<AtomicUsize>,
}

impl SharedEncoding {
    /// A new cell that holds `encoding`.
    #[must_use]
    pub fn new(encoding: AsciiCompatibleEncoding) -> Self {
        Self { encoding: Self::cell(encoding_to_index(encoding)) }
    }

    /// The encoding that the cell holds now. Whatever the cell holds, the
    /// result is an encoding of the table: a position outside it reads as
    /// UTF-8.
    #[must_use]
    pub fn get(&self) -> (encoding: &'static Encoding)
        ensures
            in_table(encoding_name(encoding)),
    {
        let index: usize = self.encoding.load(Ordering::Relaxed);
        encoding_at(index)
    }

    /// Stores `encoding` in the cell, for every holder of it.
    pub fn set(&self, encoding: AsciiCompatibleEncoding) {
        self.store(encoding_to_index(encoding));
    }

    /// A cell of its own for `index`. Only the position of an ASCII-compatible
    /// encoding is ever put into a cell.
    fn cell(index: usize) -> Arc<AtomicUsize>
        requires
            index < ASCII_COMPATIBLE_LEN,
    {
        Arc::new(AtomicUsize::new(index))
    }

    /// Stores `index`, which is the position of an ASCII-compatible encoding.
    fn store(&self, index: usize)
        requires
            index < ASCII_COMPATIBLE_LEN,
    {
        self.encoding.store(index, Ordering::Relaxed);
    }
}

} // verus!
