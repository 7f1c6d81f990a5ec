//! Wire protocols.

use vstd::prelude::*;

pub mod http1;

verus! {

/// How a decode attempt ended, where it did not fail.
#[derive(Debug)]
pub enum ParserResult<T> {
    /// The message was decoded.
    Complete(T),
    /// The input ended before the message did: supply more bytes and decode
    /// again from the start.
    Partial,
}

} // verus!
