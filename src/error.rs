use std::string::FromUtf8Error;

use vstd::prelude::*;

verus! {

/// Why a field could not be read as a parsed value; `E` is the parser's own
/// error type.
#[derive(Debug)]
pub enum FromStrError<E> {
    /// The payload is not valid UTF-8.
    FromUtf8(FromUtf8Error),
    /// The text was rejected by the parser, with the parser's error.
    FromStr(E),
}

} // verus!
