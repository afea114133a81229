use vstd::prelude::*;

verus! {

/// Why initialization aborted: the reset line could not be driven, or a
/// transport write failed during bring-up. The underlying capability error
/// is carried for diagnosis. The hardware is left in an indeterminate state;
/// the caller must re-run initialization from scratch.
#[derive(Debug, PartialEq, Eq)]
pub enum InitError<PE, BE> {
    /// The reset pin could not be driven.
    Pin(PE),
    /// A transport write failed.
    Interface(BE),
}

/// A drawing-time failure: a transport write failed while streaming pixels
/// or issuing a post-initialization command. Bytes already sent are not
/// retracted; the caller must assume the addressed window is partially
/// written.
#[derive(Debug, PartialEq, Eq)]
pub enum Error<BE> {
    /// A transport write failed.
    Interface(BE),
}

} // verus!
