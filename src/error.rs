use vstd::prelude::*;

verus! {

/// A caller-supplied value that is inconsistent with what the operation
/// needs. Always detected before any native call is made.
#[derive(Debug, Clone, Copy, PartialEq, Eq, Structural)]
pub enum ValidationError {
    /// Pixel bytes whose count is not `width * height * stride` of the
    /// pixel layout.
    PixelDataLength { expected: i128, actual: usize },
    /// Mean or scale values whose count differs from the buffer's channels.
    ChannelCount { channels: i32, mean_len: usize, norm_len: usize },
    /// A stream source whose scan or read callback is not installed.
    IncompleteStreamSource,
    /// A session was requested from a graph that has not finished loading.
    GraphNotReady,
}

/// Every failure the binding layer reports.
#[derive(Debug, Clone, Copy, PartialEq, Eq, Structural)]
pub enum Error {
    /// Rejected before crossing into native code; nothing was changed.
    Validation(ValidationError),
    /// The topology or weight source was malformed, missing or refused.
    Load,
    /// An input name that the topology does not declare.
    Bind,
    /// An unknown output name, or an extraction the engine could not run.
    Extract,
}

/// Maps a native status code to a result: zero is success, anything else is
/// reported as `failure`.
pub fn status_result(status: i32, failure: Error) -> (r: Result<(), Error>)
    ensures
        status == 0 ==> r == Ok::<(), Error>(()),
        status != 0 ==> r == Err::<(), Error>(failure),
{
    if status == 0 {
        Ok(())
    } else {
        Err(failure)
    }
}

} // verus!
