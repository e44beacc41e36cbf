use vstd::prelude::*;

verus! {

/// The native audio driver as the engine sees it: a platform stream that can
/// be brought up, paused and resumed.  The shell implements this for its
/// platform; the engine itself never performs stream I/O.  Each call reports
/// whether the driver accepted it.
pub trait StreamerUnit {
    /// Opens the stream and begins delivering input blocks.
    fn init(&mut self) -> bool;

    /// Stops delivering blocks without tearing the stream down.
    fn pause(&mut self) -> bool;

    /// Resumes delivery after a pause.
    fn start(&mut self) -> bool;
}

} // verus!
