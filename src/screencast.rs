//! Screencasting placeholders for builds without PipeWire: a cast that is
//! never active and a stream that accepts every request.

use vstd::prelude::*;

verus! {

/// Error of a screencast operation.
#[derive(Debug, Clone, Copy, PartialEq, Eq, Structural)]
pub struct CastError;

/// A stream that is never connected.
#[derive(Debug)]
pub struct DummyStream;

impl DummyStream {
    pub fn disconnect(&self) -> (r: Result<(), CastError>)
        ensures
            r is Ok,
    {
        Ok(())
    }
}

/// A screencast session over a dummy stream.
pub struct Cast {
    pub session_id: usize,
    pub stream_id: usize,
    pub dynamic_target: bool,
    pub last_frame_time: core::time::Duration,
    pub stream: DummyStream,
}

impl Cast {
    pub fn is_active(&self) -> (r: bool)
        ensures
            !r,
    {
        false
    }

    /// The stream is always ready for a frame of any size.
    pub fn ensure_size(&self, _width: i32, _height: i32) -> (r: Result<CastSizeChange, CastError>)
        ensures
            r == Ok::<CastSizeChange, CastError>(CastSizeChange::Ready),
    {
        Ok(CastSizeChange::Ready)
    }

    pub fn set_refresh(&mut self, _refresh: u32) -> (r: Result<(), CastError>)
        ensures
            r is Ok,
            final(self).session_id == old(self).session_id,
            final(self).stream_id == old(self).stream_id,
            final(self).dynamic_target == old(self).dynamic_target,
    {
        Ok(())
    }
}

/// Messages from the screencast thread to the compositor.
#[derive(Debug)]
pub enum PwToNiri {
    StopCast { session_id: usize },
    Redraw { stream_id: usize },
    FatalError,
}

/// Whether a cast stream is ready for a frame of the requested size.
#[derive(Debug, Clone, Copy, PartialEq, Eq, Structural)]
pub enum CastSizeChange {
    Ready,
    Pending,
}

} // verus!
