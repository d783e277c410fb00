//! The audio bridge's bookkeeping: one output and one input stream may
//! exist at a time, each backed by a bounded byte queue.  The device, its
//! callbacks and the sample-rate conversion live outside; what stands here
//! is the rule that a stream is created once and destroyed before the next.

use vstd::prelude::*;

verus! {

/// Why a stream operation failed.
#[derive(Debug, PartialEq, Eq, Structural, Clone, Copy)]
pub enum AudioError {
    /// The direction already has a stream.
    AlreadyCreated,
}

/// Which device streams exist, and the capacity of the byte queues that
/// feed them.
#[derive(Debug)]
pub struct AudioSystem {
    out_stream: bool,
    in_stream: bool,
    stream_ch_buffer_size: usize,
}

impl AudioSystem {
    /// Whether the output (speaker) stream exists.
    pub closed spec fn has_output_stream(self) -> bool {
        self.out_stream
    }

    /// Whether the input (microphone) stream exists.
    pub closed spec fn has_input_stream(self) -> bool {
        self.in_stream
    }

    /// Capacity of each audio byte queue.
    pub closed spec fn buffer_size(self) -> usize {
        self.stream_ch_buffer_size
    }

    /// A fresh bridge: no stream in either direction, queues of 200.
    pub fn build() -> (r: Self)
        ensures
            !r.has_output_stream(),
            !r.has_input_stream(),
            r.buffer_size() == 200,
    {
        AudioSystem { out_stream: false, in_stream: false, stream_ch_buffer_size: 200 }
    }

    /// Claims the output stream; refused while one exists.
    pub fn create_output_stream(&mut self) -> (r: Result<(), AudioError>)
        ensures
            old(self).has_output_stream() ==> r == Err::<(), _>(AudioError::AlreadyCreated)
                && *final(self) == *old(self),
            !old(self).has_output_stream() ==> r is Ok && final(self).has_output_stream() && final(self).has_input_stream() == old(self).has_input_stream() && final(self).buffer_size()
                == old(self).buffer_size(),
    {
        if self.out_stream {
            return Err(AudioError::AlreadyCreated);
        }
        self.out_stream = true;
        Ok(())
    }

    /// Releases the output stream; releasing an absent one is allowed.
    pub fn destroy_output_stream(&mut self)
        ensures
            !final(self).has_output_stream(),
            final(self).has_input_stream() == old(self).has_input_stream(),
            final(self).buffer_size() == old(self).buffer_size(),
    {
        self.out_stream = false;
    }

    /// Claims the input stream; refused while one exists.
    pub fn create_input_stream(&mut self) -> (r: Result<(), AudioError>)
        ensures
            old(self).has_input_stream() ==> r == Err::<(), _>(AudioError::AlreadyCreated)
                && *final(self) == *old(self),
            !old(self).has_input_stream() ==> r is Ok && final(self).has_input_stream() && final(self).has_output_stream() == old(self).has_output_stream() && final(self).buffer_size()
                == old(self).buffer_size(),
    {
        if self.in_stream {
            return Err(AudioError::AlreadyCreated);
        }
        self.in_stream = true;
        Ok(())
    }

    /// Releases the input stream; releasing an absent one is allowed.
    pub fn destroy_input_stream(&mut self)
        ensures
            !final(self).has_input_stream(),
            final(self).has_output_stream() == old(self).has_output_stream(),
            final(self).buffer_size() == old(self).buffer_size(),
    {
        self.in_stream = false;
    }
}

} // verus!
