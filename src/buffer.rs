use vstd::prelude::*;

use std::collections::VecDeque;

use crate::SAMPLE_RATE;

verus! {

/// Frames the buffer between generator and output holds by default
/// (about 20 ms at 48 kHz).
pub const BUFFER_CAPACITY: usize = 1000;

/// A bounded first-in first-out queue of stereo frames. A push into a full
/// buffer and a pop from an empty one are refused, so that the side that
/// runs ahead waits instead of growing the queue or reading stale data.
pub struct FrameBuffer {
    frames: VecDeque<(i64, i64)>,
    capacity: usize,
}

impl View for FrameBuffer {
    type V = Seq<(i64, i64)>;

    closed spec fn view(&self) -> Seq<(i64, i64)> {
        self.frames@
    }
}

impl FrameBuffer {
    /// The most frames the buffer may hold.
    pub closed spec fn spec_capacity(&self) -> nat {
        self.capacity as nat
    }

    /// The buffer never holds more than its capacity.
    pub open spec fn wf(&self) -> bool {
        self@.len() <= self.spec_capacity() && self.spec_capacity() > 0
    }

    /// An empty buffer for at most `capacity` frames.
    pub fn new(capacity: usize) -> (r: FrameBuffer)
        requires
            capacity > 0,
        ensures
            r.wf(),
            r@ == Seq::<(i64, i64)>::empty(),
            r.spec_capacity() == capacity,
    {
        FrameBuffer { frames: VecDeque::new(), capacity }
    }

    /// The most frames the buffer may hold.
    pub fn capacity(&self) -> (r: usize)
        ensures
            r == self.spec_capacity(),
    {
        self.capacity
    }

    /// Frames waiting to be read.
    pub fn len(&self) -> (r: usize)
        ensures
            r == self@.len(),
    {
        self.frames.len()
    }

    /// Whether a push would be refused.
    pub fn is_full(&self) -> (r: bool)
        ensures
            r == (self@.len() >= self.spec_capacity()),
    {
        self.frames.len() >= self.capacity
    }

    /// Appends `frame` when there is room; when the buffer is full, hands the
    /// frame back and leaves the buffer as it was.
    pub fn push(&mut self, frame: (i64, i64)) -> (r: Result<(), (i64, i64)>)
        requires
            old(self).wf(),
        ensures
            final(self).wf(),
            final(self).spec_capacity() == old(self).spec_capacity(),
            old(self)@.len() < old(self).spec_capacity() ==> r is Ok && final(self)@ == old(
                self,
            )@.push(frame),
            old(self)@.len() >= old(self).spec_capacity() ==> r == Err::<(), (i64, i64)>(frame)
                && final(self)@ == old(self)@,
    {
        if self.frames.len() >= self.capacity {
            Err(frame)
        } else {
            self.frames.push_back(frame);
            Ok(())
        }
    }

    /// Takes the oldest frame; `None` when the buffer is empty.
    pub fn pop(&mut self) -> (r: Option<(i64, i64)>)
        requires
            old(self).wf(),
        ensures
            final(self).wf(),
            final(self).spec_capacity() == old(self).spec_capacity(),
            old(self)@.len() == 0 ==> r is None && final(self)@ == old(self)@,
            old(self)@.len() > 0 ==> r == Some(old(self)@[0]) && final(self)@ == old(
                self,
            )@.drop_first(),
    {
        self.frames.pop_front()
    }
}

/// Turns the stereo frames of a `FrameBuffer` into one interleaved stream of
/// samples: left, then right, frame after frame.
pub struct WaveReceiver {
    pending_val: Option<i64>,
}

impl WaveReceiver {
    /// The right sample of the last frame read, not yet handed out.
    pub closed spec fn pending(&self) -> Option<i64> {
        self.pending_val
    }

    /// A receiver with nothing held back.
    pub fn new() -> (r: WaveReceiver)
        ensures
            r.pending() is None,
    {
        WaveReceiver { pending_val: None }
    }

    /// The next sample of the stream: the held-back right sample if there is
    /// one; otherwise the left sample of the oldest frame in `buf`, whose right
    /// sample is then held back. `None` when neither is at hand: the caller
    /// waits for the generator rather than play made-up data.
    pub fn next(&mut self, buf: &mut FrameBuffer) -> (r: Option<i64>)
        requires
            old(buf).wf(),
        ensures
            final(buf).wf(),
            final(buf).spec_capacity() == old(buf).spec_capacity(),
            old(self).pending() is Some ==> r == old(self).pending() && final(self).pending() is None
                && final(buf)@ == old(buf)@,
            old(self).pending() is None && old(buf)@.len() == 0 ==> r is None
                && final(self).pending() is None && final(buf)@ == old(buf)@,
            old(self).pending() is None && old(buf)@.len() > 0 ==> r == Some(old(buf)@[0].0)
                && final(self).pending() == Some(old(buf)@[0].1) && final(buf)@ == old(
                buf,
            )@.drop_first(),
    {
        match self.pending_val {
            Some(v) => {
                self.pending_val = None;
                Some(v)
            },
            None => match buf.pop() {
                Some(frame) => {
                    self.pending_val = Some(frame.1);
                    Some(frame.0)
                },
                None => None,
            },
        }
    }

    /// Samples per call are not fixed: the stream is continuous.
    pub fn current_frame_len(&self) -> (r: Option<usize>)
        ensures
            r is None,
    {
        None
    }

    /// The stream interleaves two channels.
    pub fn channels(&self) -> (r: u16)
        ensures
            r == 2,
    {
        2
    }

    /// Frames per second of the stream.
    pub fn sample_rate(&self) -> (r: u32)
        ensures
            r == SAMPLE_RATE,
    {
        SAMPLE_RATE as u32
    }
}

} // verus!
