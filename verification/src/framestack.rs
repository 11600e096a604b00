//! The session's reliability ledger: ordered histories of transmitted and
//! received frames, and the high-watermark of remotely acknowledged ids.
//!
//! The watermark is monotonic: it never decreases, and the acknowledgement
//! procedure advances it only across a contiguous run of received ids.

use vstd::prelude::*;

use crate::frame::Frame;

verus! {

/// Per-session ledger of sent and received frames and the ack watermark.
/// Created fresh at the start of a handshake attempt and kept for the
/// whole capture session.
pub struct FrameStack {
    pub local_frame_id: u32,
    pub tx_frame_queue: std::collections::VecDeque<(u32, Frame)>,
    pub rx_frame_queue: std::collections::VecDeque<(u32, Frame)>,
    pub remote_ackd_frame_id: u32,
}

impl FrameStack {
    /// A fresh ledger: empty histories, watermark zero.
    pub fn new() -> (r: FrameStack)
        ensures
            r.local_frame_id == 0,
            r.tx_frame_queue@.len() == 0,
            r.rx_frame_queue@.len() == 0,
            r.remote_ackd_frame_id == 0,
    {
        FrameStack {
            local_frame_id: 0,
            tx_frame_queue: std::collections::VecDeque::new(),
            rx_frame_queue: std::collections::VecDeque::new(),
            remote_ackd_frame_id: 0,
        }
    }

    /// Appends a transmitted frame to the tx history, keyed by its id.
    pub fn append_tx_frame(&mut self, frame: Frame)
        ensures
            final(self).tx_frame_queue@ == old(self).tx_frame_queue@.push(
                (frame.frame_id, frame),
            ),
            final(self).rx_frame_queue@ == old(self).rx_frame_queue@,
            final(self).remote_ackd_frame_id == old(self).remote_ackd_frame_id,
            final(self).local_frame_id == old(self).local_frame_id,
    {
        let key = frame.frame_id;
        self.tx_frame_queue.push_back((key, frame));
    }

    /// Appends a received frame to the rx history, keyed by its id.
    pub fn append_rx_frame(&mut self, frame: Frame)
        ensures
            final(self).rx_frame_queue@ == old(self).rx_frame_queue@.push(
                (frame.frame_id, frame),
            ),
            final(self).tx_frame_queue@ == old(self).tx_frame_queue@,
            final(self).remote_ackd_frame_id == old(self).remote_ackd_frame_id,
            final(self).local_frame_id == old(self).local_frame_id,
    {
        let key = frame.frame_id;
        self.rx_frame_queue.push_back((key, frame));
    }

    /// The rx history, in arrival order.
    pub fn get_rx_frame_queue(&self) -> (r: &std::collections::VecDeque<(u32, Frame)>)
        ensures
            r@ == self.rx_frame_queue@,
    {
        &self.rx_frame_queue
    }

    /// The current ack watermark.
    pub fn get_remote_ackd_frame_id(&self) -> (r: u32)
        ensures
            r == self.remote_ackd_frame_id,
    {
        self.remote_ackd_frame_id
    }

    /// Advances the ack watermark.  The watermark is monotonic, so the new
    /// value may not lie below the old one.
    pub fn set_remote_ackd_frame_id(&mut self, new_id: u32)
        requires
            new_id >= old(self).remote_ackd_frame_id,
        ensures
            final(self).remote_ackd_frame_id == new_id,
            final(self).tx_frame_queue@ == old(self).tx_frame_queue@,
            final(self).rx_frame_queue@ == old(self).rx_frame_queue@,
            final(self).local_frame_id == old(self).local_frame_id,
    {
        self.remote_ackd_frame_id = new_id;
    }

    /// The id the next locally produced frame is sent under.
    pub fn curr_id(&self) -> (r: u32)
        ensures
            r == self.local_frame_id,
    {
        self.local_frame_id
    }
}

impl Default for FrameStack {
    /// Same as [`FrameStack::new`].
    fn default() -> (r: Self)
        ensures
            r.local_frame_id == 0,
            r.tx_frame_queue@.len() == 0,
            r.rx_frame_queue@.len() == 0,
            r.remote_ackd_frame_id == 0,
    {
        Self::new()
    }
}

} // verus!
