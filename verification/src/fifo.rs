//! The mailbox FIFO pair between the two cores.
//!
//! Each direction is an eight-word queue.  The model holds the incoming
//! and outgoing queues as plain data; the environment fills the incoming
//! one and drains the outgoing one.  A blocking read asks its word to be
//! pending already — on the silicon the call would sleep until the other
//! core sends.

use vstd::prelude::*;

verus! {

/// Depth of each mailbox direction, in words.
pub const MAILBOX_DEPTH: usize = 8;

/// This core's view of the mailbox pair.
pub struct Fifo {
    /// Words the other core sent, oldest first.
    pub rx: Vec<u32>,
    /// Words sent to the other core and not yet taken, oldest first.
    pub tx: Vec<u32>,
}

impl Fifo {
    /// The mailbox view of the calling core.
    pub fn get() -> (r: Fifo)
        ensures
            r.rx@.len() == 0,
            r.tx@.len() == 0,
    {
        Fifo { rx: Vec::new(), tx: Vec::new() }
    }

    /// Throw away every incoming word.
    pub fn drain(&mut self)
        ensures
            final(self).rx@.len() == 0,
            final(self).tx == old(self).tx,
    {
        self.rx = Vec::new();
    }

    /// The status word: valid flag in bit zero, ready flag in bit one.
    pub fn status(&mut self) -> (r: u32)
        ensures
            r == (if old(self).rx@.len() > 0 {
                1int
            } else {
                0int
            }) + (if old(self).tx@.len() < 8 {
                2int
            } else {
                0int
            }),
            *final(self) == *old(self),
    {
        let v: u32 = if self.rx.len() > 0 {
            1
        } else {
            0
        };
        let w: u32 = if self.tx.len() < MAILBOX_DEPTH {
            2
        } else {
            0
        };
        v + w
    }

    /// Take the oldest incoming word; the model asks it to be pending
    /// already, where the silicon would sleep for it.
    pub fn read_block(&mut self) -> (r: u32)
        requires
            old(self).rx@.len() > 0,
        ensures
            r == old(self).rx@[0],
            final(self).rx@ == old(self).rx@.drop_first(),
            final(self).tx == old(self).tx,
    {
        self.rx.remove(0)
    }

    /// Whether an incoming word waits.
    pub fn is_read_ready(&self) -> (r: bool)
        ensures
            r == (self.rx@.len() > 0),
    {
        self.rx.len() > 0
    }

    /// Whether the outgoing queue has a free slot.
    pub fn is_write_ready(&self) -> (r: bool)
        ensures
            r == (self.tx@.len() < 8),
    {
        self.tx.len() < MAILBOX_DEPTH
    }

    /// Take the oldest incoming word, if one waits.
    pub fn read(&mut self) -> (r: Option<u32>)
        ensures
            old(self).rx@.len() == 0 ==> r is None && *final(self) == *old(self),
            old(self).rx@.len() > 0 ==> (r matches Some(w) && w == old(self).rx@[0]
                && final(self).rx@ == old(self).rx@.drop_first()
                && final(self).tx == old(self).tx),
    {
        if self.rx.len() > 0 {
            Some(self.rx.remove(0))
        } else {
            None
        }
    }

    /// Send one word; the model asks a slot to be free already, where the
    /// silicon would spin for one.
    pub fn write_block(&mut self, v: u32)
        requires
            old(self).tx@.len() < 8,
        ensures
            final(self).tx@ == old(self).tx@.push(v),
            final(self).rx == old(self).rx,
    {
        self.tx.push(v);
    }

    /// Send one word if a slot is free; reports whether it went.
    pub fn write(&mut self, v: u32) -> (r: bool)
        ensures
            old(self).tx@.len() >= 8 ==> !r && *final(self) == *old(self),
            old(self).tx@.len() < 8 ==> r && final(self).tx@ == old(self).tx@.push(v)
                && final(self).rx == old(self).rx,
    {
        if self.tx.len() >= MAILBOX_DEPTH {
            return false;
        }
        self.tx.push(v);
        true
    }
}

} // verus!
