//! The session handle: the one object a successful attachment hands out. It
//! owns the FIFO queue of outbound commands; an outbound loop drains the
//! queue one envelope at a time onto the connection.

use vstd::prelude::*;
use crate::protocol::{command_envelope, envelope_spec};

verus! {

/// Failure to enqueue a command.
#[derive(Debug, Clone, Copy, PartialEq, Eq, Structural)]
pub enum SendError {
    /// The connection has been torn down; the queue has no consumer.
    QueueClosed,
}

/// A live attachment: its session identifier, the FIFO queue of commands not
/// yet written to the connection, and the (ghost) record of submissions and
/// transmissions that the FIFO law speaks of.
pub struct SessionHandle {
    session_id: String,
    queue: Vec<String>,
    open: bool,
    sent_rec: Ghost<Seq<Seq<char>>>,
    submitted_rec: Ghost<Seq<Seq<char>>>,
}

impl SessionHandle {
    /// The session identifier the handshake produced.
    pub closed spec fn sid(self) -> Seq<char> {
        self.session_id@
    }

    /// The commands accepted but not yet written to the connection, oldest
    /// first.
    pub closed spec fn pending(self) -> Seq<Seq<char>> {
        self.queue.deep_view()
    }

    /// The commands already written to the connection, oldest first.
    pub closed spec fn sent(self) -> Seq<Seq<char>> {
        self.sent_rec@
    }

    /// Every command ever accepted, in submission order.
    pub closed spec fn submitted(self) -> Seq<Seq<char>> {
        self.submitted_rec@
    }

    /// Whether the handle still accepts commands.
    pub closed spec fn is_open(self) -> bool {
        self.open
    }

    /// A handle is well-formed when its submission record is exactly what
    /// was sent followed by what is pending.
    pub closed spec fn wf(self) -> bool {
        self.submitted_rec@ == self.sent_rec@ + self.queue.deep_view()
    }

    /// A fresh handle for a session: nothing submitted, nothing sent, open.
    pub fn new(session_id: String) -> (h: SessionHandle)
        ensures
            h.wf(),
            h.is_open(),
            h.sid() == session_id@,
            h.pending() == Seq::<Seq<char>>::empty(),
            h.sent() == Seq::<Seq<char>>::empty(),
            h.submitted() == Seq::<Seq<char>>::empty(),
    {
        let h = SessionHandle {
            session_id,
            queue: Vec::new(),
            open: true,
            sent_rec: Ghost(Seq::empty()),
            submitted_rec: Ghost(Seq::empty()),
        };
        proof {
            assert(h.queue.deep_view() =~= Seq::<Seq<char>>::empty());
        }
        h
    }

    /// Enqueues a command at the back of the queue. Fails exactly when the
    /// connection has been torn down, and then changes nothing.
    pub fn send(&mut self, command: String) -> (r: Result<(), SendError>)
        requires
            old(self).wf(),
        ensures
            final(self).wf(),
            final(self).sid() == old(self).sid(),
            final(self).sent() == old(self).sent(),
            final(self).is_open() == old(self).is_open(),
            r is Ok <==> old(self).is_open(),
            old(self).is_open() ==> final(self).pending() == old(self).pending().push(command@)
                && final(self).submitted() == old(self).submitted().push(command@),
            !old(self).is_open() ==> r == Err::<(), SendError>(SendError::QueueClosed)
                && final(self).pending() == old(self).pending() && final(self).submitted() == old(
                self,
            ).submitted(),
    {
        if !self.open {
            return Err(SendError::QueueClosed);
        }
        let ghost c = command@;
        self.queue.push(command);
        self.submitted_rec = Ghost(self.submitted_rec@.push(c));
        proof {
            assert(self.queue.deep_view() =~= old(self).queue.deep_view().push(c));
            assert(self.submitted_rec@ =~= self.sent_rec@ + self.queue.deep_view());
        }
        Ok(())
    }

    /// Takes the oldest pending command off the queue and returns its wire
    /// envelope; returns nothing when the queue is empty. This is the one
    /// step of the outbound loop.
    pub fn next_frame(&mut self) -> (r: Option<String>)
        requires
            old(self).wf(),
        ensures
            final(self).wf(),
            final(self).sid() == old(self).sid(),
            final(self).is_open() == old(self).is_open(),
            final(self).submitted() == old(self).submitted(),
            r is Some <==> old(self).pending().len() > 0,
            old(self).pending().len() == 0 ==> final(self).pending() == old(self).pending()
                && final(self).sent() == old(self).sent(),
            old(self).pending().len() > 0 ==> (r matches Some(f) && f@ == envelope_spec(
                old(self).pending()[0],
            ) && final(self).pending() == old(self).pending().skip(1) && final(self).sent() == old(
                self,
            ).sent().push(old(self).pending()[0])),
    {
        if self.queue.len() == 0 {
            proof {
                assert(old(self).queue.deep_view().len() == old(self).queue@.len());
            }
            return None;
        }
        let command = self.queue.remove(0);
        let ghost c = command@;
        self.sent_rec = Ghost(self.sent_rec@.push(c));
        let frame = command_envelope(command.as_str());
        proof {
            assert(c == old(self).pending()[0]);
            assert(self.queue.deep_view() =~= old(self).queue.deep_view().skip(1));
            assert(self.submitted_rec@ =~= self.sent_rec@ + self.queue.deep_view());
        }
        Some(frame)
    }

    /// Marks the connection as torn down: every later send fails.
    pub fn close(&mut self)
        requires
            old(self).wf(),
        ensures
            final(self).wf(),
            !final(self).is_open(),
            final(self).sid() == old(self).sid(),
            final(self).pending() == old(self).pending(),
            final(self).sent() == old(self).sent(),
            final(self).submitted() == old(self).submitted(),
    {
        self.open = false;
    }

    /// The session identifier.
    pub fn session_id(&self) -> (r: &String)
        ensures
            r@ == self.sid(),
    {
        &self.session_id
    }

    /// How many commands wait in the queue.
    pub fn pending_count(&self) -> (n: usize)
        ensures
            n == self.pending().len(),
    {
        proof {
            assert(self.queue.deep_view().len() == self.queue@.len());
        }
        self.queue.len()
    }
}

/// FIFO law: in a well-formed handle the commands written to the connection
/// are exactly the earliest submitted ones, in submission order, and the
/// pending ones are exactly the rest — nothing is reordered, dropped or
/// invented.
pub proof fn lemma_fifo(h: SessionHandle)
    requires
        h.wf(),
    ensures
        h.sent().len() <= h.submitted().len(),
        h.sent() == h.submitted().take(h.sent().len() as int),
        h.pending() == h.submitted().skip(h.sent().len() as int),
{
    assert(h.sent() =~= h.submitted().take(h.sent().len() as int));
    assert(h.pending() =~= h.submitted().skip(h.sent().len() as int));
}

} // verus!
