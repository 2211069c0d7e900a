//! The ordered command queue between front-ends and the engine.
//!
//! Producers enqueue without blocking and observe only one failure: the
//! consumer is gone (`ChannelClosed`), which they tolerate silently. The
//! engine is the sole consumer and sees commands in send order.

use vstd::prelude::*;
use crate::types::{Command, ErrorKind};

verus! {

/// A first-in, first-out queue of pending commands. Its view is the sequence
/// of commands sent and not yet consumed, oldest first.
pub struct CommandQueue {
    items: Vec<Command>,
    closed: bool,
}

impl CommandQueue {
    /// The pending commands, in the order the consumer will see them.
    pub closed spec fn pending(self) -> Seq<Command> {
        self.items@
    }

    /// Whether the consumer has terminated and the queue takes no more.
    pub closed spec fn is_closed(self) -> bool {
        self.closed
    }

    pub fn new() -> (q: CommandQueue)
        ensures
            q.pending() == Seq::<Command>::empty(),
            !q.is_closed(),
    {
        CommandQueue { items: Vec::new(), closed: false }
    }

    /// Enqueue a command without blocking. After the consumer has closed the
    /// queue this is a no-op failure the producer must tolerate.
    pub fn send(&mut self, c: Command) -> (r: Result<(), ErrorKind>)
        ensures
            old(self).is_closed() ==> {
                &&& r == Result::<(), ErrorKind>::Err(ErrorKind::ChannelClosed)
                &&& final(self).pending() == old(self).pending()
                &&& final(self).is_closed()
            },
            !old(self).is_closed() ==> {
                &&& r == Result::<(), ErrorKind>::Ok(())
                &&& final(self).pending() == old(self).pending().push(c)
                &&& !final(self).is_closed()
            },
    {
        if self.closed {
            Err(ErrorKind::ChannelClosed)
        } else {
            self.items.push(c);
            Ok(())
        }
    }

    /// Take the oldest pending command, if any. Commands leave in the order
    /// they were sent.
    pub fn try_recv(&mut self) -> (r: Option<Command>)
        ensures
            old(self).pending().len() == 0 ==> {
                &&& r is None
                &&& final(self).pending() == old(self).pending()
            },
            old(self).pending().len() > 0 ==> {
                &&& r == Some(old(self).pending()[0])
                &&& final(self).pending() == old(self).pending().drop_first()
            },
            final(self).is_closed() == old(self).is_closed(),
    {
        if self.items.len() == 0 {
            None
        } else {
            let c = self.items.remove(0);
            assert(final(self).pending() =~= old(self).pending().drop_first());
            Some(c)
        }
    }

    /// Close the queue when the consumer terminates; later sends fail.
    pub fn close(&mut self)
        ensures
            final(self).is_closed(),
            final(self).pending() == old(self).pending(),
    {
        self.closed = true;
    }

    pub fn len(&self) -> (n: usize)
        ensures
            n == self.pending().len(),
    {
        self.items.len()
    }
}

/// Delivery order: two sends from one producer are consumed in send order —
/// after sending `a` then `b`, `a` stands before `b` among the pending
/// commands, whatever was pending already.
pub proof fn lemma_send_order(p: Seq<Command>, a: Command, b: Command)
    ensures
        ({
            let q = p.push(a).push(b);
            &&& q[p.len() as int] == a
            &&& q[p.len() as int + 1] == b
        }),
{
}

} // verus!
