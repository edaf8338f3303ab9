//! The cross-thread bridge, modelled: an unbounded FIFO queue of command
//! payloads. The listener appends, the consumer pops the head; a pop from an
//! empty queue is the fatal payload-receiving error of a gone producer.

use vstd::prelude::*;

use crate::chat::CommandPayload;

verus! {

/// The one fatal bridge condition: the queue is empty although the consumer
/// was woken, so the producer side is gone.
#[derive(Clone, Copy, Debug, PartialEq, Eq, Structural)]
pub enum BridgeError {
    Disconnected,
}

/// The FIFO queue between the listener and the consumer.
pub struct Bridge {
    queue: Vec<CommandPayload>,
}

impl View for Bridge {
    type V = Seq<CommandPayload>;

    closed spec fn view(&self) -> Seq<CommandPayload> {
        self.queue@
    }
}

impl Bridge {
    /// An empty bridge.
    pub fn new() -> (b: Bridge)
        ensures
            b@ == Seq::<CommandPayload>::empty(),
    {
        Bridge { queue: Vec::new() }
    }

    /// Appends a payload; never blocks the producer.
    pub fn send(&mut self, payload: CommandPayload)
        ensures
            final(self)@ == old(self)@.push(payload),
    {
        self.queue.push(payload);
    }

    /// Pops the head of the queue. An empty queue means the producer failed:
    /// the error is reported, never silently swallowed.
    pub fn recv(&mut self) -> (r: Result<CommandPayload, BridgeError>)
        ensures
            old(self)@.len() > 0 ==> (r matches Ok(p) && p == old(self)@[0] && final(self)@
                == old(self)@.drop_first()),
            old(self)@.len() == 0 ==> (r matches Err(e) && e == BridgeError::Disconnected && final(
                self)@ == old(self)@),
    {
        if self.queue.len() == 0 {
            Err(BridgeError::Disconnected)
        } else {
            let p = self.queue.remove(0);
            proof {
                assert(self.queue@ =~= old(self)@.drop_first());
            }
            Ok(p)
        }
    }

    /// How many payloads wait.
    pub fn len(&self) -> (n: usize)
        ensures
            n == self@.len(),
    {
        self.queue.len()
    }
}

/// The payloads successive receives deliver, head first.
pub open spec fn drain(q: Seq<CommandPayload>) -> Seq<CommandPayload>
    decreases q.len(),
{
    if q.len() == 0 {
        Seq::empty()
    } else {
        seq![q[0]] + drain(q.drop_first())
    }
}

/// Bridge ordering: draining the queue delivers exactly the queued payloads
/// in queue order, so payloads sent from the listener in some order are
/// processed by the consumer in that exact order, with no reordering.
pub proof fn lemma_bridge_fifo(q: Seq<CommandPayload>)
    ensures
        drain(q) == q,
    decreases q.len(),
{
    if q.len() > 0 {
        lemma_bridge_fifo(q.drop_first());
        assert(seq![q[0]] + q.drop_first() =~= q);
    }
}

} // verus!
