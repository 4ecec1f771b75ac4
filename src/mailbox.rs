//! Per-actor FIFO mailboxes.
use vstd::prelude::*;

use std::collections::VecDeque;

use crate::message::{MessageView, TransportMessage};

verus! {

/// Sending to a mailbox whose actor has stopped.
#[derive(Debug, PartialEq, Eq, Structural)]
pub struct MailboxClosed;

/// The mathematical value of a mailbox: the queued envelopes, oldest first,
/// and whether it still accepts envelopes.
pub struct MailboxView {
    pub queue: Seq<MessageView>,
    pub open: bool,
}

/// Views of a sequence of envelopes.
pub open spec fn message_views(s: Seq<TransportMessage>) -> Seq<MessageView> {
    s.map_values(|m: TransportMessage| m@)
}

/// A new mailbox: open and empty.
pub open spec fn empty_mailbox() -> MailboxView {
    MailboxView { queue: Seq::empty(), open: true }
}

/// A closed mailbox: it holds nothing and accepts nothing.
pub open spec fn closed_mailbox() -> MailboxView {
    MailboxView { queue: Seq::empty(), open: false }
}

/// The mailbox after a send of `msg`, and whether the send succeeded.
pub open spec fn send_spec(m: MailboxView, msg: MessageView) -> (MailboxView, bool) {
    if m.open {
        (MailboxView { queue: m.queue.push(msg), open: true }, true)
    } else {
        (m, false)
    }
}

/// The mailbox after a receive, and the envelope received.
pub open spec fn receive_spec(m: MailboxView) -> (MailboxView, Option<MessageView>) {
    if m.open && m.queue.len() > 0 {
        (MailboxView { queue: m.queue.drop_first(), open: true }, Some(m.queue[0]))
    } else {
        (m, None)
    }
}

/// The mailbox after sending each of `msgs` in turn.
pub open spec fn send_all(m: MailboxView, msgs: Seq<MessageView>) -> MailboxView
    decreases msgs.len(),
{
    if msgs.len() == 0 {
        m
    } else {
        send_all(send_spec(m, msgs[0]).0, msgs.drop_first())
    }
}

/// What `n` receives in a row return, those that return an envelope, in order.
pub open spec fn receive_n(m: MailboxView, n: nat) -> Seq<MessageView>
    decreases n,
{
    if n == 0 {
        Seq::empty()
    } else {
        let (m2, r) = receive_spec(m);
        match r {
            Some(msg) => seq![msg] + receive_n(m2, (n - 1) as nat),
            None => receive_n(m2, (n - 1) as nat),
        }
    }
}

/// The queue of envelopes delivered to one actor.
pub struct Mailbox {
    queue: VecDeque<TransportMessage>,
    open: bool,
}

impl View for Mailbox {
    type V = MailboxView;

    closed spec fn view(&self) -> MailboxView {
        MailboxView { queue: message_views(self.queue@), open: self.open }
    }
}

impl Mailbox {
    /// An open, empty mailbox.
    pub fn new() -> (r: Mailbox)
        ensures
            r@ == empty_mailbox(),
    {
        let r = Mailbox { queue: VecDeque::new(), open: true };
        assert(r@.queue =~= Seq::<MessageView>::empty());
        r
    }

    /// True while the mailbox accepts envelopes.
    pub fn is_open(&self) -> (r: bool)
        ensures
            r == self@.open,
    {
        self.open
    }

    /// Number of envelopes waiting.
    pub fn len(&self) -> (r: usize)
        ensures
            r == self@.queue.len(),
    {
        self.queue.len()
    }

    /// Queues `msg` behind the envelopes already waiting; fails when closed.
    pub fn send(&mut self, msg: TransportMessage) -> (r: Result<(), MailboxClosed>)
        ensures
            final(self)@ == send_spec(old(self)@, msg@).0,
            r is Ok == send_spec(old(self)@, msg@).1,
    {
        if self.open {
            self.queue.push_back(msg);
            proof {
                assert(message_views(self.queue@) =~= message_views(old(self).queue@).push(msg@));
            }
            Ok(())
        } else {
            Err(MailboxClosed)
        }
    }

    /// Takes the oldest waiting envelope. This does not wait: it returns
    /// `None` when nothing is queued or the mailbox is closed.
    pub fn receive(&mut self) -> (r: Option<TransportMessage>)
        ensures
            final(self)@ == receive_spec(old(self)@).0,
            match r {
                Some(m) => receive_spec(old(self)@).1 == Some(m@),
                None => receive_spec(old(self)@).1 is None,
            },
    {
        if !self.open {
            return None;
        }
        let r = self.queue.pop_front();
        proof {
            if r is Some {
                assert(message_views(self.queue@) =~= message_views(old(self).queue@).drop_first());
            }
        }
        r
    }

    /// Closes the mailbox: waiting envelopes are dropped and every later send fails.
    pub fn close(&mut self)
        ensures
            final(self)@ == closed_mailbox(),
    {
        self.queue = VecDeque::new();
        self.open = false;
        assert(self@.queue =~= Seq::<MessageView>::empty());
    }
}

/// Sending each of `msgs` to an open mailbox appends them to its queue, in order.
pub proof fn lemma_send_all_appends(m: MailboxView, msgs: Seq<MessageView>)
    requires
        m.open,
    ensures
        send_all(m, msgs) == (MailboxView { queue: m.queue + msgs, open: true }),
    decreases msgs.len(),
{
    if msgs.len() > 0 {
        let m1 = send_spec(m, msgs[0]).0;
        lemma_send_all_appends(m1, msgs.drop_first());
        assert(m.queue.push(msgs[0]) + msgs.drop_first() =~= m.queue + msgs);
    } else {
        assert(m.queue + msgs =~= m.queue);
    }
}

/// Receiving as many times as an open mailbox holds envelopes returns them
/// all, oldest first.
pub proof fn lemma_receive_n_drains(q: Seq<MessageView>)
    ensures
        receive_n(MailboxView { queue: q, open: true }, q.len()) == q,
    decreases q.len(),
{
    if q.len() > 0 {
        lemma_receive_n_drains(q.drop_first());
        assert(seq![q[0]] + q.drop_first() =~= q);
    }
}

/// FIFO: envelopes sent to an open, empty mailbox are received in the order
/// in which they were sent.
pub proof fn lemma_fifo(m: MailboxView, msgs: Seq<MessageView>)
    requires
        m.open,
        m.queue.len() == 0,
    ensures
        receive_n(send_all(m, msgs), msgs.len()) == msgs,
{
    lemma_send_all_appends(m, msgs);
    assert(m.queue + msgs =~= msgs);
    lemma_receive_n_drains(msgs);
}

/// Once a mailbox is closed, every send fails and leaves it unchanged.
pub proof fn lemma_send_after_close(m: MailboxView, msg: MessageView)
    requires
        !m.open,
    ensures
        send_spec(m, msg) == (m, false),
{
}

} // verus!
