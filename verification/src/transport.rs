use crate::error::Error;
use crate::session::OrderMessageV;
use crate::session::OrderState;
use crate::session::StateTag;
use crate::session::order_message_of;
use crate::wa_types::SendMessage;
use crate::session::OrderMessage;
use vstd::prelude::*;

verus! {

/// The outbound side of the bot: sending texts to a chat and submitting
/// finished orders.
///
/// An implementation is modelled by two histories: `sent()` is every text
/// handed to the transport, in order, as `(chat id, text)`; `submitted()`
/// is every order submission attempted, in order.  Each call extends
/// exactly one history by exactly one entry, whether or not the delivery
/// itself succeeds — the histories count attempts, which is what the flow's
/// "exactly one prompt" and "exactly one submission" guarantees are about.
/// No method promises success: delivery is the collaborator's business.
pub trait Transport: Sized {
    open spec fn sent(&self) -> Seq<(Seq<char>, Seq<char>)> {
        Seq::empty()
    }

    open spec fn submitted(&self) -> Seq<OrderMessageV> {
        Seq::empty()
    }

    fn send_message(&mut self, chat_id: String, msg: String) -> (r: Result<(), Error>)
        ensures
            final(self).sent() == old(self).sent().push((chat_id@, msg@)),
            final(self).submitted() == old(self).submitted(),
    ;

    fn log_to_admin(&mut self, msg: String)
        ensures
            final(self).sent() == old(self).sent(),
            final(self).submitted() == old(self).submitted(),
    ;

    fn send_order(&mut self, order: OrderState) -> (r: Result<String, Error>)
        requires
            order@.tag == StateTag::SizeSelected,
        ensures
            final(self).sent() == old(self).sent(),
            final(self).submitted() == old(self).submitted().push(order_message_of(order@)),
    ;
}

/// A transport that delivers nowhere and records everything, for tests
/// and dry runs.  With `fail_orders` set, its order endpoint refuses
/// every submission after recording the attempt.
pub struct MockTransport {
    pub sent_messages: Vec<SendMessage>,
    pub submitted_orders: Vec<OrderMessage>,
    pub fail_orders: bool,
}

impl Default for MockTransport {
    /// An empty recording transport whose order endpoint accepts.
    fn default() -> (r: MockTransport)
        ensures
            r.sent_messages@.len() == 0,
            r.submitted_orders@.len() == 0,
            !r.fail_orders,
    {
        MockTransport { sent_messages: Vec::new(), submitted_orders: Vec::new(), fail_orders: false }
    }
}

impl Transport for MockTransport {
    open spec fn sent(&self) -> Seq<(Seq<char>, Seq<char>)> {
        Seq::new(
            self.sent_messages@.len(),
            |i: int| (self.sent_messages@[i].chat_id@, self.sent_messages@[i].message@),
        )
    }

    open spec fn submitted(&self) -> Seq<OrderMessageV> {
        Seq::new(self.submitted_orders@.len(), |i: int| self.submitted_orders@[i]@)
    }

    fn send_message(&mut self, chat_id: String, msg: String) -> (r: Result<(), Error>) {
        self.sent_messages.push(SendMessage { chat_id, message: msg });
        proof {
            assert(self.sent() =~= old(self).sent().push(
                (self.sent_messages@.last().chat_id@, self.sent_messages@.last().message@),
            ));
            assert(self.submitted() =~= old(self).submitted());
        }
        Ok(())
    }

    fn log_to_admin(&mut self, msg: String) {
        let _ = msg;
    }

    fn send_order(&mut self, order: OrderState) -> (r: Result<String, Error>) {
        let m = order.to_order_message();
        self.submitted_orders.push(m);
        proof {
            assert(self.submitted() =~= old(self).submitted().push(order_message_of(order@)));
            assert(self.sent() =~= old(self).sent());
        }
        if self.fail_orders {
            Err(Error::OrderFailed(String::from_str("rejected")))
        } else {
            Ok(String::new())
        }
    }
}

} // verus!
