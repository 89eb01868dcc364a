use vstd::prelude::*;

verus! {

/// One outbound message to the transport: a chat id and a text.
#[derive(Debug, Clone, PartialEq, Eq)]
pub struct SendMessage {
    pub chat_id: String,
    pub message: String,
}

} // verus!
