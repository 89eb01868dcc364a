use crate::timestamp::Timestamp;
use vstd::prelude::*;

verus! {

/// A text payload on the full wire format of the gateway.
#[derive(Debug, Clone)]
pub struct TextMessageData {
    pub text_message: String,
}

/// A file payload on the full wire format of the gateway.
#[derive(Debug, Clone)]
pub struct FileMessageData {
    pub download_url: String,
    pub caption: String,
    pub file_name: String,
    pub jpeg_thumbnail: String,
    pub is_animated: bool,
    pub mime_type: String,
    pub forwarding_score: i64,
    pub is_forwarded: bool,
}

/// The message part of the full wire format.
#[derive(Debug, Clone)]
pub struct MessageData {
    pub type_message: String,
    pub text_message_data: Option<TextMessageData>,
    pub file_message_data: Option<FileMessageData>,
}

/// The sender part of the full wire format.
#[derive(Debug, Clone)]
pub struct SenderData {
    pub chat_id: String,
    pub chat_name: String,
    pub sender: String,
    pub sender_name: String,
    pub sender_contact_name: String,
}

/// The instance part of the full wire format.
#[derive(Debug, Clone)]
pub struct InstanceData {
    pub id_instance: i64,
    pub wid: String,
    pub type_instance: String,
}

/// The body of one received webhook call, full wire format.
#[derive(Debug, Clone)]
pub struct Body {
    pub type_webhook: String,
    pub instance_data: InstanceData,
    pub timestamp: i64,
    pub id_message: String,
    pub sender_data: SenderData,
    pub message_data: MessageData,
}

/// One received webhook call with its receipt id, full wire format.
#[derive(Debug, Clone)]
pub struct RootMsg {
    pub receipt_id: i64,
    pub body: Body,
}

/// An outbound message on the wire.
#[derive(Debug, Clone, PartialEq, Eq)]
pub struct SendMessage {
    pub chat_id: String,
    pub message: String,
}

/// A flat, single-struct shape of an order in progress: every field in
/// one record, with the phase as a plain label.
#[derive(Debug, Clone)]
pub struct Order {
    pub chat_id: String,
    pub customer_name: String,
    pub paper: String,
    pub size: String,
    pub images: Vec<String>,
    pub state: &'static str,
    pub last_update_time: Timestamp,
    pub iter_count: i32,
}

impl Order {
    /// A blank order in the `"new"` state, stamped with the clock now.
    pub fn new() -> (o: Order)
        ensures
            o.chat_id@ == Seq::<char>::empty(),
            o.customer_name@ == Seq::<char>::empty(),
            o.paper@ == Seq::<char>::empty(),
            o.size@ == Seq::<char>::empty(),
            o.images@.len() == 0,
            o.state@ == "new"@,
            o.iter_count == 0,
    {
        proof {
            reveal_strlit("");
            assert(""@ =~= Seq::<char>::empty());
        }
        Order {
            chat_id: String::from_str(""),
            customer_name: String::from_str(""),
            paper: String::from_str(""),
            size: String::from_str(""),
            images: Vec::new(),
            state: "new",
            last_update_time: Timestamp::now(),
            iter_count: 0,
        }
    }
}

impl Default for Order {
    /// The blank order, as `Order::new` builds it.
    fn default() -> (o: Order)
        ensures
            o.chat_id@ == Seq::<char>::empty(),
            o.state@ == "new"@,
            o.iter_count == 0,
    {
        Order::new()
    }
}

/// The submission payload of the flat order shape: like the flow's own,
/// but without a price.
#[derive(Debug, Clone, PartialEq, Eq)]
pub struct OrderMessage {
    pub phone: String,
    pub name: String,
    pub paper_type: String,
    pub paper_size: String,
    pub files: Vec<String>,
}

impl Order {
    /// The flat record as a submission payload: the phone is the chat id
    /// up to the first `'@'`, the rest carries over.
    pub fn into_message(self) -> (m: OrderMessage)
        ensures
            m.phone@ == crate::text::phone_of(self.chat_id@),
            m.name@ == self.customer_name@,
            m.paper_type@ == self.paper@,
            m.paper_size@ == self.size@,
            m.files.deep_view() == self.images.deep_view(),
    {
        let phone = crate::text::phone_prefix(self.chat_id.as_str()).to_owned();
        OrderMessage {
            phone,
            name: self.customer_name,
            paper_type: self.paper,
            paper_size: self.size,
            files: self.images,
        }
    }
}

} // verus!
