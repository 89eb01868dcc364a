use vstd::prelude::*;

verus! {

/// The text payload of a webhook message.
#[derive(Debug, Clone)]
pub struct TextMessageData {
    pub text_message: String,
}

/// The file payload of a webhook message: a download reference.
#[derive(Debug, Clone)]
pub struct FileMessageData {
    pub download_url: String,
}

/// The message part of a webhook call; which payload is present follows
/// `type_message`.
#[derive(Debug, Clone)]
pub struct MessageData {
    pub type_message: String,
    pub text_message_data: Option<TextMessageData>,
    pub file_message_data: Option<FileMessageData>,
}

/// Who sent the webhook message.
#[derive(Debug, Clone)]
pub struct SenderData {
    pub chat_id: String,
    pub sender_name: String,
}

/// The root of one webhook call from the messaging gateway.
#[derive(Debug, Clone)]
pub struct HookRoot {
    pub type_webhook: String,
    pub sender_data: Option<SenderData>,
    pub message_data: Option<MessageData>,
    pub status_instance: Option<String>,
}

/// The parts a hook must carry for its declared webhook and message type.
pub open spec fn hook_wf(m: HookRoot) -> bool {
    &&& m.type_webhook@ == "incomingMessageReceived"@ ==> {
        &&& m.sender_data is Some
        &&& m.message_data is Some
        &&& (match m.message_data {
            Some(md) => {
                &&& md.type_message@ == "imageMessage"@ ==> md.file_message_data is Some
                &&& md.type_message@ == "textMessage"@ ==> md.text_message_data is Some
            },
            None => true,
        })
    }
    &&& m.type_webhook@ == "statusInstanceChanged"@ ==> m.status_instance is Some
}

} // verus!
