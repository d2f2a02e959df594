//! A message as it travels between the front ends and the transports.

use vstd::prelude::*;

verus! {

/// One message. The identifier is the 128-bit value of its UUID.
#[derive(Debug, Clone)]
pub struct Message {
    pub id: u128,
    pub sender: String,
    pub recipient: String,
    pub content: String,
    /// Seconds since the Unix epoch.
    pub timestamp: u64,
    pub encrypted: bool,
    pub message_type: String,
    pub encryption_status: String,
}

/// Mathematical value of a [`Message`].
pub struct MessageModel {
    pub id: u128,
    pub sender: Seq<char>,
    pub recipient: Seq<char>,
    pub content: Seq<char>,
    pub timestamp: nat,
    pub encrypted: bool,
    pub message_type: Seq<char>,
    pub encryption_status: Seq<char>,
}

impl View for Message {
    type V = MessageModel;

    open spec fn view(&self) -> MessageModel {
        MessageModel {
            id: self.id,
            sender: self.sender@,
            recipient: self.recipient@,
            content: self.content@,
            timestamp: self.timestamp as nat,
            encrypted: self.encrypted,
            message_type: self.message_type@,
            encryption_status: self.encryption_status@,
        }
    }
}

/// `Uuid::new_v4` of the uuid crate, as its 128-bit value: a fresh random
/// identifier. Nothing is known of the value.
#[verifier::external_body]
pub(crate) fn fresh_id() -> (id: u128) {
    uuid::Uuid::new_v4().as_u128()
}

/// What the uuid crate writes for the UUID of a 128-bit value: its
/// hyphenated form in lower case.
pub uninterp spec fn uuid_text(id: u128) -> Seq<char>;

/// `Uuid::from_u128` of the uuid crate, then `to_string` on the result. The
/// text depends on the value alone; Verus knows it by name only.
#[verifier::external_body]
fn write_uuid(id: u128) -> (text: String)
    ensures
        text@ == uuid_text(id),
{
    uuid::Uuid::from_u128(id).to_string()
}

impl Message {
    /// The identifier as the text of a UUID.
    pub fn id_text(&self) -> (text: String)
        ensures
            text@ == uuid_text(self.id),
    {
        write_uuid(self.id)
    }

    /// A message with a fresh random identifier.
    pub fn fresh(
        sender: &str,
        recipient: &str,
        content: &str,
        timestamp: u64,
        encrypted: bool,
        message_type: &str,
        encryption_status: &str,
    ) -> (message: Message)
        ensures
            message@ == (MessageModel {
                id: message.id,
                sender: sender@,
                recipient: recipient@,
                content: content@,
                timestamp: timestamp as nat,
                encrypted,
                message_type: message_type@,
                encryption_status: encryption_status@,
            }),
    {
        Message {
            id: fresh_id(),
            sender: sender.to_owned(),
            recipient: recipient.to_owned(),
            content: content.to_owned(),
            timestamp,
            encrypted,
            message_type: message_type.to_owned(),
            encryption_status: encryption_status.to_owned(),
        }
    }

    /// A copy of the message.
    pub fn duplicate(&self) -> (copy: Message)
        ensures
            copy == *self,
    {
        Message {
            id: self.id,
            sender: self.sender.clone(),
            recipient: self.recipient.clone(),
            content: self.content.clone(),
            timestamp: self.timestamp,
            encrypted: self.encrypted,
            message_type: self.message_type.clone(),
            encryption_status: self.encryption_status.clone(),
        }
    }
}

} // verus!
