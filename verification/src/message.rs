//! What an operation reports when it does not return a value.
use vstd::prelude::*;

verus! {

/// The outcome of an operation, with a text for the reader.
///
/// `InvalidPayload`: the data given breaks a rule of the operation.
/// `NotFound`: a record that the data refers to does not exist.
/// `Error`: anything else that stopped the operation.
#[derive(Debug, PartialEq, Eq)]
pub enum Message {
    Success(String),
    Error(String),
    NotFound(String),
    InvalidPayload(String),
}

/// A `Message` with its text as a sequence of characters.
pub enum MessageView {
    Success(Seq<char>),
    Error(Seq<char>),
    NotFound(Seq<char>),
    InvalidPayload(Seq<char>),
}

impl View for Message {
    type V = MessageView;

    open spec fn view(&self) -> MessageView {
        match self {
            Message::Success(text) => MessageView::Success(text@),
            Message::Error(text) => MessageView::Error(text@),
            Message::NotFound(text) => MessageView::NotFound(text@),
            Message::InvalidPayload(text) => MessageView::InvalidPayload(text@),
        }
    }
}

impl Message {
    pub fn error(text: &str) -> (m: Message)
        ensures
            m@ == MessageView::Error(text@),
    {
        Message::Error(text.to_owned())
    }

    pub fn not_found(text: &str) -> (m: Message)
        ensures
            m@ == MessageView::NotFound(text@),
    {
        Message::NotFound(text.to_owned())
    }

    pub fn invalid_payload(text: &str) -> (m: Message)
        ensures
            m@ == MessageView::InvalidPayload(text@),
    {
        Message::InvalidPayload(text.to_owned())
    }

    /// The text of the message.
    pub fn text(&self) -> (t: &String)
        ensures
            self@ == MessageView::Success(t@) || self@ == MessageView::Error(t@) || self@
                == MessageView::NotFound(t@) || self@ == MessageView::InvalidPayload(t@),
    {
        match self {
            Message::Success(text) => text,
            Message::Error(text) => text,
            Message::NotFound(text) => text,
            Message::InvalidPayload(text) => text,
        }
    }
}

/// A required field of the payload is empty.
pub open spec fn missing_fields() -> MessageView {
    MessageView::InvalidPayload("Missing required fields"@)
}

/// The product has no type, no weight or no price.
pub open spec fn invalid_product() -> MessageView {
    MessageView::InvalidPayload("Invalid product data"@)
}

/// The expense has no amount.
pub open spec fn invalid_expense() -> MessageView {
    MessageView::InvalidPayload("Invalid expense amount"@)
}

/// The date is too late for the next maintenance to have a date.
pub open spec fn invalid_date() -> MessageView {
    MessageView::InvalidPayload("Scheduled date out of range"@)
}

/// No slaughterhouse has the identifier given.
pub open spec fn no_slaughterhouse() -> MessageView {
    MessageView::NotFound("Slaughterhouse not found"@)
}

/// No animal has the identifier given.
pub open spec fn no_animal() -> MessageView {
    MessageView::NotFound("Animal not found"@)
}

/// The identifier could not be issued: the sequence is used up, or the
/// counter could not be written.
pub open spec fn counter_failed() -> MessageView {
    MessageView::Error("Counter increment failed"@)
}

/// The encoding of the record is over the bound of the stores.
pub open spec fn record_too_large() -> MessageView {
    MessageView::Error("Record exceeds the size bound"@)
}

/// A total is more than 64 bits hold.
pub open spec fn total_out_of_range() -> MessageView {
    MessageView::Error("Total out of range"@)
}

/// What the durable memory holds cannot be read as a ledger.
pub open spec fn unreadable() -> MessageView {
    MessageView::Error("Stored data cannot be read"@)
}

} // verus!
