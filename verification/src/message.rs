//! Lines for the user, and outcomes with an error text.
use vstd::prelude::*;

verus! {

/// A line for the user, on the standard output or on the error output.
#[derive(Debug)]
pub enum Message {
    Out(String),
    Warn(String),
}

/// A `Message` with its text as a sequence of characters.
pub enum MessageView {
    Out(Seq<char>),
    Warn(Seq<char>),
}

impl View for Message {
    type V = MessageView;

    open spec fn view(&self) -> MessageView {
        match self {
            Message::Out(text) => MessageView::Out(text@),
            Message::Warn(text) => MessageView::Warn(text@),
        }
    }
}

/// The views of messages, in order.
pub open spec fn messages_view(messages: Seq<Message>) -> Seq<MessageView> {
    messages.map_values(|m: Message| m@)
}

/// An outcome with its error text as a sequence of characters.
pub open spec fn outcome_view(outcome: Result<(), String>) -> Result<(), Seq<char>> {
    match outcome {
        Ok(()) => Ok(()),
        Err(text) => Err(text@),
    }
}

/// Messages keep their stream and their text, one by one and in order.
pub proof fn messages_are_seen_as_they_are(messages: Seq<Message>, i: int)
    requires
        0 <= i < messages.len(),
    ensures
        messages_view(messages).len() == messages.len(),
        messages[i] matches Message::Out(text) ==> messages_view(messages)[i] == MessageView::Out(
            text@,
        ),
        messages[i] matches Message::Warn(text) ==> messages_view(messages)[i]
            == MessageView::Warn(text@),
{
}

/// Outcomes keep whether they are a success, and their error text.
pub proof fn outcomes_are_seen_as_they_are(outcome: Result<(), String>)
    ensures
        outcome is Ok <==> outcome_view(outcome) is Ok,
        outcome matches Err(text) ==> outcome_view(outcome) == Err::<(), Seq<char>>(text@),
{
}

} // verus!
