//! The unit of conversation with the language model.

use vstd::prelude::*;

verus! {

/// One message of a conversation with the language model.
#[derive(Debug, PartialEq, Eq)]
pub struct Message {
    /// Who speaks: `system`, `user` or `assistant`.
    pub role: String,
    /// What is said.
    pub content: String,
}

/// A message as a mathematical record.
pub struct MessageView {
    pub role: Seq<char>,
    pub content: Seq<char>,
}

impl View for Message {
    type V = MessageView;

    open spec fn view(&self) -> MessageView {
        MessageView { role: self.role@, content: self.content@ }
    }
}

/// A conversation as a sequence of mathematical records.
pub open spec fn conversation_view(messages: Seq<Message>) -> Seq<MessageView> {
    messages.map_values(|m: Message| m@)
}

/// The text that a reply of the language model stands for: the content of
/// its first choice. A reply without a choice stands for no text.
pub fn first_choice(choices: Vec<String>) -> (text: Option<String>)
    ensures
        choices@.len() == 0 ==> text is None,
        choices@.len() > 0 ==> (text matches Some(content) && content@ == choices@[0]@),
{
    let mut choices = choices;
    if choices.len() == 0 {
        None
    } else {
        Some(choices.swap_remove(0))
    }
}

impl Clone for Message {
    fn clone(&self) -> (copy: Message)
        ensures
            copy@ == self@,
    {
        Message { role: self.role.clone(), content: self.content.clone() }
    }
}

} // verus!
