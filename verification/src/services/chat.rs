//! Chat input.
use vstd::prelude::*;
use crate::protocol::message::Message;

verus! {

/// A line typed by the operator becomes a chat message carrying it unchanged.
pub fn parse_input(line: String) -> (msg: Message)
    ensures
        msg == Message::Chat(line),
{
    Message::Chat(line)
}

} // verus!
