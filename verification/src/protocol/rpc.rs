//! Remote procedure call messages.
use vstd::prelude::*;
use crate::protocol::message::Message;

verus! {

/// An RPC message that invokes `method` with `params`.
pub fn message(method: String, params: Vec<String>) -> (rpc: Message)
    ensures
        rpc == (Message::RPC { method, params }),
{
    Message::RPC { method, params }
}

} // verus!
