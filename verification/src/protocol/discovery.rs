//! Service discovery queries.
use vstd::prelude::*;
use crate::protocol::message::{Message, MessageView};

verus! {

/// A query that asks the network for nodes offering `service_type`.
pub fn service_query(service_type: &str) -> (query: Message)
    ensures
        query@ == (MessageView::ServiceDiscovery { service_type: service_type@ }),
{
    Message::ServiceDiscovery { service_type: service_type.to_owned() }
}

} // verus!
