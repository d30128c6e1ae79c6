//! Messages as sequences of nodes.

use vstd::prelude::*;

verus! {

/// A node of a message.
#[derive(Clone, Debug)]
pub enum MessageNode {
    /// A text node.
    String(String),
}

/// A message: its nodes in order.
pub type Message = Vec<MessageNode>;

} // verus!
