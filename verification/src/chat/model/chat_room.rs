//! What one chat session does with the frames its client sends and when its
//! client goes away.

use vstd::prelude::*;
use crate::chat::model::chat_context::{ChatContext, rooms_nonempty, without_connection};
use crate::chat::model::chat_message::ChatMessage;

verus! {

/// One client's chat session: the room it talks in, the key of its
/// connection, and the user who sends.
pub struct ChatSession {
    pub room: String,
    pub connection: u128,
    pub sender: String,
}

/// A message to pass on: to every connection in `recipients`, and to the
/// message store.
pub struct Delivery {
    pub message: ChatMessage,
    pub recipients: Vec<u128>,
}

impl ChatSession {
    /// What to do with the text `text` from this session's client. Nothing
    /// when the room has no connection any more or the text is empty.
    /// Otherwise the text becomes a `"msg"` message of this sender; when
    /// more than one connection listens to the room, every connection but
    /// this session's own gets it.
    pub fn handle_text<A>(&self, clients: &ChatContext<A>, text: String) -> (delivery: Option<Delivery>)
        ensures
            delivery is None <==> (!clients@.dom().contains(self.room@) || text@.len() == 0),
            delivery matches Some(d) ==> {
                &&& d.message.message_type@ == seq!['m', 's', 'g']
                &&& d.message.data@ == text@
                &&& d.message.sender@ == self.sender@
                &&& d.recipients@.no_duplicates()
                &&& forall|k: u128| #[trigger]
                    d.recipients@.contains(k) <==> {
                        &&& clients@[self.room@].len() > 1
                        &&& clients@[self.room@].dom().contains(k)
                        &&& k != self.connection
                    }
            },
    {
        if !clients.contains_room(&self.room) || text.as_str().is_empty() {
            return None;
        }
        proof {
            reveal_strlit("msg");
        }
        let message = ChatMessage {
            message_type: String::from_str("msg"),
            data: text,
            sender: self.sender.clone(),
        };
        let recipients = if clients.connection_count(&self.room) > 1 {
            clients.other_connections(&self.room, self.connection)
        } else {
            Vec::new()
        };
        Some(Delivery { message, recipients })
    }

    /// Unregisters this session's connection when its client goes away; the
    /// room is dropped when no connection is left in it.
    pub fn finished<A>(&self, clients: &mut ChatContext<A>)
        requires
            old(clients)@.dom().contains(self.room@),
        ensures
            final(clients)@ == without_connection(old(clients)@, self.room@, self.connection),
            rooms_nonempty(final(clients)@),
    {
        clients.remove_connection(&self.room, self.connection);
    }
}

} // verus!
