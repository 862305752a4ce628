//! Decision of the chat endpoint.

use vstd::prelude::*;
use crate::chat::service::{create_room, room_name};
use crate::models::api::{HttpStatus, Reply, reply_view};
use crate::user::constant::Sign;

verus! {

/// What the chat endpoint does with a request to talk to a user.
pub enum ConnectAction {
    /// Turn the request down with this reply.
    Refuse(Reply),
    /// Open the chat session in this room.
    Join(String),
}

/// Turns down a client that is not signed in (`sender` is `None`); a signed-in
/// `sender` joins the room it shares with `receiver`.
pub fn websocket_step(sender: Option<String>, receiver: String) -> (action: ConnectAction)
    ensures
        match sender {
            None => action matches ConnectAction::Refuse(r) && r@ == reply_view(
                HttpStatus::Unauthorized,
                Sign::unauthorized(),
            ),
            Some(s) => action matches ConnectAction::Join(room) && room@ == room_name(s@, receiver@),
        },
{
    match sender {
        None => ConnectAction::Refuse(Reply::of(HttpStatus::Unauthorized, Sign::unauthorized())),
        Some(s) => ConnectAction::Join(create_room(s, receiver)),
    }
}

} // verus!
