//! Naming of the room that two users share.

use vstd::prelude::*;
use crate::chat::model::chat_context::{ChatContext, rooms_nonempty, with_connection};
use crate::text::{bytes_less, bytes_lt, utf8, lemma_bytes_lt_asymmetric, lemma_bytes_lt_total, lemma_utf8_injective};

verus! {

/// The room of `sender` and `receiver`: the two names joined by `-`, the one
/// that comes first in byte order first, so both ends of a conversation meet
/// in the same room.
pub open spec fn room_name(sender: Seq<char>, receiver: Seq<char>) -> Seq<char> {
    if bytes_lt(utf8(sender), utf8(receiver)) {
        sender + seq!['-'] + receiver
    } else {
        receiver + seq!['-'] + sender
    }
}

/// Names the room where `sender` and `receiver` exchange messages.
pub fn create_room(sender: String, receiver: String) -> (room: String)
    ensures
        room@ == room_name(sender@, receiver@),
{
    proof {
        reveal_strlit("-");
    }
    if bytes_less(sender.as_str().as_bytes(), receiver.as_str().as_bytes()) {
        sender.concat("-").concat(receiver.as_str())
    } else {
        receiver.concat("-").concat(sender.as_str())
    }
}

/// Both users of a conversation get the same room, whichever of them asks.
pub proof fn lemma_room_is_symmetric(a: Seq<char>, b: Seq<char>)
    ensures
        room_name(a, b) == room_name(b, a),
{
    lemma_bytes_lt_asymmetric(utf8(a), utf8(b));
    lemma_bytes_lt_total(utf8(a), utf8(b));
    lemma_utf8_injective(a, b);
}

/// Registers connection `key` of `room`, served at address `addr`, in the
/// shared table `address`; the room is created when it is missing.
pub fn add_connection<A>(address: &mut ChatContext<A>, addr: A, room: String, key: u128)
    ensures
        final(address)@ == with_connection(old(address)@, room@, key, addr),
        rooms_nonempty(final(address)@),
{
    address.insert_connection(room, key, addr);
}

} // verus!
