//! A chat message and the text frame that carries it to a client.

use vstd::prelude::*;

verus! {

/// A message sent in a room.
#[derive(Clone, Debug)]
pub struct ChatMessage {
    /// What kind of message this is (`"msg"` for chat text).
    pub message_type: String,
    pub sender: String,
    pub data: String,
}

/// The text frame `["msg","<data>","<sender>"]`, with `data` and `sender`
/// inserted as they are.
pub open spec fn text_frame(data: Seq<char>, sender: Seq<char>) -> Seq<char> {
    seq!['[', '"', 'm', 's', 'g', '"', ',', '"'] + data + seq!['"', ',', '"'] + sender + seq!['"', ']']
}

/// The frame of a message is `["msg","`, the whole data, `","`, the whole
/// sender and `"]`, in that order.
pub proof fn lemma_frame_layout(data: Seq<char>, sender: Seq<char>)
    ensures
        text_frame(data, sender).len() == data.len() + sender.len() + 13,
        text_frame(data, sender).subrange(0, 8) == seq!['[', '"', 'm', 's', 'g', '"', ',', '"'],
        text_frame(data, sender).subrange(8, 8 + (data.len() as int)) == data,
        text_frame(data, sender).subrange(8 + (data.len() as int), 11 + (data.len() as int)) == seq!['"', ',', '"'],
        text_frame(data, sender).subrange(11 + (data.len() as int), 11 + (data.len() as int) + (sender.len() as int)) == sender,
        text_frame(data, sender).subrange(11 + (data.len() as int) + (sender.len() as int), 13 + (data.len() as int) + (sender.len() as int))
            == seq!['"', ']'],
{
    let f = text_frame(data, sender);
    let d = data.len() as int;
    let n = sender.len() as int;
    assert(f.subrange(0, 8) =~= seq!['[', '"', 'm', 's', 'g', '"', ',', '"']);
    assert(f.subrange(8, 8 + d) =~= data);
    assert(f.subrange(8 + d, 11 + d) =~= seq!['"', ',', '"']);
    assert(f.subrange(11 + d, 11 + d + n) =~= sender);
    assert(f.subrange(11 + d + n, 13 + d + n) =~= seq!['"', ']']);
}

impl ChatMessage {
    /// The text frame that delivers this message to a client.
    pub fn to_frame(&self) -> (frame: String)
        ensures
            frame@ == text_frame(self.data@, self.sender@),
            frame@.len() == (self.data@.len() as int) + (self.sender@.len() as int) + 13,
            frame@.subrange(0, 8) == seq!['[', '"', 'm', 's', 'g', '"', ',', '"'],
            frame@.subrange(8, 8 + (self.data@.len() as int)) == self.data@,
            frame@.subrange(8 + (self.data@.len() as int), 11 + (self.data@.len() as int)) == seq!['"', ',', '"'],
            frame@.subrange(11 + (self.data@.len() as int), 11 + (self.data@.len() as int) + (self.sender@.len() as int))
                == self.sender@,
            frame@.subrange(
                11 + (self.data@.len() as int) + (self.sender@.len() as int),
                13 + (self.data@.len() as int) + (self.sender@.len() as int),
            ) == seq!['"', ']'],
    {
        proof {
            reveal_strlit("[\"msg\",\"");
            reveal_strlit("\",\"");
            reveal_strlit("\"]");
        }
        let frame = String::from_str("[\"msg\",\"");
        let frame = frame.concat(self.data.as_str());
        let frame = frame.concat("\",\"");
        let frame = frame.concat(self.sender.as_str());
        let frame = frame.concat("\"]");
        assert(frame@ =~= text_frame(self.data@, self.sender@));
        proof {
            lemma_frame_layout(self.data@, self.sender@);
        }
        frame
    }
}

} // verus!
