use vstd::prelude::*;

verus! {

/// A chat message sent to a room.
#[derive(Clone, Debug)]
pub struct ChatMessageModel {
    pub room: i64,
    pub sender_id: String,
    pub message: String,
}

impl Default for ChatMessageModel {
    fn default() -> (r: Self)
        ensures
            r.room == 0,
            r.sender_id@ == Seq::<char>::empty(),
            r.message@ == Seq::<char>::empty(),
    {
        ChatMessageModel { room: 0, sender_id: String::new(), message: String::new() }
    }
}

} // verus!
