use vstd::prelude::*;
use std::sync::mpsc::Sender;
use crate::channel::{offer_phrase, offered_phrases};

verus! {

/// Queues phrases for the single thread that types them, so that phrases
/// from cracks in quick succession never interleave.
pub struct MacroQueue {
    sender: Sender<String>,
}

impl MacroQueue {
    /// The channel end through which the queue feeds the typing thread.
    pub closed spec fn channel(&self) -> Sender<String> {
        self.sender
    }

    /// The phrases handed to the typing thread through the queue's channel,
    /// oldest first.
    pub open spec fn queued(&self) -> Seq<Seq<char>> {
        offered_phrases(self.channel())
    }

    /// A queue that feeds the typing thread behind `sender`.
    pub fn with_sender(sender: Sender<String>) -> (q: MacroQueue)
        ensures
            q.channel() == sender,
    {
        MacroQueue { sender }
    }

    /// Queues a phrase to be typed, followed by Return: the phrase is handed
    /// to the typing thread behind the queue's channel, after every phrase
    /// queued before it. It does not wait for the typing, and when the typing
    /// thread has ended the phrase is dropped.
    pub fn send(&mut self, phrase: String)
        ensures
            final(self).queued() == old(self).queued().push(phrase@),
    {
        offer_phrase(&mut self.sender, phrase);
    }
}

} // verus!
