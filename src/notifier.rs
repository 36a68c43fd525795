//! The outbound chat mailbox: a channel to post to and at most one message
//! waiting to be posted. The process that posts it owns one and passes it to
//! whoever needs to notify.
use vstd::prelude::*;
use vstd::string::*;

verus! {

pub struct Discord {
    pub channel_id: Option<u64>,
    pub message: Option<String>,
}

impl Discord {
    /// An empty mailbox with no channel chosen.
    pub fn new() -> (r: Discord)
        ensures
            r.channel_id is None,
            r.message is None,
    {
        Discord { channel_id: None, message: None }
    }

    /// The channel that messages go to.
    pub fn get_channel_id(&self) -> (r: Option<u64>)
        ensures
            r == self.channel_id,
    {
        self.channel_id
    }

    /// Takes the waiting message, leaving none.
    pub fn get_message(&mut self) -> (r: Option<String>)
        ensures
            r == old(self).message,
            final(self).message is None,
            final(self).channel_id == old(self).channel_id,
    {
        self.message.take()
    }

    pub fn set_channel_id(&mut self, channel_id: &u64)
        ensures
            final(self).channel_id == Some(*channel_id),
            final(self).message == old(self).message,
    {
        self.channel_id = Some(*channel_id);
    }

    /// Puts a message in the mailbox, replacing any that was waiting.
    pub fn set_message(&mut self, message: &str)
        ensures
            final(self).message matches Some(m) && m@ == message@,
            final(self).channel_id == old(self).channel_id,
    {
        self.message = Some(String::from_str(message));
    }
}

} // verus!
