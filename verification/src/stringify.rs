//! Which protocol messages get a rendering in the message trace. The rendering
//! itself, the derived `Debug` text of the message's payload, is made by the caller.

use vstd::prelude::*;
use crate::messages::V2Message;

verus! {

/// The messages whose payload is rendered; the refusals of a setup or channel
/// request are shown as "?unknown?".
pub open spec fn has_rendering(msg: V2Message) -> bool {
    !(msg is SetupMiningConnectionError || msg is OpenChannelError)
}

/// Collects the last visited message that has a rendering.
pub struct StringifyV2<'a>(Option<&'a V2Message>);

impl<'a> StringifyV2<'a> {
    /// The message collected so far, if any.
    pub closed spec fn collected(&self) -> Option<V2Message> {
        match self.0 {
            Some(m) => Some(*m),
            None => None,
        }
    }

    /// Nothing collected yet.
    pub fn new() -> (r: Self)
        ensures
            r.collected() is None,
    {
        StringifyV2(None)
    }

    /// Visits `msg`: a message with a rendering replaces what was collected, any
    /// other message leaves it.
    pub fn accept(&mut self, msg: &'a V2Message)
        ensures
            final(self).collected() == (if has_rendering(*msg) {
                Some(*msg)
            } else {
                old(self).collected()
            }),
            final(self).collected() == (if msg is SetupMiningConnectionError || msg is OpenChannelError {
                old(self).collected()
            } else {
                Some(*msg)
            }),
    {
        match msg {
            V2Message::SetupMiningConnectionError(_) => {},
            V2Message::OpenChannelError(_) => {},
            _ => {
                self.0 = Some(msg);
            },
        }
    }

    /// The message collected, if any.
    pub fn get(&self) -> (r: Option<&'a V2Message>)
        ensures
            self.collected() == (match r {
                Some(m) => Some(*m),
                None => None,
            }),
    {
        self.0
    }

    /// The message whose payload is to be rendered for `msg`: `msg` itself when it
    /// has a rendering, and `None` (shown as "?unknown?") otherwise.
    pub fn print(msg: &'a V2Message) -> (r: Option<&'a V2Message>)
        ensures
            r == (if has_rendering(*msg) {
                Some(msg)
            } else {
                None
            }),
            r is None <==> (msg is SetupMiningConnectionError || msg is OpenChannelError),
            r matches Some(m) ==> m == msg,
    {
        let mut handler = Self::new();
        handler.accept(msg);
        handler.get()
    }
}

/// Every message has a rendering except the refusals of a setup or channel request:
/// the requests, their successes, jobs, announcements, targets, shares and share
/// acknowledgements are all rendered.
pub proof fn lemma_rendered_messages(msg: V2Message)
    ensures
        has_rendering(msg) <==> !(msg is SetupMiningConnectionError || msg is OpenChannelError),
        msg is SubmitShares ==> has_rendering(msg),
        msg is SubmitSharesSuccess ==> has_rendering(msg),
        msg is NewMiningJob ==> has_rendering(msg),
        msg is SetNewPrevHash ==> has_rendering(msg),
        msg is SetTarget ==> has_rendering(msg),
        msg is SetupMiningConnection ==> has_rendering(msg),
        msg is SetupMiningConnectionSuccess ==> has_rendering(msg),
        msg is OpenChannel ==> has_rendering(msg),
        msg is OpenChannelSuccess ==> has_rendering(msg),
{
}

} // verus!
